use vstd::prelude::*;

use super::{filter_map, lemma_filter_map_full, lemma_filter_map_step, opt_text, opt_update_view, text_or};
use super::{updates_view, ActorUpdate, UpdateView};
use crate::components::{Icon, Rgb, SourceStyle, SourceTag};
use crate::text::{owned, same_text};

verus! {

pub const TAG: SourceTag = SourceTag::Autobahn;

/// The style of Autobahn reports; the colour is the palette's.
pub open spec fn autobahn_style() -> SourceStyle {
    SourceStyle {
        name: "Autobahn",
        icon: Icon::Warning,
        color: Rgb { r: 255, g: 255, b: 255 },
        icon_size: 12,
        use_bearing: false,
        icon_angle_offset_deg: 0,
    }
}

pub fn style() -> (s: SourceStyle)
    ensures
        s == autobahn_style(),
{
    SourceStyle {
        name: "Autobahn",
        icon: Icon::Warning,
        color: Rgb { r: 255, g: 255, b: 255 },
        icon_size: 12,
        use_bearing: false,
        icon_angle_offset_deg: 0,
    }
}

/// The three services an Autobahn road reports through.
#[derive(Clone, Copy, Debug, PartialEq, Eq, Structural)]
pub enum ReportKind {
    Warning,
    Roadwork,
    Closure,
}

impl ReportKind {
    /// The kind's name, as labels show it.
    pub open spec fn name(self) -> Seq<char> {
        match self {
            ReportKind::Warning => "Warning"@,
            ReportKind::Roadwork => "Roadwork"@,
            ReportKind::Closure => "Closure"@,
        }
    }

    /// The kind's name, as labels show it.
    pub fn as_str(&self) -> (s: &'static str)
        ensures
            s@ == self.name(),
    {
        match self {
            ReportKind::Warning => "Warning",
            ReportKind::Roadwork => "Roadwork",
            ReportKind::Closure => "Closure",
        }
    }
}

/// A report's position; a coordinate is absent where the API gave none that reads
/// as a number.
pub struct Coordinate<V> {
    pub lat: Option<V>,
    pub long: Option<V>,
}

/// One warning, roadwork or closure report, as the map reads it.
pub struct AutobahnItem<V> {
    pub identifier: Option<String>,
    pub title: Option<String>,
    pub subtitle: Option<String>,
    pub coordinate: Option<Coordinate<V>>,
    pub is_blocked: Option<String>,
}

/// The label of a report: its kind in brackets, then title and subtitle.
pub open spec fn item_label<V>(item: AutobahnItem<V>, kind: ReportKind) -> Seq<char> {
    let title = text_or(opt_text(item.title), ""@);
    let subtitle = text_or(opt_text(item.subtitle), ""@);
    if subtitle.len() == 0 {
        "["@ + kind.name() + "] "@ + title
    } else {
        "["@ + kind.name() + "] "@ + title + subtitle
    }
}

/// The style of a report of `kind`, from the base style `s`.
pub open spec fn kind_style(s: SourceStyle, kind: ReportKind, blocked: bool) -> SourceStyle {
    match kind {
        ReportKind::Warning => SourceStyle { icon: Icon::Warning, icon_size: 14, ..s },
        ReportKind::Roadwork => SourceStyle { icon: Icon::TrafficCone, icon_size: 10, ..s },
        ReportKind::Closure => SourceStyle {
            icon: if blocked {
                Icon::Prohibit
            } else {
                Icon::RoadHorizon
            },
            icon_size: 12,
            ..s
        },
    }
}

/// Whether a report says the road is blocked.
pub open spec fn is_blocked<V>(item: AutobahnItem<V>) -> bool {
    opt_text(item.is_blocked) == Some("true"@)
}

/// The update a report gives: one where it has both coordinates.
pub open spec fn item_update<V>(item: AutobahnItem<V>, kind: ReportKind, s: SourceStyle) -> Option<
    UpdateView<V>,
> {
    match item.coordinate {
        Some(c) => match (c.lat, c.long) {
            (Some(lat), Some(lon)) => Some(
                UpdateView {
                    id: text_or(opt_text(item.identifier), "?"@),
                    label: item_label(item, kind),
                    lat,
                    lon,
                    bearing: None,
                    speed: None,
                    style: kind_style(s, kind, is_blocked(item)),
                    source_tag: SourceTag::Autobahn,
                },
            ),
            _ => None,
        },
        None => None,
    }
}

/// Whether a report has both coordinates.
pub open spec fn has_position<V>(item: AutobahnItem<V>) -> bool {
    item.coordinate matches Some(c) && c.lat is Some && c.long is Some
}

/// A report gives an update exactly when it has both coordinates. The update is at the
/// report's latitude and longitude, has the report's identifier ("?" where it has none),
/// and whatever the kind is labelled "[", the kind's name, "] ", the title and the
/// subtitle, a missing title or subtitle counting as empty. Warnings get the warning
/// glyph at size 14, roadworks the traffic cone at size 10, closures the prohibit
/// glyph when the report says "true" to being blocked and the road glyph otherwise, at
/// size 12; the rest of the style is the one given.
pub proof fn law_report_update<V>(item: AutobahnItem<V>, kind: ReportKind, s: SourceStyle)
    ensures
        has_position(item) <==> item_update(item, kind, s) is Some,
        has_position(item) ==> (item_update(item, kind, s) matches Some(u) && {
            &&& u.lat == item.coordinate->0.lat->0
            &&& u.lon == item.coordinate->0.long->0
            &&& u.id == text_or(opt_text(item.identifier), "?"@)
            &&& u.label == "["@ + kind.name() + "] "@ + text_or(opt_text(item.title), ""@) + text_or(
                opt_text(item.subtitle),
                ""@,
            )
            &&& u.source_tag == SourceTag::Autobahn
            &&& u.bearing is None
            &&& u.speed is None
            &&& u.style.name == s.name
            &&& u.style.color == s.color
            &&& u.style.use_bearing == s.use_bearing
            &&& u.style.icon_angle_offset_deg == s.icon_angle_offset_deg
            &&& (kind == ReportKind::Warning ==> u.style.icon == Icon::Warning
                && u.style.icon_size == 14)
            &&& (kind == ReportKind::Roadwork ==> u.style.icon == Icon::TrafficCone
                && u.style.icon_size == 10)
            &&& (kind == ReportKind::Closure ==> u.style.icon_size == 12 && (u.style.icon
                == Icon::Prohibit <==> opt_text(item.is_blocked) == Some("true"@)) && (
            u.style.icon == Icon::Prohibit || u.style.icon == Icon::RoadHorizon))
        }),
{
    reveal_strlit("");
    let title = text_or(opt_text(item.title), ""@);
    let subtitle = text_or(opt_text(item.subtitle), ""@);
    if subtitle.len() == 0 {
        assert("["@ + kind.name() + "] "@ + title + subtitle =~= "["@ + kind.name() + "] "@ + title);
    }
}

/// The names of the report kinds, as labels show them.
pub proof fn law_report_kind_names()
    ensures
        ReportKind::Warning.name() == "Warning"@,
        ReportKind::Roadwork.name() == "Roadwork"@,
        ReportKind::Closure.name() == "Closure"@,
        ReportKind::Warning.name() != ReportKind::Roadwork.name(),
        ReportKind::Roadwork.name() != ReportKind::Closure.name(),
        ReportKind::Warning.name() != ReportKind::Closure.name(),
{
    reveal_strlit("Warning");
    reveal_strlit("Roadwork");
    reveal_strlit("Closure");
    assert("Warning"@[0] != "Roadwork"@[0]);
    assert("Roadwork"@[0] != "Closure"@[0]);
    assert("Warning"@[0] != "Closure"@[0]);
}

impl<V> AutobahnItem<V> {
    /// The update for this report, where it has a position.
    pub fn to_update(self, kind: ReportKind, s: &SourceStyle) -> (r: Option<ActorUpdate<V>>)
        ensures
            opt_update_view(r) == item_update(self, kind, *s),
    {
        let ghost g = self;
        let AutobahnItem { identifier, title, subtitle, coordinate, is_blocked } = self;
        let (lat, lon) = match coordinate {
            Some(c) => match (c.lat, c.long) {
                (Some(lat), Some(lon)) => (lat, lon),
                _ => {
                    return None;
                },
            },
            None => {
                return None;
            },
        };
        let id = match identifier {
            Some(i) => i,
            None => owned("?"),
        };
        let t: &str = match &title {
            Some(t) => t.as_str(),
            None => "",
        };
        let st: &str = match &subtitle {
            Some(t) => t.as_str(),
            None => "",
        };
        let blocked = match &is_blocked {
            Some(b) => same_text(b.as_str(), "true"),
            None => false,
        };
        let mut label = owned("[");
        label.append(kind.as_str());
        label.append("] ");
        label.append(t);
        if !st.is_empty() {
            label.append(st);
        }
        let mut actor_style = *s;
        match kind {
            ReportKind::Warning => {
                actor_style.icon = Icon::Warning;
                actor_style.icon_size = 14;
            },
            ReportKind::Roadwork => {
                actor_style.icon = Icon::TrafficCone;
                actor_style.icon_size = 10;
            },
            ReportKind::Closure => {
                actor_style.icon = if blocked {
                    Icon::Prohibit
                } else {
                    Icon::RoadHorizon
                };
                actor_style.icon_size = 12;
            },
        }
        let r = ActorUpdate {
            id,
            label,
            lat,
            lon,
            bearing: None,
            speed: None,
            style: actor_style,
            source_tag: TAG,
        };
        assert(opt_update_view(Some(r)) =~= item_update(g, kind, *s));
        Some(r)
    }
}

/// The updates of a batch of reports of one kind: one per report with a position, in order.
pub fn items_to_updates<V>(items: Vec<AutobahnItem<V>>, kind: ReportKind, s: &SourceStyle) -> (r:
    Vec<ActorUpdate<V>>)
    ensures
        updates_view(r@) == filter_map(items@, |i: AutobahnItem<V>| item_update(i, kind, *s)),
{
    let ghost fm = |i: AutobahnItem<V>| item_update(i, kind, *s);
    let ghost all = items@;
    let mut r: Vec<ActorUpdate<V>> = Vec::new();
    for item in it: items
        invariant
            all == it.seq(),
            fm == (|i: AutobahnItem<V>| item_update(i, kind, *s)),
            updates_view(r@) == filter_map(all.take(it.index() as int), fm),
    {
        proof {
            lemma_filter_map_step(all, fm, it.index() as int);
        }
        let ghost before = r@;
        match item.to_update(kind, s) {
            Some(u) => {
                r.push(u);
                assert(updates_view(r@) =~= updates_view(before).push(u@));
            },
            None => {},
        }
    }
    proof {
        lemma_filter_map_full(all, fm);
    }
    r
}

/// The result of one fetch round: nothing when no road gave a report.
pub fn collected<V>(all: Vec<ActorUpdate<V>>) -> (r: Option<Vec<ActorUpdate<V>>>)
    ensures
        all@.len() == 0 ==> r is None,
        all@.len() > 0 ==> r == Some(all),
{
    if all.len() == 0 {
        None
    } else {
        Some(all)
    }
}

/// The path of the service that reports one kind.
pub open spec fn service_name(kind: ReportKind) -> Seq<char> {
    match kind {
        ReportKind::Warning => "warning"@,
        ReportKind::Roadwork => "roadworks"@,
        ReportKind::Closure => "closure"@,
    }
}

/// The address of the service that reports `kind` for `road`.
pub open spec fn service_address(road: Seq<char>, kind: ReportKind) -> Seq<char> {
    "https://verkehr.autobahn.de/o/autobahn/"@ + road + "/services/"@ + service_name(kind)
}

/// The address of the service that reports `kind` for `road`.
pub fn service_url(road: &str, kind: ReportKind) -> (url: String)
    ensures
        url@ == service_address(road@, kind),
{
    let mut url = owned("https://verkehr.autobahn.de/o/autobahn/");
    url.append(road);
    url.append("/services/");
    url.append(
        match kind {
            ReportKind::Warning => "warning",
            ReportKind::Roadwork => "roadworks",
            ReportKind::Closure => "closure",
        },
    );
    url
}

/// The kinds in the order each road is asked for them.
pub open spec fn kind_at(i: int) -> ReportKind {
    if i == 0 {
        ReportKind::Warning
    } else if i == 1 {
        ReportKind::Roadwork
    } else {
        ReportKind::Closure
    }
}

/// One request of a round: the service to ask and the kind of report it answers with.
pub struct ServiceRequest {
    pub url: String,
    pub kind: ReportKind,
}

/// A fetch round over a set of roads: for each road in order, its warnings, its
/// roadworks and its closures, with the updates collected in that order.
pub struct RoadRound<V> {
    roads: Vec<String>,
    road: usize,
    kind_ix: usize,
    updates: Vec<ActorUpdate<V>>,
    style: SourceStyle,
}

/// What a round holds: the roads, how far it got, and the updates so far.
pub struct RoundView<V> {
    pub roads: Seq<Seq<char>>,
    pub road: int,
    pub kind_ix: int,
    pub updates: Seq<UpdateView<V>>,
    pub style: SourceStyle,
}

impl<V> View for RoadRound<V> {
    type V = RoundView<V>;

    closed spec fn view(&self) -> RoundView<V> {
        RoundView {
            roads: self.roads@.map_values(|r: String| r@),
            road: self.road as int,
            kind_ix: self.kind_ix as int,
            updates: updates_view(self.updates@),
            style: self.style,
        }
    }
}

impl<V> RoundView<V> {
    /// How many requests of the round have been answered.
    pub open spec fn answered(self) -> int {
        3 * self.road + self.kind_ix
    }

    /// Whether the round's position is one it can be at.
    pub open spec fn valid(self) -> bool {
        0 <= self.road <= self.roads.len() && 0 <= self.kind_ix < 3
    }

    /// Whether every request of the round has been answered.
    pub open spec fn done(self) -> bool {
        self.road >= self.roads.len()
    }

    /// Where the round stands after one more answer.
    pub open spec fn advanced(self) -> (int, int) {
        if self.kind_ix < 2 {
            (self.road, self.kind_ix + 1)
        } else {
            (self.road + 1, 0)
        }
    }
}

impl<V> RoadRound<V> {
    #[verifier::type_invariant]
    spec fn inv(self) -> bool {
        &&& self.road <= self.roads@.len()
        &&& self.kind_ix < 3
    }

    /// A round over `roads`, with no answer yet.
    pub fn new(roads: Vec<String>) -> (r: Self)
        ensures
            r@.roads == roads@.map_values(|s: String| s@),
            r@.road == 0,
            r@.kind_ix == 0,
            r@.updates == Seq::<UpdateView<V>>::empty(),
            r@.style == autobahn_style(),
            r@.valid(),
    {
        let r = RoadRound { roads, road: 0, kind_ix: 0, updates: Vec::new(), style: style() };
        assert(r@.updates =~= Seq::<UpdateView<V>>::empty());
        r
    }

    /// The next service to ask, or none when every road has been asked for every kind.
    pub fn next_request(&self) -> (req: Option<ServiceRequest>)
        ensures
            self@.valid(),
            self@.done() ==> req is None,
            !self@.done() ==> (req matches Some(q) && q.kind == kind_at(self@.kind_ix) && q.url@
                == service_address(self@.roads[self@.road], kind_at(self@.kind_ix))),
    {
        proof {
            use_type_invariant(self);
        }
        if self.road >= self.roads.len() {
            return None;
        }
        let kind = if self.kind_ix == 0 {
            ReportKind::Warning
        } else if self.kind_ix == 1 {
            ReportKind::Roadwork
        } else {
            ReportKind::Closure
        };
        let url = service_url(self.roads[self.road].as_str(), kind);
        Some(ServiceRequest { url, kind })
    }

    /// Takes the answer to the current request: the reports of its kind, or none
    /// where the request or its decoding failed. After the last request, answers are ignored.
    pub fn deliver(&mut self, items: Option<Vec<AutobahnItem<V>>>)
        ensures
            final(self)@.valid(),
            old(self)@.done() ==> final(self)@ == old(self)@,
            !old(self)@.done() ==> {
                &&& final(self)@.roads == old(self)@.roads
                &&& final(self)@.style == old(self)@.style
                &&& (final(self)@.road, final(self)@.kind_ix) == old(self)@.advanced()
                &&& final(self)@.updates == old(self)@.updates + match items {
                    Some(v) => filter_map(
                        v@,
                        |i: AutobahnItem<V>| item_update(i, kind_at(old(self)@.kind_ix), old(self)@.style),
                    ),
                    None => Seq::empty(),
                }
            },
    {
        proof {
            use_type_invariant(&*self);
        }
        if self.road >= self.roads.len() {
            return;
        }
        let kind = if self.kind_ix == 0 {
            ReportKind::Warning
        } else if self.kind_ix == 1 {
            ReportKind::Roadwork
        } else {
            ReportKind::Closure
        };
        let ghost before = updates_view(self.updates@);
        let mut fresh = match items {
            Some(v) => items_to_updates(v, kind, &self.style),
            None => Vec::new(),
        };
        let ghost added = updates_view(fresh@);
        let mut all = Vec::new();
        std::mem::swap(&mut all, &mut self.updates);
        all.append(&mut fresh);
        assert(updates_view(all@) =~= before + added);
        self.updates = all;
        if self.kind_ix < 2 {
            self.kind_ix = self.kind_ix + 1;
        } else {
            self.kind_ix = 0;
            self.road = self.road + 1;
        }
    }

    /// The round's result: its updates, or nothing where no road gave any.
    pub fn finish(self) -> (r: Option<Vec<ActorUpdate<V>>>)
        ensures
            self@.updates.len() == 0 ==> r is None,
            self@.updates.len() > 0 ==> (r matches Some(v) && updates_view(v@) == self@.updates),
    {
        collected(self.updates)
    }
}

/// Each answer moves a round one request on: road by road, and within a road from
/// warnings to roadworks to closures; a round over `n` roads is done after `3 * n` answers.
pub proof fn law_round_moves_one_request_on<V>(v: RoundView<V>)
    requires
        v.valid(),
        !v.done(),
    ensures
        ({
            let (road, kind_ix) = v.advanced();
            &&& 3 * road + kind_ix == v.answered() + 1
            &&& 0 <= kind_ix < 3
            &&& road <= v.roads.len()
            &&& (road >= v.roads.len() <==> v.answered() + 1 == 3 * v.roads.len())
        }),
{
}

/// The roads from `start` on, `n` of them, going round the list again and again.
pub open spec fn cycled(roads: Seq<String>, start: int, n: int) -> Seq<String> {
    if roads.len() == 0 {
        Seq::empty()
    } else {
        Seq::new(n as nat, |i: int| roads[(start + i) % (roads.len() as int)])
    }
}

/// The next batch of roads to poll: `size` roads from `offset` on, going round the
/// list; none where the list is empty.
pub fn road_batch(roads: &Vec<String>, offset: usize, size: usize) -> (batch: Vec<String>)
    ensures
        batch@ == cycled(roads@, offset as int, size as int),
{
    let mut batch: Vec<String> = Vec::new();
    let n = roads.len();
    if n == 0 {
        assert(batch@ =~= cycled(roads@, offset as int, size as int));
        return batch;
    }
    let mut pos: usize = offset % n;
    let mut i: usize = 0;
    while i < size
        invariant
            n == roads@.len(),
            n > 0,
            i <= size,
            pos < n,
            pos as int == (offset as int + i as int) % (n as int),
            batch@ =~= cycled(roads@, offset as int, i as int),
        decreases size - i,
    {
        batch.push(roads[pos].clone());
        proof {
            assert((offset as int + i as int + 1) % (n as int) == if pos + 1 < n {
                pos + 1
            } else {
                0
            }) by {
                vstd::arithmetic::div_mod::lemma_add_mod_noop(offset as int + i as int, 1, n as int);
                if n == 1 {
                    vstd::arithmetic::div_mod::lemma_mod_self_0(1);
                    vstd::arithmetic::div_mod::lemma_small_mod(0, 1);
                } else {
                    vstd::arithmetic::div_mod::lemma_small_mod(1, n as nat);
                }
                if pos + 1 < n {
                    vstd::arithmetic::div_mod::lemma_small_mod((pos + 1) as nat, n as nat);
                } else {
                    vstd::arithmetic::div_mod::lemma_mod_self_0(n as int);
                }
            }
        }
        pos = if pos + 1 < n {
            pos + 1
        } else {
            0
        };
        i = i + 1;
    }
    batch
}

/// Where the batch after the one at `offset` starts.
pub fn next_offset(offset: usize, size: usize, n_roads: usize) -> (next: usize)
    requires
        n_roads > 0,
        offset + size <= usize::MAX,
    ensures
        next == (offset + size) % (n_roads as int),
{
    (offset + size) % n_roads
}

/// The endless cycle of Autobahn road batches that the poller works through.
pub struct RoadCycle {
    roads: Vec<String>,
    offset: usize,
    batch_size: usize,
}

/// What a road cycle holds: the roads, where the next batch starts, and the batch size.
pub struct CycleView {
    pub roads: Seq<String>,
    pub offset: int,
    pub batch_size: int,
}

impl View for RoadCycle {
    type V = CycleView;

    closed spec fn view(&self) -> CycleView {
        CycleView { roads: self.roads@, offset: self.offset as int, batch_size: self.batch_size as int }
    }
}

impl RoadCycle {
    #[verifier::type_invariant]
    spec fn inv(self) -> bool {
        &&& self.roads@.len() > 0
        &&& self.offset < self.roads@.len()
        &&& self.roads@.len() + self.batch_size <= usize::MAX
    }

    /// A cycle over `roads` in batches of `batch_size`, from the first road; none where
    /// there are no roads, as then the source is skipped.
    pub fn start(roads: Vec<String>, batch_size: usize) -> (c: Option<RoadCycle>)
        requires
            roads@.len() + batch_size <= usize::MAX,
        ensures
            roads@.len() == 0 <==> c is None,
            c matches Some(c) ==> c@.roads == roads@ && c@.offset == 0 && c@.batch_size
                == batch_size,
    {
        if roads.len() == 0 {
            None
        } else {
            Some(RoadCycle { roads, offset: 0, batch_size })
        }
    }

    /// The next batch of roads; the batch after it starts where this one ends.
    pub fn next_batch(&mut self) -> (batch: Vec<String>)
        ensures
            batch@ == cycled(old(self)@.roads, old(self)@.offset, old(self)@.batch_size),
            final(self)@.roads == old(self)@.roads,
            final(self)@.batch_size == old(self)@.batch_size,
            final(self)@.offset == (old(self)@.offset + old(self)@.batch_size) % (
            old(self)@.roads.len() as int),
    {
        proof {
            use_type_invariant(&*self);
        }
        let batch = road_batch(&self.roads, self.offset, self.batch_size);
        let next = next_offset(self.offset, self.batch_size, self.roads.len());
        self.offset = next;
        batch
    }
}

/// A batch taken at the next offset carries on where the previous batch ended.
pub proof fn law_batches_follow_on(roads: Seq<String>, offset: int, size: int, n: int)
    requires
        roads.len() > 0,
        offset >= 0,
        size >= 0,
        n >= 0,
    ensures
        cycled(roads, (offset + size) % (roads.len() as int), n) == cycled(roads, offset + size, n),
{
    let len = roads.len() as int;
    let a = cycled(roads, (offset + size) % len, n);
    let b = cycled(roads, offset + size, n);
    assert forall|i: int| 0 <= i < n implies #[trigger] a[i] == b[i] by {
        vstd::arithmetic::div_mod::lemma_add_mod_noop(offset + size, i, len);
        vstd::arithmetic::div_mod::lemma_mod_twice(offset + size, len);
        vstd::arithmetic::div_mod::lemma_add_mod_noop((offset + size) % len, i, len);
    }
    assert(a =~= b);
}

/// Where the batch of a road cycle starts after `k` batches from the first road,
/// as `RoadCycle::next_batch` moves it on each time.
pub open spec fn offset_after(n_roads: int, batch_size: int, k: nat) -> int
    decreases k,
{
    if k == 0 {
        0
    } else {
        (offset_after(n_roads, batch_size, (k - 1) as nat) + batch_size) % n_roads
    }
}

/// Started at the first road, the `k`-th batch (from 0) of a road cycle is the
/// `batch_size` roads from position `batch_size * k` on, going round the list:
/// every batch is full and starts where the one before it ended.
pub proof fn law_kth_batch(roads: Seq<String>, batch_size: int, k: nat)
    requires
        roads.len() > 0,
        batch_size >= 0,
    ensures
        offset_after(roads.len() as int, batch_size, k) == (batch_size * k) % (roads.len() as int),
        cycled(roads, offset_after(roads.len() as int, batch_size, k), batch_size) == cycled(
            roads,
            batch_size * k,
            batch_size,
        ),
        cycled(roads, offset_after(roads.len() as int, batch_size, k), batch_size).len()
            == batch_size,
    decreases k,
{
    let len = roads.len() as int;
    if k == 0 {
        vstd::arithmetic::div_mod::lemma_small_mod(0, len as nat);
    } else {
        let prev = offset_after(len, batch_size, (k - 1) as nat);
        law_kth_batch(roads, batch_size, (k - 1) as nat);
        assert(batch_size * (k - 1) + batch_size == batch_size * k) by (nonlinear_arith)
            requires
                k >= 1,
        ;
        assert(batch_size * (k - 1) >= 0) by (nonlinear_arith)
            requires
                k >= 1,
                batch_size >= 0,
        ;
        vstd::arithmetic::div_mod::lemma_add_mod_noop(batch_size * (k - 1), batch_size, len);
        vstd::arithmetic::div_mod::lemma_mod_twice(batch_size * (k - 1), len);
        vstd::arithmetic::div_mod::lemma_add_mod_noop(prev, batch_size, len);
        vstd::arithmetic::div_mod::lemma_mod_twice(batch_size, len);
    }
    assert(batch_size * k >= 0) by (nonlinear_arith)
        requires
            batch_size >= 0,
    ;
    law_batches_follow_on(roads, batch_size * k, 0, batch_size);
}

} // verus!
