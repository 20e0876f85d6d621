use vstd::prelude::*;

use crate::components::{ActorLabel, SourceId, SourceStyle, SourceTag};
use crate::palette::{source_color, tag_color};
use crate::sources::{updates_view, ActorUpdate, UpdateView};
use crate::text::same_text;

verus! {

/// One actor on the map: the registry's entry for one (id, source) pair.
pub struct Actor<V> {
    pub id: SourceId,
    pub tag: SourceTag,
    pub label: ActorLabel,
    pub lat: V,
    pub lon: V,
    /// Last reported bearing in degrees; none while the source never gave one.
    pub bearing: Option<V>,
    /// Speed in km/h; only actors that reported one when they first appeared have it.
    pub speed: Option<V>,
    pub style: SourceStyle,
}

/// What an [`Actor`] holds, with its texts as character sequences.
pub struct ActorState<V> {
    pub id: Seq<char>,
    pub tag: SourceTag,
    pub label: Seq<char>,
    pub lat: V,
    pub lon: V,
    pub bearing: Option<V>,
    pub speed: Option<V>,
    pub style: SourceStyle,
}

impl<V> View for Actor<V> {
    type V = ActorState<V>;

    open spec fn view(&self) -> ActorState<V> {
        ActorState {
            id: self.id.0@,
            tag: self.tag,
            label: self.label.0@,
            lat: self.lat,
            lon: self.lon,
            bearing: self.bearing,
            speed: self.speed,
            style: self.style,
        }
    }
}

/// The views of a sequence of actors.
pub open spec fn actors_view<V>(s: Seq<Actor<V>>) -> Seq<ActorState<V>> {
    s.map_values(|a: Actor<V>| a@)
}

/// A style with its colour replaced by the palette colour of `tag`.
pub open spec fn recolor(style: SourceStyle, tag: SourceTag) -> SourceStyle {
    SourceStyle {
        name: style.name,
        icon: style.icon,
        color: tag_color(tag),
        icon_size: style.icon_size,
        use_bearing: style.use_bearing,
        icon_angle_offset_deg: style.icon_angle_offset_deg,
    }
}

/// The actor that an update creates when its (id, source) pair is new.
pub open spec fn spawned<V>(u: UpdateView<V>) -> ActorState<V> {
    ActorState {
        id: u.id,
        tag: u.source_tag,
        label: u.label,
        lat: u.lat,
        lon: u.lon,
        bearing: u.bearing,
        speed: u.speed,
        style: recolor(u.style, u.source_tag),
    }
}

/// An existing actor after an update for it: position and label are replaced, the
/// bearing only when the update has one, the speed only when both have one; id,
/// source and style stay.
pub open spec fn merged<V>(a: ActorState<V>, u: UpdateView<V>) -> ActorState<V> {
    ActorState {
        id: a.id,
        tag: a.tag,
        label: u.label,
        lat: u.lat,
        lon: u.lon,
        bearing: if u.bearing is Some { u.bearing } else { a.bearing },
        speed: if u.speed is Some && a.speed is Some { u.speed } else { a.speed },
        style: a.style,
    }
}

/// Whether an actor is the one for (id, tag).
pub open spec fn has_key<V>(a: ActorState<V>, id: Seq<char>, tag: SourceTag) -> bool {
    a.id == id && a.tag == tag
}

/// No two actors share an (id, source) pair.
pub open spec fn keys_unique<V>(s: Seq<ActorState<V>>) -> bool {
    forall|i: int, j: int|
        #![trigger s[i], s[j]]
        0 <= i < s.len() && 0 <= j < s.len() && i != j ==> !has_key(s[i], s[j].id, s[j].tag)
}

/// Whether some actor is the one for (id, tag).
pub open spec fn contains_key<V>(s: Seq<ActorState<V>>, id: Seq<char>, tag: SourceTag) -> bool {
    exists|i: int| 0 <= i < s.len() && has_key(#[trigger] s[i], id, tag)
}

/// The position of the actor for (id, tag), if there is one.
pub open spec fn position_of<V>(s: Seq<ActorState<V>>, id: Seq<char>, tag: SourceTag) -> Option<int> {
    if contains_key(s, id, tag) {
        Some(choose|i: int| 0 <= i < s.len() && has_key(#[trigger] s[i], id, tag))
    } else {
        None
    }
}

/// The actors after one update: the actor for its (id, source) pair is merged with
/// it, or a new actor is appended.
pub open spec fn upsert<V>(s: Seq<ActorState<V>>, u: UpdateView<V>) -> Seq<ActorState<V>> {
    match position_of(s, u.id, u.source_tag) {
        Some(i) => s.update(i, merged(s[i], u)),
        None => s.push(spawned(u)),
    }
}

/// The actors after a batch of updates, applied in order.
pub open spec fn upsert_all<V>(s: Seq<ActorState<V>>, us: Seq<UpdateView<V>>) -> Seq<ActorState<V>>
    decreases us.len(),
{
    if us.len() == 0 {
        s
    } else {
        upsert(upsert_all(s, us.drop_last()), us.last())
    }
}

/// With unique keys, the position of a key is the one index that holds it.
pub proof fn lemma_position_unique<V>(s: Seq<ActorState<V>>, id: Seq<char>, tag: SourceTag, k: int)
    requires
        keys_unique(s),
        0 <= k < s.len(),
        has_key(s[k], id, tag),
    ensures
        position_of(s, id, tag) == Some(k),
{
    assert(contains_key(s, id, tag));
    let c = choose|i: int| 0 <= i < s.len() && has_key(#[trigger] s[i], id, tag);
    if c != k {
        assert(has_key(s[c], s[k].id, s[k].tag));
    }
}

/// An update keeps the keys unique.
pub proof fn lemma_upsert_keys_unique<V>(s: Seq<ActorState<V>>, u: UpdateView<V>)
    requires
        keys_unique(s),
    ensures
        keys_unique(upsert(s, u)),
{
    let t = upsert(s, u);
    match position_of(s, u.id, u.source_tag) {
        Some(p) => {
            assert forall|i: int, j: int|
                0 <= i < t.len() && 0 <= j < t.len() && i != j implies !has_key(
                #[trigger] t[i],
                #[trigger] t[j].id,
                t[j].tag,
            ) by {
                assert(t[i].id == s[i].id && t[i].tag == s[i].tag);
                assert(t[j].id == s[j].id && t[j].tag == s[j].tag);
                assert(!has_key(s[i], s[j].id, s[j].tag));
            }
        },
        None => {
            assert forall|i: int, j: int|
                0 <= i < t.len() && 0 <= j < t.len() && i != j implies !has_key(
                #[trigger] t[i],
                #[trigger] t[j].id,
                t[j].tag,
            ) by {
                if i < s.len() && j < s.len() {
                    assert(t[i] == s[i] && t[j] == s[j]);
                    assert(!has_key(s[i], s[j].id, s[j].tag));
                } else if i == s.len() {
                    assert(t[j] == s[j]);
                    if has_key(t[i], t[j].id, t[j].tag) {
                        assert(has_key(s[j], u.id, u.source_tag));
                    }
                } else {
                    assert(t[i] == s[i]);
                    if has_key(t[i], t[j].id, t[j].tag) {
                        assert(has_key(s[i], u.id, u.source_tag));
                    }
                }
            }
        },
    }
}

/// The actor for (id, tag), if there is one.
pub open spec fn actor_for<V>(s: Seq<ActorState<V>>, id: Seq<char>, tag: SourceTag) -> Option<ActorState<V>> {
    match position_of(s, id, tag) {
        Some(i) => Some(s[i]),
        None => None,
    }
}

/// After an update, the actor for the update's (id, source) pair holds the update's
/// position and label, and its bearing where the update has one.
pub proof fn law_update_is_read_back<V>(s: Seq<ActorState<V>>, u: UpdateView<V>)
    requires
        keys_unique(s),
    ensures
        actor_for(upsert(s, u), u.id, u.source_tag) matches Some(a) && {
            &&& a.label == u.label
            &&& a.lat == u.lat
            &&& a.lon == u.lon
            &&& (u.bearing is Some ==> a.bearing == u.bearing)
        },
{
    let t = upsert(s, u);
    lemma_upsert_keys_unique(s, u);
    match position_of(s, u.id, u.source_tag) {
        Some(p) => {
            assert(has_key(t[p], u.id, u.source_tag));
            lemma_position_unique(t, u.id, u.source_tag, p);
        },
        None => {
            let n = s.len() as int;
            assert(has_key(t[n], u.id, u.source_tag));
            lemma_position_unique(t, u.id, u.source_tag, n);
        },
    }
}

/// An update for an actor that exists moves it to the update's position and gives it
/// the update's label. Its bearing changes only where the update reports one; its
/// speed changes only where the update reports one and the actor already had one, so
/// an update without a speed never loses a speed. Id, source and style stay.
pub proof fn law_existing_actor_after_update<V>(s: Seq<ActorState<V>>, u: UpdateView<V>, a: ActorState<V>)
    requires
        keys_unique(s),
        actor_for(s, u.id, u.source_tag) == Some(a),
    ensures
        actor_for(upsert(s, u), u.id, u.source_tag) matches Some(b) && {
            &&& b.lat == u.lat
            &&& b.lon == u.lon
            &&& b.label == u.label
            &&& b.id == a.id
            &&& b.tag == a.tag
            &&& b.style == a.style
            &&& (u.bearing is Some ==> b.bearing == u.bearing)
            &&& (u.bearing is None ==> b.bearing == a.bearing)
            &&& (u.speed is None ==> b.speed == a.speed)
            &&& (a.speed is None ==> b.speed is None)
            &&& (u.speed is Some && a.speed is Some ==> b.speed == u.speed)
        },
{
    let t = upsert(s, u);
    lemma_upsert_keys_unique(s, u);
    let p = position_of(s, u.id, u.source_tag)->0;
    assert(has_key(t[p], u.id, u.source_tag));
    lemma_position_unique(t, u.id, u.source_tag, p);
}

/// An update for an (id, source) pair without an actor creates one with the update's
/// id, source, label, position, bearing and speed, and the update's style in the
/// palette colour of its source.
pub proof fn law_new_actor_after_update<V>(s: Seq<ActorState<V>>, u: UpdateView<V>)
    requires
        keys_unique(s),
        !contains_key(s, u.id, u.source_tag),
    ensures
        actor_for(upsert(s, u), u.id, u.source_tag) matches Some(b) && {
            &&& b.id == u.id
            &&& b.tag == u.source_tag
            &&& b.label == u.label
            &&& b.lat == u.lat
            &&& b.lon == u.lon
            &&& b.bearing == u.bearing
            &&& b.speed == u.speed
            &&& b.style.color == tag_color(u.source_tag)
            &&& b.style.name == u.style.name
            &&& b.style.icon == u.style.icon
            &&& b.style.icon_size == u.style.icon_size
            &&& b.style.use_bearing == u.style.use_bearing
            &&& b.style.icon_angle_offset_deg == u.style.icon_angle_offset_deg
        },
        upsert(s, u).len() == s.len() + 1,
{
    let t = upsert(s, u);
    lemma_upsert_keys_unique(s, u);
    let n = s.len() as int;
    assert(has_key(t[n], u.id, u.source_tag));
    lemma_position_unique(t, u.id, u.source_tag, n);
}

/// An update leaves the actors of every other (id, source) pair as they were.
pub proof fn law_update_keeps_others<V>(
    s: Seq<ActorState<V>>,
    u: UpdateView<V>,
    id: Seq<char>,
    tag: SourceTag,
)
    requires
        keys_unique(s),
        !(id == u.id && tag == u.source_tag),
    ensures
        actor_for(upsert(s, u), id, tag) == actor_for(s, id, tag),
{
    let t = upsert(s, u);
    lemma_upsert_keys_unique(s, u);
    match position_of(s, id, tag) {
        Some(q) => {
            assert(has_key(t[q], id, tag));
            lemma_position_unique(t, id, tag, q);
            if let Some(p) = position_of(s, u.id, u.source_tag) {
                if p == q {
                    assert(has_key(s[p], u.id, u.source_tag));
                }
            }
        },
        None => {
            if contains_key(t, id, tag) {
                let k = choose|k: int| 0 <= k < t.len() && has_key(#[trigger] t[k], id, tag);
                if k < s.len() {
                    assert(t[k].id == s[k].id && t[k].tag == s[k].tag);
                    assert(contains_key(s, id, tag));
                }
            }
        },
    }
}

/// An update adds an actor exactly when its (id, source) pair was new; an existing
/// actor keeps its id, source and style.
pub proof fn law_update_count_and_identity<V>(s: Seq<ActorState<V>>, u: UpdateView<V>)
    requires
        keys_unique(s),
    ensures
        upsert(s, u).len() == if contains_key(s, u.id, u.source_tag) {
            s.len()
        } else {
            s.len() + 1
        },
        actor_for(s, u.id, u.source_tag) matches Some(a) ==> actor_for(
            upsert(s, u),
            u.id,
            u.source_tag,
        ) matches Some(b) && b.id == a.id && b.tag == a.tag && b.style == a.style,
        !contains_key(s, u.id, u.source_tag) ==> actor_for(upsert(s, u), u.id, u.source_tag)
            == Some(spawned(u)),
{
    let t = upsert(s, u);
    lemma_upsert_keys_unique(s, u);
    match position_of(s, u.id, u.source_tag) {
        Some(p) => {
            assert(has_key(t[p], u.id, u.source_tag));
            lemma_position_unique(t, u.id, u.source_tag, p);
        },
        None => {
            let n = s.len() as int;
            assert(has_key(t[n], u.id, u.source_tag));
            lemma_position_unique(t, u.id, u.source_tag, n);
        },
    }
}

/// Applying the same update twice gives what applying it once gives.
pub proof fn law_update_idempotent<V>(s: Seq<ActorState<V>>, u: UpdateView<V>)
    requires
        keys_unique(s),
    ensures
        upsert(upsert(s, u), u) == upsert(s, u),
{
    let t = upsert(s, u);
    lemma_upsert_keys_unique(s, u);
    match position_of(s, u.id, u.source_tag) {
        Some(p) => {
            assert(has_key(t[p], u.id, u.source_tag));
            lemma_position_unique(t, u.id, u.source_tag, p);
            assert(merged(t[p], u) == t[p]);
            assert(t.update(p, merged(t[p], u)) =~= t);
        },
        None => {
            let n = s.len() as int;
            assert(has_key(t[n], u.id, u.source_tag));
            lemma_position_unique(t, u.id, u.source_tag, n);
            assert(merged(t[n], u) == t[n]);
            assert(t.update(n, merged(t[n], u)) =~= t);
        },
    }
}

/// A batch of updates keeps the keys unique and adds at most one actor per update.
pub proof fn law_batch_keys_unique<V>(s: Seq<ActorState<V>>, us: Seq<UpdateView<V>>)
    requires
        keys_unique(s),
    ensures
        keys_unique(upsert_all(s, us)),
        s.len() <= upsert_all(s, us).len() <= s.len() + us.len(),
    decreases us.len(),
{
    if us.len() > 0 {
        let r = upsert_all(s, us.drop_last());
        law_batch_keys_unique(s, us.drop_last());
        lemma_upsert_keys_unique(r, us.last());
        law_update_count_and_identity(r, us.last());
    }
}

/// The (id, source) pairs that have an actor.
pub open spec fn key_set<V>(s: Seq<ActorState<V>>) -> Set<(Seq<char>, SourceTag)> {
    Set::new(|k: (Seq<char>, SourceTag)| contains_key(s, k.0, k.1))
}

/// The (id, source) pairs that a batch of updates names.
pub open spec fn update_keys<V>(us: Seq<UpdateView<V>>) -> Set<(Seq<char>, SourceTag)>
    decreases us.len(),
{
    if us.len() == 0 {
        Set::empty()
    } else {
        update_keys(us.drop_last()).insert((us.last().id, us.last().source_tag))
    }
}

/// The last update of a batch for (id, tag), if the batch has one.
pub open spec fn last_update_for<V>(us: Seq<UpdateView<V>>, id: Seq<char>, tag: SourceTag) -> Option<
    UpdateView<V>,
>
    decreases us.len(),
{
    if us.len() == 0 {
        None
    } else if us.last().id == id && us.last().source_tag == tag {
        Some(us.last())
    } else {
        last_update_for(us.drop_last(), id, tag)
    }
}

/// An update adds its own (id, source) pair to the pairs that have an actor, and no other.
pub proof fn lemma_upsert_key_set<V>(s: Seq<ActorState<V>>, u: UpdateView<V>)
    ensures
        key_set(upsert(s, u)) == key_set(s).insert((u.id, u.source_tag)),
{
    let t = upsert(s, u);
    let k0 = (u.id, u.source_tag);
    match position_of(s, u.id, u.source_tag) {
        Some(p) => {
            assert(contains_key(s, u.id, u.source_tag));
            assert forall|k: (Seq<char>, SourceTag)|
                #![trigger key_set(t).contains(k)]
                key_set(t).contains(k) == key_set(s).insert(k0).contains(k) by {
                if contains_key(t, k.0, k.1) {
                    let i = choose|i: int| 0 <= i < t.len() && has_key(#[trigger] t[i], k.0, k.1);
                    assert(has_key(s[i], k.0, k.1));
                }
                if contains_key(s, k.0, k.1) {
                    let i = choose|i: int| 0 <= i < s.len() && has_key(#[trigger] s[i], k.0, k.1);
                    assert(has_key(t[i], k.0, k.1));
                }
            }
        },
        None => {
            let n = s.len() as int;
            assert(has_key(t[n], u.id, u.source_tag));
            assert forall|k: (Seq<char>, SourceTag)|
                #![trigger key_set(t).contains(k)]
                key_set(t).contains(k) == key_set(s).insert(k0).contains(k) by {
                if contains_key(t, k.0, k.1) {
                    let i = choose|i: int| 0 <= i < t.len() && has_key(#[trigger] t[i], k.0, k.1);
                    if i < n {
                        assert(has_key(s[i], k.0, k.1));
                    }
                }
                if contains_key(s, k.0, k.1) {
                    let i = choose|i: int| 0 <= i < s.len() && has_key(#[trigger] s[i], k.0, k.1);
                    assert(has_key(t[i], k.0, k.1));
                }
                if k == k0 {
                    assert(has_key(t[n], k.0, k.1));
                }
            }
        },
    }
    assert(key_set(t) =~= key_set(s).insert(k0));
}

/// The pairs a batch names are finitely many.
pub proof fn lemma_update_keys_finite<V>(us: Seq<UpdateView<V>>)
    ensures
        update_keys(us).finite(),
    decreases us.len(),
{
    if us.len() > 0 {
        lemma_update_keys_finite(us.drop_last());
    }
}

/// After a batch, the (id, source) pairs with an actor are those before together with
/// those the batch names, so no actor goes away; the registry grows by exactly the
/// number of named pairs that had no actor.
pub proof fn law_batch_keys_and_growth<V>(s: Seq<ActorState<V>>, us: Seq<UpdateView<V>>)
    requires
        keys_unique(s),
    ensures
        keys_unique(upsert_all(s, us)),
        key_set(upsert_all(s, us)) == key_set(s).union(update_keys(us)),
        update_keys(us).finite(),
        upsert_all(s, us).len() == s.len() + update_keys(us).difference(key_set(s)).len(),
    decreases us.len(),
{
    lemma_update_keys_finite(us);
    if us.len() == 0 {
        assert(key_set(s).union(update_keys(us)) =~= key_set(s));
        assert(update_keys(us).difference(key_set(s)) =~= Set::<(Seq<char>, SourceTag)>::empty());
    } else {
        let p = us.drop_last();
        let u = us.last();
        let k = (u.id, u.source_tag);
        let r = upsert_all(s, p);
        law_batch_keys_and_growth(s, p);
        lemma_upsert_keys_unique(r, u);
        lemma_upsert_key_set(r, u);
        law_update_count_and_identity(r, u);
        lemma_update_keys_finite(p);
        let d = update_keys(p).difference(key_set(s));
        assert(update_keys(us) == update_keys(p).insert(k));
        assert(key_set(upsert(r, u)) =~= key_set(s).union(update_keys(us)));
        if contains_key(r, u.id, u.source_tag) {
            assert(key_set(r).contains(k));
            assert(update_keys(us).difference(key_set(s)) =~= d);
        } else {
            assert(!key_set(r).contains(k));
            assert(!d.contains(k));
            assert(update_keys(us).difference(key_set(s)) =~= d.insert(k));
        }
    }
}

/// After a batch, each (id, source) pair that the batch names has its actor at the
/// position and with the label of the batch's last update for it; every other pair
/// keeps the actor it had.
pub proof fn law_batch_last_update_wins<V>(
    s: Seq<ActorState<V>>,
    us: Seq<UpdateView<V>>,
    id: Seq<char>,
    tag: SourceTag,
)
    requires
        keys_unique(s),
    ensures
        last_update_for(us, id, tag) matches Some(u) ==> (actor_for(upsert_all(s, us), id, tag) matches Some(
            a,
        ) && a.lat == u.lat && a.lon == u.lon && a.label == u.label),
        last_update_for(us, id, tag) is None ==> actor_for(upsert_all(s, us), id, tag) == actor_for(
            s,
            id,
            tag,
        ),
    decreases us.len(),
{
    if us.len() > 0 {
        let p = us.drop_last();
        let u = us.last();
        let r = upsert_all(s, p);
        law_batch_keys_unique(s, p);
        law_batch_last_update_wins(s, p, id, tag);
        if u.id == id && u.source_tag == tag {
            law_update_is_read_back(r, u);
        } else {
            law_update_keeps_others(r, u, id, tag);
        }
    }
}

/// Updates arriving in two batches leave the registry as they would in one.
pub proof fn law_batches_compose<V>(s: Seq<ActorState<V>>, a: Seq<UpdateView<V>>, b: Seq<UpdateView<V>>)
    ensures
        upsert_all(s, a + b) == upsert_all(upsert_all(s, a), b),
    decreases b.len(),
{
    if b.len() == 0 {
        assert(a + b =~= a);
    } else {
        assert((a + b).drop_last() =~= a + b.drop_last());
        assert((a + b).last() == b.last());
        law_batches_compose(s, a, b.drop_last());
    }
}

/// Every actor is drawn in its source's palette colour.
pub open spec fn palette_colored<V>(s: Seq<ActorState<V>>) -> bool {
    forall|i: int| 0 <= i < s.len() ==> (#[trigger] s[i]).style.color == tag_color(s[i].tag)
}

/// Whatever colour an update carries, the actors keep their sources' palette colours.
pub proof fn law_palette_colors_kept<V>(s: Seq<ActorState<V>>, us: Seq<UpdateView<V>>)
    requires
        palette_colored(s),
    ensures
        palette_colored(upsert_all(s, us)),
    decreases us.len(),
{
    if us.len() > 0 {
        let r = upsert_all(s, us.drop_last());
        law_palette_colors_kept(s, us.drop_last());
        let t = upsert(r, us.last());
        assert forall|i: int| 0 <= i < t.len() implies (#[trigger] t[i]).style.color == tag_color(
            t[i].tag,
        ) by {
            if i < r.len() {
                assert(t[i].style == r[i].style && t[i].tag == r[i].tag);
            }
        }
    }
}

/// A registry of actors, at most one for each (id, source) pair.
pub struct ActorStore<V> {
    actors: Vec<Actor<V>>,
}

impl<V> View for ActorStore<V> {
    type V = Seq<ActorState<V>>;

    closed spec fn view(&self) -> Seq<ActorState<V>> {
        actors_view(self.actors@)
    }
}

/// Position of the actor for (id, tag) in `actors`, if any.
fn find_in<V>(actors: &Vec<Actor<V>>, id: &str, tag: SourceTag) -> (r: Option<usize>)
    requires
        keys_unique(actors_view(actors@)),
    ensures
        match r {
            Some(i) => position_of(actors_view(actors@), id@, tag) == Some(i as int)
                && i < actors@.len(),
            None => position_of(actors_view(actors@), id@, tag) is None,
        },
{
    let ghost s = actors_view(actors@);
    let n = actors.len();
    let mut i: usize = 0;
    while i < n
        invariant
            n == actors@.len(),
            s == actors_view(actors@),
            keys_unique(s),
            i <= n,
            forall|k: int| 0 <= k < i ==> !has_key(#[trigger] s[k], id@, tag),
        decreases n - i,
    {
        let a = &actors[i];
        if a.tag == tag && same_text(a.id.0.as_str(), id) {
            proof {
                assert(s[i as int] == a@);
                lemma_position_unique(s, id@, tag, i as int);
            }
            return Some(i);
        }
        assert(s[i as int] == a@);
        i = i + 1;
    }
    proof {
        if contains_key(s, id@, tag) {
            let k = choose|k: int| 0 <= k < s.len() && has_key(#[trigger] s[k], id@, tag);
            assert(!has_key(s[k], id@, tag));
        }
    }
    None
}

impl<V> ActorStore<V> {
    #[verifier::type_invariant]
    spec fn inv(self) -> bool {
        keys_unique(actors_view(self.actors@))
    }

    /// An empty registry.
    pub fn new() -> (s: Self)
        ensures
            s@ == Seq::<ActorState<V>>::empty(),
    {
        let s = ActorStore { actors: Vec::new() };
        assert(s@ =~= Seq::<ActorState<V>>::empty());
        s
    }

    /// The number of actors.
    pub fn len(&self) -> (n: usize)
        ensures
            n == self@.len(),
    {
        self.actors.len()
    }

    /// The actor at position `i`.
    pub fn get(&self, i: usize) -> (a: &Actor<V>)
        requires
            i < self@.len(),
        ensures
            a@ == self@[i as int],
    {
        &self.actors[i]
    }

    /// The keys of the registry are unique.
    pub fn keys_are_unique(&self)
        ensures
            keys_unique(self@),
    {
        proof {
            use_type_invariant(self);
        }
    }

    /// The position of the actor for (id, tag), if there is one.
    pub fn find(&self, id: &str, tag: SourceTag) -> (r: Option<usize>)
        ensures
            match r {
                Some(i) => position_of(self@, id@, tag) == Some(i as int),
                None => position_of(self@, id@, tag) is None,
            },
    {
        proof {
            use_type_invariant(self);
        }
        find_in(&self.actors, id, tag)
    }

    fn upsert_into(actors: &mut Vec<Actor<V>>, u: ActorUpdate<V>)
        requires
            keys_unique(actors_view(old(actors)@)),
        ensures
            actors_view(final(actors)@) == upsert(actors_view(old(actors)@), u@),
            keys_unique(actors_view(final(actors)@)),
    {
        let ghost s = actors_view(actors@);
        let ghost uv = u@;
        proof {
            lemma_upsert_keys_unique(s, uv);
        }
        match find_in(actors, u.id.as_str(), u.source_tag) {
            Some(i) => {
                let a = &mut actors[i];
                a.label = ActorLabel(u.label);
                a.lat = u.lat;
                a.lon = u.lon;
                if u.bearing.is_some() {
                    a.bearing = u.bearing;
                }
                if u.speed.is_some() && a.speed.is_some() {
                    a.speed = u.speed;
                }
                proof {
                    assert(actors_view(actors@) =~= s.update(i as int, merged(s[i as int], uv)));
                }
            },
            None => {
                let color = source_color(u.source_tag);
                let mut style = u.style;
                style.color = color;
                let a = Actor {
                    id: SourceId(u.id),
                    tag: u.source_tag,
                    label: ActorLabel(u.label),
                    lat: u.lat,
                    lon: u.lon,
                    bearing: u.bearing,
                    speed: u.speed,
                    style,
                };
                actors.push(a);
                proof {
                    assert(actors_view(actors@) =~= s.push(spawned(uv)));
                }
            },
        }
    }

    /// Applies one update: the actor for its (id, source) pair takes the new position
    /// and label, or a new actor appears.
    pub fn upsert(&mut self, u: ActorUpdate<V>)
        ensures
            final(self)@ == upsert(old(self)@, u@),
    {
        proof {
            use_type_invariant(&*self);
        }
        let mut actors = Vec::new();
        std::mem::swap(&mut actors, &mut self.actors);
        Self::upsert_into(&mut actors, u);
        self.actors = actors;
    }

    /// Applies a batch of updates in order.
    pub fn ingest(&mut self, updates: Vec<ActorUpdate<V>>)
        ensures
            final(self)@ == upsert_all(old(self)@, updates_view(updates@)),
    {
        proof {
            use_type_invariant(&*self);
        }
        let mut actors = Vec::new();
        std::mem::swap(&mut actors, &mut self.actors);
        let ghost s0 = actors_view(actors@);
        let ghost us = updates_view(updates@);
        let mut k: usize = 0;
        for u in it: updates
            invariant
                us == updates_view(it.seq()),
                keys_unique(actors_view(actors@)),
                actors_view(actors@) == upsert_all(s0, us.take(it.index() as int)),
        {
            proof {
                assert(us.take(it.index() + 1).drop_last() =~= us.take(it.index() as int));
            }
            Self::upsert_into(&mut actors, u);
        }
        proof {
            assert(us.take(us.len() as int) =~= us);
        }
        self.actors = actors;
    }
}

} // verus!
