use vstd::prelude::*;

use crate::components::{Icon, SourceStyle, SourceTag};
use crate::palette::palette_color;
use crate::sources::{autobahn, dwd, iss, opensky, ships, vbb};
use crate::text::{decimal, owned, push_decimal};
use crate::world::{recolor, ActorState, ActorStore};

verus! {

/// The style a source defines for its actors.
pub open spec fn source_style(tag: SourceTag) -> SourceStyle {
    match tag {
        SourceTag::Iss => iss::iss_style(),
        SourceTag::Opensky => opensky::opensky_style(),
        SourceTag::Ships => ships::ships_style(),
        SourceTag::Dwd => dwd::dwd_style(),
        SourceTag::Vbb => vbb::vbb_style(),
        SourceTag::Autobahn => autobahn::autobahn_style(),
    }
}

/// What each source's style says: name, glyph, size, whether the glyph turns with
/// the bearing, and by how much it is turned to point north.
pub proof fn law_source_styles()
    ensures
        source_style(SourceTag::Iss).name == "ISS" && source_style(SourceTag::Iss).icon
            == Icon::Rocket && source_style(SourceTag::Iss).icon_size == 20
            && !source_style(SourceTag::Iss).use_bearing,
        source_style(SourceTag::Opensky).name == "Aircraft" && source_style(SourceTag::Opensky).icon
            == Icon::AirplaneTilt && source_style(SourceTag::Opensky).icon_size == 14
            && source_style(SourceTag::Opensky).use_bearing && source_style(
            SourceTag::Opensky,
        ).icon_angle_offset_deg == -45,
        source_style(SourceTag::Ships).name == "Ship" && source_style(SourceTag::Ships).icon
            == Icon::Anchor && source_style(SourceTag::Ships).icon_size == 12 && source_style(
            SourceTag::Ships,
        ).use_bearing && source_style(SourceTag::Ships).icon_angle_offset_deg == 0,
        source_style(SourceTag::Dwd).name == "Weather Warning" && source_style(SourceTag::Dwd).icon
            == Icon::CloudWarning && source_style(SourceTag::Dwd).icon_size == 16
            && !source_style(SourceTag::Dwd).use_bearing,
        source_style(SourceTag::Vbb).name == "Berlin Transit" && source_style(SourceTag::Vbb).icon
            == Icon::Train && source_style(SourceTag::Vbb).icon_size == 12
            && !source_style(SourceTag::Vbb).use_bearing,
        source_style(SourceTag::Autobahn).name == "Autobahn" && source_style(
            SourceTag::Autobahn,
        ).icon == Icon::Warning && source_style(SourceTag::Autobahn).icon_size == 12
            && !source_style(SourceTag::Autobahn).use_bearing,
{
}

/// The sources in menu order.
pub open spec fn menu_order() -> Seq<SourceTag> {
    seq![
        SourceTag::Iss,
        SourceTag::Opensky,
        SourceTag::Ships,
        SourceTag::Dwd,
        SourceTag::Vbb,
        SourceTag::Autobahn,
    ]
}

/// Registered source for the toggle menu.
pub struct SourceEntry {
    pub tag: SourceTag,
    pub style: SourceStyle,
}

/// The sources of the toggle menu, in order, each with its style in its palette colour.
pub fn known_sources() -> (entries: Vec<SourceEntry>)
    ensures
        entries@.len() == menu_order().len(),
        forall|i: int|
            0 <= i < entries@.len() ==> (#[trigger] entries@[i]).tag == menu_order()[i]
                && entries@[i].style == recolor(source_style(menu_order()[i]), menu_order()[i]),
{
    let defs = vec![
        SourceEntry { tag: iss::TAG, style: iss::style() },
        SourceEntry { tag: opensky::TAG, style: opensky::style() },
        SourceEntry { tag: ships::TAG, style: ships::style() },
        SourceEntry { tag: dwd::TAG, style: dwd::style() },
        SourceEntry { tag: vbb::TAG, style: vbb::style() },
        SourceEntry { tag: autobahn::TAG, style: autobahn::style() },
    ];
    let mut entries: Vec<SourceEntry> = Vec::new();
    let n = defs.len();
    let mut i: usize = 0;
    while i < n
        invariant
            n == defs@.len(),
            n == menu_order().len(),
            i <= n,
            forall|k: int|
                0 <= k < n ==> (#[trigger] defs@[k]).tag == menu_order()[k] && defs@[k].style
                    == source_style(menu_order()[k]),
            entries@.len() == i,
            forall|k: int|
                0 <= k < i ==> (#[trigger] entries@[k]).tag == menu_order()[k]
                    && entries@[k].style == recolor(source_style(menu_order()[k]), menu_order()[k]),
        decreases n - i,
    {
        let mut style = defs[i].style;
        style.color = palette_color(i);
        entries.push(SourceEntry { tag: defs[i].tag, style });
        i = i + 1;
    }
    entries
}

/// Which sources the map shows: all but those switched off in the menu.
pub struct SourceFilter {
    iss_off: bool,
    opensky_off: bool,
    ships_off: bool,
    dwd_off: bool,
    vbb_off: bool,
    autobahn_off: bool,
}

impl SourceFilter {
    spec fn is_off(&self, tag: SourceTag) -> bool {
        match tag {
            SourceTag::Iss => self.iss_off,
            SourceTag::Opensky => self.opensky_off,
            SourceTag::Ships => self.ships_off,
            SourceTag::Dwd => self.dwd_off,
            SourceTag::Vbb => self.vbb_off,
            SourceTag::Autobahn => self.autobahn_off,
        }
    }
}

impl View for SourceFilter {
    type V = Set<SourceTag>;

    /// The sources switched off.
    closed spec fn view(&self) -> Set<SourceTag> {
        Set::new(|t: SourceTag| self.is_off(t))
    }
}

impl SourceFilter {
    /// A filter that shows every source.
    pub fn new() -> (f: Self)
        ensures
            f@ == Set::<SourceTag>::empty(),
    {
        let f = SourceFilter {
            iss_off: false,
            opensky_off: false,
            ships_off: false,
            dwd_off: false,
            vbb_off: false,
            autobahn_off: false,
        };
        assert(f@ =~= Set::<SourceTag>::empty());
        f
    }

    /// Whether the map shows the source.
    pub fn is_enabled(&self, tag: SourceTag) -> (b: bool)
        ensures
            b == !self@.contains(tag),
    {
        let off = match tag {
            SourceTag::Iss => self.iss_off,
            SourceTag::Opensky => self.opensky_off,
            SourceTag::Ships => self.ships_off,
            SourceTag::Dwd => self.dwd_off,
            SourceTag::Vbb => self.vbb_off,
            SourceTag::Autobahn => self.autobahn_off,
        };
        !off
    }

    /// Switches a source on or off, as its menu checkbox does.
    pub fn set_enabled(&mut self, tag: SourceTag, enabled: bool)
        ensures
            final(self)@ == if enabled {
                old(self)@.remove(tag)
            } else {
                old(self)@.insert(tag)
            },
    {
        let off = !enabled;
        match tag {
            SourceTag::Iss => self.iss_off = off,
            SourceTag::Opensky => self.opensky_off = off,
            SourceTag::Ships => self.ships_off = off,
            SourceTag::Dwd => self.dwd_off = off,
            SourceTag::Vbb => self.vbb_off = off,
            SourceTag::Autobahn => self.autobahn_off = off,
        }
        assert(self@ =~= if enabled {
            old(self)@.remove(tag)
        } else {
            old(self)@.insert(tag)
        });
    }
}

/// Switching a shown source off and on again leaves the filter as it was.
pub proof fn law_toggle_round_trip(disabled: Set<SourceTag>, tag: SourceTag)
    requires
        !disabled.contains(tag),
    ensures
        disabled.insert(tag).remove(tag) == disabled,
{
    assert(disabled.insert(tag).remove(tag) =~= disabled);
}

/// Whether an actor is shown under a filter.
pub open spec fn shown<V>(disabled: Set<SourceTag>, a: ActorState<V>) -> bool {
    !disabled.contains(a.tag)
}

/// The positions of the actors the map shows, in order.
pub fn visible_actors<V>(store: &ActorStore<V>, filter: &SourceFilter) -> (shown_at: Vec<usize>)
    ensures
        forall|k: int| 0 <= k < shown_at@.len() ==> (#[trigger] shown_at@[k]) < store@.len(),
        forall|k: int, l: int| 0 <= k < l < shown_at@.len() ==> shown_at@[k] < shown_at@[l],
        forall|i: int|
            0 <= i < store@.len() ==> (shown(filter@, #[trigger] store@[i]) <==> shown_at@.contains(
                i as usize,
            )),
{
    let mut out: Vec<usize> = Vec::new();
    let n = store.len();
    let mut i: usize = 0;
    while i < n
        invariant
            n == store@.len(),
            i <= n,
            forall|k: int| 0 <= k < out@.len() ==> (#[trigger] out@[k]) < i,
            forall|k: int, l: int| 0 <= k < l < out@.len() ==> out@[k] < out@[l],
            forall|j: int|
                0 <= j < i ==> (shown(filter@, #[trigger] store@[j]) <==> out@.contains(
                    j as usize,
                )),
        decreases n - i,
    {
        let a = store.get(i);
        let ghost before = out@;
        if filter.is_enabled(a.tag) {
            out.push(i);
            assert(out@[out@.len() - 1] == i);
        }
        assert forall|j: int|
            0 <= j < i + 1 implies (shown(filter@, #[trigger] store@[j]) <==> out@.contains(
            j as usize,
        )) by {
            if j < i {
                if before.contains(j as usize) {
                    let k = choose|k: int| 0 <= k < before.len() && before[k] == j as usize;
                    assert(out@[k] == j as usize);
                }
                if out@.contains(j as usize) {
                    let k = choose|k: int| 0 <= k < out@.len() && out@[k] == j as usize;
                    if k < before.len() {
                        assert(before[k] == j as usize);
                    }
                }
            } else {
                if out@.contains(j as usize) {
                    let k = choose|k: int| 0 <= k < out@.len() && out@[k] == j as usize;
                    if k < before.len() {
                        assert(before[k] < i);
                    }
                }
            }
        }
        i = i + 1;
    }
    out
}

/// Which way the wheel turned, with small movements counted as none.
#[derive(Clone, Copy, Debug, PartialEq, Eq, Structural)]
pub enum Scroll {
    Still,
    Up,
    Down,
}

/// What the map does with a scroll.
#[derive(Clone, Copy, Debug, PartialEq, Eq, Structural)]
pub enum ZoomAction {
    Stay,
    ZoomIn,
    ZoomOut,
}

/// The least time between two wheel zooms, in milliseconds.
pub const ZOOM_INTERVAL_MS: u128 = 150;

/// What a wheel scroll does, `since_last_zoom_ms` after the previous wheel zoom:
/// nothing for a still wheel or within the interval, else a zoom in for an upward
/// turn and out for a downward one. A zoom restarts the interval.
pub fn scroll_zoom(scroll: Scroll, since_last_zoom_ms: u128) -> (a: ZoomAction)
    ensures
        a == match scroll {
            Scroll::Still => ZoomAction::Stay,
            Scroll::Up => if since_last_zoom_ms < ZOOM_INTERVAL_MS {
                ZoomAction::Stay
            } else {
                ZoomAction::ZoomIn
            },
            Scroll::Down => if since_last_zoom_ms < ZOOM_INTERVAL_MS {
                ZoomAction::Stay
            } else {
                ZoomAction::ZoomOut
            },
        },
{
    match scroll {
        Scroll::Still => ZoomAction::Stay,
        _ => {
            if since_last_zoom_ms < ZOOM_INTERVAL_MS {
                ZoomAction::Stay
            } else if scroll == Scroll::Up {
                ZoomAction::ZoomIn
            } else {
                ZoomAction::ZoomOut
            }
        },
    }
}

/// The address of a map tile of the light CartoDB basemap.
pub open spec fn tile_address(zoom: u8, x: u32, y: u32) -> Seq<char> {
    "https://basemaps.cartocdn.com/light_all/"@ + decimal(zoom as nat) + "/"@ + decimal(x as nat)
        + "/"@ + decimal(y as nat) + ".png"@
}

/// The address of a map tile of the light CartoDB basemap.
pub fn tile_url(zoom: u8, x: u32, y: u32) -> (url: String)
    ensures
        url@ == tile_address(zoom, x, y),
{
    let mut url = owned("https://basemaps.cartocdn.com/light_all/");
    push_decimal(&mut url, zoom as u64);
    url.append("/");
    push_decimal(&mut url, x as u64);
    url.append("/");
    push_decimal(&mut url, y as u64);
    url.append(".png");
    url
}

} // verus!
