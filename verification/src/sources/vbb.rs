use vstd::prelude::*;

use super::{filter_map, lemma_filter_map_full, lemma_filter_map_step, opt_text, opt_update_view, text_or};
use super::{updates_view, ActorUpdate, UpdateView};
use crate::components::{Icon, Rgb, SourceStyle, SourceTag};
use crate::text::{owned, same_text};

verus! {

pub const TAG: SourceTag = SourceTag::Vbb;

/// The style of Berlin transit vehicles; the colour is the palette's.
pub open spec fn vbb_style() -> SourceStyle {
    SourceStyle {
        name: "Berlin Transit",
        icon: Icon::Train,
        color: Rgb { r: 255, g: 255, b: 255 },
        icon_size: 12,
        use_bearing: false,
        icon_angle_offset_deg: 0,
    }
}

pub fn style() -> (s: SourceStyle)
    ensures
        s == vbb_style(),
{
    SourceStyle {
        name: "Berlin Transit",
        icon: Icon::Train,
        color: Rgb { r: 255, g: 255, b: 255 },
        icon_size: 12,
        use_bearing: false,
        icon_angle_offset_deg: 0,
    }
}

/// Where a vehicle is.
pub struct Location<V> {
    pub latitude: Option<V>,
    pub longitude: Option<V>,
}

/// The line a vehicle serves.
pub struct Line {
    pub name: Option<String>,
    pub product: Option<String>,
}

/// One vehicle movement from the radar.
pub struct Movement<V> {
    pub direction: Option<String>,
    pub location: Option<Location<V>>,
    pub line: Option<Line>,
    pub trip_id: Option<String>,
}

/// The icon of a transit product; other products keep the default icon.
pub open spec fn product_icon(product: Seq<char>, default: Icon) -> Icon {
    if product == "suburban"@ {
        Icon::Train
    } else if product == "subway"@ {
        Icon::Subway
    } else if product == "tram"@ {
        Icon::Tram
    } else if product == "bus"@ {
        Icon::Bus
    } else if product == "ferry"@ {
        Icon::Boat
    } else if product == "express"@ || product == "regional"@ {
        Icon::Train
    } else {
        default
    }
}

/// The name of a vehicle's line, where known.
pub open spec fn line_name(m: Option<Line>) -> Option<Seq<char>> {
    match m {
        Some(l) => opt_text(l.name),
        None => None,
    }
}

/// The product of a vehicle's line, where known.
pub open spec fn line_product(m: Option<Line>) -> Option<Seq<char>> {
    match m {
        Some(l) => opt_text(l.product),
        None => None,
    }
}

/// The update a movement gives: one where it has a location with both coordinates.
pub open spec fn movement_update<V>(m: Movement<V>) -> Option<UpdateView<V>> {
    match m.location {
        Some(loc) => match (loc.latitude, loc.longitude) {
            (Some(lat), Some(lon)) => {
                let s = vbb_style();
                Some(
                    UpdateView {
                        id: text_or(opt_text(m.trip_id), "?"@),
                        label: text_or(line_name(m.line), "?"@) + " "@ + text_or(
                            opt_text(m.direction),
                            ""@,
                        ),
                        lat,
                        lon,
                        bearing: None,
                        speed: None,
                        style: SourceStyle {
                            icon: product_icon(text_or(line_product(m.line), ""@), s.icon),
                            ..s
                        },
                        source_tag: SourceTag::Vbb,
                    },
                )
            },
            _ => None,
        },
        None => None,
    }
}

/// Whether a movement has a location with both coordinates.
pub open spec fn has_position<V>(m: Movement<V>) -> bool {
    m.location matches Some(loc) && loc.latitude is Some && loc.longitude is Some
}

/// A movement gives an update exactly when its location has both coordinates. The
/// update is at the location's latitude and longitude, has the trip id ("?" where there
/// is none), and is labelled with the line name ("?" where there is none), a space and
/// the direction (empty where there is none). Its style is the transit style with the
/// glyph of the line's product: train for suburban, express and regional lines, subway,
/// tram, bus and boat for those products, and the transit glyph for any other.
pub proof fn law_movement_update<V>(m: Movement<V>)
    ensures
        has_position(m) <==> movement_update(m) is Some,
        has_position(m) ==> (movement_update(m) matches Some(u) && {
            &&& u.lat == m.location->0.latitude->0
            &&& u.lon == m.location->0.longitude->0
            &&& u.id == text_or(opt_text(m.trip_id), "?"@)
            &&& u.label == text_or(line_name(m.line), "?"@) + " "@ + text_or(
                opt_text(m.direction),
                ""@,
            )
            &&& u.source_tag == SourceTag::Vbb
            &&& u.bearing is None
            &&& u.speed is None
            &&& u.style.name == vbb_style().name
            &&& u.style.color == vbb_style().color
            &&& u.style.icon_size == vbb_style().icon_size
            &&& u.style.use_bearing == vbb_style().use_bearing
            &&& u.style.icon_angle_offset_deg == vbb_style().icon_angle_offset_deg
            &&& ({
                let p = text_or(line_product(m.line), ""@);
                &&& (p == "subway"@ ==> u.style.icon == Icon::Subway)
                &&& (p == "tram"@ ==> u.style.icon == Icon::Tram)
                &&& (p == "bus"@ ==> u.style.icon == Icon::Bus)
                &&& (p == "ferry"@ ==> u.style.icon == Icon::Boat)
                &&& ((p == "suburban"@ || p == "express"@ || p == "regional"@) ==> u.style.icon
                    == Icon::Train)
                &&& (!(p == "subway"@ || p == "tram"@ || p == "bus"@ || p == "ferry"@ || p
                    == "suburban"@ || p == "express"@ || p == "regional"@) ==> u.style.icon
                    == vbb_style().icon)
            })
        }),
{
    reveal_strlit("subway");
    reveal_strlit("tram");
    reveal_strlit("bus");
    reveal_strlit("ferry");
    reveal_strlit("suburban");
    reveal_strlit("express");
    reveal_strlit("regional");
}

/// The icon of a transit product, or `default` for other products.
pub fn icon_for_product(product: &str, default: Icon) -> (i: Icon)
    ensures
        i == product_icon(product@, default),
{
    if same_text(product, "suburban") {
        Icon::Train
    } else if same_text(product, "subway") {
        Icon::Subway
    } else if same_text(product, "tram") {
        Icon::Tram
    } else if same_text(product, "bus") {
        Icon::Bus
    } else if same_text(product, "ferry") {
        Icon::Boat
    } else if same_text(product, "express") || same_text(product, "regional") {
        Icon::Train
    } else {
        default
    }
}

/// The update for one movement, where it has a position.
pub fn movement_to_update<V>(m: Movement<V>) -> (r: Option<ActorUpdate<V>>)
    ensures
        opt_update_view(r) == movement_update(m),
{
    let ghost g = m;
    let Movement { direction, location, line, trip_id } = m;
    let (lat, lon) = match location {
        Some(loc) => match (loc.latitude, loc.longitude) {
            (Some(lat), Some(lon)) => (lat, lon),
            _ => {
                return None;
            },
        },
        None => {
            return None;
        },
    };
    let s = style();
    let trip: &str = match &trip_id {
        Some(t) => t.as_str(),
        None => "?",
    };
    let (name, product): (&str, &str) = match &line {
        Some(l) => (
            match &l.name {
                Some(n) => n.as_str(),
                None => "?",
            },
            match &l.product {
                Some(p) => p.as_str(),
                None => "",
            },
        ),
        None => ("?", ""),
    };
    let dir: &str = match &direction {
        Some(d) => d.as_str(),
        None => "",
    };
    let mut label = owned(name);
    label.append(" ");
    label.append(dir);
    let mut actor_style = s;
    actor_style.icon = icon_for_product(product, s.icon);
    let r = ActorUpdate {
        id: owned(trip),
        label,
        lat,
        lon,
        bearing: None,
        speed: None,
        style: actor_style,
        source_tag: TAG,
    };
    assert(opt_update_view(Some(r)) =~= movement_update(g));
    Some(r)
}

/// The updates of a batch of movements: one per vehicle with a position, in order.
pub fn movements_to_updates<V>(movements: Vec<Movement<V>>) -> (r: Vec<ActorUpdate<V>>)
    ensures
        updates_view(r@) == filter_map(movements@, |m: Movement<V>| movement_update(m)),
{
    let ghost fm = |m: Movement<V>| movement_update(m);
    let ghost all = movements@;
    let mut r: Vec<ActorUpdate<V>> = Vec::new();
    for mv in it: movements
        invariant
            all == it.seq(),
            fm == (|m: Movement<V>| movement_update(m)),
            updates_view(r@) == filter_map(all.take(it.index() as int), fm),
    {
        proof {
            lemma_filter_map_step(all, fm, it.index() as int);
        }
        let ghost before = r@;
        match movement_to_update(mv) {
            Some(u) => {
                r.push(u);
                assert(updates_view(r@) =~= updates_view(before).push(u@));
            },
            None => {},
        }
    }
    proof {
        lemma_filter_map_full(all, fm);
    }
    r
}

} // verus!
