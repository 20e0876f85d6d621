use vstd::prelude::*;

use super::{filter_map, lemma_filter_map_full, lemma_filter_map_step, opt_update_view};
use super::{updates_view, ActorUpdate, UpdateView};
use crate::components::{Icon, Rgb, SourceStyle, SourceTag};
use crate::text::{decimal, decimal_string};

verus! {

pub const TAG: SourceTag = SourceTag::Ships;

/// The style of vessels.
pub open spec fn ships_style() -> SourceStyle {
    SourceStyle {
        name: "Ship",
        icon: Icon::Anchor,
        color: Rgb { r: 60, g: 200, b: 160 },
        icon_size: 12,
        use_bearing: true,
        icon_angle_offset_deg: 0,
    }
}

pub fn style() -> (s: SourceStyle)
    ensures
        s == ships_style(),
{
    SourceStyle {
        name: "Ship",
        icon: Icon::Anchor,
        color: Rgb { r: 60, g: 200, b: 160 },
        icon_size: 12,
        use_bearing: true,
        icon_angle_offset_deg: 0,
    }
}

/// A vessel's reported heading: whole degrees, and the same angle as a measure.
pub struct Heading<V> {
    pub degrees: u32,
    pub value: V,
}

/// One AIS location feature, as the map reads it.
pub struct AisFeature<V> {
    /// `[lon, lat, ...]`
    pub coordinates: Vec<V>,
    pub mmsi: u64,
    /// heading in degrees, where reported
    pub heading: Option<Heading<V>>,
    /// course over ground in degrees
    pub cog: Option<V>,
    /// speed over ground, converted to km/h
    pub speed_kmh: Option<V>,
}

/// A vessel's bearing: its heading where that is a valid angle (below 360),
/// else its course over ground.
pub open spec fn ship_bearing<V>(heading: Option<Heading<V>>, cog: Option<V>) -> Option<V> {
    match heading {
        Some(h) => if h.degrees < 360 {
            Some(h.value)
        } else {
            cog
        },
        None => cog,
    }
}

/// The update an AIS feature gives: one where it has at least two coordinates.
pub open spec fn feature_update<V>(f: AisFeature<V>) -> Option<UpdateView<V>> {
    if f.coordinates@.len() < 2 {
        None
    } else {
        Some(
            UpdateView {
                id: decimal(f.mmsi as nat),
                label: decimal(f.mmsi as nat),
                lat: f.coordinates@[1],
                lon: f.coordinates@[0],
                bearing: ship_bearing(f.heading, f.cog),
                speed: f.speed_kmh,
                style: ships_style(),
                source_tag: SourceTag::Ships,
            },
        )
    }
}

/// A feature gives an update exactly when it has at least two coordinates. The update is
/// at latitude `coordinates[1]` and longitude `coordinates[0]`, has the MMSI in decimal
/// as id and label, the speed as speed, and as bearing the heading where one is reported
/// below 360 degrees, else the course over ground.
pub proof fn law_feature_update<V>(f: AisFeature<V>)
    ensures
        f.coordinates@.len() >= 2 <==> feature_update(f) is Some,
        f.coordinates@.len() >= 2 ==> (feature_update(f) matches Some(u) && {
            &&& u.lat == f.coordinates@[1]
            &&& u.lon == f.coordinates@[0]
            &&& u.id == decimal(f.mmsi as nat)
            &&& u.label == decimal(f.mmsi as nat)
            &&& u.speed == f.speed_kmh
            &&& u.source_tag == SourceTag::Ships
            &&& u.style == ships_style()
            &&& (f.heading matches Some(h) ==> (h.degrees < 360 ==> u.bearing == Some(h.value)))
            &&& ((f.heading is None || f.heading->0.degrees >= 360) ==> u.bearing == f.cog)
        }),
{
}

/// A vessel's bearing: its valid heading, else its course over ground.
pub fn bearing_of<V>(heading: Option<Heading<V>>, cog: Option<V>) -> (b: Option<V>)
    ensures
        b == ship_bearing(heading, cog),
{
    match heading {
        Some(h) => {
            if h.degrees < 360 {
                Some(h.value)
            } else {
                cog
            }
        },
        None => cog,
    }
}

/// The update for one vessel, where its feature has a position.
pub fn feature_to_update<V: Copy>(f: AisFeature<V>) -> (r: Option<ActorUpdate<V>>)
    ensures
        opt_update_view(r) == feature_update(f),
{
    if f.coordinates.len() < 2 {
        return None;
    }
    let lon = f.coordinates[0];
    let lat = f.coordinates[1];
    Some(
        ActorUpdate {
            id: decimal_string(f.mmsi),
            label: decimal_string(f.mmsi),
            lat,
            lon,
            bearing: bearing_of(f.heading, f.cog),
            speed: f.speed_kmh,
            style: style(),
            source_tag: TAG,
        },
    )
}

/// The updates of a batch of AIS features: one per vessel with a position, in order.
pub fn features_to_updates<V: Copy>(features: Vec<AisFeature<V>>) -> (r: Vec<ActorUpdate<V>>)
    ensures
        updates_view(r@) == filter_map(features@, |f: AisFeature<V>| feature_update(f)),
{
    let ghost fm = |f: AisFeature<V>| feature_update(f);
    let ghost all = features@;
    let mut r: Vec<ActorUpdate<V>> = Vec::new();
    for feat in it: features
        invariant
            all == it.seq(),
            fm == (|f: AisFeature<V>| feature_update(f)),
            updates_view(r@) == filter_map(all.take(it.index() as int), fm),
    {
        proof {
            lemma_filter_map_step(all, fm, it.index() as int);
        }
        let ghost before = r@;
        match feature_to_update(feat) {
            Some(u) => {
                r.push(u);
                assert(updates_view(r@) =~= updates_view(before).push(u@));
            },
            None => {},
        }
    }
    proof {
        lemma_filter_map_full(all, fm);
    }
    r
}

/// The updates of a batch, or none for a batch that did not come.
pub open spec fn batch_view<V>(b: Option<Vec<ActorUpdate<V>>>) -> Seq<UpdateView<V>> {
    match b {
        Some(v) => updates_view(v@),
        None => Seq::empty(),
    }
}

/// The updates of the two areas polled in one round, the first area's first; nothing
/// where neither gave any.
pub fn merge_areas<V>(first: Option<Vec<ActorUpdate<V>>>, second: Option<Vec<ActorUpdate<V>>>) -> (r:
    Option<Vec<ActorUpdate<V>>>)
    ensures
        batch_view(first) + batch_view(second) == Seq::<UpdateView<V>>::empty() ==> r is None,
        batch_view(first) + batch_view(second) != Seq::<UpdateView<V>>::empty() ==> (r matches Some(v)
            && updates_view(v@) == batch_view(first) + batch_view(second)),
{
    let ghost all = batch_view(first) + batch_view(second);
    let mut merged: Vec<ActorUpdate<V>> = Vec::new();
    match first {
        Some(mut v) => merged.append(&mut v),
        None => {},
    }
    match second {
        Some(mut v) => merged.append(&mut v),
        None => {},
    }
    assert(updates_view(merged@) =~= all);
    if merged.len() == 0 {
        assert(all =~= Seq::<UpdateView<V>>::empty());
        None
    } else {
        assert(all.len() > 0);
        Some(merged)
    }
}

} // verus!
