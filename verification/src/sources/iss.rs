use vstd::prelude::*;

use super::{updates_view, ActorUpdate, UpdateView};
use crate::components::{Icon, Rgb, SourceStyle, SourceTag};
use crate::text::owned;

verus! {

pub const TAG: SourceTag = SourceTag::Iss;

/// The style of the ISS.
pub open spec fn iss_style() -> SourceStyle {
    SourceStyle {
        name: "ISS",
        icon: Icon::Rocket,
        color: Rgb { r: 255, g: 255, b: 0 },
        icon_size: 20,
        use_bearing: false,
        icon_angle_offset_deg: 0,
    }
}

pub fn style() -> (s: SourceStyle)
    ensures
        s == iss_style(),
{
    SourceStyle {
        name: "ISS",
        icon: Icon::Rocket,
        color: Rgb { r: 255, g: 255, b: 0 },
        icon_size: 20,
        use_bearing: false,
        icon_angle_offset_deg: 0,
    }
}

/// The ISS position as the API reports it.
pub struct IssPosition<V> {
    pub latitude: V,
    pub longitude: V,
}

/// The one update that an ISS position gives.
pub open spec fn iss_update<V>(p: IssPosition<V>) -> UpdateView<V> {
    UpdateView {
        id: "ISS"@,
        label: "ISS"@,
        lat: p.latitude,
        lon: p.longitude,
        bearing: None,
        speed: None,
        style: iss_style(),
        source_tag: SourceTag::Iss,
    }
}

/// The ISS update is at the reported latitude and longitude, with id and label "ISS",
/// no bearing or speed, and the ISS style.
pub proof fn law_iss_update<V>(p: IssPosition<V>)
    ensures
        iss_update(p).lat == p.latitude,
        iss_update(p).lon == p.longitude,
        iss_update(p).id == "ISS"@,
        iss_update(p).label == "ISS"@,
        iss_update(p).bearing is None,
        iss_update(p).speed is None,
        iss_update(p).source_tag == SourceTag::Iss,
        iss_update(p).style == iss_style(),
{
}

/// The updates that an ISS position gives: one, for the station.
pub fn to_updates<V>(p: IssPosition<V>) -> (r: Vec<ActorUpdate<V>>)
    ensures
        updates_view(r@) == seq![iss_update(p)],
{
    let u = ActorUpdate {
        id: owned("ISS"),
        label: owned("ISS"),
        lat: p.latitude,
        lon: p.longitude,
        bearing: None,
        speed: None,
        style: style(),
        source_tag: TAG,
    };
    let mut r = Vec::new();
    r.push(u);
    assert(updates_view(r@) =~= seq![iss_update(p)]);
    r
}

} // verus!
