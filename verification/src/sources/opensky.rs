use vstd::prelude::*;

use super::{filter_map, lemma_filter_map_full, lemma_filter_map_step, opt_text, opt_update_view, text_or};
use super::{updates_view, ActorUpdate, UpdateView};
use crate::components::{Icon, Rgb, SourceStyle, SourceTag};
use crate::text::{owned, trim, trim_str};

verus! {

/// Human-readable name of an OpenSky aircraft category code.
pub open spec fn category_text(cat: u64) -> Seq<char> {
    if cat == 0 { "No info"@ }
    else if cat == 1 { "No ADS-B"@ }
    else if cat == 2 { "Light (<15500 lbs)"@ }
    else if cat == 3 { "Small (15500-75000 lbs)"@ }
    else if cat == 4 { "Large (75000-300000 lbs)"@ }
    else if cat == 5 { "High vortex large"@ }
    else if cat == 6 { "Heavy (>300000 lbs)"@ }
    else if cat == 7 { "High performance"@ }
    else if cat == 8 { "Rotorcraft"@ }
    else if cat == 9 { "Glider/sailplane"@ }
    else if cat == 10 { "Lighter-than-air"@ }
    else if cat == 11 { "Parachutist/skydiver"@ }
    else if cat == 12 { "Ultralight/hang-glider"@ }
    else if cat == 14 { "UAV"@ }
    else if cat == 15 { "Space vehicle"@ }
    else if cat == 16 { "Surface emergency"@ }
    else if cat == 17 { "Surface service"@ }
    else if cat == 18 { "Obstruction"@ }
    else if cat == 19 { "Cluster obstacle"@ }
    else if cat == 20 { "Line obstacle"@ }
    else { "Unknown"@ }
}

/// OpenSky category codes to human-readable names.
pub fn category_name(cat: u64) -> (name: &'static str)
    ensures
        name@ == category_text(cat),
{
    match cat {
        0 => "No info",
        1 => "No ADS-B",
        2 => "Light (<15500 lbs)",
        3 => "Small (15500-75000 lbs)",
        4 => "Large (75000-300000 lbs)",
        5 => "High vortex large",
        6 => "Heavy (>300000 lbs)",
        7 => "High performance",
        8 => "Rotorcraft",
        9 => "Glider/sailplane",
        10 => "Lighter-than-air",
        11 => "Parachutist/skydiver",
        12 => "Ultralight/hang-glider",
        14 => "UAV",
        15 => "Space vehicle",
        16 => "Surface emergency",
        17 => "Surface service",
        18 => "Obstruction",
        19 => "Cluster obstacle",
        20 => "Line obstacle",
        _ => "Unknown",
    }
}

pub const TAG: SourceTag = SourceTag::Opensky;

/// The style of aircraft: the airplane glyph points north-east, hence the offset.
pub open spec fn opensky_style() -> SourceStyle {
    SourceStyle {
        name: "Aircraft",
        icon: Icon::AirplaneTilt,
        color: Rgb { r: 0x8b, g: 0, b: 0 },
        icon_size: 14,
        use_bearing: true,
        icon_angle_offset_deg: -45i16,
    }
}

pub fn style() -> (s: SourceStyle)
    ensures
        s == opensky_style(),
{
    SourceStyle {
        name: "Aircraft",
        icon: Icon::AirplaneTilt,
        color: Rgb { r: 0x8b, g: 0, b: 0 },
        icon_size: 14,
        use_bearing: true,
        icon_angle_offset_deg: -45,
    }
}

/// The fields of one OpenSky state vector that the map reads, each present where
/// the vector holds a value of the expected kind at its index.
pub struct StateVector<V> {
    /// index 0: transponder address
    pub icao24: Option<String>,
    /// index 1: callsign
    pub callsign: Option<String>,
    /// index 2: country of registration
    pub origin_country: Option<String>,
    /// index 5
    pub longitude: Option<V>,
    /// index 6
    pub latitude: Option<V>,
    /// index 7: barometric altitude in metres, written without decimals
    pub altitude: Option<String>,
    /// index 9: velocity, converted to km/h
    pub speed_kmh: Option<V>,
    /// index 10: true track in degrees
    pub true_track: Option<V>,
    /// index 16: aircraft category
    pub category: Option<u64>,
}

/// One JSON value of a state vector, read three ways: as text, as a number and as an
/// unsigned integer; each reading is present where the value is of that kind.
pub struct StateCell<V> {
    pub text: Option<String>,
    pub number: Option<V>,
    pub unsigned: Option<u64>,
}

/// The fields of one state vector, read by their index and not yet converted.
pub struct StateFields<V> {
    /// index 0
    pub icao24: Option<String>,
    /// index 1
    pub callsign: Option<String>,
    /// index 2
    pub origin_country: Option<String>,
    /// index 5
    pub longitude: Option<V>,
    /// index 6
    pub latitude: Option<V>,
    /// index 7: barometric altitude in metres
    pub baro_altitude: Option<V>,
    /// index 9: velocity in m/s
    pub velocity: Option<V>,
    /// index 10: true track in degrees
    pub true_track: Option<V>,
    /// index 16: aircraft category
    pub category: Option<u64>,
}

/// The text at index `i` of a state vector, where there is one.
pub open spec fn cell_text<V>(row: Seq<StateCell<V>>, i: int) -> Option<Seq<char>> {
    if 0 <= i < row.len() {
        opt_text(row[i].text)
    } else {
        None
    }
}

/// The number at index `i` of a state vector, where there is one.
pub open spec fn cell_number<V>(row: Seq<StateCell<V>>, i: int) -> Option<V> {
    if 0 <= i < row.len() {
        row[i].number
    } else {
        None
    }
}

/// The unsigned integer at index `i` of a state vector, where there is one.
pub open spec fn cell_unsigned<V>(row: Seq<StateCell<V>>, i: int) -> Option<u64> {
    if 0 <= i < row.len() {
        row[i].unsigned
    } else {
        None
    }
}

fn text_at<V>(row: &Vec<StateCell<V>>, i: usize) -> (t: Option<String>)
    ensures
        opt_text(t) == cell_text(row@, i as int),
{
    if i < row.len() {
        match &row[i].text {
            Some(s) => Some(s.clone()),
            None => None,
        }
    } else {
        None
    }
}

fn number_at<V: Copy>(row: &Vec<StateCell<V>>, i: usize) -> (n: Option<V>)
    ensures
        n == cell_number(row@, i as int),
{
    if i < row.len() {
        row[i].number
    } else {
        None
    }
}

/// Reads the fields the map uses out of one state vector, by index:
///  0: icao24, 1: callsign, 2: origin_country, 5: longitude, 6: latitude,
///  7: baro_altitude, 9: velocity (m/s), 10: true_track (deg), 16: category.
pub fn read_state<V: Copy>(row: &Vec<StateCell<V>>) -> (f: StateFields<V>)
    ensures
        opt_text(f.icao24) == cell_text(row@, 0),
        opt_text(f.callsign) == cell_text(row@, 1),
        opt_text(f.origin_country) == cell_text(row@, 2),
        f.longitude == cell_number(row@, 5),
        f.latitude == cell_number(row@, 6),
        f.baro_altitude == cell_number(row@, 7),
        f.velocity == cell_number(row@, 9),
        f.true_track == cell_number(row@, 10),
        f.category == cell_unsigned(row@, 16),
{
    StateFields {
        icao24: text_at(row, 0),
        callsign: text_at(row, 1),
        origin_country: text_at(row, 2),
        longitude: number_at(row, 5),
        latitude: number_at(row, 6),
        baro_altitude: number_at(row, 7),
        velocity: number_at(row, 9),
        true_track: number_at(row, 10),
        category: if 16 < row.len() {
            row[16].unsigned
        } else {
            None
        },
    }
}

/// The name shown for an aircraft: its trimmed callsign, or its address where the
/// callsign is blank.
pub open spec fn display_callsign<V>(st: StateVector<V>) -> Seq<char> {
    let icao = text_or(opt_text(st.icao24), "?"@);
    let callsign = trim(text_or(opt_text(st.callsign), ""@));
    if callsign.len() == 0 {
        icao
    } else {
        callsign
    }
}

/// The altitude part of an aircraft label.
pub open spec fn altitude_suffix(alt: Option<Seq<char>>) -> Seq<char> {
    match alt {
        Some(a) => " "@ + a + "m"@,
        None => Seq::empty(),
    }
}

/// The label of an aircraft: name, country in brackets where known, altitude, category.
pub open spec fn state_label<V>(st: StateVector<V>) -> Seq<char> {
    let country = text_or(opt_text(st.origin_country), ""@);
    let cat = category_text(
        match st.category {
            Some(c) => c,
            None => 0,
        },
    );
    if country.len() == 0 {
        display_callsign(st) + altitude_suffix(opt_text(st.altitude)) + " ["@ + cat + "]"@
    } else {
        display_callsign(st) + " ("@ + country + ")"@ + altitude_suffix(opt_text(st.altitude))
            + " ["@ + cat + "]"@
    }
}

/// The update a state vector gives: one where it has both coordinates.
pub open spec fn state_update<V>(st: StateVector<V>) -> Option<UpdateView<V>> {
    match (st.latitude, st.longitude) {
        (Some(lat), Some(lon)) => Some(
            UpdateView {
                id: text_or(opt_text(st.icao24), "?"@),
                label: state_label(st),
                lat,
                lon,
                bearing: st.true_track,
                speed: st.speed_kmh,
                style: opensky_style(),
                source_tag: SourceTag::Opensky,
            },
        ),
        _ => None,
    }
}

/// The OpenSky aircraft categories, code by code: codes 0 to 20 but 13 have names of
/// their own, and 13 and every code above 20 read "Unknown".
pub proof fn law_category_names(cat: u64)
    ensures
        category_text(0) == "No info"@,
        category_text(1) == "No ADS-B"@,
        category_text(2) == "Light (<15500 lbs)"@,
        category_text(3) == "Small (15500-75000 lbs)"@,
        category_text(4) == "Large (75000-300000 lbs)"@,
        category_text(5) == "High vortex large"@,
        category_text(6) == "Heavy (>300000 lbs)"@,
        category_text(7) == "High performance"@,
        category_text(8) == "Rotorcraft"@,
        category_text(9) == "Glider/sailplane"@,
        category_text(10) == "Lighter-than-air"@,
        category_text(11) == "Parachutist/skydiver"@,
        category_text(12) == "Ultralight/hang-glider"@,
        category_text(14) == "UAV"@,
        category_text(15) == "Space vehicle"@,
        category_text(16) == "Surface emergency"@,
        category_text(17) == "Surface service"@,
        category_text(18) == "Obstruction"@,
        category_text(19) == "Cluster obstacle"@,
        category_text(20) == "Line obstacle"@,
        (cat == 13 || cat > 20) ==> category_text(cat) == "Unknown"@,
        (cat <= 20 && cat != 13) ==> category_text(cat) != "Unknown"@,
{
    reveal_strlit("Unknown");
    reveal_strlit("No info");
    reveal_strlit("No ADS-B");
    reveal_strlit("Light (<15500 lbs)");
    reveal_strlit("Small (15500-75000 lbs)");
    reveal_strlit("Large (75000-300000 lbs)");
    reveal_strlit("High vortex large");
    reveal_strlit("Heavy (>300000 lbs)");
    reveal_strlit("High performance");
    reveal_strlit("Rotorcraft");
    reveal_strlit("Glider/sailplane");
    reveal_strlit("Lighter-than-air");
    reveal_strlit("Parachutist/skydiver");
    reveal_strlit("Ultralight/hang-glider");
    reveal_strlit("UAV");
    reveal_strlit("Space vehicle");
    reveal_strlit("Surface emergency");
    reveal_strlit("Surface service");
    reveal_strlit("Obstruction");
    reveal_strlit("Cluster obstacle");
    reveal_strlit("Line obstacle");
    if cat == 0 {
        assert(category_text(0).len() != "Unknown"@.len() || category_text(0)[0] != "Unknown"@[0]);
    }
    if cat == 1 {
        assert(category_text(1).len() != "Unknown"@.len() || category_text(1)[0] != "Unknown"@[0]);
    }
    if cat == 2 {
        assert(category_text(2).len() != "Unknown"@.len() || category_text(2)[0] != "Unknown"@[0]);
    }
    if cat == 3 {
        assert(category_text(3).len() != "Unknown"@.len() || category_text(3)[0] != "Unknown"@[0]);
    }
    if cat == 4 {
        assert(category_text(4).len() != "Unknown"@.len() || category_text(4)[0] != "Unknown"@[0]);
    }
    if cat == 5 {
        assert(category_text(5).len() != "Unknown"@.len() || category_text(5)[0] != "Unknown"@[0]);
    }
    if cat == 6 {
        assert(category_text(6).len() != "Unknown"@.len() || category_text(6)[0] != "Unknown"@[0]);
    }
    if cat == 7 {
        assert(category_text(7).len() != "Unknown"@.len() || category_text(7)[0] != "Unknown"@[0]);
    }
    if cat == 8 {
        assert(category_text(8).len() != "Unknown"@.len() || category_text(8)[0] != "Unknown"@[0]);
    }
    if cat == 9 {
        assert(category_text(9).len() != "Unknown"@.len() || category_text(9)[0] != "Unknown"@[0]);
    }
    if cat == 10 {
        assert(category_text(10).len() != "Unknown"@.len() || category_text(10)[0] != "Unknown"@[0]);
    }
    if cat == 11 {
        assert(category_text(11).len() != "Unknown"@.len() || category_text(11)[0] != "Unknown"@[0]);
    }
    if cat == 12 {
        assert(category_text(12).len() != "Unknown"@.len() || category_text(12)[0] != "Unknown"@[0]);
    }
    if cat == 14 {
        assert(category_text(14).len() != "Unknown"@.len() || category_text(14)[0] != "Unknown"@[0]);
    }
    if cat == 15 {
        assert(category_text(15).len() != "Unknown"@.len() || category_text(15)[0] != "Unknown"@[0]);
    }
    if cat == 16 {
        assert(category_text(16).len() != "Unknown"@.len() || category_text(16)[0] != "Unknown"@[0]);
    }
    if cat == 17 {
        assert(category_text(17).len() != "Unknown"@.len() || category_text(17)[0] != "Unknown"@[0]);
    }
    if cat == 18 {
        assert(category_text(18).len() != "Unknown"@.len() || category_text(18)[0] != "Unknown"@[0]);
    }
    if cat == 19 {
        assert(category_text(19).len() != "Unknown"@.len() || category_text(19)[0] != "Unknown"@[0]);
    }
    if cat == 20 {
        assert(category_text(20).len() != "Unknown"@.len() || category_text(20)[0] != "Unknown"@[0]);
    }
}

/// A state vector gives an update exactly when it has a latitude and a longitude. The
/// update is at that latitude and longitude, has the transponder address as id ("?"
/// where there is none), the true track as bearing and the speed as speed, and is
/// labelled with the aircraft's name, its country in brackets where it has one, its
/// altitude in metres where known, and its category in square brackets.
pub proof fn law_state_update<V>(st: StateVector<V>)
    ensures
        (st.latitude is Some && st.longitude is Some) <==> state_update(st) is Some,
        (st.latitude is Some && st.longitude is Some) ==> (state_update(st) matches Some(u) && {
            let country = text_or(opt_text(st.origin_country), ""@);
            let alt = match opt_text(st.altitude) {
                Some(a) => " "@ + a + "m"@,
                None => Seq::<char>::empty(),
            };
            let cat = category_text(
                match st.category {
                    Some(c) => c,
                    None => 0,
                },
            );
            &&& u.lat == st.latitude->0
            &&& u.lon == st.longitude->0
            &&& u.id == text_or(opt_text(st.icao24), "?"@)
            &&& u.bearing == st.true_track
            &&& u.speed == st.speed_kmh
            &&& u.source_tag == SourceTag::Opensky
            &&& u.style == opensky_style()
            &&& (country.len() == 0 ==> u.label == display_callsign(st) + alt + " ["@ + cat + "]"@)
            &&& (country.len() > 0 ==> u.label == display_callsign(st) + " ("@ + country + ")"@
                + alt + " ["@ + cat + "]"@)
        }),
{
}

/// The name shown for an aircraft is its callsign without surrounding whitespace, or,
/// where that leaves nothing, its transponder address ("?" where there is none).
pub proof fn law_display_callsign<V>(st: StateVector<V>)
    ensures
        trim(text_or(opt_text(st.callsign), ""@)).len() > 0 ==> display_callsign(st) == trim(
            text_or(opt_text(st.callsign), ""@),
        ),
        trim(text_or(opt_text(st.callsign), ""@)).len() == 0 ==> display_callsign(st) == text_or(
            opt_text(st.icao24),
            "?"@,
        ),
{
}

/// The update for one aircraft, where its state vector has a position.
pub fn state_to_update<V>(st: StateVector<V>) -> (r: Option<ActorUpdate<V>>)
    ensures
        opt_update_view(r) == state_update(st),
{
    let ghost g = st;
    let StateVector {
        icao24,
        callsign,
        origin_country,
        longitude,
        latitude,
        altitude,
        speed_kmh,
        true_track,
        category,
    } = st;
    let (lat, lon) = match (latitude, longitude) {
        (Some(lat), Some(lon)) => (lat, lon),
        _ => {
            return None;
        },
    };
    let icao: &str = match &icao24 {
        Some(s) => s.as_str(),
        None => "?",
    };
    let raw_callsign: &str = match &callsign {
        Some(s) => s.as_str(),
        None => "",
    };
    let trimmed = trim_str(raw_callsign);
    let mut label = if trimmed.is_empty() {
        owned(icao)
    } else {
        owned(trimmed)
    };
    assert(label@ == display_callsign(g));
    let country: &str = match &origin_country {
        Some(s) => s.as_str(),
        None => "",
    };
    let country_empty = country.is_empty();
    if !country_empty {
        label.append(" (");
        label.append(country);
        label.append(")");
    }
    let ghost before_alt = label@;
    match &altitude {
        Some(a) => {
            label.append(" ");
            label.append(a.as_str());
            label.append("m");
        },
        None => {},
    }
    assert(label@ =~= before_alt + altitude_suffix(opt_text(g.altitude)));
    let cat = category_name(
        match category {
            Some(c) => c,
            None => 0,
        },
    );
    label.append(" [");
    label.append(cat);
    label.append("]");
    assert(label@ =~= state_label(g));
    Some(
        ActorUpdate {
            id: owned(icao),
            label,
            lat,
            lon,
            bearing: true_track,
            speed: speed_kmh,
            style: style(),
            source_tag: TAG,
        },
    )
}

/// The updates of a batch of state vectors: one per aircraft with a position, in order.
pub fn states_to_updates<V>(states: Vec<StateVector<V>>) -> (r: Vec<ActorUpdate<V>>)
    ensures
        updates_view(r@) == filter_map(states@, |st: StateVector<V>| state_update(st)),
{
    let ghost f = |st: StateVector<V>| state_update(st);
    let ghost all = states@;
    let mut r: Vec<ActorUpdate<V>> = Vec::new();
    for st in it: states
        invariant
            all == it.seq(),
            f == (|st: StateVector<V>| state_update(st)),
            updates_view(r@) == filter_map(all.take(it.index() as int), f),
    {
        proof {
            lemma_filter_map_step(all, f, it.index() as int);
        }
        let ghost before = r@;
        match state_to_update(st) {
            Some(u) => {
                r.push(u);
                assert(updates_view(r@) =~= updates_view(before).push(u@));
            },
            None => {},
        }
    }
    proof {
        lemma_filter_map_full(all, f);
    }
    r
}

} // verus!
