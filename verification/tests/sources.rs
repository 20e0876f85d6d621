use terrar::components::{Icon, Rgb, SourceTag};
use terrar::sources::autobahn::{self, AutobahnItem, Coordinate, ReportKind};
use terrar::sources::dwd::{self, Warning};
use terrar::sources::iss::{self, IssPosition};
use terrar::sources::opensky::{self, category_name, StateVector};
use terrar::sources::ships::{self, AisFeature, Heading};
use terrar::sources::vbb::{self, Line, Location, Movement};

fn state(callsign: Option<&str>, country: Option<&str>, alt: Option<&str>, cat: Option<u64>) -> StateVector<f64> {
    StateVector {
        icao24: Some("3c6444".to_string()),
        callsign: callsign.map(|s| s.to_string()),
        origin_country: country.map(|s| s.to_string()),
        longitude: Some(8.5),
        latitude: Some(50.1),
        altitude: alt.map(|s| s.to_string()),
        speed_kmh: Some(720.0),
        true_track: Some(90.0),
        category: cat,
    }
}

#[test]
fn category_names() {
    assert_eq!(category_name(0), "No info");
    assert_eq!(category_name(4), "Large (75000-300000 lbs)");
    assert_eq!(category_name(13), "Unknown");
    assert_eq!(category_name(14), "UAV");
    assert_eq!(category_name(20), "Line obstacle");
    assert_eq!(category_name(21), "Unknown");
}

#[test]
fn styles_of_sources() {
    let s = iss::style();
    assert_eq!((s.name, s.icon, s.color, s.icon_size, s.use_bearing), ("ISS", Icon::Rocket, Rgb::new(255, 255, 0), 20, false));
    let s = opensky::style();
    assert_eq!((s.name, s.icon, s.icon_angle_offset_deg, s.use_bearing), ("Aircraft", Icon::AirplaneTilt, -45, true));
    assert_eq!(ships::style().color, Rgb::new(60, 200, 160));
    assert_eq!(dwd::style().color, Rgb::new(255, 200, 0));
    assert_eq!(vbb::style().name, "Berlin Transit");
    assert_eq!(autobahn::style().icon, Icon::Warning);
}

#[test]
fn iss_gives_one_update() {
    let us = iss::to_updates(IssPosition { latitude: 12.5, longitude: -40.25 });
    assert_eq!(us.len(), 1);
    assert_eq!(us[0].id, "ISS");
    assert_eq!(us[0].label, "ISS");
    assert_eq!((us[0].lat, us[0].lon), (12.5, -40.25));
    assert_eq!(us[0].source_tag, SourceTag::Iss);
    assert!(us[0].bearing.is_none() && us[0].speed.is_none());
}

#[test]
fn aircraft_label_with_country_and_altitude() {
    let u = opensky::state_to_update(state(Some("DLH4AB  "), Some("Germany"), Some("10973"), Some(4))).unwrap();
    assert_eq!(u.id, "3c6444");
    assert_eq!(u.label, "DLH4AB (Germany) 10973m [Large (75000-300000 lbs)]");
    assert_eq!((u.lat, u.lon), (50.1, 8.5));
    assert_eq!(u.bearing, Some(90.0));
    assert_eq!(u.speed, Some(720.0));
    assert_eq!(u.source_tag, SourceTag::Opensky);
}

#[test]
fn aircraft_label_falls_back_to_address_and_no_info() {
    let u = opensky::state_to_update(state(Some("   "), None, None, None)).unwrap();
    assert_eq!(u.label, "3c6444 [No info]");
    let mut st = state(None, Some(""), Some("0"), Some(21));
    st.icao24 = None;
    let u = opensky::state_to_update(st).unwrap();
    assert_eq!(u.id, "?");
    assert_eq!(u.label, "? 0m [Unknown]");
}

#[test]
fn aircraft_without_position_is_skipped() {
    let mut st = state(Some("X"), None, None, None);
    st.latitude = None;
    assert!(opensky::state_to_update(st).is_none());
    let mut a = state(Some("A"), None, None, None);
    a.longitude = None;
    let b = state(Some("B"), None, None, None);
    let us = opensky::states_to_updates(vec![a, b]);
    assert_eq!(us.len(), 1);
    assert_eq!(us[0].label, "B [No info]");
}

#[test]
fn vessel_bearing_prefers_valid_heading() {
    let f = |heading: Option<u32>, cog: Option<f64>| AisFeature {
        coordinates: vec![22.5, 59.75],
        mmsi: 230145000,
        heading: heading.map(|h| Heading { degrees: h, value: h as f64 }),
        cog,
        speed_kmh: Some(18.52),
    };
    let u = ships::feature_to_update(f(Some(120), Some(100.0))).unwrap();
    assert_eq!(u.bearing, Some(120.0));
    assert_eq!(ships::feature_to_update(f(Some(511), Some(100.0))).unwrap().bearing, Some(100.0));
    assert_eq!(ships::feature_to_update(f(Some(360), None)).unwrap().bearing, None);
    assert_eq!(ships::feature_to_update(f(None, Some(7.0))).unwrap().bearing, Some(7.0));
    assert_eq!(u.id, "230145000");
    assert_eq!(u.label, "230145000");
    assert_eq!((u.lat, u.lon), (59.75, 22.5));
    assert_eq!(u.speed, Some(18.52));
}

#[test]
fn vessel_with_one_coordinate_is_skipped() {
    let f = AisFeature { coordinates: vec![22.5], mmsi: 1, heading: None, cog: None, speed_kmh: None };
    assert!(ships::feature_to_update(f).is_none());
    let g = AisFeature { coordinates: vec![1.0, 2.0, 3.0], mmsi: 2, heading: None, cog: None, speed_kmh: None };
    let us = ships::features_to_updates(vec![g]);
    assert_eq!(us.len(), 1);
    assert_eq!((us[0].lat, us[0].lon), (2.0, 1.0));
}

fn movement(product: Option<&str>, name: Option<&str>, dir: Option<&str>) -> Movement<f64> {
    Movement {
        direction: dir.map(|s| s.to_string()),
        location: Some(Location { latitude: Some(52.52), longitude: Some(13.4) }),
        line: Some(Line { name: name.map(|s| s.to_string()), product: product.map(|s| s.to_string()) }),
        trip_id: Some("1|2345".to_string()),
    }
}

#[test]
fn transit_icons_by_product() {
    let icon = |p: Option<&str>| vbb::movement_to_update(movement(p, Some("U2"), None)).unwrap().style.icon;
    assert_eq!(icon(Some("subway")), Icon::Subway);
    assert_eq!(icon(Some("tram")), Icon::Tram);
    assert_eq!(icon(Some("bus")), Icon::Bus);
    assert_eq!(icon(Some("ferry")), Icon::Boat);
    assert_eq!(icon(Some("regional")), Icon::Train);
    assert_eq!(icon(Some("express")), Icon::Train);
    assert_eq!(icon(Some("suburban")), Icon::Train);
    assert_eq!(icon(Some("taxi")), Icon::Train);
    assert_eq!(icon(None), Icon::Train);
}

#[test]
fn transit_label_and_defaults() {
    let u = vbb::movement_to_update(movement(Some("subway"), Some("U2"), Some("Pankow"))).unwrap();
    assert_eq!(u.label, "U2 Pankow");
    assert_eq!(u.id, "1|2345");
    let mut m = movement(None, None, None);
    m.trip_id = None;
    m.line = None;
    let u = vbb::movement_to_update(m).unwrap();
    assert_eq!(u.label, "? ");
    assert_eq!(u.id, "?");
}

#[test]
fn transit_without_location_is_skipped() {
    let mut m = movement(None, None, None);
    m.location = None;
    assert!(vbb::movement_to_update(m).is_none());
    let mut m = movement(None, None, None);
    m.location = Some(Location { latitude: Some(1.0), longitude: None });
    let keep = movement(Some("bus"), Some("100"), Some("Zoo"));
    let us = vbb::movements_to_updates(vec![m, keep]);
    assert_eq!(us.len(), 1);
    assert_eq!(us[0].label, "100 Zoo");
}

#[test]
fn hex_colors() {
    assert_eq!(dwd::parse_hex_color("#FF8000"), Rgb::new(255, 128, 0));
    assert_eq!(dwd::parse_hex_color("##a0b0c0ff"), Rgb::new(160, 176, 192));
    assert_eq!(dwd::parse_hex_color("zz00zz"), Rgb::new(255, 0, 0));
    assert_eq!(dwd::parse_hex_color("+f+f+f"), Rgb::new(15, 15, 15));
    assert_eq!(dwd::parse_hex_color("-1-1-1"), Rgb::new(255, 200, 0));
    assert_eq!(dwd::parse_hex_color("#abc"), Rgb::new(255, 200, 0));
    assert_eq!(dwd::parse_hex_color(""), Rgb::new(255, 200, 0));
}

#[test]
fn hex_colors_match_from_str_radix() {
    for pair in ["00", "7f", "FF", "+a", "+", "-1", "g0", "0g", "++"] {
        let text = format!("{pair}{pair}{pair}");
        if text.len() < 6 {
            continue;
        }
        let expect = u8::from_str_radix(&text[0..2], 16).unwrap_or(255);
        assert_eq!(dwd::parse_hex_color(&text).r, expect, "{text}");
    }
}

#[test]
fn hex_color_cut_check() {
    assert!(dwd::color_text_cuttable("#ff0000"));
    assert!(dwd::color_text_cuttable("#é"));
    assert!(!dwd::color_text_cuttable("#aé1234"));
    assert!(dwd::color_text_cuttable("#éé12"));
    assert!(!dwd::color_text_cuttable("#12345é"));
    assert!(dwd::color_text_cuttable("#1234é"));
}

#[test]
fn outer_ring_points_only() {
    let coords = vec![
        vec![vec![vec![8.0, 50.0], vec![9.0], vec![10.0, 52.0, 3.0]], vec![vec![100.0, 100.0]]],
        vec![],
        vec![vec![vec![12.0, 54.0]]],
    ];
    let pts = dwd::centroid_points(&coords);
    assert_eq!(pts, vec![(8.0, 50.0), (10.0, 52.0), (12.0, 54.0)]);
    assert!(dwd::centroid_points::<f64>(&vec![]).is_empty());
}

#[test]
fn warning_update_uses_own_color_and_defaults() {
    let w = Warning {
        identifier: None,
        name: None,
        event: None,
        ec_area_color: Some("#00ff00".to_string()),
        centroid: Some((51.0, 9.0)),
        fallback_id: "51.0000_9.0000".to_string(),
    };
    let u = dwd::warning_to_update(w).unwrap();
    assert_eq!(u.id, "51.0000_9.0000");
    assert_eq!(u.label, "Warning - Unknown");
    assert_eq!(u.style.color, Rgb::new(0, 255, 0));
    assert_eq!((u.lat, u.lon), (51.0, 9.0));
    let w = Warning {
        identifier: Some("2.49.0.1.276.0.DWD.PVW".to_string()),
        name: Some("Kreis Kassel".to_string()),
        event: Some("FROST".to_string()),
        ec_area_color: None,
        centroid: Some((51.0, 9.0)),
        fallback_id: String::new(),
    };
    let u = dwd::warning_to_update(w).unwrap();
    assert_eq!(u.id, "2.49.0.1.276.0.DWD.PVW");
    assert_eq!(u.label, "FROST - Kreis Kassel");
    assert_eq!(u.style.color, Rgb::new(255, 200, 0));
}

#[test]
fn warnings_without_centroid_are_skipped() {
    let w = |c: Option<(f64, f64)>| Warning {
        identifier: None,
        name: None,
        event: None,
        ec_area_color: None,
        centroid: c,
        fallback_id: "x".to_string(),
    };
    let us = dwd::warnings_to_updates(vec![w(None), w(Some((1.0, 2.0)))]);
    assert_eq!(us.len(), 1);
    assert_eq!((us[0].lat, us[0].lon), (1.0, 2.0));
}

fn item(title: Option<&str>, subtitle: Option<&str>, blocked: Option<&str>) -> AutobahnItem<f64> {
    AutobahnItem {
        identifier: Some("V0FSTklOR19f".to_string()),
        title: title.map(|s| s.to_string()),
        subtitle: subtitle.map(|s| s.to_string()),
        coordinate: Some(Coordinate { lat: Some(50.5), long: Some(7.25) }),
        is_blocked: blocked.map(|s| s.to_string()),
    }
}

#[test]
fn autobahn_labels_and_icons() {
    let s = autobahn::style();
    let u = item(Some("A1 | Köln"), Some(" Richtung Bremen"), None).to_update(ReportKind::Warning, &s).unwrap();
    assert_eq!(u.label, "[Warning] A1 | Köln Richtung Bremen");
    assert_eq!((u.style.icon, u.style.icon_size), (Icon::Warning, 14));
    let u = item(Some("A3"), Some(""), None).to_update(ReportKind::Roadwork, &s).unwrap();
    assert_eq!(u.label, "[Roadwork] A3");
    assert_eq!((u.style.icon, u.style.icon_size), (Icon::TrafficCone, 10));
    let u = item(None, None, Some("true")).to_update(ReportKind::Closure, &s).unwrap();
    assert_eq!(u.label, "[Closure] ");
    assert_eq!((u.style.icon, u.style.icon_size), (Icon::Prohibit, 12));
    let u = item(None, None, Some("false")).to_update(ReportKind::Closure, &s).unwrap();
    assert_eq!(u.style.icon, Icon::RoadHorizon);
    assert_eq!(u.id, "V0FSTklOR19f");
    assert_eq!((u.lat, u.lon), (50.5, 7.25));
}

#[test]
fn autobahn_item_without_coordinates_is_skipped() {
    let s = autobahn::style();
    let mut i = item(None, None, None);
    i.coordinate = Some(Coordinate { lat: Some(1.0), long: None });
    assert!(i.to_update(ReportKind::Warning, &s).is_none());
    let mut i = item(None, None, None);
    i.coordinate = None;
    i.identifier = None;
    let keep = {
        let mut k = item(None, None, None);
        k.identifier = None;
        k
    };
    let us = autobahn::items_to_updates(vec![i, keep], ReportKind::Roadwork, &s);
    assert_eq!(us.len(), 1);
    assert_eq!(us[0].id, "?");
}

#[test]
fn empty_round_gives_nothing() {
    assert!(autobahn::collected::<f64>(vec![]).is_none());
    let us = iss::to_updates(IssPosition { latitude: 0.0, longitude: 0.0 });
    assert_eq!(autobahn::collected(us).map(|v| v.len()), Some(1));
}

#[test]
fn road_batches_cycle() {
    let roads: Vec<String> = ["A1", "A2", "A3"].iter().map(|s| s.to_string()).collect();
    assert_eq!(autobahn::road_batch(&roads, 0, 2), vec!["A1", "A2"]);
    assert_eq!(autobahn::road_batch(&roads, 2, 4), vec!["A3", "A1", "A2", "A3"]);
    assert_eq!(autobahn::road_batch(&roads, 7, 1), vec!["A2"]);
    assert!(autobahn::road_batch(&Vec::new(), 3, 10).is_empty());
    assert_eq!(autobahn::next_offset(0, 10, 3), 1);
    assert_eq!(autobahn::next_offset(2, 2, 3), 1);
}

#[test]
fn successive_batches_follow_on() {
    let roads: Vec<String> = (1..=7).map(|i| format!("A{i}")).collect();
    let cycled: Vec<String> = roads.iter().cycle().take(50).cloned().collect();
    let mut offset = 0;
    let mut seen = Vec::new();
    for _ in 0..5 {
        seen.extend(autobahn::road_batch(&roads, offset, 10));
        offset = autobahn::next_offset(offset, 10, roads.len());
    }
    assert_eq!(seen, cycled);
}

#[test]
fn service_urls() {
    assert_eq!(autobahn::service_url("A1", ReportKind::Warning), "https://verkehr.autobahn.de/o/autobahn/A1/services/warning");
    assert_eq!(autobahn::service_url("A7", ReportKind::Roadwork), "https://verkehr.autobahn.de/o/autobahn/A7/services/roadworks");
    assert_eq!(autobahn::service_url("A99", ReportKind::Closure), "https://verkehr.autobahn.de/o/autobahn/A99/services/closure");
    assert_eq!(ReportKind::Roadwork.as_str(), "Roadwork");
}

#[test]
fn round_asks_each_road_for_each_kind_in_order() {
    let mut round = autobahn::RoadRound::<f64>::new(vec!["A1".to_string(), "A2".to_string()]);
    let mut asked = Vec::new();
    while let Some(req) = round.next_request() {
        asked.push((req.url.clone(), req.kind));
        let items = match req.kind {
            ReportKind::Warning => Some(vec![item(Some(&req.url), None, None)]),
            ReportKind::Roadwork => None,
            ReportKind::Closure => Some(vec![item(None, None, Some("true")), {
                let mut i = item(None, None, None);
                i.coordinate = None;
                i
            }]),
        };
        round.deliver(items);
    }
    let base = "https://verkehr.autobahn.de/o/autobahn/";
    assert_eq!(
        asked,
        vec![
            (format!("{base}A1/services/warning"), ReportKind::Warning),
            (format!("{base}A1/services/roadworks"), ReportKind::Roadwork),
            (format!("{base}A1/services/closure"), ReportKind::Closure),
            (format!("{base}A2/services/warning"), ReportKind::Warning),
            (format!("{base}A2/services/roadworks"), ReportKind::Roadwork),
            (format!("{base}A2/services/closure"), ReportKind::Closure),
        ]
    );
    round.deliver(Some(vec![item(None, None, None)]));
    let updates = round.finish().unwrap();
    let labels: Vec<&str> = updates.iter().map(|u| u.label.as_str()).collect();
    assert_eq!(
        labels,
        vec![
            format!("[Warning] {base}A1/services/warning").as_str(),
            "[Closure] ",
            format!("[Warning] {base}A2/services/warning").as_str(),
            "[Closure] ",
        ]
    );
    assert_eq!(updates[1].style.icon, Icon::Prohibit);
}

#[test]
fn round_without_reports_gives_nothing() {
    let mut round = autobahn::RoadRound::<f64>::new(vec!["A1".to_string()]);
    while round.next_request().is_some() {
        round.deliver(None);
    }
    assert!(round.finish().is_none());
    let round = autobahn::RoadRound::<f64>::new(Vec::new());
    assert!(round.next_request().is_none());
    assert!(round.finish().is_none());
}

fn cell(text: Option<&str>, number: Option<f64>, unsigned: Option<u64>) -> opensky::StateCell<f64> {
    opensky::StateCell { text: text.map(|s| s.to_string()), number, unsigned }
}

#[test]
fn state_fields_by_index() {
    let mut row: Vec<opensky::StateCell<f64>> = (0..17).map(|_| cell(None, None, None)).collect();
    row[0] = cell(Some("3c6444"), None, None);
    row[1] = cell(Some("DLH4AB  "), None, None);
    row[2] = cell(Some("Germany"), None, None);
    row[5] = cell(None, Some(8.5), None);
    row[6] = cell(None, Some(50.1), None);
    row[7] = cell(None, Some(10972.8), None);
    row[9] = cell(None, Some(200.0), Some(200));
    row[10] = cell(None, Some(90.0), Some(90));
    row[16] = cell(None, Some(4.0), Some(4));
    let f = opensky::read_state(&row);
    assert_eq!(f.icao24.as_deref(), Some("3c6444"));
    assert_eq!(f.callsign.as_deref(), Some("DLH4AB  "));
    assert_eq!(f.origin_country.as_deref(), Some("Germany"));
    assert_eq!((f.longitude, f.latitude, f.baro_altitude), (Some(8.5), Some(50.1), Some(10972.8)));
    assert_eq!((f.velocity, f.true_track, f.category), (Some(200.0), Some(90.0), Some(4)));
}

#[test]
fn short_state_vector_has_no_late_fields() {
    let row = vec![cell(Some("abc"), None, None), cell(None, Some(1.0), Some(1))];
    let f = opensky::read_state(&row);
    assert_eq!(f.icao24.as_deref(), Some("abc"));
    assert!(f.callsign.is_none());
    assert!(f.longitude.is_none() && f.latitude.is_none() && f.category.is_none());
}

#[test]
fn ship_areas_merge_in_order() {
    let f = |mmsi: u64| AisFeature { coordinates: vec![1.0, 2.0], mmsi, heading: None, cog: None, speed_kmh: None };
    let a = ships::features_to_updates(vec![f(1), f(2)]);
    let b = ships::features_to_updates(vec![f(3)]);
    let ids: Vec<String> = ships::merge_areas(Some(a), Some(b)).unwrap().into_iter().map(|u| u.id).collect();
    assert_eq!(ids, vec!["1", "2", "3"]);
    assert!(ships::merge_areas::<f64>(None, Some(Vec::new())).is_none());
    assert!(ships::merge_areas::<f64>(None, None).is_none());
    assert_eq!(ships::merge_areas(None, Some(ships::features_to_updates(vec![f(9)]))).map(|v| v.len()), Some(1));
}

#[test]
fn road_cycle_goes_round() {
    assert!(autobahn::RoadCycle::start(Vec::new(), 10).is_none());
    let roads: Vec<String> = ["A1", "A2", "A3"].iter().map(|s| s.to_string()).collect();
    let mut c = autobahn::RoadCycle::start(roads, 2).unwrap();
    assert_eq!(c.next_batch(), vec!["A1", "A2"]);
    assert_eq!(c.next_batch(), vec!["A3", "A1"]);
    assert_eq!(c.next_batch(), vec!["A2", "A3"]);
    assert_eq!(c.next_batch(), vec!["A1", "A2"]);
}

#[test]
fn kth_batch_starts_at_batch_size_times_k() {
    for n in [1usize, 3, 7, 10, 23] {
        let roads: Vec<String> = (0..n).map(|i| format!("A{i}")).collect();
        let mut c = autobahn::RoadCycle::start(roads.clone(), 10).unwrap();
        for k in 0..12 {
            let expected: Vec<String> = (0..10).map(|j| roads[(10 * k + j) % n].clone()).collect();
            assert_eq!(c.next_batch(), expected, "n={n} k={k}");
        }
    }
}
