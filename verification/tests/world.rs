use terrar::components::{Rgb, SourceTag};
use terrar::palette::source_color;
use terrar::sources::ActorUpdate;
use terrar::sources::{iss, opensky, ships, vbb};
use terrar::world::ActorStore;

fn update(id: &str, tag: SourceTag, label: &str, lat: f64, bearing: Option<f64>, speed: Option<f64>) -> ActorUpdate<f64> {
    let style = match tag {
        SourceTag::Ships => ships::style(),
        SourceTag::Vbb => vbb::style(),
        SourceTag::Iss => iss::style(),
        _ => opensky::style(),
    };
    ActorUpdate {
        id: id.to_string(),
        label: label.to_string(),
        lat,
        lon: lat + 1.0,
        bearing,
        speed,
        style,
        source_tag: tag,
    }
}

#[test]
fn new_store_is_empty() {
    let s: ActorStore<f64> = ActorStore::new();
    assert_eq!(s.len(), 0);
    assert!(s.find("x", SourceTag::Iss).is_none());
}

#[test]
fn update_is_read_back() {
    let mut s = ActorStore::new();
    s.upsert(update("3c6444", SourceTag::Opensky, "DLH", 50.0, Some(90.0), Some(700.0)));
    s.upsert(update("3c6444", SourceTag::Opensky, "DLH (DE)", 51.0, None, Some(710.0)));
    assert_eq!(s.len(), 1);
    let a = s.get(s.find("3c6444", SourceTag::Opensky).unwrap());
    assert_eq!(a.label.0, "DLH (DE)");
    assert_eq!((a.lat, a.lon), (51.0, 52.0));
    assert_eq!(a.bearing, Some(90.0));
    assert_eq!(a.speed, Some(710.0));
}

#[test]
fn same_id_in_another_source_is_another_actor() {
    let mut s = ActorStore::new();
    s.upsert(update("42", SourceTag::Ships, "a", 1.0, None, None));
    s.upsert(update("42", SourceTag::Vbb, "b", 2.0, None, None));
    assert_eq!(s.len(), 2);
    assert_eq!(s.get(s.find("42", SourceTag::Ships).unwrap()).label.0, "a");
    assert_eq!(s.get(s.find("42", SourceTag::Vbb).unwrap()).label.0, "b");
}

#[test]
fn update_keeps_other_actors() {
    let mut s = ActorStore::new();
    s.ingest(vec![
        update("a", SourceTag::Vbb, "first", 1.0, None, None),
        update("b", SourceTag::Vbb, "second", 2.0, None, None),
    ]);
    s.upsert(update("a", SourceTag::Vbb, "moved", 3.0, None, None));
    let b = s.get(s.find("b", SourceTag::Vbb).unwrap());
    assert_eq!((b.label.0.as_str(), b.lat), ("second", 2.0));
    assert_eq!(s.get(0).label.0, "moved");
}

#[test]
fn speed_only_updated_where_first_reported() {
    let mut s = ActorStore::new();
    s.upsert(update("1", SourceTag::Ships, "x", 0.0, None, None));
    s.upsert(update("1", SourceTag::Ships, "x", 0.0, Some(45.0), Some(20.0)));
    let a = s.get(0);
    assert_eq!(a.speed, None);
    assert_eq!(a.bearing, Some(45.0));
}

#[test]
fn update_twice_is_update_once() {
    let mut once = ActorStore::new();
    let mut twice = ActorStore::new();
    once.upsert(update("1", SourceTag::Iss, "ISS", 3.0, Some(1.0), Some(2.0)));
    twice.upsert(update("1", SourceTag::Iss, "ISS", 3.0, Some(1.0), Some(2.0)));
    twice.upsert(update("1", SourceTag::Iss, "ISS", 3.0, Some(1.0), Some(2.0)));
    assert_eq!(once.len(), twice.len());
    let (a, b) = (once.get(0), twice.get(0));
    assert_eq!((a.lat, a.lon, a.bearing, a.speed, &a.label.0), (b.lat, b.lon, b.bearing, b.speed, &b.label.0));
}

#[test]
fn new_actors_get_palette_colour_and_keep_style() {
    let mut s = ActorStore::new();
    let mut u = update("1", SourceTag::Ships, "x", 0.0, None, None);
    u.style.color = Rgb::new(1, 2, 3);
    s.upsert(u);
    assert_eq!(s.get(0).style.color, Rgb::new(0xe1, 0x57, 0x59));
    assert_eq!(s.get(0).style.color, source_color(SourceTag::Ships));
    let mut v = update("1", SourceTag::Ships, "y", 0.0, None, None);
    v.style.icon_size = 99;
    s.upsert(v);
    assert_eq!(s.get(0).style.icon_size, 12);
    assert_eq!(s.get(0).tag, SourceTag::Ships);
    assert_eq!(s.get(0).id.0, "1");
}

#[test]
fn batch_applies_in_order() {
    let mut s = ActorStore::new();
    s.ingest(vec![
        update("1", SourceTag::Iss, "first", 0.0, None, None),
        update("1", SourceTag::Iss, "second", 1.0, None, None),
        update("2", SourceTag::Iss, "other", 2.0, None, None),
    ]);
    assert_eq!(s.len(), 2);
    assert_eq!(s.get(0).label.0, "second");
    assert_eq!(s.get(1).label.0, "other");
    s.ingest(Vec::new());
    assert_eq!(s.len(), 2);
}

#[test]
fn two_batches_equal_one() {
    let batch = || {
        vec![
            update("1", SourceTag::Ships, "a", 0.0, Some(10.0), Some(5.0)),
            update("2", SourceTag::Ships, "b", 1.0, None, None),
            update("1", SourceTag::Ships, "c", 2.0, None, Some(6.0)),
        ]
    };
    let mut one = ActorStore::new();
    one.ingest(batch());
    let mut two = ActorStore::new();
    let mut all = batch();
    let rest = all.split_off(1);
    two.ingest(all);
    two.ingest(rest);
    assert_eq!(one.len(), two.len());
    for i in 0..one.len() {
        let (a, b) = (one.get(i), two.get(i));
        assert_eq!((&a.id.0, &a.label.0, a.lat, a.lon, a.bearing, a.speed), (&b.id.0, &b.label.0, b.lat, b.lon, b.bearing, b.speed));
    }
    let a = one.get(0);
    assert_eq!((a.label.0.as_str(), a.bearing, a.speed), ("c", Some(10.0), Some(6.0)));
}

#[test]
fn batch_keeps_old_keys_and_adds_new_ones() {
    let mut s = ActorStore::new();
    s.ingest(vec![update("1", SourceTag::Ships, "a", 0.0, None, None), update("2", SourceTag::Vbb, "b", 1.0, None, None)]);
    s.ingest(vec![
        update("2", SourceTag::Vbb, "b2", 5.0, None, None),
        update("3", SourceTag::Vbb, "c", 6.0, None, None),
        update("3", SourceTag::Vbb, "c2", 7.0, None, None),
        update("2", SourceTag::Ships, "d", 8.0, None, None),
    ]);
    assert_eq!(s.len(), 4);
    for (id, tag, label, lat) in [
        ("1", SourceTag::Ships, "a", 0.0),
        ("2", SourceTag::Vbb, "b2", 5.0),
        ("3", SourceTag::Vbb, "c2", 7.0),
        ("2", SourceTag::Ships, "d", 8.0),
    ] {
        let a = s.get(s.find(id, tag).unwrap());
        assert_eq!((a.label.0.as_str(), a.lat, a.lon), (label, lat, lat + 1.0));
    }
}
