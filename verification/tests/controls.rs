use terrar::components::{Rgb, SourceTag};
use terrar::controls::{known_sources, scroll_zoom, tile_url, visible_actors, Scroll, SourceFilter, ZoomAction};
use terrar::palette::{palette_color, source_color};
use terrar::sources::iss::{self, IssPosition};
use terrar::sources::ActorUpdate;
use terrar::sources::{opensky, vbb};
use terrar::world::ActorStore;

#[test]
fn palette_is_tableau10() {
    assert_eq!(palette_color(0), Rgb::new(0x4e, 0x79, 0xa7));
    assert_eq!(palette_color(5), Rgb::new(0xed, 0xc9, 0x49));
    assert_eq!(palette_color(9), Rgb::new(0xba, 0xb0, 0xab));
    assert_eq!(palette_color(10), palette_color(0));
    for (i, c) in colorous::TABLEAU10.iter().enumerate() {
        assert_eq!(palette_color(i), Rgb::new(c.r, c.g, c.b));
    }
}

#[test]
fn menu_assigns_palette_in_order() {
    let entries = known_sources();
    let tags: Vec<SourceTag> = entries.iter().map(|e| e.tag).collect();
    assert_eq!(
        tags,
        vec![SourceTag::Iss, SourceTag::Opensky, SourceTag::Ships, SourceTag::Dwd, SourceTag::Vbb, SourceTag::Autobahn]
    );
    for (i, e) in entries.iter().enumerate() {
        assert_eq!(e.style.color, palette_color(i));
        assert_eq!(e.style.color, source_color(e.tag));
    }
    assert_eq!(entries[0].style.name, "ISS");
    assert_eq!(entries[5].style.name, "Autobahn");
    assert_eq!(entries[1].style.icon_size, 14);
}

#[test]
fn tags_have_their_texts() {
    assert_eq!(SourceTag::Iss.as_str(), "iss");
    assert_eq!(SourceTag::Opensky.as_str(), "opensky");
    assert_eq!(SourceTag::Autobahn.as_str(), "autobahn");
}

#[test]
fn filter_toggles() {
    let mut f = SourceFilter::new();
    assert!(f.is_enabled(SourceTag::Vbb));
    f.set_enabled(SourceTag::Vbb, false);
    assert!(!f.is_enabled(SourceTag::Vbb));
    assert!(f.is_enabled(SourceTag::Iss));
    f.set_enabled(SourceTag::Vbb, false);
    assert!(!f.is_enabled(SourceTag::Vbb));
    f.set_enabled(SourceTag::Vbb, true);
    assert!(f.is_enabled(SourceTag::Vbb));
}

fn upd(id: &str, tag: SourceTag) -> ActorUpdate<f64> {
    ActorUpdate {
        id: id.to_string(),
        label: id.to_string(),
        lat: 0.0,
        lon: 0.0,
        bearing: None,
        speed: None,
        style: if tag == SourceTag::Vbb { vbb::style() } else { opensky::style() },
        source_tag: tag,
    }
}

#[test]
fn visible_actors_follow_the_filter() {
    let mut s = ActorStore::new();
    s.ingest(vec![upd("a", SourceTag::Vbb), upd("b", SourceTag::Opensky), upd("c", SourceTag::Vbb)]);
    s.ingest(iss::to_updates(IssPosition { latitude: 1.0, longitude: 2.0 }));
    let mut f = SourceFilter::new();
    assert_eq!(visible_actors(&s, &f), vec![0, 1, 2, 3]);
    f.set_enabled(SourceTag::Vbb, false);
    assert_eq!(visible_actors(&s, &f), vec![1, 3]);
    f.set_enabled(SourceTag::Opensky, false);
    f.set_enabled(SourceTag::Iss, false);
    assert!(visible_actors(&s, &f).is_empty());
}

#[test]
fn wheel_zoom_is_throttled() {
    assert_eq!(scroll_zoom(Scroll::Still, 10_000), ZoomAction::Stay);
    assert_eq!(scroll_zoom(Scroll::Up, 149), ZoomAction::Stay);
    assert_eq!(scroll_zoom(Scroll::Up, 150), ZoomAction::ZoomIn);
    assert_eq!(scroll_zoom(Scroll::Down, 150), ZoomAction::ZoomOut);
    assert_eq!(scroll_zoom(Scroll::Down, 0), ZoomAction::Stay);
}

#[test]
fn tile_urls() {
    assert_eq!(tile_url(6, 33, 21), "https://basemaps.cartocdn.com/light_all/6/33/21.png");
    assert_eq!(tile_url(0, 0, 0), "https://basemaps.cartocdn.com/light_all/0/0/0.png");
    assert_eq!(
        tile_url(19, 4294967295, 123456),
        "https://basemaps.cartocdn.com/light_all/19/4294967295/123456.png"
    );
}
