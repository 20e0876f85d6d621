use vstd::prelude::*;

use super::{filter_map, lemma_filter_map_full, lemma_filter_map_step, opt_text, opt_update_view, text_or};
use super::{updates_view, ActorUpdate, UpdateView};
use crate::components::{Icon, Rgb, SourceStyle, SourceTag};
use crate::text::owned;
use vstd::utf8::encode_utf8;

verus! {

pub const TAG: SourceTag = SourceTag::Dwd;

/// The style of weather warnings.
pub open spec fn dwd_style() -> SourceStyle {
    SourceStyle {
        name: "Weather Warning",
        icon: Icon::CloudWarning,
        color: Rgb { r: 255, g: 200, b: 0 },
        icon_size: 16,
        use_bearing: false,
        icon_angle_offset_deg: 0,
    }
}

pub fn style() -> (s: SourceStyle)
    ensures
        s == dwd_style(),
{
    SourceStyle {
        name: "Weather Warning",
        icon: Icon::CloudWarning,
        color: Rgb { r: 255, g: 200, b: 0 },
        icon_size: 16,
        use_bearing: false,
        icon_angle_offset_deg: 0,
    }
}

/// `b` without its leading `#` bytes.
pub open spec fn strip_hashes(b: Seq<u8>) -> Seq<u8>
    decreases b.len(),
{
    if b.len() > 0 && b[0] == 0x23 {
        strip_hashes(b.drop_first())
    } else {
        b
    }
}

/// The value of an ASCII hexadecimal digit.
pub open spec fn hex_digit(c: u8) -> Option<u8> {
    if 0x30 <= c <= 0x39 {
        Some((c - 0x30) as u8)
    } else if 0x61 <= c <= 0x66 {
        Some((c - 0x61 + 10) as u8)
    } else if 0x41 <= c <= 0x46 {
        Some((c - 0x41 + 10) as u8)
    } else {
        None
    }
}

/// A byte read from two characters in base 16, as `u8::from_str_radix` reads them:
/// two digits, or a `+` sign before one digit.
pub open spec fn hex_byte(c0: u8, c1: u8) -> Option<u8> {
    if c0 == 0x2b {
        hex_digit(c1)
    } else {
        match (hex_digit(c0), hex_digit(c1)) {
            (Some(h), Some(l)) => Some((16 * h + l) as u8),
            _ => None,
        }
    }
}

/// A byte, or a default where there is none.
pub open spec fn byte_or(o: Option<u8>, default: u8) -> u8 {
    match o {
        Some(b) => b,
        None => default,
    }
}

/// The colour of a `#rrggbb` text given as bytes: each channel that does not read
/// as hexadecimal gets the warning default, and a text shorter than six bytes
/// after its `#`s gets the warning colour.
pub open spec fn hex_color(bytes: Seq<u8>) -> Rgb {
    let h = strip_hashes(bytes);
    if h.len() >= 6 {
        Rgb {
            r: byte_or(hex_byte(h[0], h[1]), 255),
            g: byte_or(hex_byte(h[2], h[3]), 200),
            b: byte_or(hex_byte(h[4], h[5]), 0),
        }
    } else {
        dwd_style().color
    }
}

/// Whether a byte continues a UTF-8 encoded character.
pub open spec fn continues_char(b: u8) -> bool {
    0x80 <= b <= 0xbf
}

/// Whether the three two-byte channels of a colour text start and end on character
/// boundaries, so that they can be cut out of it.
pub open spec fn hex_color_cuttable(bytes: Seq<u8>) -> bool {
    let h = strip_hashes(bytes);
    h.len() >= 6 ==> {
        &&& !continues_char(h[2])
        &&& !continues_char(h[4])
        &&& (h.len() == 6 || !continues_char(h[6]))
    }
}

proof fn lemma_strip_hashes_skip(b: Seq<u8>, k: int)
    requires
        0 <= k <= b.len(),
        forall|i: int| 0 <= i < k ==> b[i] == 0x23,
        k == b.len() || b[k] != 0x23,
    ensures
        strip_hashes(b) == b.subrange(k, b.len() as int),
    decreases k,
{
    if k == 0 {
        assert(b.subrange(0, b.len() as int) =~= b);
    } else {
        let t = b.drop_first();
        assert forall|i: int| 0 <= i < k - 1 implies t[i] == 0x23 by {
            assert(t[i] == b[i + 1]);
        }
        lemma_strip_hashes_skip(t, k - 1);
        assert(t.subrange(k - 1, t.len() as int) =~= b.subrange(k, b.len() as int));
    }
}

/// Each hexadecimal digit reads as its value: `0`-`9` as 0-9, `a`-`f` and `A`-`F` as
/// 10-15; no other byte is a digit.
pub proof fn law_hex_digits(c: u8)
    ensures
        forall|d: u8| d < 10 ==> #[trigger] hex_digit((0x30 + d) as u8) == Some(d),
        forall|d: u8| d < 6 ==> #[trigger] hex_digit((0x61 + d) as u8) == Some((10 + d) as u8),
        forall|d: u8| d < 6 ==> #[trigger] hex_digit((0x41 + d) as u8) == Some((10 + d) as u8),
        hex_digit(c) is Some <==> (0x30 <= c <= 0x39 || 0x61 <= c <= 0x66 || 0x41 <= c <= 0x46),
{
}

/// Two hexadecimal digits read as sixteen times the first plus the second, as
/// `u8::from_str_radix` reads them; a `+` before one digit reads as that digit.
pub proof fn law_hex_byte(c0: u8, c1: u8, h: u8, l: u8)
    requires
        c0 != 0x2b,
        hex_digit(c0) == Some(h),
        hex_digit(c1) == Some(l),
    ensures
        hex_byte(c0, c1) == Some((16 * h + l) as u8),
        16 * h + l <= 255,
        hex_byte(0x2b, c1) == Some(l),
{
}

/// A colour text of `#` and six hexadecimal digits reads as the colour whose red, green
/// and blue are the values of the first, second and third digit pairs.
pub proof fn law_hex_color_digits(bytes: Seq<u8>, v: Seq<u8>)
    requires
        bytes.len() == 7,
        bytes[0] == 0x23,
        v.len() == 6,
        forall|i: int| 0 <= i < 6 ==> #[trigger] hex_digit(bytes[i + 1]) == Some(v[i]),
    ensures
        hex_color(bytes) == (Rgb {
            r: (16 * v[0] + v[1]) as u8,
            g: (16 * v[2] + v[3]) as u8,
            b: (16 * v[4] + v[5]) as u8,
        }),
{
    let t = bytes.drop_first();
    assert(t[0] != 0x23 && t[0] != 0x2b && t[2] != 0x2b && t[4] != 0x2b) by {
        assert(hex_digit(bytes[1]) == Some(v[0]));
        assert(hex_digit(bytes[3]) == Some(v[2]));
        assert(hex_digit(bytes[5]) == Some(v[4]));
    }
    assert(strip_hashes(t) == t);
    assert(strip_hashes(bytes) == t);
    assert(hex_digit(t[0]) == Some(v[0]) && hex_digit(t[1]) == Some(v[1]));
    assert(hex_digit(t[2]) == Some(v[2]) && hex_digit(t[3]) == Some(v[3]));
    assert(hex_digit(t[4]) == Some(v[4]) && hex_digit(t[5]) == Some(v[5]));
}

fn digit_value(c: u8) -> (d: Option<u8>)
    ensures
        d == hex_digit(c),
{
    if 0x30 <= c && c <= 0x39 {
        Some(c - 0x30)
    } else if 0x61 <= c && c <= 0x66 {
        Some(c - 0x61 + 10)
    } else if 0x41 <= c && c <= 0x46 {
        Some(c - 0x41 + 10)
    } else {
        None
    }
}

fn read_byte(c0: u8, c1: u8, default: u8) -> (b: u8)
    ensures
        b == byte_or(hex_byte(c0, c1), default),
{
    if c0 == 0x2b {
        match digit_value(c1) {
            Some(d) => d,
            None => default,
        }
    } else {
        match (digit_value(c0), digit_value(c1)) {
            (Some(h), Some(l)) => 16 * h + l,
            _ => default,
        }
    }
}

/// Whether the colour text can be cut into its channels; where it cannot,
/// reading it as a colour is refused.
pub fn color_text_cuttable(hex: &str) -> (ok: bool)
    ensures
        ok == hex_color_cuttable(encode_utf8(hex@)),
{
    let b = hex.as_bytes();
    let n = b.len();
    let mut k: usize = 0;
    while k < n && b[k] == 0x23
        invariant
            b@ == encode_utf8(hex@),
            n == b@.len(),
            k <= n,
            forall|i: int| 0 <= i < k ==> b@[i] == 0x23,
        decreases n - k,
    {
        k = k + 1;
    }
    proof {
        lemma_strip_hashes_skip(b@, k as int);
    }
    if n - k >= 6 {
        let c2 = b[k + 2];
        let c4 = b[k + 4];
        !(0x80 <= c2 && c2 <= 0xbf) && !(0x80 <= c4 && c4 <= 0xbf) && (n - k == 6 || !(0x80
            <= b[k + 6] && b[k + 6] <= 0xbf))
    } else {
        true
    }
}

/// The colour of a `#rrggbb` text.
pub fn parse_hex_color(hex: &str) -> (c: Rgb)
    requires
        hex_color_cuttable(encode_utf8(hex@)),
    ensures
        c == hex_color(encode_utf8(hex@)),
{
    let b = hex.as_bytes();
    let n = b.len();
    let mut k: usize = 0;
    while k < n && b[k] == 0x23
        invariant
            b@ == encode_utf8(hex@),
            n == b@.len(),
            k <= n,
            forall|i: int| 0 <= i < k ==> b@[i] == 0x23,
        decreases n - k,
    {
        k = k + 1;
    }
    proof {
        lemma_strip_hashes_skip(b@, k as int);
    }
    if n - k >= 6 {
        let r = read_byte(b[k], b[k + 1], 255);
        let g = read_byte(b[k + 2], b[k + 3], 200);
        let bl = read_byte(b[k + 4], b[k + 5], 0);
        Rgb { r, g, b: bl }
    } else {
        style().color
    }
}

/// The `(lon, lat)` pairs of the points with at least two coordinates in `ring`.
pub open spec fn ring_points<V>(ring: Seq<Vec<V>>) -> Seq<(V, V)> {
    filter_map(
        ring,
        |p: Vec<V>|
            if p@.len() >= 2 {
                Some((p@[0], p@[1]))
            } else {
                None
            },
    )
}

/// The points of the outer (first) ring of a polygon.
pub open spec fn polygon_points<V>(polygon: Vec<Vec<Vec<V>>>) -> Seq<(V, V)> {
    if polygon@.len() > 0 {
        ring_points(polygon@[0]@)
    } else {
        Seq::empty()
    }
}

/// The points of the outer rings of a multipolygon, polygon by polygon.
pub open spec fn outer_points<V>(polygons: Seq<Vec<Vec<Vec<V>>>>) -> Seq<(V, V)>
    decreases polygons.len(),
{
    if polygons.len() == 0 {
        Seq::empty()
    } else {
        outer_points(polygons.drop_last()) + polygon_points(polygons.last())
    }
}

/// The `(lon, lat)` points whose mean is the centroid of a multipolygon
/// (`[polygon][ring][point][coord]`): every point with at least two coordinates
/// in the outer ring of each polygon.
pub fn centroid_points<V: Copy>(coords: &Vec<Vec<Vec<Vec<V>>>>) -> (pts: Vec<(V, V)>)
    ensures
        pts@ == outer_points(coords@),
{
    let mut pts: Vec<(V, V)> = Vec::new();
    let n = coords.len();
    let mut i: usize = 0;
    while i < n
        invariant
            n == coords@.len(),
            i <= n,
            pts@ == outer_points(coords@.take(i as int)),
        decreases n - i,
    {
        assert(coords@.take(i + 1).drop_last() =~= coords@.take(i as int));
        let polygon = &coords[i];
        let ghost before = pts@;
        if polygon.len() > 0 {
            let ring = &polygon[0];
            let ghost rf = |p: Vec<V>|
                if p@.len() >= 2 {
                    Some((p@[0], p@[1]))
                } else {
                    None
                };
            let m = ring.len();
            let mut j: usize = 0;
            while j < m
                invariant
                    m == ring@.len(),
                    j <= m,
                    rf == (|p: Vec<V>|
                        if p@.len() >= 2 {
                            Some((p@[0], p@[1]))
                        } else {
                            None
                        }),
                    pts@ == before + filter_map(ring@.take(j as int), rf),
                decreases m - j,
            {
                proof {
                    lemma_filter_map_step(ring@, rf, j as int);
                }
                let point = &ring[j];
                if point.len() >= 2 {
                    pts.push((point[0], point[1]));
                }
                j = j + 1;
            }
            proof {
                lemma_filter_map_full(ring@, rf);
                assert(pts@ =~= before + polygon_points(coords@[i as int]));
            }
        } else {
            assert(pts@ =~= before + polygon_points(coords@[i as int]));
        }
        i = i + 1;
    }
    assert(coords@.take(n as int) =~= coords@);
    pts
}

/// One weather warning, with the centroid of its area where the area has points,
/// and the id to use where the warning has none (the centroid written out).
pub struct Warning<V> {
    pub identifier: Option<String>,
    pub name: Option<String>,
    pub event: Option<String>,
    pub ec_area_color: Option<String>,
    /// `(lat, lon)`
    pub centroid: Option<(V, V)>,
    pub fallback_id: String,
}

/// Whether a warning's own colour, where it is needed (a warning with a centroid
/// that has a colour), can be read.
pub open spec fn warning_readable<V>(w: Warning<V>) -> bool {
    match (w.centroid, w.ec_area_color) {
        (Some(_), Some(c)) => hex_color_cuttable(encode_utf8(c@)),
        _ => true,
    }
}

/// The update a warning gives: one where its area has a centroid.
pub open spec fn warning_update<V>(w: Warning<V>) -> Option<UpdateView<V>> {
    match w.centroid {
        Some((lat, lon)) => Some(
            UpdateView {
                id: text_or(opt_text(w.identifier), w.fallback_id@),
                label: text_or(opt_text(w.event), "Warning"@) + " - "@ + text_or(
                    opt_text(w.name),
                    "Unknown"@,
                ),
                lat,
                lon,
                bearing: None,
                speed: None,
                style: SourceStyle {
                    color: match w.ec_area_color {
                        Some(c) => hex_color(encode_utf8(c@)),
                        None => dwd_style().color,
                    },
                    ..dwd_style()
                },
                source_tag: SourceTag::Dwd,
            },
        ),
        None => None,
    }
}

/// A warning gives an update exactly when its area has a centroid `(lat, lon)`. The
/// update is at that latitude and longitude, has the warning's identifier as id (the
/// fallback id where it has none), is labelled with the event ("Warning" where there is
/// none), " - " and the region ("Unknown" where there is none), and is drawn in the
/// warning's own colour where it has one, else in the warning style's colour.
pub proof fn law_warning_update<V>(w: Warning<V>)
    ensures
        w.centroid is Some <==> warning_update(w) is Some,
        w.centroid is Some ==> (warning_update(w) matches Some(u) && {
            let c = w.centroid->0;
            &&& u.lat == c.0
            &&& u.lon == c.1
            &&& u.id == text_or(opt_text(w.identifier), w.fallback_id@)
            &&& u.label == text_or(opt_text(w.event), "Warning"@) + " - "@ + text_or(
                opt_text(w.name),
                "Unknown"@,
            )
            &&& (w.ec_area_color matches Some(c) ==> u.style.color == hex_color(encode_utf8(c@)))
            &&& (w.ec_area_color is None ==> u.style.color == (Rgb { r: 255, g: 200, b: 0 }))
            &&& u.style.icon == Icon::CloudWarning
            &&& u.style.name == dwd_style().name
            &&& u.source_tag == SourceTag::Dwd
            &&& u.bearing is None
            &&& u.speed is None
        }),
{
}

/// The points of a polygon are those of its first ring, in order, each point with at
/// least two coordinates giving `(coordinate 0, coordinate 1)`; where every point of
/// the first ring has two coordinates, each gives one.
pub proof fn law_polygon_points<V>(polygon: Vec<Vec<Vec<V>>>)
    requires
        polygon@.len() > 0,
        forall|i: int| 0 <= i < polygon@[0]@.len() ==> (#[trigger] polygon@[0]@[i])@.len() >= 2,
    ensures
        polygon_points(polygon).len() == polygon@[0]@.len(),
        forall|i: int|
            0 <= i < polygon@[0]@.len() ==> #[trigger] polygon_points(polygon)[i] == (
                polygon@[0]@[i]@[0],
                polygon@[0]@[i]@[1],
            ),
{
    let ring = polygon@[0]@;
    lemma_ring_points_full(ring, ring.len() as int);
    assert(ring.take(ring.len() as int) =~= ring);
}

proof fn lemma_ring_points_full<V>(ring: Seq<Vec<V>>, n: int)
    requires
        0 <= n <= ring.len(),
        forall|i: int| 0 <= i < ring.len() ==> (#[trigger] ring[i])@.len() >= 2,
    ensures
        ring_points(ring.take(n)).len() == n,
        forall|i: int| 0 <= i < n ==> #[trigger] ring_points(ring.take(n))[i] == (ring[i]@[0], ring[i]@[1]),
    decreases n,
{
    let f = |p: Vec<V>|
        if p@.len() >= 2 {
            Some((p@[0], p@[1]))
        } else {
            None
        };
    if n == 0 {
        assert(ring.take(0) =~= Seq::<Vec<V>>::empty());
    } else {
        lemma_ring_points_full(ring, n - 1);
        lemma_filter_map_step(ring, f, n - 1);
    }
}

/// The update for one warning, where its area has a centroid.
pub fn warning_to_update<V>(w: Warning<V>) -> (r: Option<ActorUpdate<V>>)
    requires
        warning_readable(w),
    ensures
        opt_update_view(r) == warning_update(w),
{
    let ghost g = w;
    let Warning { identifier, name, event, ec_area_color, centroid, fallback_id } = w;
    let (lat, lon) = match centroid {
        Some(c) => c,
        None => {
            return None;
        },
    };
    let id = match identifier {
        Some(i) => i,
        None => fallback_id,
    };
    let ev: &str = match &event {
        Some(e) => e.as_str(),
        None => "Warning",
    };
    let region: &str = match &name {
        Some(n) => n.as_str(),
        None => "Unknown",
    };
    let mut label = owned(ev);
    label.append(" - ");
    label.append(region);
    let base_style = style();
    let color = match &ec_area_color {
        Some(c) => parse_hex_color(c.as_str()),
        None => base_style.color,
    };
    let mut s = base_style;
    s.color = color;
    let r = ActorUpdate {
        id,
        label,
        lat,
        lon,
        bearing: None,
        speed: None,
        style: s,
        source_tag: TAG,
    };
    assert(opt_update_view(Some(r)) =~= warning_update(g));
    Some(r)
}

/// The updates of a batch of warnings: one per warning with a centroid, in order.
pub fn warnings_to_updates<V>(warnings: Vec<Warning<V>>) -> (r: Vec<ActorUpdate<V>>)
    requires
        forall|i: int| 0 <= i < warnings@.len() ==> warning_readable(#[trigger] warnings@[i]),
    ensures
        updates_view(r@) == filter_map(warnings@, |w: Warning<V>| warning_update(w)),
{
    let ghost fm = |w: Warning<V>| warning_update(w);
    let ghost all = warnings@;
    let mut r: Vec<ActorUpdate<V>> = Vec::new();
    for w in it: warnings
        invariant
            all == it.seq(),
            forall|i: int| 0 <= i < all.len() ==> warning_readable(#[trigger] all[i]),
            fm == (|w: Warning<V>| warning_update(w)),
            updates_view(r@) == filter_map(all.take(it.index() as int), fm),
    {
        proof {
            lemma_filter_map_step(all, fm, it.index() as int);
        }
        let ghost before = r@;
        match warning_to_update(w) {
            Some(u) => {
                r.push(u);
                assert(updates_view(r@) =~= updates_view(before).push(u@));
            },
            None => {},
        }
    }
    proof {
        lemma_filter_map_full(all, fm);
    }
    r
}

} // verus!
