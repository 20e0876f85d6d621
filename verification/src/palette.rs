use vstd::prelude::*;

use crate::components::{Rgb, SourceTag};

verus! {

/// The colours of the Tableau10 categorical scheme, in order, as colorous defines them.
pub open spec fn tableau10(i: int) -> Rgb {
    if i == 0 { Rgb { r: 0x4e, g: 0x79, b: 0xa7 } }
    else if i == 1 { Rgb { r: 0xf2, g: 0x8e, b: 0x2c } }
    else if i == 2 { Rgb { r: 0xe1, g: 0x57, b: 0x59 } }
    else if i == 3 { Rgb { r: 0x76, g: 0xb7, b: 0xb2 } }
    else if i == 4 { Rgb { r: 0x59, g: 0xa1, b: 0x4f } }
    else if i == 5 { Rgb { r: 0xed, g: 0xc9, b: 0x49 } }
    else if i == 6 { Rgb { r: 0xaf, g: 0x7a, b: 0xa1 } }
    else if i == 7 { Rgb { r: 0xff, g: 0x9d, b: 0xa7 } }
    else if i == 8 { Rgb { r: 0x9c, g: 0x75, b: 0x5f } }
    else { Rgb { r: 0xba, g: 0xb0, b: 0xab } }
}

/// The number of colours in the Tableau10 scheme.
pub const PALETTE_LEN: usize = 10;

/// The `i`-th colour of colorous's `TABLEAU10` palette.
///
/// Trusted: reads `colorous::TABLEAU10[i]` and claims that its channels are
/// those that colorous's source lists for that entry.
#[verifier::external_body]
fn tableau10_color(i: usize) -> (c: Rgb)
    requires
        i < PALETTE_LEN,
    ensures
        c == tableau10(i as int),
{
    let c = colorous::TABLEAU10[i];
    Rgb { r: c.r, g: c.g, b: c.b }
}

/// Position of a source in the sources menu.
pub open spec fn source_index(tag: SourceTag) -> int {
    match tag {
        SourceTag::Iss => 0,
        SourceTag::Opensky => 1,
        SourceTag::Ships => 2,
        SourceTag::Dwd => 3,
        SourceTag::Vbb => 4,
        SourceTag::Autobahn => 5,
    }
}

/// The colour that the palette assigns to a source: the entry of its menu position,
/// cycling through the palette.
pub open spec fn tag_color(tag: SourceTag) -> Rgb {
    tableau10(source_index(tag) % (PALETTE_LEN as int))
}

/// The menu position of a source.
pub fn source_position(tag: SourceTag) -> (i: usize)
    ensures
        i == source_index(tag),
{
    match tag {
        SourceTag::Iss => 0,
        SourceTag::Opensky => 1,
        SourceTag::Ships => 2,
        SourceTag::Dwd => 3,
        SourceTag::Vbb => 4,
        SourceTag::Autobahn => 5,
    }
}

/// The palette colour of the source at menu position `i`.
pub fn palette_color(i: usize) -> (c: Rgb)
    ensures
        c == tableau10((i % PALETTE_LEN) as int),
{
    tableau10_color(i % PALETTE_LEN)
}

/// The colour the palette assigns to a source.
pub fn source_color(tag: SourceTag) -> (c: Rgb)
    ensures
        c == tag_color(tag),
{
    palette_color(source_position(tag))
}

/// The six sources are drawn in six different colours, the first six of Tableau10 in
/// menu order.
pub proof fn law_source_colors(t1: SourceTag, t2: SourceTag)
    ensures
        t1 != t2 ==> tag_color(t1) != tag_color(t2),
        tag_color(SourceTag::Iss) == (Rgb { r: 0x4e, g: 0x79, b: 0xa7 }),
        tag_color(SourceTag::Opensky) == (Rgb { r: 0xf2, g: 0x8e, b: 0x2c }),
        tag_color(SourceTag::Ships) == (Rgb { r: 0xe1, g: 0x57, b: 0x59 }),
        tag_color(SourceTag::Dwd) == (Rgb { r: 0x76, g: 0xb7, b: 0xb2 }),
        tag_color(SourceTag::Vbb) == (Rgb { r: 0x59, g: 0xa1, b: 0x4f }),
        tag_color(SourceTag::Autobahn) == (Rgb { r: 0xed, g: 0xc9, b: 0x49 }),
{
}

} // verus!
