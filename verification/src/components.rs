use vstd::prelude::*;

verus! {

/// A fully opaque RGB colour.
#[derive(Clone, Copy, Debug, PartialEq, Eq, Structural)]
pub struct Rgb {
    pub r: u8,
    pub g: u8,
    pub b: u8,
}

impl Rgb {
    /// The colour with these channels.
    pub fn new(r: u8, g: u8, b: u8) -> (c: Rgb)
        ensures
            c == (Rgb { r, g, b }),
    {
        Rgb { r, g, b }
    }
}

/// The glyphs the map draws for actors.
#[derive(Clone, Copy, Debug, PartialEq, Eq, Structural)]
pub enum Icon {
    Rocket,
    AirplaneTilt,
    Anchor,
    CloudWarning,
    Train,
    Subway,
    Tram,
    Bus,
    Boat,
    Warning,
    TrafficCone,
    Prohibit,
    RoadHorizon,
}

/// Tag to group actors by source for upsert matching.
#[derive(Clone, Copy, Debug, PartialEq, Eq, Structural)]
pub enum SourceTag {
    Iss,
    Opensky,
    Ships,
    Dwd,
    Vbb,
    Autobahn,
}

impl SourceTag {
    /// The tag's text, which names the source.
    pub open spec fn text(self) -> Seq<char> {
        match self {
            SourceTag::Iss => "iss"@,
            SourceTag::Opensky => "opensky"@,
            SourceTag::Ships => "ships"@,
            SourceTag::Dwd => "dwd"@,
            SourceTag::Vbb => "vbb"@,
            SourceTag::Autobahn => "autobahn"@,
        }
    }

    /// The tag's text, which names the source.
    pub fn as_str(&self) -> (s: &'static str)
        ensures
            s@ == self.text(),
    {
        match self {
            SourceTag::Iss => "iss",
            SourceTag::Opensky => "opensky",
            SourceTag::Ships => "ships",
            SourceTag::Dwd => "dwd",
            SourceTag::Vbb => "vbb",
            SourceTag::Autobahn => "autobahn",
        }
    }
}

/// Visual style for a source, defined by each source module.
///
/// The icon size is in points; the angle offset, in degrees, turns the icon's
/// natural orientation to north.
#[derive(Clone, Copy, Debug)]
pub struct SourceStyle {
    pub name: &'static str,
    pub icon: Icon,
    pub color: Rgb,
    pub icon_size: u8,
    pub use_bearing: bool,
    pub icon_angle_offset_deg: i16,
}

/// Unique ID from the source (e.g. ICAO24 hex for aircraft).
#[derive(Clone, Debug)]
pub struct SourceId(pub String);

/// Display label for an actor.
#[derive(Clone, Debug)]
pub struct ActorLabel(pub String);

} // verus!
