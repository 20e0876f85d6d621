//! Live map of moving things: the data model, the per-source decoding rules
//! and the actor registry behind the map view.

pub mod components;
pub mod controls;
pub mod text;
pub mod palette;
pub mod sources;
pub mod world;
