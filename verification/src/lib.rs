//! Verified core of a PipeWire audio control plugin for Stream Deck style
//! controllers: rendering of button images, parsing of `wpctl`/`pw-dump`
//! output and the decisions each button action takes.
use vstd::prelude::*;

pub mod text;
pub mod render;
pub mod audio;
pub mod actions;

verus! {

} // verus!
