//! Plain geometry values exchanged between a windowing task and a renderer
//! task over a registry-obtained channel.
use vstd::prelude::*;

verus! {

/// The pixel size of a render surface.
#[derive(Clone, Copy, PartialEq, Eq, Structural, Debug)]
pub struct SurfaceResolution {
    pub width: u32,
    pub height: u32,
}

/// A change of the surface a renderer must react to.
#[derive(Clone, Copy)]
pub enum SurfaceChanges {
    UpdateResolution(SurfaceResolution),
}

} // verus!
