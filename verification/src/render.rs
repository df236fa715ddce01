//! Which rendering path the process runs: the flat 2D variant or the
//! full 3D scene. The renderer's complete path is the 3D one; the
//! variant is chosen once at startup.

use vstd::prelude::*;

verus! {

/// The rendering path in use.
#[derive(Clone, Copy, Debug, PartialEq, Eq, Structural)]
pub enum RenderDimension {
    D2,
    D3,
}

impl Default for RenderDimension {
    /// The renderer's default is the 3D path.
    fn default() -> (r: Self)
        ensures
            r == RenderDimension::D3,
    {
        RenderDimension::D3
    }
}

} // verus!
