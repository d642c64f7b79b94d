//! The projection plane of the camera.

use vstd::prelude::*;

verus! {

/// 2D projection plane for rendering 3D positions.
#[derive(Debug, Clone, Copy, PartialEq, Eq, Structural)]
pub enum Projection {
    Xy,
    Xz,
    Yz,
}

impl Default for Projection {
    fn default() -> (p: Self)
        ensures
            p == Projection::Xy,
    {
        Projection::Xy
    }
}

impl Projection {
    /// The indices of the two world axes (0 = x, 1 = y, 2 = z) that the plane
    /// shows horizontally and vertically.
    pub fn plane_axes(self) -> (axes: (usize, usize))
        ensures
            axes == match self {
                Projection::Xy => (0usize, 1usize),
                Projection::Xz => (0usize, 2usize),
                Projection::Yz => (1usize, 2usize),
            },
    {
        match self {
            Projection::Xy => (0, 1),
            Projection::Xz => (0, 2),
            Projection::Yz => (1, 2),
        }
    }
}

} // verus!
