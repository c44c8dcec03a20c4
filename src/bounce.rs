use vstd::prelude::*;

verus! {

/// Number of bounces after which a path that keeps hitting the scene is cut off as
/// absorbed. It is the only bound on the integrator's recursion.
pub const MAX_DEPTH: u32 = 50;

/// What the integrator does with a ray once the scene has been queried for it.
#[derive(Debug, Clone, Copy, PartialEq, Eq, Structural)]
pub enum Step {
    /// Nothing was hit: the ray sees the sky gradient.
    Background,
    /// Something was hit but the bounce budget is spent: the ray contributes black.
    Black,
    /// Something was hit within budget: ask the material to scatter, and trace the
    /// scattered ray at `next_depth` (an absorbed ray contributes black).
    Scatter { next_depth: u32 },
}

/// Decides the fate of a ray traced after `depth` bounces, given whether the scene
/// query (over `(0.001, +inf)`) found a hit.
pub fn step(depth: u32, hit: bool) -> (r: Step)
    ensures
        !hit ==> r == Step::Background,
        hit && depth < MAX_DEPTH ==> r == (Step::Scatter { next_depth: (depth + 1) as u32 }),
        hit && depth >= MAX_DEPTH ==> r == Step::Black,
{
    if !hit {
        Step::Background
    } else if depth < MAX_DEPTH {
        Step::Scatter { next_depth: depth + 1 }
    } else {
        Step::Black
    }
}

} // verus!
