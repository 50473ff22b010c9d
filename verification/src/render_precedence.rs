//! The order in which the layers of a frame are composed.

use vstd::prelude::*;

verus! {

/// The layers of a frame, foremost first.
#[derive(Clone, Copy, Debug, PartialEq, Eq, Structural)]
pub enum RenderPrecedence {
    Gui,
    EffectOverlay,
    MiniMap,
    CameraView,
}

/// The rank of a layer as a plain number.
pub open spec fn precedence_rank(precedence: RenderPrecedence) -> int {
    match precedence {
        RenderPrecedence::Gui => 0,
        RenderPrecedence::EffectOverlay => 1,
        RenderPrecedence::MiniMap => 2,
        RenderPrecedence::CameraView => 3,
    }
}

/// Gives the rank of a layer: the smaller the number, the nearer to the viewer.
pub fn to_numeric(render_precedence: RenderPrecedence) -> (rank: u32)
    ensures
        rank == precedence_rank(render_precedence),
{
    match render_precedence {
        RenderPrecedence::Gui => 0,
        RenderPrecedence::EffectOverlay => 1,
        RenderPrecedence::MiniMap => 2,
        RenderPrecedence::CameraView => 3,
    }
}

} // verus!
