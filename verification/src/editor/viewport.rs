//! Viewport picking contract states.

use vstd::prelude::*;

verus! {

/// Picking contract status.
#[derive(Clone, Copy, Debug, Eq, PartialEq, Structural)]
pub enum ViewportPickStatus {
    /// Renderer-backed picking is not implemented yet.
    Unsupported,
    /// The request fell outside the viewport rectangle.
    OutsideViewport,
    /// A future renderer-backed request found no instance.
    NoHit,
    /// A future renderer-backed request selected an instance.
    Hit,
}

/// Picking implementation contract advertised in viewport snapshots.
#[derive(Clone, Copy, Debug, Eq, PartialEq, Structural)]
pub enum ViewportPickingContract {
    /// Placeholder contract before renderer-backed hit testing exists.
    Placeholder,
    /// Future renderer-backed picking.
    RendererBacked,
}

} // verus!
