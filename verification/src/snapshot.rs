//! The snapshot bridge's data model.
//!
//! Once per frame the engine needs one consistent read of the
//! simulation-side state: the resolution, the texture format, the
//! runtime's frame state, the located views, the blend mode and the
//! running session. How the snapshot is produced and synchronized
//! across execution contexts is the bridge's business, outside the
//! engine; the engine only reads the latest snapshot, at most one frame
//! stale.

use vstd::prelude::*;
use crate::composition::Resolution;
use crate::session::XrSession;

verus! {

/// One frame's consistent read of the simulation-side state.
pub struct FrameSnapshot {
    /// The render resolution, which is also each eye's sub-image
    /// extent.
    pub resolution: Resolution,
    /// The swapchain's texture format.
    pub format: wgpu::TextureFormat,
    /// The runtime's per-frame timing and validity data, replaced
    /// wholesale each frame.
    pub frame_state: openxr::FrameState,
    /// One pose and field of view per eye, as the runtime's view-locate
    /// call produced them; empty when no view was located this frame.
    pub views: Vec<openxr::View>,
    /// How the runtime composites rendered content with the
    /// surroundings.
    pub blend_mode: openxr::EnvironmentBlendMode,
    /// The running session the frame belongs to.
    pub session: XrSession,
}

} // verus!
