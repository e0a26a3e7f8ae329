//! The backend-tagged XR session.
//!
//! The session wraps the runtime's session handle, tagged by the
//! graphics backend it was created for. The backend-erased view is
//! obtained by safe tagged dispatch over the capability set — an
//! explicit match on the live variant, never a reinterpretation of the
//! handle's memory layout.

use vstd::prelude::*;
use crate::bindings::session_any_graphics;

verus! {

/// The running session's handle. Exactly one variant is live per
/// running session; the Vulkan backend is the capability set this
/// build compiles.
#[derive(Clone)]
pub enum XrSession {
    Vulkan(openxr::Session<openxr::Vulkan>),
}

impl XrSession {
    /// The backend-erased view of the session: the same session handle
    /// under the runtime's backend-agnostic type, reached by matching
    /// on the live variant.
    pub fn any_graphics(&self) -> openxr::Session<openxr::AnyGraphics> {
        match self {
            XrSession::Vulkan(session) => session_any_graphics(session),
        }
    }
}

} // verus!
