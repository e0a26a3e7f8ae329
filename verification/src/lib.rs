//! Verified core of an XR frame-composition and swapchain-lifecycle engine.
//!
//! The library drives the per-frame protocol an XR runtime demands
//! (begin frame, acquire a swapchain image, wait for it, render, release
//! it, end the frame with composited layers) and assembles the ordered
//! list of composition layers for submission. The frame state machine,
//! the layer assembly and the image-index bookkeeping are verified; the
//! calls into the OpenXR runtime and the graphics backend stand behind
//! small trusted wrappers whose contracts state what the outside crates
//! document.

pub mod bindings;
pub mod composition;
pub mod lifecycle;
pub mod session;
pub mod snapshot;
pub mod store;
pub mod swapchain;
