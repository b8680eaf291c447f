//! Decision logic of a minimal triangle renderer.
//!
//! The renderer itself is a thin driver: it opens a window, builds a
//! graphics device and swapchain, and submits one draw per frame. Every
//! decision that driver makes — which queue family to use, which swapchain
//! parameters to request, and what to do on each frame-loop outcome
//! (resize, close, out-of-date swapchain, fatal error) — lives here,
//! stated and proved.

pub mod frame;
pub mod geometry;
pub mod setup;
