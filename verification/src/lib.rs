//! Core logic of a minimal desktop application shell: decoding of
//! modifier-key bitmasks, clamping of pointer coordinates to a window's
//! content bounds, scaling of scroll-wheel deltas, classification of native
//! input events into a semantic event stream, and the shared lifecycle
//! state that coordinates a clean shutdown of the event dispatch loop.
//!
//! The host integration (window and menu construction, polling the native
//! event queue, forwarding events back for default handling) lives outside
//! this crate and drives it through the functions defined here.

pub mod dispatch;
pub mod events;
pub mod geometry;
pub mod lifecycle;
pub mod modifiers;
