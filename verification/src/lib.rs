//! Bridges native SDL-style window events to the input model of an
//! immediate-mode GUI: a pure key-code translator, a cursor translator with a
//! cached native-cursor tag, and a frame-scoped input aggregator that turns a
//! stream of native events into one consolidated input snapshot per frame.
//!
//! All coordinates that the GUI sees are logical points; this crate carries
//! them in thousandths of a point (milli-points) so that the scaling
//! arithmetic is exact and verifiable. The thin layer that talks to the real
//! window system converts these plain values to and from the native types.

pub mod cursor;
pub mod events;
pub mod frame_timer;
pub mod keymap;
pub mod laws;
pub mod state;
