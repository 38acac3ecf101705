//! Debug instrumentation for programs that run a render loop: per-frame entries,
//! a capped history of stamped messages, a frame clock and an on/off switch, plus
//! the layout of the overlay that shows them.

pub mod context;
pub mod entry;
pub mod laws;
pub mod render;
pub mod text;

