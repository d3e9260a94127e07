pub mod frame;
pub mod laws;
pub mod render;

pub use frame::{finish_frame, FrameStep};
pub use render::{Colour, Display};
