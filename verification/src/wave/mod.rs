//! Wave formats, playback buffers, the output device and the file player.
pub mod buffer;
pub mod format;
pub mod out;
pub mod player;
pub mod tag;

pub use buffer::Buffer;
pub use format::Format;
pub use out::{Action, Out, Request, State};
pub use player::Player;
pub use tag::Tag;
