//! Decodes Amiga tracker modules and plays them back one stereo sample at a
//! time.
//!
//! `read_mod_file_slice` turns the bytes of a module into a `Song`;
//! `PlayerState::new` gives the state to play it from; and every call of
//! `next_sample` plays one device sample and gives its levels on the left and
//! on the right.

pub mod advance;
pub mod laws;
pub mod line;
pub mod loader;
pub mod mixer;
pub mod pitch;
pub mod player;
pub mod row;
pub mod song;
pub mod tables;
pub mod text;
pub mod textout;
pub mod tick;
pub mod validity;

pub use advance::try_next_sample;
pub use loader::read_mod_file_slice;
pub use mixer::next_sample;
pub use player::{ChannelInfo, PlayerState};
pub use song::{Effect, FormatDescription, LoadError, Note, Pattern, Sample, Song};
