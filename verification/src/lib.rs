//! A small library for picking and clipping voice-memo recordings.
//!
//! A memo record carries a title, a stored timestamp, a duration and a
//! relative file path. The library filters records down to those long
//! enough to yield a clip, picks one (and a start offset) at random,
//! converts the stored timestamp to civil time, builds the outside
//! transcoder's and player's argument lists, and computes the exact
//! sample window that a decoder should hand to an audio output.
//!
//! Everything that touches the world — the store's database, the media
//! files, the processes — stays with the caller; the library only
//! decides and computes.

pub mod audio;
pub mod clip;
pub mod format;
pub mod memo;
pub mod paths;
pub mod select;
pub mod timestamp;

pub use audio::AudioPacket;
pub use memo::VoiceMemo;
pub use select::RunAction;
pub use timestamp::CivilDateTime;
