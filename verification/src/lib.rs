//! Beat-synchronised LED animation logic: beatmap decoding, beat lookup,
//! playback extrapolation and the decisions of the Spotify polling loop.

pub mod palette;
pub mod beatmap;
pub mod clock;
pub mod playback;
pub mod spotify;
pub mod config;
