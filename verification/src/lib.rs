//! Verified core of a terminal client for Nightwave Plaza, the vaporwave radio
//! station: stream selection, the HLS playlist and MPEG-TS logic, FLAC tagging
//! for the recorder, and the application's state transitions.

pub mod quality;
pub mod strings;
pub mod bytes;
pub mod ts;
pub mod pcm;
pub mod hls;
pub mod flac;
pub mod recording;
pub mod player;
pub mod config;
pub mod models;
pub mod api;
pub mod news;
pub mod ui;
pub mod errors;
pub mod socket;
pub mod theme;
