//! Verified core of a bridge between a remote music-streaming session and a
//! voice-transmission pipeline.
//!
//! The streaming side pushes decoded audio blocks and playback-state events;
//! the voice side pulls raw bytes synchronously and reacts to presence changes
//! of one watched participant. This crate holds the logic of that bridge:
//! sample encoding, the bounded byte hand-off, the session lifecycle, and the
//! event- and presence-driven decision tables. All I/O, asynchrony and
//! floating-point resampling live outside, in the unverified shell around it.

pub mod bridge;
pub mod coordinator;
pub mod encoder;
pub mod player;
pub mod presence;
pub mod sink;
