//! One-way clipboard mirroring between two display servers.
//!
//! A [`detector::ChangeDetector`] turns ownership notifications of the source
//! side into change signals and relays them over a hand-off channel. A
//! [`engine::SyncEngine`] coalesces a burst of signals, drops what its own last
//! write caused, and decides when content is fetched from the source and
//! published to the target. The engine touches neither clipboard: it asks for
//! one [`engine::Action`] at a time and is told what came of it as an
//! [`engine::Event`].
//!
//! [`policy`] holds the durations that govern a cycle. [`model`] holds the
//! engine as a mathematical state machine, which the executable engine is
//! proved to follow step by step, and [`laws`] proves what holds of every run
//! of that machine. [`channel`] holds what is taken on trust from the channel
//! crate.

pub mod channel;
pub mod detector;
pub mod engine;
pub mod laws;
pub mod model;
pub mod policy;
