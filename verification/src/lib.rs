//! Capture, metering and mixdown of two live audio streams.
//!
//! A microphone stream and an optional loopback stream deliver buffers of
//! samples. Each buffer is metered, the microphone's after a gain stage, the
//! loopback's before it is mixed to mono and converted to the microphone's
//! rate. When the session stops, what both streams accumulated is mixed into
//! one mono recording, which is encoded chunk by chunk.
//!
//! Samples, levels and gains are signed integers counted in millionths of
//! full scale (see `fixed`), so every stage is exact integer arithmetic with
//! a stated rounding. Devices, files, the encoder and the window live outside
//! this library; it decides, they act.
pub mod catalog;
pub mod config;
pub mod delivery;
pub mod display;
pub mod downmix;
pub mod fixed;
pub mod gain;
pub mod history;
pub mod level;
pub mod mixdown;
pub mod naming;
pub mod notifier;
pub mod recording;
pub mod resample;
pub mod session;
pub mod settings;
pub mod sources;
pub mod text;
