//! Infrared remote control for a ceiling fan: waveform encoding, the
//! catalog of captured waveforms, handset profiles and command dispatch.

pub mod nec;
pub mod patterns;
pub mod action;
pub mod profile;
pub mod store;
pub mod dispatch;
