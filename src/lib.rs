//! Streaming transcription core: adaptive buffering, managed channels, error policy,
//! voice-activity detection, chunking and the ASR retry driver.
pub mod buffer;
mod clock;
pub mod text;
pub mod error;
pub mod channel;
pub mod features;
pub mod vad;
pub mod dual;
pub mod chunking;
pub mod asr;
pub mod device;
pub mod manager;
pub mod capture;
