//! Core of a push-to-talk dictation backend: the recording session shared by capture and
//! commands, level metering, decoding and resampling of WAV payloads for the inference
//! engine, the swappable model slot, and the decisions of the local transcription service.

pub mod level;
pub mod text;
pub mod session;
pub mod resample;
pub mod wav;
pub mod transcribe;
pub mod endpoint;
pub mod model;
pub mod controller;
pub mod catalog;
pub mod config;
pub mod shortcut;
pub mod client;
pub mod service;
