//! Typed models of the realtime protocol's control and event messages.

pub mod audio_format;
pub mod end_of_stream;
pub mod error;
pub mod recognition_result;
pub mod server_messages;
pub mod set_recognition_config;
pub mod start_recognition;
pub mod transcription_config;
