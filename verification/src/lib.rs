//! Core logic of a lightweight screen recorder: the recording state machine,
//! capture-source identification, FFmpeg command lines, WAV encoding and
//! output naming.

pub mod commands;
pub mod encoder;
pub mod output;
pub mod recorder;
pub mod sources;
pub mod text;
pub mod worker;
