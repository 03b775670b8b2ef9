//! Capture-and-chunking pipeline for a live audio assistant, with the message
//! relay that carries its results to a single coordinator.
//!
//! The library holds the decisions; whoever drives it owns the threads, the
//! audio hardware, the network and the files. Samples enter a [`sink`], the
//! [`chunk`] assembler cuts them into chunks, the [`audio_capture`] session
//! gates start and stop, and the [`relay`] channel carries each [`message`] to
//! the [`coordinator`]. The module [`pipeline`] states what holds of session,
//! sink and assembler together.

pub mod audio_capture;
pub mod chunk;
pub mod clock;
pub mod config;
pub mod coordinator;
pub mod decimal;
pub mod export;
pub mod message;
pub mod path;
pub mod pipeline;
pub mod relay;
pub mod search;
pub mod sink;
pub mod summarization;
pub mod text;
pub mod transcription;
