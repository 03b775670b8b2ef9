//! The settings that the pipeline and the coordinator read.

use std::path::PathBuf;
use vstd::prelude::*;
use vstd::string::StringExecFns;

verus! {

/// Duration of a chunk, in seconds, unless configured otherwise.
pub const DEFAULT_CHUNK_DURATION_SECS: u64 = 30;

/// Capture rate, in samples per second, unless configured otherwise.
pub const DEFAULT_SAMPLE_RATE: u32 = 16000;

/// The summarization model, unless configured otherwise.
pub const DEFAULT_SUMMARIZATION_MODEL: &'static str = "gpt-4o-mini";

/// The settings of the assistant.
#[derive(Debug, Clone, PartialEq, Eq)]
pub struct Config {
    /// API key for the transcription and summarization services.
    pub openai_api_key: String,
    /// Duration of each audio chunk, in seconds.
    pub chunk_duration_secs: u64,
    /// Capture rate, in samples per second.
    pub sample_rate: u32,
    /// Directory that receives the chunk artifacts.
    pub audio_chunks_dir: PathBuf,
    /// Directory that receives the transcriptions.
    pub transcriptions_dir: PathBuf,
    /// Directory that receives the summaries.
    pub summaries_dir: PathBuf,
    /// Whether a chunk artifact is kept once it has been transcribed.
    pub keep_audio_files: bool,
    /// Whether every new transcription triggers a summary.
    pub realtime_processing: bool,
    /// Name of the summarization model.
    pub summarization_model: String,
}

/// Why a configuration cannot be used.
#[derive(Clone, Copy, Debug, PartialEq, Eq, Structural)]
pub enum ConfigError {
    /// The API key is empty.
    MissingApiKey,
}

impl ConfigError {
    /// The text of this error.
    pub open spec fn text(self) -> Seq<char> {
        "OpenAI API key is not set"@
    }

    /// The text of this error, for display.
    pub fn message(&self) -> (text: String)
        ensures
            text@ == self.text(),
    {
        String::from_str("OpenAI API key is not set")
    }
}

impl Config {
    /// Whether the configuration is ready to use: it is as soon as the API key
    /// is not empty.
    pub open spec fn is_valid(&self) -> bool {
        self.openai_api_key@.len() > 0
    }

    /// The settings in force before anything was configured, for the given
    /// three directories.
    pub fn with_directories(
        audio_chunks_dir: PathBuf,
        transcriptions_dir: PathBuf,
        summaries_dir: PathBuf,
    ) -> (config: Config)
        ensures
            config.openai_api_key@.len() == 0,
            config.chunk_duration_secs == 30,
            config.sample_rate == 16000,
            config.audio_chunks_dir == audio_chunks_dir,
            config.transcriptions_dir == transcriptions_dir,
            config.summaries_dir == summaries_dir,
            !config.keep_audio_files,
            config.realtime_processing,
            config.summarization_model@ == "gpt-4o-mini"@,
    {
        Config {
            openai_api_key: String::new(),
            chunk_duration_secs: DEFAULT_CHUNK_DURATION_SECS,
            sample_rate: DEFAULT_SAMPLE_RATE,
            audio_chunks_dir,
            transcriptions_dir,
            summaries_dir,
            keep_audio_files: false,
            realtime_processing: true,
            summarization_model: String::from_str(DEFAULT_SUMMARIZATION_MODEL),
        }
    }

    /// Checks that the configuration is ready to use.
    pub fn validate(&self) -> (checked: Result<(), ConfigError>)
        ensures
            self.is_valid() ==> checked == Ok::<(), ConfigError>(()),
            !self.is_valid() ==> checked == Err::<(), ConfigError>(ConfigError::MissingApiKey),
    {
        if self.openai_api_key.as_str().is_empty() {
            Err(ConfigError::MissingApiKey)
        } else {
            Ok(())
        }
    }
}

} // verus!
