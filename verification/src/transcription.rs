//! The transcription service, seen from the pipeline: what is asked of it and
//! what its answers mean.
//!
//! Talking to the service is the business of whoever drives the library. This
//! module fixes the parameters of a request, the meaning of every way an
//! exchange can end, and the name under which a transcription is saved.

use crate::clock::{text_view, Timestamp, FILE_STAMP_PATTERN};
use std::path::PathBuf;
use vstd::prelude::*;
use vstd::string::StringExecFns;

verus! {

/// Where transcription requests go.
pub const TRANSCRIPTION_URL: &'static str = "https://api.openai.com/v1/audio/transcriptions";

/// The model that transcribes.
pub const TRANSCRIPTION_MODEL: &'static str = "whisper-1";

/// The format asked of the service's answer.
pub const TRANSCRIPTION_RESPONSE_FORMAT: &'static str = "json";

/// The media type of an uploaded chunk artifact.
pub const AUDIO_MIME_TYPE: &'static str = "audio/wav";

/// The upload name of an artifact whose path ends in no usable file name.
pub const FALLBACK_UPLOAD_NAME: &'static str = "audio.wav";

/// The body of a successful answer of the transcription service.
#[derive(Debug, PartialEq, Eq)]
pub struct TranscriptionResponse {
    /// The transcribed text.
    pub text: String,
}

/// One transcribed chunk.
#[derive(Debug, Clone, PartialEq, Eq)]
pub struct TranscriptionResult {
    /// The transcribed text.
    pub text: String,
    /// The chunk artifact that was transcribed.
    pub audio_file: PathBuf,
    /// When the transcription arrived.
    pub timestamp: Timestamp,
}

/// The texts of a run of transcriptions, in order.
pub open spec fn texts_of(transcriptions: Seq<TranscriptionResult>) -> Seq<String> {
    Seq::new(transcriptions.len(), |i: int| transcriptions[i].text)
}

/// The ways in which transcribing a chunk artifact fails.
#[derive(Debug, PartialEq, Eq)]
pub enum TranscriptionError {
    /// The artifact could not be opened.
    OpenFailed,
    /// The artifact could not be read.
    ReadFailed,
    /// The request could not be sent.
    SendFailed,
    /// The service answered with a status other than success.
    Rejected { status: String, body: String },
    /// The service's answer could not be understood.
    ParseFailed,
}

/// The parameters of one transcription request.
#[derive(Debug, PartialEq, Eq)]
pub struct TranscriptionRequest {
    /// The address of the service.
    pub url: String,
    /// The value of the authorization header.
    pub authorization: String,
    /// The name under which the artifact is uploaded.
    pub file_name: String,
    /// The media type of the upload.
    pub mime_type: String,
    /// The model that is asked to transcribe.
    pub model: String,
    /// The format asked of the answer.
    pub response_format: String,
}

/// The value of the authorization header for an API key.
pub open spec fn bearer(api_key: Seq<char>) -> Seq<char> {
    "Bearer "@ + api_key
}

/// The name of the file that holds a transcription, given the time component.
pub open spec fn transcription_file_name(stamp: Seq<char>) -> Seq<char> {
    "transcription_"@ + stamp + ".json"@
}

/// The name under which an artifact is uploaded: the last component of its
/// path where that is usable text, a fixed name otherwise.
pub open spec fn upload_name(last_component: Option<Seq<char>>) -> Seq<char> {
    match last_component {
        Some(name) => name,
        None => "audio.wav"@,
    }
}

impl TranscriptionError {
    /// The text of this error.
    pub open spec fn text(self) -> Seq<char> {
        match self {
            TranscriptionError::OpenFailed => "Failed to open audio file"@,
            TranscriptionError::ReadFailed => "Failed to read audio file"@,
            TranscriptionError::SendFailed => "Failed to send transcription request"@,
            TranscriptionError::Rejected { status, body } =>
                "Whisper API request failed with status "@ + status@ + ": "@ + body@,
            TranscriptionError::ParseFailed => "Failed to parse transcription response"@,
        }
    }

    /// The text of this error, for display.
    pub fn message(&self) -> (text: String)
        ensures
            text@ == self.text(),
    {
        match self {
            TranscriptionError::OpenFailed => String::from_str("Failed to open audio file"),
            TranscriptionError::ReadFailed => String::from_str("Failed to read audio file"),
            TranscriptionError::SendFailed => String::from_str(
                "Failed to send transcription request",
            ),
            TranscriptionError::Rejected { status, body } => {
                let mut text = String::from_str("Whisper API request failed with status ");
                text.append(status.as_str());
                text.append(": ");
                text.append(body.as_str());
                text
            },
            TranscriptionError::ParseFailed => String::from_str(
                "Failed to parse transcription response",
            ),
        }
    }
}

/// The name of the file that holds a transcription, given the time component
/// of the name.
pub fn transcription_file_name_for(stamp: &str) -> (name: String)
    ensures
        name@ == transcription_file_name(stamp@),
{
    let mut name = String::from_str("transcription_");
    name.append(stamp);
    name.append(".json");
    name
}

/// The client side of the transcription service.
#[derive(Debug)]
pub struct Transcriber {
    api_key: String,
}

impl Transcriber {
    /// The API key that this transcriber presents.
    pub closed spec fn api_key(&self) -> Seq<char> {
        self.api_key@
    }

    /// A transcriber that presents `api_key`.
    pub fn new(api_key: String) -> (transcriber: Self)
        ensures
            transcriber.api_key() == api_key@,
    {
        Transcriber { api_key }
    }

    /// The parameters of the request that uploads one chunk artifact.
    /// `last_component` is the last component of the artifact's path where
    /// that is usable text.
    pub fn request(&self, last_component: Option<&str>) -> (request: TranscriptionRequest)
        ensures
            request.url@ == TRANSCRIPTION_URL@,
            request.authorization@ == bearer(self.api_key()),
            request.file_name@ == upload_name(
                match last_component {
                    Some(name) => Some(name@),
                    None => None,
                },
            ),
            request.mime_type@ == AUDIO_MIME_TYPE@,
            request.model@ == TRANSCRIPTION_MODEL@,
            request.response_format@ == TRANSCRIPTION_RESPONSE_FORMAT@,
    {
        let mut authorization = String::from_str("Bearer ");
        authorization.append(self.api_key.as_str());
        let file_name = match last_component {
            Some(name) => String::from_str(name),
            None => String::from_str(FALLBACK_UPLOAD_NAME),
        };
        TranscriptionRequest {
            url: String::from_str(TRANSCRIPTION_URL),
            authorization,
            file_name,
            mime_type: String::from_str(AUDIO_MIME_TYPE),
            model: String::from_str(TRANSCRIPTION_MODEL),
            response_format: String::from_str(TRANSCRIPTION_RESPONSE_FORMAT),
        }
    }

    /// Turns the end of an exchange into the transcription of `audio_file`.
    /// `answer` is the service's answer, or the way the exchange failed;
    /// `received_at` is when it ended. A failure is handed on as it is.
    pub fn transcribe(
        &self,
        audio_file: PathBuf,
        answer: Result<TranscriptionResponse, TranscriptionError>,
        received_at: Timestamp,
    ) -> (transcribed: Result<TranscriptionResult, TranscriptionError>)
        ensures
            transcribed == match answer {
                Ok(response) => Ok::<TranscriptionResult, TranscriptionError>(
                    TranscriptionResult {
                        text: response.text,
                        audio_file,
                        timestamp: received_at,
                    },
                ),
                Err(failure) => Err::<TranscriptionResult, TranscriptionError>(failure),
            },
    {
        match answer {
            Ok(response) => Ok(
                TranscriptionResult { text: response.text, audio_file, timestamp: received_at },
            ),
            Err(failure) => Err(failure),
        }
    }

    /// The name of the file in which `result` is saved:
    /// `transcription_<date>_<time>.json`, by the time the transcription
    /// arrived. `None` where that time cannot be written as a date.
    pub fn save_transcription(&self, result: &TranscriptionResult) -> (name: Option<String>)
        ensures
            text_view(name) == match result.timestamp.text(FILE_STAMP_PATTERN@) {
                Some(stamp) => Some(transcription_file_name(stamp)),
                None => None,
            },
    {
        match result.timestamp.format(FILE_STAMP_PATTERN) {
            Some(stamp) => Some(transcription_file_name_for(stamp.as_str())),
            None => None,
        }
    }
}

} // verus!
