//! The messages of the relay channel, and the rules by which background
//! activities turn what happened to them into messages.

use crate::summarization::SummaryResult;
use crate::transcription::TranscriptionResult;
use std::path::PathBuf;
use vstd::prelude::*;
use vstd::string::StringExecFns;

verus! {

/// A message on the relay channel.
#[derive(Debug, Clone, PartialEq, Eq)]
pub enum AppMessage {
    /// A chunk artifact was written; the path says where.
    AudioChunkReady(PathBuf),
    /// A chunk was transcribed.
    TranscriptionReady(TranscriptionResult),
    /// A summary was produced.
    SummaryReady(SummaryResult),
    /// A background activity failed; the text says how.
    Error(String),
}

/// The mathematical content of an [`AppMessage`].
pub enum MessageView {
    AudioChunkReady(PathBuf),
    TranscriptionReady(TranscriptionResult),
    SummaryReady(SummaryResult),
    Error(Seq<char>),
}

impl View for AppMessage {
    type V = MessageView;

    open spec fn view(&self) -> MessageView {
        match self {
            AppMessage::AudioChunkReady(path) => MessageView::AudioChunkReady(*path),
            AppMessage::TranscriptionReady(result) => MessageView::TranscriptionReady(*result),
            AppMessage::SummaryReady(result) => MessageView::SummaryReady(*result),
            AppMessage::Error(text) => MessageView::Error(text@),
        }
    }
}

/// The views of a run of messages.
pub open spec fn messages_view(messages: Seq<AppMessage>) -> Seq<MessageView> {
    Seq::new(messages.len(), |i: int| messages[i]@)
}

/// The view of a message that may be absent.
pub open spec fn message_view(message: Option<AppMessage>) -> Option<MessageView> {
    match message {
        Some(m) => Some(m@),
        None => None,
    }
}

/// What the assembler puts on the relay channel after it tried to persist a
/// chunk: the artifact's path where it was written, nothing where writing
/// failed. A failed write costs that one artifact and nothing else.
pub fn chunk_announcement(written: Result<PathBuf, String>) -> (message: Option<AppMessage>)
    ensures
        message_view(message) == match written {
            Ok(path) => Some(MessageView::AudioChunkReady(path)),
            Err(_) => None,
        },
{
    match written {
        Ok(path) => Some(AppMessage::AudioChunkReady(path)),
        Err(_) => None,
    }
}

/// What follows the attempt to transcribe one chunk artifact.
#[derive(Debug, PartialEq, Eq)]
pub struct TranscriptionFollowUp {
    /// The messages to put on the relay channel, in this order.
    pub messages: Vec<AppMessage>,
    /// Whether the chunk artifact is to be deleted.
    pub delete_audio: bool,
}

/// What the messages of a transcription attempt are.
///
/// A transcription that succeeded is reported, preceded by the failure to
/// save it where saving failed. A transcription that failed is reported as a
/// failure.
pub open spec fn transcription_messages(
    outcome: Result<TranscriptionResult, String>,
    save_failure: Option<String>,
) -> Seq<MessageView> {
    match outcome {
        Ok(result) => match save_failure {
            Some(cause) => seq![
                MessageView::Error("Failed to save transcription: "@ + cause@),
                MessageView::TranscriptionReady(result),
            ],
            None => seq![MessageView::TranscriptionReady(result)],
        },
        Err(cause) => seq![MessageView::Error("Transcription failed: "@ + cause@)],
    }
}

/// What the messages of a summarization attempt are: as for a transcription.
pub open spec fn summary_messages(
    outcome: Result<SummaryResult, String>,
    save_failure: Option<String>,
) -> Seq<MessageView> {
    match outcome {
        Ok(result) => match save_failure {
            Some(cause) => seq![
                MessageView::Error("Failed to save summary: "@ + cause@),
                MessageView::SummaryReady(result),
            ],
            None => seq![MessageView::SummaryReady(result)],
        },
        Err(cause) => seq![MessageView::Error("Summarization failed: "@ + cause@)],
    }
}

/// A failure message: what failed, then why.
fn failure_message(what: &str, cause: &str) -> (message: AppMessage)
    ensures
        message@ == MessageView::Error(what@ + cause@),
{
    let mut text = String::from_str(what);
    text.append(cause);
    AppMessage::Error(text)
}

/// Decides what follows the attempt to transcribe one chunk artifact.
///
/// `outcome` is the transcription or the reason it failed. `save_failure` is
/// the reason saving the transcription failed, if it did; it is read only
/// where there was a transcription to save. The artifact is deleted once it
/// was transcribed, unless artifacts are kept.
pub fn transcription_follow_up(
    outcome: Result<TranscriptionResult, String>,
    save_failure: Option<String>,
    keep_audio_files: bool,
) -> (follow_up: TranscriptionFollowUp)
    ensures
        messages_view(follow_up.messages@) == transcription_messages(outcome, save_failure),
        follow_up.delete_audio == (outcome is Ok && !keep_audio_files),
{
    let mut messages: Vec<AppMessage> = Vec::new();
    match outcome {
        Ok(result) => {
            match save_failure {
                Some(cause) => {
                    messages.push(
                        failure_message("Failed to save transcription: ", cause.as_str()),
                    );
                },
                None => {},
            }
            messages.push(AppMessage::TranscriptionReady(result));
            TranscriptionFollowUp { messages, delete_audio: !keep_audio_files }
        },
        Err(cause) => {
            messages.push(failure_message("Transcription failed: ", cause.as_str()));
            TranscriptionFollowUp { messages, delete_audio: false }
        },
    }
}

/// Decides what follows the attempt to summarize the conversation: the
/// messages to put on the relay channel, in this order.
///
/// `outcome` is the summary or the reason there is none. `save_failure` is the
/// reason saving the summary failed, if it did; it is read only where there
/// was a summary to save.
pub fn summary_follow_up(
    outcome: Result<SummaryResult, String>,
    save_failure: Option<String>,
) -> (messages: Vec<AppMessage>)
    ensures
        messages_view(messages@) == summary_messages(outcome, save_failure),
{
    let mut messages: Vec<AppMessage> = Vec::new();
    match outcome {
        Ok(result) => {
            match save_failure {
                Some(cause) => {
                    messages.push(failure_message("Failed to save summary: ", cause.as_str()));
                },
                None => {},
            }
            messages.push(AppMessage::SummaryReady(result));
        },
        Err(cause) => {
            messages.push(failure_message("Summarization failed: ", cause.as_str()));
        },
    }
    messages
}

} // verus!
