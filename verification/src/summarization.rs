//! The summarization service, seen from the coordinator: what is asked of it
//! and what its answers mean.
//!
//! Talking to the service is the business of whoever drives the library. This
//! module fixes the text of a request, the meaning of every way an exchange
//! can end, and the name under which a summary is saved.

use crate::clock::{text_view, Timestamp, FILE_STAMP_PATTERN};
use crate::text::{join, joined};
use crate::transcription::bearer;
use vstd::prelude::*;
use vstd::string::StringExecFns;

verus! {

/// Where summarization requests go.
pub const SUMMARIZATION_URL: &'static str = "https://api.openai.com/v1/chat/completions";

/// What separates two transcribed segments in the text that is summarized.
pub const SEGMENT_SEPARATOR: &'static str = "\n\n--- Next segment ---\n\n";

/// The role of the message that carries the instructions.
pub const SYSTEM_ROLE: &'static str = "system";

/// The role of the message that carries the conversation.
pub const USER_ROLE: &'static str = "user";

/// What precedes the conversation in the request.
pub const USER_PROMPT_LEAD: &'static str =
    "Please summarize the following conversation and extract any action items:\n\n";

/// The instructions to the summarization model.
pub const SYSTEM_PROMPT: &'static str =
    r#"You are an AI assistant that summarizes conversations and extracts action items.

Your task:
1. Provide a concise summary of the conversation
2. Extract any action items, tasks, or to-dos mentioned
3. Return the result in the following JSON format:

{
  "summary": "Brief summary of the conversation...",
  "action_items": ["Action item 1", "Action item 2", ...]
}

If there are no action items, return an empty array."#;

/// One summary of the conversation so far.
#[derive(Debug, Clone, PartialEq, Eq)]
pub struct SummaryResult {
    /// The summary.
    pub summary: String,
    /// The action items found in the conversation, in the order given.
    pub action_items: Vec<String>,
    /// The text that was summarized.
    pub original_text: String,
    /// When the summary arrived.
    pub timestamp: Timestamp,
}

/// One message of a chat request.
#[derive(Debug, PartialEq, Eq)]
pub struct ChatMessage {
    /// Who speaks.
    pub role: String,
    /// What is said.
    pub content: String,
}

/// The parameters of one summarization request.
#[derive(Debug, PartialEq, Eq)]
pub struct ChatRequest {
    /// The address of the service.
    pub url: String,
    /// The value of the authorization header.
    pub authorization: String,
    /// The model that is asked to summarize.
    pub model: String,
    /// The instructions, then the conversation.
    pub messages: Vec<ChatMessage>,
}

/// What the summarization model is asked to write.
#[derive(Debug, PartialEq, Eq)]
pub struct GptOutput {
    /// The summary.
    pub summary: String,
    /// The action items, in the order given.
    pub action_items: Vec<String>,
}

/// The ways in which summarizing fails.
#[derive(Debug, PartialEq, Eq)]
pub enum SummaryError {
    /// The request could not be sent.
    SendFailed,
    /// The service answered with a status other than success.
    Rejected { status: String, body: String },
    /// The service's answer could not be understood.
    ResponseUnreadable,
    /// The service's answer holds no choice.
    NoResponse,
    /// What the model wrote is not the output asked for.
    OutputUnreadable,
}

/// The message that carries the conversation.
pub open spec fn user_prompt(text: Seq<char>) -> Seq<char> {
    USER_PROMPT_LEAD@ + text
}

/// The name of the file that holds a summary, given the time component.
pub open spec fn summary_file_name(stamp: Seq<char>) -> Seq<char> {
    "summary_"@ + stamp + ".json"@
}

/// The text that stands for a conversation: its segments in order, set apart
/// by the segment separator.
pub open spec fn conversation_text(transcriptions: Seq<String>) -> Seq<char> {
    joined(transcriptions, SEGMENT_SEPARATOR@)
}

impl SummaryError {
    /// The text of this error.
    pub open spec fn text(self) -> Seq<char> {
        match self {
            SummaryError::SendFailed => "Failed to send summarization request"@,
            SummaryError::Rejected { status, body } =>
                "OpenAI API request failed with status "@ + status@ + ": "@ + body@,
            SummaryError::ResponseUnreadable => "Failed to parse chat response"@,
            SummaryError::NoResponse => "No response from GPT"@,
            SummaryError::OutputUnreadable => "Failed to parse GPT JSON output"@,
        }
    }

    /// The text of this error, for display.
    pub fn message(&self) -> (text: String)
        ensures
            text@ == self.text(),
    {
        match self {
            SummaryError::SendFailed => String::from_str("Failed to send summarization request"),
            SummaryError::Rejected { status, body } => {
                let mut text = String::from_str("OpenAI API request failed with status ");
                text.append(status.as_str());
                text.append(": ");
                text.append(body.as_str());
                text
            },
            SummaryError::ResponseUnreadable => String::from_str("Failed to parse chat response"),
            SummaryError::NoResponse => String::from_str("No response from GPT"),
            SummaryError::OutputUnreadable => String::from_str("Failed to parse GPT JSON output"),
        }
    }
}

/// The name of the file that holds a summary, given the time component of the
/// name.
pub fn summary_file_name_for(stamp: &str) -> (name: String)
    ensures
        name@ == summary_file_name(stamp@),
{
    let mut name = String::from_str("summary_");
    name.append(stamp);
    name.append(".json");
    name
}

/// The client side of the summarization service.
#[derive(Debug)]
pub struct Summarizer {
    api_key: String,
    model: String,
}

impl Summarizer {
    /// The API key that this summarizer presents.
    pub closed spec fn api_key(&self) -> Seq<char> {
        self.api_key@
    }

    /// The model that this summarizer asks for.
    pub closed spec fn model(&self) -> Seq<char> {
        self.model@
    }

    /// A summarizer that presents `api_key` and asks for `model`.
    pub fn new(api_key: String, model: String) -> (summarizer: Self)
        ensures
            summarizer.api_key() == api_key@,
            summarizer.model() == model@,
    {
        Summarizer { api_key, model }
    }

    /// The parameters of the request that asks for a summary of `text`: the
    /// instructions as the system's message, then the conversation as the
    /// user's.
    pub fn request(&self, text: &str) -> (request: ChatRequest)
        ensures
            request.url@ == SUMMARIZATION_URL@,
            request.authorization@ == bearer(self.api_key()),
            request.model@ == self.model(),
            request.messages@.len() == 2,
            request.messages@[0].role@ == SYSTEM_ROLE@,
            request.messages@[0].content@ == SYSTEM_PROMPT@,
            request.messages@[1].role@ == USER_ROLE@,
            request.messages@[1].content@ == user_prompt(text@),
    {
        let mut authorization = String::from_str("Bearer ");
        authorization.append(self.api_key.as_str());
        let mut prompt = String::from_str(USER_PROMPT_LEAD);
        prompt.append(text);
        let mut messages: Vec<ChatMessage> = Vec::new();
        messages.push(
            ChatMessage {
                role: String::from_str(SYSTEM_ROLE),
                content: String::from_str(SYSTEM_PROMPT),
            },
        );
        messages.push(ChatMessage { role: String::from_str(USER_ROLE), content: prompt });
        ChatRequest {
            url: String::from_str(SUMMARIZATION_URL),
            authorization,
            model: self.model.clone(),
            messages,
        }
    }

    /// Picks what the model wrote out of the service's answer: the content of
    /// the first choice. An answer without choices is a failure.
    pub fn first_choice(&self, choices: Vec<String>) -> (content: Result<String, SummaryError>)
        ensures
            content == if choices@.len() > 0 {
                Ok::<String, SummaryError>(choices@[0])
            } else {
                Err::<String, SummaryError>(SummaryError::NoResponse)
            },
    {
        if choices.len() == 0 {
            Err(SummaryError::NoResponse)
        } else {
            Ok(choices[0].clone())
        }
    }

    /// Turns the end of an exchange into the summary of `text`. `output` is
    /// what the model wrote, or the way the exchange failed; `received_at` is
    /// when it ended. A failure is handed on as it is.
    pub fn summarize(
        &self,
        text: String,
        output: Result<GptOutput, SummaryError>,
        received_at: Timestamp,
    ) -> (summarized: Result<SummaryResult, SummaryError>)
        ensures
            summarized == match output {
                Ok(written) => Ok::<SummaryResult, SummaryError>(
                    SummaryResult {
                        summary: written.summary,
                        action_items: written.action_items,
                        original_text: text,
                        timestamp: received_at,
                    },
                ),
                Err(failure) => Err::<SummaryResult, SummaryError>(failure),
            },
    {
        match output {
            Ok(written) => Ok(
                SummaryResult {
                    summary: written.summary,
                    action_items: written.action_items,
                    original_text: text,
                    timestamp: received_at,
                },
            ),
            Err(failure) => Err(failure),
        }
    }

    /// The name of the file in which `result` is saved:
    /// `summary_<date>_<time>.json`, by the time the summary arrived. `None`
    /// where that time cannot be written as a date.
    pub fn save_summary(&self, result: &SummaryResult) -> (name: Option<String>)
        ensures
            text_view(name) == match result.timestamp.text(FILE_STAMP_PATTERN@) {
                Some(stamp) => Some(summary_file_name(stamp)),
                None => None,
            },
    {
        match result.timestamp.format(FILE_STAMP_PATTERN) {
            Some(stamp) => Some(summary_file_name_for(stamp.as_str())),
            None => None,
        }
    }

    /// The text that is summarized for a conversation in several segments:
    /// the segments in order, set apart by the segment separator.
    pub fn summarize_conversation(&self, transcriptions: &[String]) -> (text: String)
        ensures
            text@ == conversation_text(transcriptions@),
    {
        join(transcriptions, SEGMENT_SEPARATOR)
    }
}

} // verus!
