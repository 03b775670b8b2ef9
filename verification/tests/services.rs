use audio_assistant::clock::Timestamp;
use audio_assistant::summarization::{
    summary_file_name_for, GptOutput, Summarizer, SummaryError, SummaryResult, SEGMENT_SEPARATOR,
    SUMMARIZATION_URL, SYSTEM_PROMPT, USER_PROMPT_LEAD,
};
use audio_assistant::text::join;
use audio_assistant::transcription::{
    transcription_file_name_for, Transcriber, TranscriptionError, TranscriptionResponse,
    TranscriptionResult, AUDIO_MIME_TYPE, FALLBACK_UPLOAD_NAME, TRANSCRIPTION_MODEL,
    TRANSCRIPTION_RESPONSE_FORMAT, TRANSCRIPTION_URL,
};
use std::path::PathBuf;

const MAY_15_2015: Timestamp = Timestamp { secs: 1_431_648_000, nanos: 0 };

#[test]
fn timestamps_are_written_by_the_calendar() {
    let moment = Timestamp { secs: 1_431_648_000 + 3661, nanos: 999_999_999 };
    assert_eq!(moment.format("%Y%m%d_%H%M%S"), Some(String::from("20150515_010101")));
    assert_eq!(moment.format("%H:%M:%S"), Some(String::from("01:01:01")));
    assert_eq!(
        moment.format("%Y-%m-%d %H:%M:%S UTC"),
        Some(String::from("2015-05-15 01:01:01 UTC"))
    );
    assert_eq!(Timestamp { secs: 0, nanos: 0 }.format("%Y%m%d_%H%M%S"), Some(String::from("19700101_000000")));
    assert_eq!(Timestamp { secs: -1, nanos: 0 }.format("%Y%m%d_%H%M%S"), Some(String::from("19691231_235959")));
}

#[test]
fn timestamps_outside_the_calendar_are_not_written() {
    assert_eq!(Timestamp { secs: i64::MAX, nanos: 0 }.format("%H:%M:%S"), None);
    assert_eq!(Timestamp { secs: i64::MIN, nanos: 0 }.format("%H:%M:%S"), None);
    assert_eq!(Timestamp { secs: 0, nanos: 2_000_000_000 }.format("%H:%M:%S"), None);
}

#[test]
fn patterns_that_the_calendar_rejects_are_not_written() {
    assert_eq!(MAY_15_2015.format("%Q"), None);
}

#[test]
fn transcription_request_parameters() {
    let transcriber = Transcriber::new(String::from("sk-test"));
    let request = transcriber.request(Some("chunk_1700000000.wav"));
    assert_eq!(request.url, "https://api.openai.com/v1/audio/transcriptions");
    assert_eq!(request.authorization, "Bearer sk-test");
    assert_eq!(request.file_name, "chunk_1700000000.wav");
    assert_eq!(request.mime_type, "audio/wav");
    assert_eq!(request.model, "whisper-1");
    assert_eq!(request.response_format, "json");
    assert_eq!(transcriber.request(None).file_name, "audio.wav");
    assert_eq!(TRANSCRIPTION_URL, "https://api.openai.com/v1/audio/transcriptions");
    assert_eq!(TRANSCRIPTION_MODEL, "whisper-1");
    assert_eq!(TRANSCRIPTION_RESPONSE_FORMAT, "json");
    assert_eq!(AUDIO_MIME_TYPE, "audio/wav");
    assert_eq!(FALLBACK_UPLOAD_NAME, "audio.wav");
}

#[test]
fn transcribe_builds_the_result_from_the_answer() {
    let transcriber = Transcriber::new(String::from("k"));
    let answer = Ok(TranscriptionResponse { text: String::from("hello there") });
    assert_eq!(
        transcriber.transcribe(PathBuf::from("out/chunk_1.wav"), answer, MAY_15_2015),
        Ok(TranscriptionResult {
            text: String::from("hello there"),
            audio_file: PathBuf::from("out/chunk_1.wav"),
            timestamp: MAY_15_2015,
        })
    );
}

#[test]
fn transcribe_hands_failures_on() {
    let transcriber = Transcriber::new(String::from("k"));
    let failures = [
        (TranscriptionError::OpenFailed, "Failed to open audio file"),
        (TranscriptionError::ReadFailed, "Failed to read audio file"),
        (TranscriptionError::SendFailed, "Failed to send transcription request"),
        (
            TranscriptionError::Rejected {
                status: String::from("401 Unauthorized"),
                body: String::from("{\"error\":\"bad key\"}"),
            },
            "Whisper API request failed with status 401 Unauthorized: {\"error\":\"bad key\"}",
        ),
        (TranscriptionError::ParseFailed, "Failed to parse transcription response"),
    ];
    for (failure, text) in failures {
        assert_eq!(failure.message(), text);
        let expected = match &failure {
            TranscriptionError::Rejected { status, body } => {
                TranscriptionError::Rejected { status: status.clone(), body: body.clone() }
            }
            TranscriptionError::OpenFailed => TranscriptionError::OpenFailed,
            TranscriptionError::ReadFailed => TranscriptionError::ReadFailed,
            TranscriptionError::SendFailed => TranscriptionError::SendFailed,
            TranscriptionError::ParseFailed => TranscriptionError::ParseFailed,
        };
        assert_eq!(
            transcriber.transcribe(PathBuf::from("a.wav"), Err(failure), MAY_15_2015),
            Err(expected)
        );
    }
}

#[test]
fn transcriptions_are_saved_under_their_arrival_time() {
    let transcriber = Transcriber::new(String::from("k"));
    let result = TranscriptionResult {
        text: String::from("t"),
        audio_file: PathBuf::from("a.wav"),
        timestamp: MAY_15_2015,
    };
    assert_eq!(
        transcriber.save_transcription(&result),
        Some(String::from("transcription_20150515_000000.json"))
    );
    let unwritable = TranscriptionResult { timestamp: Timestamp { secs: i64::MAX, nanos: 0 }, ..result };
    assert_eq!(transcriber.save_transcription(&unwritable), None);
    assert_eq!(transcription_file_name_for("x"), "transcription_x.json");
    assert_eq!(transcription_file_name_for(""), "transcription_.json");
}

#[test]
fn summary_request_parameters() {
    let summarizer = Summarizer::new(String::from("sk-test"), String::from("gpt-4o-mini"));
    let request = summarizer.request("Alice: hi\nBob: hello");
    assert_eq!(request.url, "https://api.openai.com/v1/chat/completions");
    assert_eq!(request.url, SUMMARIZATION_URL);
    assert_eq!(request.authorization, "Bearer sk-test");
    assert_eq!(request.model, "gpt-4o-mini");
    assert_eq!(request.messages.len(), 2);
    assert_eq!(request.messages[0].role, "system");
    assert_eq!(request.messages[0].content, SYSTEM_PROMPT);
    assert_eq!(request.messages[1].role, "user");
    assert_eq!(
        request.messages[1].content,
        "Please summarize the following conversation and extract any action items:\n\nAlice: hi\nBob: hello"
    );
    assert_eq!(
        USER_PROMPT_LEAD,
        "Please summarize the following conversation and extract any action items:\n\n"
    );
}

#[test]
fn system_prompt_text() {
    let expected = r#"You are an AI assistant that summarizes conversations and extracts action items.

Your task:
1. Provide a concise summary of the conversation
2. Extract any action items, tasks, or to-dos mentioned
3. Return the result in the following JSON format:

{
  "summary": "Brief summary of the conversation...",
  "action_items": ["Action item 1", "Action item 2", ...]
}

If there are no action items, return an empty array."#;
    assert_eq!(SYSTEM_PROMPT, expected);
}

#[test]
fn first_choice_is_what_the_model_wrote() {
    let summarizer = Summarizer::new(String::from("k"), String::from("m"));
    assert_eq!(
        summarizer.first_choice(vec![String::from("one"), String::from("two")]),
        Ok(String::from("one"))
    );
    assert_eq!(summarizer.first_choice(vec![]), Err(SummaryError::NoResponse));
}

#[test]
fn summarize_builds_the_result_from_the_output() {
    let summarizer = Summarizer::new(String::from("k"), String::from("m"));
    let output = Ok(GptOutput {
        summary: String::from("They greeted."),
        action_items: vec![String::from("Reply"), String::from("Call back")],
    });
    assert_eq!(
        summarizer.summarize(String::from("hi"), output, MAY_15_2015),
        Ok(SummaryResult {
            summary: String::from("They greeted."),
            action_items: vec![String::from("Reply"), String::from("Call back")],
            original_text: String::from("hi"),
            timestamp: MAY_15_2015,
        })
    );
}

#[test]
fn summarize_hands_failures_on() {
    let summarizer = Summarizer::new(String::from("k"), String::from("m"));
    assert_eq!(
        summarizer.summarize(String::from("hi"), Err(SummaryError::OutputUnreadable), MAY_15_2015),
        Err(SummaryError::OutputUnreadable)
    );
    assert_eq!(SummaryError::SendFailed.message(), "Failed to send summarization request");
    assert_eq!(
        SummaryError::Rejected { status: String::from("500 Internal Server Error"), body: String::new() }
            .message(),
        "OpenAI API request failed with status 500 Internal Server Error: "
    );
    assert_eq!(SummaryError::ResponseUnreadable.message(), "Failed to parse chat response");
    assert_eq!(SummaryError::NoResponse.message(), "No response from GPT");
    assert_eq!(SummaryError::OutputUnreadable.message(), "Failed to parse GPT JSON output");
}

#[test]
fn summaries_are_saved_under_their_arrival_time() {
    let summarizer = Summarizer::new(String::from("k"), String::from("m"));
    let result = SummaryResult {
        summary: String::new(),
        action_items: vec![],
        original_text: String::new(),
        timestamp: Timestamp { secs: 1_431_648_000 + 86_399, nanos: 5 },
    };
    assert_eq!(summarizer.save_summary(&result), Some(String::from("summary_20150515_235959.json")));
    assert_eq!(summary_file_name_for("s"), "summary_s.json");
}

#[test]
fn conversation_text_sets_segments_apart() {
    let summarizer = Summarizer::new(String::from("k"), String::from("m"));
    assert_eq!(summarizer.summarize_conversation(&[]), "");
    assert_eq!(summarizer.summarize_conversation(&[String::from("only")]), "only");
    assert_eq!(
        summarizer.summarize_conversation(&[
            String::from("one"),
            String::from("two"),
            String::from("three")
        ]),
        "one\n\n--- Next segment ---\n\ntwo\n\n--- Next segment ---\n\nthree"
    );
    assert_eq!(SEGMENT_SEPARATOR, "\n\n--- Next segment ---\n\n");
}

#[test]
fn join_agrees_with_the_standard_join() {
    let parts = vec![String::from(""), String::from("a"), String::from(""), String::from("bc")];
    for n in 0..=parts.len() {
        assert_eq!(join(&parts[..n], ", "), parts[..n].join(", "));
        assert_eq!(join(&parts[..n], ""), parts[..n].join(""));
    }
}
