use audio_assistant::clock::Timestamp;
use audio_assistant::config::Config;
use audio_assistant::coordinator::{Coordinator, CoordinatorAction, ListeningFailure};
use audio_assistant::message::{
    chunk_announcement, summary_follow_up, transcription_follow_up, AppMessage,
};
use audio_assistant::export::ExportFormat;
use audio_assistant::relay::RelayChannel;
use audio_assistant::summarization::SummaryResult;
use audio_assistant::transcription::TranscriptionResult;
use std::path::PathBuf;

fn config(realtime: bool) -> Config {
    let mut config = Config::with_directories(
        PathBuf::from("chunks"),
        PathBuf::from("transcriptions"),
        PathBuf::from("summaries"),
    );
    config.openai_api_key = String::from("sk-test");
    config.realtime_processing = realtime;
    config
}

fn transcription(text: &str, secs: i64) -> TranscriptionResult {
    TranscriptionResult {
        text: String::from(text),
        audio_file: PathBuf::from(format!("chunks/chunk_{}.wav", secs)),
        timestamp: Timestamp { secs, nanos: 0 },
    }
}

fn summary(text: &str) -> SummaryResult {
    SummaryResult {
        summary: String::from(text),
        action_items: vec![String::from("do it")],
        original_text: String::from("all of it"),
        timestamp: Timestamp { secs: 1_431_648_000, nanos: 0 },
    }
}

#[test]
fn new_coordinator_is_ready() {
    let coordinator = Coordinator::new(config(true));
    assert_eq!(*coordinator.config(), config(true));
    assert!(!coordinator.is_listening());
    assert!(coordinator.transcriptions().is_empty());
    assert_eq!(coordinator.pending_transcriptions(), 0);
    assert!(coordinator.summaries().is_empty());
    assert_eq!(coordinator.current_summary(), None);
    assert_eq!(coordinator.status_message(), "Ready");
    assert_eq!(coordinator.error_message(), "");
}

#[test]
fn chunk_ready_hands_the_artifact_to_transcription() {
    let mut coordinator = Coordinator::new(config(true));
    let action = coordinator.dispatch(AppMessage::AudioChunkReady(PathBuf::from("chunks/a.wav")));
    assert_eq!(action, Some(CoordinatorAction::Transcribe(PathBuf::from("chunks/a.wav"))));
    assert_eq!(coordinator.pending_transcriptions(), 1);
    assert_eq!(coordinator.status_message(), "Processing 1 audio chunks...");
    let action = coordinator.handle_audio_chunk(PathBuf::from("chunks/b.wav"));
    assert_eq!(action, CoordinatorAction::Transcribe(PathBuf::from("chunks/b.wav")));
    assert_eq!(coordinator.pending_transcriptions(), 2);
    assert_eq!(coordinator.status_message(), "Processing 2 audio chunks...");
}

#[test]
fn transcription_in_real_time_mode_triggers_a_summary_of_everything() {
    let mut coordinator = Coordinator::new(config(true));
    coordinator.handle_audio_chunk(PathBuf::from("a.wav"));
    coordinator.handle_audio_chunk(PathBuf::from("b.wav"));
    let first = coordinator.dispatch(AppMessage::TranscriptionReady(transcription("one", 1)));
    assert_eq!(first, Some(CoordinatorAction::Summarize(vec![String::from("one")])));
    assert_eq!(coordinator.pending_transcriptions(), 1);
    assert_eq!(coordinator.status_message(), "Generating summary...");
    let second = coordinator.dispatch(AppMessage::TranscriptionReady(transcription("two", 2)));
    assert_eq!(
        second,
        Some(CoordinatorAction::Summarize(vec![String::from("one"), String::from("two")]))
    );
    assert_eq!(coordinator.pending_transcriptions(), 0);
    assert_eq!(
        *coordinator.transcriptions(),
        vec![transcription("one", 1), transcription("two", 2)]
    );
}

#[test]
fn transcription_in_batch_mode_only_joins_the_history() {
    let mut coordinator = Coordinator::new(config(false));
    let action = coordinator.handle_transcription(transcription("one", 1));
    assert_eq!(action, None);
    assert_eq!(coordinator.status_message(), "Transcribed 1 segments");
    coordinator.handle_transcription(transcription("two", 2));
    assert_eq!(coordinator.status_message(), "Transcribed 2 segments");
    assert_eq!(coordinator.transcriptions().len(), 2);
}

#[test]
fn pending_count_never_goes_below_zero() {
    let mut coordinator = Coordinator::new(config(false));
    coordinator.handle_transcription(transcription("unannounced", 1));
    assert_eq!(coordinator.pending_transcriptions(), 0);
}

#[test]
fn summary_without_transcriptions_is_a_failure_to_show() {
    let mut coordinator = Coordinator::new(config(true));
    assert_eq!(coordinator.generate_summary(), None);
    assert_eq!(coordinator.error_message(), "No transcriptions to summarize");
    assert_eq!(coordinator.status_message(), "Ready");
}

#[test]
fn summary_on_request_covers_all_texts_in_order() {
    let mut coordinator = Coordinator::new(config(false));
    coordinator.handle_transcription(transcription("one", 1));
    coordinator.handle_transcription(transcription("two", 2));
    coordinator.handle_transcription(transcription("three", 3));
    assert_eq!(
        coordinator.generate_summary(),
        Some(CoordinatorAction::Summarize(vec![
            String::from("one"),
            String::from("two"),
            String::from("three")
        ]))
    );
    assert_eq!(coordinator.status_message(), "Generating summary...");
}

#[test]
fn summary_ready_becomes_the_current_summary() {
    let mut coordinator = Coordinator::new(config(true));
    assert_eq!(coordinator.dispatch(AppMessage::SummaryReady(summary("first"))), None);
    assert_eq!(coordinator.current_summary(), Some(&summary("first")));
    assert_eq!(coordinator.status_message(), "Summary generated");
    coordinator.handle_summary(summary("second"));
    assert_eq!(coordinator.current_summary(), Some(&summary("second")));
    assert_eq!(*coordinator.summaries(), vec![summary("first"), summary("second")]);
}

#[test]
fn latest_error_overwrites_the_earlier_one() {
    let mut coordinator = Coordinator::new(config(true));
    coordinator.listening_started();
    assert_eq!(coordinator.dispatch(AppMessage::Error(String::from("first failure"))), None);
    assert_eq!(coordinator.error_message(), "first failure");
    coordinator.handle_error(String::from("second failure"));
    assert_eq!(coordinator.error_message(), "second failure");
    assert!(coordinator.is_listening());
}

#[test]
fn backlog_is_dispatched_in_order_of_arrival() {
    let mut channel: RelayChannel<AppMessage> = RelayChannel::new();
    channel.send(AppMessage::AudioChunkReady(PathBuf::from("a.wav")));
    channel.send(AppMessage::TranscriptionReady(transcription("one", 1)));
    channel.send(AppMessage::Error(String::from("network down")));
    channel.send(AppMessage::AudioChunkReady(PathBuf::from("b.wav")));
    channel.send(AppMessage::SummaryReady(summary("s")));
    channel.send(AppMessage::TranscriptionReady(transcription("two", 2)));
    let mut coordinator = Coordinator::new(config(true));
    let actions = coordinator.process_messages(channel.drain());
    assert!(channel.is_empty());
    assert_eq!(
        actions,
        vec![
            CoordinatorAction::Transcribe(PathBuf::from("a.wav")),
            CoordinatorAction::Summarize(vec![String::from("one")]),
            CoordinatorAction::Transcribe(PathBuf::from("b.wav")),
            CoordinatorAction::Summarize(vec![String::from("one"), String::from("two")]),
        ]
    );
    assert_eq!(coordinator.pending_transcriptions(), 0);
    assert_eq!(coordinator.error_message(), "network down");
    assert_eq!(coordinator.status_message(), "Generating summary...");
    assert_eq!(coordinator.transcriptions().len(), 2);
    assert_eq!(coordinator.current_summary(), Some(&summary("s")));
}

#[test]
fn processing_a_backlog_is_dispatching_message_by_message() {
    let backlog = vec![
        AppMessage::AudioChunkReady(PathBuf::from("a.wav")),
        AppMessage::Error(String::from("e")),
        AppMessage::TranscriptionReady(transcription("one", 1)),
    ];
    let mut at_once = Coordinator::new(config(false));
    let actions = at_once.process_messages(backlog.clone());
    let mut one_by_one = Coordinator::new(config(false));
    let mut expected = Vec::new();
    for message in backlog {
        expected.extend(one_by_one.dispatch(message));
    }
    assert_eq!(actions, expected);
    assert_eq!(at_once.status_message(), one_by_one.status_message());
    assert_eq!(at_once.error_message(), one_by_one.error_message());
    assert_eq!(at_once.transcriptions(), one_by_one.transcriptions());
    assert_eq!(at_once.pending_transcriptions(), one_by_one.pending_transcriptions());
}

#[test]
fn ticks_do_not_matter() {
    let backlog = vec![
        AppMessage::AudioChunkReady(PathBuf::from("a.wav")),
        AppMessage::AudioChunkReady(PathBuf::from("b.wav")),
        AppMessage::TranscriptionReady(transcription("one", 1)),
        AppMessage::Error(String::from("e")),
        AppMessage::SummaryReady(summary("s")),
        AppMessage::TranscriptionReady(transcription("two", 2)),
    ];
    let mut at_once = Coordinator::new(config(true));
    let expected = at_once.process_messages(backlog.clone());
    for cut in 0..=backlog.len() {
        let mut in_two = Coordinator::new(config(true));
        let mut actions = in_two.process_messages(backlog[..cut].to_vec());
        actions.extend(in_two.process_messages(vec![]));
        actions.extend(in_two.process_messages(backlog[cut..].to_vec()));
        assert_eq!(actions, expected);
        assert_eq!(in_two.transcriptions(), at_once.transcriptions());
        assert_eq!(in_two.summaries(), at_once.summaries());
        assert_eq!(in_two.pending_transcriptions(), at_once.pending_transcriptions());
        assert_eq!(in_two.status_message(), at_once.status_message());
        assert_eq!(in_two.error_message(), at_once.error_message());
    }
}

#[test]
fn history_only_grows() {
    let mut coordinator = Coordinator::new(config(true));
    coordinator.handle_transcription(transcription("one", 1));
    coordinator.handle_summary(summary("first"));
    let transcriptions = coordinator.transcriptions().clone();
    let summaries = coordinator.summaries().clone();
    coordinator.process_messages(vec![
        AppMessage::Error(String::from("e")),
        AppMessage::AudioChunkReady(PathBuf::from("a.wav")),
        AppMessage::TranscriptionReady(transcription("two", 2)),
        AppMessage::SummaryReady(summary("second")),
    ]);
    assert_eq!(coordinator.transcriptions()[..transcriptions.len()], transcriptions[..]);
    assert_eq!(coordinator.summaries()[..summaries.len()], summaries[..]);
    assert_eq!(coordinator.transcriptions().len(), 2);
    assert_eq!(coordinator.summaries().len(), 2);
}

#[test]
fn empty_backlog_changes_nothing() {
    let mut coordinator = Coordinator::new(config(true));
    assert_eq!(coordinator.process_messages(vec![]), vec![]);
    assert_eq!(coordinator.status_message(), "Ready");
}

#[test]
fn results_are_accepted_after_the_session_stopped() {
    let mut coordinator = Coordinator::new(config(false));
    coordinator.listening_started();
    coordinator.handle_audio_chunk(PathBuf::from("a.wav"));
    coordinator.stop_listening(None);
    assert!(!coordinator.is_listening());
    coordinator.dispatch(AppMessage::TranscriptionReady(transcription("late", 9)));
    assert_eq!(coordinator.transcriptions().len(), 1);
    assert_eq!(coordinator.pending_transcriptions(), 0);
}

#[test]
fn chunk_announcement_follows_the_write() {
    assert_eq!(
        chunk_announcement(Ok(PathBuf::from("chunks/chunk_5.wav"))),
        Some(AppMessage::AudioChunkReady(PathBuf::from("chunks/chunk_5.wav")))
    );
    assert_eq!(chunk_announcement(Err(String::from("disk full"))), None);
}

#[test]
fn transcription_follow_up_reports_the_result() {
    let follow_up = transcription_follow_up(Ok(transcription("one", 1)), None, false);
    assert_eq!(follow_up.messages, vec![AppMessage::TranscriptionReady(transcription("one", 1))]);
    assert!(follow_up.delete_audio);
    let kept = transcription_follow_up(Ok(transcription("one", 1)), None, true);
    assert!(!kept.delete_audio);
}

#[test]
fn transcription_follow_up_reports_a_failed_save_first() {
    let follow_up =
        transcription_follow_up(Ok(transcription("one", 1)), Some(String::from("disk full")), false);
    assert_eq!(
        follow_up.messages,
        vec![
            AppMessage::Error(String::from("Failed to save transcription: disk full")),
            AppMessage::TranscriptionReady(transcription("one", 1)),
        ]
    );
    assert!(follow_up.delete_audio);
}

#[test]
fn transcription_follow_up_reports_a_failure() {
    let follow_up = transcription_follow_up(
        Err(String::from("Failed to send transcription request")),
        Some(String::from("ignored")),
        false,
    );
    assert_eq!(
        follow_up.messages,
        vec![AppMessage::Error(String::from(
            "Transcription failed: Failed to send transcription request"
        ))]
    );
    assert!(!follow_up.delete_audio);
}

#[test]
fn summary_follow_up_reports_result_and_failures() {
    assert_eq!(summary_follow_up(Ok(summary("s")), None), vec![AppMessage::SummaryReady(summary("s"))]);
    assert_eq!(
        summary_follow_up(Ok(summary("s")), Some(String::from("disk full"))),
        vec![
            AppMessage::Error(String::from("Failed to save summary: disk full")),
            AppMessage::SummaryReady(summary("s")),
        ]
    );
    assert_eq!(
        summary_follow_up(Err(String::from("No response from GPT")), None),
        vec![AppMessage::Error(String::from("Summarization failed: No response from GPT"))]
    );
}

#[test]
fn listening_needs_a_valid_configuration() {
    let mut unset = config(true);
    unset.openai_api_key = String::new();
    let mut coordinator = Coordinator::new(unset);
    assert!(!coordinator.start_listening());
    assert_eq!(coordinator.error_message(), "Configuration error: OpenAI API key is not set");
    assert!(!coordinator.is_listening());
    let mut ready = Coordinator::new(config(true));
    assert!(ready.start_listening());
    assert_eq!(ready.error_message(), "");
}

#[test]
fn listening_started_clears_the_failure_on_display() {
    let mut coordinator = Coordinator::new(config(true));
    coordinator.handle_error(String::from("old"));
    coordinator.listening_started();
    assert!(coordinator.is_listening());
    assert_eq!(coordinator.status_message(), "Listening...");
    assert_eq!(coordinator.error_message(), "");
}

#[test]
fn listening_failures_are_put_on_display() {
    let mut coordinator = Coordinator::new(config(true));
    coordinator.listening_failed(ListeningFailure::Directories(String::from("read-only")));
    assert_eq!(coordinator.error_message(), "Failed to create directories: read-only");
    coordinator.listening_failed(ListeningFailure::CaptureSetup(String::from("no host")));
    assert_eq!(coordinator.error_message(), "Failed to initialize audio capture: no host");
    coordinator.listening_failed(ListeningFailure::Recording(String::from("Already recording")));
    assert_eq!(coordinator.error_message(), "Failed to start recording: Already recording");
    assert!(!coordinator.is_listening());
}

#[test]
fn stop_listening_reports_a_failed_stop() {
    let mut coordinator = Coordinator::new(config(true));
    coordinator.listening_started();
    coordinator.stop_listening(Some(String::from("stream stuck")));
    assert!(!coordinator.is_listening());
    assert_eq!(coordinator.status_message(), "Stopped");
    assert_eq!(coordinator.error_message(), "Error stopping recording: stream stuck");
    coordinator.handle_error(String::from("kept"));
    coordinator.stop_listening(None);
    assert_eq!(coordinator.error_message(), "kept");
}

#[test]
fn settings_take_a_chunk_duration_that_reads_as_a_number() {
    let mut coordinator = Coordinator::new(config(true));
    coordinator.save_config(String::from("sk-new"), "45");
    assert_eq!(coordinator.config().openai_api_key, "sk-new");
    assert_eq!(coordinator.config().chunk_duration_secs, 45);
    coordinator.save_config(String::from("sk-newer"), "a minute");
    assert_eq!(coordinator.config().openai_api_key, "sk-newer");
    assert_eq!(coordinator.config().chunk_duration_secs, 45);
    coordinator.save_config(String::new(), "");
    assert_eq!(coordinator.config().openai_api_key, "");
    assert_eq!(coordinator.config().chunk_duration_secs, 45);
}

#[test]
fn saving_settings_is_reported() {
    let mut coordinator = Coordinator::new(config(true));
    coordinator.config_saved(None);
    assert_eq!(coordinator.status_message(), "Configuration saved");
    assert_eq!(coordinator.error_message(), "");
    coordinator.config_saved(Some(String::from("permission denied")));
    assert_eq!(coordinator.error_message(), "Failed to save config: permission denied");
}

#[test]
fn toggles_change_one_setting_each() {
    let mut coordinator = Coordinator::new(config(true));
    coordinator.set_keep_audio_files(true);
    coordinator.set_realtime_processing(false);
    let mut expected = config(false);
    expected.keep_audio_files = true;
    assert_eq!(*coordinator.config(), expected);
}

#[test]
fn clear_all_discards_history() {
    let mut coordinator = Coordinator::new(config(false));
    coordinator.handle_transcription(transcription("one", 1));
    coordinator.handle_summary(summary("s"));
    coordinator.clear_all();
    assert!(coordinator.transcriptions().is_empty());
    assert!(coordinator.summaries().is_empty());
    assert_eq!(coordinator.current_summary(), None);
    assert_eq!(coordinator.status_message(), "Cleared");
}

#[test]
fn export_without_transcriptions_is_a_failure_to_show() {
    let mut coordinator = Coordinator::new(config(false));
    let export =
        coordinator.export_transcript(ExportFormat::PlainText, Timestamp { secs: 0, nanos: 0 });
    assert!(export.is_none());
    assert_eq!(coordinator.error_message(), "No transcriptions to export");
}

#[test]
fn export_is_named_after_the_moment_it_is_made() {
    let mut coordinator = Coordinator::new(config(false));
    coordinator.handle_transcription(transcription("one", 1_431_648_000));
    let now = Timestamp { secs: 1_431_648_000 + 60, nanos: 0 };
    let txt = coordinator.export_transcript(ExportFormat::PlainText, now).unwrap();
    assert_eq!(txt.file_name, "transcript_20150515_000100.txt");
    let md = coordinator.export_transcript(ExportFormat::Markdown, now).unwrap();
    assert_eq!(md.file_name, "transcript_20150515_000100.md");
    assert_eq!(coordinator.error_message(), "");
}

#[test]
fn export_report_shows_the_name_as_given() {
    let mut coordinator = Coordinator::new(config(false));
    coordinator.export_reported("<the file>", None);
    assert_eq!(coordinator.status_message(), "Transcript exported to: <the file>");
    assert_eq!(coordinator.error_message(), "");
    coordinator.export_reported("<the file>", Some(String::from("no space")));
    assert_eq!(coordinator.error_message(), "Failed to export transcript: no space");
    assert_eq!(coordinator.status_message(), "Transcript exported to: <the file>");
}

#[test]
fn copying_the_transcript_is_reported() {
    let mut coordinator = Coordinator::new(config(false));
    coordinator.transcript_copied();
    assert_eq!(coordinator.status_message(), "Transcript copied to clipboard");
}

#[test]
fn export_outcome_is_reported() {
    let mut coordinator = Coordinator::new(config(false));
    coordinator.export_finished("transcript_20150515_000100.txt", None);
    assert_eq!(
        coordinator.status_message(),
        "Transcript exported to: \"transcript_20150515_000100.txt\""
    );
    coordinator.export_finished("transcript_20150515_000100.txt", Some(String::from("disk full")));
    assert_eq!(coordinator.error_message(), "Failed to export transcript: disk full");
    coordinator.export_finished("a \"b\"\n", None);
    assert_eq!(coordinator.status_message(), "Transcript exported to: \"a \\\"b\\\"\\n\"");
}
