//! The coordinator: the single consumer of relay messages.
//!
//! On every tick of its control loop the coordinator takes the whole backlog
//! out of the relay channel and dispatches the messages one by one, in the
//! order of their arrival. Dispatching never blocks: where a message calls for
//! work by a collaborator, the coordinator answers with the action to launch
//! and goes on with the next message.

use crate::clock::{text_view, Timestamp};
use crate::config::{Config, ConfigError};
use crate::decimal::{append_decimal, decimal, parse_u64, parsed_u64};
use crate::export::{export_of, export_transcript, export_view, ExportFormat, TranscriptExport};
use crate::message::AppMessage;
use crate::relay::{enqueued, lemma_relay_keeps_order, Relay, RelayEvent};
use crate::summarization::SummaryResult;
use crate::text::{debug_text, quote};
use crate::transcription::{texts_of, TranscriptionResult};
use std::path::PathBuf;
use vstd::prelude::*;
use vstd::string::StringExecFns;

verus! {

/// Work that the coordinator asks to be launched, without waiting for it.
#[derive(Debug, PartialEq, Eq)]
pub enum CoordinatorAction {
    /// Hand the chunk artifact at this path to the transcription service.
    Transcribe(PathBuf),
    /// Ask the summarization service for a summary of these texts, which are
    /// all texts transcribed so far, in order.
    Summarize(Vec<String>),
}

/// The step at which starting to listen failed.
#[derive(Debug, PartialEq, Eq)]
pub enum ListeningFailure {
    /// The directories for the artifacts could not be made; the text says why.
    Directories(String),
    /// The recording session could not be set up; the text says why.
    CaptureSetup(String),
    /// The recording session did not start; the text says why.
    Recording(String),
}

impl ListeningFailure {
    /// The failure as it is put on display.
    pub open spec fn text(self) -> Seq<char> {
        match self {
            ListeningFailure::Directories(cause) => "Failed to create directories: "@ + cause@,
            ListeningFailure::CaptureSetup(cause) => "Failed to initialize audio capture: "@
                + cause@,
            ListeningFailure::Recording(cause) => "Failed to start recording: "@ + cause@,
        }
    }
}

/// The mathematical content of a [`CoordinatorAction`].
pub enum ActionView {
    Transcribe(PathBuf),
    Summarize(Seq<String>),
}

impl View for CoordinatorAction {
    type V = ActionView;

    open spec fn view(&self) -> ActionView {
        match self {
            CoordinatorAction::Transcribe(path) => ActionView::Transcribe(*path),
            CoordinatorAction::Summarize(texts) => ActionView::Summarize(texts@),
        }
    }
}

/// The view of an action that may be absent.
pub open spec fn action_view(action: Option<CoordinatorAction>) -> Option<ActionView> {
    match action {
        Some(a) => Some(a@),
        None => None,
    }
}

/// The views of a run of actions.
pub open spec fn actions_view(actions: Seq<CoordinatorAction>) -> Seq<ActionView> {
    Seq::new(actions.len(), |i: int| actions[i]@)
}

/// The status line while chunks wait for their transcription.
pub open spec fn processing_status(pending: nat) -> Seq<char> {
    "Processing "@ + decimal(pending) + " audio chunks..."@
}

/// The status line after a transcription arrived outside real-time mode.
pub open spec fn transcribed_status(segments: nat) -> Seq<char> {
    "Transcribed "@ + decimal(segments) + " segments"@
}

/// The mathematical content of a [`Coordinator`].
#[verifier::ext_equal]
pub struct CoordinatorView {
    /// The settings in force.
    pub config: Config,
    /// Whether a recording session is under way.
    pub is_listening: bool,
    /// Every transcription received, in order of arrival.
    pub transcriptions: Seq<TranscriptionResult>,
    /// Number of chunks handed to the transcription service and not answered.
    pub pending_transcriptions: usize,
    /// Every summary received, in order of arrival. The last one is the
    /// current summary.
    pub summaries: Seq<SummaryResult>,
    /// The latest status line.
    pub status_message: Seq<char>,
    /// The latest failure; empty where there is none to show.
    pub error_message: Seq<char>,
}

impl CoordinatorView {
    /// A coordinator that has seen nothing yet.
    pub open spec fn initial(config: Config) -> CoordinatorView {
        CoordinatorView {
            config,
            is_listening: false,
            transcriptions: Seq::empty(),
            pending_transcriptions: 0,
            summaries: Seq::empty(),
            status_message: "Ready"@,
            error_message: Seq::empty(),
        }
    }

    /// The summary on display: the most recent one.
    pub open spec fn current_summary(self) -> Option<SummaryResult> {
        if self.summaries.len() > 0 {
            Some(self.summaries.last())
        } else {
            None
        }
    }

    /// After a chunk artifact was announced: one more transcription is pending,
    /// and the artifact goes to the transcription service.
    pub open spec fn chunk_ready(self, audio_file: PathBuf) -> (CoordinatorView, ActionView) {
        let pending = if self.pending_transcriptions < usize::MAX {
            (self.pending_transcriptions + 1) as usize
        } else {
            self.pending_transcriptions
        };
        (
            CoordinatorView {
                pending_transcriptions: pending,
                status_message: processing_status(pending as nat),
                ..self
            },
            ActionView::Transcribe(audio_file),
        )
    }

    /// After a summary was asked for: without any transcription that is a
    /// failure to show; otherwise all texts so far go to the summarization
    /// service.
    pub open spec fn summary_requested(self) -> (CoordinatorView, Option<ActionView>) {
        if self.transcriptions.len() == 0 {
            (CoordinatorView { error_message: "No transcriptions to summarize"@, ..self }, None)
        } else {
            (
                CoordinatorView { status_message: "Generating summary..."@, ..self },
                Some(ActionView::Summarize(texts_of(self.transcriptions))),
            )
        }
    }

    /// After a transcription arrived: one pending transcription fewer, the
    /// result joins the history, and in real-time mode a summary of everything
    /// so far is asked for.
    pub open spec fn transcription_ready(self, result: TranscriptionResult) -> (
        CoordinatorView,
        Option<ActionView>,
    ) {
        let pending = if self.pending_transcriptions > 0 {
            (self.pending_transcriptions - 1) as usize
        } else {
            0
        };
        let received = CoordinatorView {
            pending_transcriptions: pending,
            transcriptions: self.transcriptions.push(result),
            ..self
        };
        if self.config.realtime_processing {
            received.summary_requested()
        } else {
            (
                CoordinatorView {
                    status_message: transcribed_status(received.transcriptions.len()),
                    ..received
                },
                None,
            )
        }
    }

    /// After a summary arrived: it joins the history and thereby becomes the
    /// current summary.
    pub open spec fn summary_ready(self, result: SummaryResult) -> CoordinatorView {
        CoordinatorView {
            summaries: self.summaries.push(result),
            status_message: "Summary generated"@,
            ..self
        }
    }

    /// After a failure was reported: it replaces the failure on display.
    pub open spec fn error_reported(self, text: Seq<char>) -> CoordinatorView {
        CoordinatorView { error_message: text, ..self }
    }

    /// After one message was dispatched, and the action that it calls for.
    pub open spec fn dispatch(self, message: AppMessage) -> (CoordinatorView, Option<ActionView>) {
        match message {
            AppMessage::AudioChunkReady(audio_file) => {
                let (next, action) = self.chunk_ready(audio_file);
                (next, Some(action))
            },
            AppMessage::TranscriptionReady(result) => self.transcription_ready(result),
            AppMessage::SummaryReady(result) => (self.summary_ready(result), None),
            AppMessage::Error(text) => (self.error_reported(text@), None),
        }
    }

    /// After a backlog was dispatched message by message, first to last, and
    /// the actions called for, in the order of the messages that called for
    /// them.
    pub open spec fn dispatch_all(self, backlog: Seq<AppMessage>) -> (
        CoordinatorView,
        Seq<ActionView>,
    )
        decreases backlog.len(),
    {
        if backlog.len() == 0 {
            (self, Seq::empty())
        } else {
            let (mid, actions) = self.dispatch_all(backlog.drop_last());
            let (end, action) = mid.dispatch(backlog.last());
            (
                end,
                match action {
                    Some(a) => actions.push(a),
                    None => actions,
                },
            )
        }
    }

    /// After a recording session was started.
    pub open spec fn listening(self) -> CoordinatorView {
        CoordinatorView {
            is_listening: true,
            status_message: "Listening..."@,
            error_message: Seq::empty(),
            ..self
        }
    }

    /// After the recording session was stopped; `failure` is what stopping
    /// reported, if it failed.
    pub open spec fn stopped(self, failure: Option<Seq<char>>) -> CoordinatorView {
        CoordinatorView {
            is_listening: false,
            status_message: "Stopped"@,
            error_message: match failure {
                Some(cause) => "Error stopping recording: "@ + cause,
                None => self.error_message,
            },
            ..self
        }
    }

    /// After the user asked to listen: a configuration that is not ready is a
    /// failure to show, and listening does not go ahead.
    pub open spec fn listen_requested(self) -> (CoordinatorView, bool) {
        if self.config.is_valid() {
            (self, true)
        } else {
            (
                CoordinatorView {
                    error_message: "Configuration error: "@ + ConfigError::MissingApiKey.text(),
                    ..self
                },
                false,
            )
        }
    }

    /// After starting to listen failed at some step.
    pub open spec fn listen_failed(self, failure: ListeningFailure) -> CoordinatorView {
        CoordinatorView { error_message: failure.text(), ..self }
    }

    /// After the user's settings were taken over: the API key as entered, and
    /// the chunk duration where the entry reads as a number.
    pub open spec fn settings_entered(
        self,
        api_key: String,
        chunk_duration: Seq<char>,
    ) -> CoordinatorView {
        CoordinatorView {
            config: Config {
                openai_api_key: api_key,
                chunk_duration_secs: match parsed_u64(chunk_duration) {
                    Some(secs) => secs,
                    None => self.config.chunk_duration_secs,
                },
                ..self.config
            },
            ..self
        }
    }

    /// After the settings were saved, or failed to be.
    pub open spec fn settings_saved(self, failure: Option<Seq<char>>) -> CoordinatorView {
        match failure {
            Some(cause) => CoordinatorView {
                error_message: "Failed to save config: "@ + cause,
                ..self
            },
            None => CoordinatorView { status_message: "Configuration saved"@, ..self },
        }
    }

    /// After the user asked for an export at `now`, and the export to write.
    /// Without any transcription that is a failure to show.
    pub open spec fn export_requested(self, format: ExportFormat, now: Timestamp) -> (
        CoordinatorView,
        Option<(Seq<char>, Seq<char>)>,
    ) {
        if self.transcriptions.len() == 0 {
            (CoordinatorView { error_message: "No transcriptions to export"@, ..self }, None)
        } else {
            (self, export_of(self.transcriptions, format, now))
        }
    }

    /// After an export was written, or failed to be; `shown_name` is the name
    /// of the file as it is put on display.
    pub open spec fn export_reported(
        self,
        shown_name: Seq<char>,
        failure: Option<Seq<char>>,
    ) -> CoordinatorView {
        match failure {
            Some(cause) => CoordinatorView {
                error_message: "Failed to export transcript: "@ + cause,
                ..self
            },
            None => CoordinatorView {
                status_message: "Transcript exported to: "@ + shown_name,
                ..self
            },
        }
    }

    /// After the export named `file_name` was written, or failed to be. The
    /// name is put on display in its quoted form.
    pub open spec fn export_written(
        self,
        file_name: Seq<char>,
        failure: Option<Seq<char>>,
    ) -> CoordinatorView {
        self.export_reported(debug_text(file_name), failure)
    }

    /// After the whole transcript was copied to the clipboard.
    pub open spec fn copied(self) -> CoordinatorView {
        CoordinatorView { status_message: "Transcript copied to clipboard"@, ..self }
    }

    /// After everything received was discarded.
    pub open spec fn cleared(self) -> CoordinatorView {
        CoordinatorView {
            transcriptions: Seq::empty(),
            summaries: Seq::empty(),
            status_message: "Cleared"@,
            ..self
        }
    }
}

/// Dispatching a backlog that came in two parts is dispatching the first part
/// and then the second.
pub proof fn lemma_dispatch_all_splits(
    start: CoordinatorView,
    first: Seq<AppMessage>,
    second: Seq<AppMessage>,
)
    ensures
        start.dispatch_all(first + second).0 == start.dispatch_all(first).0.dispatch_all(second).0,
        start.dispatch_all(first + second).1 == start.dispatch_all(first).1
            + start.dispatch_all(first).0.dispatch_all(second).1,
    decreases second.len(),
{
    if second.len() > 0 {
        lemma_dispatch_all_splits(start, first, second.drop_last());
        assert((first + second).drop_last() =~= first + second.drop_last());
    }
}

/// The coordinator behind a relay channel, after a run of events on the
/// channel: at every tick it has dispatched the backlog that the tick took
/// out.
pub open spec fn coordinated(start: CoordinatorView, events: Seq<RelayEvent<AppMessage>>) -> (
    CoordinatorView,
    Seq<ActionView>,
)
    decreases events.len(),
{
    if events.len() == 0 {
        (start, Seq::empty())
    } else {
        let (before, actions) = coordinated(start, events.drop_last());
        match events.last() {
            RelayEvent::Send(_) => (before, actions),
            RelayEvent::Tick => {
                let backlog = Relay::<AppMessage>::fresh().run(events.drop_last()).waiting;
                let (after, launched) = before.dispatch_all(backlog);
                (after, actions + launched)
            },
        }
    }
}

/// Ticks do not matter. However the ticks of the coordinator fall between the
/// messages that producers enqueue, once a tick has taken out the last of
/// them the coordinator stands where dispatching every enqueued message, in
/// the order of enqueueing, would have brought it, and it has asked for the
/// same actions in the same order.
pub proof fn lemma_dispatch_follows_enqueue_order(
    start: CoordinatorView,
    events: Seq<RelayEvent<AppMessage>>,
)
    ensures
        ({
            let relay = Relay::<AppMessage>::fresh().run(events);
            let (reached, actions) = coordinated(start, events);
            let (rest, launched) = reached.dispatch_all(relay.waiting);
            &&& start.dispatch_all(relay.delivered) == (reached, actions)
            &&& start.dispatch_all(enqueued(events)) == (rest, actions + launched)
            &&& events.len() > 0 && events.last() is Tick ==> start.dispatch_all(enqueued(events))
                == (reached, actions)
        }),
    decreases events.len(),
{
    let relay = Relay::<AppMessage>::fresh().run(events);
    lemma_relay_keeps_order(events);
    if events.len() > 0 {
        let front = events.drop_last();
        lemma_dispatch_follows_enqueue_order(start, front);
        if events.last() is Tick {
            let before = Relay::<AppMessage>::fresh().run(front);
            lemma_dispatch_all_splits(start, before.delivered, before.waiting);
        }
    }
    lemma_dispatch_all_splits(start, relay.delivered, relay.waiting);
}

/// What arrives is taken in whether or not a session is under way: whether the
/// coordinator is listening changes nothing about what a message does, and no
/// message changes whether it is listening.
pub proof fn lemma_dispatch_ignores_listening(
    coordinator: CoordinatorView,
    message: AppMessage,
    listening: bool,
)
    ensures
        ({
            let (next, action) = coordinator.dispatch(message);
            &&& next.is_listening == coordinator.is_listening
            &&& (CoordinatorView { is_listening: listening, ..coordinator }).dispatch(message) == (
                CoordinatorView { is_listening: listening, ..next },
                action,
            )
        }),
{
}

/// Whether `later` holds everything that `earlier` holds, unchanged and in the
/// same places, possibly followed by more.
pub open spec fn extends<A>(later: Seq<A>, earlier: Seq<A>) -> bool {
    earlier.len() <= later.len() && later.take(earlier.len() as int) == earlier
}

/// What was received stays as it was received: dispatching a message leaves
/// every transcription and every summary in the history untouched and at most
/// appends one.
pub proof fn lemma_dispatch_only_appends(coordinator: CoordinatorView, message: AppMessage)
    ensures
        extends(coordinator.dispatch(message).0.transcriptions, coordinator.transcriptions),
        extends(coordinator.dispatch(message).0.summaries, coordinator.summaries),
{
    let next = coordinator.dispatch(message).0;
    assert(next.transcriptions.take(coordinator.transcriptions.len() as int)
        =~= coordinator.transcriptions);
    assert(next.summaries.take(coordinator.summaries.len() as int) =~= coordinator.summaries);
}

/// What was received stays as it was received, whatever arrives later.
pub proof fn lemma_backlog_only_appends(coordinator: CoordinatorView, backlog: Seq<AppMessage>)
    ensures
        extends(coordinator.dispatch_all(backlog).0.transcriptions, coordinator.transcriptions),
        extends(coordinator.dispatch_all(backlog).0.summaries, coordinator.summaries),
    decreases backlog.len(),
{
    if backlog.len() == 0 {
        assert(coordinator.transcriptions.take(coordinator.transcriptions.len() as int)
            =~= coordinator.transcriptions);
        assert(coordinator.summaries.take(coordinator.summaries.len() as int)
            =~= coordinator.summaries);
    } else {
        let mid = coordinator.dispatch_all(backlog.drop_last()).0;
        let end = coordinator.dispatch_all(backlog).0;
        lemma_backlog_only_appends(coordinator, backlog.drop_last());
        lemma_dispatch_only_appends(mid, backlog.last());
        assert(end.transcriptions.take(coordinator.transcriptions.len() as int)
            =~= mid.transcriptions.take(coordinator.transcriptions.len() as int));
        assert(end.summaries.take(coordinator.summaries.len() as int) =~= mid.summaries.take(
            coordinator.summaries.len() as int,
        ));
    }
}

/// A failure on display is overwritten, not accumulated: after two failures in
/// a row only the later one shows.
pub proof fn lemma_latest_error_wins(start: CoordinatorView, earlier: String, later: String)
    ensures
        start.dispatch(AppMessage::Error(earlier)).0.dispatch(AppMessage::Error(later)).0
            == start.dispatch(AppMessage::Error(later)).0,
        start.dispatch(AppMessage::Error(later)).0.error_message == later@,
{
}

/// The state of the coordinator.
#[derive(Debug)]
pub struct Coordinator {
    config: Config,
    is_listening: bool,
    transcriptions: Vec<TranscriptionResult>,
    pending_transcriptions: usize,
    summaries: Vec<SummaryResult>,
    status_message: String,
    error_message: String,
}

impl View for Coordinator {
    type V = CoordinatorView;

    closed spec fn view(&self) -> CoordinatorView {
        CoordinatorView {
            config: self.config,
            is_listening: self.is_listening,
            transcriptions: self.transcriptions@,
            pending_transcriptions: self.pending_transcriptions,
            summaries: self.summaries@,
            status_message: self.status_message@,
            error_message: self.error_message@,
        }
    }
}

/// The status line while `pending` chunks wait for their transcription.
fn processing_status_text(pending: usize) -> (text: String)
    ensures
        text@ == processing_status(pending as nat),
{
    let mut text = String::from_str("Processing ");
    append_decimal(&mut text, pending as u128);
    text.append(" audio chunks...");
    text
}

/// The status line after the transcription that made `segments` of them.
fn transcribed_status_text(segments: usize) -> (text: String)
    ensures
        text@ == transcribed_status(segments as nat),
{
    let mut text = String::from_str("Transcribed ");
    append_decimal(&mut text, segments as u128);
    text.append(" segments");
    text
}

impl Coordinator {
    /// A coordinator that has seen nothing yet.
    pub fn new(config: Config) -> (coordinator: Self)
        ensures
            coordinator@ == CoordinatorView::initial(config),
    {
        Coordinator {
            config,
            is_listening: false,
            transcriptions: Vec::new(),
            pending_transcriptions: 0,
            summaries: Vec::new(),
            status_message: String::from_str("Ready"),
            error_message: String::new(),
        }
    }

    /// Takes note of an announced chunk artifact and asks for its
    /// transcription.
    pub fn handle_audio_chunk(&mut self, audio_file: PathBuf) -> (action: CoordinatorAction)
        ensures
            (final(self)@, action@) == old(self)@.chunk_ready(audio_file),
    {
        if self.pending_transcriptions < usize::MAX {
            self.pending_transcriptions = self.pending_transcriptions + 1;
        }
        self.status_message = processing_status_text(self.pending_transcriptions);
        CoordinatorAction::Transcribe(audio_file)
    }

    /// Asks for a summary of everything transcribed so far.
    pub fn generate_summary(&mut self) -> (action: Option<CoordinatorAction>)
        ensures
            (final(self)@, action_view(action)) == old(self)@.summary_requested(),
    {
        if self.transcriptions.len() == 0 {
            self.error_message = String::from_str("No transcriptions to summarize");
            return None;
        }
        let mut texts: Vec<String> = Vec::new();
        let mut i: usize = 0;
        while i < self.transcriptions.len()
            invariant
                i <= self.transcriptions@.len(),
                texts@.len() == i,
                forall|k: int| 0 <= k < i ==> texts@[k] == self.transcriptions@[k].text,
                *self == *old(self),
            decreases self.transcriptions@.len() - i,
        {
            texts.push(self.transcriptions[i].text.clone());
            i += 1;
        }
        assert(texts@ =~= texts_of(self.transcriptions@));
        self.status_message = String::from_str("Generating summary...");
        Some(CoordinatorAction::Summarize(texts))
    }

    /// Takes in a transcription.
    pub fn handle_transcription(&mut self, result: TranscriptionResult) -> (action: Option<
        CoordinatorAction,
    >)
        ensures
            (final(self)@, action_view(action)) == old(self)@.transcription_ready(result),
    {
        if self.pending_transcriptions > 0 {
            self.pending_transcriptions = self.pending_transcriptions - 1;
        }
        self.transcriptions.push(result);
        if self.config.realtime_processing {
            self.generate_summary()
        } else {
            self.status_message = transcribed_status_text(self.transcriptions.len());
            None
        }
    }

    /// Takes in a summary.
    pub fn handle_summary(&mut self, result: SummaryResult)
        ensures
            final(self)@ == old(self)@.summary_ready(result),
    {
        self.summaries.push(result);
        self.status_message = String::from_str("Summary generated");
    }

    /// Takes in a reported failure.
    pub fn handle_error(&mut self, text: String)
        ensures
            final(self)@ == old(self)@.error_reported(text@),
    {
        self.error_message = text;
    }

    /// Dispatches one message.
    pub fn dispatch(&mut self, message: AppMessage) -> (action: Option<CoordinatorAction>)
        ensures
            (final(self)@, action_view(action)) == old(self)@.dispatch(message),
    {
        match message {
            AppMessage::AudioChunkReady(audio_file) => Some(self.handle_audio_chunk(audio_file)),
            AppMessage::TranscriptionReady(result) => self.handle_transcription(result),
            AppMessage::SummaryReady(result) => {
                self.handle_summary(result);
                None
            },
            AppMessage::Error(text) => {
                self.handle_error(text);
                None
            },
        }
    }

    /// Dispatches a whole backlog, oldest message first, and returns the
    /// actions called for, in the order of the messages that called for them.
    pub fn process_messages(&mut self, backlog: Vec<AppMessage>) -> (actions: Vec<
        CoordinatorAction,
    >)
        ensures
            (final(self)@, actions_view(actions@)) == old(self)@.dispatch_all(backlog@),
    {
        let mut actions: Vec<CoordinatorAction> = Vec::new();
        let ghost all = backlog@;
        for message in it: backlog
            invariant
                it.seq() == all,
                (self@, actions_view(actions@)) == old(self)@.dispatch_all(
                    all.take(it.index() as int),
                ),
        {
            assert(all.take(it.index() + 1).drop_last() =~= all.take(it.index() as int));
            match self.dispatch(message) {
                Some(action) => {
                    actions.push(action);
                },
                None => {},
            }
        }
        assert(all.take(all.len() as int) =~= all);
        actions
    }

    /// Takes note that a recording session was started.
    pub fn listening_started(&mut self)
        ensures
            final(self)@ == old(self)@.listening(),
    {
        self.is_listening = true;
        self.status_message = String::from_str("Listening...");
        self.error_message = String::new();
    }

    /// Takes note that the recording session was stopped; `failure` is what
    /// stopping reported, if it failed.
    pub fn stop_listening(&mut self, failure: Option<String>)
        ensures
            final(self)@ == old(self)@.stopped(text_view(failure)),
    {
        match failure {
            Some(cause) => {
                let mut text = String::from_str("Error stopping recording: ");
                text.append(cause.as_str());
                self.error_message = text;
            },
            None => {},
        }
        self.is_listening = false;
        self.status_message = String::from_str("Stopped");
    }

    /// Answers the user's request to listen: whether listening may go ahead.
    pub fn start_listening(&mut self) -> (ready: bool)
        ensures
            (final(self)@, ready) == old(self)@.listen_requested(),
    {
        match self.config.validate() {
            Ok(_) => true,
            Err(e) => {
                let mut text = String::from_str("Configuration error: ");
                text.append(e.message().as_str());
                self.error_message = text;
                false
            },
        }
    }

    /// Takes note that starting to listen failed at some step.
    pub fn listening_failed(&mut self, failure: ListeningFailure)
        ensures
            final(self)@ == old(self)@.listen_failed(failure),
    {
        let text = match &failure {
            ListeningFailure::Directories(cause) => {
                let mut text = String::from_str("Failed to create directories: ");
                text.append(cause.as_str());
                text
            },
            ListeningFailure::CaptureSetup(cause) => {
                let mut text = String::from_str("Failed to initialize audio capture: ");
                text.append(cause.as_str());
                text
            },
            ListeningFailure::Recording(cause) => {
                let mut text = String::from_str("Failed to start recording: ");
                text.append(cause.as_str());
                text
            },
        };
        self.error_message = text;
    }

    /// Takes over the user's settings: the API key as entered, and the chunk
    /// duration where the entry reads as a number of seconds.
    pub fn save_config(&mut self, api_key: String, chunk_duration: &str)
        ensures
            final(self)@ == old(self)@.settings_entered(api_key, chunk_duration@),
    {
        match parse_u64(chunk_duration) {
            Some(secs) => {
                self.config.chunk_duration_secs = secs;
            },
            None => {},
        }
        self.config.openai_api_key = api_key;
    }

    /// Takes note that the settings were saved; `failure` is the reason they
    /// were not, if they were not.
    pub fn config_saved(&mut self, failure: Option<String>)
        ensures
            final(self)@ == old(self)@.settings_saved(text_view(failure)),
    {
        match failure {
            Some(cause) => {
                let mut text = String::from_str("Failed to save config: ");
                text.append(cause.as_str());
                self.error_message = text;
            },
            None => {
                self.status_message = String::from_str("Configuration saved");
            },
        }
    }

    /// Sets whether chunk artifacts are kept once transcribed.
    pub fn set_keep_audio_files(&mut self, keep: bool)
        ensures
            final(self)@ == (CoordinatorView {
                config: Config { keep_audio_files: keep, ..old(self)@.config },
                ..old(self)@
            }),
    {
        self.config.keep_audio_files = keep;
    }

    /// Sets whether every new transcription triggers a summary.
    pub fn set_realtime_processing(&mut self, realtime: bool)
        ensures
            final(self)@ == (CoordinatorView {
                config: Config { realtime_processing: realtime, ..old(self)@.config },
                ..old(self)@
            }),
    {
        self.config.realtime_processing = realtime;
    }

    /// Answers the user's request for an export at `now`: the export to write,
    /// if there is one.
    pub fn export_transcript(&mut self, format: ExportFormat, now: Timestamp) -> (export: Option<
        TranscriptExport,
    >)
        ensures
            (final(self)@, export_view(export)) == old(self)@.export_requested(format, now),
    {
        if self.transcriptions.len() == 0 {
            self.error_message = String::from_str("No transcriptions to export");
            None
        } else {
            export_transcript(self.transcriptions.as_slice(), format, now)
        }
    }

    /// Takes note that an export was written; `shown_name` is the name of the
    /// file as it is put on display, `failure` the reason the export was not
    /// written, if it was not.
    pub fn export_reported(&mut self, shown_name: &str, failure: Option<String>)
        ensures
            final(self)@ == old(self)@.export_reported(shown_name@, text_view(failure)),
    {
        match failure {
            Some(cause) => {
                let mut text = String::from_str("Failed to export transcript: ");
                text.append(cause.as_str());
                self.error_message = text;
            },
            None => {
                let mut text = String::from_str("Transcript exported to: ");
                text.append(shown_name);
                self.status_message = text;
            },
        }
    }

    /// Takes note that the export named `file_name` was written; `failure` is
    /// the reason it was not, if it was not. The name is put on display in its
    /// quoted form.
    pub fn export_finished(&mut self, file_name: &str, failure: Option<String>)
        ensures
            final(self)@ == old(self)@.export_written(file_name@, text_view(failure)),
    {
        let shown_name = quote(file_name);
        self.export_reported(shown_name.as_str(), failure);
    }

    /// Takes note that the whole transcript was copied to the clipboard.
    pub fn transcript_copied(&mut self)
        ensures
            final(self)@ == old(self)@.copied(),
    {
        self.status_message = String::from_str("Transcript copied to clipboard");
    }

    /// Discards every transcription and every summary.
    pub fn clear_all(&mut self)
        ensures
            final(self)@ == old(self)@.cleared(),
    {
        self.transcriptions.clear();
        self.summaries.clear();
        self.status_message = String::from_str("Cleared");
    }

    /// The settings in force.
    pub fn config(&self) -> (config: &Config)
        ensures
            *config == self@.config,
    {
        &self.config
    }

    /// Whether a recording session is under way.
    pub fn is_listening(&self) -> (listening: bool)
        ensures
            listening == self@.is_listening,
    {
        self.is_listening
    }

    /// Every transcription received, in order of arrival.
    pub fn transcriptions(&self) -> (history: &Vec<TranscriptionResult>)
        ensures
            history@ == self@.transcriptions,
    {
        &self.transcriptions
    }

    /// Number of chunks handed to the transcription service and not answered.
    pub fn pending_transcriptions(&self) -> (pending: usize)
        ensures
            pending == self@.pending_transcriptions,
    {
        self.pending_transcriptions
    }

    /// Every summary received, in order of arrival.
    pub fn summaries(&self) -> (history: &Vec<SummaryResult>)
        ensures
            history@ == self@.summaries,
    {
        &self.summaries
    }

    /// The summary on display: the most recent one, if any.
    pub fn current_summary(&self) -> (current: Option<&SummaryResult>)
        ensures
            match current {
                Some(summary) => self@.current_summary() == Some(*summary),
                None => self@.current_summary() is None,
            },
    {
        let n = self.summaries.len();
        if n > 0 {
            Some(&self.summaries[n - 1])
        } else {
            None
        }
    }

    /// The latest status line.
    pub fn status_message(&self) -> (text: &str)
        ensures
            text@ == self@.status_message,
    {
        self.status_message.as_str()
    }

    /// The latest failure; empty where there is none to show.
    pub fn error_message(&self) -> (text: &str)
        ensures
            text@ == self@.error_message,
    {
        self.error_message.as_str()
    }
}

} // verus!
