//! The recording session: the state machine that gates start and stop.
//!
//! A session is `Idle`, `Starting` or `Recording`. The running flag that the
//! capture callback and the chunk assembler observe is raised exactly while the
//! session is not `Idle`. Talking to the audio hardware is the driver's
//! business: it probes devices, opens and releases the stream, and reports what
//! happened; the session decides what each report means.

use crate::chunk::{AssemblerView, ChunkAssembler};
use std::path::PathBuf;
use vstd::prelude::*;
use vstd::string::StringExecFns;

verus! {

/// Upper bound, in milliseconds, on how long a stop waits for the assembler to
/// finish its final drain.
pub const FINAL_DRAIN_GRACE_MS: u64 = 500;

/// Number of channels that the session captures.
pub const CAPTURE_CHANNELS: u16 = 1;

/// An input device that was selected for capture.
#[derive(Debug, Clone, PartialEq, Eq)]
pub struct InputDevice {
    /// The name under which the host lists the device.
    pub name: String,
}

/// What the host answered when asked for its default input device.
#[derive(Debug, PartialEq, Eq)]
pub enum DeviceProbe {
    /// The host has no default input device.
    Missing,
    /// The host has one but it could not be queried; the text says why.
    Unavailable(String),
    /// The host's default input device.
    Found(InputDevice),
}

/// The native sample representation that a device offers.
#[derive(Debug, Clone, PartialEq, Eq)]
pub enum SampleFormat {
    /// Signed 16-bit integers.
    I16,
    /// Unsigned 16-bit integers.
    U16,
    /// 32-bit floating point.
    F32,
    /// Any other representation, by its name.
    Other(String),
}

/// Why a session could not start, or what went wrong with a device.
#[derive(Debug, PartialEq, Eq)]
pub enum CaptureError {
    /// A start was requested while the session was not idle.
    AlreadyRecording,
    /// No input device is selected and the host has no default one.
    NoDeviceFound,
    /// The device offers a sample representation that cannot be captured; the
    /// text names it.
    UnsupportedFormat(String),
    /// The device or the host reported a failure; the text is theirs.
    Device(String),
}

/// The stream that the driver is asked to open once a start is accepted.
#[derive(Debug, PartialEq, Eq)]
pub struct StreamPlan {
    pub channels: u16,
    pub sample_rate: u32,
    pub format: SampleFormat,
}

/// What the driver has to do after a stop request.
#[derive(Clone, Copy, Debug, PartialEq, Eq, Structural)]
pub enum StopAction {
    /// The session was idle already: nothing to do.
    AlreadyIdle,
    /// The running flag has been lowered. Release the stream if one was opened,
    /// then wait for the assembler's final drain.
    Shutdown { release_stream: bool },
}

/// Where a session stands.
#[derive(Clone, Copy, Debug, PartialEq, Eq, Structural)]
pub enum SessionPhase {
    /// Not recording.
    Idle,
    /// A start was accepted and the running flag is raised; the stream is not
    /// confirmed yet.
    Starting,
    /// The stream is running.
    Recording,
}

/// The mathematical content of an [`AudioCapture`].
pub struct CaptureView {
    pub phase: SessionPhase,
    pub device: Option<InputDevice>,
    pub sample_rate: u32,
    pub chunk_duration_secs: u64,
    pub output_dir: PathBuf,
}

/// The text of the complaint about a missing default input device.
pub open spec fn no_device_text() -> Seq<char> {
    "No default input device found. You may need to configure PulseAudio/PipeWire to capture system audio."@
}

impl CaptureError {
    /// The text of this error.
    pub open spec fn text(self) -> Seq<char> {
        match self {
            CaptureError::AlreadyRecording => "Already recording"@,
            CaptureError::NoDeviceFound => no_device_text(),
            CaptureError::UnsupportedFormat(name) => "Unsupported sample format: "@ + name@,
            CaptureError::Device(cause) => cause@,
        }
    }

    /// The text of this error, for display.
    pub fn message(&self) -> (text: String)
        ensures
            text@ == self.text(),
    {
        match self {
            CaptureError::AlreadyRecording => String::from_str("Already recording"),
            CaptureError::NoDeviceFound => String::from_str(
                "No default input device found. You may need to configure PulseAudio/PipeWire to capture system audio.",
            ),
            CaptureError::UnsupportedFormat(name) => {
                let mut text = String::from_str("Unsupported sample format: ");
                text.append(name.as_str());
                text
            },
            CaptureError::Device(cause) => cause.clone(),
        }
    }
}

impl CaptureView {
    /// Whether the running flag is raised.
    pub open spec fn running(self) -> bool {
        self.phase != SessionPhase::Idle
    }

    /// The session after the host's default device was probed outside a start.
    pub open spec fn select_default(self, probe: DeviceProbe) -> (CaptureView, Result<
        (),
        CaptureError,
    >) {
        match probe {
            DeviceProbe::Missing => (self, Err(CaptureError::NoDeviceFound)),
            DeviceProbe::Unavailable(cause) => (self, Err(CaptureError::Device(cause))),
            DeviceProbe::Found(device) => (CaptureView { device: Some(device), ..self }, Ok(())),
        }
    }

    /// The session after a start request, and the answer to the request.
    ///
    /// A session that is not idle rejects the request and stays as it is. An
    /// idle session falls back to the host's default device where none is
    /// selected, then looks at the device's native sample representation. Any
    /// failure leaves it idle. On success the running flag is raised and the
    /// answer is the stream to open.
    pub open spec fn start(
        self,
        default_device: DeviceProbe,
        input_config: Result<SampleFormat, String>,
    ) -> (CaptureView, Result<StreamPlan, CaptureError>) {
        if self.phase != SessionPhase::Idle {
            (self, Err(CaptureError::AlreadyRecording))
        } else {
            let (with_device, selected) = if self.device is Some {
                (self, Ok(()))
            } else {
                self.select_default(default_device)
            };
            match selected {
                Err(e) => (self, Err(e)),
                Ok(_) => match input_config {
                    Err(cause) => (with_device, Err(CaptureError::Device(cause))),
                    Ok(SampleFormat::Other(name)) => (
                        with_device,
                        Err(CaptureError::UnsupportedFormat(name)),
                    ),
                    Ok(format) => (
                        CaptureView { phase: SessionPhase::Starting, ..with_device },
                        Ok(
                            StreamPlan {
                                channels: 1,
                                sample_rate: self.sample_rate,
                                format,
                            },
                        ),
                    ),
                },
            }
        }
    }

    /// The session after the driver reported how opening the stream went.
    ///
    /// The report settles a start that is under way: success makes the session
    /// `Recording`, failure returns it to `Idle`. In any other phase the session
    /// stays as it is. A failure is surfaced in either case.
    pub open spec fn stream_outcome(self, outcome: Result<(), String>) -> (CaptureView, Result<
        (),
        CaptureError,
    >) {
        match outcome {
            Ok(_) => (
                if self.phase == SessionPhase::Starting {
                    CaptureView { phase: SessionPhase::Recording, ..self }
                } else {
                    self
                },
                Ok(()),
            ),
            Err(cause) => (
                if self.phase == SessionPhase::Starting {
                    CaptureView { phase: SessionPhase::Idle, ..self }
                } else {
                    self
                },
                Err(CaptureError::Device(cause)),
            ),
        }
    }

    /// The session after a stop request, and what the driver has to do.
    pub open spec fn stop(self) -> (CaptureView, StopAction) {
        if self.phase == SessionPhase::Idle {
            (self, StopAction::AlreadyIdle)
        } else {
            (
                CaptureView { phase: SessionPhase::Idle, ..self },
                StopAction::Shutdown { release_stream: self.phase == SessionPhase::Recording },
            )
        }
    }
}

/// The names of the devices that could be queried, in the order in which the
/// host listed them.
pub open spec fn named_devices(listed: Seq<Option<String>>) -> Seq<String>
    decreases listed.len(),
{
    if listed.len() == 0 {
        Seq::empty()
    } else {
        let before = named_devices(listed.drop_last());
        match listed.last() {
            Some(name) => before.push(name),
            None => before,
        }
    }
}

/// Stopping a stopped session changes nothing and asks for nothing.
pub proof fn lemma_stop_is_idempotent(session: CaptureView)
    ensures
        session.stop().0.stop() == (session.stop().0, StopAction::AlreadyIdle),
        !session.stop().0.running(),
{
}

/// A session that is not idle rejects a start, whatever the probes say, and
/// stays exactly as it is.
pub proof fn lemma_start_while_running_is_rejected(
    session: CaptureView,
    default_device: DeviceProbe,
    input_config: Result<SampleFormat, String>,
)
    requires
        session.running(),
    ensures
        session.start(default_device, input_config) == (
            session,
            Err::<StreamPlan, CaptureError>(CaptureError::AlreadyRecording),
        ),
{
}

/// A start that fails leaves the session idle; one that succeeds raises the
/// running flag and asks for a mono stream at the session's rate in one of the
/// three representations that can be captured.
pub proof fn lemma_start_outcomes(
    session: CaptureView,
    default_device: DeviceProbe,
    input_config: Result<SampleFormat, String>,
)
    requires
        !session.running(),
    ensures
        ({
            let (next, answer) = session.start(default_device, input_config);
            match answer {
                Ok(plan) => {
                    &&& next.phase == SessionPhase::Starting
                    &&& next.device is Some
                    &&& plan.channels == 1
                    &&& plan.sample_rate == session.sample_rate
                    &&& !(plan.format is Other)
                    &&& input_config == Ok::<SampleFormat, String>(plan.format)
                },
                Err(e) => !next.running() && !(e is AlreadyRecording),
            }
        }),
{
}

/// One recording session.
#[derive(Debug)]
pub struct AudioCapture {
    phase: SessionPhase,
    device: Option<InputDevice>,
    sample_rate: u32,
    chunk_duration_secs: u64,
    output_dir: PathBuf,
}

impl View for AudioCapture {
    type V = CaptureView;

    closed spec fn view(&self) -> CaptureView {
        CaptureView {
            phase: self.phase,
            device: self.device,
            sample_rate: self.sample_rate,
            chunk_duration_secs: self.chunk_duration_secs,
            output_dir: self.output_dir,
        }
    }
}

impl AudioCapture {
    /// An idle session with no device selected.
    pub fn new(sample_rate: u32, chunk_duration_secs: u64, output_dir: PathBuf) -> (session: Result<
        Self,
        CaptureError,
    >)
        ensures
            session matches Ok(s) && s@ == (CaptureView {
                phase: SessionPhase::Idle,
                device: None,
                sample_rate,
                chunk_duration_secs,
                output_dir,
            }),
    {
        Ok(
            AudioCapture {
                phase: SessionPhase::Idle,
                device: None,
                sample_rate,
                chunk_duration_secs,
                output_dir,
            },
        )
    }

    /// Selects the host's default input device, given what the host answered
    /// when asked for it.
    pub fn get_default_device(&mut self, probe: DeviceProbe) -> (selected: Result<(), CaptureError>)
        ensures
            (final(self)@, selected) == old(self)@.select_default(probe),
    {
        match probe {
            DeviceProbe::Missing => Err(CaptureError::NoDeviceFound),
            DeviceProbe::Unavailable(cause) => Err(CaptureError::Device(cause)),
            DeviceProbe::Found(device) => {
                self.device = Some(device);
                Ok(())
            },
        }
    }

    /// The names of the host's input devices, given what the host listed: one
    /// entry per device, holding the device's name where it could be queried.
    /// Devices without a name are left out; a failed listing is surfaced.
    pub fn list_devices(&self, listed: Result<Vec<Option<String>>, String>) -> (names: Result<
        Vec<String>,
        CaptureError,
    >)
        ensures
            match listed {
                Ok(entries) => names matches Ok(found) && found@ == named_devices(entries@),
                Err(cause) => names == Err::<Vec<String>, CaptureError>(
                    CaptureError::Device(cause),
                ),
            },
    {
        match listed {
            Err(cause) => Err(CaptureError::Device(cause)),
            Ok(entries) => {
                let mut found: Vec<String> = Vec::new();
                let mut i: usize = 0;
                while i < entries.len()
                    invariant
                        i <= entries@.len(),
                        found@ == named_devices(entries@.take(i as int)),
                    decreases entries@.len() - i,
                {
                    assert(entries@.take(i + 1).drop_last() =~= entries@.take(i as int));
                    match &entries[i] {
                        Some(name) => {
                            found.push(name.clone());
                        },
                        None => {},
                    }
                    i += 1;
                }
                assert(entries@.take(i as int) =~= entries@);
                Ok(found)
            },
        }
    }

    /// Answers a start request, given what the host answered for its default
    /// input device and what the device in use reported as its native input
    /// configuration. The default device is consulted only where none is
    /// selected yet.
    pub fn start_recording(
        &mut self,
        default_device: DeviceProbe,
        input_config: Result<SampleFormat, String>,
    ) -> (answer: Result<StreamPlan, CaptureError>)
        ensures
            (final(self)@, answer) == old(self)@.start(default_device, input_config),
    {
        if !matches!(self.phase, SessionPhase::Idle) {
            return Err(CaptureError::AlreadyRecording);
        }
        let chosen: Option<InputDevice> = if self.device.is_some() {
            None
        } else {
            match default_device {
                DeviceProbe::Missing => {
                    return Err(CaptureError::NoDeviceFound);
                },
                DeviceProbe::Unavailable(cause) => {
                    return Err(CaptureError::Device(cause));
                },
                DeviceProbe::Found(device) => Some(device),
            }
        };
        if chosen.is_some() {
            self.device = chosen;
        }
        match input_config {
            Err(cause) => Err(CaptureError::Device(cause)),
            Ok(SampleFormat::Other(name)) => Err(CaptureError::UnsupportedFormat(name)),
            Ok(format) => {
                self.phase = SessionPhase::Starting;
                Ok(
                    StreamPlan {
                        channels: CAPTURE_CHANNELS,
                        sample_rate: self.sample_rate,
                        format,
                    },
                )
            },
        }
    }

    /// Takes the driver's report on opening the stream.
    pub fn stream_opened(&mut self, outcome: Result<(), String>) -> (settled: Result<
        (),
        CaptureError,
    >)
        ensures
            (final(self)@, settled) == old(self)@.stream_outcome(outcome),
    {
        match outcome {
            Ok(_) => {
                if matches!(self.phase, SessionPhase::Starting) {
                    self.phase = SessionPhase::Recording;
                }
                Ok(())
            },
            Err(cause) => {
                if matches!(self.phase, SessionPhase::Starting) {
                    self.phase = SessionPhase::Idle;
                }
                Err(CaptureError::Device(cause))
            },
        }
    }

    /// Answers a stop request. Stopping an idle session is a successful no-op.
    pub fn stop_recording(&mut self) -> (action: Result<StopAction, CaptureError>)
        ensures
            action matches Ok(a) && (final(self)@, a) == old(self)@.stop(),
    {
        match self.phase {
            SessionPhase::Idle => Ok(StopAction::AlreadyIdle),
            SessionPhase::Starting => {
                self.phase = SessionPhase::Idle;
                Ok(StopAction::Shutdown { release_stream: false })
            },
            SessionPhase::Recording => {
                self.phase = SessionPhase::Idle;
                Ok(StopAction::Shutdown { release_stream: true })
            },
        }
    }

    /// Whether the running flag is raised.
    pub fn is_recording(&self) -> (running: bool)
        ensures
            running == self@.running(),
    {
        !matches!(self.phase, SessionPhase::Idle)
    }

    /// Where the session stands.
    pub fn phase(&self) -> (phase: SessionPhase)
        ensures
            phase == self@.phase,
    {
        self.phase
    }

    /// The selected input device, if any.
    pub fn device(&self) -> (device: &Option<InputDevice>)
        ensures
            *device == self@.device,
    {
        &self.device
    }

    /// The capture rate, in samples per second.
    pub fn sample_rate(&self) -> (rate: u32)
        ensures
            rate == self@.sample_rate,
    {
        self.sample_rate
    }

    /// The duration of a full chunk, in seconds.
    pub fn chunk_duration_secs(&self) -> (secs: u64)
        ensures
            secs == self@.chunk_duration_secs,
    {
        self.chunk_duration_secs
    }

    /// The directory that receives the chunk artifacts.
    pub fn output_dir(&self) -> (dir: &PathBuf)
        ensures
            *dir == self@.output_dir,
    {
        &self.output_dir
    }

    /// A fresh chunk assembler for this session's rate and chunk duration.
    pub fn assembler(&self) -> (assembler: ChunkAssembler)
        ensures
            assembler@ == AssemblerView::fresh(self@.sample_rate, self@.chunk_duration_secs),
    {
        ChunkAssembler::new(self.sample_rate, self.chunk_duration_secs)
    }
}

} // verus!
