use audio_assistant::audio_capture::{
    AudioCapture, CaptureError, DeviceProbe, InputDevice, SampleFormat, StopAction,
};
use audio_assistant::chunk::{Chunk, ChunkAssembler, ChunkKind};
use audio_assistant::sink::SampleSink;
use std::path::PathBuf;

/// The pipeline as its driver runs it, on one thread.
struct Rig {
    session: AudioCapture,
    sink: SampleSink<f32>,
    assembler: ChunkAssembler,
    clock: u64,
    artifacts: Vec<Chunk<f32>>,
}

impl Rig {
    fn new(sample_rate: u32, chunk_duration_secs: u64) -> Rig {
        let session =
            AudioCapture::new(sample_rate, chunk_duration_secs, PathBuf::from("out")).unwrap();
        // Before the first session there is no assembler at work.
        let mut assembler = session.assembler();
        let mut sink = SampleSink::new();
        assert!(assembler.flush(&mut sink, 0).is_none());
        Rig { session, sink, assembler, clock: 1_700_000_000, artifacts: vec![] }
    }

    fn start(&mut self) -> Result<(), CaptureError> {
        let probe = DeviceProbe::Found(InputDevice { name: String::from("mic") });
        self.session.start_recording(probe, Ok(SampleFormat::F32))?;
        self.session.stream_opened(Ok(()))?;
        self.sink = SampleSink::new();
        self.assembler = self.session.assembler();
        Ok(())
    }

    /// The capture callback: it runs as long as the stream is open.
    fn feed(&mut self, batch: &[f32]) {
        if self.session.is_recording() {
            self.sink.extend(batch);
        }
    }

    /// One turn of the assembler's loop: a wake while the running flag is up,
    /// the final flush once it is down.
    fn wake(&mut self) {
        self.clock += 1;
        let chunk = if self.session.is_recording() {
            self.assembler.poll(&mut self.sink, self.clock)
        } else {
            self.assembler.flush(&mut self.sink, self.clock)
        };
        self.artifacts.extend(chunk);
    }

    /// A stop request, followed by the assembler's next turn.
    fn stop(&mut self) {
        match self.session.stop_recording().unwrap() {
            StopAction::AlreadyIdle => {}
            StopAction::Shutdown { .. } => {}
        }
        self.wake();
    }

    fn emitted(&self) -> Vec<f32> {
        self.artifacts.iter().flat_map(|c| c.samples.iter().copied()).collect()
    }
}

fn ramp(n: usize) -> Vec<f32> {
    (0..n).map(|i| (i % 2000) as f32 / 2000.0 - 0.5).collect()
}

#[test]
fn no_sample_loss() {
    let stream = ramp(100_000);
    let mut rig = Rig::new(16000, 2);
    rig.start().unwrap();
    let mut fed = 0;
    let mut batch = 1;
    while fed < stream.len() {
        let end = (fed + batch).min(stream.len());
        rig.feed(&stream[fed..end]);
        fed = end;
        batch = (batch * 7 + 3) % 5000 + 1;
        if batch % 3 == 0 {
            rig.wake();
        }
    }
    rig.stop();
    assert_eq!(rig.emitted(), stream);
    assert!(rig.sink.is_empty());
    assert_eq!(rig.artifacts.len(), 4);
    assert_eq!(rig.artifacts.last().unwrap().kind, ChunkKind::Final);
    assert_eq!(rig.artifacts.last().unwrap().samples.len(), 100_000 - 3 * 32000);
}

#[test]
fn fifo_chunking() {
    let stream: Vec<f32> = (0..10_000).map(|i| i as f32).collect();
    let mut rig = Rig::new(1000, 1);
    rig.start().unwrap();
    for piece in stream.chunks(333) {
        rig.feed(piece);
        rig.wake();
    }
    rig.stop();
    let mut expected_next = 0.0_f32;
    for chunk in &rig.artifacts {
        for sample in &chunk.samples {
            assert_eq!(*sample, expected_next);
            expected_next += 1.0;
        }
    }
    assert_eq!(expected_next, 10_000.0);
    for chunk in &rig.artifacts[..rig.artifacts.len() - 1] {
        assert_eq!(chunk.kind, ChunkKind::Threshold);
        assert_eq!(chunk.samples.len(), 1000);
    }
}

#[test]
fn threshold_correctness() {
    let stream = ramp(32_000);
    let mut rig = Rig::new(16000, 2);
    rig.start().unwrap();
    rig.feed(&stream);
    rig.wake();
    rig.wake();
    rig.wake();
    assert!(rig.session.is_recording());
    assert_eq!(rig.artifacts.len(), 1);
    assert_eq!(rig.artifacts[0].kind, ChunkKind::Threshold);
    assert_eq!(rig.artifacts[0].samples, stream);
    assert!(rig.sink.is_empty());
}

#[test]
fn one_sample_short_of_the_threshold_cuts_nothing() {
    let mut rig = Rig::new(16000, 2);
    rig.start().unwrap();
    rig.feed(&ramp(31_999));
    rig.wake();
    assert!(rig.artifacts.is_empty());
    rig.feed(&[0.25]);
    rig.wake();
    assert_eq!(rig.artifacts.len(), 1);
    assert_eq!(rig.artifacts[0].samples.len(), 32_000);
}

#[test]
fn drain_after_stop() {
    let stream = ramp(5_000);
    let mut rig = Rig::new(16000, 2);
    rig.start().unwrap();
    rig.feed(&stream);
    rig.wake();
    rig.stop();
    assert_eq!(rig.artifacts.len(), 1);
    assert_eq!(rig.artifacts[0].kind, ChunkKind::Final);
    assert_eq!(rig.artifacts[0].samples, stream);
    assert_eq!(
        rig.artifacts.iter().filter(|c| c.kind == ChunkKind::Threshold).count(),
        0
    );
    assert!(rig.artifacts[0].file_name().ends_with("_final.wav"));
}

#[test]
fn samples_between_the_stop_request_and_the_flush_are_kept() {
    let mut rig = Rig::new(16000, 2);
    rig.start().unwrap();
    rig.feed(&ramp(100));
    // The flag goes down, but the stream is still open for a moment.
    rig.session.stop_recording().unwrap();
    rig.sink.extend(&ramp(7));
    rig.wake();
    assert_eq!(rig.artifacts.len(), 1);
    assert_eq!(rig.artifacts[0].kind, ChunkKind::Final);
    let mut expected = ramp(100);
    expected.extend(ramp(7));
    assert_eq!(rig.artifacts[0].samples, expected);
    // What arrives after the final flush belongs to no session.
    rig.sink.extend(&ramp(3));
    rig.wake();
    rig.wake();
    assert_eq!(rig.artifacts.len(), 1);
}

#[test]
fn a_new_session_starts_with_an_empty_record() {
    let mut rig = Rig::new(10, 1);
    rig.start().unwrap();
    rig.feed(&ramp(25));
    rig.wake();
    rig.stop();
    assert_eq!(rig.emitted(), ramp(25));
    rig.artifacts.clear();
    rig.start().unwrap();
    rig.feed(&ramp(4));
    rig.stop();
    assert_eq!(rig.emitted(), ramp(4));
    assert_eq!(rig.artifacts.len(), 1);
}

#[test]
fn stop_without_samples_produces_no_artifact() {
    let mut rig = Rig::new(16000, 2);
    rig.start().unwrap();
    rig.wake();
    rig.stop();
    assert!(rig.artifacts.is_empty());
    assert!(!rig.session.is_recording());
}

#[test]
fn stopping_twice_produces_one_final_artifact() {
    let mut rig = Rig::new(16000, 2);
    rig.start().unwrap();
    rig.feed(&ramp(10));
    rig.stop();
    let after_first = (rig.artifacts.len(), rig.sink.len(), rig.session.is_recording());
    rig.stop();
    let after_second = (rig.artifacts.len(), rig.sink.len(), rig.session.is_recording());
    assert_eq!(after_first, (1, 0, false));
    assert_eq!(after_second, after_first);
    assert!(rig.assembler.flush(&mut rig.sink, rig.clock).is_none());
}

#[test]
fn double_start_leaves_the_running_session_untouched() {
    let mut rig = Rig::new(16000, 2);
    rig.start().unwrap();
    rig.feed(&ramp(100));
    assert_eq!(rig.start(), Err(CaptureError::AlreadyRecording));
    assert!(rig.session.is_recording());
    assert_eq!(rig.sink.len(), 100);
    rig.stop();
    assert_eq!(rig.emitted(), ramp(100));
}

#[test]
fn samples_outside_a_session_are_not_captured() {
    let mut rig = Rig::new(16000, 2);
    rig.feed(&ramp(10));
    rig.wake();
    rig.stop();
    assert!(rig.artifacts.is_empty());
    assert!(rig.sink.is_empty());
}

#[test]
fn artifact_names_of_a_session_are_distinct() {
    let mut rig = Rig::new(10, 1);
    rig.start().unwrap();
    rig.clock = 500;
    for _ in 0..20 {
        rig.feed(&ramp(10));
        rig.clock -= 1;
        rig.wake();
    }
    rig.feed(&ramp(3));
    rig.stop();
    let mut names: Vec<String> = rig.artifacts.iter().map(|c| c.file_name()).collect();
    assert_eq!(names.len(), 21);
    assert_eq!(names[0], "chunk_500.wav");
    assert_eq!(names[1], "chunk_501.wav");
    assert_eq!(names[20], "chunk_520_final.wav");
    assert_eq!(rig.artifacts[20].kind, ChunkKind::Final);
    names.sort();
    names.dedup();
    assert_eq!(names.len(), 21);
}
