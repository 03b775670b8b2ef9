//! The capture pipeline as a whole: session, sink and assembler together.
//!
//! The three components are driven from different threads, but every step that
//! touches the sink happens under its lock, so a run of the pipeline is a
//! sequence of events, one at a time. This module models such a run and states
//! what holds of every run: no sample is lost or duplicated between capture
//! and the artifacts, chunks come out in capture order, and the final flush
//! happens once.
//!
//! Nothing here is executable. Each step of the model is written with the
//! same spec functions that the contracts of the session, the sink and the
//! assembler use, so what is proved of the model is proved of them.

use crate::audio_capture::{CaptureView, DeviceProbe, SampleFormat};
use crate::chunk::{chunk_file_name, lemma_chunk_file_name_injective, AssemblerView, ChunkKind,
    ChunkView};
use vstd::prelude::*;

verus! {

/// One thing that happens to the pipeline.
pub enum PipelineEvent<T> {
    /// A start request, with the device probes that came with it.
    Start { default_device: DeviceProbe, input_config: Result<SampleFormat, String> },
    /// The driver's report on opening the stream.
    StreamOpened { outcome: Result<(), String> },
    /// The capture callback delivers a batch of samples.
    Samples(Seq<T>),
    /// The assembler wakes, with the clock reading.
    Wake { now: u64 },
    /// A stop request.
    Stop,
    /// The assembler has seen the running flag lowered and does its final
    /// flush, with the clock reading.
    Flush { now: u64 },
}

/// The pipeline at one moment, together with the record of the current
/// session: everything captured since it started and every chunk cut since.
pub struct Pipeline<T> {
    /// The recording session.
    pub session: CaptureView,
    /// The chunk assembler of the session. Before the first session it is one
    /// that has terminated.
    pub assembler: AssemblerView,
    /// What the sink holds, oldest first.
    pub sink: Seq<T>,
    /// The chunks cut since the session started, in the order they were cut.
    pub chunks: Seq<ChunkView<T>>,
    /// Every sample that entered the sink since the session started, in order
    /// of arrival.
    pub captured: Seq<T>,
}

/// The samples of a run of chunks, laid end to end.
pub open spec fn concat_chunks<T>(chunks: Seq<ChunkView<T>>) -> Seq<T>
    decreases chunks.len(),
{
    if chunks.len() == 0 {
        Seq::empty()
    } else {
        concat_chunks(chunks.drop_last()) + chunks.last().samples
    }
}

/// Where in the captured stream chunk number `k` begins: the number of samples
/// in the chunks before it.
pub open spec fn chunk_offset<T>(chunks: Seq<ChunkView<T>>, k: int) -> nat {
    concat_chunks(chunks.take(k)).len()
}

/// The samples that a run of events delivers, laid end to end.
pub open spec fn delivered<T>(events: Seq<PipelineEvent<T>>) -> Seq<T>
    decreases events.len(),
{
    if events.len() == 0 {
        Seq::empty()
    } else {
        let before = delivered(events.drop_last());
        match events.last() {
            PipelineEvent::Samples(batch) => before + batch,
            _ => before,
        }
    }
}

/// Whether an event can fall between the start of a session and the final
/// flush of its assembler: anything but another start and the flush itself.
pub open spec fn within_session<T>(event: PipelineEvent<T>) -> bool {
    !(event is Start) && !(event is Flush)
}

/// Whether an event belongs to the steady part of a session: a batch of
/// samples or a wake of the assembler.
pub open spec fn is_steady<T>(event: PipelineEvent<T>) -> bool {
    event is Samples || event is Wake
}

/// The chunks with one more, if one was cut.
pub open spec fn with_cut<T>(chunks: Seq<ChunkView<T>>, cut: Option<ChunkView<T>>) -> Seq<
    ChunkView<T>,
> {
    match cut {
        Some(chunk) => chunks.push(chunk),
        None => chunks,
    }
}

impl<T> Pipeline<T> {
    /// A pipeline around an idle session, with no assembler alive, an empty
    /// sink and no record.
    pub open spec fn idle(session: CaptureView) -> Pipeline<T> {
        Pipeline {
            session,
            assembler: AssemblerView {
                finished: true,
                ..AssemblerView::fresh(session.sample_rate, session.chunk_duration_secs)
            },
            sink: Seq::empty(),
            chunks: Seq::empty(),
            captured: Seq::empty(),
        }
    }

    /// The pipeline after one event.
    ///
    /// - An accepted start begins a new session with a fresh sink, a fresh
    ///   assembler and an empty record. A rejected or failed start changes at
    ///   most the session.
    /// - A batch of samples enters the sink, whoever is there to drain it.
    /// - A wake lets the assembler cut a threshold chunk.
    /// - A stop request lowers the running flag, and so does a stream that
    ///   failed to open.
    /// - The final flush happens once the running flag is lowered.
    pub open spec fn step(self, event: PipelineEvent<T>) -> Pipeline<T> {
        match event {
            PipelineEvent::Start { default_device, input_config } => {
                let (session, answer) = self.session.start(default_device, input_config);
                if answer is Ok {
                    Pipeline {
                        session,
                        assembler: AssemblerView::fresh(
                            session.sample_rate,
                            session.chunk_duration_secs,
                        ),
                        sink: Seq::empty(),
                        chunks: Seq::empty(),
                        captured: Seq::empty(),
                    }
                } else {
                    Pipeline { session, ..self }
                }
            },
            PipelineEvent::StreamOpened { outcome } => Pipeline {
                session: self.session.stream_outcome(outcome).0,
                ..self
            },
            PipelineEvent::Samples(batch) => Pipeline {
                sink: self.sink + batch,
                captured: self.captured + batch,
                ..self
            },
            PipelineEvent::Wake { now } => {
                let (assembler, sink, cut) = self.assembler.poll(self.sink, now);
                Pipeline { assembler, sink, chunks: with_cut(self.chunks, cut), ..self }
            },
            PipelineEvent::Stop => Pipeline { session: self.session.stop().0, ..self },
            PipelineEvent::Flush { now } => {
                if self.session.running() {
                    self
                } else {
                    let (assembler, sink, cut) = self.assembler.flush(self.sink, now);
                    Pipeline { assembler, sink, chunks: with_cut(self.chunks, cut), ..self }
                }
            },
        }
    }

    /// The pipeline after a run of events, first to last.
    pub open spec fn run(self, events: Seq<PipelineEvent<T>>) -> Pipeline<T>
        decreases events.len(),
    {
        if events.len() == 0 {
            self
        } else {
            self.run(events.drop_last()).step(events.last())
        }
    }

    /// What holds of the pipeline at every moment.
    ///
    /// - The chunks cut so far, laid end to end and followed by what the sink
    ///   holds, are exactly the captured stream.
    /// - While the session runs its assembler is alive.
    /// - Only the last chunk can be a final one, and only once the assembler
    ///   has terminated.
    /// - The stamp on record is that of the last chunk, and stamps never
    ///   decrease along the chunks; they increase as long as there is room.
    pub open spec fn consistent(self) -> bool {
        &&& concat_chunks(self.chunks) + self.sink == self.captured
        &&& self.session.running() ==> !self.assembler.finished
        &&& self.assembler.sample_rate == self.session.sample_rate
        &&& self.assembler.chunk_duration_secs == self.session.chunk_duration_secs
        &&& forall|i: int|
            0 <= i < self.chunks.len() && (#[trigger] self.chunks[i]).kind == ChunkKind::Final
                ==> i == self.chunks.len() - 1 && self.assembler.finished
        &&& self.assembler.last_stamp == if self.chunks.len() > 0 {
            Some(self.chunks.last().stamp)
        } else {
            None
        }
        &&& forall|i: int, j: int|
            0 <= i < j < self.chunks.len() ==> {
                &&& (#[trigger] self.chunks[i]).stamp <= (#[trigger] self.chunks[j]).stamp
                &&& self.chunks[i].stamp < u64::MAX ==> self.chunks[i].stamp < self.chunks[j].stamp
            }
    }
}

/// Whether chunks number `i` and `j` lie in capture order: each is one unbroken
/// stretch of the captured stream, and the stretch of chunk `i` ends before
/// the stretch of chunk `j` begins.
pub open spec fn in_capture_order<T>(pipeline: Pipeline<T>, i: int, j: int) -> bool {
    let from_i = chunk_offset(pipeline.chunks, i) as int;
    let from_j = chunk_offset(pipeline.chunks, j) as int;
    let len_i = pipeline.chunks[i].samples.len() as int;
    let len_j = pipeline.chunks[j].samples.len() as int;
    &&& from_i + len_i <= from_j
    &&& from_j + len_j <= pipeline.captured.len()
    &&& pipeline.chunks[i].samples == pipeline.captured.subrange(from_i, from_i + len_i)
    &&& pipeline.chunks[j].samples == pipeline.captured.subrange(from_j, from_j + len_j)
}

/// Laying chunks end to end, one chunk more adds that chunk's samples.
pub proof fn lemma_concat_push<T>(chunks: Seq<ChunkView<T>>, chunk: ChunkView<T>)
    ensures
        concat_chunks(chunks.push(chunk)) == concat_chunks(chunks) + chunk.samples,
{
    assert(chunks.push(chunk).drop_last() =~= chunks);
}

/// The first `k` chunks laid end to end are the beginning of all chunks laid
/// end to end.
pub proof fn lemma_concat_prefix<T>(chunks: Seq<ChunkView<T>>, k: int)
    requires
        0 <= k <= chunks.len(),
    ensures
        chunk_offset(chunks, k) <= concat_chunks(chunks).len(),
        concat_chunks(chunks).take(chunk_offset(chunks, k) as int) == concat_chunks(chunks.take(k)),
    decreases chunks.len(),
{
    if k == chunks.len() {
        assert(chunks.take(k) =~= chunks);
    } else {
        lemma_concat_prefix(chunks.drop_last(), k);
        assert(chunks.drop_last().take(k) =~= chunks.take(k));
    }
}

/// A chunk begins where the one before it ends.
pub proof fn lemma_chunk_offset_next<T>(chunks: Seq<ChunkView<T>>, k: int)
    requires
        0 <= k < chunks.len(),
    ensures
        chunk_offset(chunks, k + 1) == chunk_offset(chunks, k) + chunks[k].samples.len(),
        concat_chunks(chunks.take(k + 1)) == concat_chunks(chunks.take(k)) + chunks[k].samples,
{
    assert(chunks.take(k + 1).drop_last() =~= chunks.take(k));
}

/// Later chunks begin later.
pub proof fn lemma_chunk_offset_monotone<T>(chunks: Seq<ChunkView<T>>, i: int, j: int)
    requires
        0 <= i <= j <= chunks.len(),
    ensures
        chunk_offset(chunks, i) <= chunk_offset(chunks, j),
    decreases j - i,
{
    if i < j {
        lemma_chunk_offset_monotone(chunks, i, j - 1);
        lemma_chunk_offset_next(chunks, j - 1);
    }
}

/// A chunk that the assembler cut takes its place behind the chunks already
/// cut, and the pipeline stays consistent.
proof fn lemma_cut_keeps_consistent<T>(before: Pipeline<T>, after: Pipeline<T>, now: u64)
    requires
        before.consistent(),
        after.session == before.session,
        after.captured == before.captured,
        !before.assembler.finished,
        ({
            ||| (after.assembler, after.sink, after.chunks) == ({
                let (assembler, sink, cut) = before.assembler.poll(before.sink, now);
                (assembler, sink, with_cut(before.chunks, cut))
            })
            ||| !before.session.running() && (after.assembler, after.sink, after.chunks) == ({
                let (assembler, sink, cut) = before.assembler.flush(before.sink, now);
                (assembler, sink, with_cut(before.chunks, cut))
            })
        }),
    ensures
        after.consistent(),
{
    if after.chunks.len() > before.chunks.len() {
        let chunk = after.chunks.last();
        assert(after.chunks =~= before.chunks.push(chunk));
        lemma_concat_push(before.chunks, chunk);
        assert(concat_chunks(after.chunks) + after.sink =~= concat_chunks(before.chunks)
            + before.sink);
        // The new stamp is at least the last one on record, which is at least
        // every stamp before it.
        assert forall|i: int, j: int| 0 <= i < j < after.chunks.len() implies {
            &&& (#[trigger] after.chunks[i]).stamp <= (#[trigger] after.chunks[j]).stamp
            &&& after.chunks[i].stamp < u64::MAX ==> after.chunks[i].stamp < after.chunks[j].stamp
        } by {
            if j == before.chunks.len() && i < j - 1 {
                assert(before.chunks[i].stamp <= before.chunks[j - 1].stamp);
            }
        }
        assert forall|i: int|
            0 <= i < after.chunks.len() && (#[trigger] after.chunks[i]).kind
                == ChunkKind::Final implies i == after.chunks.len() - 1
            && after.assembler.finished by {
            if i < before.chunks.len() {
                assert(after.chunks[i] == before.chunks[i]);
            }
        }
    } else {
        assert(after.chunks =~= before.chunks);
        assert(concat_chunks(after.chunks) + after.sink =~= concat_chunks(before.chunks)
            + before.sink);
    }
}

/// Every step keeps the pipeline consistent.
pub proof fn lemma_step_keeps_consistent<T>(before: Pipeline<T>, event: PipelineEvent<T>)
    requires
        before.consistent(),
    ensures
        before.step(event).consistent(),
{
    let after = before.step(event);
    match event {
        PipelineEvent::Start { .. } => {},
        PipelineEvent::StreamOpened { .. } => {},
        PipelineEvent::Samples(batch) => {
            assert(concat_chunks(before.chunks) + (before.sink + batch) =~= (concat_chunks(
                before.chunks,
            ) + before.sink) + batch);
        },
        PipelineEvent::Wake { now } => {
            if !before.assembler.finished {
                lemma_cut_keeps_consistent(before, after, now);
            }
        },
        PipelineEvent::Stop => {},
        PipelineEvent::Flush { now } => {
            if !before.session.running() && !before.assembler.finished {
                lemma_cut_keeps_consistent(before, after, now);
            }
        },
    }
}

/// Every run that begins in a consistent pipeline ends in one.
pub proof fn lemma_run_keeps_consistent<T>(start: Pipeline<T>, events: Seq<PipelineEvent<T>>)
    requires
        start.consistent(),
    ensures
        start.run(events).consistent(),
    decreases events.len(),
{
    if events.len() > 0 {
        lemma_run_keeps_consistent(start, events.drop_last());
        lemma_step_keeps_consistent(start.run(events.drop_last()), events.last());
    }
}

/// An idle pipeline with an empty record is consistent.
pub proof fn lemma_idle_is_consistent<T>(session: CaptureView)
    requires
        !session.running(),
    ensures
        Pipeline::<T>::idle(session).consistent(),
{
}

/// Whatever happens to a pipeline that began idle, it is consistent
/// afterwards: nothing captured is missing from the chunks and the sink, and
/// nothing is there twice.
pub proof fn lemma_every_run_is_consistent<T>(
    session: CaptureView,
    events: Seq<PipelineEvent<T>>,
)
    requires
        !session.running(),
    ensures
        Pipeline::<T>::idle(session).run(events).consistent(),
{
    lemma_idle_is_consistent::<T>(session);
    lemma_run_keeps_consistent(Pipeline::<T>::idle(session), events);
}

/// Between the start of a session and the final flush, the assembler stays
/// alive and exactly the delivered samples join the captured stream, in the
/// order of delivery.
pub proof fn lemma_session_captures_what_is_delivered<T>(
    start: Pipeline<T>,
    body: Seq<PipelineEvent<T>>,
)
    requires
        !start.assembler.finished,
        forall|i: int| 0 <= i < body.len() ==> within_session(#[trigger] body[i]),
    ensures
        !start.run(body).assembler.finished,
        start.run(body).captured == start.captured + delivered(body),
    decreases body.len(),
{
    if body.len() > 0 {
        let front = body.drop_last();
        assert forall|i: int| 0 <= i < front.len() implies within_session(#[trigger] front[i]) by {
            assert(front[i] == body[i]);
        }
        lemma_session_captures_what_is_delivered(start, front);
        assert(within_session(body[body.len() - 1]));
        if body.last() is Samples {
            assert(start.run(body).captured =~= start.captured + delivered(body));
        }
    } else {
        assert(start.captured + delivered(body) =~= start.captured);
    }
}

/// While a session runs, batches and wakes leave the session alone.
pub proof fn lemma_steady_run<T>(start: Pipeline<T>, body: Seq<PipelineEvent<T>>)
    requires
        forall|i: int| 0 <= i < body.len() ==> is_steady(#[trigger] body[i]),
    ensures
        start.run(body).session == start.session,
    decreases body.len(),
{
    if body.len() > 0 {
        let front = body.drop_last();
        assert forall|i: int| 0 <= i < front.len() implies is_steady(#[trigger] front[i]) by {
            assert(front[i] == body[i]);
        }
        lemma_steady_run(start, front);
        assert(is_steady(body[body.len() - 1]));
    }
}

/// No sample loss. Take a consistent pipeline whose assembler is alive. Let
/// the capture callback deliver any batches, the assembler wake any number of
/// times, stop requests and stream reports come in, in any interleaving. Once
/// the running flag is lowered, let the assembler do its final flush. The
/// chunks of the session, laid end to end in the order they were cut, are then
/// exactly what had been captured before, followed by every delivered sample
/// in order of delivery, the final partial chunk included. The sink is empty
/// and the assembler has terminated.
pub proof fn lemma_no_sample_loss<T>(
    start: Pipeline<T>,
    body: Seq<PipelineEvent<T>>,
    flushed_at: u64,
)
    requires
        start.consistent(),
        !start.assembler.finished,
        forall|i: int| 0 <= i < body.len() ==> within_session(#[trigger] body[i]),
        !start.run(body).session.running(),
    ensures
        ({
            let end = start.run(body).step(PipelineEvent::Flush { now: flushed_at });
            &&& concat_chunks(end.chunks) == start.captured + delivered(body)
            &&& end.sink.len() == 0
            &&& end.assembler.finished
        }),
{
    lemma_session_captures_what_is_delivered(start, body);
    lemma_run_keeps_consistent(start, body);
    let end = start.run(body).step(PipelineEvent::Flush { now: flushed_at });
    lemma_step_keeps_consistent(start.run(body), PipelineEvent::Flush { now: flushed_at });
    assert(concat_chunks(end.chunks) + end.sink =~= concat_chunks(end.chunks));
}

/// No sample loss, for a whole session. From an accepted start, through any
/// interleaving of delivered batches and wakes, to the stop request and the
/// final flush: the chunks laid end to end are exactly the delivered samples.
pub proof fn lemma_session_keeps_every_sample<T>(
    session: CaptureView,
    default_device: DeviceProbe,
    input_config: Result<SampleFormat, String>,
    body: Seq<PipelineEvent<T>>,
    flushed_at: u64,
)
    requires
        !session.running(),
        session.start(default_device, input_config).1 is Ok,
        forall|i: int| 0 <= i < body.len() ==> is_steady(#[trigger] body[i]),
    ensures
        ({
            let started = Pipeline::<T>::idle(session).step(
                PipelineEvent::Start { default_device, input_config },
            );
            let end = started.run(body).step(PipelineEvent::Stop).step(
                PipelineEvent::Flush { now: flushed_at },
            );
            &&& started.session.running()
            &&& started.run(body).session.running()
            &&& concat_chunks(end.chunks) == delivered(body)
            &&& end.sink.len() == 0
            &&& !end.session.running()
            &&& end.assembler.finished
        }),
{
    lemma_idle_is_consistent::<T>(session);
    let start_event = PipelineEvent::<T>::Start { default_device, input_config };
    let started = Pipeline::<T>::idle(session).step(start_event);
    lemma_step_keeps_consistent(Pipeline::<T>::idle(session), start_event);
    lemma_steady_run(started, body);
    let whole = body.push(PipelineEvent::Stop);
    assert(whole.drop_last() =~= body);
    assert forall|i: int| 0 <= i < whole.len() implies within_session(#[trigger] whole[i]) by {
        if i < body.len() {
            assert(is_steady(body[i]));
        }
    }
    lemma_no_sample_loss(started, whole, flushed_at);
    assert(started.captured + delivered(whole) =~= delivered(body));
}

/// In a consistent pipeline chunk number `k` is the stretch of the captured
/// stream that begins at its offset.
pub proof fn lemma_chunk_is_a_stretch<T>(pipeline: Pipeline<T>, k: int)
    requires
        pipeline.consistent(),
        0 <= k < pipeline.chunks.len(),
    ensures
        chunk_offset(pipeline.chunks, k) + pipeline.chunks[k].samples.len()
            <= pipeline.captured.len(),
        pipeline.chunks[k].samples == pipeline.captured.subrange(
            chunk_offset(pipeline.chunks, k) as int,
            (chunk_offset(pipeline.chunks, k) + pipeline.chunks[k].samples.len()) as int,
        ),
{
    let chunks = pipeline.chunks;
    let whole = concat_chunks(chunks);
    let from = chunk_offset(chunks, k) as int;
    let to = chunk_offset(chunks, k + 1) as int;
    lemma_chunk_offset_next(chunks, k);
    lemma_concat_prefix(chunks, k + 1);
    assert(chunks[k].samples =~= pipeline.captured.subrange(from, to)) by {
        assert forall|a: int| 0 <= a < chunks[k].samples.len() implies chunks[k].samples[a]
            == pipeline.captured.subrange(from, to)[a] by {
            assert(whole.take(to)[from + a] == chunks[k].samples[a]);
        }
    }
}

/// First in, first out. In a consistent pipeline every chunk is one unbroken
/// stretch of the captured stream, and the stretch of an earlier chunk ends
/// before the stretch of a later chunk begins. So no chunk holds a sample that
/// was captured after a sample of a later chunk.
pub proof fn lemma_fifo_chunking<T>(pipeline: Pipeline<T>, i: int, j: int)
    requires
        pipeline.consistent(),
        0 <= i < j < pipeline.chunks.len(),
    ensures
        in_capture_order(pipeline, i, j),
{
    lemma_chunk_is_a_stretch(pipeline, i);
    lemma_chunk_is_a_stretch(pipeline, j);
    lemma_chunk_offset_next(pipeline.chunks, i);
    lemma_chunk_offset_monotone(pipeline.chunks, i + 1, j);
}

/// First in, first out, in every run. Whatever happens to a pipeline that
/// began idle, any two of the chunks it has cut lie in capture order.
pub proof fn lemma_fifo_in_every_run<T>(
    session: CaptureView,
    events: Seq<PipelineEvent<T>>,
    i: int,
    j: int,
)
    requires
        !session.running(),
        0 <= i < j < Pipeline::<T>::idle(session).run(events).chunks.len(),
    ensures
        in_capture_order(Pipeline::<T>::idle(session).run(events), i, j),
{
    lemma_every_run_is_consistent(session, events);
    lemma_fifo_chunking(Pipeline::<T>::idle(session).run(events), i, j);
}

/// Stopping twice is stopping once: the second stop request changes nothing.
pub proof fn lemma_stop_twice_is_stop_once<T>(pipeline: Pipeline<T>)
    ensures
        pipeline.step(PipelineEvent::Stop).step(PipelineEvent::Stop) == pipeline.step(
            PipelineEvent::Stop,
        ),
{
}

/// The final flush happens once. After it the assembler has terminated: a
/// later wake or flush cuts nothing, whatever the clock reads and whatever was
/// delivered in between; what was delivered late stays in the sink. So a
/// session never has two final chunks.
pub proof fn lemma_flush_happens_once<T>(
    pipeline: Pipeline<T>,
    first: u64,
    late: Seq<T>,
    woken: u64,
    second: u64,
)
    requires
        !pipeline.session.running(),
    ensures
        ({
            let once = pipeline.step(PipelineEvent::Flush { now: first });
            let again = once.step(PipelineEvent::Samples(late)).step(
                PipelineEvent::Wake { now: woken },
            ).step(PipelineEvent::Flush { now: second });
            &&& once.assembler.finished
            &&& again.chunks == once.chunks
            &&& again.assembler == once.assembler
            &&& again.session == once.session
            &&& again.sink == once.sink + late
        }),
{
}

/// Stopping and flushing twice leaves the pipeline where stopping and flushing
/// once left it: same session, same sink, same chunks.
pub proof fn lemma_stop_and_flush_twice_is_once<T>(pipeline: Pipeline<T>, first: u64, second: u64)
    ensures
        ({
            let once = pipeline.step(PipelineEvent::Stop).step(PipelineEvent::Flush { now: first });
            once.step(PipelineEvent::Stop).step(PipelineEvent::Flush { now: second }) == once
        }),
{
}

/// A start request to a running pipeline is rejected and changes nothing: not
/// the session, not the sink, not the record.
pub proof fn lemma_double_start_changes_nothing<T>(
    pipeline: Pipeline<T>,
    default_device: DeviceProbe,
    input_config: Result<SampleFormat, String>,
)
    requires
        pipeline.session.running(),
    ensures
        pipeline.step(PipelineEvent::Start { default_device, input_config }) == pipeline,
        pipeline.session.start(default_device, input_config).1 is Err,
{
}

/// The artifacts of one session have different names, as long as the seconds
/// component of the earlier one is not the largest number there is.
pub proof fn lemma_artifact_names_differ<T>(pipeline: Pipeline<T>, i: int, j: int)
    requires
        pipeline.consistent(),
        0 <= i < j < pipeline.chunks.len(),
        pipeline.chunks[i].stamp < u64::MAX,
    ensures
        chunk_file_name(pipeline.chunks[i].stamp, pipeline.chunks[i].kind) != chunk_file_name(
            pipeline.chunks[j].stamp,
            pipeline.chunks[j].kind,
        ),
{
    let a = pipeline.chunks[i];
    let b = pipeline.chunks[j];
    assert(a.stamp < b.stamp);
    if chunk_file_name(a.stamp, a.kind) == chunk_file_name(b.stamp, b.kind) {
        lemma_chunk_file_name_injective(a.stamp, a.kind, b.stamp, b.kind);
    }
}

/// Distinct names in every run. Whatever happens to a pipeline that began
/// idle, two artifacts of the session under way have different names, as long
/// as the seconds component of the earlier one is not the largest number
/// there is.
pub proof fn lemma_artifact_names_differ_in_every_run<T>(
    session: CaptureView,
    events: Seq<PipelineEvent<T>>,
    i: int,
    j: int,
)
    requires
        !session.running(),
        0 <= i < j < Pipeline::<T>::idle(session).run(events).chunks.len(),
        Pipeline::<T>::idle(session).run(events).chunks[i].stamp < u64::MAX,
    ensures
        ({
            let chunks = Pipeline::<T>::idle(session).run(events).chunks;
            chunk_file_name(chunks[i].stamp, chunks[i].kind) != chunk_file_name(
                chunks[j].stamp,
                chunks[j].kind,
            )
        }),
{
    lemma_every_run_is_consistent(session, events);
    lemma_artifact_names_differ(Pipeline::<T>::idle(session).run(events), i, j);
}

} // verus!
