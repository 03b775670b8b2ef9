//! The chunk assembler: slices the buffered sample stream into chunks.
//!
//! The assembler is woken on a fixed, coarse cadence by whoever drives it. On
//! each wake it looks at the sink and, if a full chunk's worth of samples has
//! accumulated, removes exactly that many from the front. When the session
//! stops it removes whatever is left, once, as the final chunk. It never
//! reorders, duplicates or drops a sample.
//!
//! Sleeping, locking the sink and persisting a chunk are the driver's business.
//! The assembler decides what leaves the sink and what the artifact is called.

use crate::decimal::{append_decimal, decimal, is_digit, lemma_decimal_digits,
    lemma_decimal_injective};
use crate::sink::SampleSink;
use vstd::prelude::*;
use vstd::string::StringExecFns;

verus! {

/// How long the driver sleeps between two wakes of the assembler, in
/// milliseconds.
pub const POLL_INTERVAL_MS: u64 = 100;

/// Number of interleaved channels in a chunk artifact.
pub const ARTIFACT_CHANNELS: u16 = 1;

/// Width of one encoded sample in a chunk artifact, in bits.
pub const ARTIFACT_BITS_PER_SAMPLE: u16 = 16;

/// What made a chunk leave the sink.
#[derive(Clone, Copy, Debug, PartialEq, Eq, Structural)]
pub enum ChunkKind {
    /// The sink held a full chunk's worth of samples on a wake.
    Threshold,
    /// The session stopped and the remainder was flushed.
    Final,
}

/// Samples removed from the sink in one drain, on their way to becoming an
/// artifact.
#[derive(Debug, PartialEq)]
pub struct Chunk<T> {
    /// The samples, oldest first.
    pub samples: Vec<T>,
    /// Why the chunk was cut.
    pub kind: ChunkKind,
    /// The seconds component of the artifact's name.
    pub stamp: u64,
}

/// The mathematical content of a [`Chunk`].
pub struct ChunkView<T> {
    pub samples: Seq<T>,
    pub kind: ChunkKind,
    pub stamp: u64,
}

impl<T> View for Chunk<T> {
    type V = ChunkView<T>;

    open spec fn view(&self) -> ChunkView<T> {
        ChunkView { samples: self.samples@, kind: self.kind, stamp: self.stamp }
    }
}

/// The view of a chunk that may or may not have been cut.
pub open spec fn cut_view<T>(chunk: Option<Chunk<T>>) -> Option<ChunkView<T>> {
    match chunk {
        Some(c) => Some(c@),
        None => None,
    }
}

/// Encoding parameters of every chunk artifact: mono, 16-bit signed integer
/// PCM at the capture rate.
#[derive(Clone, Copy, Debug, PartialEq, Eq, Structural)]
pub struct ArtifactFormat {
    pub channels: u16,
    pub sample_rate: u32,
    pub bits_per_sample: u16,
    pub signed_integer: bool,
}

/// Number of samples in one full chunk: the capture rate times the chunk
/// duration.
pub open spec fn chunk_sample_count(sample_rate: u32, chunk_duration_secs: u64) -> nat {
    (sample_rate as nat) * (chunk_duration_secs as nat)
}

/// What a wake removes from a sink holding `sink`: the `threshold` oldest
/// samples once that many are there, nothing before.
pub open spec fn threshold_drain<T>(sink: Seq<T>, threshold: nat) -> Option<Seq<T>> {
    if sink.len() >= threshold {
        Some(sink.take(threshold as int))
    } else {
        None
    }
}

/// What a wake leaves in the sink.
pub open spec fn after_threshold_drain<T>(sink: Seq<T>, threshold: nat) -> Seq<T> {
    if sink.len() >= threshold {
        sink.skip(threshold as int)
    } else {
        sink
    }
}

/// What the flush at stop removes from a sink holding `sink`: everything, and
/// nothing at all where the sink is empty. The sink is empty afterwards.
pub open spec fn final_drain<T>(sink: Seq<T>) -> Option<Seq<T>> {
    if sink.len() > 0 {
        Some(sink)
    } else {
        None
    }
}

/// The seconds component for the next artifact name: the clock reading, moved
/// past the previous component where the clock has not advanced beyond it.
pub open spec fn next_stamp(last: Option<u64>, now: u64) -> u64 {
    match last {
        Some(l) => if now > l {
            now
        } else if l < u64::MAX {
            (l + 1) as u64
        } else {
            l
        },
        None => now,
    }
}

/// The mathematical content of a [`ChunkAssembler`].
pub struct AssemblerView {
    /// The capture rate, in samples per second.
    pub sample_rate: u32,
    /// The duration of a full chunk, in seconds.
    pub chunk_duration_secs: u64,
    /// The seconds component of the most recent artifact name, if any chunk
    /// was cut yet.
    pub last_stamp: Option<u64>,
    /// Whether the assembler has done its final flush and terminated.
    pub finished: bool,
}

impl AssemblerView {
    /// An assembler that has cut nothing yet.
    pub open spec fn fresh(sample_rate: u32, chunk_duration_secs: u64) -> AssemblerView {
        AssemblerView { sample_rate, chunk_duration_secs, last_stamp: None, finished: false }
    }

    /// The number of samples in a full chunk.
    pub open spec fn threshold(self) -> nat {
        chunk_sample_count(self.sample_rate, self.chunk_duration_secs)
    }

    /// One wake over a sink holding `sink`: the assembler afterwards, what the
    /// sink holds afterwards, and the chunk cut.
    ///
    /// Where the sink holds at least a full chunk, the oldest full chunk's
    /// worth of samples leaves it as a threshold chunk. Otherwise, and once
    /// the assembler has terminated, nothing changes.
    pub open spec fn poll<T>(self, sink: Seq<T>, now: u64) -> (
        AssemblerView,
        Seq<T>,
        Option<ChunkView<T>>,
    ) {
        match threshold_drain(sink, self.threshold()) {
            Some(samples) if !self.finished => {
                let stamp = next_stamp(self.last_stamp, now);
                (
                    AssemblerView { last_stamp: Some(stamp), ..self },
                    after_threshold_drain(sink, self.threshold()),
                    Some(ChunkView { samples, kind: ChunkKind::Threshold, stamp }),
                )
            },
            _ => (self, sink, None),
        }
    }

    /// The final flush over a sink holding `sink`: the assembler afterwards,
    /// what the sink holds afterwards, and the chunk cut.
    ///
    /// Whatever the sink holds leaves it as the final chunk; an empty sink
    /// yields no chunk. The assembler has terminated afterwards. Once it has,
    /// nothing changes any more.
    pub open spec fn flush<T>(self, sink: Seq<T>, now: u64) -> (
        AssemblerView,
        Seq<T>,
        Option<ChunkView<T>>,
    ) {
        if self.finished {
            (self, sink, None)
        } else {
            match final_drain(sink) {
                Some(samples) => {
                    let stamp = next_stamp(self.last_stamp, now);
                    (
                        AssemblerView { last_stamp: Some(stamp), finished: true, ..self },
                        Seq::empty(),
                        Some(ChunkView { samples, kind: ChunkKind::Final, stamp }),
                    )
                },
                None => (AssemblerView { finished: true, ..self }, Seq::empty(), None),
            }
        }
    }
}

/// The part of an artifact name that follows the seconds component.
pub open spec fn chunk_suffix(kind: ChunkKind) -> Seq<char> {
    match kind {
        ChunkKind::Threshold => ".wav"@,
        ChunkKind::Final => "_final.wav"@,
    }
}

/// The name of a chunk artifact: `chunk_<seconds>.wav` for a chunk cut at the
/// threshold, `chunk_<seconds>_final.wav` for the flush at stop.
pub open spec fn chunk_file_name(stamp: u64, kind: ChunkKind) -> Seq<char> {
    "chunk_"@ + decimal(stamp as nat) + chunk_suffix(kind)
}

/// A stamp never falls behind the clock, never falls behind its predecessor,
/// and moves strictly past its predecessor as long as there is room above it.
pub proof fn lemma_next_stamp_advances(last: u64, now: u64)
    ensures
        next_stamp(Some(last), now) >= now,
        next_stamp(Some(last), now) >= last,
        last < u64::MAX ==> next_stamp(Some(last), now) > last,
        next_stamp(None, now) == now,
{
}

/// Artifact names tell chunks apart: two names are equal only where both the
/// seconds component and the kind are.
pub proof fn lemma_chunk_file_name_injective(
    stamp_a: u64,
    kind_a: ChunkKind,
    stamp_b: u64,
    kind_b: ChunkKind,
)
    requires
        chunk_file_name(stamp_a, kind_a) == chunk_file_name(stamp_b, kind_b),
    ensures
        stamp_a == stamp_b,
        kind_a == kind_b,
{
    reveal_strlit("chunk_");
    reveal_strlit(".wav");
    reveal_strlit("_final.wav");
    lemma_decimal_digits(stamp_a as nat);
    lemma_decimal_digits(stamp_b as nat);
    let da = decimal(stamp_a as nat);
    let db = decimal(stamp_b as nat);
    let na = chunk_file_name(stamp_a, kind_a);
    let nb = chunk_file_name(stamp_b, kind_b);
    assert(na.len() == 6 + da.len() + chunk_suffix(kind_a).len());
    assert(nb.len() == 6 + db.len() + chunk_suffix(kind_b).len());
    if kind_a != kind_b {
        // The two suffixes differ in length by six, so one rendering is six
        // digits longer than the other. Where the shorter one ends, its name
        // goes on with an underscore while the other name still shows a digit.
        let (short, long) = if kind_a == ChunkKind::Threshold {
            (db, da)
        } else {
            (da, db)
        };
        let at = 6 + short.len() as int;
        assert(is_digit(long[short.len() as int]));
        assert(na[at] == nb[at]);
        assert(!is_digit('_'));
    }
    assert(da =~= db) by {
        assert forall|i: int| 0 <= i < da.len() implies da[i] == db[i] by {
            assert(na[6 + i] == da[i]);
            assert(nb[6 + i] == db[i]);
        }
    }
    lemma_decimal_injective(stamp_a as nat, stamp_b as nat);
}

/// The chunk assembler of one recording session.
#[derive(Debug)]
pub struct ChunkAssembler {
    sample_rate: u32,
    chunk_duration_secs: u64,
    last_stamp: Option<u64>,
    finished: bool,
}

impl View for ChunkAssembler {
    type V = AssemblerView;

    closed spec fn view(&self) -> AssemblerView {
        AssemblerView {
            sample_rate: self.sample_rate,
            chunk_duration_secs: self.chunk_duration_secs,
            last_stamp: self.last_stamp,
            finished: self.finished,
        }
    }
}

impl ChunkAssembler {
    /// An assembler for a session that captures at `sample_rate` samples per
    /// second and cuts chunks of `chunk_duration_secs` seconds.
    pub fn new(sample_rate: u32, chunk_duration_secs: u64) -> (assembler: Self)
        ensures
            assembler@ == AssemblerView::fresh(sample_rate, chunk_duration_secs),
    {
        ChunkAssembler { sample_rate, chunk_duration_secs, last_stamp: None, finished: false }
    }

    /// The number of samples in a full chunk.
    pub fn chunk_sample_count(&self) -> (count: u128)
        ensures
            count == self@.threshold(),
    {
        assert(self.sample_rate as nat * self.chunk_duration_secs as nat <= 0xffff_ffff
            * 0xffff_ffff_ffff_ffff) by (nonlinear_arith)
            requires
                self.sample_rate <= 0xffff_ffff,
                self.chunk_duration_secs <= 0xffff_ffff_ffff_ffff,
        ;
        (self.sample_rate as u128) * (self.chunk_duration_secs as u128)
    }

    /// Whether the assembler has done its final flush and terminated.
    pub fn is_finished(&self) -> (finished: bool)
        ensures
            finished == self@.finished,
    {
        self.finished
    }

    /// The encoding parameters of the artifacts of this session.
    pub fn artifact_format(&self) -> (format: ArtifactFormat)
        ensures
            format == (ArtifactFormat {
                channels: 1,
                sample_rate: self@.sample_rate,
                bits_per_sample: 16,
                signed_integer: true,
            }),
    {
        ArtifactFormat {
            channels: ARTIFACT_CHANNELS,
            sample_rate: self.sample_rate,
            bits_per_sample: ARTIFACT_BITS_PER_SAMPLE,
            signed_integer: true,
        }
    }

    /// Picks the seconds component for the chunk being cut and puts it on
    /// record.
    fn claim_stamp(&mut self, now_secs: u64) -> (stamp: u64)
        ensures
            stamp == next_stamp(old(self)@.last_stamp, now_secs),
            final(self)@ == (AssemblerView { last_stamp: Some(stamp), ..old(self)@ }),
    {
        let stamp = match self.last_stamp {
            Some(last) => if now_secs > last {
                now_secs
            } else if last < u64::MAX {
                last + 1
            } else {
                last
            },
            None => now_secs,
        };
        self.last_stamp = Some(stamp);
        stamp
    }

    /// One wake. Where the sink holds at least a full chunk, the oldest full
    /// chunk's worth of samples leaves the sink as a threshold chunk.
    /// Otherwise, and once the assembler has terminated, nothing changes.
    pub fn poll<T>(&mut self, sink: &mut SampleSink<T>, now_secs: u64) -> (chunk: Option<Chunk<T>>)
        ensures
            (final(self)@, final(sink)@, cut_view(chunk)) == old(self)@.poll(old(sink)@, now_secs),
    {
        let threshold = self.chunk_sample_count();
        if !self.finished && sink.len() as u128 >= threshold {
            let samples = sink.drain_front(threshold as usize);
            let stamp = self.claim_stamp(now_secs);
            Some(Chunk { samples, kind: ChunkKind::Threshold, stamp })
        } else {
            None
        }
    }

    /// The final flush, once the session has stopped. Whatever the sink still
    /// holds leaves it as the final chunk; an empty sink yields no chunk. The
    /// assembler has terminated afterwards: neither a wake nor a second flush
    /// cuts anything any more.
    pub fn flush<T>(&mut self, sink: &mut SampleSink<T>, now_secs: u64) -> (chunk: Option<Chunk<T>>)
        ensures
            (final(self)@, final(sink)@, cut_view(chunk)) == old(self)@.flush(old(sink)@, now_secs),
    {
        if self.finished {
            None
        } else if sink.is_empty() {
            self.finished = true;
            assert(sink@ =~= Seq::<T>::empty());
            None
        } else {
            let samples = sink.drain_all();
            let stamp = self.claim_stamp(now_secs);
            self.finished = true;
            Some(Chunk { samples, kind: ChunkKind::Final, stamp })
        }
    }
}

impl<T> Chunk<T> {
    /// The file name under which this chunk is persisted.
    pub fn file_name(&self) -> (name: String)
        ensures
            name@ == chunk_file_name(self.stamp, self.kind),
    {
        let mut name = String::from_str("chunk_");
        append_decimal(&mut name, self.stamp as u128);
        match self.kind {
            ChunkKind::Threshold => name.append(".wav"),
            ChunkKind::Final => name.append("_final.wav"),
        }
        name
    }
}

} // verus!
