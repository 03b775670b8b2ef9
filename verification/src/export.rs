//! Exporting the transcript of a session: its statistics and its rendering as
//! plain text and as Markdown.
//!
//! Writing the export to a file is the business of whoever drives the
//! library. This module decides what the file is called and what it holds.

use crate::clock::{Timestamp, FILE_STAMP_PATTERN, HEADER_TIME_PATTERN, SEGMENT_CLOCK_PATTERN};
use crate::decimal::{append_decimal, append_signed_decimal, decimal, signed_decimal};
use crate::text::{join, joined};
use crate::transcription::{texts_of, TranscriptionResult};
use vstd::prelude::*;
use vstd::string::{StrSliceExecFns, StringExecFns};

verus! {

/// What separates the segments where a transcript is measured or copied as
/// one text.
pub const WORD_SEPARATOR: &'static str = " ";

/// What separates the segments where a transcript is copied as paragraphs.
pub const PARAGRAPH_SEPARATOR: &'static str = "\n\n";

/// The two renderings of an exported transcript.
#[derive(Clone, Copy, Debug, PartialEq, Eq, Structural)]
pub enum ExportFormat {
    PlainText,
    Markdown,
}

/// How much was transcribed.
#[derive(Clone, Copy, Debug, PartialEq, Eq, Structural)]
pub struct TranscriptStatistics {
    /// Number of transcribed segments.
    pub segments: usize,
    /// Number of words in all segments together.
    pub words: usize,
    /// Number of characters in all segments, joined by single spaces.
    pub characters: usize,
}

/// The time between the first and the last transcription.
#[derive(Clone, Copy, Debug, PartialEq, Eq, Structural)]
pub struct Span {
    /// Whole minutes.
    pub minutes: i64,
    /// Whole seconds beyond the whole minutes.
    pub seconds: i64,
}

/// One segment as it appears in an export.
#[derive(Debug, PartialEq, Eq)]
pub struct Segment {
    /// The time of day at which the segment was transcribed.
    pub clock: String,
    /// The transcribed text.
    pub text: String,
}

/// The mathematical content of a [`Segment`].
pub struct SegmentView {
    pub clock: Seq<char>,
    pub text: Seq<char>,
}

impl View for Segment {
    type V = SegmentView;

    open spec fn view(&self) -> SegmentView {
        SegmentView { clock: self.clock@, text: self.text@ }
    }
}

/// The views of a run of segments.
pub open spec fn segments_view(segments: Seq<Segment>) -> Seq<SegmentView> {
    Seq::new(segments.len(), |i: int| segments[i]@)
}

/// An export ready to be written.
#[derive(Debug, PartialEq, Eq)]
pub struct TranscriptExport {
    /// The name of the file.
    pub file_name: String,
    /// What the file holds.
    pub content: String,
}

/// Whether the standard library counts a character as white space.
pub uninterp spec fn is_whitespace(c: char) -> bool;

/// `char::is_whitespace`, by name: the contract says that the answer is the
/// standard library's and claims nothing about which characters are white
/// space.
#[verifier::external_body]
fn char_is_whitespace(c: char) -> (blank: bool)
    ensures
        blank == is_whitespace(c),
{
    c.is_whitespace()
}

/// For each character of a text, whether it is white space.
pub open spec fn blanks(text: Seq<char>) -> Seq<bool> {
    Seq::new(text.len(), |i: int| is_whitespace(text[i]))
}

/// Whether a word begins at position `i`: the character there is no white
/// space, and is the first one or follows white space.
pub open spec fn word_begins(blank: Seq<bool>, i: int) -> bool {
    !blank[i] && (i == 0 || blank[i - 1])
}

/// Number of words in a text, given for each character whether it is white
/// space: the number of positions at which a word begins.
pub open spec fn word_starts(blank: Seq<bool>) -> nat
    decreases blank.len(),
{
    if blank.len() == 0 {
        0
    } else {
        word_starts(blank.drop_last()) + if word_begins(blank, blank.len() - 1) {
            1nat
        } else {
            0nat
        }
    }
}

/// A number of seconds as whole minutes and remaining seconds, both rounded
/// towards zero and of the sign of the number.
pub open spec fn span_of(seconds: int) -> Span {
    if seconds >= 0 {
        Span { minutes: (seconds / 60) as i64, seconds: (seconds % 60) as i64 }
    } else {
        Span { minutes: (-((-seconds) / 60)) as i64, seconds: (-((-seconds) % 60)) as i64 }
    }
}

/// The time between the first and the last of a run of transcriptions; `None`
/// for an empty run, and where that time cannot be measured.
pub open spec fn transcript_span(transcriptions: Seq<TranscriptionResult>) -> Option<Span> {
    if transcriptions.len() == 0 {
        None
    } else {
        match transcriptions.last().timestamp.since(transcriptions.first().timestamp) {
            Some(seconds) => Some(span_of(seconds)),
            None => None,
        }
    }
}

/// The statistics of a run of transcriptions. Words and characters are counted
/// in the text that joins all segments by single spaces.
pub open spec fn statistics_of(transcriptions: Seq<TranscriptionResult>) -> TranscriptStatistics {
    let total = joined(texts_of(transcriptions), WORD_SEPARATOR@);
    TranscriptStatistics {
        segments: transcriptions.len() as usize,
        words: word_starts(blanks(total)) as usize,
        characters: total.len() as usize,
    }
}

/// The name of an export, given the time component.
pub open spec fn export_file_name(stamp: Seq<char>, format: ExportFormat) -> Seq<char> {
    match format {
        ExportFormat::PlainText => "transcript_"@ + stamp + ".txt"@,
        ExportFormat::Markdown => "transcript_"@ + stamp + ".md"@,
    }
}

/// The head of a plain-text export.
pub open spec fn plain_head(generated: Seq<char>, statistics: TranscriptStatistics) -> Seq<char> {
    "=== AUDIO ASSISTANT TRANSCRIPT ===\n"@ + "Generated: "@ + generated + "\n"@
        + "Total segments: "@ + decimal(statistics.segments as nat) + "\n"@ + "Word count: "@
        + decimal(statistics.words as nat) + "\n"@ + "Character count: "@ + decimal(
        statistics.characters as nat,
    ) + "\n\n"@ + "=====================================\n\n"@
}

/// One segment of a plain-text export; `number` counts from one.
pub open spec fn plain_segment(number: nat, segment: SegmentView) -> Seq<char> {
    "[Segment "@ + decimal(number) + "] "@ + segment.clock + "\n"@ + segment.text + "\n\n"@
}

/// The segments of a plain-text export, in order.
pub open spec fn plain_body(segments: Seq<SegmentView>) -> Seq<char>
    decreases segments.len(),
{
    if segments.len() == 0 {
        Seq::empty()
    } else {
        plain_body(segments.drop_last()) + plain_segment(segments.len(), segments.last())
    }
}

/// A plain-text export.
pub open spec fn plain_text(
    generated: Seq<char>,
    statistics: TranscriptStatistics,
    segments: Seq<SegmentView>,
) -> Seq<char> {
    plain_head(generated, statistics) + plain_body(segments)
}

/// The line of a Markdown export that tells the time between the first and
/// the last transcription; empty where there is none.
pub open spec fn markdown_span(span: Option<Span>) -> Seq<char> {
    match span {
        Some(s) => "- **Duration:** "@ + signed_decimal(s.minutes as int) + "m "@ + signed_decimal(
            s.seconds as int,
        ) + "s\n\n"@,
        None => Seq::empty(),
    }
}

/// The head of a Markdown export.
pub open spec fn markdown_head(
    generated: Seq<char>,
    statistics: TranscriptStatistics,
    span: Option<Span>,
) -> Seq<char> {
    "# Audio Assistant Transcript\n\n"@ + "**Generated:** "@ + generated + "\n\n"@
        + "## Statistics\n\n"@ + "- **Segments:** "@ + decimal(statistics.segments as nat) + "\n"@
        + "- **Words:** "@ + decimal(statistics.words as nat) + "\n"@ + "- **Characters:** "@
        + decimal(statistics.characters as nat) + "\n\n"@ + markdown_span(span) + "---\n\n"@
        + "## Transcript\n\n"@
}

/// One segment of a Markdown export; `number` counts from one.
pub open spec fn markdown_segment(number: nat, segment: SegmentView) -> Seq<char> {
    "### Segment "@ + decimal(number) + " `"@ + segment.clock + "`\n\n"@ + segment.text + "\n\n"@
}

/// The segments of a Markdown export, in order.
pub open spec fn markdown_body(segments: Seq<SegmentView>) -> Seq<char>
    decreases segments.len(),
{
    if segments.len() == 0 {
        Seq::empty()
    } else {
        markdown_body(segments.drop_last()) + markdown_segment(segments.len(), segments.last())
    }
}

/// A Markdown export.
pub open spec fn markdown(
    generated: Seq<char>,
    statistics: TranscriptStatistics,
    span: Option<Span>,
    segments: Seq<SegmentView>,
) -> Seq<char> {
    markdown_head(generated, statistics, span) + markdown_body(segments)
}

/// The time of day of each of a run of transcriptions, in order; `None` in the
/// place of a time that cannot be written.
pub open spec fn segment_clocks(transcriptions: Seq<TranscriptionResult>) -> Seq<
    Option<Seq<char>>,
> {
    Seq::new(
        transcriptions.len(),
        |i: int| transcriptions[i].timestamp.text(SEGMENT_CLOCK_PATTERN@),
    )
}

/// The segments of an export, given as many texts as times of day; `None`
/// where one of the times is missing.
pub open spec fn paired_segments(texts: Seq<String>, clocks: Seq<Option<Seq<char>>>) -> Option<
    Seq<SegmentView>,
>
    recommends
        texts.len() == clocks.len(),
    decreases clocks.len(),
{
    if clocks.len() == 0 {
        Some(Seq::empty())
    } else {
        match (paired_segments(texts.drop_last(), clocks.drop_last()), clocks.last()) {
            (Some(before), Some(clock)) => Some(
                before.push(SegmentView { clock, text: texts.last()@ }),
            ),
            _ => None,
        }
    }
}

/// The segments of an export, given the text and the time of day of each;
/// `None` where one of the times is missing, and where there are not as many
/// times as texts.
pub open spec fn segments_from(texts: Seq<String>, clocks: Seq<Option<Seq<char>>>) -> Option<
    Seq<SegmentView>,
> {
    if texts.len() == clocks.len() {
        paired_segments(texts, clocks)
    } else {
        None
    }
}

/// The segments of an export for a run of transcriptions: each with the time
/// of day at which it arrived. `None` where one of those times cannot be
/// written.
pub open spec fn export_segments(transcriptions: Seq<TranscriptionResult>) -> Option<
    Seq<SegmentView>,
> {
    segments_from(texts_of(transcriptions), segment_clocks(transcriptions))
}

/// The export of a run of transcriptions, made at `now`: its name and its
/// content. `None` where `now` or the time of a transcription cannot be
/// written.
pub open spec fn export_of(
    transcriptions: Seq<TranscriptionResult>,
    format: ExportFormat,
    now: Timestamp,
) -> Option<(Seq<char>, Seq<char>)> {
    match (
        now.text(FILE_STAMP_PATTERN@),
        now.text(HEADER_TIME_PATTERN@),
        export_segments(transcriptions),
    ) {
        (Some(stamp), Some(generated), Some(segments)) => Some(
            (
                export_file_name(stamp, format),
                match format {
                    ExportFormat::PlainText => plain_text(
                        generated,
                        statistics_of(transcriptions),
                        segments,
                    ),
                    ExportFormat::Markdown => markdown(
                        generated,
                        statistics_of(transcriptions),
                        transcript_span(transcriptions),
                        segments,
                    ),
                },
            ),
        ),
        _ => None,
    }
}

/// Counts the words of a text, given for each character whether it is white
/// space.
pub fn count_words(blank: &[bool]) -> (words: usize)
    ensures
        words == word_starts(blank@),
{
    let mut words: usize = 0;
    let mut i: usize = 0;
    while i < blank.len()
        invariant
            i <= blank@.len(),
            words <= i,
            words == word_starts(blank@.take(i as int)),
        decreases blank@.len() - i,
    {
        assert(blank@.take(i + 1).drop_last() =~= blank@.take(i as int));
        if !blank[i] && (i == 0 || blank[i - 1]) {
            words += 1;
        }
        i += 1;
    }
    assert(blank@.take(i as int) =~= blank@);
    words
}

/// Counts the words of a text: the maximal runs of characters that are not
/// white space.
pub fn word_count(text: &str) -> (words: usize)
    ensures
        words == word_starts(blanks(text@)),
{
    let mut blank: Vec<bool> = Vec::new();
    let ghost all = text@;
    for c in it: text.chars()
        invariant
            it.seq() == all,
            blank@ =~= blanks(all.take(it.index() as int)),
    {
        blank.push(char_is_whitespace(c));
    }
    assert(all.take(all.len() as int) =~= all);
    count_words(blank.as_slice())
}

/// Splits a number of seconds into whole minutes and remaining seconds.
pub fn span_from_seconds(seconds: i64) -> (span: Span)
    ensures
        span == span_of(seconds as int),
{
    if seconds >= 0 {
        Span { minutes: seconds / 60, seconds: seconds % 60 }
    } else {
        let magnitude: i128 = -(seconds as i128);
        Span { minutes: (-(magnitude / 60)) as i64, seconds: (-(magnitude % 60)) as i64 }
    }
}

/// The texts of a run of transcriptions, in order.
pub fn transcript_texts(transcriptions: &[TranscriptionResult]) -> (texts: Vec<String>)
    ensures
        texts@ == texts_of(transcriptions@),
{
    let mut texts: Vec<String> = Vec::new();
    let mut i: usize = 0;
    while i < transcriptions.len()
        invariant
            i <= transcriptions@.len(),
            texts@.len() == i,
            forall|k: int| 0 <= k < i ==> texts@[k] == transcriptions@[k].text,
        decreases transcriptions@.len() - i,
    {
        texts.push(transcriptions[i].text.clone());
        i += 1;
    }
    texts
}

/// The statistics of a run of transcriptions.
pub fn transcript_statistics(transcriptions: &[TranscriptionResult]) -> (statistics:
    TranscriptStatistics)
    ensures
        statistics == statistics_of(transcriptions@),
{
    let texts = transcript_texts(transcriptions);
    let total = join(texts.as_slice(), WORD_SEPARATOR);
    let characters = total.as_str().unicode_len();
    let words = word_count(total.as_str());
    TranscriptStatistics { segments: transcriptions.len(), words, characters }
}

/// The time between the first and the last of a run of transcriptions.
pub fn recording_span(transcriptions: &[TranscriptionResult]) -> (span: Option<Span>)
    ensures
        span == transcript_span(transcriptions@),
{
    let n = transcriptions.len();
    if n == 0 {
        None
    } else {
        match transcriptions[n - 1].timestamp.seconds_since(&transcriptions[0].timestamp) {
            Some(seconds) => Some(span_from_seconds(seconds)),
            None => None,
        }
    }
}

/// The whole transcript as one text for the clipboard: the segments in order,
/// set apart by blank lines.
pub fn clipboard_text(transcriptions: &[TranscriptionResult]) -> (text: String)
    ensures
        text@ == joined(texts_of(transcriptions@), PARAGRAPH_SEPARATOR@),
{
    let texts = transcript_texts(transcriptions);
    join(texts.as_slice(), PARAGRAPH_SEPARATOR)
}

/// The name of an export, given the time component of the name.
pub fn export_file_name_for(stamp: &str, format: ExportFormat) -> (name: String)
    ensures
        name@ == export_file_name(stamp@, format),
{
    let mut name = String::from_str("transcript_");
    name.append(stamp);
    match format {
        ExportFormat::PlainText => name.append(".txt"),
        ExportFormat::Markdown => name.append(".md"),
    }
    name
}

/// Renders one segment of a plain-text export.
fn render_plain_segment(number: usize, segment: &Segment) -> (text: String)
    ensures
        text@ == plain_segment(number as nat, segment@),
{
    let mut text = String::from_str("[Segment ");
    append_decimal(&mut text, number as u128);
    text.append("] ");
    text.append(segment.clock.as_str());
    text.append("\n");
    text.append(segment.text.as_str());
    text.append("\n\n");
    text
}

/// Renders one segment of a Markdown export.
fn render_markdown_segment(number: usize, segment: &Segment) -> (text: String)
    ensures
        text@ == markdown_segment(number as nat, segment@),
{
    let mut text = String::from_str("### Segment ");
    append_decimal(&mut text, number as u128);
    text.append(" `");
    text.append(segment.clock.as_str());
    text.append("`\n\n");
    text.append(segment.text.as_str());
    text.append("\n\n");
    text
}

/// Renders a plain-text export: the head with the time of the export and the
/// statistics, then every segment with its number and time of day.
pub fn render_plain_text(
    generated: &str,
    statistics: &TranscriptStatistics,
    segments: &[Segment],
) -> (content: String)
    ensures
        content@ == plain_text(generated@, *statistics, segments_view(segments@)),
{
    let mut content = String::from_str("=== AUDIO ASSISTANT TRANSCRIPT ===\n");
    content.append("Generated: ");
    content.append(generated);
    content.append("\n");
    content.append("Total segments: ");
    append_decimal(&mut content, statistics.segments as u128);
    content.append("\n");
    content.append("Word count: ");
    append_decimal(&mut content, statistics.words as u128);
    content.append("\n");
    content.append("Character count: ");
    append_decimal(&mut content, statistics.characters as u128);
    content.append("\n\n");
    content.append("=====================================\n\n");
    let ghost head = plain_head(generated@, *statistics);
    let ghost views = segments_view(segments@);
    let mut i: usize = 0;
    while i < segments.len()
        invariant
            i <= segments@.len(),
            views == segments_view(segments@),
            content@ == head + plain_body(views.take(i as int)),
        decreases segments@.len() - i,
    {
        assert(views.take(i + 1).drop_last() =~= views.take(i as int));
        let piece = render_plain_segment(i + 1, &segments[i]);
        content.append(piece.as_str());
        i += 1;
    }
    assert(views.take(i as int) =~= views);
    content
}

/// Renders a Markdown export: the head with the time of the export, the
/// statistics and the time between the first and the last transcription, then
/// every segment with its number and time of day.
pub fn render_markdown(
    generated: &str,
    statistics: &TranscriptStatistics,
    span: Option<Span>,
    segments: &[Segment],
) -> (content: String)
    ensures
        content@ == markdown(generated@, *statistics, span, segments_view(segments@)),
{
    let mut content = String::from_str("# Audio Assistant Transcript\n\n");
    content.append("**Generated:** ");
    content.append(generated);
    content.append("\n\n");
    content.append("## Statistics\n\n");
    content.append("- **Segments:** ");
    append_decimal(&mut content, statistics.segments as u128);
    content.append("\n");
    content.append("- **Words:** ");
    append_decimal(&mut content, statistics.words as u128);
    content.append("\n");
    content.append("- **Characters:** ");
    append_decimal(&mut content, statistics.characters as u128);
    content.append("\n\n");
    match span {
        Some(s) => {
            let mut line = String::from_str("- **Duration:** ");
            append_signed_decimal(&mut line, s.minutes as i128);
            line.append("m ");
            append_signed_decimal(&mut line, s.seconds as i128);
            line.append("s\n\n");
            content.append(line.as_str());
        },
        None => {},
    }
    content.append("---\n\n");
    content.append("## Transcript\n\n");
    let ghost head = markdown_head(generated@, *statistics, span);
    let ghost views = segments_view(segments@);
    let mut i: usize = 0;
    while i < segments.len()
        invariant
            i <= segments@.len(),
            views == segments_view(segments@),
            content@ == head + markdown_body(views.take(i as int)),
        decreases segments@.len() - i,
    {
        assert(views.take(i + 1).drop_last() =~= views.take(i as int));
        let piece = render_markdown_segment(i + 1, &segments[i]);
        content.append(piece.as_str());
        i += 1;
    }
    assert(views.take(i as int) =~= views);
    content
}

/// The view of a run of segments that may be missing.
pub open spec fn maybe_segments_view(segments: Option<Vec<Segment>>) -> Option<Seq<SegmentView>> {
    match segments {
        Some(s) => Some(segments_view(s@)),
        None => None,
    }
}

/// The views of a run of texts that may be missing.
pub open spec fn texts_view(texts: Seq<Option<String>>) -> Seq<Option<Seq<char>>> {
    Seq::new(
        texts.len(),
        |i: int|
            match texts[i] {
                Some(t) => Some(t@),
                None => None,
            },
    )
}

/// The time of day of each of a run of transcriptions, in order; `None` in the
/// place of a time that cannot be written.
pub fn clocks_for(transcriptions: &[TranscriptionResult]) -> (clocks: Vec<Option<String>>)
    ensures
        texts_view(clocks@) == segment_clocks(transcriptions@),
{
    let mut clocks: Vec<Option<String>> = Vec::new();
    let mut i: usize = 0;
    while i < transcriptions.len()
        invariant
            i <= transcriptions@.len(),
            clocks@.len() == i,
            forall|k: int|
                0 <= k < i ==> texts_view(clocks@)[k] == segment_clocks(transcriptions@)[k],
        decreases transcriptions@.len() - i,
    {
        let ghost before = clocks@;
        clocks.push(transcriptions[i].timestamp.format(SEGMENT_CLOCK_PATTERN));
        assert forall|k: int| 0 <= k < i + 1 implies texts_view(clocks@)[k] == segment_clocks(
            transcriptions@,
        )[k] by {
            if k < i {
                assert(texts_view(clocks@)[k] == texts_view(before)[k]);
            }
        }
        i += 1;
    }
    clocks
}

/// Puts the segments of an export together from the text and the time of day
/// of each. `None` where one of the times is missing, and where there are not
/// as many times as texts.
pub fn segments_of(texts: Vec<String>, clocks: Vec<Option<String>>) -> (segments: Option<
    Vec<Segment>,
>)
    ensures
        maybe_segments_view(segments) == segments_from(texts@, texts_view(clocks@)),
{
    if texts.len() != clocks.len() {
        return None;
    }
    let mut segments: Vec<Segment> = Vec::new();
    let ghost all_texts = texts@;
    let ghost all_clocks = texts_view(clocks@);
    let mut i: usize = 0;
    while i < clocks.len()
        invariant
            i <= clocks@.len(),
            texts@.len() == clocks@.len(),
            all_texts == texts@,
            all_clocks == texts_view(clocks@),
            paired_segments(all_texts.take(i as int), all_clocks.take(i as int)) == Some(
                segments_view(segments@),
            ),
        decreases clocks@.len() - i,
    {
        assert(all_texts.take(i + 1).drop_last() =~= all_texts.take(i as int));
        assert(all_clocks.take(i + 1).drop_last() =~= all_clocks.take(i as int));
        match &clocks[i] {
            Some(clock) => {
                segments.push(Segment { clock: clock.clone(), text: texts[i].clone() });
            },
            None => {
                proof {
                    lemma_missing_clock_spoils(all_texts, all_clocks, i + 1);
                }
                return None;
            },
        }
        i += 1;
    }
    assert(all_texts.take(i as int) =~= all_texts);
    assert(all_clocks.take(i as int) =~= all_clocks);
    Some(segments)
}

/// Once the segments of the first `k` entries cannot be put together, the
/// segments of all of them cannot.
proof fn lemma_missing_clock_spoils(texts: Seq<String>, clocks: Seq<Option<Seq<char>>>, k: int)
    requires
        texts.len() == clocks.len(),
        0 <= k <= clocks.len(),
        paired_segments(texts.take(k), clocks.take(k)) is None,
    ensures
        paired_segments(texts, clocks) is None,
    decreases clocks.len() - k,
{
    if k == clocks.len() {
        assert(texts.take(k) =~= texts);
        assert(clocks.take(k) =~= clocks);
    } else {
        assert(texts.take(k + 1).drop_last() =~= texts.take(k));
        assert(clocks.take(k + 1).drop_last() =~= clocks.take(k));
        lemma_missing_clock_spoils(texts, clocks, k + 1);
    }
}

/// The segments of an export for a run of transcriptions: each with the time
/// of day at which it arrived. `None` where one of those times cannot be
/// written.
pub fn segments_for(transcriptions: &[TranscriptionResult]) -> (segments: Option<Vec<Segment>>)
    ensures
        maybe_segments_view(segments) == export_segments(transcriptions@),
{
    segments_of(transcript_texts(transcriptions), clocks_for(transcriptions))
}

/// The view of an export that may be missing: its name and its content.
pub open spec fn export_view(export: Option<TranscriptExport>) -> Option<(Seq<char>, Seq<char>)> {
    match export {
        Some(e) => Some((e.file_name@, e.content@)),
        None => None,
    }
}

/// Makes the export of a run of transcriptions at `now`. The file is named
/// after `now`; the content is headed by `now` and by the statistics of the
/// run. `None` where `now` or the time of a transcription cannot be written.
pub fn export_transcript(
    transcriptions: &[TranscriptionResult],
    format: ExportFormat,
    now: Timestamp,
) -> (export: Option<TranscriptExport>)
    ensures
        export_view(export) == export_of(transcriptions@, format, now),
{
    let stamp = match now.format(FILE_STAMP_PATTERN) {
        Some(stamp) => stamp,
        None => {
            return None;
        },
    };
    let generated = match now.format(HEADER_TIME_PATTERN) {
        Some(generated) => generated,
        None => {
            return None;
        },
    };
    let segments = match segments_for(transcriptions) {
        Some(segments) => segments,
        None => {
            return None;
        },
    };
    let statistics = transcript_statistics(transcriptions);
    let file_name = export_file_name_for(stamp.as_str(), format);
    let content = match format {
        ExportFormat::PlainText => render_plain_text(
            generated.as_str(),
            &statistics,
            segments.as_slice(),
        ),
        ExportFormat::Markdown => render_markdown(
            generated.as_str(),
            &statistics,
            recording_span(transcriptions),
            segments.as_slice(),
        ),
    };
    Some(TranscriptExport { file_name, content })
}

} // verus!
