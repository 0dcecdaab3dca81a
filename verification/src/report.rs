//! Counters of a run, and the reports made from them.

use vstd::prelude::*;

use crate::date::Timestamp;
use crate::number;
use crate::text;
use crate::types::{MediaKind, PacingStats};

verus! {

/// A sum that stops at the largest `usize`.
pub open spec fn capped(value: int) -> int {
    if value > usize::MAX {
        usize::MAX as int
    } else {
        value
    }
}

/// How many files of each kind were counted.
#[derive(Debug, Clone, Copy, PartialEq, Eq, Structural)]
pub struct KindCounts {
    pub photo: usize,
    pub image_document: usize,
    pub video: usize,
    pub animation: usize,
    pub audio: usize,
    pub voice: usize,
    pub document: usize,
}

/// The name of a kind, with a count.
#[derive(Debug)]
pub struct KindCount {
    pub kind: String,
    pub count: usize,
}

/// The kind at place `i` when kinds are ordered by name.
pub open spec fn kind_by_name(i: int) -> MediaKind {
    if i == 0 {
        MediaKind::Animation
    } else if i == 1 {
        MediaKind::Audio
    } else if i == 2 {
        MediaKind::Document
    } else if i == 3 {
        MediaKind::ImageDocument
    } else if i == 4 {
        MediaKind::Photo
    } else if i == 5 {
        MediaKind::Video
    } else {
        MediaKind::Voice
    }
}

fn nth_kind_by_name(i: usize) -> (kind: MediaKind)
    ensures
        kind == kind_by_name(i as int),
{
    match i {
        0 => MediaKind::Animation,
        1 => MediaKind::Audio,
        2 => MediaKind::Document,
        3 => MediaKind::ImageDocument,
        4 => MediaKind::Photo,
        5 => MediaKind::Video,
        _ => MediaKind::Voice,
    }
}

/// The content of a list of counts.
pub open spec fn count_pairs(list: Seq<KindCount>) -> Seq<(Seq<char>, usize)> {
    list.map_values(|item: KindCount| (item.kind@, item.count))
}

/// Counts as text, such as `audio=1, photo=3`.
pub open spec fn count_text(pairs: Seq<(Seq<char>, usize)>) -> Seq<char> {
    text::joined(
        pairs.map_values(
            |pair: (Seq<char>, usize)| pair.0 + "="@ + number::nat_text(pair.1 as nat),
        ),
        ", "@,
    )
}

impl KindCounts {
    /// The count of one kind.
    pub open spec fn of(self, kind: MediaKind) -> usize {
        match kind {
            MediaKind::Photo => self.photo,
            MediaKind::ImageDocument => self.image_document,
            MediaKind::Video => self.video,
            MediaKind::Animation => self.animation,
            MediaKind::Audio => self.audio,
            MediaKind::Voice => self.voice,
            MediaKind::Document => self.document,
        }
    }

    /// How many files were counted in all.
    pub open spec fn total(self) -> int {
        self.photo + self.image_document + self.video + self.animation + self.audio + self.voice
            + self.document
    }

    /// The counts above zero among the first `upto` kinds by name, with the names.
    pub open spec fn pairs(self, upto: nat) -> Seq<(Seq<char>, usize)>
        decreases upto,
    {
        if upto == 0 {
            Seq::<(Seq<char>, usize)>::empty()
        } else {
            let before = self.pairs((upto - 1) as nat);
            let kind = kind_by_name(upto - 1);
            if self.of(kind) > 0 {
                before.push((kind.name(), self.of(kind)))
            } else {
                before
            }
        }
    }

    pub fn zero() -> (counts: KindCounts)
        ensures
            counts == no_counts().per_kind,
    {
        KindCounts {
            photo: 0,
            image_document: 0,
            video: 0,
            animation: 0,
            audio: 0,
            voice: 0,
            document: 0,
        }
    }

    pub fn get(&self, kind: MediaKind) -> (count: usize)
        ensures
            count == self.of(kind),
    {
        match kind {
            MediaKind::Photo => self.photo,
            MediaKind::ImageDocument => self.image_document,
            MediaKind::Video => self.video,
            MediaKind::Animation => self.animation,
            MediaKind::Audio => self.audio,
            MediaKind::Voice => self.voice,
            MediaKind::Document => self.document,
        }
    }

    /// The counts with one more file of a kind.
    pub open spec fn plus_one(self, kind: MediaKind) -> KindCounts {
        match kind {
            MediaKind::Photo => KindCounts { photo: capped(self.photo + 1) as usize, ..self },
            MediaKind::ImageDocument => KindCounts {
                image_document: capped(self.image_document + 1) as usize,
                ..self
            },
            MediaKind::Video => KindCounts { video: capped(self.video + 1) as usize, ..self },
            MediaKind::Animation => KindCounts {
                animation: capped(self.animation + 1) as usize,
                ..self
            },
            MediaKind::Audio => KindCounts { audio: capped(self.audio + 1) as usize, ..self },
            MediaKind::Voice => KindCounts { voice: capped(self.voice + 1) as usize, ..self },
            MediaKind::Document => KindCounts { document: capped(self.document + 1) as usize, ..self },
        }
    }

    /// Counts one more file of a kind.
    pub fn add_one(&mut self, kind: MediaKind)
        ensures
            *final(self) == old(self).plus_one(kind),
    {
        match kind {
            MediaKind::Photo => self.photo = self.photo.saturating_add(1),
            MediaKind::ImageDocument => self.image_document = self.image_document.saturating_add(1),
            MediaKind::Video => self.video = self.video.saturating_add(1),
            MediaKind::Animation => self.animation = self.animation.saturating_add(1),
            MediaKind::Audio => self.audio = self.audio.saturating_add(1),
            MediaKind::Voice => self.voice = self.voice.saturating_add(1),
            MediaKind::Document => self.document = self.document.saturating_add(1),
        }
    }

    /// The counts above zero, ordered by the kinds' names.
    pub fn by_name(&self) -> (list: Vec<KindCount>)
        ensures
            count_pairs(list@) == self.pairs(7),
    {
        let mut list: Vec<KindCount> = Vec::new();
        let mut i: usize = 0;
        while i < 7
            invariant
                i <= 7,
                count_pairs(list@) == self.pairs(i as nat),
            decreases 7 - i,
        {
            let kind = nth_kind_by_name(i);
            let count: usize = self.get(kind);
            let ghost before = list@;
            if count > 0 {
                list.push(KindCount { kind: kind.as_str().to_string(), count });
                assert(count_pairs(list@) =~= count_pairs(before).push((kind.name(), count)));
            }
            i += 1;
        }
        list
    }
}

/// Counts as text.
pub fn render_counts(list: &[KindCount]) -> (out: String)
    ensures
        out@ == count_text(count_pairs(list@)),
{
    let mut parts: Vec<String> = Vec::new();
    let mut i: usize = 0;
    while i < list.len()
        invariant
            i <= list@.len(),
            parts@.len() == i,
            forall|j: int|
                0 <= j < i ==> (#[trigger] parts@[j])@ == list@[j].kind@ + "="@ + number::nat_text(
                    list@[j].count as nat,
                ),
        decreases list@.len() - i,
    {
        let mut part = list[i].kind.clone();
        part.append("=");
        let digits = number::decimal(list[i].count as u128);
        part.append(digits.as_str());
        parts.push(part);
        i += 1;
    }
    assert(text::texts(parts@) =~= count_pairs(list@).map_values(
        |pair: (Seq<char>, usize)| pair.0 + "="@ + number::nat_text(pair.1 as nat),
    ));
    text::join(&parts, ", ")
}

/// What an export has done so far.
#[derive(Debug, Clone, Copy, PartialEq, Eq, Structural)]
pub struct ExportCounters {
    pub scanned_messages: usize,
    pub media_found: usize,
    pub downloaded: usize,
    pub skipped_existing: usize,
    pub failed: usize,
    pub per_kind: KindCounts,
}

/// The counters before anything was counted.
pub open spec fn no_counts() -> ExportCounters {
    ExportCounters {
        scanned_messages: 0,
        media_found: 0,
        downloaded: 0,
        skipped_existing: 0,
        failed: 0,
        per_kind: KindCounts {
            photo: 0,
            image_document: 0,
            video: 0,
            animation: 0,
            audio: 0,
            voice: 0,
            document: 0,
        },
    }
}

impl Default for ExportCounters {
    fn default() -> (counters: ExportCounters)
        ensures
            counters == no_counts(),
    {
        ExportCounters {
            scanned_messages: 0,
            media_found: 0,
            downloaded: 0,
            skipped_existing: 0,
            failed: 0,
            per_kind: KindCounts::zero(),
        }
    }
}

impl ExportCounters {
    /// The counters with one more file found.
    pub open spec fn with_found(self, kind: MediaKind) -> ExportCounters {
        ExportCounters {
            media_found: capped(self.media_found + 1) as usize,
            per_kind: self.per_kind.plus_one(kind),
            ..self
        }
    }

    /// The counters with one more file found for each of `kinds`.
    pub open spec fn with_all_found(self, kinds: Seq<MediaKind>) -> ExportCounters
        decreases kinds.len(),
    {
        if kinds.len() == 0 {
            self
        } else {
            self.with_all_found(kinds.drop_last()).with_found(kinds.last())
        }
    }

    /// Counts one more file that was found.
    pub fn record_found(&mut self, kind: MediaKind)
        ensures
            *final(self) == old(self).with_found(kind),
    {
        self.media_found = self.media_found.saturating_add(1);
        self.per_kind.add_one(kind);
    }

    /// Counts one more file that was found for each of `kinds`.
    pub fn record_all_found(&mut self, kinds: &[MediaKind])
        ensures
            *final(self) == old(self).with_all_found(kinds@),
    {
        let ghost start = *self;
        let mut i: usize = 0;
        while i < kinds.len()
            invariant
                i <= kinds@.len(),
                *self == start.with_all_found(kinds@.take(i as int)),
            decreases kinds@.len() - i,
        {
            assert(kinds@.take(i + 1).drop_last() =~= kinds@.take(i as int));
            self.record_found(kinds[i]);
            i += 1;
        }
        assert(kinds@.take(i as int) =~= kinds@);
    }
}

/// What a report is made from.
#[derive(Debug)]
pub struct ExportReportInput {
    pub chat_id: i64,
    pub chat_title: String,
    pub last_checkpoint_message_id: Option<i32>,
    pub output_dir: String,
    pub duration_ms: u128,
    pub counters: ExportCounters,
    pub pacing_stats: PacingStats,
}

/// What an export did.
#[derive(Debug)]
pub struct ExportReport {
    pub chat_id: i64,
    pub chat_title: String,
    pub scanned_messages: usize,
    pub media_found: usize,
    pub downloaded: usize,
    pub skipped_existing: usize,
    pub failed: usize,
    pub last_checkpoint_message_id: Option<i32>,
    pub output_dir: String,
    pub duration_ms: u128,
    pub per_kind: Vec<KindCount>,
    pub flood_wait_count: u64,
    pub flood_sleep_ms_total: u64,
}

/// How a run ended.
#[derive(Debug, Clone, Copy, PartialEq, Eq, Structural)]
pub enum RunOutcome {
    Succeeded,
    Interrupted,
    Failed,
}

/// The record of a run that is kept as a file.
#[derive(Debug)]
pub struct RunArtifact {
    pub run_id: i64,
    pub operation: String,
    pub requested_chat: Option<String>,
    pub finished_at: Timestamp,
    pub outcome: RunOutcome,
    pub report: Option<ExportReport>,
    pub error: Option<String>,
}

/// A time in milliseconds as text: whole seconds, a point, three digits and `s`.
pub open spec fn seconds_text(ms: nat) -> Seq<char> {
    number::nat_text(ms / 1000) + "."@ + number::padded_text(ms % 1000, 3) + "s"@
}

pub fn format_seconds(ms: u128) -> (out: String)
    ensures
        out@ == seconds_text(ms as nat),
{
    let mut out = number::decimal(ms / 1000);
    out.append(".");
    let millis = number::padded(ms % 1000, 3);
    out.append(millis.as_str());
    out.append("s");
    out
}

/// The duration of a run as text. Only the lower 64 bits of the milliseconds count.
pub open spec fn duration_text(duration_ms: nat) -> Seq<char> {
    seconds_text(duration_ms % 0x1_0000_0000_0000_0000)
}

pub fn format_duration(duration_ms: u128) -> (out: String)
    ensures
        out@ == duration_text(duration_ms as nat),
{
    format_seconds(duration_ms % 0x1_0000_0000_0000_0000)
}

/// A labelled line: `label` and then a value.
pub fn line(label: &str, value: &str) -> (out: String)
    ensures
        out@ == label@ + value@,
{
    text::concat(label, value)
}

/// The chat of a report as text: title and id.
pub open spec fn chat_text(title: Seq<char>, id: int) -> Seq<char> {
    title + " ("@ + number::int_text(id) + ")"@
}

pub fn render_chat(title: &str, id: i64) -> (out: String)
    ensures
        out@ == chat_text(title@, id as int),
{
    let mut out = title.to_string();
    out.append(" (");
    let digits = number::signed_decimal(id);
    out.append(digits.as_str());
    out.append(")");
    out
}

/// An optional id as text, `none` where there is none.
pub open spec fn optional_id_text(id: Option<i32>) -> Seq<char> {
    match id {
        Some(value) => number::int_text(value as int),
        None => "none"@,
    }
}

fn render_optional_id(id: Option<i32>) -> (out: String)
    ensures
        out@ == optional_id_text(id),
{
    match id {
        Some(value) => number::signed_decimal(value as i64),
        None => "none".to_string(),
    }
}

/// Puts a line with a count at the end of `lines`.
pub fn push_count(lines: &mut Vec<String>, label: &str, count: u128)
    ensures
        text::texts(final(lines)@) == text::texts(old(lines)@).push(
            label@ + number::nat_text(count as nat),
        ),
{
    let digits = number::decimal(count);
    let ghost before = lines@;
    lines.push(line(label, digits.as_str()));
    assert(text::texts(lines@) =~= text::texts(before).push(label@ + number::nat_text(count as nat)));
}

/// Puts a line with a text at the end of `lines`.
pub fn push_text(lines: &mut Vec<String>, label: &str, value: &str)
    ensures
        text::texts(final(lines)@) == text::texts(old(lines)@).push(label@ + value@),
{
    let ghost before = lines@;
    lines.push(line(label, value));
    assert(text::texts(lines@) =~= text::texts(before).push(label@ + value@));
}

/// Puts a line at the end of `lines`.
pub fn push_line(lines: &mut Vec<String>, line: &str)
    ensures
        text::texts(final(lines)@) == text::texts(old(lines)@).push(line@),
{
    let ghost before = lines@;
    lines.push(line.to_string());
    assert(text::texts(lines@) =~= text::texts(before).push(line@));
}

/// Puts an empty line at the end of `lines`.
pub fn push_blank(lines: &mut Vec<String>)
    ensures
        text::texts(final(lines)@) == text::texts(old(lines)@).push(Seq::<char>::empty()),
{
    let ghost before = lines@;
    lines.push(String::new());
    assert(text::texts(lines@) =~= text::texts(before).push(Seq::<char>::empty()));
}

impl ExportReport {
    /// The lines of the report for people.
    pub open spec fn lines(self) -> Seq<Seq<char>> {
        let always = seq![
            "Target chat        : "@ + chat_text(self.chat_title@, self.chat_id as int),
            "Scanned messages   : "@ + number::nat_text(self.scanned_messages as nat),
            "Media found        : "@ + number::nat_text(self.media_found as nat),
            "Downloaded         : "@ + number::nat_text(self.downloaded as nat),
            "Skipped existing   : "@ + number::nat_text(self.skipped_existing as nat),
            "Failed             : "@ + number::nat_text(self.failed as nat),
            "Checkpoint         : "@ + optional_id_text(self.last_checkpoint_message_id),
            "Output directory   : "@ + self.output_dir@,
            "Duration           : "@ + duration_text(self.duration_ms as nat),
            "Flood waits        : "@ + number::nat_text(self.flood_wait_count as nat),
        ];
        if self.per_kind@.len() == 0 {
            always
        } else {
            always.push("Per kind           : "@ + count_text(count_pairs(self.per_kind@)))
        }
    }

    /// Whether this is the report of an export.
    pub open spec fn is_of(self, input: ExportReportInput) -> bool {
        &&& self.chat_id == input.chat_id
        &&& self.chat_title == input.chat_title
        &&& self.scanned_messages == input.counters.scanned_messages
        &&& self.media_found == input.counters.media_found
        &&& self.downloaded == input.counters.downloaded
        &&& self.skipped_existing == input.counters.skipped_existing
        &&& self.failed == input.counters.failed
        &&& self.last_checkpoint_message_id == input.last_checkpoint_message_id
        &&& self.output_dir == input.output_dir
        &&& self.duration_ms == input.duration_ms
        &&& count_pairs(self.per_kind@) == input.counters.per_kind.pairs(7)
        &&& self.flood_wait_count == input.pacing_stats.flood_wait_count
        &&& self.flood_sleep_ms_total == input.pacing_stats.flood_sleep_ms_total
    }

    /// The report of an export.
    pub fn new(input: ExportReportInput) -> (report: ExportReport)
        ensures
            report.is_of(input),
    {
        let per_kind = input.counters.per_kind.by_name();
        ExportReport {
            chat_id: input.chat_id,
            chat_title: input.chat_title,
            scanned_messages: input.counters.scanned_messages,
            media_found: input.counters.media_found,
            downloaded: input.counters.downloaded,
            skipped_existing: input.counters.skipped_existing,
            failed: input.counters.failed,
            last_checkpoint_message_id: input.last_checkpoint_message_id,
            output_dir: input.output_dir,
            duration_ms: input.duration_ms,
            per_kind,
            flood_wait_count: input.pacing_stats.flood_wait_count,
            flood_sleep_ms_total: input.pacing_stats.flood_sleep_ms_total,
        }
    }

    /// The report for people, line by line.
    pub fn human(&self) -> (out: String)
        ensures
            out@ == text::joined(self.lines(), "\n"@),
    {
        let mut lines: Vec<String> = Vec::new();
        let chat = render_chat(self.chat_title.as_str(), self.chat_id);
        push_text(&mut lines, "Target chat        : ", chat.as_str());
        push_count(&mut lines, "Scanned messages   : ", self.scanned_messages as u128);
        push_count(&mut lines, "Media found        : ", self.media_found as u128);
        push_count(&mut lines, "Downloaded         : ", self.downloaded as u128);
        push_count(&mut lines, "Skipped existing   : ", self.skipped_existing as u128);
        push_count(&mut lines, "Failed             : ", self.failed as u128);
        let checkpoint = render_optional_id(self.last_checkpoint_message_id);
        push_text(&mut lines, "Checkpoint         : ", checkpoint.as_str());
        push_text(&mut lines, "Output directory   : ", self.output_dir.as_str());
        let duration = format_duration(self.duration_ms);
        push_text(&mut lines, "Duration           : ", duration.as_str());
        push_count(&mut lines, "Flood waits        : ", self.flood_wait_count as u128);
        if self.per_kind.len() > 0 {
            let kinds = render_counts(&self.per_kind);
            push_text(&mut lines, "Per kind           : ", kinds.as_str());
        }
        assert(text::texts(lines@) =~= self.lines());
        text::join(&lines, "\n")
    }
}

impl RunArtifact {
    /// The record of a run that succeeded.
    pub fn success(
        run_id: i64,
        operation: &str,
        requested_chat: Option<String>,
        report: ExportReport,
        finished_at: Timestamp,
    ) -> (artifact: RunArtifact)
        ensures
            artifact.run_id == run_id,
            artifact.operation@ == operation@,
            artifact.requested_chat == requested_chat,
            artifact.finished_at == finished_at,
            artifact.outcome == RunOutcome::Succeeded,
            artifact.report == Some(report),
            artifact.error is None,
    {
        RunArtifact {
            run_id,
            operation: operation.to_string(),
            requested_chat,
            finished_at,
            outcome: RunOutcome::Succeeded,
            report: Some(report),
            error: None,
        }
    }

    /// The record of a run that failed.
    pub fn failure(
        run_id: i64,
        operation: &str,
        requested_chat: Option<String>,
        error: String,
        finished_at: Timestamp,
    ) -> (artifact: RunArtifact)
        ensures
            artifact.run_id == run_id,
            artifact.operation@ == operation@,
            artifact.requested_chat == requested_chat,
            artifact.finished_at == finished_at,
            artifact.outcome == RunOutcome::Failed,
            artifact.report is None,
            artifact.error == Some(error),
    {
        RunArtifact {
            run_id,
            operation: operation.to_string(),
            requested_chat,
            finished_at,
            outcome: RunOutcome::Failed,
            report: None,
            error: Some(error),
        }
    }

    /// The record of a run that was interrupted.
    pub fn interrupted(
        run_id: i64,
        operation: &str,
        requested_chat: Option<String>,
        report: ExportReport,
        message: String,
        finished_at: Timestamp,
    ) -> (artifact: RunArtifact)
        ensures
            artifact.run_id == run_id,
            artifact.operation@ == operation@,
            artifact.requested_chat == requested_chat,
            artifact.finished_at == finished_at,
            artifact.outcome == RunOutcome::Interrupted,
            artifact.report == Some(report),
            artifact.error == Some(message),
    {
        RunArtifact {
            run_id,
            operation: operation.to_string(),
            requested_chat,
            finished_at,
            outcome: RunOutcome::Interrupted,
            report: Some(report),
            error: Some(message),
        }
    }
}

/// How many files of a kind are among those found.
pub open spec fn found_of_kind(kinds: Seq<MediaKind>, kind: MediaKind) -> int {
    kinds.filter(|found: MediaKind| found == kind).len() as int
}

/// Files that are found are counted once in all and once under their kind, as far as the counts go, and
/// change no other count.
pub proof fn found_files_are_counted(counters: ExportCounters, kinds: Seq<MediaKind>, kind: MediaKind)
    ensures
        ({
            let after = counters.with_all_found(kinds);
            &&& after.media_found == capped(counters.media_found + kinds.len())
            &&& after.per_kind.of(kind) == capped(
                counters.per_kind.of(kind) + found_of_kind(kinds, kind),
            )
            &&& after.downloaded == counters.downloaded
            &&& after.skipped_existing == counters.skipped_existing
            &&& after.failed == counters.failed
            &&& after.scanned_messages == counters.scanned_messages
        }),
    decreases kinds.len(),
{
    reveal(Seq::filter);
    if kinds.len() > 0 {
        let init = kinds.drop_last();
        let before = counters.with_all_found(init);
        found_files_are_counted(counters, init, kind);
        one_more_is_counted(before.per_kind, kinds.last(), kind);
        assert(counters.with_all_found(kinds) == before.with_found(kinds.last()));
        assert(found_of_kind(kinds, kind) == found_of_kind(init, kind) + if kinds.last() == kind {
            1int
        } else {
            0
        });
    } else {
        assert(found_of_kind(kinds, kind) == 0);
    }
}

proof fn one_more_is_counted(counts: KindCounts, found: MediaKind, kind: MediaKind)
    ensures
        counts.plus_one(found).of(kind) == capped(
            counts.of(kind) + if found == kind {
                1int
            } else {
                0
            },
        ),
{
}

/// The sum of the counts of a list.
pub open spec fn sum_of(pairs: Seq<(Seq<char>, usize)>) -> int
    decreases pairs.len(),
{
    if pairs.len() == 0 {
        0
    } else {
        sum_of(pairs.drop_last()) + pairs.last().1
    }
}

/// The counts that a report lists add up to all files, and every kind with a count is listed with it.
pub proof fn listed_counts_add_up(counts: KindCounts, kind: MediaKind)
    ensures
        sum_of(counts.pairs(7)) == counts.total(),
        counts.of(kind) > 0 ==> counts.pairs(7).contains((kind.name(), counts.of(kind))),
        counts.total() == 0 ==> counts.pairs(7).len() == 0,
        forall|i: int| 0 <= i < counts.pairs(7).len() ==> (#[trigger] counts.pairs(7)[i]).1 > 0,
{
    listed_so_far(counts, 1, kind);
    listed_so_far(counts, 2, kind);
    listed_so_far(counts, 3, kind);
    listed_so_far(counts, 4, kind);
    listed_so_far(counts, 5, kind);
    listed_so_far(counts, 6, kind);
    listed_so_far(counts, 7, kind);
    assert(sum_of(counts.pairs(0)) == 0);
    if counts.pairs(7).len() > 0 {
        let first = counts.pairs(7)[0];
        assert(first.1 > 0);
        counts_are_positive(counts.pairs(7));
    }
}

proof fn counts_are_positive(pairs: Seq<(Seq<char>, usize)>)
    requires
        forall|i: int| 0 <= i < pairs.len() ==> (#[trigger] pairs[i]).1 > 0,
    ensures
        sum_of(pairs) >= pairs.len(),
    decreases pairs.len(),
{
    if pairs.len() > 0 {
        let init = pairs.drop_last();
        assert forall|i: int| 0 <= i < init.len() implies (#[trigger] init[i]).1 > 0 by {
            assert(init[i] == pairs[i]);
        }
        counts_are_positive(init);
        assert(pairs[pairs.len() - 1].1 > 0);
    }
}

proof fn listed_so_far(counts: KindCounts, upto: nat, kind: MediaKind)
    requires
        0 < upto <= 7,
    ensures
        sum_of(counts.pairs(upto)) == sum_of(counts.pairs((upto - 1) as nat)) + counts.of(
            kind_by_name(upto - 1),
        ),
        counts.pairs((upto - 1) as nat).contains((kind.name(), counts.of(kind))) ==> counts.pairs(
            upto,
        ).contains((kind.name(), counts.of(kind))),
        kind_by_name(upto - 1) == kind && counts.of(kind) > 0 ==> counts.pairs(upto).contains(
            (kind.name(), counts.of(kind)),
        ),
        (forall|i: int|
            0 <= i < counts.pairs((upto - 1) as nat).len() ==> (#[trigger] counts.pairs(
                (upto - 1) as nat,
            )[i]).1 > 0) ==> forall|i: int|
            0 <= i < counts.pairs(upto).len() ==> (#[trigger] counts.pairs(upto)[i]).1 > 0,
{
    let before = counts.pairs((upto - 1) as nat);
    let list = counts.pairs(upto);
    let next = kind_by_name(upto - 1);
    let pair = (kind.name(), counts.of(kind));
    if counts.of(next) > 0 {
        assert(list == before.push((next.name(), counts.of(next))));
        assert(list.drop_last() =~= before);
        assert(list[before.len() as int] == (next.name(), counts.of(next)));
        if before.contains(pair) {
            let i = choose|i: int| 0 <= i < before.len() && before[i] == pair;
            assert(list[i] == pair);
        }
    } else {
        assert(list == before);
    }
}

/// A report tells what was counted: each figure is that of the export, and the kinds add up to the files
/// found where they did so before.
pub proof fn reports_tell_what_was_counted(report: ExportReport, input: ExportReportInput)
    requires
        report.is_of(input),
    ensures
        report.chat_id == input.chat_id,
        report.scanned_messages == input.counters.scanned_messages,
        report.media_found == input.counters.media_found,
        report.downloaded == input.counters.downloaded,
        report.skipped_existing == input.counters.skipped_existing,
        report.failed == input.counters.failed,
        report.last_checkpoint_message_id == input.last_checkpoint_message_id,
        report.flood_wait_count == input.pacing_stats.flood_wait_count,
        report.flood_sleep_ms_total == input.pacing_stats.flood_sleep_ms_total,
        input.counters.per_kind.total() == input.counters.media_found ==> sum_of(
            count_pairs(report.per_kind@),
        ) == report.media_found,
{
    listed_counts_add_up(input.counters.per_kind, MediaKind::Photo);
}

} // verus!
