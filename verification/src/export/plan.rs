//! Plans: what an export would download, found out without downloading.

use std::collections::VecDeque;

use vstd::prelude::*;

use crate::error::AppError;
use crate::error::Result;
use crate::export::processor;
use crate::export::processor::PlannedMessage;
use crate::export::progress;
use crate::export::scope;
use crate::export::state;
use crate::export::state::SavedPlan;
use crate::hashing;
use crate::number;
use crate::path;
use crate::report;
use crate::report::{KindCount, KindCounts};
use crate::storage;
use crate::storage::{CompleteExportPlan, ExportPlanRecord, MediaItemView, PersistedMediaItem};
use crate::text;
use crate::types::{
    CheckpointState, ExportOptions, MediaDescriptor, MediaFilter, MediaKind, ScannedMessage,
};

verus! {

/// What a plan found.
#[derive(Debug)]
pub struct ExportPlanReport {
    pub chat_id: i64,
    pub chat_title: String,
    pub output_dir: String,
    pub mode: String,
    pub scope: String,
    pub media_filter: Vec<String>,
    pub save_queue: bool,
    pub plan_id: Option<i64>,
    pub scanned_messages: usize,
    pub media_found: usize,
    pub skipped_existing: usize,
    pub would_queue: usize,
    pub estimated_bytes: u64,
    pub per_kind: Vec<KindCount>,
    pub duration_ms: u128,
}

/// The id of a plan as text, `none` where it was not saved.
pub open spec fn plan_id_text(id: Option<i64>) -> Seq<char> {
    match id {
        Some(value) => number::int_text(value as int),
        None => "none"@,
    }
}

impl ExportPlanReport {
    /// The lines of the report for people.
    pub open spec fn lines(self) -> Seq<Seq<char>> {
        let always = seq![
            "Target chat        : "@ + report::chat_text(self.chat_title@, self.chat_id as int),
            "Output directory   : "@ + self.output_dir@,
            "Mode               : "@ + self.mode@,
            "Scope              : "@ + self.scope@,
            "Media types        : "@ + text::joined(text::texts(self.media_filter@), ", "@),
            "Saved queue        : "@ + progress::yes_no_text(self.save_queue),
            "Plan id            : "@ + plan_id_text(self.plan_id),
            "Scanned messages   : "@ + number::nat_text(self.scanned_messages as nat),
            "Media found        : "@ + number::nat_text(self.media_found as nat),
            "Skipped existing   : "@ + number::nat_text(self.skipped_existing as nat),
            "Would queue        : "@ + number::nat_text(self.would_queue as nat),
            "Estimated bytes    : "@ + number::nat_text(self.estimated_bytes as nat),
            "Duration           : "@ + report::duration_text(self.duration_ms as nat),
        ];
        let kinds = report::count_text(report::count_pairs(self.per_kind@));
        if kinds.len() == 0 {
            always
        } else {
            always.push("Per kind           : "@ + kinds)
        }
    }

    /// The report for people, line by line.
    pub fn human(&self) -> (out: String)
        ensures
            out@ == text::joined(self.lines(), "\n"@),
    {
        let mut lines: Vec<String> = Vec::new();
        let chat = report::render_chat(self.chat_title.as_str(), self.chat_id);
        report::push_text(&mut lines, "Target chat        : ", chat.as_str());
        report::push_text(&mut lines, "Output directory   : ", self.output_dir.as_str());
        report::push_text(&mut lines, "Mode               : ", self.mode.as_str());
        report::push_text(&mut lines, "Scope              : ", self.scope.as_str());
        let filter = text::join(&self.media_filter, ", ");
        report::push_text(&mut lines, "Media types        : ", filter.as_str());
        report::push_text(&mut lines, "Saved queue        : ", progress::yes_no(self.save_queue));
        let plan_id = match self.plan_id {
            Some(id) => number::signed_decimal(id),
            None => "none".to_string(),
        };
        report::push_text(&mut lines, "Plan id            : ", plan_id.as_str());
        report::push_count(&mut lines, "Scanned messages   : ", self.scanned_messages as u128);
        report::push_count(&mut lines, "Media found        : ", self.media_found as u128);
        report::push_count(&mut lines, "Skipped existing   : ", self.skipped_existing as u128);
        report::push_count(&mut lines, "Would queue        : ", self.would_queue as u128);
        report::push_count(&mut lines, "Estimated bytes    : ", self.estimated_bytes as u128);
        let duration = report::format_duration(self.duration_ms);
        report::push_text(&mut lines, "Duration           : ", duration.as_str());
        let kinds = report::render_counts(&self.per_kind);
        if !kinds.as_str().is_empty() {
            report::push_text(&mut lines, "Per kind           : ", kinds.as_str());
        }
        assert(text::texts(lines@) =~= self.lines());
        text::join(&lines, "\n")
    }
}

/// What a plan has counted so far.
#[derive(Debug, Clone, Copy, PartialEq, Eq, Structural)]
pub struct ExportPlanCounters {
    pub scanned_messages: usize,
    pub media_found: usize,
    pub skipped_existing: usize,
    pub would_queue: usize,
    pub estimated_bytes: u64,
    pub per_kind: KindCounts,
}

/// The counters before anything was counted.
pub open spec fn no_plan_counts() -> ExportPlanCounters {
    ExportPlanCounters {
        scanned_messages: 0,
        media_found: 0,
        skipped_existing: 0,
        would_queue: 0,
        estimated_bytes: 0,
        per_kind: report::no_counts().per_kind,
    }
}

impl ExportPlanCounters {
    /// The counters with one more file found.
    pub open spec fn with_file<H>(self, media: MediaDescriptor<H>) -> ExportPlanCounters {
        let size: int = match media.file_size_bytes {
            Some(bytes) if bytes > 0 => bytes as int,
            _ => 0,
        };
        ExportPlanCounters {
            media_found: report::capped(self.media_found + 1) as usize,
            estimated_bytes: number::capped_u64(
                self.estimated_bytes + size,
            ) as u64,
            per_kind: self.per_kind.plus_one(media.kind),
            ..self
        }
    }

    /// The counters with the files of a message that are in the filter.
    pub open spec fn with_files<H>(
        self,
        media: Seq<MediaDescriptor<H>>,
        filter: MediaFilter,
    ) -> ExportPlanCounters
        decreases media.len(),
    {
        if media.len() == 0 {
            self
        } else {
            let before = self.with_files(media.drop_last(), filter);
            if filter.has(media.last().kind) {
                before.with_file(media.last())
            } else {
                before
            }
        }
    }

    fn count_files<H>(&mut self, media: &[MediaDescriptor<H>], filter: &MediaFilter)
        ensures
            *final(self) == old(self).with_files(media@, *filter),
    {
        let ghost start = *self;
        let mut i: usize = 0;
        while i < media.len()
            invariant
                i <= media@.len(),
                *self == start.with_files(media@.take(i as int), *filter),
            decreases media@.len() - i,
        {
            assert(media@.take(i + 1).drop_last() =~= media@.take(i as int));
            if filter.contains(media[i].kind) {
                let size: u64 = match media[i].file_size_bytes {
                    Some(bytes) => if bytes > 0 {
                        bytes as u64
                    } else {
                        0
                    },
                    None => 0,
                };
                self.media_found = self.media_found.saturating_add(1);
                self.estimated_bytes = self.estimated_bytes.saturating_add(size);
                self.per_kind.add_one(media[i].kind);
            }
            i += 1;
        }
        assert(media@.take(i as int) =~= media@);
    }
}

/// What a plan is at.
#[derive(Debug, Clone, Copy, PartialEq, Eq, Structural)]
pub enum PlanPhase {
    Idle,
    Fetching,
    Scanning,
    Planning { message_id: i32 },
    Checking,
    Done,
}

/// What a plan asks for next, in the model.
pub enum PlanActionView<H> {
    Continue,
    FetchHistory { offset_id: Option<i32>, before: Option<int> },
    Plan(ScannedMessage<H>),
    Commit(Seq<MediaItemView>),
    Finished { interrupted: bool },
}

/// The state of a plan. `seen` holds the message ids that the scan has passed, `awaited` the kinds of
/// the files of which it is not known yet what an export would do with them.
#[verifier::ext_equal]
pub struct PlanState<H> {
    pub options: ExportOptions,
    pub save_queue: bool,
    pub counters: ExportPlanCounters,
    pub checkpoint: CheckpointState,
    pub phase: PlanPhase,
    pub batch: Seq<ScannedMessage<H>>,
    pub position: Option<i32>,
    pub interrupted: bool,
    pub outbox: Option<Seq<MediaItemView>>,
    pub seen: Set<int>,
    pub awaited: Seq<MediaKind>,
}

/// The kinds of the files of a message that a plan looks at.
pub open spec fn selected_kinds<H>(media: Seq<MediaDescriptor<H>>, filter: MediaFilter) -> Seq<MediaKind> {
    processor::selected(media, filter).map_values(|item: MediaDescriptor<H>| item.kind)
}

impl<H> PlanState<H> {
    pub open spec fn initial(options: ExportOptions, chat_id: i64, save_queue: bool) -> PlanState<H> {
        PlanState {
            options,
            save_queue,
            counters: no_plan_counts(),
            checkpoint: scope::fresh_checkpoint(chat_id),
            phase: PlanPhase::Idle,
            batch: Seq::<ScannedMessage<H>>::empty(),
            position: match options.until_id {
                Some(id) => Some(
                    if id == i32::MAX {
                        i32::MAX
                    } else {
                        (id + 1) as i32
                    },
                ),
                None => None,
            },
            interrupted: false,
            outbox: None,
            seen: Set::<int>::empty(),
            awaited: Seq::<MediaKind>::empty(),
        }
    }

    pub open spec fn at(self, phase: PlanPhase) -> PlanState<H> {
        PlanState { phase, ..self }
    }

    pub open spec fn passed(self, id: i32) -> PlanState<H> {
        PlanState {
            seen: self.seen.union(state::stretch(id as int, self.position)).insert(id as int),
            position: Some(id),
            ..self
        }
    }

    pub open spec fn at_limit(self) -> bool {
        self.options.limit is Some && self.counters.scanned_messages >= self.options.limit->0
    }

    /// What follows.
    pub open spec fn next(self, shutdown: bool) -> (PlanState<H>, PlanActionView<H>) {
        if self.outbox is Some {
            (PlanState { outbox: None, ..self }, PlanActionView::Commit(self.outbox->0))
        } else {
            match self.phase {
                PlanPhase::Idle => if shutdown {
                    (
                        PlanState { interrupted: true, ..self }.at(PlanPhase::Done),
                        PlanActionView::Continue,
                    )
                } else {
                    (
                        self.at(PlanPhase::Fetching),
                        PlanActionView::FetchHistory {
                            offset_id: self.position,
                            before: match (self.position, self.options.date_to) {
                                (None, Some(date)) => Some((date.epoch_day() + 1) * 86400),
                                _ => None,
                            },
                        },
                    )
                },
                PlanPhase::Scanning => if self.batch.len() == 0 {
                    (self.at(PlanPhase::Idle), PlanActionView::Continue)
                } else {
                    let message = self.batch[0];
                    let id = message.message_id;
                    let date = message.date.civil_date();
                    let rest = PlanState { batch: self.batch.drop_first(), ..self.passed(id) };
                    if scope::in_scope(id, date, self.options) {
                        let counted = self.counters.with_files(
                            message.media@,
                            self.options.media_filter,
                        );
                        (
                            PlanState {
                                counters: ExportPlanCounters {
                                    scanned_messages: report::capped(
                                        counted.scanned_messages + 1,
                                    ) as usize,
                                    ..counted
                                },
                                awaited: selected_kinds(message.media@, self.options.media_filter),
                                ..rest
                            }.at(PlanPhase::Planning { message_id: id }),
                            PlanActionView::Plan(message),
                        )
                    } else if scope::past_scope(id, date, self.options) {
                        (self.at(PlanPhase::Done), PlanActionView::Continue)
                    } else {
                        (rest, PlanActionView::Continue)
                    }
                },
                PlanPhase::Checking => if shutdown {
                    (
                        PlanState { interrupted: true, ..self }.at(PlanPhase::Done),
                        PlanActionView::Continue,
                    )
                } else if self.at_limit() {
                    (self.at(PlanPhase::Done), PlanActionView::Continue)
                } else {
                    (self.at(PlanPhase::Scanning), PlanActionView::Continue)
                },
                PlanPhase::Done => (
                    self,
                    PlanActionView::Finished { interrupted: self.interrupted },
                ),
                _ => (self, PlanActionView::Continue),
            }
        }
    }

    /// The state when messages have come; none stand for the end of the history.
    pub open spec fn with_messages(self, messages: Seq<ScannedMessage<H>>) -> PlanState<H> {
        if self.phase != PlanPhase::Fetching {
            self
        } else if messages.len() > 0 {
            PlanState { batch: messages, ..self }.at(PlanPhase::Scanning)
        } else {
            PlanState {
                checkpoint: CheckpointState { backfill_complete: true, ..self.checkpoint },
                seen: self.seen.union(state::rest_below(self.position)),
                ..self
            }.at(PlanPhase::Done)
        }
    }

    /// The state when it is known what an export would do with the files of a message.
    pub open spec fn with_plan(
        self,
        records: Seq<MediaItemView>,
        jobs: nat,
        kept: nat,
    ) -> PlanState<H> {
        match self.phase {
            PlanPhase::Planning { message_id } => PlanState {
                counters: ExportPlanCounters {
                    skipped_existing: report::capped(
                        self.counters.skipped_existing + kept,
                    ) as usize,
                    would_queue: report::capped(self.counters.would_queue + jobs) as usize,
                    ..self.counters
                },
                outbox: if self.save_queue && records.len() > 0 {
                    Some(records)
                } else {
                    None
                },
                checkpoint: CheckpointState {
                    high_watermark_message_id: match self.checkpoint.high_watermark_message_id {
                        Some(high) => Some(high),
                        None => Some(message_id),
                    },
                    backfill_cursor_message_id: Some(message_id),
                    ..self.checkpoint
                },
                awaited: Seq::<MediaKind>::empty(),
                ..self
            }.at(PlanPhase::Checking),
            _ => self,
        }
    }
}

/// What a plan asks for next.
#[derive(Debug)]
pub enum PlanAction<H> {
    /// Nothing: ask again.
    Continue,
    /// Fetch messages as for an export, then call `on_messages`.
    FetchHistory { offset_id: Option<i32>, before: Option<i64> },
    /// Find out what to do with the files of the message, then call `on_planned`.
    Plan(ScannedMessage<H>),
    /// Write these files, together.
    Commit(Vec<PersistedMediaItem>),
    Finished { interrupted: bool },
}

impl<H> View for PlanAction<H> {
    type V = PlanActionView<H>;

    open spec fn view(&self) -> PlanActionView<H> {
        match self {
            PlanAction::Continue => PlanActionView::Continue,
            PlanAction::FetchHistory { offset_id, before } => PlanActionView::FetchHistory {
                offset_id: *offset_id,
                before: match before {
                    Some(seconds) => Some(*seconds as int),
                    None => None,
                },
            },
            PlanAction::Plan(message) => PlanActionView::Plan(*message),
            PlanAction::Commit(items) => PlanActionView::Commit(storage::item_views(items@)),
            PlanAction::Finished { interrupted } => PlanActionView::Finished {
                interrupted: *interrupted,
            },
        }
    }
}

/// A plan in the making.
pub struct PlanSession<H> {
    options: ExportOptions,
    save_queue: bool,
    counters: ExportPlanCounters,
    checkpoint: CheckpointState,
    phase: PlanPhase,
    batch: VecDeque<ScannedMessage<H>>,
    position: Option<i32>,
    interrupted: bool,
    outbox: Option<Vec<PersistedMediaItem>>,
    seen: Ghost<Set<int>>,
    awaited: Ghost<Seq<MediaKind>>,
}

impl<H> View for PlanSession<H> {
    type V = PlanState<H>;

    closed spec fn view(&self) -> PlanState<H> {
        PlanState {
            options: self.options,
            save_queue: self.save_queue,
            counters: self.counters,
            checkpoint: self.checkpoint,
            phase: self.phase,
            batch: self.batch@,
            position: self.position,
            interrupted: self.interrupted,
            outbox: match self.outbox {
                Some(items) => Some(storage::item_views(items@)),
                None => None,
            },
            seen: self.seen@,
            awaited: self.awaited@,
        }
    }
}

impl<H: Copy> PlanSession<H> {
    pub fn new(options: ExportOptions, chat_id: i64, save_queue: bool) -> (session: PlanSession<H>)
        ensures
            session@ == PlanState::<H>::initial(options, chat_id, save_queue),
    {
        let position: Option<i32> = match options.until_id {
            Some(id) => Some(
                if id == i32::MAX {
                    i32::MAX
                } else {
                    id + 1
                },
            ),
            None => None,
        };
        PlanSession {
            options,
            save_queue,
            counters: ExportPlanCounters {
                scanned_messages: 0,
                media_found: 0,
                skipped_existing: 0,
                would_queue: 0,
                estimated_bytes: 0,
                per_kind: KindCounts::zero(),
            },
            checkpoint: scope::empty_checkpoint(chat_id),
            phase: PlanPhase::Idle,
            batch: VecDeque::new(),
            position,
            interrupted: false,
            outbox: None,
            seen: Ghost(Set::empty()),
            awaited: Ghost(Seq::empty()),
        }
    }

    pub fn counters(&self) -> (counters: ExportPlanCounters)
        ensures
            counters == self@.counters,
    {
        self.counters
    }

    pub fn checkpoint(&self) -> (checkpoint: CheckpointState)
        ensures
            checkpoint == self@.checkpoint,
    {
        self.checkpoint
    }

    fn pass(&mut self, id: i32)
        ensures
            final(self)@ == old(self)@.passed(id),
    {
        self.seen = Ghost(
            self.seen@.union(state::stretch(id as int, self.position)).insert(id as int),
        );
        self.position = Some(id);
    }

    /// Says what to do next. `shutdown` tells whether the plan was asked to stop.
    pub fn next(&mut self, shutdown: bool) -> (action: PlanAction<H>)
        ensures
            final(self)@ == old(self)@.next(shutdown).0,
            action@ == old(self)@.next(shutdown).1,
    {
        if let Some(items) = self.outbox.take() {
            return PlanAction::Commit(items);
        }
        match self.phase {
            PlanPhase::Idle => {
                if shutdown {
                    self.interrupted = true;
                    self.phase = PlanPhase::Done;
                    PlanAction::Continue
                } else {
                    self.phase = PlanPhase::Fetching;
                    let before: Option<i64> = match (self.position, self.options.date_to) {
                        (None, Some(date)) => Some(date.end_of_day()),
                        _ => None,
                    };
                    PlanAction::FetchHistory { offset_id: self.position, before }
                }
            },
            PlanPhase::Scanning => self.scan(),
            PlanPhase::Checking => {
                if shutdown {
                    self.interrupted = true;
                    self.phase = PlanPhase::Done;
                } else if reached_plan_limit(&self.options, &self.counters) {
                    self.phase = PlanPhase::Done;
                } else {
                    self.phase = PlanPhase::Scanning;
                }
                PlanAction::Continue
            },
            PlanPhase::Done => PlanAction::Finished { interrupted: self.interrupted },
            _ => PlanAction::Continue,
        }
    }

    fn scan(&mut self) -> (action: PlanAction<H>)
        requires
            old(self)@.phase == PlanPhase::Scanning,
            old(self)@.outbox is None,
        ensures
            final(self)@ == old(self)@.next(false).0,
            action@ == old(self)@.next(false).1,
    {
        if self.batch.len() == 0 {
            self.phase = PlanPhase::Idle;
            return PlanAction::Continue;
        }
        let inside: bool = scope::within_scope(&self.batch[0], &self.options);
        if !inside && scope::should_stop_on_message(&self.batch[0], &self.options) {
            self.phase = PlanPhase::Done;
            return PlanAction::Continue;
        }
        let ghost messages = self.batch@;
        match self.batch.pop_front() {
            Some(message) => {
                assert(self.batch@ =~= messages.drop_first());
                let id: i32 = message.message_id;
                self.pass(id);
                if !inside {
                    return PlanAction::Continue;
                }
                self.counters.count_files(&message.media, &self.options.media_filter);
                self.counters.scanned_messages = self.counters.scanned_messages.saturating_add(1);
                self.awaited = Ghost(
                    selected_kinds(message.media@, self.options.media_filter),
                );
                self.phase = PlanPhase::Planning { message_id: id };
                PlanAction::Plan(message)
            },
            None => PlanAction::Continue,
        }
    }

    /// Takes in the messages that were asked for; none stand for the end of the history.
    pub fn on_messages(&mut self, messages: Vec<ScannedMessage<H>>)
        ensures
            final(self)@ == old(self)@.with_messages(messages@),
    {
        if self.phase != PlanPhase::Fetching {
            return;
        }
        if messages.len() > 0 {
            self.batch = crate::export::session::deque_of(messages);
            self.phase = PlanPhase::Scanning;
        } else {
            self.checkpoint.backfill_complete = true;
            self.seen = Ghost(self.seen@.union(state::rest_below(self.position)));
            self.phase = PlanPhase::Done;
        }
    }

    /// Takes in what an export would do with the files of the message: each is queued or kept.
    pub fn on_planned(&mut self, planned: PlannedMessage<H>)
        ensures
            planned.found().len() == planned.queue().len() + planned.kept(),
            final(self)@ == old(self)@.with_plan(
                storage::item_views(planned.records()),
                planned.queue().len(),
                planned.kept(),
            ),
    {
        let (_kinds, records, jobs, kept) = planned.take_apart();
        if let PlanPhase::Planning { message_id } = self.phase {
            self.counters.skipped_existing = self.counters.skipped_existing.saturating_add(kept);
            self.counters.would_queue = self.counters.would_queue.saturating_add(jobs.len());
            self.outbox = if self.save_queue && records.len() > 0 {
                Some(records)
            } else {
                None
            };
            if self.checkpoint.high_watermark_message_id.is_none() {
                self.checkpoint.high_watermark_message_id = Some(message_id);
            }
            self.checkpoint.backfill_cursor_message_id = Some(message_id);
            self.awaited = Ghost(Seq::empty());
            self.phase = PlanPhase::Checking;
        }
    }
}

/// Whether as many messages were scanned as the plan is limited to.
pub fn reached_plan_limit(options: &ExportOptions, counters: &ExportPlanCounters) -> (yes: bool)
    ensures
        yes == (options.limit is Some && counters.scanned_messages >= options.limit->0),
{
    match options.limit {
        Some(limit) => counters.scanned_messages >= limit,
        None => false,
    }
}

/// The counts of a plan as a JSON object, such as `{"audio":1,"photo":3}`.
pub open spec fn counts_json(pairs: Seq<(Seq<char>, usize)>) -> Seq<char> {
    "{"@ + text::joined(
        pairs.map_values(
            |pair: (Seq<char>, usize)|
                "\""@ + pair.0 + "\":"@ + number::nat_text(pair.1 as nat),
        ),
        ","@,
    ) + "}"@
}

/// `serde_json::to_string` of a map from names to counts: a JSON object without white space, its
/// keys in order. The names of the kinds need no escapes.
#[verifier::external_body]
fn encode_counts(list: &[KindCount]) -> (out: String)
    requires
        exists|counts: KindCounts| report::count_pairs(list@) == #[trigger] counts.pairs(7),
    ensures
        out@ == counts_json(report::count_pairs(list@)),
{
    let map: std::collections::BTreeMap<&str, usize> = list.iter().map(
        |item| (item.kind.as_str(), item.count),
    ).collect();
    serde_json::to_string(&map).unwrap()
}

/// The counts as a JSON object.
pub fn per_kind_json(counts: &KindCounts) -> (out: String)
    ensures
        out@ == counts_json(counts.pairs(7)),
{
    let list = counts.by_name();
    encode_counts(&list)
}

/// What becomes of a stored plan when its scan is over.
#[derive(Debug)]
pub enum PlanEnding {
    Nothing,
    /// The plan with this identifier was interrupted.
    Interrupt(i64),
    Complete(CompleteExportPlan),
}

/// What is stored of a plan whose scan is over.
pub open spec fn is_completed_plan<H>(plan: CompleteExportPlan, s: PlanState<H>, id: i64) -> bool {
    &&& plan.id == id
    &&& plan.planned_high_watermark_message_id == s.checkpoint.high_watermark_message_id
    &&& plan.planned_backfill_cursor_message_id == s.checkpoint.backfill_cursor_message_id
    &&& plan.planned_backfill_complete == s.checkpoint.backfill_complete
    &&& plan.scanned_messages == s.counters.scanned_messages
    &&& plan.media_found == s.counters.media_found
    &&& plan.queued == s.counters.would_queue
    &&& plan.estimated_bytes == s.counters.estimated_bytes
    &&& plan.per_kind_json@ == counts_json(s.counters.per_kind.pairs(7))
}

/// The stored plan that an export takes over, with the checkpoint that it leads to: the one that was
/// found, if the export goes by the checkpoint.
pub fn saved_plan(options: &ExportOptions, found: Option<ExportPlanRecord>) -> (plan: Option<SavedPlan>)
    ensures
        plan == match found {
            Some(record) if scope::moves_checkpoint(*options) => Some(
                SavedPlan {
                    id: record.id,
                    checkpoint: CheckpointState {
                        chat_id: record.chat_id,
                        high_watermark_message_id: record.planned_high_watermark_message_id,
                        backfill_cursor_message_id: record.planned_backfill_cursor_message_id,
                        backfill_complete: record.planned_backfill_complete,
                    },
                },
            ),
            _ => None,
        },
{
    match found {
        Some(record) => if scope::updates_checkpoint(options) {
            Some(
                SavedPlan {
                    id: record.id,
                    checkpoint: CheckpointState {
                        chat_id: record.chat_id,
                        high_watermark_message_id: record.planned_high_watermark_message_id,
                        backfill_cursor_message_id: record.planned_backfill_cursor_message_id,
                        backfill_complete: record.planned_backfill_complete,
                    },
                },
            )
        } else {
            None
        },
        None => None,
    }
}

impl<H: Copy> PlanSession<H> {
    /// What is written when the plan `id` is finished.
    pub fn completed_plan(&self, id: i64) -> (plan: CompleteExportPlan)
        ensures
            is_completed_plan(plan, self@, id),
    {
        CompleteExportPlan {
            id,
            planned_high_watermark_message_id: self.checkpoint.high_watermark_message_id,
            planned_backfill_cursor_message_id: self.checkpoint.backfill_cursor_message_id,
            planned_backfill_complete: self.checkpoint.backfill_complete,
            scanned_messages: self.counters.scanned_messages,
            media_found: self.counters.media_found,
            queued: self.counters.would_queue,
            estimated_bytes: self.counters.estimated_bytes,
            per_kind_json: per_kind_json(&self.counters.per_kind),
        }
    }

    /// What becomes of the stored plan when the scan is over. Without a stored plan there is nothing
    /// to do.
    pub fn ending(&self, plan_id: Option<i64>) -> (ending: PlanEnding)
        ensures
            match plan_id {
                None => ending is Nothing,
                Some(id) if self@.interrupted => ending == PlanEnding::Interrupt(id),
                Some(id) => ending matches PlanEnding::Complete(plan) && is_completed_plan(
                    plan,
                    self@,
                    id,
                ),
            },
    {
        match plan_id {
            None => PlanEnding::Nothing,
            Some(id) => if self.interrupted {
                PlanEnding::Interrupt(id)
            } else {
                PlanEnding::Complete(self.completed_plan(id))
            },
        }
    }

    /// The report of the plan; an interrupted plan has none.
    pub fn report(
        &self,
        chat_id: i64,
        chat_title: &str,
        plan_id: Option<i64>,
        duration_ms: u128,
    ) -> (outcome: Result<ExportPlanReport>)
        ensures
            match outcome {
                Ok(made) => {
                    &&& !self@.interrupted
                    &&& made.chat_id == chat_id
                    &&& made.chat_title@ == chat_title@
                    &&& made.output_dir@ == self@.options.out_dir@
                    &&& made.mode@ == progress::mode_text(self@.options)
                    &&& made.scope@ == progress::scope_text(self@.options)
                    &&& text::texts(made.media_filter@) == self@.options.media_filter.names()
                    &&& made.save_queue == self@.save_queue
                    &&& made.plan_id == plan_id
                    &&& made.scanned_messages == self@.counters.scanned_messages
                    &&& made.media_found == self@.counters.media_found
                    &&& made.skipped_existing == self@.counters.skipped_existing
                    &&& made.would_queue == self@.counters.would_queue
                    &&& made.estimated_bytes == self@.counters.estimated_bytes
                    &&& report::count_pairs(made.per_kind@) == self@.counters.per_kind.pairs(7)
                    &&& made.duration_ms == duration_ms
                },
                Err(error) => {
                    &&& self@.interrupted
                    &&& error is Interrupted
                    &&& error.detail()
                        == "export plan interrupted; saved queue was marked interrupted"@
                },
            },
    {
        if self.interrupted {
            return Err(
                AppError::Interrupted(
                    "export plan interrupted; saved queue was marked interrupted".to_string(),
                ),
            );
        }
        Ok(
            ExportPlanReport {
                chat_id,
                chat_title: chat_title.to_string(),
                output_dir: self.options.out_dir.clone(),
                mode: progress::describe_export_mode(&self.options).to_string(),
                scope: progress::describe_export_scope(&self.options),
                media_filter: self.options.media_filter.kind_names(),
                save_queue: self.save_queue,
                plan_id,
                scanned_messages: self.counters.scanned_messages,
                media_found: self.counters.media_found,
                skipped_existing: self.counters.skipped_existing,
                would_queue: self.counters.would_queue,
                estimated_bytes: self.counters.estimated_bytes,
                per_kind: self.counters.per_kind.by_name(),
                duration_ms,
            },
        )
    }
}

/// Whether an export covers a whole chat and goes by its checkpoint, without a limit.
pub open spec fn is_whole_sync(options: ExportOptions) -> bool {
    scope::moves_checkpoint(options) && options.limit is None
}

pub fn is_canonical_automatic_sync(options: &ExportOptions) -> (yes: bool)
    ensures
        yes == is_whole_sync(*options),
{
    scope::updates_checkpoint(options) && options.limit.is_none()
}

/// An export needs an authorized session and options that fit together.
pub fn check_export_request(authorized: bool, options: &ExportOptions) -> (outcome: Result<()>)
    ensures
        match outcome {
            Ok(_) => authorized && scope::options_error(*options) is None,
            Err(error) => if !authorized {
                error is Authentication && error.detail()
                    == "session is not authorized; run `tgbacky auth` first"@
            } else {
                error is InvalidArgument && scope::options_error(*options) == Some(error.detail())
            },
        },
{
    if !authorized {
        return Err(
            AppError::Authentication(
                "session is not authorized; run `tgbacky auth` first".to_string(),
            ),
        );
    }
    scope::validate_export_options(options)
}

/// A plan needs what an export needs, and can be saved only for a whole chat.
pub fn check_plan_request(authorized: bool, options: &ExportOptions, save_queue: bool) -> (outcome:
    Result<()>)
    ensures
        match outcome {
            Ok(_) => {
                &&& authorized
                &&& scope::options_error(*options) is None
                &&& save_queue ==> is_whole_sync(*options)
            },
            Err(error) => if !authorized {
                error is Authentication && error.detail()
                    == "session is not authorized; run `tgbacky auth` first"@
            } else if scope::options_error(*options) is Some {
                error is InvalidArgument && scope::options_error(*options) == Some(error.detail())
            } else {
                &&& save_queue && !is_whole_sync(*options)
                &&& error is InvalidArgument
                &&& error.detail()
                    == "`export plan --save-queue` only supports automatic full-chat sync in v1; remove bounds, --limit, and --rescan"@
            },
        },
{
    check_export_request(authorized, options)?;
    if save_queue && !is_canonical_automatic_sync(options) {
        return Err(
            AppError::InvalidArgument(
                "`export plan --save-queue` only supports automatic full-chat sync in v1; remove bounds, --limit, and --rescan".to_string(),
            ),
        );
    }
    Ok(())
}

/// The key of a media filter: the names of its kinds with commas between them.
pub fn media_filter_key(filter: &MediaFilter) -> (key: String)
    ensures
        key@ == text::joined(filter.names(), ","@),
{
    let names = filter.kind_names();
    text::join(&names, ",")
}

/// An optional value as text: `Some(..)` or `None`.
pub open spec fn option_text(value: Option<Seq<char>>) -> Seq<char> {
    match value {
        Some(inner) => "Some("@ + inner + ")"@,
        None => "None"@,
    }
}

fn render_option(value: Option<String>) -> (out: String)
    ensures
        out@ == option_text(text::opt_text(value)),
{
    match value {
        Some(inner) => {
            let mut out = "Some(".to_string();
            out.append(inner.as_str());
            out.append(")");
            out
        },
        None => "None".to_string(),
    }
}

pub open spec fn optional_int_text(value: Option<i32>) -> Option<Seq<char>> {
    match value {
        Some(id) => Some(number::int_text(id as int)),
        None => None,
    }
}

pub open spec fn optional_date_text(value: Option<crate::date::Date>) -> Option<Seq<char>> {
    match value {
        Some(date) => Some(date.text()),
        None => None,
    }
}

/// The text that stands for the scope of an export.
pub open spec fn scope_payload(options: ExportOptions) -> Seq<char> {
    "v1|since="@ + option_text(optional_int_text(options.since_id)) + "|until="@ + option_text(
        optional_int_text(options.until_id),
    ) + "|from="@ + option_text(optional_date_text(options.date_from)) + "|to="@ + option_text(
        optional_date_text(options.date_to),
    ) + "|limit="@ + option_text(
        match options.limit {
            Some(limit) => Some(number::nat_text(limit as nat)),
            None => None,
        },
    ) + "|rescan="@ + if options.rescan {
        "true"@
    } else {
        "false"@
    }
}

fn append_part(out: &mut String, label: &str, value: Option<String>)
    ensures
        final(out)@ == old(out)@ + label@ + option_text(text::opt_text(value)),
{
    out.append(label);
    let part = render_option(value);
    out.append(part.as_str());
}

fn optional_int(value: Option<i32>) -> (out: Option<String>)
    ensures
        text::opt_text(out) == optional_int_text(value),
{
    match value {
        Some(id) => Some(number::signed_decimal(id as i64)),
        None => None,
    }
}

fn optional_date(value: Option<crate::date::Date>) -> (out: Option<String>)
    ensures
        text::opt_text(out) == optional_date_text(value),
{
    match value {
        Some(date) => Some(date.to_text()),
        None => None,
    }
}

/// A digest that stands for the scope of an export: plans are found again by it.
pub fn export_scope_hash(options: &ExportOptions) -> (hash: String)
    ensures
        hash@ == hashing::hex_text(
            hashing::sha256(vstd::utf8::encode_utf8(scope_payload(*options))),
        ),
        hash@.len() == 64,
{
    let mut payload = "v1|since=".to_string();
    let since = render_option(optional_int(options.since_id));
    payload.append(since.as_str());
    append_part(&mut payload, "|until=", optional_int(options.until_id));
    append_part(&mut payload, "|from=", optional_date(options.date_from));
    append_part(&mut payload, "|to=", optional_date(options.date_to));
    let limit = match options.limit {
        Some(limit) => Some(number::decimal(limit as u128)),
        None => None,
    };
    append_part(&mut payload, "|limit=", limit);
    payload.append("|rescan=");
    payload.append(
        if options.rescan {
            "true"
        } else {
            "false"
        },
    );
    hashing::digest_of_text(payload.as_str())
}

/// The absolute form of a path that may be relative to the current folder.
pub fn absolute_output_dir(path: &str, current_dir: &str) -> (out: String)
    ensures
        out@ == path::below(current_dir@, path@),
{
    path::join(current_dir, path)
}

/// The output folder under which a plan is stored and found again: the canonical form of the path
/// where it exists, else its absolute form with `.` and `..` resolved by the text alone.
pub fn normalize_plan_output_dir(
    path: &str,
    current_dir: &str,
    canonical: Option<String>,
) -> (out: String)
    ensures
        match canonical {
            Some(existing) => out@ == existing@,
            None => out@ == path::lexical(path::below(current_dir@, path@)),
        },
{
    let absolute = absolute_output_dir(path, current_dir);
    crate::fsutil::normalize_path(absolute.as_str(), canonical)
}

/// What holds of the checkpoint of a plan: it claims passed messages only, and everything from the
/// place where the scan stands up to its watermark was passed.
pub open spec fn plan_is_sound<H>(s: PlanState<H>) -> bool {
    &&& forall|id: int| #[trigger] state::claims(s.checkpoint, id) ==> s.seen.contains(id)
    &&& s.checkpoint.high_watermark_message_id is Some ==> s.position is Some
    &&& s.position is Some && s.checkpoint.high_watermark_message_id is Some ==> forall|id: int|
        s.position->0 <= id <= s.checkpoint.high_watermark_message_id->0 ==> #[trigger] s.seen.contains(
            id,
        )
    &&& s.phase matches PlanPhase::Planning { message_id } ==> s.position == Some(message_id)
        && s.seen.contains(message_id as int)
    &&& s.phase != PlanPhase::Done ==> !s.checkpoint.backfill_complete
}

/// A new plan claims nothing.
pub proof fn new_plans_are_sound<H>(options: ExportOptions, chat_id: i64, save_queue: bool)
    ensures
        plan_is_sound(PlanState::<H>::initial(options, chat_id, save_queue)),
{
}

/// The next step of a plan keeps its checkpoint to passed messages.
pub proof fn plans_stay_sound_next<H>(s: PlanState<H>, shutdown: bool)
    requires
        plan_is_sound(s),
    ensures
        plan_is_sound(s.next(shutdown).0),
{
    let t = s.next(shutdown).0;
    if s.outbox is None && s.phase == PlanPhase::Scanning && s.batch.len() > 0 {
        let m = s.batch[0].message_id;
        assert forall|id: int|
            m <= id && (s.position is Some ==> id < s.position->0) implies state::stretch(
            m as int,
            s.position,
        ).contains(id) by {}
        if t.position == Some(m) && t.checkpoint.high_watermark_message_id is Some {
            assert forall|id: int|
                m <= id <= t.checkpoint.high_watermark_message_id->0 implies #[trigger] t.seen.contains(
                id,
            ) by {
                if s.position is Some && s.position->0 <= id {
                    assert(s.seen.contains(id));
                } else {
                    assert(state::stretch(m as int, s.position).contains(id));
                }
            }
        }
    }
}

/// Messages that come keep the checkpoint of a plan to passed messages.
pub proof fn plans_stay_sound_messages<H>(s: PlanState<H>, messages: Seq<ScannedMessage<H>>)
    requires
        plan_is_sound(s),
    ensures
        plan_is_sound(s.with_messages(messages)),
{
    let t = s.with_messages(messages);
    if s.phase == PlanPhase::Fetching && messages.len() == 0 {
        assert forall|id: int| #[trigger] state::claims(t.checkpoint, id) implies t.seen.contains(id) by {
            if s.position is Some && s.position->0 <= id {
                assert(s.seen.contains(id));
            } else {
                assert(state::rest_below(s.position).contains(id));
            }
        }
    }
}

/// A planned message keeps the checkpoint of a plan to passed messages.
pub proof fn plans_stay_sound_planned<H>(
    s: PlanState<H>,
    records: Seq<MediaItemView>,
    jobs: nat,
    kept: nat,
)
    requires
        plan_is_sound(s),
    ensures
        plan_is_sound(s.with_plan(records, jobs, kept)),
{
    let t = s.with_plan(records, jobs, kept);
    if let PlanPhase::Planning { message_id } = s.phase {
        assert forall|id: int| #[trigger] state::claims(t.checkpoint, id) implies t.seen.contains(id) by {
            if s.checkpoint.high_watermark_message_id is Some {
                assert(s.seen.contains(id));
            }
        }
    }
}

/// A plan whose queue is not saved never hands out anything to be written.
pub proof fn dry_plans_write_nothing<H>(
    s: PlanState<H>,
    shutdown: bool,
    messages: Seq<ScannedMessage<H>>,
    records: Seq<MediaItemView>,
    jobs: nat,
    kept: nat,
)
    requires
        !s.save_queue,
        s.outbox is None,
    ensures
        !(s.next(shutdown).1 is Commit),
        s.next(shutdown).0.outbox is None,
        !s.next(shutdown).0.save_queue,
        s.with_messages(messages).outbox is None,
        !s.with_messages(messages).save_queue,
        s.with_plan(records, jobs, kept).outbox is None,
        !s.with_plan(records, jobs, kept).save_queue,
{
}

/// Every file that a plan has found is queued, kept or awaited, and counted under its kind.
pub open spec fn plan_is_balanced<H>(s: PlanState<H>) -> bool {
    &&& s.counters.media_found == s.counters.would_queue + s.counters.skipped_existing
        + s.awaited.len()
    &&& s.counters.media_found == s.counters.per_kind.total()
    &&& !(s.phase is Planning) ==> s.awaited.len() == 0
}

proof fn counting_files<H>(
    counters: ExportPlanCounters,
    media: Seq<MediaDescriptor<H>>,
    filter: MediaFilter,
)
    requires
        counters.media_found == counters.per_kind.total(),
        counters.media_found + selected_kinds(media, filter).len() <= usize::MAX,
    ensures
        ({
            let after = counters.with_files(media, filter);
            &&& after.media_found == counters.media_found + selected_kinds(media, filter).len()
            &&& after.media_found == after.per_kind.total()
            &&& after.scanned_messages == counters.scanned_messages
            &&& after.would_queue == counters.would_queue
            &&& after.skipped_existing == counters.skipped_existing
        }),
    decreases media.len(),
{
    reveal(Seq::filter);
    if media.len() > 0 {
        counting_files(counters, media.drop_last(), filter);
    }
}

/// A new plan has counted nothing.
pub proof fn new_plans_are_balanced<H>(options: ExportOptions, chat_id: i64, save_queue: bool)
    ensures
        plan_is_balanced(PlanState::<H>::initial(options, chat_id, save_queue)),
{
}

/// The next step of a plan leaves no file uncounted, as long as the counts do not reach their end.
pub proof fn plans_stay_balanced_next<H>(s: PlanState<H>, shutdown: bool)
    requires
        plan_is_balanced(s),
        s.batch.len() > 0 ==> s.counters.media_found + selected_kinds(
            s.batch[0].media@,
            s.options.media_filter,
        ).len() <= usize::MAX,
    ensures
        plan_is_balanced(s.next(shutdown).0),
{
    if s.batch.len() > 0 {
        counting_files(s.counters, s.batch[0].media@, s.options.media_filter);
    }
}

/// Messages that come change nothing in what was counted.
pub proof fn plans_stay_balanced_messages<H>(s: PlanState<H>, messages: Seq<ScannedMessage<H>>)
    requires
        plan_is_balanced(s),
    ensures
        plan_is_balanced(s.with_messages(messages)),
{
}

/// Where a planned message covers exactly the files that were selected from the scanned one, no file
/// is left uncounted.
pub proof fn plans_stay_balanced_planned<H>(
    s: PlanState<H>,
    found: Seq<MediaKind>,
    records: Seq<MediaItemView>,
    jobs: nat,
    kept: nat,
)
    requires
        plan_is_balanced(s),
        s.phase is Planning ==> found == s.awaited,
        found.len() == jobs + kept,
    ensures
        plan_is_balanced(s.with_plan(records, jobs, kept)),
{
}

/// When a plan has ended, each file that it found would be queued or is kept, and the counts of the
/// kinds add up to them.
pub proof fn ended_plans_report_every_file<H>(s: PlanState<H>)
    requires
        plan_is_balanced(s),
        s.phase == PlanPhase::Done,
    ensures
        s.counters.media_found == s.counters.would_queue + s.counters.skipped_existing,
        s.counters.media_found == s.counters.per_kind.total(),
{
}

/// How many messages a plan may scan with a limit: at least one.
pub open spec fn scan_limit(limit: usize) -> int {
    if limit == 0 {
        1
    } else {
        limit as int
    }
}

/// No more messages were scanned than the limit allows, and there is room for another one where the
/// scan goes on.
pub open spec fn plan_is_within_limit<H>(s: PlanState<H>) -> bool {
    s.options.limit matches Some(limit) ==> {
        &&& s.counters.scanned_messages <= scan_limit(limit)
        &&& s.phase is Idle || s.phase is Fetching || s.phase is Scanning
            ==> s.counters.scanned_messages < scan_limit(limit)
    }
}

proof fn counting_files_scans_nothing<H>(
    counters: ExportPlanCounters,
    media: Seq<MediaDescriptor<H>>,
    filter: MediaFilter,
)
    ensures
        counters.with_files(media, filter).scanned_messages == counters.scanned_messages,
    decreases media.len(),
{
    if media.len() > 0 {
        counting_files_scans_nothing(counters, media.drop_last(), filter);
    }
}

/// A new plan has scanned nothing.
pub proof fn new_plans_are_within_limit<H>(options: ExportOptions, chat_id: i64, save_queue: bool)
    ensures
        plan_is_within_limit(PlanState::<H>::initial(options, chat_id, save_queue)),
{
}

/// Whatever happens, a plan scans no more messages than its limit allows.
pub proof fn plans_stay_within_limit<H>(
    s: PlanState<H>,
    shutdown: bool,
    messages: Seq<ScannedMessage<H>>,
    records: Seq<MediaItemView>,
    jobs: nat,
    kept: nat,
)
    requires
        plan_is_within_limit(s),
    ensures
        plan_is_within_limit(s.next(shutdown).0),
        plan_is_within_limit(s.with_messages(messages)),
        plan_is_within_limit(s.with_plan(records, jobs, kept)),
        s.next(shutdown).0.options == s.options,
        s.with_messages(messages).options == s.options,
        s.with_plan(records, jobs, kept).options == s.options,
{
    if s.batch.len() > 0 {
        counting_files_scans_nothing(s.counters, s.batch[0].media@, s.options.media_filter);
    }
}

/// The bytes of a file as far as they are known: a size that is missing or negative counts for nothing.
pub open spec fn known_bytes<H>(media: MediaDescriptor<H>) -> int {
    if media.file_size_bytes is Some && media.file_size_bytes->0 > 0 {
        media.file_size_bytes->0 as int
    } else {
        0
    }
}

/// The known bytes of all files of a list.
pub open spec fn total_bytes<H>(media: Seq<MediaDescriptor<H>>) -> int {
    media.map_values(|item: MediaDescriptor<H>| known_bytes(item)).fold_left(
        0int,
        |sum: int, size: int| sum + size,
    )
}

/// How many files of a list are of a kind.
pub open spec fn files_of_kind<H>(media: Seq<MediaDescriptor<H>>, kind: MediaKind) -> int {
    media.filter(|item: MediaDescriptor<H>| item.kind == kind).len() as int
}

proof fn one_file_more<H>(media: Seq<MediaDescriptor<H>>, kind: MediaKind)
    requires
        media.len() > 0,
    ensures
        total_bytes(media) == total_bytes(media.drop_last()) + known_bytes(media.last()),
        files_of_kind(media, kind) == files_of_kind(media.drop_last(), kind) + if media.last().kind
            == kind {
            1int
        } else {
            0
        },
{
    reveal(Seq::filter);
    let sizes = media.map_values(|item: MediaDescriptor<H>| known_bytes(item));
    assert(sizes.drop_last() =~= media.drop_last().map_values(
        |item: MediaDescriptor<H>| known_bytes(item),
    ));
}

proof fn no_file<H>(kind: MediaKind)
    ensures
        total_bytes(Seq::<MediaDescriptor<H>>::empty()) == 0,
        files_of_kind(Seq::<MediaDescriptor<H>>::empty(), kind) == 0,
{
    reveal(Seq::filter);
    assert(Seq::<MediaDescriptor<H>>::empty().map_values(
        |item: MediaDescriptor<H>| known_bytes(item),
    ) =~= Seq::<int>::empty());
}

proof fn bytes_are_not_negative<H>(media: Seq<MediaDescriptor<H>>)
    ensures
        total_bytes(media) >= 0,
    decreases media.len(),
{
    if media.len() > 0 {
        one_file_more(media, MediaKind::Photo);
        bytes_are_not_negative(media.drop_last());
    } else {
        assert(media =~= Seq::<MediaDescriptor<H>>::empty());
        no_file::<H>(MediaKind::Photo);
    }
}

/// What counting the files of a message adds: the number of the files in the filter, under each kind
/// the files of that kind, and the sum of their known sizes, each as far as the count goes.
pub proof fn counted_files_add_up<H>(
    counters: ExportPlanCounters,
    media: Seq<MediaDescriptor<H>>,
    filter: MediaFilter,
    kind: MediaKind,
)
    ensures
        ({
            let after = counters.with_files(media, filter);
            let chosen = media.filter(|item: MediaDescriptor<H>| filter.has(item.kind));
            &&& after.media_found == report::capped(counters.media_found + chosen.len())
            &&& after.estimated_bytes == number::capped_u64(
                counters.estimated_bytes + total_bytes(chosen),
            )
            &&& after.per_kind.of(kind) == report::capped(
                counters.per_kind.of(kind) + files_of_kind(chosen, kind),
            )
            &&& after.estimated_bytes >= counters.estimated_bytes
            &&& after.skipped_existing == counters.skipped_existing
            &&& after.would_queue == counters.would_queue
        }),
    decreases media.len(),
{
    reveal(Seq::filter);
    let wanted = |item: MediaDescriptor<H>| filter.has(item.kind);
    let chosen = media.filter(wanted);
    bytes_are_not_negative(chosen);
    if media.len() > 0 {
        let init = media.drop_last();
        counted_files_add_up(counters, init, filter, kind);
        bytes_are_not_negative(init.filter(wanted));
        if wanted(media.last()) {
            assert(chosen == init.filter(wanted).push(media.last()));
            assert(chosen.drop_last() =~= init.filter(wanted));
            one_file_more(chosen, kind);
        }
    } else {
        assert(chosen =~= Seq::<MediaDescriptor<H>>::empty());
        no_file::<H>(kind);
    }
}

/// The estimate of a plan grows by the known sizes of the files of each message that is handed out,
/// as far as it goes, and by nothing else: it never falls.
pub proof fn estimates_are_sums<H>(
    s: PlanState<H>,
    shutdown: bool,
    messages: Seq<ScannedMessage<H>>,
    records: Seq<MediaItemView>,
    jobs: nat,
    kept: nat,
)
    ensures
        s.next(shutdown).0.counters.estimated_bytes == number::capped_u64(
            s.counters.estimated_bytes + match s.next(shutdown).1 {
                PlanActionView::Plan(message) => total_bytes(
                    message.media@.filter(
                        |item: MediaDescriptor<H>| s.options.media_filter.has(item.kind),
                    ),
                ),
                _ => 0,
            },
        ),
        s.next(shutdown).0.counters.estimated_bytes >= s.counters.estimated_bytes,
        s.with_messages(messages).counters.estimated_bytes == s.counters.estimated_bytes,
        s.with_plan(records, jobs, kept).counters.estimated_bytes == s.counters.estimated_bytes,
{
    if s.batch.len() > 0 {
        counted_files_add_up(
            s.counters,
            s.batch[0].media@,
            s.options.media_filter,
            MediaKind::Photo,
        );
    }
}

/// What becomes of a planned message: files to be downloaded and files that are kept are counted apart,
/// and what an export would have to do is written exactly if the queue is to be saved.
pub proof fn planned_files_are_told_apart<H>(
    s: PlanState<H>,
    records: Seq<MediaItemView>,
    jobs: nat,
    kept: nat,
)
    requires
        s.phase is Planning,
        s.counters.would_queue + jobs <= usize::MAX,
        s.counters.skipped_existing + kept <= usize::MAX,
    ensures
        ({
            let t = s.with_plan(records, jobs, kept);
            &&& t.counters.would_queue == s.counters.would_queue + jobs
            &&& t.counters.skipped_existing == s.counters.skipped_existing + kept
            &&& t.counters.media_found == s.counters.media_found
            &&& t.counters.scanned_messages == s.counters.scanned_messages
            &&& s.save_queue && records.len() > 0 ==> t.outbox == Some(records)
            &&& !s.save_queue || records.len() == 0 ==> t.outbox is None
            &&& t.checkpoint.backfill_cursor_message_id == Some(s.phase->message_id)
            &&& s.checkpoint.high_watermark_message_id is Some
                ==> t.checkpoint.high_watermark_message_id == s.checkpoint.high_watermark_message_id
            &&& s.checkpoint.high_watermark_message_id is None
                ==> t.checkpoint.high_watermark_message_id == Some(s.phase->message_id)
        }),
{
}

/// A queue is saved only for whole chats: without bounds, without a limit, and not starting over.
pub proof fn only_whole_plans_are_saved(options: ExportOptions)
    ensures
        is_whole_sync(options) <==> options.since_id is None && options.until_id is None
            && options.date_from is None && options.date_to is None && options.limit is None
            && !options.rescan,
{
}

/// What is stored of a plan is what it found, under its own names.
pub proof fn stored_plans_tell_what_was_found<H>(plan: CompleteExportPlan, s: PlanState<H>, id: i64)
    requires
        is_completed_plan(plan, s, id),
    ensures
        plan.id == id,
        plan.planned_high_watermark_message_id == s.checkpoint.high_watermark_message_id,
        plan.planned_backfill_cursor_message_id == s.checkpoint.backfill_cursor_message_id,
        plan.planned_backfill_complete == s.checkpoint.backfill_complete,
        plan.scanned_messages == s.counters.scanned_messages,
        plan.media_found == s.counters.media_found,
        plan.queued == s.counters.would_queue,
        plan.estimated_bytes == s.counters.estimated_bytes,
{
}

} // verus!
