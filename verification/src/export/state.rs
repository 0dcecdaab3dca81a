//! The model of an export: its state, and what each step makes of it.

use vstd::prelude::*;

use crate::export::processor::DownloadJob;
use crate::export::scope;
use crate::export::workers;
use crate::export::workers::{AdaptiveConcurrency, MessageFrontier};
use crate::report;
use crate::report::ExportCounters;
use crate::storage::{MediaItemView, PersistedMediaItem, StoredMediaRecord};
use crate::text;
use crate::types::{CheckpointState, ExportOptions, MediaKind, MediaStatus, ScannedMessage};

verus! {

/// How many messages are asked for at a time.
pub const FETCH_SIZE: usize = 100;

/// The parts of an export, in their order.
#[derive(Debug, Clone, Copy, PartialEq, Eq, Structural)]
pub enum Phase {
    /// Files that were left over are tried again.
    Replay,
    /// The checkpoint of a saved plan is taken over once nothing of it is left.
    Promote,
    /// Messages above the checkpoint are read.
    Newer,
    /// Messages below the checkpoint are read.
    Backfill,
    /// What is queued is downloaded.
    Drain,
    /// What failed is tried one last time.
    Sweep,
    /// The checkpoint is saved.
    Close,
    Done,
}

/// What a part of an export is at.
#[derive(Debug, Clone, Copy, PartialEq, Eq, Structural)]
pub enum Step {
    /// About to ask for messages.
    Idle,
    /// Waiting for messages.
    Fetching,
    /// Going through the messages that came.
    Scanning,
    /// Waiting for the plan of a message, which is queued with a checkpoint.
    Planning { message_id: i32, checkpoint: Option<CheckpointState> },
    /// Waiting for the records of a message that is gone.
    Lookup,
    /// Waiting for the number of messages that are left over.
    Counting,
    /// Starting downloads.
    Starting,
    /// Looking for downloads that have ended.
    Polling,
    /// Waiting for downloads until few enough messages are unsettled.
    Windowing,
    /// Looking whether to stop.
    Checking,
    /// Waiting for all downloads.
    Draining,
}

/// A saved plan, and the checkpoint that it leads to.
#[derive(Debug, Clone, Copy, PartialEq, Eq, Structural)]
pub struct SavedPlan {
    pub id: i64,
    pub checkpoint: CheckpointState,
}

/// How an export ended.
#[derive(Debug, Clone, Copy, PartialEq, Eq, Structural)]
pub enum ExportEnd {
    Completed,
    Interrupted,
}

/// The content of a write to the state database.
pub enum WriteView {
    Commit(Seq<MediaItemView>),
    SaveCheckpoint(CheckpointState),
    SupersedePlan(i64),
}

/// What an export asks for next, in the model.
pub enum ActionView<H> {
    Continue,
    Write(WriteView),
    FetchByIds(Seq<i32>),
    LoadRetryRecords(i32),
    CountRetryable,
    FetchHistory { offset_id: Option<i32>, before: Option<int> },
    Plan(ScannedMessage<H>),
    Start(DownloadJob<H>, PersistedMediaItem),
    PollDownload,
    AwaitDownload,
    AbortDownloads,
    Finished(ExportEnd, Option<i32>),
}

/// The state of an export. `seen` holds the message ids that the scan has passed, and `trusted`
/// those that the checkpoint it started from, or the plan that it took over, vouches for.
/// `vanished` counts the files that failed because their message is gone, and `given_up` the
/// downloads that were running when they were given up, but for those of the last try.
#[verifier::ext_equal]
pub struct SessionState<H> {
    pub options: ExportOptions,
    pub window: usize,
    pub worker_cap: usize,
    pub plan: Option<SavedPlan>,
    pub workers: AdaptiveConcurrency,
    pub checkpoint: CheckpointState,
    pub durable: CheckpointState,
    pub counters: ExportCounters,
    pub phase: Phase,
    pub step: Step,
    pub retry_ids: Seq<i32>,
    pub requested: Seq<i32>,
    pub missing: Seq<i32>,
    pub batch: Seq<ScannedMessage<H>>,
    pub position: Option<i32>,
    pub newest: i32,
    pub old_high: i32,
    pub pending: Seq<DownloadJob<H>>,
    pub final_retry: Seq<DownloadJob<H>>,
    pub active: usize,
    pub frontiers: Seq<MessageFrontier>,
    pub outbox: Seq<WriteView>,
    pub stop: bool,
    pub seen: Set<int>,
    pub trusted: Set<int>,
    pub vanished: int,
    pub given_up: int,
}

/// Whether a checkpoint says that the message with this id needs no more reading.
pub open spec fn claims(checkpoint: CheckpointState, id: int) -> bool {
    match checkpoint.high_watermark_message_id {
        Some(high) => id <= high && (checkpoint.backfill_complete || (match checkpoint.backfill_cursor_message_id {
            Some(cursor) => cursor <= id,
            None => false,
        })),
        None => false,
    }
}

/// The ids that a checkpoint claims.
pub open spec fn claimed(checkpoint: CheckpointState) -> Set<int> {
    Set::new(|id: int| claims(checkpoint, id))
}

/// The ids from `low` up to the place where the scan stands.
pub open spec fn stretch(low: int, position: Option<i32>) -> Set<int> {
    Set::new(|id: int| low <= id && (position is Some ==> id < position->0))
}

/// All ids below the place where the scan stands.
pub open spec fn rest_below(position: Option<i32>) -> Set<int> {
    Set::new(|id: int| position is Some ==> id < position->0)
}

/// The writes that save a list of checkpoints.
pub open spec fn saves(checkpoints: Seq<CheckpointState>) -> Seq<WriteView> {
    checkpoints.map_values(|checkpoint: CheckpointState| WriteView::SaveCheckpoint(checkpoint))
}

/// The record of a file whose download is being started.
pub open spec fn loading_record(record: PersistedMediaItem) -> PersistedMediaItem {
    PersistedMediaItem { status: MediaStatus::Downloading, error_message: None, ..record }
}

/// The record of a file whose message is gone.
pub open spec fn refetch_failure(record: StoredMediaRecord) -> MediaItemView {
    MediaItemView {
        chat_id: record.chat_id,
        message_id: record.message_id,
        message_date: record.message_date,
        kind: record.kind,
        telegram_media_key: record.telegram_media_key@,
        mime_type: None,
        file_size_bytes: record.file_size_bytes,
        local_path: record.local_path@,
        sha256: text::opt_text(record.sha256),
        status: MediaStatus::Failed,
        error_message: Some("planned media could not be refetched from Telegram message"@),
    }
}

/// Whether a message with this id is among `messages`.
pub open spec fn came_back<H>(messages: Seq<ScannedMessage<H>>, id: i32) -> bool {
    exists|i: int| 0 <= i < messages.len() && (#[trigger] messages[i]).message_id == id
}

/// The ids that were asked for and did not come back.
pub open spec fn gone<H>(requested: Seq<i32>, messages: Seq<ScannedMessage<H>>) -> Seq<i32> {
    requested.filter(|id: i32| !came_back(messages, id))
}

/// The first `FETCH_SIZE` ids.
pub open spec fn first_chunk(ids: Seq<i32>) -> Seq<i32> {
    if ids.len() <= FETCH_SIZE {
        ids
    } else {
        ids.take(FETCH_SIZE as int)
    }
}

/// The ids behind the first `FETCH_SIZE`.
pub open spec fn later_chunks(ids: Seq<i32>) -> Seq<i32> {
    if ids.len() <= FETCH_SIZE {
        Seq::<i32>::empty()
    } else {
        ids.skip(FETCH_SIZE as int)
    }
}

impl<H> SessionState<H> {
    /// The state before the first step. An export that goes by the checkpoint first tries left-over
    /// files again; any other starts to read at once.
    pub open spec fn initial(
        options: ExportOptions,
        checkpoint: CheckpointState,
        plan: Option<SavedPlan>,
        retry_ids: Seq<i32>,
        worker_cap: usize,
        window: usize,
    ) -> SessionState<H> {
        let start = SessionState {
            options,
            window,
            worker_cap,
            plan,
            workers: AdaptiveConcurrency::initial(worker_cap),
            checkpoint,
            durable: checkpoint,
            counters: report::no_counts(),
            phase: Phase::Replay,
            step: Step::Idle,
            retry_ids,
            requested: Seq::<i32>::empty(),
            missing: Seq::<i32>::empty(),
            batch: Seq::<ScannedMessage<H>>::empty(),
            position: None,
            newest: 0,
            old_high: 0,
            pending: Seq::<DownloadJob<H>>::empty(),
            final_retry: Seq::<DownloadJob<H>>::empty(),
            active: 0,
            frontiers: Seq::<MessageFrontier>::empty(),
            outbox: Seq::<WriteView>::empty(),
            stop: false,
            seen: Set::<int>::empty(),
            trusted: claimed(checkpoint),
            vanished: 0,
            given_up: 0,
        };
        if scope::moves_checkpoint(options) {
            start
        } else {
            start.enter_backfill()
        }
    }

    /// Whether the export goes by the checkpoint and moves it on.
    pub open spec fn moves(self) -> bool {
        scope::moves_checkpoint(self.options)
    }

    /// Whether the limit on messages is reached.
    pub open spec fn at_limit(self) -> bool {
        self.options.limit is Some && self.counters.scanned_messages >= self.options.limit->0
    }

    /// The state once the settled frontiers at the front have given their checkpoints free.
    pub open spec fn settled(self) -> SessionState<H> {
        let freed = workers::released(self.frontiers);
        SessionState {
            frontiers: workers::unsettled(self.frontiers),
            outbox: self.outbox + saves(freed),
            durable: if freed.len() > 0 {
                freed.last()
            } else {
                self.durable
            },
            ..self
        }
    }

    /// The state with a frontier put behind the others.
    pub open spec fn with_frontier(self, frontier: MessageFrontier) -> SessionState<H> {
        SessionState { frontiers: self.frontiers.push(frontier), ..self }
    }

    /// Whether a download can be started.
    pub open spec fn startable(self, shutdown: bool) -> bool {
        !shutdown && self.active < self.workers.current_limit && self.pending.len() > 0
    }

    /// Starts the first download that is waiting.
    pub open spec fn started(self) -> (SessionState<H>, ActionView<H>) {
        let job = self.pending[0];
        (
            SessionState {
                pending: self.pending.drop_first(),
                active: (self.active + 1) as usize,
                ..self
            },
            ActionView::Start(job, loading_record(job.pending_record)),
        )
    }

    pub open spec fn at(self, phase: Phase, step: Step) -> SessionState<H> {
        SessionState { phase, step, ..self }
    }

    /// Goes on to the downloads, or ends at once where the export is to stop.
    pub open spec fn enter_drain(self) -> SessionState<H> {
        if self.stop {
            self.at(Phase::Close, Step::Idle)
        } else {
            self.at(Phase::Drain, Step::Draining)
        }
    }

    /// Goes on to the messages below the checkpoint, where there may be any.
    pub open spec fn enter_backfill(self) -> SessionState<H> {
        if !self.stop && (!self.moves() || !self.checkpoint.backfill_complete) {
            SessionState {
                position: if self.moves() {
                    self.checkpoint.backfill_cursor_message_id
                } else {
                    match self.options.until_id {
                        Some(id) => Some(
                            if id == i32::MAX {
                                i32::MAX
                            } else {
                                (id + 1) as i32
                            },
                        ),
                        None => None,
                    }
                },
                ..self.at(Phase::Backfill, Step::Idle)
            }
        } else {
            self.enter_drain()
        }
    }

    /// Goes on to the messages above the checkpoint, where it has a watermark.
    pub open spec fn enter_newer(self) -> SessionState<H> {
        match self.checkpoint.high_watermark_message_id {
            Some(high) if self.moves() => SessionState {
                position: None,
                newest: high,
                old_high: high,
                ..self.at(Phase::Newer, Step::Idle)
            },
            _ => self.enter_backfill(),
        }
    }

    /// The messages above the checkpoint have all been read: the watermark moves up once they are
    /// settled.
    pub open spec fn newer_done(self) -> SessionState<H> {
        let checkpoint = CheckpointState {
            high_watermark_message_id: Some(self.newest),
            ..self.checkpoint
        };
        SessionState {
            checkpoint,
            batch: Seq::<ScannedMessage<H>>::empty(),
            ..self.with_frontier(
                MessageFrontier {
                    message_id: self.newest,
                    checkpoint: Some(checkpoint),
                    remaining_downloads: 0,
                },
            )
        }.settled().enter_backfill()
    }

    /// The reading of messages above the checkpoint is cut short by the limit: the watermark moves
    /// up, and everything below the place where the scan stands is left to be read.
    pub open spec fn newer_cut(self) -> SessionState<H> {
        let checkpoint = CheckpointState {
            high_watermark_message_id: Some(self.newest),
            backfill_cursor_message_id: self.position,
            backfill_complete: false,
            ..self.checkpoint
        };
        SessionState {
            checkpoint,
            ..self.with_frontier(
                MessageFrontier {
                    message_id: self.newest,
                    checkpoint: Some(checkpoint),
                    remaining_downloads: 0,
                },
            )
        }.settled()
    }

    /// The scan passes the message at `id`.
    pub open spec fn passed(self, id: i32) -> SessionState<H> {
        SessionState {
            seen: self.seen.union(stretch(id as int, self.position)).insert(id as int),
            position: Some(id),
            ..self
        }
    }

    /// What follows in the part that tries left-over files again.
    pub open spec fn next_replay(self, shutdown: bool) -> (SessionState<H>, ActionView<H>) {
        match self.step {
            Step::Idle => if self.retry_ids.len() == 0 {
                (self.at(Phase::Promote, Step::Idle), ActionView::Continue)
            } else {
                let chunk = first_chunk(self.retry_ids);
                (
                    SessionState {
                        retry_ids: later_chunks(self.retry_ids),
                        requested: chunk,
                        step: Step::Fetching,
                        ..self
                    },
                    ActionView::FetchByIds(chunk),
                )
            },
            Step::Scanning => if self.batch.len() > 0 {
                let message = self.batch[0];
                (
                    SessionState {
                        batch: self.batch.drop_first(),
                        step: Step::Planning { message_id: message.message_id, checkpoint: None },
                        ..self
                    },
                    ActionView::Plan(message),
                )
            } else if self.missing.len() > 0 {
                (
                    SessionState {
                        missing: self.missing.drop_first(),
                        step: Step::Lookup,
                        ..self
                    },
                    ActionView::LoadRetryRecords(self.missing[0]),
                )
            } else {
                (SessionState { step: Step::Draining, ..self }, ActionView::Continue)
            },
            Step::Draining => if self.pending.len() == 0 && self.active == 0 {
                (SessionState { step: Step::Idle, ..self }, ActionView::Continue)
            } else if shutdown {
                (
                    SessionState { step: Step::Idle, ..self.with_none_running() },
                    ActionView::AbortDownloads,
                )
            } else if self.startable(shutdown) {
                self.started()
            } else {
                (self, ActionView::AwaitDownload)
            },
            _ => (self, ActionView::Continue),
        }
    }

    /// What follows when the checkpoint of a saved plan may be taken over.
    pub open spec fn next_promote(self) -> (SessionState<H>, ActionView<H>) {
        match self.step {
            Step::Idle => if self.plan is Some {
                (SessionState { step: Step::Counting, ..self }, ActionView::CountRetryable)
            } else {
                (self.enter_newer(), ActionView::Continue)
            },
            _ => (self, ActionView::Continue),
        }
    }

    /// What follows when messages above the checkpoint are read.
    pub open spec fn next_newer(self, shutdown: bool) -> (SessionState<H>, ActionView<H>) {
        match self.step {
            Step::Idle => if shutdown {
                (SessionState { stop: true, ..self }.enter_drain(), ActionView::Continue)
            } else {
                (
                    SessionState { step: Step::Fetching, ..self },
                    ActionView::FetchHistory { offset_id: self.position, before: None },
                )
            },
            Step::Scanning => if self.batch.len() == 0 {
                (SessionState { step: Step::Idle, ..self }, ActionView::Continue)
            } else {
                let message = self.batch[0];
                if message.message_id <= self.old_high {
                    (
                        SessionState {
                            seen: self.seen.union(stretch(self.old_high + 1, self.position)),
                            ..self
                        }.newer_done(),
                        ActionView::Continue,
                    )
                } else {
                    (
                        SessionState {
                            batch: self.batch.drop_first(),
                            newest: if message.message_id > self.newest {
                                message.message_id
                            } else {
                                self.newest
                            },
                            step: Step::Planning {
                                message_id: message.message_id,
                                checkpoint: None,
                            },
                            ..self.passed(message.message_id)
                        },
                        ActionView::Plan(message),
                    )
                }
            },
            Step::Checking => if shutdown {
                (SessionState { stop: true, ..self }.enter_drain(), ActionView::Continue)
            } else if self.at_limit() {
                (SessionState { stop: true, ..self }.newer_cut().enter_drain(), ActionView::Continue)
            } else {
                (SessionState { step: Step::Scanning, ..self }, ActionView::Continue)
            },
            _ => self.next_pump(shutdown),
        }
    }

    /// The checkpoint that holds once a message below the old one is settled.
    pub open spec fn backfilled(self, id: i32) -> CheckpointState {
        CheckpointState {
            high_watermark_message_id: match self.checkpoint.high_watermark_message_id {
                Some(high) => Some(high),
                None => Some(id),
            },
            backfill_cursor_message_id: Some(id),
            ..self.checkpoint
        }
    }

    /// What follows when messages below the checkpoint are read.
    pub open spec fn next_backfill(self, shutdown: bool) -> (SessionState<H>, ActionView<H>) {
        match self.step {
            Step::Idle => if shutdown {
                (SessionState { stop: true, ..self }.enter_drain(), ActionView::Continue)
            } else {
                (
                    SessionState { step: Step::Fetching, ..self },
                    ActionView::FetchHistory {
                        offset_id: self.position,
                        before: match (self.position, self.options.date_to) {
                            (None, Some(date)) => Some((date.epoch_day() + 1) * 86400),
                            _ => None,
                        },
                    },
                )
            },
            Step::Scanning => if self.batch.len() == 0 {
                (SessionState { step: Step::Idle, ..self }, ActionView::Continue)
            } else {
                let message = self.batch[0];
                let id = message.message_id;
                let rest = SessionState { batch: self.batch.drop_first(), ..self.passed(id) };
                if scope::in_scope(id, message.date.civil_date(), self.options) {
                    let checkpoint = if self.moves() {
                        self.backfilled(id)
                    } else {
                        self.checkpoint
                    };
                    (
                        SessionState {
                            checkpoint,
                            step: Step::Planning {
                                message_id: id,
                                checkpoint: if self.moves() {
                                    Some(checkpoint)
                                } else {
                                    None
                                },
                            },
                            ..rest
                        },
                        ActionView::Plan(message),
                    )
                } else if scope::past_scope(id, message.date.civil_date(), self.options) {
                    (
                        SessionState {
                            batch: Seq::<ScannedMessage<H>>::empty(),
                            ..self
                        }.enter_drain(),
                        ActionView::Continue,
                    )
                } else {
                    (rest, ActionView::Continue)
                }
            },
            Step::Checking => if self.at_limit() || shutdown {
                (SessionState { stop: true, ..self }.enter_drain(), ActionView::Continue)
            } else {
                (SessionState { step: Step::Scanning, ..self }, ActionView::Continue)
            },
            _ => self.next_pump(shutdown),
        }
    }

    /// What follows behind each message that was queued: downloads are started, ended ones are
    /// taken in, and reading waits while too many messages are unsettled.
    pub open spec fn next_pump(self, shutdown: bool) -> (SessionState<H>, ActionView<H>) {
        match self.step {
            Step::Starting => if self.startable(shutdown) {
                self.started()
            } else {
                (SessionState { step: Step::Polling, ..self }, ActionView::Continue)
            },
            Step::Polling => if self.active == 0 {
                (SessionState { step: Step::Windowing, ..self }, ActionView::Continue)
            } else {
                (self, ActionView::PollDownload)
            },
            Step::Windowing => if self.frontiers.len() < self.window {
                (SessionState { step: Step::Checking, ..self }, ActionView::Continue)
            } else if shutdown {
                (
                    SessionState { step: Step::Checking, ..self.with_none_running() },
                    ActionView::AbortDownloads,
                )
            } else if self.startable(shutdown) {
                self.started()
            } else if self.active == 0 {
                (SessionState { step: Step::Checking, ..self }, ActionView::Continue)
            } else {
                (self, ActionView::AwaitDownload)
            },
            _ => (self, ActionView::Continue),
        }
    }

    /// The last try for what failed: one or two at a time.
    pub open spec fn enter_sweep(self) -> SessionState<H> {
        SessionState {
            workers: self.workers.constrained(
                if self.worker_cap < 1 {
                    1
                } else if self.worker_cap > 2 {
                    2
                } else {
                    self.worker_cap
                },
            ),
            pending: self.final_retry,
            final_retry: Seq::<DownloadJob<H>>::empty(),
            phase: Phase::Sweep,
            ..self
        }
    }

    /// What follows while everything that is queued is downloaded.
    pub open spec fn next_drain(self, shutdown: bool) -> (SessionState<H>, ActionView<H>) {
        if self.pending.len() == 0 && self.active == 0 {
            if self.phase == Phase::Drain && self.final_retry.len() > 0 {
                (self.enter_sweep(), ActionView::Continue)
            } else {
                (self.at(Phase::Close, Step::Idle), ActionView::Continue)
            }
        } else if shutdown {
            (SessionState { stop: true, ..self }.enter_drain(), ActionView::Continue)
        } else if self.startable(shutdown) {
            self.started()
        } else {
            (self, ActionView::AwaitDownload)
        }
    }

    /// The end: the checkpoint is saved where the export has gone through, and running downloads are
    /// given up where it has not.
    pub open spec fn next_close(self) -> (SessionState<H>, ActionView<H>) {
        let last = self.settled();
        if self.stop {
            (
                last.with_none_running().at(Phase::Done, Step::Idle),
                ActionView::AbortDownloads,
            )
        } else if self.moves() {
            (
                SessionState {
                    outbox: last.outbox.push(WriteView::SaveCheckpoint(self.checkpoint)),
                    durable: self.checkpoint,
                    ..last
                }.at(Phase::Done, Step::Idle),
                ActionView::Continue,
            )
        } else {
            (last.at(Phase::Done, Step::Idle), ActionView::Continue)
        }
    }

    /// The message that the last saved checkpoint stands at.
    pub open spec fn last_checkpoint_id(self) -> Option<i32> {
        match self.durable.high_watermark_message_id {
            Some(id) => Some(id),
            None => self.durable.backfill_cursor_message_id,
        }
    }

    /// What follows: writes come first, in the order in which they were decided.
    pub open spec fn next(self, shutdown: bool) -> (SessionState<H>, ActionView<H>) {
        if self.outbox.len() > 0 {
            (
                SessionState { outbox: self.outbox.drop_first(), ..self },
                ActionView::Write(self.outbox[0]),
            )
        } else {
            match self.phase {
                Phase::Replay => self.next_replay(shutdown),
                Phase::Promote => self.next_promote(),
                Phase::Newer => self.next_newer(shutdown),
                Phase::Backfill => self.next_backfill(shutdown),
                Phase::Drain | Phase::Sweep => self.next_drain(shutdown),
                Phase::Close => self.next_close(),
                Phase::Done => (
                    self,
                    ActionView::Finished(
                        if self.stop {
                            ExportEnd::Interrupted
                        } else {
                            ExportEnd::Completed
                        },
                        self.last_checkpoint_id(),
                    ),
                ),
            }
        }
    }

    /// The state when the messages that were asked for have come.
    pub open spec fn with_messages(self, messages: Seq<ScannedMessage<H>>) -> SessionState<H> {
        if self.step != Step::Fetching {
            self
        } else if self.phase == Phase::Replay {
            SessionState {
                batch: messages,
                missing: gone(self.requested, messages),
                step: Step::Scanning,
                ..self
            }
        } else if messages.len() > 0 {
            SessionState { batch: messages, step: Step::Scanning, ..self }
        } else if self.phase == Phase::Newer {
            SessionState {
                seen: self.seen.union(rest_below(self.position)),
                ..self
            }.newer_done()
        } else if self.moves() {
            SessionState {
                seen: self.seen.union(rest_below(self.position)),
                checkpoint: CheckpointState { backfill_complete: true, ..self.checkpoint },
                ..self
            }.enter_drain()
        } else {
            self.enter_drain()
        }
    }

    /// The state when it is known how many messages are left over.
    pub open spec fn with_retryable_count(self, count: usize) -> SessionState<H> {
        if self.step != Step::Counting {
            self
        } else if count == 0 && self.plan is Some {
            let plan = self.plan->0;
            SessionState {
                checkpoint: plan.checkpoint,
                durable: plan.checkpoint,
                outbox: self.outbox.push(WriteView::SaveCheckpoint(plan.checkpoint)).push(
                    WriteView::SupersedePlan(plan.id),
                ),
                trusted: self.trusted.union(claimed(plan.checkpoint)),
                ..self
            }.enter_newer()
        } else {
            self.enter_newer()
        }
    }

    /// The state when the records of a message that is gone have come.
    pub open spec fn with_missing_records(self, records: Seq<StoredMediaRecord>) -> SessionState<H> {
        if self.step != Step::Lookup {
            self
        } else if records.len() == 0 {
            SessionState { step: Step::Scanning, ..self }
        } else {
            SessionState {
                counters: ExportCounters {
                    failed: report::capped(self.counters.failed + records.len()) as usize,
                    ..self.counters
                },
                outbox: self.outbox.push(
                    WriteView::Commit(
                        records.map_values(|record: StoredMediaRecord| refetch_failure(record)),
                    ),
                ),
                vanished: self.vanished + records.len(),
                step: Step::Scanning,
                ..self
            }
        }
    }

    /// The state when it is known what is to be done with the files of a message.
    pub open spec fn with_plan(
        self,
        found: Seq<MediaKind>,
        records: Seq<MediaItemView>,
        jobs: Seq<DownloadJob<H>>,
        kept: nat,
    ) -> SessionState<H> {
        match self.step {
            Step::Planning { message_id, checkpoint } => {
                let counted = self.counters.with_all_found(found);
                let queued = SessionState {
                    counters: ExportCounters {
                        skipped_existing: report::capped(counted.skipped_existing + kept) as usize,
                        scanned_messages: report::capped(counted.scanned_messages + 1) as usize,
                        ..counted
                    },
                    outbox: if records.len() > 0 {
                        self.outbox.push(WriteView::Commit(records))
                    } else {
                        self.outbox
                    },
                    pending: self.pending + jobs,
                    ..self.with_frontier(
                        MessageFrontier {
                            message_id,
                            checkpoint,
                            remaining_downloads: jobs.len() as usize,
                        },
                    )
                };
                SessionState {
                    step: if self.phase == Phase::Replay {
                        Step::Scanning
                    } else {
                        Step::Starting
                    },
                    ..queued.settled()
                }
            },
            _ => self,
        }
    }

    /// The state when a download has ended. A first failure puts the file back to the front of the
    /// queue; a second one counts and leaves it for the last try. In the last try a success takes
    /// the failure back, and a failure, which was counted before, changes nothing.
    pub open spec fn with_finished(
        self,
        job: DownloadJob<H>,
        record: MediaItemView,
        flood_wait_count: u64,
    ) -> SessionState<H> {
        if self.active == 0 {
            self
        } else {
            let last_try = self.phase == Phase::Sweep;
            let success = record.status == MediaStatus::Downloaded;
            let failure = record.status == MediaStatus::Failed;
            let again = failure && !last_try && job.scheduler_retry_round == 0;
            let later = failure && !last_try && job.scheduler_retry_round != 0;
            let counters = ExportCounters {
                downloaded: if success {
                    report::capped(self.counters.downloaded + 1) as usize
                } else {
                    self.counters.downloaded
                },
                failed: if success && last_try && self.counters.failed > 0 {
                    (self.counters.failed - 1) as usize
                } else if later {
                    report::capped(self.counters.failed + 1) as usize
                } else {
                    self.counters.failed
                },
                ..self.counters
            };
            SessionState {
                active: (self.active - 1) as usize,
                outbox: self.outbox.push(WriteView::Commit(seq![record])),
                counters,
                pending: if again {
                    seq![DownloadJob { scheduler_retry_round: 1, ..job }] + self.pending
                } else {
                    self.pending
                },
                final_retry: if later {
                    self.final_retry.push(job)
                } else {
                    self.final_retry
                },
                workers: self.workers.observed(flood_wait_count, success),
                frontiers: workers::one_less(self.frontiers, job.message_id),
                ..self
            }.settled()
        }
    }

    /// The state when no download has ended yet.
    pub open spec fn with_none_ready(self) -> SessionState<H> {
        if self.step == Step::Polling {
            SessionState { step: Step::Windowing, ..self }
        } else {
            self
        }
    }

    /// The state when the running downloads were given up.
    pub open spec fn with_none_running(self) -> SessionState<H> {
        SessionState {
            active: 0,
            given_up: if self.phase == Phase::Sweep {
                self.given_up
            } else {
                self.given_up + self.active
            },
            ..self
        }
    }
}

} // verus!
