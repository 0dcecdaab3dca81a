//! An export as a state machine: it says what to do next and takes in what came of it.

use std::collections::VecDeque;

use vstd::prelude::*;

use crate::export::processor::{DownloadJob, PlannedMessage};
use crate::export::scope;
use crate::export::state;
use crate::export::state::{
    ActionView, ExportEnd, Phase, SavedPlan, SessionState, Step, WriteView, FETCH_SIZE,
};
use crate::export::workers;
use crate::export::workers::{AdaptiveConcurrency, MessageFrontier};
use crate::report::{ExportCounters, ExportReport, ExportReportInput};
use crate::storage;
use crate::storage::{PersistedMediaItem, StoredMediaRecord};
use crate::text;
use crate::types::{CheckpointState, ExportOptions, MediaStatus, ScannedMessage};

verus! {

/// A write to the state database.
#[derive(Debug)]
pub enum StoreWrite {
    /// Write these files, together.
    Commit(Vec<PersistedMediaItem>),
    SaveCheckpoint(CheckpointState),
    SupersedePlan(i64),
}

impl View for StoreWrite {
    type V = WriteView;

    open spec fn view(&self) -> WriteView {
        match self {
            StoreWrite::Commit(items) => WriteView::Commit(storage::item_views(items@)),
            StoreWrite::SaveCheckpoint(checkpoint) => WriteView::SaveCheckpoint(*checkpoint),
            StoreWrite::SupersedePlan(id) => WriteView::SupersedePlan(*id),
        }
    }
}

/// What an export asks for next.
#[derive(Debug)]
pub enum Action<H> {
    /// Nothing: ask again.
    Continue,
    Write(StoreWrite),
    /// Fetch these messages, then call `on_messages`.
    FetchByIds(Vec<i32>),
    /// Load the unfinished files of this message, then call `on_missing_records`.
    LoadRetryRecords(i32),
    /// Count the messages with unfinished files, then call `on_retryable_count`.
    CountRetryable,
    /// Fetch up to `FETCH_SIZE` messages below `offset_id` and sent before the second `before`,
    /// newest first, then call `on_messages`.
    FetchHistory { offset_id: Option<i32>, before: Option<i64> },
    /// Find out what to do with the files of the message, then call `on_planned`.
    Plan(ScannedMessage<H>),
    /// Write `loading`, then start the download.
    Start { job: DownloadJob<H>, loading: PersistedMediaItem },
    /// Take in a download that has ended with `on_finished`, or call `on_none_ready`.
    PollDownload,
    /// Wait for a download to end, then call `on_finished`, or `on_none_running` where the wait was
    /// cut short.
    AwaitDownload,
    /// Give up all running downloads.
    AbortDownloads,
    Finished { end: ExportEnd, last_checkpoint_message_id: Option<i32> },
}

impl<H> View for Action<H> {
    type V = ActionView<H>;

    open spec fn view(&self) -> ActionView<H> {
        match self {
            Action::Continue => ActionView::Continue,
            Action::Write(write) => ActionView::Write(write@),
            Action::FetchByIds(ids) => ActionView::FetchByIds(ids@),
            Action::LoadRetryRecords(id) => ActionView::LoadRetryRecords(*id),
            Action::CountRetryable => ActionView::CountRetryable,
            Action::FetchHistory { offset_id, before } => ActionView::FetchHistory {
                offset_id: *offset_id,
                before: match before {
                    Some(seconds) => Some(*seconds as int),
                    None => None,
                },
            },
            Action::Plan(message) => ActionView::Plan(*message),
            Action::Start { job, loading } => ActionView::Start(*job, *loading),
            Action::PollDownload => ActionView::PollDownload,
            Action::AwaitDownload => ActionView::AwaitDownload,
            Action::AbortDownloads => ActionView::AbortDownloads,
            Action::Finished { end, last_checkpoint_message_id } => ActionView::Finished(
                *end,
                *last_checkpoint_message_id,
            ),
        }
    }
}

/// An export in progress.
pub struct ExportSession<H> {
    options: ExportOptions,
    moves: bool,
    window: usize,
    worker_cap: usize,
    plan: Option<SavedPlan>,
    workers: AdaptiveConcurrency,
    checkpoint: CheckpointState,
    durable: CheckpointState,
    counters: ExportCounters,
    phase: Phase,
    step: Step,
    retry_ids: VecDeque<i32>,
    requested: Vec<i32>,
    missing: VecDeque<i32>,
    batch: VecDeque<ScannedMessage<H>>,
    position: Option<i32>,
    newest: i32,
    old_high: i32,
    pending: VecDeque<DownloadJob<H>>,
    final_retry: VecDeque<DownloadJob<H>>,
    active: usize,
    frontiers: VecDeque<MessageFrontier>,
    outbox: VecDeque<StoreWrite>,
    stop: bool,
    seen: Ghost<Set<int>>,
    trusted: Ghost<Set<int>>,
    vanished: Ghost<int>,
    given_up: Ghost<int>,
}

impl<H> View for ExportSession<H> {
    type V = SessionState<H>;

    closed spec fn view(&self) -> SessionState<H> {
        SessionState {
            options: self.options,
            window: self.window,
            worker_cap: self.worker_cap,
            plan: self.plan,
            workers: self.workers,
            checkpoint: self.checkpoint,
            durable: self.durable,
            counters: self.counters,
            phase: self.phase,
            step: self.step,
            retry_ids: self.retry_ids@,
            requested: self.requested@,
            missing: self.missing@,
            batch: self.batch@,
            position: self.position,
            newest: self.newest,
            old_high: self.old_high,
            pending: self.pending@,
            final_retry: self.final_retry@,
            active: self.active,
            frontiers: self.frontiers@,
            outbox: self.outbox@.map_values(|write: StoreWrite| write@),
            stop: self.stop,
            seen: self.seen@,
            trusted: self.trusted@,
            vanished: self.vanished@,
            given_up: self.given_up@,
        }
    }
}

impl<H: Copy> ExportSession<H> {
    /// Whether the parts of the session fit together.
    pub closed spec fn valid(&self) -> bool {
        &&& self.workers.valid()
        &&& self.moves == scope::moves_checkpoint(self.options)
    }

    /// An export of a chat from its checkpoint, with the ids of messages that have left-over files,
    /// newest first.
    pub fn new(
        options: ExportOptions,
        checkpoint: CheckpointState,
        plan: Option<SavedPlan>,
        retry_ids: Vec<i32>,
        worker_cap: usize,
        window: usize,
    ) -> (session: ExportSession<H>)
        ensures
            session.valid(),
            session@ == SessionState::<H>::initial(
                options,
                checkpoint,
                plan,
                retry_ids@,
                worker_cap,
                window,
            ),
    {
        let moves: bool = scope::updates_checkpoint(&options);
        let ids = deque_of(retry_ids);
        let mut session = ExportSession {
            options,
            moves,
            window,
            worker_cap,
            plan,
            workers: AdaptiveConcurrency::new(worker_cap),
            checkpoint,
            durable: checkpoint,
            counters: ExportCounters::default(),
            phase: Phase::Replay,
            step: Step::Idle,
            retry_ids: ids,
            requested: Vec::new(),
            missing: VecDeque::new(),
            batch: VecDeque::new(),
            position: None,
            newest: 0,
            old_high: 0,
            pending: VecDeque::new(),
            final_retry: VecDeque::new(),
            active: 0,
            frontiers: VecDeque::new(),
            outbox: VecDeque::new(),
            stop: false,
            seen: Ghost(Set::empty()),
            trusted: Ghost(state::claimed(checkpoint)),
            vanished: Ghost(0),
            given_up: Ghost(0),
        };
        assert(session@.outbox =~= Seq::<WriteView>::empty());
        if !moves {
            session.enter_backfill();
        }
        session
    }

    pub fn counters(&self) -> (counters: ExportCounters)
        ensures
            counters == self@.counters,
    {
        self.counters
    }

    pub fn durable_checkpoint(&self) -> (checkpoint: CheckpointState)
        ensures
            checkpoint == self@.durable,
    {
        self.durable
    }

    pub fn workers(&self) -> (workers: AdaptiveConcurrency)
        ensures
            workers == self@.workers,
    {
        self.workers
    }

    pub fn phase(&self) -> (phase: Phase)
        ensures
            phase == self@.phase,
    {
        self.phase
    }

    pub fn active_downloads(&self) -> (count: usize)
        ensures
            count == self@.active,
    {
        self.active
    }

    pub fn queued_downloads(&self) -> (count: usize)
        ensures
            count == self@.pending.len(),
    {
        self.pending.len()
    }

    pub fn frontier_depth(&self) -> (count: usize)
        ensures
            count == self@.frontiers.len(),
    {
        self.frontiers.len()
    }

    fn settle(&mut self)
        requires
            old(self).valid(),
        ensures
            final(self).valid(),
            final(self)@ == old(self)@.settled(),
    {
        let ghost before = self@;
        let freed = workers::drain_completed_frontier(&mut self.frontiers);
        let mut i: usize = 0;
        while i < freed.len()
            invariant
                i <= freed@.len(),
                self.valid(),
                freed@ == workers::released(before.frontiers),
                self@ == (SessionState {
                    frontiers: workers::unsettled(before.frontiers),
                    outbox: before.outbox + state::saves(freed@.take(i as int)),
                    durable: if i > 0 {
                        freed@[i - 1]
                    } else {
                        before.durable
                    },
                    ..before
                }),
            decreases freed@.len() - i,
        {
            let ghost sent = self@.outbox;
            let checkpoint = freed[i];
            self.outbox.push_back(StoreWrite::SaveCheckpoint(checkpoint));
            self.durable = checkpoint;
            assert(self@.outbox =~= sent.push(WriteView::SaveCheckpoint(checkpoint)));
            assert(state::saves(freed@.take(i + 1)) =~= state::saves(freed@.take(i as int)).push(
                WriteView::SaveCheckpoint(checkpoint),
            ));
            i += 1;
        }
        assert(freed@.take(i as int) =~= freed@);
    }

    fn push_frontier(&mut self, frontier: MessageFrontier)
        requires
            old(self).valid(),
        ensures
            final(self).valid(),
            final(self)@ == old(self)@.with_frontier(frontier),
    {
        self.frontiers.push_back(frontier);
    }

    fn enter_drain(&mut self)
        requires
            old(self).valid(),
        ensures
            final(self).valid(),
            final(self)@ == old(self)@.enter_drain(),
    {
        if self.stop {
            self.phase = Phase::Close;
            self.step = Step::Idle;
        } else {
            self.phase = Phase::Drain;
            self.step = Step::Draining;
        }
    }

    fn enter_backfill(&mut self)
        requires
            old(self).valid(),
        ensures
            final(self).valid(),
            final(self)@ == old(self)@.enter_backfill(),
    {
        if !self.stop && (!self.moves || !self.checkpoint.backfill_complete) {
            self.phase = Phase::Backfill;
            self.step = Step::Idle;
            self.position = if self.moves {
                self.checkpoint.backfill_cursor_message_id
            } else {
                match self.options.until_id {
                    Some(id) => Some(
                        if id == i32::MAX {
                            i32::MAX
                        } else {
                            id + 1
                        },
                    ),
                    None => None,
                }
            };
        } else {
            self.enter_drain();
        }
    }

    fn enter_newer(&mut self)
        requires
            old(self).valid(),
        ensures
            final(self).valid(),
            final(self)@ == old(self)@.enter_newer(),
    {
        if self.moves {
            if let Some(high) = self.checkpoint.high_watermark_message_id {
                self.phase = Phase::Newer;
                self.step = Step::Idle;
                self.position = None;
                self.newest = high;
                self.old_high = high;
                return;
            }
        }
        self.enter_backfill();
    }

    fn newer_done(&mut self)
        requires
            old(self).valid(),
        ensures
            final(self).valid(),
            final(self)@ == old(self)@.newer_done(),
    {
        self.checkpoint.high_watermark_message_id = Some(self.newest);
        self.batch = VecDeque::new();
        self.push_frontier(
            MessageFrontier {
                message_id: self.newest,
                checkpoint: Some(self.checkpoint),
                remaining_downloads: 0,
            },
        );
        self.settle();
        self.enter_backfill();
    }

    fn newer_cut(&mut self)
        requires
            old(self).valid(),
        ensures
            final(self).valid(),
            final(self)@ == old(self)@.newer_cut(),
    {
        self.checkpoint.high_watermark_message_id = Some(self.newest);
        self.checkpoint.backfill_cursor_message_id = self.position;
        self.checkpoint.backfill_complete = false;
        self.push_frontier(
            MessageFrontier {
                message_id: self.newest,
                checkpoint: Some(self.checkpoint),
                remaining_downloads: 0,
            },
        );
        self.settle();
    }

    fn pass(&mut self, id: i32)
        requires
            old(self).valid(),
        ensures
            final(self).valid(),
            final(self)@ == old(self)@.passed(id),
    {
        self.seen = Ghost(self.seen@.union(state::stretch(id as int, self.position)).insert(id as int));
        self.position = Some(id);
    }

    fn startable(&self, shutdown: bool) -> (yes: bool)
        requires
            self.valid(),
        ensures
            yes == self@.startable(shutdown),
    {
        !shutdown && self.active < self.workers.current_limit() && self.pending.len() > 0
    }

    fn start(&mut self) -> (action: Action<H>)
        requires
            old(self).valid(),
            old(self)@.startable(false),
        ensures
            final(self).valid(),
            final(self)@ == old(self)@.started().0,
            action@ == old(self)@.started().1,
    {
        let ghost waiting = self.pending@;
        match self.pending.pop_front() {
            Some(job) => {
                assert(self.pending@ =~= waiting.drop_first());
                self.active = self.active + 1;
                let record = job.pending_record.clone();
                let loading = PersistedMediaItem {
                    status: MediaStatus::Downloading,
                    error_message: None,
                    ..record
                };
                Action::Start { job, loading }
            },
            None => Action::Continue,
        }
    }

    fn next_replay(&mut self, shutdown: bool) -> (action: Action<H>)
        requires
            old(self).valid(),
        ensures
            final(self).valid(),
            final(self)@ == old(self)@.next_replay(shutdown).0,
            action@ == old(self)@.next_replay(shutdown).1,
    {
        match self.step {
            Step::Idle => {
                if self.retry_ids.len() == 0 {
                    self.phase = Phase::Promote;
                    self.step = Step::Idle;
                    return Action::Continue;
                }
                let chunk = take_chunk(&mut self.retry_ids);
                let ids = copy_ids(&chunk);
                self.requested = chunk;
                self.step = Step::Fetching;
                Action::FetchByIds(ids)
            },
            Step::Scanning => {
                let ghost messages = self.batch@;
                if let Some(message) = self.batch.pop_front() {
                    assert(self.batch@ =~= messages.drop_first());
                    self.step = Step::Planning { message_id: message.message_id, checkpoint: None };
                    return Action::Plan(message);
                }
                let ghost ids = self.missing@;
                if let Some(id) = self.missing.pop_front() {
                    assert(self.missing@ =~= ids.drop_first());
                    self.step = Step::Lookup;
                    return Action::LoadRetryRecords(id);
                }
                self.step = Step::Draining;
                Action::Continue
            },
            Step::Draining => {
                if self.pending.len() == 0 && self.active == 0 {
                    self.step = Step::Idle;
                    Action::Continue
                } else if shutdown {
                    self.step = Step::Idle;
                    self.on_none_running();
                    Action::AbortDownloads
                } else if self.startable(shutdown) {
                    self.start()
                } else {
                    Action::AwaitDownload
                }
            },
            _ => Action::Continue,
        }
    }

    fn next_promote(&mut self) -> (action: Action<H>)
        requires
            old(self).valid(),
        ensures
            final(self).valid(),
            final(self)@ == old(self)@.next_promote().0,
            action@ == old(self)@.next_promote().1,
    {
        match self.step {
            Step::Idle => {
                if self.plan.is_some() {
                    self.step = Step::Counting;
                    Action::CountRetryable
                } else {
                    self.enter_newer();
                    Action::Continue
                }
            },
            _ => Action::Continue,
        }
    }

    fn at_limit(&self) -> (yes: bool)
        ensures
            yes == self@.at_limit(),
    {
        scope::reached_limit(&self.options, &self.counters)
    }

    fn next_newer(&mut self, shutdown: bool) -> (action: Action<H>)
        requires
            old(self).valid(),
        ensures
            final(self).valid(),
            final(self)@ == old(self)@.next_newer(shutdown).0,
            action@ == old(self)@.next_newer(shutdown).1,
    {
        match self.step {
            Step::Idle => {
                if shutdown {
                    self.stop = true;
                    self.enter_drain();
                    Action::Continue
                } else {
                    self.step = Step::Fetching;
                    Action::FetchHistory { offset_id: self.position, before: None }
                }
            },
            Step::Scanning => {
                if self.batch.len() == 0 {
                    self.step = Step::Idle;
                    return Action::Continue;
                }
                if self.batch[0].message_id <= self.old_high {
                    self.seen = Ghost(
                        self.seen@.union(state::stretch(self.old_high + 1, self.position)),
                    );
                    self.newer_done();
                    return Action::Continue;
                }
                let ghost messages = self.batch@;
                match self.batch.pop_front() {
                    Some(message) => {
                        assert(self.batch@ =~= messages.drop_first());
                        self.pass(message.message_id);
                        if message.message_id > self.newest {
                            self.newest = message.message_id;
                        }
                        self.step = Step::Planning {
                            message_id: message.message_id,
                            checkpoint: None,
                        };
                        Action::Plan(message)
                    },
                    None => Action::Continue,
                }
            },
            Step::Checking => {
                if shutdown {
                    self.stop = true;
                    self.enter_drain();
                } else if self.at_limit() {
                    self.stop = true;
                    self.newer_cut();
                    self.enter_drain();
                } else {
                    self.step = Step::Scanning;
                }
                Action::Continue
            },
            _ => self.next_pump(shutdown),
        }
    }

    fn next_backfill(&mut self, shutdown: bool) -> (action: Action<H>)
        requires
            old(self).valid(),
        ensures
            final(self).valid(),
            final(self)@ == old(self)@.next_backfill(shutdown).0,
            action@ == old(self)@.next_backfill(shutdown).1,
    {
        match self.step {
            Step::Idle => {
                if shutdown {
                    self.stop = true;
                    self.enter_drain();
                    Action::Continue
                } else {
                    self.step = Step::Fetching;
                    let before: Option<i64> = match (self.position, self.options.date_to) {
                        (None, Some(date)) => Some(date.end_of_day()),
                        _ => None,
                    };
                    Action::FetchHistory { offset_id: self.position, before }
                }
            },
            Step::Scanning => {
                if self.batch.len() == 0 {
                    self.step = Step::Idle;
                    return Action::Continue;
                }
                let inside: bool = scope::within_scope(&self.batch[0], &self.options);
                if !inside && scope::should_stop_on_message(&self.batch[0], &self.options) {
                    self.batch = VecDeque::new();
                    self.enter_drain();
                    return Action::Continue;
                }
                let ghost messages = self.batch@;
                match self.batch.pop_front() {
                    Some(message) => {
                        assert(self.batch@ =~= messages.drop_first());
                        let id: i32 = message.message_id;
                        self.pass(id);
                        if !inside {
                            return Action::Continue;
                        }
                        let mut checkpoint: Option<CheckpointState> = None;
                        if self.moves {
                            if self.checkpoint.high_watermark_message_id.is_none() {
                                self.checkpoint.high_watermark_message_id = Some(id);
                            }
                            self.checkpoint.backfill_cursor_message_id = Some(id);
                            checkpoint = Some(self.checkpoint);
                        }
                        self.step = Step::Planning { message_id: id, checkpoint };
                        Action::Plan(message)
                    },
                    None => Action::Continue,
                }
            },
            Step::Checking => {
                if self.at_limit() || shutdown {
                    self.stop = true;
                    self.enter_drain();
                } else {
                    self.step = Step::Scanning;
                }
                Action::Continue
            },
            _ => self.next_pump(shutdown),
        }
    }

    fn next_pump(&mut self, shutdown: bool) -> (action: Action<H>)
        requires
            old(self).valid(),
        ensures
            final(self).valid(),
            final(self)@ == old(self)@.next_pump(shutdown).0,
            action@ == old(self)@.next_pump(shutdown).1,
    {
        match self.step {
            Step::Starting => {
                if self.startable(shutdown) {
                    self.start()
                } else {
                    self.step = Step::Polling;
                    Action::Continue
                }
            },
            Step::Polling => {
                if self.active == 0 {
                    self.step = Step::Windowing;
                    Action::Continue
                } else {
                    Action::PollDownload
                }
            },
            Step::Windowing => {
                if self.frontiers.len() < self.window {
                    self.step = Step::Checking;
                    Action::Continue
                } else if shutdown {
                    self.step = Step::Checking;
                    self.on_none_running();
                    Action::AbortDownloads
                } else if self.startable(shutdown) {
                    self.start()
                } else if self.active == 0 {
                    self.step = Step::Checking;
                    Action::Continue
                } else {
                    Action::AwaitDownload
                }
            },
            _ => Action::Continue,
        }
    }

    fn next_drain(&mut self, shutdown: bool) -> (action: Action<H>)
        requires
            old(self).valid(),
        ensures
            final(self).valid(),
            final(self)@ == old(self)@.next_drain(shutdown).0,
            action@ == old(self)@.next_drain(shutdown).1,
    {
        if self.pending.len() == 0 && self.active == 0 {
            if self.phase == Phase::Drain && self.final_retry.len() > 0 {
                let most: usize = if self.worker_cap < 1 {
                    1
                } else if self.worker_cap > 2 {
                    2
                } else {
                    self.worker_cap
                };
                self.workers.constrain_to(most);
                let ghost failed = self.final_retry@;
                self.pending.append(&mut self.final_retry);
                assert(self.pending@ =~= failed);
                self.phase = Phase::Sweep;
            } else {
                self.phase = Phase::Close;
                self.step = Step::Idle;
            }
            Action::Continue
        } else if shutdown {
            self.stop = true;
            self.enter_drain();
            Action::Continue
        } else if self.startable(shutdown) {
            self.start()
        } else {
            Action::AwaitDownload
        }
    }

    fn next_close(&mut self) -> (action: Action<H>)
        requires
            old(self).valid(),
        ensures
            final(self).valid(),
            final(self)@ == old(self)@.next_close().0,
            action@ == old(self)@.next_close().1,
    {
        self.settle();
        if self.stop {
            self.on_none_running();
            self.phase = Phase::Done;
            self.step = Step::Idle;
            return Action::AbortDownloads;
        }
        self.phase = Phase::Done;
        self.step = Step::Idle;
        if self.moves {
            let ghost sent = self@.outbox;
            self.outbox.push_back(StoreWrite::SaveCheckpoint(self.checkpoint));
            assert(self@.outbox =~= sent.push(WriteView::SaveCheckpoint(self.checkpoint)));
            self.durable = self.checkpoint;
        }
        Action::Continue
    }

    /// Says what to do next. `shutdown` tells whether the export was asked to stop.
    pub fn next(&mut self, shutdown: bool) -> (action: Action<H>)
        requires
            old(self).valid(),
        ensures
            final(self).valid(),
            final(self)@ == old(self)@.next(shutdown).0,
            action@ == old(self)@.next(shutdown).1,
    {
        let ghost writes = self.outbox@;
        if let Some(write) = self.outbox.pop_front() {
            assert(self@.outbox =~= writes.map_values(|item: StoreWrite| item@).drop_first());
            return Action::Write(write);
        }
        assert(self@.outbox.len() == 0);
        match self.phase {
            Phase::Replay => self.next_replay(shutdown),
            Phase::Promote => self.next_promote(),
            Phase::Newer => self.next_newer(shutdown),
            Phase::Backfill => self.next_backfill(shutdown),
            Phase::Drain | Phase::Sweep => self.next_drain(shutdown),
            Phase::Close => self.next_close(),
            Phase::Done => {
                let end = if self.stop {
                    ExportEnd::Interrupted
                } else {
                    ExportEnd::Completed
                };
                let last_checkpoint_message_id: Option<i32> = match self.durable.high_watermark_message_id {
                    Some(id) => Some(id),
                    None => self.durable.backfill_cursor_message_id,
                };
                Action::Finished { end, last_checkpoint_message_id }
            },
        }
    }

    /// Takes in the messages that were asked for.
    pub fn on_messages(&mut self, messages: Vec<ScannedMessage<H>>)
        requires
            old(self).valid(),
        ensures
            final(self).valid(),
            final(self)@ == old(self)@.with_messages(messages@),
    {
        if self.step != Step::Fetching {
            return;
        }
        if self.phase == Phase::Replay {
            let missing = missing_ids(&self.requested, &messages);
            self.missing = deque_of(missing);
            self.batch = deque_of(messages);
            self.step = Step::Scanning;
        } else if messages.len() > 0 {
            self.batch = deque_of(messages);
            self.step = Step::Scanning;
        } else if self.phase == Phase::Newer {
            self.seen = Ghost(self.seen@.union(state::rest_below(self.position)));
            self.newer_done();
        } else if self.moves {
            self.seen = Ghost(self.seen@.union(state::rest_below(self.position)));
            self.checkpoint.backfill_complete = true;
            self.enter_drain();
        } else {
            self.enter_drain();
        }
    }

    /// Takes in how many messages have left-over files.
    pub fn on_retryable_count(&mut self, count: usize)
        requires
            old(self).valid(),
        ensures
            final(self).valid(),
            final(self)@ == old(self)@.with_retryable_count(count),
    {
        if self.step != Step::Counting {
            return;
        }
        if count == 0 {
            if let Some(plan) = self.plan {
                let ghost sent = self@.outbox;
                self.checkpoint = plan.checkpoint;
                self.durable = plan.checkpoint;
                self.outbox.push_back(StoreWrite::SaveCheckpoint(plan.checkpoint));
                self.outbox.push_back(StoreWrite::SupersedePlan(plan.id));
                assert(self@.outbox =~= sent.push(WriteView::SaveCheckpoint(plan.checkpoint)).push(
                    WriteView::SupersedePlan(plan.id),
                ));
                self.trusted = Ghost(self.trusted@.union(state::claimed(plan.checkpoint)));
            }
        }
        self.enter_newer();
    }

    /// Takes in the unfinished files of a message that is gone: they have failed.
    pub fn on_missing_records(&mut self, records: Vec<StoredMediaRecord>)
        requires
            old(self).valid(),
        ensures
            final(self).valid(),
            final(self)@ == old(self)@.with_missing_records(records@),
    {
        if self.step != Step::Lookup {
            return;
        }
        self.step = Step::Scanning;
        if records.len() > 0 {
            let items = refetch_failures(&records);
            self.counters.failed = self.counters.failed.saturating_add(records.len());
            self.vanished = Ghost(self.vanished@ + records@.len());
            let ghost sent = self@.outbox;
            self.outbox.push_back(StoreWrite::Commit(items));
            assert(self@.outbox =~= sent.push(
                WriteView::Commit(
                    records@.map_values(
                        |record: StoredMediaRecord| state::refetch_failure(record),
                    ),
                ),
            ));
        }
    }

    /// Takes in what is to be done with the files of the message that was to be planned.
    pub fn on_planned(&mut self, planned: PlannedMessage<H>)
        requires
            old(self).valid(),
        ensures
            final(self).valid(),
            final(self)@ == old(self)@.with_plan(
                planned.found(),
                storage::item_views(planned.records()),
                planned.queue(),
                planned.kept(),
            ),
    {
        if let Step::Planning { message_id, checkpoint } = self.step {
            let (kinds, records, jobs, kept) = planned.take_apart();
            self.counters.record_all_found(&kinds);
            self.counters.skipped_existing = self.counters.skipped_existing.saturating_add(kept);
            self.counters.scanned_messages = self.counters.scanned_messages.saturating_add(1);
            let remaining_downloads: usize = jobs.len();
            let ghost sent = self@.outbox;
            if records.len() > 0 {
                let ghost items = storage::item_views(records@);
                self.outbox.push_back(StoreWrite::Commit(records));
                assert(self@.outbox =~= sent.push(WriteView::Commit(items)));
            }
            let mut queue = deque_of(jobs);
            self.pending.append(&mut queue);
            self.push_frontier(MessageFrontier { message_id, checkpoint, remaining_downloads });
            self.settle();
            self.step = if self.phase == Phase::Replay {
                Step::Scanning
            } else {
                Step::Starting
            };
        }
    }

    /// Takes in a download that has ended, with the record that it leaves.
    pub fn on_finished(&mut self, job: DownloadJob<H>, record: PersistedMediaItem, flood_wait_count: u64)
        requires
            old(self).valid(),
        ensures
            final(self).valid(),
            final(self)@ == old(self)@.with_finished(job, record@, flood_wait_count),
    {
        if self.active == 0 {
            return;
        }
        let ghost given = job;
        let ghost content = record@;
        let ghost before = self@;
        let last_try: bool = self.phase == Phase::Sweep;
        let status = record.status;
        let message_id: i32 = job.message_id;
        self.active = self.active - 1;
        let mut items: Vec<PersistedMediaItem> = Vec::new();
        items.push(record);
        assert(storage::item_views(items@) =~= seq![content]);
        self.outbox.push_back(StoreWrite::Commit(items));
        assert(self@.outbox =~= before.outbox.push(WriteView::Commit(seq![content])));
        if status == MediaStatus::Downloaded {
            self.counters.downloaded = self.counters.downloaded.saturating_add(1);
            if last_try && self.counters.failed > 0 {
                self.counters.failed = self.counters.failed - 1;
            }
        } else if status == MediaStatus::Failed && !last_try {
            if job.scheduler_retry_round == 0 {
                let mut again = job;
                again.scheduler_retry_round = 1;
                self.pending.push_front(again);
                assert(self.pending@ =~= seq![
                    DownloadJob { scheduler_retry_round: 1, ..given },
                ] + before.pending);
            } else {
                self.counters.failed = self.counters.failed.saturating_add(1);
                self.final_retry.push_back(job);
            }
        }
        self.workers.observe(flood_wait_count, status == MediaStatus::Downloaded);
        workers::settle_one(&mut self.frontiers, message_id);
        self.settle();
    }

    /// Takes in that no download has ended yet.
    pub fn on_none_ready(&mut self)
        requires
            old(self).valid(),
        ensures
            final(self).valid(),
            final(self)@ == old(self)@.with_none_ready(),
    {
        if self.step == Step::Polling {
            self.step = Step::Windowing;
        }
    }

    /// Takes in that the running downloads were given up.
    pub fn on_none_running(&mut self)
        requires
            old(self).valid(),
        ensures
            final(self).valid(),
            final(self)@ == old(self)@.with_none_running(),
    {
        self.given_up = Ghost(
            if self.phase == Phase::Sweep {
                self.given_up@
            } else {
                self.given_up@ + self.active
            },
        );
        self.active = 0;
    }
}

pub(crate) fn deque_of<T>(list: Vec<T>) -> (deque: VecDeque<T>)
    ensures
        deque@ == list@,
{
    let mut rest = list;
    let mut deque: VecDeque<T> = VecDeque::new();
    let ghost whole = rest@;
    while rest.len() > 0
        invariant
            rest@ + deque@ == whole,
        decreases rest@.len(),
    {
        let ghost front = rest@;
        let ghost back = deque@;
        if let Some(item) = rest.pop() {
            deque.push_front(item);
            assert(rest@ + deque@ =~= front + back);
        }
    }
    assert(deque@ =~= whole);
    deque
}

fn take_chunk(ids: &mut VecDeque<i32>) -> (chunk: Vec<i32>)
    ensures
        chunk@ == state::first_chunk(old(ids)@),
        final(ids)@ == state::later_chunks(old(ids)@),
{
    let mut chunk: Vec<i32> = Vec::new();
    let ghost whole = ids@;
    while ids.len() > 0 && chunk.len() < FETCH_SIZE
        invariant
            chunk@ + ids@ == whole,
            chunk@.len() <= FETCH_SIZE,
        decreases ids@.len(),
    {
        let ghost front = chunk@;
        let ghost back = ids@;
        if let Some(id) = ids.pop_front() {
            chunk.push(id);
            assert(chunk@ + ids@ =~= front + back);
        }
    }
    assert(chunk@ =~= state::first_chunk(whole));
    assert(ids@ =~= state::later_chunks(whole));
    chunk
}

fn copy_ids(ids: &[i32]) -> (copy: Vec<i32>)
    ensures
        copy@ == ids@,
{
    let mut copy: Vec<i32> = Vec::new();
    let mut i: usize = 0;
    while i < ids.len()
        invariant
            i <= ids@.len(),
            copy@ == ids@.take(i as int),
        decreases ids@.len() - i,
    {
        copy.push(ids[i]);
        i += 1;
        assert(copy@ =~= ids@.take(i as int));
    }
    assert(ids@.take(i as int) =~= ids@);
    copy
}

fn has_message<H>(messages: &[ScannedMessage<H>], id: i32) -> (yes: bool)
    ensures
        yes == state::came_back(messages@, id),
{
    let mut i: usize = 0;
    while i < messages.len()
        invariant
            i <= messages@.len(),
            forall|j: int| 0 <= j < i ==> (#[trigger] messages@[j]).message_id != id,
        decreases messages@.len() - i,
    {
        if messages[i].message_id == id {
            return true;
        }
        i += 1;
    }
    false
}

fn missing_ids<H>(requested: &[i32], messages: &[ScannedMessage<H>]) -> (missing: Vec<i32>)
    ensures
        missing@ == state::gone(requested@, messages@),
{
    let mut missing: Vec<i32> = Vec::new();
    let ghost lost = |id: i32| !state::came_back(messages@, id);
    let mut i: usize = 0;
    proof {
        reveal(Seq::filter);
    }
    while i < requested.len()
        invariant
            i <= requested@.len(),
            lost == |id: i32| !state::came_back(messages@, id),
            missing@ == requested@.take(i as int).filter(lost),
        decreases requested@.len() - i,
    {
        proof {
            reveal(Seq::filter);
            assert(requested@.take(i + 1).drop_last() =~= requested@.take(i as int));
            assert(requested@.take(i + 1).last() == requested@[i as int]);
        }
        if !has_message(messages, requested[i]) {
            missing.push(requested[i]);
        }
        i += 1;
    }
    assert(requested@.take(i as int) =~= requested@);
    missing
}

/// The records of files whose message is gone.
fn refetch_failures(records: &[StoredMediaRecord]) -> (items: Vec<PersistedMediaItem>)
    ensures
        storage::item_views(items@) == records@.map_values(
            |record: StoredMediaRecord| state::refetch_failure(record),
        ),
{
    let mut items: Vec<PersistedMediaItem> = Vec::new();
    let mut i: usize = 0;
    while i < records.len()
        invariant
            i <= records@.len(),
            items@.len() == i,
            forall|j: int| 0 <= j < i ==> (#[trigger] items@[j])@ == state::refetch_failure(records@[j]),
        decreases records@.len() - i,
    {
        let record = &records[i];
        let item = PersistedMediaItem {
            chat_id: record.chat_id,
            message_id: record.message_id,
            message_date: record.message_date,
            kind: record.kind,
            telegram_media_key: record.telegram_media_key.clone(),
            mime_type: None,
            file_size_bytes: record.file_size_bytes,
            local_path: record.local_path.clone(),
            sha256: text::copy_opt(&record.sha256),
            status: MediaStatus::Failed,
            error_message: Some(
                "planned media could not be refetched from Telegram message".to_string(),
            ),
        };
        items.push(item);
        i += 1;
    }
    assert(storage::item_views(items@) =~= records@.map_values(
        |record: StoredMediaRecord| state::refetch_failure(record),
    ));
    items
}

/// How an export ended, with its report.
#[derive(Debug)]
pub enum ExportRunOutcome {
    Completed(ExportReport),
    Interrupted(ExportReport),
}

/// The outcome of an export that ended as `end` says.
pub fn run_outcome(end: ExportEnd, input: ExportReportInput) -> (outcome: ExportRunOutcome)
    ensures
        match end {
            ExportEnd::Completed => outcome matches ExportRunOutcome::Completed(report)
                && report.is_of(input),
            ExportEnd::Interrupted => outcome matches ExportRunOutcome::Interrupted(report)
                && report.is_of(input),
        },
{
    let report = ExportReport::new(input);
    match end {
        ExportEnd::Completed => ExportRunOutcome::Completed(report),
        ExportEnd::Interrupted => ExportRunOutcome::Interrupted(report),
    }
}

} // verus!
