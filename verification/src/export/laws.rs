//! What holds of an export throughout.

use vstd::prelude::*;

use crate::export::processor::DownloadJob;
use crate::export::scope;
use crate::export::state;
use crate::export::state::{ActionView, Phase, SavedPlan, SessionState, Step, WriteView};
use crate::export::workers;
use crate::export::workers::MessageFrontier;
use crate::report;
use crate::storage::{MediaItemView, StoredMediaRecord};
use crate::types::{CheckpointState, ExportOptions, MediaKind, MediaStatus, ScannedMessage};

verus! {

/// What the outside can tell an export.
pub enum Event<H> {
    /// It is asked for its next step.
    Next { shutdown: bool },
    Messages(Seq<ScannedMessage<H>>),
    RetryableCount(usize),
    MissingRecords(Seq<StoredMediaRecord>),
    Planned {
        found: Seq<MediaKind>,
        records: Seq<MediaItemView>,
        jobs: Seq<DownloadJob<H>>,
        kept: nat,
    },
    Finished { job: DownloadJob<H>, record: MediaItemView, flood_wait_count: u64 },
    NoneReady,
    NoneRunning,
}

/// The state after an event.
pub open spec fn after<H>(s: SessionState<H>, event: Event<H>) -> SessionState<H> {
    match event {
        Event::Next { shutdown } => s.next(shutdown).0,
        Event::Messages(messages) => s.with_messages(messages),
        Event::RetryableCount(count) => s.with_retryable_count(count),
        Event::MissingRecords(records) => s.with_missing_records(records),
        Event::Planned { found, records, jobs, kept } => s.with_plan(found, records, jobs, kept),
        Event::Finished { job, record, flood_wait_count } => s.with_finished(
            job,
            record,
            flood_wait_count,
        ),
        Event::NoneReady => s.with_none_ready(),
        Event::NoneRunning => s.with_none_running(),
    }
}

/// Whether a message id needs no more reading: the scan has passed it, or the checkpoint that the
/// export started from, or the plan that it took over, vouches for it.
pub open spec fn covered<H>(s: SessionState<H>, id: int) -> bool {
    s.seen.contains(id) || s.trusted.contains(id)
}

/// Whether a checkpoint claims covered messages only.
pub open spec fn honest<H>(s: SessionState<H>, checkpoint: CheckpointState) -> bool {
    forall|id: int| #[trigger] state::claims(checkpoint, id) ==> covered(s, id)
}

/// Whether a frontier carries no checkpoint, or an honest one.
pub open spec fn honest_frontier<H>(s: SessionState<H>, frontier: MessageFrontier) -> bool {
    frontier.checkpoint is Some ==> honest(s, frontier.checkpoint->0)
}

/// Whether a write saves no checkpoint, or an honest one.
pub open spec fn honest_write<H>(s: SessionState<H>, write: WriteView) -> bool {
    match write {
        WriteView::SaveCheckpoint(checkpoint) => honest(s, checkpoint),
        _ => true,
    }
}

/// All checkpoints of the state are honest, and the place where the scan stands bounds what is
/// covered: everything above it, up to the watermark, is.
pub open spec fn sound<H>(s: SessionState<H>) -> bool {
    &&& honest(s, s.checkpoint)
    &&& honest(s, s.durable)
    &&& forall|i: int| 0 <= i < s.frontiers.len() ==> honest_frontier(s, #[trigger] s.frontiers[i])
    &&& forall|i: int| 0 <= i < s.outbox.len() ==> honest_write(s, #[trigger] s.outbox[i])
    &&& s.step matches Step::Planning { message_id, checkpoint } ==> (checkpoint is Some ==> honest(
        s,
        checkpoint->0,
    ))
    &&& s.step == Step::Fetching ==> s.phase == Phase::Replay || s.phase == Phase::Newer || s.phase
        == Phase::Backfill
    &&& s.phase == Phase::Backfill && s.moves() ==> !s.checkpoint.backfill_complete
    &&& s.phase == Phase::Newer ==> {
        &&& s.checkpoint.high_watermark_message_id == Some(s.old_high)
        &&& s.position is Some ==> forall|id: int| s.position->0 <= id ==> #[trigger] covered(s, id)
    }
    &&& s.phase == Phase::Backfill && s.moves() ==> (s.position is Some
        && s.checkpoint.high_watermark_message_id is Some ==> forall|id: int|
        s.position->0 <= id <= s.checkpoint.high_watermark_message_id->0 ==> #[trigger] covered(s, id))
}

/// A state that covers at least as much.
pub open spec fn covers_more<H>(less: SessionState<H>, more: SessionState<H>) -> bool {
    forall|id: int| covered(less, id) ==> #[trigger] covered(more, id)
}

proof fn honesty_grows<H>(less: SessionState<H>, more: SessionState<H>, checkpoint: CheckpointState)
    requires
        covers_more(less, more),
        honest(less, checkpoint),
    ensures
        honest(more, checkpoint),
{
    assert forall|id: int| #[trigger] state::claims(checkpoint, id) implies covered(more, id) by {
        assert(covered(less, id));
    }
}

/// The parts of `sound` that do not depend on the place of the scan.
pub open spec fn honest_parts<H>(s: SessionState<H>) -> bool {
    &&& honest(s, s.checkpoint)
    &&& honest(s, s.durable)
    &&& forall|i: int| 0 <= i < s.frontiers.len() ==> honest_frontier(s, #[trigger] s.frontiers[i])
    &&& forall|i: int| 0 <= i < s.outbox.len() ==> honest_write(s, #[trigger] s.outbox[i])
}

/// From one state to one that covers at least as much, what is honest stays so: only a new checkpoint
/// has to be shown to be honest.
proof fn parts_carry_over<H>(s: SessionState<H>, t: SessionState<H>)
    requires
        honest_parts(s),
        covers_more(s, t),
        t.checkpoint == s.checkpoint || honest(t, t.checkpoint),
        t.durable == s.durable || honest(t, t.durable),
        forall|i: int|
            0 <= i < t.frontiers.len() ==> honest_frontier(t, #[trigger] t.frontiers[i]) || (i
                < s.frontiers.len() && t.frontiers[i].checkpoint == s.frontiers[i].checkpoint),
        forall|i: int|
            0 <= i < t.outbox.len() ==> honest_write(t, #[trigger] t.outbox[i]) || s.outbox.contains(
                t.outbox[i],
            ),
    ensures
        honest_parts(t),
{
    honesty_grows(s, t, s.checkpoint);
    honesty_grows(s, t, s.durable);
    assert forall|i: int| 0 <= i < t.frontiers.len() implies honest_frontier(t, #[trigger] t.frontiers[i]) by {
        if !honest_frontier(t, t.frontiers[i]) {
            assert(honest_frontier(s, s.frontiers[i]));
            honesty_grows(s, t, s.frontiers[i].checkpoint->0);
        }
    }
    assert forall|i: int| 0 <= i < t.outbox.len() implies honest_write(t, #[trigger] t.outbox[i]) by {
        if !honest_write(t, t.outbox[i]) {
            let j = choose|j: int| 0 <= j < s.outbox.len() && s.outbox[j] == t.outbox[i];
            assert(honest_write(s, s.outbox[j]));
            honesty_grows(s, t, t.outbox[i]->SaveCheckpoint_0);
        }
    }
}

/// What is released comes from the frontiers, and what is left is among them.
proof fn released_from_frontiers<H>(s: SessionState<H>, frontiers: Seq<MessageFrontier>)
    requires
        forall|i: int| 0 <= i < frontiers.len() ==> honest_frontier(s, #[trigger] frontiers[i]),
    ensures
        forall|i: int|
            0 <= i < workers::released(frontiers).len() ==> honest(
                s,
                #[trigger] workers::released(frontiers)[i],
            ),
        forall|i: int|
            0 <= i < workers::unsettled(frontiers).len() ==> honest_frontier(
                s,
                #[trigger] workers::unsettled(frontiers)[i],
            ),
    decreases frontiers.len(),
{
    if frontiers.len() > 0 && frontiers[0].remaining_downloads == 0 {
        let rest = frontiers.drop_first();
        assert forall|i: int| 0 <= i < rest.len() implies honest_frontier(s, #[trigger] rest[i]) by {
            assert(rest[i] == frontiers[i + 1]);
        }
        released_from_frontiers(s, rest);
        assert(workers::unsettled(frontiers) == workers::unsettled(rest));
        let freed = workers::released(frontiers);
        let later = workers::released(rest);
        assert(honest_frontier(s, frontiers[0]));
        assert forall|i: int| 0 <= i < freed.len() implies honest(s, #[trigger] freed[i]) by {
            if frontiers[0].checkpoint is Some {
                if i > 0 {
                    assert(freed[i] == later[i - 1]);
                }
            } else {
                assert(freed[i] == later[i]);
            }
        }
    }
}

proof fn settling_keeps_parts<H>(s: SessionState<H>)
    requires
        honest_parts(s),
    ensures
        honest_parts(s.settled()),
        covers_more(s, s.settled()),
{
    let t = s.settled();
    released_from_frontiers(s, s.frontiers);
    let freed = workers::released(s.frontiers);
    assert forall|i: int| 0 <= i < t.frontiers.len() implies honest_frontier(t, #[trigger] t.frontiers[i]) by {
        let frontier = workers::unsettled(s.frontiers)[i];
        assert(honest_frontier(s, frontier));
        if frontier.checkpoint is Some {
            honesty_grows(s, t, frontier.checkpoint->0);
        }
    }
    assert forall|i: int| 0 <= i < t.outbox.len() implies honest_write(t, #[trigger] t.outbox[i])
        || s.outbox.contains(t.outbox[i]) by {
        if i < s.outbox.len() {
            assert(t.outbox[i] == s.outbox[i]);
        } else {
            let k = i - s.outbox.len();
            assert(t.outbox[i] == state::saves(freed)[k]);
            honesty_grows(s, t, freed[k]);
        }
    }
    if freed.len() > 0 {
        honesty_grows(s, t, freed[freed.len() - 1]);
    }
    parts_carry_over(s, t);
}

proof fn frontier_joins<H>(s: SessionState<H>, frontier: MessageFrontier)
    requires
        honest_parts(s),
        honest_frontier(s, frontier),
    ensures
        honest_parts(s.with_frontier(frontier)),
{
    let t = s.with_frontier(frontier);
    if frontier.checkpoint is Some {
        honesty_grows(s, t, frontier.checkpoint->0);
    }
    parts_carry_over(s, t);
}

/// Two states that cover the same and have the same checkpoints, frontiers and writes.
proof fn same_parts<H>(s: SessionState<H>, t: SessionState<H>)
    requires
        honest_parts(s),
        t.seen == s.seen,
        t.trusted == s.trusted,
        t.checkpoint == s.checkpoint,
        t.durable == s.durable,
        t.frontiers == s.frontiers,
        t.outbox == s.outbox,
    ensures
        honest_parts(t),
{
    parts_carry_over(s, t);
}

proof fn entering_drain_is_sound<H>(s: SessionState<H>)
    requires
        honest_parts(s),
    ensures
        sound(s.enter_drain()),
{
    same_parts(s, s.enter_drain());
}

proof fn entering_backfill_is_sound<H>(s: SessionState<H>)
    requires
        honest_parts(s),
    ensures
        sound(s.enter_backfill()),
{
    let t = s.enter_backfill();
    same_parts(s, t);
    if t.phase == Phase::Backfill && t.moves() && t.position is Some
        && t.checkpoint.high_watermark_message_id is Some {
        assert forall|id: int|
            t.position->0 <= id <= t.checkpoint.high_watermark_message_id->0 implies #[trigger] covered(
            t,
            id,
        ) by {
            assert(state::claims(t.checkpoint, id));
        }
    }
}

proof fn entering_newer_is_sound<H>(s: SessionState<H>)
    requires
        honest_parts(s),
    ensures
        sound(s.enter_newer()),
{
    same_parts(s, s.enter_newer());
    entering_backfill_is_sound(s);
}

/// A checkpoint that becomes the working one, with a frontier behind all others that carries it.
proof fn adopting_is_honest<H>(s: SessionState<H>, checkpoint: CheckpointState, t: SessionState<H>)
    requires
        honest_parts(s),
        honest(s, checkpoint),
        t.seen == s.seen,
        t.trusted == s.trusted,
        t.checkpoint == checkpoint,
        t.durable == s.durable,
        t.outbox == s.outbox,
        t.frontiers == s.frontiers.push(
            MessageFrontier {
                message_id: s.newest,
                checkpoint: Some(checkpoint),
                remaining_downloads: 0,
            },
        ),
    ensures
        honest_parts(t),
{
    honesty_grows(s, t, checkpoint);
    parts_carry_over(s, t);
}

proof fn finishing_newer_is_sound<H>(s: SessionState<H>)
    requires
        honest_parts(s),
        s.checkpoint.high_watermark_message_id == Some(s.old_high),
        forall|id: int| s.old_high < id <= s.newest ==> #[trigger] covered(s, id),
    ensures
        sound(s.newer_done()),
{
    let checkpoint = CheckpointState { high_watermark_message_id: Some(s.newest), ..s.checkpoint };
    assert forall|id: int| #[trigger] state::claims(checkpoint, id) implies covered(s, id) by {
        if id <= s.old_high {
            assert(state::claims(s.checkpoint, id));
        }
    }
    let t = SessionState {
        checkpoint,
        batch: Seq::<ScannedMessage<H>>::empty(),
        ..s.with_frontier(
            MessageFrontier {
                message_id: s.newest,
                checkpoint: Some(checkpoint),
                remaining_downloads: 0,
            },
        )
    };
    adopting_is_honest(s, checkpoint, t);
    settling_keeps_parts(t);
    entering_backfill_is_sound(t.settled());
}

proof fn cutting_newer_is_honest<H>(s: SessionState<H>)
    requires
        honest_parts(s),
        s.position is Some ==> forall|id: int| s.position->0 <= id ==> #[trigger] covered(s, id),
    ensures
        honest_parts(s.newer_cut()),
{
    let checkpoint = CheckpointState {
        high_watermark_message_id: Some(s.newest),
        backfill_cursor_message_id: s.position,
        backfill_complete: false,
        ..s.checkpoint
    };
    assert forall|id: int| #[trigger] state::claims(checkpoint, id) implies covered(s, id) by {}
    let t = SessionState {
        checkpoint,
        ..s.with_frontier(
            MessageFrontier {
                message_id: s.newest,
                checkpoint: Some(checkpoint),
                remaining_downloads: 0,
            },
        )
    };
    adopting_is_honest(s, checkpoint, t);
    settling_keeps_parts(t);
}

proof fn next_keeps_sound<H>(s: SessionState<H>, shutdown: bool)
    requires
        sound(s),
    ensures
        sound(s.next(shutdown).0),
{
    let t = s.next(shutdown).0;
    if s.outbox.len() > 0 {
        parts_carry_over(s, t);
        assert forall|id: int| covered(s, id) == #[trigger] covered(t, id) by {}
        assert forall|c: CheckpointState| honest(s, c) == #[trigger] honest(t, c) by {}
    } else {
        match s.phase {
            Phase::Replay => {
                same_parts(s, t);
            },
            Phase::Promote => {
                entering_newer_is_sound(s);
                if s.step == Step::Idle && s.plan is Some {
                    same_parts(s, t);
                }
            },
            Phase::Newer => {
                newer_keeps_sound(s, shutdown);
            },
            Phase::Backfill => {
                backfill_keeps_sound(s, shutdown);
            },
            Phase::Drain | Phase::Sweep => {
                same_parts(s, t);
            },
            Phase::Close => {
                settling_keeps_parts(s);
                parts_carry_over(s.settled(), t);
            },
            Phase::Done => {},
        }
    }
}

proof fn newer_keeps_sound<H>(s: SessionState<H>, shutdown: bool)
    requires
        sound(s),
        s.phase == Phase::Newer,
    ensures
        sound(s.next_newer(shutdown).0),
{
    let t = s.next_newer(shutdown).0;
    match s.step {
        Step::Idle => {
            let u = SessionState { stop: true, ..s };
            same_parts(s, u);
            entering_drain_is_sound(u);
            if !shutdown {
                same_parts(s, t);
                assert forall|id: int| covered(s, id) == #[trigger] covered(t, id) by {}
            }
        },
        Step::Scanning => {
            if s.batch.len() == 0 {
                same_parts(s, t);
                assert forall|id: int| covered(s, id) == #[trigger] covered(t, id) by {}
            } else {
                let message = s.batch[0];
                if message.message_id <= s.old_high {
                    let u = SessionState {
                        seen: s.seen.union(state::stretch(s.old_high + 1, s.position)),
                        ..s
                    };
                    assert(covers_more(s, u));
                    parts_carry_over(s, u);
                    assert forall|id: int| u.old_high < id <= u.newest implies #[trigger] covered(u, id) by {
                        if s.position is Some && s.position->0 <= id {
                            assert(covered(s, id));
                        } else {
                            assert(state::stretch(s.old_high + 1, s.position).contains(id));
                        }
                    }
                    finishing_newer_is_sound(u);
                } else {
                    scan_passes(s, message.message_id);
                    let p = s.passed(message.message_id);
                    same_parts(p, t);
                    assert forall|id: int| covered(p, id) == #[trigger] covered(t, id) by {}
                }
            }
        },
        Step::Checking => {
            let u = SessionState { stop: true, ..s };
            same_parts(s, u);
            assert forall|id: int| covered(s, id) == #[trigger] covered(u, id) by {}
            entering_drain_is_sound(u);
            cutting_newer_is_honest(u);
            entering_drain_is_sound(u.newer_cut());
            if !shutdown && !s.at_limit() {
                same_parts(s, t);
                assert forall|id: int| covered(s, id) == #[trigger] covered(t, id) by {}
            }
        },
        _ => {
            same_parts(s, t);
            assert forall|id: int| covered(s, id) == #[trigger] covered(t, id) by {}
        },
    }
}

/// Passing a message covers everything from it up to what was covered before.
proof fn scan_passes<H>(s: SessionState<H>, m: i32)
    requires
        honest_parts(s),
    ensures
        honest_parts(s.passed(m)),
        covers_more(s, s.passed(m)),
        covered(s.passed(m), m as int),
        forall|id: int|
            m <= id && (s.position is Some ==> id < s.position->0) ==> #[trigger] covered(
                s.passed(m),
                id,
            ),
        forall|id: int| covered(s, id) ==> #[trigger] covered(s.passed(m), id),
{
    let p = s.passed(m);
    assert(covers_more(s, p));
    parts_carry_over(s, p);
    assert forall|id: int| m <= id && (s.position is Some ==> id < s.position->0) implies #[trigger] covered(
        p,
        id,
    ) by {
        assert(state::stretch(m as int, s.position).contains(id));
    }
}

proof fn backfill_keeps_sound<H>(s: SessionState<H>, shutdown: bool)
    requires
        sound(s),
        s.phase == Phase::Backfill,
    ensures
        sound(s.next_backfill(shutdown).0),
{
    let t = s.next_backfill(shutdown).0;
    match s.step {
        Step::Idle => {
            let u = SessionState { stop: true, ..s };
            same_parts(s, u);
            entering_drain_is_sound(u);
            if !shutdown {
                same_parts(s, t);
                assert forall|id: int| covered(s, id) == #[trigger] covered(t, id) by {}
            }
        },
        Step::Scanning => {
            if s.batch.len() == 0 {
                same_parts(s, t);
                assert forall|id: int| covered(s, id) == #[trigger] covered(t, id) by {}
            } else {
                let message = s.batch[0];
                let m = message.message_id;
                let date = message.date.civil_date();
                scan_passes(s, m);
                let p = s.passed(m);
                if scope::in_scope(m, date, s.options) {
                    let checkpoint = if s.moves() {
                        s.backfilled(m)
                    } else {
                        s.checkpoint
                    };
                    assert(honest(p, checkpoint)) by {
                        if s.moves() {
                            assert forall|id: int| #[trigger] state::claims(checkpoint, id) implies covered(
                                p,
                                id,
                            ) by {
                                if s.position is Some && s.position->0 <= id
                                    && s.checkpoint.high_watermark_message_id is Some {
                                    assert(covered(s, id));
                                }
                            }
                        } else {
                            honesty_grows(s, p, s.checkpoint);
                        }
                    }
                    honesty_grows(p, t, checkpoint);
                    parts_carry_over(p, t);
                    if s.moves() {
                        assert forall|id: int|
                            t.position->0 <= id
                                <= t.checkpoint.high_watermark_message_id->0 implies #[trigger] covered(
                            t,
                            id,
                        ) by {
                            assert(state::claims(checkpoint, id));
                        }
                    }
                } else if scope::past_scope(m, date, s.options) {
                    let u = SessionState { batch: Seq::<ScannedMessage<H>>::empty(), ..s };
                    same_parts(s, u);
                    entering_drain_is_sound(u);
                } else {
                    same_parts(p, t);
                }
            }
        },
        Step::Checking => {
            let u = SessionState { stop: true, ..s };
            same_parts(s, u);
            entering_drain_is_sound(u);
            if !s.at_limit() && !shutdown {
                same_parts(s, t);
                assert forall|id: int| covered(s, id) == #[trigger] covered(t, id) by {}
            }
        },
        _ => {
            same_parts(s, t);
            assert forall|id: int| covered(s, id) == #[trigger] covered(t, id) by {}
        },
    }
}

proof fn messages_keep_sound<H>(s: SessionState<H>, messages: Seq<ScannedMessage<H>>)
    requires
        sound(s),
    ensures
        sound(s.with_messages(messages)),
{
    let t = s.with_messages(messages);
    if s.step == Step::Fetching {
        if s.phase == Phase::Replay {
            same_parts(s, t);
        } else if messages.len() > 0 {
            same_parts(s, t);
            assert forall|id: int| covered(s, id) == #[trigger] covered(t, id) by {}
        } else {
            let u = SessionState { seen: s.seen.union(state::rest_below(s.position)), ..s };
            assert(covers_more(s, u));
            parts_carry_over(s, u);
            if s.phase == Phase::Newer {
                assert forall|id: int| u.old_high < id <= u.newest implies #[trigger] covered(u, id) by {
                    if s.position is Some && s.position->0 <= id {
                        assert(covered(s, id));
                    } else {
                        assert(state::rest_below(s.position).contains(id));
                    }
                }
                finishing_newer_is_sound(u);
            } else if s.moves() {
                let checkpoint = CheckpointState { backfill_complete: true, ..s.checkpoint };
                let v = SessionState { checkpoint, ..u };
                assert forall|id: int| #[trigger] state::claims(checkpoint, id) implies covered(v, id) by {
                    if s.position is Some && s.position->0 <= id {
                        assert(covered(s, id));
                    } else {
                        assert(state::rest_below(s.position).contains(id));
                    }
                }
                parts_carry_over(u, v);
                entering_drain_is_sound(v);
            } else {
                entering_drain_is_sound(s);
            }
        }
    }
}

proof fn retryable_count_keeps_sound<H>(s: SessionState<H>, count: usize)
    requires
        sound(s),
    ensures
        sound(s.with_retryable_count(count)),
{
    if s.step == Step::Counting {
        if count == 0 && s.plan is Some {
            let plan = s.plan->0;
            let u = SessionState {
                trusted: s.trusted.union(state::claimed(plan.checkpoint)),
                ..s
            };
            assert(covers_more(s, u));
            parts_carry_over(s, u);
            let v = SessionState {
                checkpoint: plan.checkpoint,
                durable: plan.checkpoint,
                outbox: s.outbox.push(WriteView::SaveCheckpoint(plan.checkpoint)).push(
                    WriteView::SupersedePlan(plan.id),
                ),
                ..u
            };
            assert forall|id: int| #[trigger] state::claims(plan.checkpoint, id) implies covered(v, id) by {
                assert(state::claimed(plan.checkpoint).contains(id));
            }
            parts_carry_over(u, v);
            entering_newer_is_sound(v);
        } else {
            entering_newer_is_sound(s);
        }
    }
}

proof fn missing_records_keep_sound<H>(s: SessionState<H>, records: Seq<StoredMediaRecord>)
    requires
        sound(s),
    ensures
        sound(s.with_missing_records(records)),
{
    let t = s.with_missing_records(records);
    if s.step == Step::Lookup {
        parts_carry_over(s, t);
        assert forall|id: int| covered(s, id) == #[trigger] covered(t, id) by {}
    }
}

proof fn plan_keeps_sound<H>(
    s: SessionState<H>,
    found: Seq<MediaKind>,
    records: Seq<MediaItemView>,
    jobs: Seq<DownloadJob<H>>,
    kept: nat,
)
    requires
        sound(s),
    ensures
        sound(s.with_plan(found, records, jobs, kept)),
{
    let t = s.with_plan(found, records, jobs, kept);
    if let Step::Planning { message_id, checkpoint } = s.step {
        let frontier = MessageFrontier {
            message_id,
            checkpoint,
            remaining_downloads: jobs.len() as usize,
        };
        frontier_joins(s, frontier);
        let u = s.with_frontier(frontier);
        let counted = s.counters.with_all_found(found);
        let queued = SessionState {
            counters: report::ExportCounters {
                skipped_existing: report::capped(counted.skipped_existing + kept) as usize,
                scanned_messages: report::capped(counted.scanned_messages + 1) as usize,
                ..counted
            },
            outbox: if records.len() > 0 {
                s.outbox.push(WriteView::Commit(records))
            } else {
                s.outbox
            },
            pending: s.pending + jobs,
            ..u
        };
        parts_carry_over(u, queued);
        settling_keeps_parts(queued);
        same_parts(queued.settled(), t);
        assert forall|id: int| covered(s, id) == #[trigger] covered(t, id) by {}
    }
}

proof fn one_less_keeps_checkpoints(frontiers: Seq<MessageFrontier>, message_id: i32)
    ensures
        workers::one_less(frontiers, message_id).len() == frontiers.len(),
        forall|i: int|
            0 <= i < frontiers.len() ==> (#[trigger] workers::one_less(frontiers, message_id)[i]).checkpoint
                == frontiers[i].checkpoint,
    decreases frontiers.len(),
{
    if frontiers.len() > 0 && frontiers[0].message_id != message_id {
        let rest = frontiers.drop_first();
        one_less_keeps_checkpoints(rest, message_id);
        let fewer = workers::one_less(frontiers, message_id);
        assert forall|i: int| 0 <= i < frontiers.len() implies (#[trigger] fewer[i]).checkpoint
            == frontiers[i].checkpoint by {
            if i > 0 {
                assert(fewer[i] == workers::one_less(rest, message_id)[i - 1]);
            }
        }
    }
}

proof fn finish_keeps_sound<H>(
    s: SessionState<H>,
    job: DownloadJob<H>,
    record: MediaItemView,
    flood_wait_count: u64,
)
    requires
        sound(s),
    ensures
        sound(s.with_finished(job, record, flood_wait_count)),
{
    if s.active > 0 {
        let t = s.with_finished(job, record, flood_wait_count);
        one_less_keeps_checkpoints(s.frontiers, job.message_id);
        let u = SessionState {
            outbox: s.outbox.push(WriteView::Commit(seq![record])),
            frontiers: workers::one_less(s.frontiers, job.message_id),
            ..s
        };
        parts_carry_over(s, u);
        settling_keeps_parts(u);
        same_parts(u.settled(), t);
        assert forall|id: int| covered(s, id) == #[trigger] covered(t, id) by {}
        if let Step::Planning { message_id, checkpoint } = s.step {
            if checkpoint is Some {
                assert(honest(s, checkpoint->0));
                honesty_grows(s, t, checkpoint->0);
            }
        }
    }
}

/// A new export claims no message but those that its checkpoint vouches for.
pub proof fn new_exports_are_sound<H>(
    options: ExportOptions,
    checkpoint: CheckpointState,
    plan: Option<SavedPlan>,
    retry_ids: Seq<i32>,
    worker_cap: usize,
    window: usize,
)
    ensures
        sound(
            SessionState::<H>::initial(options, checkpoint, plan, retry_ids, worker_cap, window),
        ),
{
    let s = SessionState::<H>::initial(options, checkpoint, plan, retry_ids, worker_cap, window);
    assert forall|id: int| #[trigger] state::claims(checkpoint, id) implies covered(s, id) by {
        assert(state::claimed(checkpoint).contains(id));
    }
    if s.phase == Phase::Backfill && s.moves() {
        assert(false);
    }
}

/// Whatever happens, no checkpoint of an export claims a message that was neither passed by the scan
/// nor vouched for by what the export started from.
pub proof fn exports_stay_sound<H>(s: SessionState<H>, event: Event<H>)
    requires
        sound(s),
    ensures
        sound(after(s, event)),
{
    match event {
        Event::Next { shutdown } => next_keeps_sound(s, shutdown),
        Event::Messages(messages) => messages_keep_sound(s, messages),
        Event::RetryableCount(count) => retryable_count_keeps_sound(s, count),
        Event::MissingRecords(records) => missing_records_keep_sound(s, records),
        Event::Planned { found, records, jobs, kept } => plan_keeps_sound(
            s,
            found,
            records,
            jobs,
            kept,
        ),
        Event::Finished { job, record, flood_wait_count } => finish_keeps_sound(
            s,
            job,
            record,
            flood_wait_count,
        ),
        Event::NoneReady => {
            let t = s.with_none_ready();
            same_parts(s, t);
            assert forall|id: int| covered(s, id) == #[trigger] covered(t, id) by {}
            if let Step::Planning { message_id, checkpoint } = s.step {
                if checkpoint is Some {
                    honesty_grows(s, t, checkpoint->0);
                }
            }
        },
        Event::NoneRunning => {
            let t = s.with_none_running();
            same_parts(s, t);
            assert forall|id: int| covered(s, id) == #[trigger] covered(t, id) by {}
            if let Step::Planning { message_id, checkpoint } = s.step {
                if checkpoint is Some {
                    honesty_grows(s, t, checkpoint->0);
                }
            }
        },
    }
}

/// A checkpoint that is written claims covered messages only: stopping an export never makes it pass
/// over messages that it has not read.
pub proof fn saved_checkpoints_skip_nothing<H>(
    s: SessionState<H>,
    shutdown: bool,
    checkpoint: CheckpointState,
    id: int,
)
    requires
        sound(s),
        s.next(shutdown).1 == ActionView::<H>::Write(WriteView::SaveCheckpoint(checkpoint)),
        state::claims(checkpoint, id),
    ensures
        covered(s, id),
{
    assert(s.outbox.len() > 0);
    assert(honest_write(s, s.outbox[0]));
}

/// No checkpoint is on its way to be written.
pub open spec fn silent<H>(s: SessionState<H>) -> bool {
    &&& s.phase != Phase::Replay && s.phase != Phase::Promote && s.phase != Phase::Newer
    &&& s.step != Step::Counting
    &&& forall|i: int| 0 <= i < s.frontiers.len() ==> (#[trigger] s.frontiers[i]).checkpoint is None
    &&& forall|i: int| 0 <= i < s.outbox.len() ==> !(#[trigger] s.outbox[i] is SaveCheckpoint)
    &&& s.step matches Step::Planning { message_id, checkpoint } ==> checkpoint is None
}

proof fn settling_stays_silent(frontiers: Seq<MessageFrontier>)
    requires
        forall|i: int| 0 <= i < frontiers.len() ==> (#[trigger] frontiers[i]).checkpoint is None,
    ensures
        workers::released(frontiers).len() == 0,
        forall|i: int|
            0 <= i < workers::unsettled(frontiers).len() ==> (#[trigger] workers::unsettled(
                frontiers,
            )[i]).checkpoint is None,
    decreases frontiers.len(),
{
    if frontiers.len() > 0 && frontiers[0].remaining_downloads == 0 {
        let rest = frontiers.drop_first();
        assert forall|i: int| 0 <= i < rest.len() implies (#[trigger] rest[i]).checkpoint is None by {
            assert(rest[i] == frontiers[i + 1]);
        }
        settling_stays_silent(rest);
        assert(workers::unsettled(frontiers) == workers::unsettled(rest));
    }
}

/// An export with bounds, or a rescan, leaves the checkpoint of the chat alone: it starts without a
/// checkpoint to be written.
pub proof fn bounded_exports_start_silent<H>(
    options: ExportOptions,
    checkpoint: CheckpointState,
    plan: Option<SavedPlan>,
    retry_ids: Seq<i32>,
    worker_cap: usize,
    window: usize,
)
    requires
        !scope::moves_checkpoint(options),
    ensures
        silent(
            SessionState::<H>::initial(options, checkpoint, plan, retry_ids, worker_cap, window),
        ),
{
}

/// An export with bounds, or a rescan, leaves the checkpoint of the chat alone: it never comes to
/// write one.
pub proof fn bounded_exports_stay_silent<H>(s: SessionState<H>, event: Event<H>)
    requires
        !s.moves(),
        silent(s),
    ensures
        silent(after(s, event)),
        !after(s, event).moves(),
{
    let t = after(s, event);
    match event {
        Event::Next { shutdown } => {
            if s.outbox.len() > 0 {
                assert forall|i: int| 0 <= i < t.outbox.len() implies !(#[trigger] t.outbox[i] is SaveCheckpoint) by {
                    assert(t.outbox[i] == s.outbox[i + 1]);
                }
            } else if s.phase == Phase::Close {
                settling_stays_silent(s.frontiers);
                assert(state::saves(workers::released(s.frontiers)).len() == 0);
            }
        },
        Event::Planned { found, records, jobs, kept } => {
            if let Step::Planning { message_id, checkpoint } = s.step {
                let joined = s.frontiers.push(
                    MessageFrontier {
                        message_id,
                        checkpoint,
                        remaining_downloads: jobs.len() as usize,
                    },
                );
                settling_stays_silent(joined);
                assert(state::saves(workers::released(joined)).len() == 0);
            }
        },
        Event::Finished { job, record, flood_wait_count } => {
            if s.active > 0 {
                one_less_keeps_checkpoints(s.frontiers, job.message_id);
                let fewer = workers::one_less(s.frontiers, job.message_id);
                assert forall|i: int| 0 <= i < fewer.len() implies (#[trigger] fewer[i]).checkpoint is None by {
                    assert(s.frontiers[i].checkpoint is None);
                }
                settling_stays_silent(fewer);
                assert(state::saves(workers::released(fewer)).len() == 0);
            }
        },
        _ => {},
    }
}

/// The downloads that run at once are never more than the workers that were allowed, and never more
/// than one where none were.
pub open spec fn within_workers<H>(s: SessionState<H>) -> bool {
    &&& s.workers.valid()
    &&& s.active <= s.workers.max_limit || s.active <= 1
}

/// Whatever happens, no more downloads run at once than were allowed.
pub proof fn exports_stay_within_workers<H>(s: SessionState<H>, event: Event<H>)
    requires
        within_workers(s),
    ensures
        within_workers(after(s, event)),
        after(s, event).workers.max_limit == s.workers.max_limit,
{
    match event {
        Event::Next { shutdown } => {
            if s.outbox.len() == 0 {
                match s.phase {
                    Phase::Newer => {},
                    Phase::Backfill => {},
                    _ => {},
                }
            }
        },
        Event::Planned { .. } => {},
        Event::Finished { .. } => {},
        _ => {},
    }
}

/// Past the reading of a whole chat, and not stopped.
pub open spec fn reading_is_over<H>(s: SessionState<H>) -> bool {
    s.moves() && !s.stop && (s.phase == Phase::Drain || s.phase == Phase::Sweep || s.phase
        == Phase::Close || s.phase == Phase::Done)
}

/// An export that goes by the checkpoint leaves the reading only when the whole history was read,
/// and ends with that checkpoint saved and nothing left to download.
pub open spec fn thorough<H>(s: SessionState<H>) -> bool {
    &&& reading_is_over(s) ==> s.checkpoint.backfill_complete
    &&& reading_is_over(s) && s.phase == Phase::Done ==> s.durable == s.checkpoint
    &&& !s.stop && (s.phase == Phase::Close || s.phase == Phase::Done) ==> s.active == 0
        && s.pending.len() == 0
    &&& (s.phase == Phase::Drain || s.phase == Phase::Sweep) ==> s.step == Step::Draining
    &&& (s.phase == Phase::Close || s.phase == Phase::Done) ==> s.step == Step::Idle
    &&& s.step == Step::Fetching ==> s.phase == Phase::Replay || s.phase == Phase::Newer || s.phase
        == Phase::Backfill
}

/// A new export has nothing to be thorough about yet.
pub proof fn new_exports_are_thorough<H>(
    options: ExportOptions,
    checkpoint: CheckpointState,
    plan: Option<SavedPlan>,
    retry_ids: Seq<i32>,
    worker_cap: usize,
    window: usize,
)
    ensures
        thorough(
            SessionState::<H>::initial(options, checkpoint, plan, retry_ids, worker_cap, window),
        ),
{
}

/// Whatever happens, an export that goes by the checkpoint ends only when the whole history was read.
pub proof fn exports_stay_thorough<H>(s: SessionState<H>, event: Event<H>)
    requires
        thorough(s),
    ensures
        thorough(after(s, event)),
{
}

/// When an export that goes by the checkpoint has gone through, every message up to the saved
/// watermark is covered.
pub proof fn completed_exports_cover_the_chat<H>(s: SessionState<H>, id: int)
    requires
        thorough(s),
        sound(s),
        s.moves(),
        s.phase == Phase::Done,
        !s.stop,
        s.durable.high_watermark_message_id is Some,
        id <= s.durable.high_watermark_message_id->0,
    ensures
        covered(s, id),
{
    assert(state::claims(s.durable, id));
}

/// How many files were found, those of messages that are gone included.
pub open spec fn files_met<H>(s: SessionState<H>) -> int {
    s.counters.media_found + s.vanished
}

/// How many files are accounted for.
pub open spec fn files_told<H>(s: SessionState<H>) -> int {
    s.counters.skipped_existing + s.counters.downloaded + s.counters.failed
}

/// Every file is counted once: kept, downloaded, failed, waiting, running or given up. In the last
/// try the waiting and running files are among the failed ones.
pub open spec fn balanced<H>(s: SessionState<H>) -> bool {
    let open = s.pending.len() + s.active;
    if s.phase == Phase::Sweep {
        &&& files_met(s) == files_told(s) + s.given_up
        &&& open <= s.counters.failed
    } else if s.phase == Phase::Close || s.phase == Phase::Done {
        !s.stop ==> {
            &&& files_met(s) == files_told(s) + s.given_up
            &&& open == 0
        }
    } else {
        &&& files_met(s) == files_told(s) + open + s.given_up
        &&& s.final_retry.len() <= s.counters.failed
    }
}

/// Whether an event tells of files in order, and no counter has reached its end.
pub open spec fn countable<H>(s: SessionState<H>, event: Event<H>) -> bool {
    match event {
        Event::Planned { found, records, jobs, kept } => {
            &&& found.len() == kept + jobs.len()
            &&& s.counters.media_found + found.len() <= usize::MAX
            &&& s.counters.skipped_existing + kept <= usize::MAX
        },
        Event::Finished { job, record, flood_wait_count } => {
            &&& record.status == MediaStatus::Downloaded || record.status == MediaStatus::Failed
            &&& s.counters.downloaded < usize::MAX
            &&& s.counters.failed < usize::MAX
        },
        Event::MissingRecords(records) => s.counters.failed + records.len() <= usize::MAX,
        _ => true,
    }
}

proof fn finding_counts(counters: report::ExportCounters, kinds: Seq<MediaKind>)
    ensures
        counters.with_all_found(kinds).media_found == report::capped(counters.media_found + kinds.len()),
        counters.with_all_found(kinds).scanned_messages == counters.scanned_messages,
        counters.with_all_found(kinds).downloaded == counters.downloaded,
        counters.with_all_found(kinds).skipped_existing == counters.skipped_existing,
        counters.with_all_found(kinds).failed == counters.failed,
    decreases kinds.len(),
{
    if kinds.len() > 0 {
        finding_counts(counters, kinds.drop_last());
    }
}

/// A new export has counted nothing.
pub proof fn new_exports_are_balanced<H>(
    options: ExportOptions,
    checkpoint: CheckpointState,
    plan: Option<SavedPlan>,
    retry_ids: Seq<i32>,
    worker_cap: usize,
    window: usize,
)
    ensures
        balanced(
            SessionState::<H>::initial(options, checkpoint, plan, retry_ids, worker_cap, window),
        ),
{
}

proof fn next_keeps_balance<H>(s: SessionState<H>, shutdown: bool)
    requires
        balanced(s),
        thorough(s),
        within_workers(s),
    ensures
        balanced(s.next(shutdown).0),
{
    if s.outbox.len() == 0 {
        match s.phase {
            Phase::Replay => {
                assert(balanced(s.next_replay(shutdown).0));
            },
            Phase::Newer => {
                match s.step {
                    Step::Scanning => {
                        assert(balanced(s.next_newer(shutdown).0));
                    },
                    Step::Checking => {
                        assert(balanced(s.next_newer(shutdown).0));
                    },
                    Step::Idle => {
                        assert(balanced(s.next_newer(shutdown).0));
                    },
                    _ => {
                        assert(balanced(s.next_pump(shutdown).0));
                    },
                }
            },
            Phase::Backfill => {
                match s.step {
                    Step::Scanning => {
                        assert(balanced(s.next_backfill(shutdown).0));
                    },
                    Step::Checking => {
                        assert(balanced(s.next_backfill(shutdown).0));
                    },
                    Step::Idle => {
                        assert(balanced(s.next_backfill(shutdown).0));
                    },
                    _ => {
                        assert(balanced(s.next_pump(shutdown).0));
                    },
                }
            },
            Phase::Drain | Phase::Sweep => {
                assert(balanced(s.next_drain(shutdown).0));
            },
            _ => {},
        }
    }
}

proof fn plan_keeps_balance<H>(
    s: SessionState<H>,
    found: Seq<MediaKind>,
    records: Seq<MediaItemView>,
    jobs: Seq<DownloadJob<H>>,
    kept: nat,
)
    requires
        balanced(s),
        thorough(s),
        countable(s, Event::Planned { found, records, jobs, kept }),
    ensures
        balanced(s.with_plan(found, records, jobs, kept)),
{
    finding_counts(s.counters, found);
}

proof fn finish_keeps_balance<H>(
    s: SessionState<H>,
    job: DownloadJob<H>,
    record: MediaItemView,
    flood_wait_count: u64,
)
    requires
        balanced(s),
        thorough(s),
        countable(s, Event::Finished { job, record, flood_wait_count }),
    ensures
        balanced(s.with_finished(job, record, flood_wait_count)),
{
}

/// Whatever happens, every file is counted once, as long as no counter reaches its end.
pub proof fn exports_stay_balanced<H>(s: SessionState<H>, event: Event<H>)
    requires
        balanced(s),
        thorough(s),
        within_workers(s),
        countable(s, event),
    ensures
        balanced(after(s, event)),
{
    match event {
        Event::Next { shutdown } => next_keeps_balance(s, shutdown),
        Event::Planned { found, records, jobs, kept } => plan_keeps_balance(
            s,
            found,
            records,
            jobs,
            kept,
        ),
        Event::Finished { job, record, flood_wait_count } => finish_keeps_balance(
            s,
            job,
            record,
            flood_wait_count,
        ),
        _ => {},
    }
}

/// When an export has gone through, every file that it met is reported as kept, downloaded or failed,
/// and as one of these only.
pub proof fn completed_exports_report_every_file<H>(s: SessionState<H>)
    requires
        balanced(s),
        s.phase == Phase::Done,
        !s.stop,
        s.given_up == 0,
    ensures
        files_met(s) == files_told(s),
{
}

/// Whether an export that read `replayed` messages again keeps to its limit: it scans no more messages
/// than that, but for one that is always read, and there is room for another one where it goes on to
/// scan.
pub open spec fn within_limit<H>(s: SessionState<H>, replayed: int) -> bool {
    let reads = s.phase == Phase::Newer || s.phase == Phase::Backfill;
    s.options.limit matches Some(limit) ==> {
        let most = if limit > replayed {
            limit as int
        } else {
            replayed + 1
        };
        &&& s.phase == Phase::Replay || s.phase == Phase::Promote ==> s.counters.scanned_messages
            <= replayed
        &&& s.step == Step::Counting ==> s.phase == Phase::Promote
        &&& s.step == Step::Lookup ==> s.phase == Phase::Replay
        &&& s.counters.scanned_messages <= most
        &&& reads && (s.step is Idle || s.step is Fetching || s.step is Scanning || s.step is Planning)
            ==> s.counters.scanned_messages < most
        &&& s.step is Planning || s.step is Fetching ==> reads || s.phase == Phase::Replay
    }
}

/// A new export has scanned nothing.
pub proof fn new_exports_are_within_limit<H>(
    options: ExportOptions,
    checkpoint: CheckpointState,
    plan: Option<SavedPlan>,
    retry_ids: Seq<i32>,
    worker_cap: usize,
    window: usize,
    replayed: int,
)
    requires
        replayed >= 0,
    ensures
        within_limit(
            SessionState::<H>::initial(options, checkpoint, plan, retry_ids, worker_cap, window),
            replayed,
        ),
{
}

proof fn next_stays_within_limit<H>(s: SessionState<H>, shutdown: bool, replayed: int)
    requires
        replayed >= 0,
        within_limit(s, replayed),
    ensures
        within_limit(s.next(shutdown).0, replayed),
        s.next(shutdown).0.options == s.options,
{
    if s.outbox.len() == 0 {
        match s.phase {
            Phase::Newer => {
                match s.step {
                    Step::Scanning => {},
                    Step::Checking => {},
                    _ => {},
                }
            },
            Phase::Backfill => {
                match s.step {
                    Step::Scanning => {},
                    Step::Checking => {},
                    _ => {},
                }
            },
            Phase::Replay => {},
            Phase::Promote => {},
            _ => {},
        }
    }
}

/// Whatever happens, an export scans no more messages than its limit allows, besides those that it
/// reads again.
pub proof fn exports_stay_within_limit<H>(s: SessionState<H>, event: Event<H>, replayed: int)
    requires
        replayed >= 0,
        within_limit(s, replayed),
        after(s, event).phase == Phase::Replay ==> after(s, event).counters.scanned_messages
            <= replayed,
    ensures
        within_limit(after(s, event), replayed),
        after(s, event).options == s.options,
{
    match event {
        Event::Next { shutdown } => next_stays_within_limit(s, shutdown, replayed),
        Event::Messages(_) => {},
        Event::Planned { found, records, jobs, kept } => {
            finding_counts(s.counters, found);
        },
        Event::Finished { .. } => {},
        _ => {},
    }
}

/// An export stops early only if it is told to, or if it has a limit and has scanned as many messages.
pub proof fn exports_stop_for_a_reason<H>(s: SessionState<H>, event: Event<H>)
    requires
        !s.stop,
        after(s, event).stop,
    ensures
        event matches Event::Next { shutdown } && (shutdown || s.options.limit is Some
            && s.counters.scanned_messages >= s.options.limit->0),
{
    match event {
        Event::Next { shutdown } => {
            if s.outbox.len() == 0 {
                match s.phase {
                    Phase::Newer => {},
                    Phase::Backfill => {},
                    Phase::Replay => {},
                    _ => {},
                }
            }
        },
        Event::Messages(_) => {},
        Event::Planned { .. } => {},
        Event::Finished { .. } => {},
        _ => {},
    }
}

/// Messages with unfinished files are asked for again in chunks that leave none out and are never too
/// long.
pub proof fn chunks_make_up_the_list(ids: Seq<i32>)
    ensures
        state::first_chunk(ids) + state::later_chunks(ids) == ids,
        state::first_chunk(ids).len() <= 100,
        ids.len() > 0 ==> state::first_chunk(ids).len() > 0,
        state::later_chunks(ids).len() > 0 ==> state::first_chunk(ids).len() == 100,
{
    assert(state::first_chunk(ids) + state::later_chunks(ids) =~= ids);
}

/// Of the messages that were asked for, those are gone that did not come back.
pub proof fn gone_messages_did_not_come_back<H>(
    requested: Seq<i32>,
    messages: Seq<ScannedMessage<H>>,
    id: i32,
)
    ensures
        state::gone(requested, messages).contains(id) <==> requested.contains(id) && forall|i: int|
            0 <= i < messages.len() ==> (#[trigger] messages[i]).message_id != id,
{
    let lost = |id: i32| !state::came_back(messages, id);
    let list = state::gone(requested, messages);
    if list.contains(id) {
        requested.lemma_filter_contains_rev(lost, id);
        let i = choose|i: int| 0 <= i < list.len() && list[i] == id;
        requested.lemma_filter_pred(lost, i);
        assert forall|i: int| 0 <= i < messages.len() implies (#[trigger] messages[i]).message_id != id by {}
    }
    if requested.contains(id) && forall|i: int|
        0 <= i < messages.len() ==> (#[trigger] messages[i]).message_id != id {
        let i = choose|i: int| 0 <= i < requested.len() && requested[i] == id;
        requested.lemma_filter_contains(lost, i);
    }
}

/// A saved plan is taken over only when no message with unfinished files is left: else the checkpoint
/// stays where it is and nothing is written.
pub proof fn plans_are_taken_over_when_drained<H>(s: SessionState<H>, count: usize)
    requires
        s.step == Step::Counting,
        s.plan is Some,
    ensures
        ({
            let t = s.with_retryable_count(count);
            let plan = s.plan->0;
            &&& count > 0 ==> t.outbox == s.outbox && t.durable == s.durable && t.checkpoint
                == s.checkpoint
            &&& count == 0 ==> {
                &&& t.outbox.len() == s.outbox.len() + 2
                &&& t.outbox[s.outbox.len() as int] == WriteView::SaveCheckpoint(plan.checkpoint)
                &&& t.outbox.last() == WriteView::SupersedePlan(plan.id)
                &&& t.durable == plan.checkpoint
                &&& t.checkpoint == plan.checkpoint
            }
        }),
{
}

/// Downloads are started in the order in which they were queued, as soon as a worker is free, and are
/// recorded as running.
pub proof fn downloads_start_in_order<H>(s: SessionState<H>, shutdown: bool)
    requires
        s.active < usize::MAX,
    ensures
        s.next(shutdown).1 matches ActionView::Start(job, record) ==> {
            let t = s.next(shutdown).0;
            &&& s.pending == seq![job] + t.pending
            &&& t.active == s.active + 1
            &&& s.active < s.workers.current_limit
            &&& !shutdown
            &&& record.status == MediaStatus::Downloading
            &&& record.error_message is None
            &&& record.chat_id == job.pending_record.chat_id
            &&& record.message_id == job.pending_record.message_id
            &&& record.telegram_media_key == job.pending_record.telegram_media_key
            &&& record.local_path == job.pending_record.local_path
            &&& record.file_size_bytes == job.pending_record.file_size_bytes
            &&& record.kind == job.pending_record.kind
        },
{
    starts_are_started(s, shutdown);
    if s.pending.len() > 0 {
        assert(seq![s.pending[0]] + s.pending.drop_first() =~= s.pending);
    }
}

proof fn starts_are_started<H>(s: SessionState<H>, shutdown: bool)
    ensures
        s.next(shutdown).1 is Start ==> s.startable(shutdown) && s.next(shutdown) == s.started(),
{
    if s.outbox.len() == 0 {
        match s.phase {
            Phase::Newer => {
                assert(s.next_newer(shutdown).1 is Start ==> s.next_pump(shutdown) == s.next_newer(
                    shutdown,
                ));
            },
            Phase::Backfill => {
                assert(s.next_backfill(shutdown).1 is Start ==> s.next_pump(shutdown)
                    == s.next_backfill(shutdown));
            },
            Phase::Replay => {},
            Phase::Drain | Phase::Sweep => {},
            _ => {},
        }
    }
}

/// A download that fails for the first time is tried again before anything else that waits. One that
/// fails again is counted and left for the end. One that succeeds is counted, and waits no more. What
/// came of it is written in each case.
pub proof fn failed_downloads_are_tried_again<H>(
    s: SessionState<H>,
    job: DownloadJob<H>,
    record: MediaItemView,
    flood_wait_count: u64,
)
    requires
        s.active > 0,
        s.phase != Phase::Sweep,
        s.counters.downloaded < usize::MAX,
        s.counters.failed < usize::MAX,
    ensures
        ({
            let t = s.with_finished(job, record, flood_wait_count);
            let first = job.scheduler_retry_round == 0;
            &&& t.active == s.active - 1
            &&& t.outbox.len() > s.outbox.len()
            &&& t.outbox[s.outbox.len() as int] == WriteView::Commit(seq![record])
            &&& record.status == MediaStatus::Downloaded ==> {
                &&& t.counters.downloaded == s.counters.downloaded + 1
                &&& t.counters.failed == s.counters.failed
                &&& t.pending == s.pending
                &&& t.final_retry == s.final_retry
            }
            &&& record.status == MediaStatus::Failed && first ==> {
                &&& t.counters == s.counters
                &&& t.pending.len() == s.pending.len() + 1
                &&& t.pending[0].handle == job.handle
                &&& t.pending[0].message_id == job.message_id
                &&& t.pending[0].pending_record == job.pending_record
                &&& t.pending[0].scheduler_retry_round > 0
                &&& t.pending.drop_first() == s.pending
                &&& t.final_retry == s.final_retry
            }
            &&& record.status == MediaStatus::Failed && !first ==> {
                &&& t.counters.failed == s.counters.failed + 1
                &&& t.counters.downloaded == s.counters.downloaded
                &&& t.pending == s.pending
                &&& t.final_retry == s.final_retry.push(job)
            }
        }),
{
    let t = s.with_finished(job, record, flood_wait_count);
    if record.status == MediaStatus::Failed && job.scheduler_retry_round == 0 {
        assert(t.pending.drop_first() =~= s.pending);
    }
}

/// The last try takes all files that failed, with one or two workers; a file that succeeds then is no
/// longer counted as failed.
pub proof fn the_last_try_makes_up_for_failures<H>(
    s: SessionState<H>,
    job: DownloadJob<H>,
    record: MediaItemView,
    flood_wait_count: u64,
)
    requires
        s.counters.downloaded < usize::MAX,
    ensures
        s.enter_sweep().pending == s.final_retry,
        s.enter_sweep().final_retry.len() == 0,
        s.workers.valid() ==> 1 <= s.enter_sweep().workers.current_limit <= 2,
        s.phase == Phase::Sweep && s.active > 0 && s.counters.failed > 0 && record.status
            == MediaStatus::Downloaded ==> {
            let t = s.with_finished(job, record, flood_wait_count);
            t.counters.failed == s.counters.failed - 1 && t.counters.downloaded
                == s.counters.downloaded + 1
        },
        s.phase == Phase::Sweep && s.active > 0 && record.status == MediaStatus::Failed ==> {
            let t = s.with_finished(job, record, flood_wait_count);
            t.counters == s.counters && t.pending == s.pending && t.final_retry == s.final_retry
        },
{
}

proof fn plans_are_of_the_batch<H>(s: SessionState<H>, shutdown: bool)
    ensures
        s.next(shutdown).1 matches ActionView::Plan(message) ==> {
            let t = s.next(shutdown).0;
            &&& s.step == Step::Scanning
            &&& s.phase == Phase::Replay || s.phase == Phase::Newer || s.phase == Phase::Backfill
            &&& s.batch.len() > 0
            &&& message == s.batch[0]
            &&& t.batch == s.batch.drop_first()
            &&& t.step matches Step::Planning { message_id, checkpoint } && message_id
                == message.message_id
            &&& s.phase == Phase::Newer ==> message.message_id > s.old_high
            &&& s.phase == Phase::Backfill ==> scope::in_scope(
                message.message_id,
                message.date.civil_date(),
                s.options,
            )
        },
{
    if s.outbox.len() == 0 {
        match s.phase {
            Phase::Newer => {},
            Phase::Backfill => {},
            Phase::Replay => {},
            _ => {},
        }
    }
}

/// Messages are handed out one by one in the order in which they came. Only messages above the old
/// watermark count as new, and only messages in scope are read from the history.
pub proof fn messages_are_handed_out_in_order<H>(s: SessionState<H>, shutdown: bool)
    ensures
        s.next(shutdown).1 matches ActionView::Plan(message) ==> {
            let t = s.next(shutdown).0;
            &&& s.batch == seq![message] + t.batch
            &&& s.phase == Phase::Newer ==> message.message_id > s.old_high
            &&& s.phase == Phase::Backfill ==> scope::in_scope(
                message.message_id,
                message.date.civil_date(),
                s.options,
            )
        },
{
    plans_are_of_the_batch(s, shutdown);
    if s.batch.len() > 0 {
        assert(seq![s.batch[0]] + s.batch.drop_first() =~= s.batch);
    }
}

/// What becomes of a planned message: its records are written before anything of it is downloaded, its
/// downloads wait behind the others, and it is counted with its files.
pub proof fn planned_messages_are_taken_in<H>(
    s: SessionState<H>,
    found: Seq<MediaKind>,
    records: Seq<MediaItemView>,
    jobs: Seq<DownloadJob<H>>,
    kept: nat,
)
    requires
        s.step is Planning,
        s.counters.scanned_messages < usize::MAX,
        s.counters.media_found + found.len() <= usize::MAX,
        s.counters.skipped_existing + kept <= usize::MAX,
    ensures
        ({
            let t = s.with_plan(found, records, jobs, kept);
            &&& t.pending == s.pending + jobs
            &&& t.counters.scanned_messages == s.counters.scanned_messages + 1
            &&& t.counters.media_found == s.counters.media_found + found.len()
            &&& t.counters.skipped_existing == s.counters.skipped_existing + kept
            &&& t.counters.downloaded == s.counters.downloaded
            &&& t.counters.failed == s.counters.failed
            &&& records.len() > 0 ==> t.outbox.len() > s.outbox.len() && t.outbox[s.outbox.len() as int]
                == WriteView::Commit(records)
            &&& t.outbox.take(s.outbox.len() as int) == s.outbox
            &&& t.active == s.active
        }),
{
    finding_counts(s.counters, found);
    let t = s.with_plan(found, records, jobs, kept);
    assert(t.outbox.take(s.outbox.len() as int) =~= s.outbox);
}

/// A checkpoint waits for the downloads of its message: as long as one of them runs, neither it nor any
/// later one is written.
pub proof fn checkpoints_wait_for_downloads<H>(
    s: SessionState<H>,
    found: Seq<MediaKind>,
    records: Seq<MediaItemView>,
    jobs: Seq<DownloadJob<H>>,
    kept: nat,
)
    requires
        s.step is Planning,
        0 < jobs.len() <= usize::MAX,
        forall|i: int| 0 <= i < s.frontiers.len() ==> (#[trigger] s.frontiers[i]).remaining_downloads > 0,
    ensures
        ({
            let t = s.with_plan(found, records, jobs, kept);
            &&& t.durable == s.durable
            &&& t.frontiers.len() == s.frontiers.len() + 1
            &&& t.frontiers.last().remaining_downloads == jobs.len()
            &&& forall|i: int|
                s.outbox.len() <= i < t.outbox.len() ==> !(#[trigger] t.outbox[i] is SaveCheckpoint)
        }),
{
    let t = s.with_plan(found, records, jobs, kept);
    if let Step::Planning { message_id, checkpoint } = s.step {
        let frontier = MessageFrontier {
            message_id,
            checkpoint,
            remaining_downloads: jobs.len() as usize,
        };
        let joined = s.frontiers.push(frontier);
        assert(joined[0].remaining_downloads > 0) by {
            if s.frontiers.len() > 0 {
                assert(joined[0] == s.frontiers[0]);
            }
        }
        assert(workers::released(joined).len() == 0);
        assert(workers::unsettled(joined) == joined);
        assert(state::saves(workers::released(joined)).len() == 0);
    }
}

/// The files of a message that is gone count as failed, each once, and are written so.
pub proof fn files_of_gone_messages_fail<H>(s: SessionState<H>, records: Seq<StoredMediaRecord>)
    requires
        s.step == Step::Lookup,
        records.len() > 0,
        s.counters.failed + records.len() <= usize::MAX,
    ensures
        ({
            let t = s.with_missing_records(records);
            &&& t.counters.failed == s.counters.failed + records.len()
            &&& t.outbox.len() == s.outbox.len() + 1
            &&& t.outbox.last() matches WriteView::Commit(written) && written.len() == records.len()
                && forall|i: int|
                0 <= i < records.len() ==> {
                    let item = #[trigger] written[i];
                    &&& item.status == MediaStatus::Failed
                    &&& item.error_message is Some
                    &&& item.chat_id == records[i].chat_id
                    &&& item.message_id == records[i].message_id
                    &&& item.telegram_media_key == records[i].telegram_media_key@
                    &&& item.local_path == records[i].local_path@
                    &&& item.kind == records[i].kind
                    &&& item.file_size_bytes == records[i].file_size_bytes
                }
        }),
{
}

/// An export that has ended says that it was interrupted exactly if it was stopped, and names the
/// message up to which the chat was read.
pub proof fn ends_are_told<H>(s: SessionState<H>, shutdown: bool)
    requires
        s.phase == Phase::Done,
        s.outbox.len() == 0,
    ensures
        s.next(shutdown).1 matches ActionView::Finished(end, last) && (end
            == state::ExportEnd::Interrupted <==> s.stop) && (s.durable.high_watermark_message_id is Some
            ==> last == s.durable.high_watermark_message_id) && (s.durable.high_watermark_message_id
            is None ==> last == s.durable.backfill_cursor_message_id),
        s.next(shutdown).0 == s,
{
}

/// Everything that was decided to be written is written, in the order in which it was decided, before
/// anything else is done.
pub proof fn writes_come_first<H>(s: SessionState<H>, shutdown: bool)
    requires
        s.outbox.len() > 0,
    ensures
        s.next(shutdown).1 matches ActionView::Write(write) && s.outbox == seq![write]
            + s.next(shutdown).0.outbox,
{
    assert(seq![s.outbox[0]] + s.outbox.drop_first() =~= s.outbox);
}

} // verus!
