//! How many downloads run at once, and which messages are still waiting for theirs.

use std::collections::VecDeque;

use vstd::prelude::*;

use crate::types::CheckpointState;

verus! {

/// The number of downloads that may run at once: it starts at one, grows by one after eight calm
/// successes, and falls back to one when the service asks to slow down.
#[derive(Debug, Clone, Copy, PartialEq, Eq, Structural)]
pub struct AdaptiveConcurrency {
    pub max_limit: usize,
    pub current_limit: usize,
    pub calm_successes: usize,
    pub last_flood_wait_count: u64,
}

impl AdaptiveConcurrency {
    /// The limit is at least one and at most the larger of one and the maximum, and fewer than eight
    /// successes have been counted towards the next step.
    pub open spec fn valid(self) -> bool {
        &&& 1 <= self.current_limit
        &&& self.current_limit <= self.max_limit || self.current_limit == 1
        &&& self.calm_successes < 8
    }

    /// The state after a download.
    pub open spec fn observed(self, flood_wait_count: u64, success: bool) -> AdaptiveConcurrency {
        if flood_wait_count > self.last_flood_wait_count {
            AdaptiveConcurrency {
                last_flood_wait_count: flood_wait_count,
                current_limit: 1,
                calm_successes: 0,
                ..self
            }
        } else if !success || self.current_limit >= self.max_limit {
            self
        } else if self.calm_successes + 1 < 8 {
            AdaptiveConcurrency { calm_successes: (self.calm_successes + 1) as usize, ..self }
        } else {
            AdaptiveConcurrency {
                current_limit: (self.current_limit + 1) as usize,
                calm_successes: 0,
                ..self
            }
        }
    }

    /// The state with the limit set, within its bounds.
    pub open spec fn constrained(self, limit: usize) -> AdaptiveConcurrency {
        let most: usize = if self.max_limit > 1 {
            self.max_limit
        } else {
            1
        };
        AdaptiveConcurrency {
            current_limit: if limit < 1 {
                1
            } else if limit > most {
                most
            } else {
                limit
            },
            calm_successes: 0,
            ..self
        }
    }

    /// The state before the first download.
    pub open spec fn initial(max_limit: usize) -> AdaptiveConcurrency {
        AdaptiveConcurrency {
            max_limit,
            current_limit: 1,
            calm_successes: 0,
            last_flood_wait_count: 0,
        }
    }

    pub fn new(max_limit: usize) -> (workers: AdaptiveConcurrency)
        ensures
            workers == AdaptiveConcurrency::initial(max_limit),
            workers.valid(),
    {
        AdaptiveConcurrency {
            max_limit,
            current_limit: 1,
            calm_successes: 0,
            last_flood_wait_count: 0,
        }
    }

    pub fn current_limit(&self) -> (limit: usize)
        ensures
            limit == self.current_limit,
    {
        self.current_limit
    }

    pub fn max_limit(&self) -> (limit: usize)
        ensures
            limit == self.max_limit,
    {
        self.max_limit
    }

    /// Sets the limit, within its bounds.
    pub fn constrain_to(&mut self, limit: usize)
        ensures
            *final(self) == old(self).constrained(limit),
            final(self).valid(),
    {
        let most: usize = if self.max_limit > 1 {
            self.max_limit
        } else {
            1
        };
        self.current_limit = if limit < 1 {
            1
        } else if limit > most {
            most
        } else {
            limit
        };
        self.calm_successes = 0;
    }

    /// Takes note of a download.
    pub fn observe(&mut self, flood_wait_count: u64, success: bool)
        requires
            old(self).valid(),
        ensures
            *final(self) == old(self).observed(flood_wait_count, success),
            final(self).valid(),
    {
        if flood_wait_count > self.last_flood_wait_count {
            self.last_flood_wait_count = flood_wait_count;
            self.current_limit = 1;
            self.calm_successes = 0;
            return;
        }
        if !success || self.current_limit >= self.max_limit {
            return;
        }
        self.calm_successes = self.calm_successes + 1;
        if self.calm_successes >= 8 {
            self.current_limit = self.current_limit + 1;
            self.calm_successes = 0;
        }
    }
}

/// Whatever is observed, the limit stays between one and the larger of one and the maximum.
pub proof fn limit_stays_within_bounds(
    workers: AdaptiveConcurrency,
    flood_wait_count: u64,
    success: bool,
)
    requires
        workers.valid(),
    ensures
        workers.observed(flood_wait_count, success).valid(),
        workers.observed(flood_wait_count, success).max_limit == workers.max_limit,
{
}

/// A new flood wait brings the limit down to one download at a time.
pub proof fn flood_wait_leaves_one_worker(
    workers: AdaptiveConcurrency,
    flood_wait_count: u64,
    success: bool,
)
    requires
        flood_wait_count > workers.last_flood_wait_count,
    ensures
        workers.observed(flood_wait_count, success).current_limit == 1,
{
}

/// A message whose files are not all settled yet, with the checkpoint that holds once it and all
/// messages before it are.
#[derive(Debug, Clone, Copy, PartialEq, Eq, Structural)]
pub struct MessageFrontier {
    pub message_id: i32,
    pub checkpoint: Option<CheckpointState>,
    pub remaining_downloads: usize,
}

/// The frontiers that are left once the settled ones at the front are gone.
pub open spec fn unsettled(frontiers: Seq<MessageFrontier>) -> Seq<MessageFrontier>
    decreases frontiers.len(),
{
    if frontiers.len() == 0 || frontiers[0].remaining_downloads > 0 {
        frontiers
    } else {
        unsettled(frontiers.drop_first())
    }
}

/// The checkpoints that the settled frontiers at the front give free, in order.
pub open spec fn released(frontiers: Seq<MessageFrontier>) -> Seq<CheckpointState>
    decreases frontiers.len(),
{
    if frontiers.len() == 0 || frontiers[0].remaining_downloads > 0 {
        Seq::<CheckpointState>::empty()
    } else {
        let rest = released(frontiers.drop_first());
        match frontiers[0].checkpoint {
            Some(checkpoint) => seq![checkpoint] + rest,
            None => rest,
        }
    }
}

/// The checkpoints of a list of frontiers, in order.
pub open spec fn checkpoints_of(frontiers: Seq<MessageFrontier>) -> Seq<CheckpointState>
    decreases frontiers.len(),
{
    if frontiers.len() == 0 {
        Seq::<CheckpointState>::empty()
    } else {
        let rest = checkpoints_of(frontiers.drop_first());
        match frontiers[0].checkpoint {
            Some(checkpoint) => seq![checkpoint] + rest,
            None => rest,
        }
    }
}

/// Whether exactly the first `count` frontiers are settled, up to the first one that is not.
pub open spec fn settled_up_to(frontiers: Seq<MessageFrontier>, count: int) -> bool {
    &&& 0 <= count <= frontiers.len()
    &&& forall|i: int| 0 <= i < count ==> (#[trigger] frontiers[i]).remaining_downloads == 0
    &&& count < frontiers.len() ==> frontiers[count].remaining_downloads > 0
}

/// A checkpoint is released only when its message and every message queued before it are settled:
/// what is released are the checkpoints in front of the first unsettled message, and what is left
/// starts with that message.
pub proof fn checkpoints_wait_for_earlier_messages(frontiers: Seq<MessageFrontier>) -> (count: int)
    ensures
        settled_up_to(frontiers, count),
        unsettled(frontiers) == frontiers.skip(count),
        released(frontiers) == checkpoints_of(frontiers.take(count)),
    decreases frontiers.len(),
{
    if frontiers.len() == 0 || frontiers[0].remaining_downloads > 0 {
        assert(frontiers.skip(0) =~= frontiers);
        assert(frontiers.take(0) =~= Seq::<MessageFrontier>::empty());
        0
    } else {
        let rest = frontiers.drop_first();
        let count = checkpoints_wait_for_earlier_messages(rest);
        assert forall|i: int| 0 <= i < count + 1 implies (#[trigger] frontiers[i]).remaining_downloads
            == 0 by {
            if i > 0 {
                assert(rest[i - 1] == frontiers[i]);
            }
        }
        assert(rest.skip(count) =~= frontiers.skip(count + 1));
        assert(frontiers.take(count + 1).drop_first() =~= rest.take(count));
        count + 1
    }
}

/// Removes the settled frontiers at the front and gives their checkpoints, in order.
pub fn drain_completed_frontier(frontiers: &mut VecDeque<MessageFrontier>) -> (saved: Vec<
    CheckpointState,
>)
    ensures
        final(frontiers)@ == unsettled(old(frontiers)@),
        saved@ == released(old(frontiers)@),
{
    let mut saved: Vec<CheckpointState> = Vec::new();
    let ghost whole = frontiers@;
    while frontiers.len() > 0 && frontiers[0].remaining_downloads == 0
        invariant
            unsettled(frontiers@) == unsettled(whole),
            saved@ + released(frontiers@) == released(whole),
        decreases frontiers@.len(),
    {
        let ghost before = frontiers@;
        let ghost kept = saved@;
        let front = frontiers.pop_front();
        assert(frontiers@ =~= before.drop_first());
        if let Some(frontier) = front {
            if let Some(checkpoint) = frontier.checkpoint {
                saved.push(checkpoint);
                assert(saved@ + released(frontiers@) =~= kept + (seq![checkpoint] + released(
                    frontiers@,
                )));
            }
        }
    }
    assert(saved@ =~= released(whole));
    saved
}

/// The frontiers with one download less to wait for at the first one of a message.
pub open spec fn one_less(frontiers: Seq<MessageFrontier>, message_id: i32) -> Seq<MessageFrontier>
    decreases frontiers.len(),
{
    if frontiers.len() == 0 {
        frontiers
    } else if frontiers[0].message_id == message_id {
        let left = frontiers[0].remaining_downloads;
        frontiers.update(
            0,
            MessageFrontier {
                remaining_downloads: if left == 0 {
                    0
                } else {
                    (left - 1) as usize
                },
                ..frontiers[0]
            },
        )
    } else {
        seq![frontiers[0]] + one_less(frontiers.drop_first(), message_id)
    }
}

proof fn one_less_at(frontiers: Seq<MessageFrontier>, message_id: i32, at: int)
    requires
        0 <= at <= frontiers.len(),
        forall|j: int| 0 <= j < at ==> (#[trigger] frontiers[j]).message_id != message_id,
        at < frontiers.len() ==> frontiers[at].message_id == message_id,
    ensures
        at == frontiers.len() ==> one_less(frontiers, message_id) == frontiers,
        at < frontiers.len() ==> one_less(frontiers, message_id) == frontiers.update(
            at,
            MessageFrontier {
                remaining_downloads: if frontiers[at].remaining_downloads == 0 {
                    0
                } else {
                    (frontiers[at].remaining_downloads - 1) as usize
                },
                ..frontiers[at]
            },
        ),
    decreases frontiers.len(),
{
    if frontiers.len() > 0 && at > 0 {
        let rest = frontiers.drop_first();
        assert forall|j: int| 0 <= j < at - 1 implies (#[trigger] rest[j]).message_id != message_id by {
            assert(rest[j] == frontiers[j + 1]);
        }
        one_less_at(rest, message_id, at - 1);
        assert(frontiers[0].message_id != message_id);
        if at == frontiers.len() {
            assert(seq![frontiers[0]] + rest =~= frontiers);
        } else {
            assert(rest[at - 1] == frontiers[at]);
            assert(one_less(frontiers, message_id) =~= frontiers.update(
                at,
                MessageFrontier {
                    remaining_downloads: if frontiers[at].remaining_downloads == 0 {
                        0
                    } else {
                        (frontiers[at].remaining_downloads - 1) as usize
                    },
                    ..frontiers[at]
                },
            ));
        }
    }
}

/// Takes note that a download of a message is settled.
pub fn settle_one(frontiers: &mut VecDeque<MessageFrontier>, message_id: i32)
    ensures
        final(frontiers)@ == one_less(old(frontiers)@, message_id),
{
    let ghost whole = frontiers@;
    let mut at: usize = 0;
    while at < frontiers.len() && frontiers[at].message_id != message_id
        invariant
            at <= frontiers@.len(),
            frontiers@ == whole,
            forall|j: int| 0 <= j < at ==> (#[trigger] whole[j]).message_id != message_id,
        decreases frontiers@.len() - at,
    {
        at += 1;
    }
    proof {
        one_less_at(whole, message_id, at as int);
    }
    if at < frontiers.len() {
        let frontier = frontiers[at];
        let left: usize = if frontier.remaining_downloads == 0 {
            0
        } else {
            frontier.remaining_downloads - 1
        };
        let _ = frontiers.remove(at);
        frontiers.insert(
            at,
            MessageFrontier {
                message_id: frontier.message_id,
                checkpoint: frontier.checkpoint,
                remaining_downloads: left,
            },
        );
        assert(frontiers@ =~= one_less(whole, message_id));
    }
}

/// A run starts with one worker. Another one comes only behind eight downloads in a row that succeeded
/// without a flood wait, one at a time, and failures neither add nor take away.
pub proof fn workers_are_added_one_by_one(
    workers: AdaptiveConcurrency,
    flood_wait_count: u64,
    success: bool,
    max_limit: usize,
)
    requires
        workers.valid(),
    ensures
        AdaptiveConcurrency::initial(max_limit).current_limit == 1,
        AdaptiveConcurrency::initial(max_limit).max_limit == max_limit,
        ({
            let after = workers.observed(flood_wait_count, success);
            &&& after.current_limit > workers.current_limit ==> {
                &&& after.current_limit == workers.current_limit + 1
                &&& after.current_limit <= workers.max_limit
                &&& workers.calm_successes == 7
                &&& success
                &&& flood_wait_count <= workers.last_flood_wait_count
            }
            &&& success && flood_wait_count <= workers.last_flood_wait_count && workers.calm_successes
                == 7 && workers.current_limit < workers.max_limit ==> after.current_limit
                == workers.current_limit + 1 && after.calm_successes == 0
            &&& success && flood_wait_count <= workers.last_flood_wait_count && workers.calm_successes
                < 7 && workers.current_limit < workers.max_limit ==> after.calm_successes
                == workers.calm_successes + 1
            &&& !success && flood_wait_count <= workers.last_flood_wait_count ==> after == workers
            &&& after.current_limit < workers.current_limit ==> flood_wait_count
                > workers.last_flood_wait_count
        }),
{
}

/// A bound on the workers holds at once, as far as it lies between one and the most that were allowed.
pub proof fn bounds_on_workers_hold(workers: AdaptiveConcurrency, limit: usize)
    requires
        workers.valid(),
    ensures
        workers.constrained(limit).valid(),
        1 <= limit <= workers.max_limit ==> workers.constrained(limit).current_limit == limit,
        limit > 0 ==> workers.constrained(limit).current_limit <= limit,
        workers.constrained(limit).max_limit == workers.max_limit,
{
}

/// The number of downloads that frontiers wait for.
pub open spec fn awaited_downloads(frontiers: Seq<MessageFrontier>) -> int
    decreases frontiers.len(),
{
    if frontiers.len() == 0 {
        0
    } else {
        frontiers[0].remaining_downloads + awaited_downloads(frontiers.drop_first())
    }
}

/// A download that has ended is taken off the first frontier of its message, and off no other.
pub proof fn ended_downloads_are_taken_off(frontiers: Seq<MessageFrontier>, message_id: i32, at: int)
    requires
        0 <= at < frontiers.len(),
        frontiers[at].message_id == message_id,
        forall|i: int| 0 <= i < at ==> (#[trigger] frontiers[i]).message_id != message_id,
        frontiers[at].remaining_downloads > 0,
    ensures
        ({
            let after = one_less(frontiers, message_id);
            &&& after.len() == frontiers.len()
            &&& after[at].remaining_downloads == frontiers[at].remaining_downloads - 1
            &&& after[at].checkpoint == frontiers[at].checkpoint
            &&& after[at].message_id == message_id
            &&& forall|i: int| 0 <= i < frontiers.len() && i != at ==> #[trigger] after[i] == frontiers[i]
            &&& awaited_downloads(after) == awaited_downloads(frontiers) - 1
        }),
    decreases frontiers.len(),
{
    let after = one_less(frontiers, message_id);
    let rest = frontiers.drop_first();
    if at > 0 {
        assert(frontiers[0].message_id != message_id);
        assert forall|i: int| 0 <= i < at - 1 implies (#[trigger] rest[i]).message_id != message_id by {
            assert(rest[i] == frontiers[i + 1]);
        }
        ended_downloads_are_taken_off(rest, message_id, at - 1);
        assert(after.drop_first() =~= one_less(rest, message_id));
        assert forall|i: int| 0 <= i < frontiers.len() && i != at implies #[trigger] after[i]
            == frontiers[i] by {
            if i > 0 {
                assert(after[i] == one_less(rest, message_id)[i - 1]);
                assert(rest[i - 1] == frontiers[i]);
            }
        }
        assert(after[at] == one_less(rest, message_id)[at - 1]);
    } else {
        assert(after.drop_first() =~= rest);
    }
}

} // verus!
