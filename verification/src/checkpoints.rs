//! The checkpoints of all chats, one for each chat that has one.

use std::collections::HashMap;

use vstd::prelude::*;

use crate::storage;
use crate::storage::CheckpointRow;
use crate::types::CheckpointState;

verus! {

broadcast use vstd::std_specs::hash::group_hash_axioms;

/// A change to the checkpoints that are kept.
pub enum CheckpointChange {
    Save(CheckpointState),
    /// The chat with this identifier is forgotten.
    Reset(i64),
}

impl CheckpointChange {
    /// The chat whose checkpoint changes.
    pub open spec fn chat_id(self) -> i64 {
        match self {
            CheckpointChange::Save(checkpoint) => checkpoint.chat_id,
            CheckpointChange::Reset(chat_id) => chat_id,
        }
    }
}

/// The checkpoints after some changes, made one after the other.
pub open spec fn changed(
    table: Map<i64, CheckpointState>,
    changes: Seq<CheckpointChange>,
) -> Map<i64, CheckpointState>
    decreases changes.len(),
{
    if changes.len() == 0 {
        table
    } else {
        let before = changed(table, changes.drop_last());
        match changes.last() {
            CheckpointChange::Save(checkpoint) => before.insert(checkpoint.chat_id, checkpoint),
            CheckpointChange::Reset(chat_id) => before.remove(chat_id),
        }
    }
}

/// The checkpoints that rows hold; of two rows for one chat the later counts.
pub open spec fn held(rows: Seq<CheckpointRow>) -> Map<i64, CheckpointState> {
    changed(
        Map::<i64, CheckpointState>::empty(),
        rows.map_values(|row: CheckpointRow| CheckpointChange::Save(storage::row_checkpoint(row))),
    )
}

/// The table of checkpoints.
pub struct CheckpointTable {
    kept: HashMap<i64, CheckpointState>,
}

impl View for CheckpointTable {
    type V = Map<i64, CheckpointState>;

    closed spec fn view(&self) -> Map<i64, CheckpointState> {
        self.kept@
    }
}

impl CheckpointTable {
    /// The table that rows make up.
    pub fn from_rows(rows: &[CheckpointRow]) -> (table: CheckpointTable)
        ensures
            table@ == held(rows@),
    {
        let mut table = CheckpointTable { kept: HashMap::new() };
        let ghost save = |row: CheckpointRow| CheckpointChange::Save(storage::row_checkpoint(row));
        let mut i: usize = 0;
        assert(rows@.take(0).map_values(save) =~= Seq::<CheckpointChange>::empty());
        assert(table@ =~= held(rows@.take(0)));
        while i < rows.len()
            invariant
                i <= rows@.len(),
                save == |row: CheckpointRow| CheckpointChange::Save(storage::row_checkpoint(row)),
                table@ == held(rows@.take(i as int)),
            decreases rows@.len() - i,
        {
            let checkpoint = storage::checkpoint_from_row(rows[i]);
            table.save(&checkpoint);
            proof {
                let all = rows@.take(i + 1).map_values(save);
                assert(all.drop_last() =~= rows@.take(i as int).map_values(save));
                assert(all.last() == CheckpointChange::Save(checkpoint));
            }
            i += 1;
        }
        assert(rows@.take(i as int) =~= rows@);
        table
    }

    /// Keeps a checkpoint in place of the one that its chat had, and gives the row to be written.
    pub fn save(&mut self, checkpoint: &CheckpointState) -> (row: CheckpointRow)
        ensures
            final(self)@ == old(self)@.insert(checkpoint.chat_id, *checkpoint),
            row == storage::checkpoint_row(*checkpoint),
    {
        self.kept.insert(checkpoint.chat_id, *checkpoint);
        storage::checkpoint_to_row(checkpoint)
    }

    /// The checkpoint of a chat.
    pub fn load(&self, chat_id: i64) -> (found: Option<CheckpointState>)
        ensures
            found == if self@.contains_key(chat_id) {
                Some(self@[chat_id])
            } else {
                None
            },
    {
        match self.kept.get(&chat_id) {
            Some(checkpoint) => Some(*checkpoint),
            None => None,
        }
    }

    /// Forgets the checkpoint of a chat.
    pub fn reset(&mut self, chat_id: i64)
        ensures
            final(self)@ == old(self)@.remove(chat_id),
    {
        self.kept.remove(&chat_id);
    }
}

/// A checkpoint that was saved is found again, whatever happened to the checkpoints of other chats
/// since, and it is the one that the row written for it holds.
pub proof fn checkpoints_are_kept_apart(
    table: Map<i64, CheckpointState>,
    checkpoint: CheckpointState,
    later: Seq<CheckpointChange>,
)
    requires
        forall|i: int| 0 <= i < later.len() ==> (#[trigger] later[i]).chat_id() != checkpoint.chat_id,
    ensures
        changed(table.insert(checkpoint.chat_id, checkpoint), later).contains_key(checkpoint.chat_id),
        changed(table.insert(checkpoint.chat_id, checkpoint), later)[checkpoint.chat_id]
            == checkpoint,
        storage::row_checkpoint(storage::checkpoint_row(checkpoint)) == checkpoint,
    decreases later.len(),
{
    if later.len() > 0 {
        let init = later.drop_last();
        assert forall|i: int| 0 <= i < init.len() implies (#[trigger] init[i]).chat_id()
            != checkpoint.chat_id by {
            assert(init[i] == later[i]);
        }
        checkpoints_are_kept_apart(table, checkpoint, init);
        assert(later.last() == later[later.len() - 1]);
    }
}

/// A chat that was reset has no checkpoint until one is saved for it, and the others keep theirs.
pub proof fn resets_touch_one_chat(table: Map<i64, CheckpointState>, chat_id: i64, other: i64)
    requires
        other != chat_id,
    ensures
        !changed(table, seq![CheckpointChange::Reset(chat_id)]).contains_key(chat_id),
        changed(table, seq![CheckpointChange::Reset(chat_id)]).contains_key(other)
            == table.contains_key(other),
        table.contains_key(other) ==> changed(table, seq![CheckpointChange::Reset(chat_id)])[other]
            == table[other],
{
    let changes = seq![CheckpointChange::Reset(chat_id)];
    assert(changes.drop_last() =~= Seq::<CheckpointChange>::empty());
    assert(changed(table, changes.drop_last()) == table);
}

} // verus!
