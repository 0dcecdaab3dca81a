//! Exports of several chats, one at a time.

use vstd::prelude::*;

use crate::error::AppError;
use crate::error::Result;
use crate::number;
use crate::text;

verus! {

/// How the export of a chat ended.
#[derive(Debug)]
pub enum ChatOutcome {
    Succeeded,
    Failed(AppError),
    Interrupted,
}

/// Exports of several chats, one at a time. A failure does not keep the others from running; an
/// interruption does.
#[derive(Debug)]
pub struct ExportBatch {
    chats: Vec<String>,
    outcomes: Vec<ChatOutcome>,
}

impl ExportBatch {
    #[verifier::type_invariant]
    closed spec fn wf(self) -> bool {
        self.outcomes@.len() <= self.chats@.len()
    }

    /// The chats, in the order in which they are exported.
    pub closed spec fn chats(self) -> Seq<Seq<char>> {
        text::texts(self.chats@)
    }

    /// How the chats that were exported so far ended.
    pub closed spec fn outcomes(self) -> Seq<ChatOutcome> {
        self.outcomes@
    }

    /// Whether an export was interrupted.
    pub open spec fn interrupted(self) -> bool {
        exists|i: int| 0 <= i < self.outcomes().len() && #[trigger] self.outcomes()[i] is Interrupted
    }

    /// How many exports failed.
    pub open spec fn failures(self) -> nat {
        failed(self.outcomes())
    }

    /// A batch of chats; there has to be one at least.
    pub fn new(chats: Vec<String>) -> (out: Result<ExportBatch>)
        ensures
            match out {
                Ok(batch) => chats@.len() > 0 && batch.chats() == text::texts(chats@)
                    && batch.outcomes().len() == 0,
                Err(error) => chats@.len() == 0 && error is InvalidArgument && error.detail()
                    == "--chat must be given at least once"@,
            },
    {
        if chats.len() == 0 {
            return Err(AppError::InvalidArgument("--chat must be given at least once".to_string()));
        }
        Ok(ExportBatch { chats, outcomes: Vec::new() })
    }

    /// The chat that is exported next: the first without an outcome, unless there was an
    /// interruption.
    pub fn next(&self) -> (chat: Option<String>)
        ensures
            match chat {
                Some(name) => !self.interrupted() && self.outcomes().len() < self.chats().len() && name@
                    == self.chats()[self.outcomes().len() as int],
                None => self.interrupted() || self.outcomes().len() == self.chats().len(),
            },
    {
        proof {
            use_type_invariant(&*self);
        }
        if self.was_interrupted() {
            return None;
        }
        let at: usize = self.outcomes.len();
        if at >= self.chats.len() {
            return None;
        }
        assert(self.chats()[at as int] == self.chats@[at as int]@);
        Some(self.chats[at].clone())
    }

    /// Takes in how the export of the next chat ended.
    pub fn on_outcome(self, outcome: ChatOutcome) -> (batch: ExportBatch)
        ensures
            batch.chats() == self.chats(),
            batch.outcomes() == if self.outcomes().len() < self.chats().len() {
                self.outcomes().push(outcome)
            } else {
                self.outcomes()
            },
    {
        proof {
            use_type_invariant(&self);
        }
        let mut outcomes = self.outcomes;
        let chats = self.chats;
        if outcomes.len() < chats.len() {
            outcomes.push(outcome);
        }
        ExportBatch { chats, outcomes }
    }

    fn was_interrupted(&self) -> (yes: bool)
        ensures
            yes == self.interrupted(),
    {
        let mut i: usize = 0;
        while i < self.outcomes.len()
            invariant
                i <= self.outcomes@.len(),
                forall|j: int| 0 <= j < i ==> !(#[trigger] self.outcomes@[j] is Interrupted),
            decreases self.outcomes@.len() - i,
        {
            if let ChatOutcome::Interrupted = self.outcomes[i] {
                assert(self.outcomes()[i as int] is Interrupted);
                return true;
            }
            i += 1;
        }
        false
    }

    fn count_failures(&self) -> (count: usize)
        ensures
            count == self.failures(),
            count <= self.outcomes().len(),
    {
        let mut count: usize = 0;
        let mut i: usize = 0;
        assert(self.outcomes@.take(0) =~= Seq::<ChatOutcome>::empty());
        while i < self.outcomes.len()
            invariant
                i <= self.outcomes@.len(),
                count <= i,
                count == failed(self.outcomes@.take(i as int)),
            decreases self.outcomes@.len() - i,
        {
            assert(self.outcomes@.take(i + 1).drop_last() =~= self.outcomes@.take(i as int));
            if let ChatOutcome::Failed(_) = self.outcomes[i] {
                count += 1;
            }
            i += 1;
        }
        assert(self.outcomes@.take(i as int) =~= self.outcomes@);
        count
    }

    /// What is said of each chat at the end; nothing where only one was asked for.
    pub fn summary(&self) -> (lines: Vec<String>)
        ensures
            text::texts(lines@) == if self.chats().len() < 2 {
                Seq::empty()
            } else {
                seq!["Batch summary"@] + summary_lines(self.chats(), self.outcomes())
            },
    {
        proof {
            use_type_invariant(&*self);
        }
        let mut lines: Vec<String> = Vec::new();
        if self.chats.len() < 2 {
            assert(text::texts(lines@) =~= Seq::<Seq<char>>::empty());
            return lines;
        }
        lines.push("Batch summary".to_string());
        let mut i: usize = 0;
        assert(self.outcomes@.take(0) =~= Seq::<ChatOutcome>::empty());
        assert(text::texts(lines@) =~= seq!["Batch summary"@] + summary_lines(
            self.chats(),
            self.outcomes@.take(0),
        ));
        while i < self.outcomes.len()
            invariant
                i <= self.outcomes@.len() <= self.chats@.len(),
                text::texts(lines@) == seq!["Batch summary"@] + summary_lines(
                    self.chats(),
                    self.outcomes@.take(i as int),
                ),
            decreases self.outcomes@.len() - i,
        {
            let ghost before = text::texts(lines@);
            let ghost listed = summary_lines(self.chats(), self.outcomes@.take(i as int));
            let mut line = text::concat("- ", self.chats[i].as_str());
            match &self.outcomes[i] {
                ChatOutcome::Succeeded => line.append(": ok"),
                ChatOutcome::Interrupted => line.append(": interrupted"),
                ChatOutcome::Failed(error) => {
                    let message = error.message();
                    line.append(": failed: ");
                    line.append(message.as_str());
                },
            }
            let ghost content = line@;
            lines.push(line);
            proof {
                assert(text::texts(lines@) =~= before.push(content));
                assert(self.outcomes@.take(i + 1).drop_last() =~= self.outcomes@.take(i as int));
                assert(self.chats()[i as int] == self.chats@[i as int]@);
                assert(content =~= outcome_line(self.chats()[i as int], self.outcomes@[i as int]));
                assert(before.push(content) =~= seq!["Batch summary"@] + listed.push(content));
            }
            i += 1;
        }
        assert(self.outcomes@.take(i as int) =~= self.outcomes@);
        lines
    }

    /// How the batch ended: an interruption counts first, then failures. Where only one chat was
    /// asked for, its own error is the outcome.
    pub fn finish(self) -> (out: Result<()>)
        ensures
            if self.interrupted() {
                out matches Err(AppError::Interrupted(detail)) && detail@
                    == "export interrupted by signal; checkpoint saved"@
            } else if self.failures() == 0 {
                out is Ok
            } else if self.chats().len() == 1 {
                out matches Err(error) && self.outcomes()[0] == ChatOutcome::Failed(error)
            } else {
                out matches Err(AppError::Runtime(detail)) && detail@ == number::nat_text(
                    self.failures(),
                ) + " of "@ + number::nat_text(self.chats().len()) + " chats failed"@
            },
    {
        proof {
            use_type_invariant(&self);
        }
        if self.was_interrupted() {
            return Err(
                AppError::Interrupted("export interrupted by signal; checkpoint saved".to_string()),
            );
        }
        let count: usize = self.count_failures();
        if count == 0 {
            return Ok(());
        }
        let total: usize = self.chats.len();
        let mut outcomes = self.outcomes;
        if total == 1 {
            proof {
                assert(outcomes@.len() == 1);
                assert(outcomes@.drop_last() =~= Seq::<ChatOutcome>::empty());
                assert(failed(Seq::<ChatOutcome>::empty()) == 0);
            }
            let only = outcomes.remove(0);
            if let ChatOutcome::Failed(error) = only {
                return Err(error);
            }
        }
        let digits = number::decimal(count as u128);
        let all = number::decimal(total as u128);
        let mut detail = text::concat(digits.as_str(), " of ");
        detail.append(all.as_str());
        detail.append(" chats failed");
        Err(AppError::Runtime(detail))
    }
}

/// How many exports failed.
pub open spec fn failed(outcomes: Seq<ChatOutcome>) -> nat
    decreases outcomes.len(),
{
    if outcomes.len() == 0 {
        0
    } else {
        failed(outcomes.drop_last()) + if outcomes.last() is Failed {
            1nat
        } else {
            0
        }
    }
}

/// What is said of a chat at the end.
pub open spec fn outcome_line(chat: Seq<char>, outcome: ChatOutcome) -> Seq<char> {
    "- "@ + chat + match outcome {
        ChatOutcome::Succeeded => ": ok"@,
        ChatOutcome::Interrupted => ": interrupted"@,
        ChatOutcome::Failed(error) => ": failed: "@ + error.text(),
    }
}

/// What is said of each chat that has an outcome.
pub open spec fn summary_lines(chats: Seq<Seq<char>>, outcomes: Seq<ChatOutcome>) -> Seq<Seq<char>>
    decreases outcomes.len(),
{
    if outcomes.len() == 0 {
        Seq::empty()
    } else {
        summary_lines(chats, outcomes.drop_last()).push(
            outcome_line(chats[outcomes.len() - 1], outcomes.last()),
        )
    }
}

/// A batch counts failures if and only if the export of one of its chats failed.
pub proof fn one_failure_counts(outcomes: Seq<ChatOutcome>)
    ensures
        failed(outcomes) > 0 <==> exists|i: int|
            0 <= i < outcomes.len() && #[trigger] outcomes[i] is Failed,
    decreases outcomes.len(),
{
    if outcomes.len() > 0 {
        let init = outcomes.drop_last();
        one_failure_counts(init);
        if outcomes.last() is Failed {
            assert(outcomes[outcomes.len() - 1] is Failed);
        }
        if exists|i: int| 0 <= i < init.len() && #[trigger] init[i] is Failed {
            let i = choose|i: int| 0 <= i < init.len() && #[trigger] init[i] is Failed;
            assert(outcomes[i] is Failed);
        }
        if exists|i: int| 0 <= i < outcomes.len() && #[trigger] outcomes[i] is Failed {
            let i = choose|i: int| 0 <= i < outcomes.len() && #[trigger] outcomes[i] is Failed;
            if i < init.len() {
                assert(init[i] is Failed);
            }
        }
    }
}

} // verus!
