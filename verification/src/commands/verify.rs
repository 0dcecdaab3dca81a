//! Checking tracked files against what is recorded of them.

use vstd::prelude::*;

use crate::error::AppError;
use crate::error::Result;
use crate::number;
use crate::report;
use crate::storage::{StoredChatRecord, StoredMediaRecord};
use crate::text;
use crate::types::MediaStatus;

verus! {

/// What a check is asked to do.
#[derive(Debug)]
pub struct VerifyCommand {
    pub chat: String,
    pub out_dir: Option<String>,
    pub deep: bool,
    pub json: bool,
}

/// What can be wrong with a tracked file.
#[derive(Debug, Clone, Copy, PartialEq, Eq, Structural)]
pub enum ProblemKind {
    FailedStatus,
    PendingStatus,
    Missing,
    Unreadable,
    SizeMismatch,
    HashMismatch,
}

impl ProblemKind {
    pub open spec fn name(self) -> Seq<char> {
        match self {
            ProblemKind::FailedStatus => "failed_status"@,
            ProblemKind::PendingStatus => "pending_status"@,
            ProblemKind::Missing => "missing"@,
            ProblemKind::Unreadable => "unreadable"@,
            ProblemKind::SizeMismatch => "size_mismatch"@,
            ProblemKind::HashMismatch => "hash_mismatch"@,
        }
    }

    pub fn as_str(self) -> (out: &'static str)
        ensures
            out@ == self.name(),
    {
        match self {
            ProblemKind::FailedStatus => "failed_status",
            ProblemKind::PendingStatus => "pending_status",
            ProblemKind::Missing => "missing",
            ProblemKind::Unreadable => "unreadable",
            ProblemKind::SizeMismatch => "size_mismatch",
            ProblemKind::HashMismatch => "hash_mismatch",
        }
    }
}

/// Something that is wrong with a tracked file.
#[derive(Debug)]
pub struct VerifyProblem {
    pub problem: ProblemKind,
    pub message_id: i32,
    pub media_kind: &'static str,
    pub local_path: String,
    pub expected_size_bytes: Option<i64>,
    pub actual_size_bytes: Option<u64>,
    pub expected_sha256: Option<String>,
    pub actual_sha256: Option<String>,
    pub status: Option<String>,
    pub error: Option<String>,
}

/// What is said of something that is wrong with a tracked file.
pub struct ProblemView {
    pub problem: ProblemKind,
    pub message_id: i32,
    pub media_kind: Seq<char>,
    pub local_path: Seq<char>,
    pub expected_size_bytes: Option<i64>,
    pub actual_size_bytes: Option<u64>,
    pub expected_sha256: Option<Seq<char>>,
    pub actual_sha256: Option<Seq<char>>,
    pub status: Option<Seq<char>>,
    pub error: Option<Seq<char>>,
}

impl View for VerifyProblem {
    type V = ProblemView;

    open spec fn view(&self) -> ProblemView {
        ProblemView {
            problem: self.problem,
            message_id: self.message_id,
            media_kind: self.media_kind@,
            local_path: self.local_path@,
            expected_size_bytes: self.expected_size_bytes,
            actual_size_bytes: self.actual_size_bytes,
            expected_sha256: text::opt_text(self.expected_sha256),
            actual_sha256: text::opt_text(self.actual_sha256),
            status: text::opt_text(self.status),
            error: text::opt_text(self.error),
        }
    }
}

/// What is said of a record with which something is wrong.
pub open spec fn problem_of(
    record: StoredMediaRecord,
    problem: ProblemKind,
    actual_size: Option<u64>,
    hashes: Option<(Seq<char>, Seq<char>)>,
    error: Option<Seq<char>>,
) -> ProblemView {
    ProblemView {
        problem,
        message_id: record.message_id,
        media_kind: record.kind.name(),
        local_path: record.local_path@,
        expected_size_bytes: record.file_size_bytes,
        actual_size_bytes: actual_size,
        expected_sha256: match hashes {
            Some((expected, _)) => Some(expected),
            None => None,
        },
        actual_sha256: match hashes {
            Some((_, actual)) => Some(actual),
            None => None,
        },
        status: Some(record.status.name()),
        error,
    }
}

fn describe(
    record: StoredMediaRecord,
    problem: ProblemKind,
    actual_size: Option<u64>,
    error: Option<String>,
) -> (out: VerifyProblem)
    ensures
        out@ == problem_of(record, problem, actual_size, None, text::opt_text(error)),
{
    VerifyProblem {
        problem,
        message_id: record.message_id,
        media_kind: record.kind.as_str(),
        expected_size_bytes: record.file_size_bytes,
        actual_size_bytes: actual_size,
        expected_sha256: None,
        actual_sha256: None,
        status: Some(record.status.as_str().to_string()),
        local_path: record.local_path,
        error,
    }
}

/// What a check of one record found.
#[derive(Debug)]
pub enum Finding {
    /// The file lies outside the folder that was asked for.
    Outside,
    Sound,
    Problem(VerifyProblem),
}

/// What is found at a path.
#[derive(Debug)]
pub enum FileFacts {
    /// Nothing, with what the system said.
    Missing(String),
    /// Something that cannot be looked at.
    Unreadable,
    /// Something of this size that is not a file.
    NotFile(u64),
    /// A file of this size.
    File(u64),
}

/// A record whose file has to be looked at.
#[derive(Debug)]
pub struct PendingCheck {
    pub record: StoredMediaRecord,
    pub deep: bool,
}

/// A record whose file has to be hashed. The file has `size` bytes.
#[derive(Debug)]
pub struct PendingHash {
    pub record: StoredMediaRecord,
    pub size: u64,
}

/// How a check goes on.
#[derive(Debug)]
pub enum CheckStep {
    Inspect(PendingCheck),
    Hash(PendingHash),
    Done(Finding),
}

/// What a check of one record found, in the model.
pub enum FindingView {
    Outside,
    Sound,
    Problem(ProblemView),
}

impl View for Finding {
    type V = FindingView;

    open spec fn view(&self) -> FindingView {
        match self {
            Finding::Outside => FindingView::Outside,
            Finding::Sound => FindingView::Sound,
            Finding::Problem(found) => FindingView::Problem(found@),
        }
    }
}

/// How a check goes on, in the model.
pub enum StepView {
    Inspect(StoredMediaRecord, bool),
    Hash(StoredMediaRecord, u64),
    Done(FindingView),
}

impl View for CheckStep {
    type V = StepView;

    open spec fn view(&self) -> StepView {
        match self {
            CheckStep::Inspect(check) => StepView::Inspect(check.record, check.deep),
            CheckStep::Hash(check) => StepView::Hash(check.record, check.size),
            CheckStep::Done(finding) => StepView::Done(finding@),
        }
    }
}

/// How the check of a record begins.
pub open spec fn begun(record: StoredMediaRecord, inside: bool, deep: bool) -> StepView {
    let failure = text::opt_text(record.error_message);
    if !inside {
        StepView::Done(FindingView::Outside)
    } else if record.status == MediaStatus::Failed {
        StepView::Done(
            FindingView::Problem(
                problem_of(record, ProblemKind::FailedStatus, None, None, failure),
            ),
        )
    } else if record.status == MediaStatus::Pending || record.status == MediaStatus::Downloading {
        StepView::Done(
            FindingView::Problem(
                problem_of(record, ProblemKind::PendingStatus, None, None, failure),
            ),
        )
    } else {
        StepView::Inspect(record, deep)
    }
}

/// How a check ends where sizes decide.
pub open spec fn sized(record: StoredMediaRecord, size: u64) -> FindingView {
    if size_differs(record.file_size_bytes, size) {
        FindingView::Problem(
            problem_of(record, ProblemKind::SizeMismatch, Some(size), None, None),
        )
    } else {
        FindingView::Sound
    }
}

/// How a check goes on when it is known what is at the path.
pub open spec fn inspected(record: StoredMediaRecord, deep: bool, facts: FileFacts) -> StepView {
    match facts {
        FileFacts::Missing(error) => StepView::Done(
            FindingView::Problem(
                problem_of(record, ProblemKind::Missing, None, None, Some(error@)),
            ),
        ),
        FileFacts::Unreadable => StepView::Done(
            FindingView::Problem(problem_of(record, ProblemKind::Unreadable, None, None, None)),
        ),
        FileFacts::NotFile(size) => StepView::Done(
            FindingView::Problem(
                problem_of(
                    record,
                    ProblemKind::Unreadable,
                    Some(size),
                    None,
                    Some("path is not a file"@),
                ),
            ),
        ),
        FileFacts::File(size) => if deep && record.sha256 is Some {
            StepView::Hash(record, size)
        } else {
            StepView::Done(sized(record, size))
        },
    }
}

/// How a check ends when the file was hashed.
pub open spec fn hashed(record: StoredMediaRecord, size: u64, hash: Seq<char>) -> FindingView {
    match record.sha256 {
        Some(expected) => if hash == expected@ {
            FindingView::Sound
        } else {
            FindingView::Problem(
                problem_of(
                    record,
                    ProblemKind::HashMismatch,
                    Some(size),
                    Some((expected@, hash)),
                    None,
                ),
            )
        },
        None => sized(record, size),
    }
}

impl CheckStep {
    /// Whether the check ended with a problem.
    pub open spec fn reports(self, problem: ProblemView) -> bool {
        self matches CheckStep::Done(Finding::Problem(found)) && found@ == problem
    }
}

/// Begins the check of a record. `inside` says whether its file lies in the folder that was asked
/// for. Only files that count as downloaded are looked at.
pub fn check_record(record: StoredMediaRecord, inside: bool, deep: bool) -> (step: CheckStep)
    ensures
        step@ == begun(record, inside, deep),
        if !inside {
            step == CheckStep::Done(Finding::Outside)
        } else {
            match record.status {
                MediaStatus::Downloaded | MediaStatus::SkippedExisting => step == CheckStep::Inspect(
                    PendingCheck { record, deep },
                ),
                MediaStatus::Failed => step.reports(
                    problem_of(
                        record,
                        ProblemKind::FailedStatus,
                        None,
                        None,
                        text::opt_text(record.error_message),
                    ),
                ),
                MediaStatus::Pending | MediaStatus::Downloading => step.reports(
                    problem_of(
                        record,
                        ProblemKind::PendingStatus,
                        None,
                        None,
                        text::opt_text(record.error_message),
                    ),
                ),
            }
        },
{
    if !inside {
        return CheckStep::Done(Finding::Outside);
    }
    let problem = match record.status {
        MediaStatus::Downloaded | MediaStatus::SkippedExisting => {
            return CheckStep::Inspect(PendingCheck { record, deep });
        },
        MediaStatus::Failed => ProblemKind::FailedStatus,
        MediaStatus::Pending | MediaStatus::Downloading => ProblemKind::PendingStatus,
    };
    let error = text::copy_opt(&record.error_message);
    CheckStep::Done(Finding::Problem(describe(record, problem, None, error)))
}

/// Whether a file of `size` bytes has another size than recorded. A recorded size below zero is no
/// size.
pub open spec fn size_differs(recorded: Option<i64>, size: u64) -> bool {
    recorded is Some && recorded->0 >= 0 && size != recorded->0
}

fn has_other_size(recorded: Option<i64>, size: u64) -> (yes: bool)
    ensures
        yes == size_differs(recorded, size),
{
    match recorded {
        Some(expected) => expected >= 0 && size != expected as u64,
        None => false,
    }
}

fn compare_size(record: StoredMediaRecord, size: u64) -> (finding: Finding)
    ensures
        if size_differs(record.file_size_bytes, size) {
            finding matches Finding::Problem(found) && found@ == problem_of(
                record,
                ProblemKind::SizeMismatch,
                Some(size),
                None,
                None,
            )
        } else {
            finding is Sound
        },
{
    if has_other_size(record.file_size_bytes, size) {
        Finding::Problem(describe(record, ProblemKind::SizeMismatch, Some(size), None))
    } else {
        Finding::Sound
    }
}

impl PendingCheck {
    /// Goes on with what was found at the path of the record. In a deep check a file whose hash is
    /// recorded is hashed; else the sizes decide.
    pub fn on_facts(self, facts: FileFacts) -> (step: CheckStep)
        ensures
            step@ == inspected(self.record, self.deep, facts),
            match facts {
                FileFacts::Missing(error) => step.reports(
                    problem_of(self.record, ProblemKind::Missing, None, None, Some(error@)),
                ),
                FileFacts::Unreadable => step.reports(
                    problem_of(self.record, ProblemKind::Unreadable, None, None, None),
                ),
                FileFacts::NotFile(size) => step.reports(
                    problem_of(
                        self.record,
                        ProblemKind::Unreadable,
                        Some(size),
                        None,
                        Some("path is not a file"@),
                    ),
                ),
                FileFacts::File(size) => if self.deep && self.record.sha256 is Some {
                    step == CheckStep::Hash(PendingHash { record: self.record, size })
                } else if size_differs(self.record.file_size_bytes, size) {
                    step.reports(
                        problem_of(self.record, ProblemKind::SizeMismatch, Some(size), None, None),
                    )
                } else {
                    step == CheckStep::Done(Finding::Sound)
                },
            },
    {
        match facts {
            FileFacts::Missing(error) => CheckStep::Done(
                Finding::Problem(describe(self.record, ProblemKind::Missing, None, Some(error))),
            ),
            FileFacts::Unreadable => CheckStep::Done(
                Finding::Problem(describe(self.record, ProblemKind::Unreadable, None, None)),
            ),
            FileFacts::NotFile(size) => {
                let error = "path is not a file".to_string();
                CheckStep::Done(
                    Finding::Problem(
                        describe(self.record, ProblemKind::Unreadable, Some(size), Some(error)),
                    ),
                )
            },
            FileFacts::File(size) => if self.deep && self.record.sha256.is_some() {
                CheckStep::Hash(PendingHash { record: self.record, size })
            } else {
                CheckStep::Done(compare_size(self.record, size))
            },
        }
    }
}

impl PendingHash {
    /// Ends a check with the hash of the file. Where it is the recorded one the file is sound, even
    /// if its size is not the recorded one.
    pub fn on_hash(self, hash: String) -> (finding: Finding)
        ensures
            finding@ == hashed(self.record, self.size, hash@),
            match self.record.sha256 {
                Some(expected) => if hash@ == expected@ {
                    finding is Sound
                } else {
                    finding matches Finding::Problem(found) && found@ == problem_of(
                        self.record,
                        ProblemKind::HashMismatch,
                        Some(self.size),
                        Some((expected@, hash@)),
                        None,
                    )
                },
                None => if size_differs(self.record.file_size_bytes, self.size) {
                    finding matches Finding::Problem(found) && found@ == problem_of(
                        self.record,
                        ProblemKind::SizeMismatch,
                        Some(self.size),
                        None,
                        None,
                    )
                } else {
                    finding is Sound
                },
            },
    {
        let expected = match text::copy_opt(&self.record.sha256) {
            Some(expected) => expected,
            None => {
                return compare_size(self.record, self.size);
            },
        };
        if text::same_text(hash.as_str(), expected.as_str()) {
            return Finding::Sound;
        }
        let problem = describe(self.record, ProblemKind::HashMismatch, Some(self.size), None);
        Finding::Problem(
            VerifyProblem { expected_sha256: Some(expected), actual_sha256: Some(hash), ..problem },
        )
    }
}

/// The result of a check.
#[derive(Debug)]
pub struct VerifyReport {
    pub chat_id: i64,
    pub chat_title: Option<String>,
    pub total_tracked: usize,
    pub outside_output_root: usize,
    pub ok: usize,
    pub missing: usize,
    pub size_mismatch: usize,
    pub hash_mismatch: usize,
    pub failed_status: usize,
    pub pending_status: usize,
    pub unreadable: usize,
    pub checked_bytes: u64,
    pub duration_ms: u128,
    pub deep: bool,
    pub problems: Vec<VerifyProblem>,
}

/// One more of `kind` where the problem is of that kind.
pub open spec fn counted(count: usize, finding: Finding, kind: ProblemKind) -> int {
    report::capped(
        count + if finding matches Finding::Problem(found) && found.problem == kind {
            1int
        } else {
            0
        },
    )
}

fn count_up(count: usize, here: bool) -> (out: usize)
    ensures
        out == report::capped(
            count + if here {
                1int
            } else {
                0
            },
        ),
{
    if here {
        count.saturating_add(1)
    } else {
        count
    }
}

impl VerifyReport {
    /// How many files have something wrong with them.
    pub open spec fn problem_total(self) -> int {
        self.missing + self.size_mismatch + self.hash_mismatch + self.failed_status
            + self.pending_status + self.unreadable
    }

    /// How many records were checked.
    pub open spec fn accounted(self) -> int {
        self.outside_output_root + self.ok + self.problem_total()
    }

    /// Whether every problem that was counted is listed.
    pub open spec fn lists_all(self) -> bool {
        self.problems@.len() == self.problem_total()
    }

    /// The report before any record was checked.
    pub fn new(total_tracked: usize, deep: bool) -> (out: VerifyReport)
        ensures
            out.total_tracked == total_tracked,
            out.deep == deep,
            out.accounted() == 0,
            out.checked_bytes == 0,
            out.duration_ms == 0,
            out.chat_id == 0,
            out.chat_title is None,
            out.problems@.len() == 0,
            out.lists_all(),
    {
        VerifyReport {
            chat_id: 0,
            chat_title: None,
            total_tracked,
            outside_output_root: 0,
            ok: 0,
            missing: 0,
            size_mismatch: 0,
            hash_mismatch: 0,
            failed_status: 0,
            pending_status: 0,
            unreadable: 0,
            checked_bytes: 0,
            duration_ms: 0,
            deep,
            problems: Vec::new(),
        }
    }

    /// Counts the bytes of a file that was looked at.
    pub fn count_bytes(&mut self, facts: &FileFacts)
        ensures
            *final(self) == (VerifyReport {
                checked_bytes: match *facts {
                    FileFacts::File(size) => number::capped_u64(old(self).checked_bytes + size) as u64,
                    _ => old(self).checked_bytes,
                },
                ..*old(self)
            }),
    {
        if let FileFacts::File(size) = facts {
            self.checked_bytes = self.checked_bytes.saturating_add(*size);
        }
    }

    /// Takes in what was found of one record. Every record is counted once, and every problem is
    /// listed.
    pub fn add(&mut self, finding: Finding)
        ensures
            final(self).outside_output_root == report::capped(
                old(self).outside_output_root + if finding is Outside {
                    1int
                } else {
                    0
                },
            ),
            final(self).ok == report::capped(
                old(self).ok + if finding is Sound {
                    1int
                } else {
                    0
                },
            ),
            final(self).missing == counted(old(self).missing, finding, ProblemKind::Missing),
            final(self).size_mismatch == counted(
                old(self).size_mismatch,
                finding,
                ProblemKind::SizeMismatch,
            ),
            final(self).hash_mismatch == counted(
                old(self).hash_mismatch,
                finding,
                ProblemKind::HashMismatch,
            ),
            final(self).failed_status == counted(
                old(self).failed_status,
                finding,
                ProblemKind::FailedStatus,
            ),
            final(self).pending_status == counted(
                old(self).pending_status,
                finding,
                ProblemKind::PendingStatus,
            ),
            final(self).unreadable == counted(old(self).unreadable, finding, ProblemKind::Unreadable),
            final(self).problems@ == match finding {
                Finding::Problem(found) => old(self).problems@.push(found),
                _ => old(self).problems@,
            },
            final(self).chat_id == old(self).chat_id,
            final(self).chat_title == old(self).chat_title,
            final(self).total_tracked == old(self).total_tracked,
            final(self).checked_bytes == old(self).checked_bytes,
            final(self).duration_ms == old(self).duration_ms,
            final(self).deep == old(self).deep,
            old(self).accounted() < usize::MAX ==> final(self).accounted() == old(self).accounted() + 1,
            old(self).accounted() < usize::MAX && old(self).lists_all() ==> final(self).lists_all(),
    {
        let (outside, sound) = match &finding {
            Finding::Outside => (true, false),
            Finding::Sound => (false, true),
            Finding::Problem(_) => (false, false),
        };
        let kind = match &finding {
            Finding::Problem(found) => Some(found.problem),
            _ => None,
        };
        self.outside_output_root = count_up(self.outside_output_root, outside);
        self.ok = count_up(self.ok, sound);
        self.missing = count_up(self.missing, matches!(kind, Some(ProblemKind::Missing)));
        self.size_mismatch = count_up(
            self.size_mismatch,
            matches!(kind, Some(ProblemKind::SizeMismatch)),
        );
        self.hash_mismatch = count_up(
            self.hash_mismatch,
            matches!(kind, Some(ProblemKind::HashMismatch)),
        );
        self.failed_status = count_up(
            self.failed_status,
            matches!(kind, Some(ProblemKind::FailedStatus)),
        );
        self.pending_status = count_up(
            self.pending_status,
            matches!(kind, Some(ProblemKind::PendingStatus)),
        );
        self.unreadable = count_up(self.unreadable, matches!(kind, Some(ProblemKind::Unreadable)));
        if let Finding::Problem(found) = finding {
            self.problems.push(found);
        }
    }

    /// How many files have something wrong with them.
    pub fn problem_count(&self) -> (count: u128)
        ensures
            count == self.problem_total(),
    {
        self.missing as u128 + self.size_mismatch as u128 + self.hash_mismatch as u128
            + self.failed_status as u128 + self.pending_status as u128 + self.unreadable as u128
    }

    /// Whether the check succeeded: nothing is wrong with any file.
    pub fn outcome(&self) -> (out: Result<()>)
        ensures
            if self.problem_total() == 0 {
                out is Ok
            } else {
                out matches Err(AppError::Runtime(detail)) && detail@ == "verification found "@
                    + number::nat_text(self.problem_total() as nat) + " problem(s)"@
            },
    {
        let count: u128 = self.problem_count();
        if count == 0 {
            return Ok(());
        }
        let digits = number::decimal(count);
        let mut detail = text::concat("verification found ", digits.as_str());
        detail.append(" problem(s)");
        Err(AppError::Runtime(detail))
    }
}

/// A problem as a line of the report.
pub open spec fn problem_line(problem: ProblemView) -> Seq<char> {
    let head = "- "@ + problem.problem.name() + ": message "@ + number::int_text(
        problem.message_id as int,
    ) + ", "@ + problem.media_kind + ", "@ + problem.local_path;
    let sizes = match (problem.expected_size_bytes, problem.actual_size_bytes) {
        (Some(expected), Some(actual)) => " (expected "@ + number::int_text(expected as int)
            + " bytes, got "@ + number::nat_text(actual as nat) + " bytes)"@,
        _ => Seq::empty(),
    };
    let status = match problem.status {
        Some(status) => " (status "@ + status + ")"@,
        None => Seq::empty(),
    };
    let error = match problem.error {
        Some(error) => " ("@ + error + ")"@,
        None => Seq::empty(),
    };
    head + sizes + status + error
}

fn render_problem(problem: &VerifyProblem) -> (out: String)
    ensures
        out@ == problem_line(problem@),
{
    let mut out = text::concat("- ", problem.problem.as_str());
    out.append(": message ");
    let id = number::signed_decimal(problem.message_id as i64);
    out.append(id.as_str());
    out.append(", ");
    out.append(problem.media_kind);
    out.append(", ");
    out.append(problem.local_path.as_str());
    let ghost head = out@;
    if let (Some(expected), Some(actual)) = (problem.expected_size_bytes, problem.actual_size_bytes) {
        let expected = number::signed_decimal(expected);
        let actual = number::decimal(actual as u128);
        out.append(" (expected ");
        out.append(expected.as_str());
        out.append(" bytes, got ");
        out.append(actual.as_str());
        out.append(" bytes)");
        assert(out@ =~= head + (" (expected "@ + expected@ + " bytes, got "@ + actual@ + " bytes)"@));
    } else {
        assert(out@ =~= head + Seq::<char>::empty());
    }
    let ghost sized = out@;
    match &problem.status {
        Some(status) => {
            out.append(" (status ");
            out.append(status.as_str());
            out.append(")");
            assert(out@ =~= sized + (" (status "@ + status@ + ")"@));
        },
        None => {
            assert(out@ =~= sized + Seq::<char>::empty());
        },
    }
    let ghost marked = out@;
    match &problem.error {
        Some(error) => {
            out.append(" (");
            out.append(error.as_str());
            out.append(")");
            assert(out@ =~= marked + (" ("@ + error@ + ")"@));
        },
        None => {
            assert(out@ =~= marked + Seq::<char>::empty());
        },
    }
    out
}

/// The lines of the problems.
pub open spec fn problem_lines(problems: Seq<VerifyProblem>) -> Seq<Seq<char>> {
    problems.map_values(|problem: VerifyProblem| problem_line(problem@))
}

impl VerifyReport {
    /// The lines of the report for people.
    pub open spec fn lines(self) -> Seq<Seq<char>> {
        let title = match self.chat_title {
            Some(title) => title@,
            None => "unknown"@,
        };
        let always = seq![
            "Verify report"@,
            "Chat              : "@ + report::chat_text(title, self.chat_id as int),
            "Mode              : "@ + if self.deep {
                "deep"@
            } else {
                "fast"@
            },
            "Total tracked     : "@ + number::nat_text(self.total_tracked as nat),
            "Outside --out     : "@ + number::nat_text(self.outside_output_root as nat),
            "OK                : "@ + number::nat_text(self.ok as nat),
            "Missing           : "@ + number::nat_text(self.missing as nat),
            "Size mismatch     : "@ + number::nat_text(self.size_mismatch as nat),
            "Hash mismatch     : "@ + number::nat_text(self.hash_mismatch as nat),
            "Failed status     : "@ + number::nat_text(self.failed_status as nat),
            "Pending status    : "@ + number::nat_text(self.pending_status as nat),
            "Unreadable        : "@ + number::nat_text(self.unreadable as nat),
            "Checked bytes     : "@ + number::nat_text(self.checked_bytes as nat),
            "Duration          : "@ + report::seconds_text(self.duration_ms as nat),
        ];
        if self.problems@.len() == 0 {
            always
        } else {
            always + seq![Seq::empty(), "Problems"@] + problem_lines(self.problems@)
        }
    }

    /// The report for people, line by line.
    pub fn human(&self) -> (out: String)
        ensures
            out@ == text::joined(self.lines(), "\n"@),
    {
        let mut lines: Vec<String> = Vec::new();
        let title = match &self.chat_title {
            Some(title) => title.clone(),
            None => "unknown".to_string(),
        };
        report::push_text(&mut lines, "Verify report", "");
        let chat = report::render_chat(title.as_str(), self.chat_id);
        report::push_text(&mut lines, "Chat              : ", chat.as_str());
        let mode = if self.deep {
            "deep"
        } else {
            "fast"
        };
        report::push_text(&mut lines, "Mode              : ", mode);
        report::push_count(&mut lines, "Total tracked     : ", self.total_tracked as u128);
        report::push_count(&mut lines, "Outside --out     : ", self.outside_output_root as u128);
        report::push_count(&mut lines, "OK                : ", self.ok as u128);
        report::push_count(&mut lines, "Missing           : ", self.missing as u128);
        report::push_count(&mut lines, "Size mismatch     : ", self.size_mismatch as u128);
        report::push_count(&mut lines, "Hash mismatch     : ", self.hash_mismatch as u128);
        report::push_count(&mut lines, "Failed status     : ", self.failed_status as u128);
        report::push_count(&mut lines, "Pending status    : ", self.pending_status as u128);
        report::push_count(&mut lines, "Unreadable        : ", self.unreadable as u128);
        report::push_count(&mut lines, "Checked bytes     : ", self.checked_bytes as u128);
        let duration = report::format_seconds(self.duration_ms);
        report::push_text(&mut lines, "Duration          : ", duration.as_str());
        let ghost always = text::texts(lines@);
        proof {
            reveal_strlit("");
            assert("Verify report"@ + ""@ =~= "Verify report"@);
        }
        if self.problems.len() > 0 {
            lines.push(String::new());
            report::push_text(&mut lines, "Problems", "");
            proof {
                assert("Problems"@ + ""@ =~= "Problems"@);
                assert(text::texts(lines@) =~= always + seq![Seq::<char>::empty(), "Problems"@]
                    + problem_lines(self.problems@.take(0)));
            }
            let mut i: usize = 0;
            while i < self.problems.len()
                invariant
                    i <= self.problems@.len(),
                    text::texts(lines@) == always + seq![Seq::<char>::empty(), "Problems"@]
                        + problem_lines(self.problems@.take(i as int)),
                decreases self.problems@.len() - i,
            {
                let ghost before = text::texts(lines@);
                let ghost listed = problem_lines(self.problems@.take(i as int));
                let line = render_problem(&self.problems[i]);
                let ghost content = line@;
                lines.push(line);
                proof {
                    assert(text::texts(lines@) =~= before.push(content));
                    assert(problem_lines(self.problems@.take(i + 1)) =~= listed.push(content));
                    assert(before.push(content) =~= always + seq![Seq::<char>::empty(), "Problems"@]
                        + listed.push(content));
                }
                i += 1;
            }
            assert(self.problems@.take(i as int) =~= self.problems@);
        }
        assert(text::texts(lines@) =~= self.lines());
        text::join(&lines, "\n")
    }
}

/// The chat that is checked.
#[derive(Debug)]
pub struct VerifyChat {
    pub chat_id: i64,
    pub title: String,
}

/// How the chat of a check is found.
#[derive(Debug)]
pub enum VerifyChatStep {
    Known(VerifyChat),
    AskTelegram,
}

/// How the chat of a check is found: in the state database, else by asking Telegram where that is
/// possible. `known` is what the database has for `query`. A number that it does not have is not
/// asked for.
pub fn resolve_verify_chat(
    query: &str,
    known: Option<StoredChatRecord>,
    has_credentials: bool,
    session_exists: bool,
) -> (out: Result<VerifyChatStep>)
    ensures
        match known {
            Some(chat) => out matches Ok(VerifyChatStep::Known(found)) && found.chat_id == chat.chat_id
                && found.title@ == chat.title@,
            None => if number::parsed_within(query@, true, i64::MIN as int, i64::MAX as int) is Some {
                out matches Err(AppError::ChatResolution(detail)) && detail@ == "chat `"@ + query@
                    + "` is not known in the local state DB; run an export first"@
            } else if !has_credentials || !session_exists {
                out matches Err(AppError::ChatResolution(detail)) && detail@ == "chat `"@ + query@
                    + "` is not known locally; use a numeric chat id for offline verify or run `tgbacky auth` first"@
            } else {
                out matches Ok(VerifyChatStep::AskTelegram)
            },
        },
{
    if let Some(chat) = known {
        return Ok(VerifyChatStep::Known(VerifyChat { chat_id: chat.chat_id, title: chat.title }));
    }
    if number::parse_i64(query).is_some() {
        let mut detail = text::concat("chat `", query);
        detail.append("` is not known in the local state DB; run an export first");
        return Err(AppError::ChatResolution(detail));
    }
    if !has_credentials || !session_exists {
        let mut detail = text::concat("chat `", query);
        detail.append(
            "` is not known locally; use a numeric chat id for offline verify or run `tgbacky auth` first",
        );
        return Err(AppError::ChatResolution(detail));
    }
    Ok(VerifyChatStep::AskTelegram)
}

/// The error for a profile that is not signed in.
pub fn not_authorized(profile: &str) -> (error: AppError)
    ensures
        error matches AppError::Authentication(detail) && detail@ == "profile `"@ + profile@
            + "` is not authorized; run `tgbacky auth --profile "@ + profile@ + "`"@,
{
    let mut detail = text::concat("profile `", profile);
    detail.append("` is not authorized; run `tgbacky auth --profile ");
    detail.append(profile);
    detail.append("`");
    AppError::Authentication(detail)
}

/// A recorded size that is not negative is held against the size on disk: the sizes differ exactly if
/// the file is shorter or longer. Without such a size nothing is held against it.
pub proof fn other_sizes_are_found(recorded: Option<i64>, size: u64)
    ensures
        recorded is Some && recorded->0 >= 0 ==> {
            &&& size_differs(recorded, size) <==> (size as int) < recorded->0 as int || size as int
                > recorded->0 as int
            &&& !size_differs(recorded, size) <==> size as int == recorded->0 as int
        },
        recorded is None || recorded->0 < 0 ==> !size_differs(recorded, size),
{
}

/// At most one size is not held against a file that has a recorded one.
pub proof fn one_size_is_right(recorded: i64, size: u64, other: u64)
    requires
        recorded >= 0,
        !size_differs(Some(recorded), size),
        size != other,
    ensures
        size_differs(Some(recorded), other),
{
}

/// What a whole check finds of a record, when `facts` is what is at its path and `hash` the hash of
/// that file.
pub open spec fn verdict(
    record: StoredMediaRecord,
    inside: bool,
    deep: bool,
    facts: FileFacts,
    hash: Seq<char>,
) -> FindingView {
    match begun(record, inside, deep) {
        StepView::Done(finding) => finding,
        StepView::Hash(pending, size) => hashed(pending, size, hash),
        StepView::Inspect(pending, deeper) => match inspected(pending, deeper, facts) {
            StepView::Done(finding) => finding,
            StepView::Hash(pending, size) => hashed(pending, size, hash),
            StepView::Inspect(_, _) => FindingView::Outside,
        },
    }
}

/// Whether a check found a problem of a kind.
pub open spec fn is_problem(finding: FindingView, kind: ProblemKind) -> bool {
    finding matches FindingView::Problem(found) && found.problem == kind
}

/// What a check finds. Files outside the folder are passed over, and files that are not downloaded are
/// told by their status. Of a downloaded file a fast check compares the size, if one is recorded, and a
/// deep check the hash, if one is recorded. The file is sound exactly if nothing is wrong, and a problem
/// names the record that it is about.
pub proof fn checks_find_what_is_wrong(
    record: StoredMediaRecord,
    deep: bool,
    facts: FileFacts,
    hash: Seq<char>,
)
    ensures
        verdict(record, false, deep, facts, hash) is Outside,
        ({
            let found = verdict(record, true, deep, facts, hash);
            let saved = record.status == MediaStatus::Downloaded || record.status
                == MediaStatus::SkippedExisting;
            let by_hash = deep && record.sha256 is Some;
            let size = facts->File_0;
            let right_size = record.file_size_bytes is Some && record.file_size_bytes->0 >= 0 ==> size
                as int == record.file_size_bytes->0 as int;
            let right_hash = record.sha256 is Some && hash == record.sha256->0@;
            &&& is_problem(found, ProblemKind::FailedStatus) <==> record.status == MediaStatus::Failed
            &&& is_problem(found, ProblemKind::PendingStatus) <==> record.status == MediaStatus::Pending
                || record.status == MediaStatus::Downloading
            &&& is_problem(found, ProblemKind::Missing) <==> saved && facts is Missing
            &&& is_problem(found, ProblemKind::Unreadable) <==> saved && (facts is Unreadable || facts
                is NotFile)
            &&& is_problem(found, ProblemKind::SizeMismatch) <==> saved && facts is File && !by_hash
                && !right_size
            &&& is_problem(found, ProblemKind::HashMismatch) <==> saved && facts is File && by_hash
                && !right_hash
            &&& found is Sound <==> saved && facts is File && if by_hash {
                right_hash
            } else {
                right_size
            }
            &&& !(found is Outside)
            &&& found matches FindingView::Problem(problem) ==> {
                &&& problem.message_id == record.message_id
                &&& problem.local_path == record.local_path@
                &&& problem.media_kind == record.kind.name()
                &&& problem.expected_size_bytes == record.file_size_bytes
                &&& problem.status == Some(record.status.name())
                &&& facts is File && saved ==> problem.actual_size_bytes == Some(size)
                &&& problem.problem == ProblemKind::HashMismatch ==> problem.actual_sha256 == Some(hash)
                    && problem.expected_sha256 == Some(record.sha256->0@)
            }
        }),
{
}

/// A problem is counted under its own kind only, once.
pub proof fn problems_are_counted_once(count: usize, finding: Finding, kind: ProblemKind)
    requires
        count < usize::MAX,
    ensures
        counted(count, finding, kind) == count + 1 <==> is_problem(finding@, kind),
        counted(count, finding, kind) == count <==> !is_problem(finding@, kind),
{
}

} // verus!
