//! Rows of the state database: what is written, and what is read back.

use vstd::prelude::*;

use crate::date;
use crate::date::Timestamp;
use crate::error::AppError;
use crate::error::Result;
use crate::number;
use crate::report::ExportReport;
use crate::text;
use crate::types;
use crate::types::{CheckpointState, MediaKind, MediaStatus};

verus! {

/// A tracked file as it is read from the database.
#[derive(Debug)]
pub struct StoredMediaRecord {
    pub chat_id: i64,
    pub message_id: i32,
    pub message_date: Timestamp,
    pub kind: MediaKind,
    pub telegram_media_key: String,
    pub status: MediaStatus,
    pub local_path: String,
    pub file_size_bytes: Option<i64>,
    pub sha256: Option<String>,
    pub error_message: Option<String>,
}

/// A chat as it is read from the database.
#[derive(Debug)]
pub struct StoredChatRecord {
    pub chat_id: i64,
    pub title: String,
    pub username: Option<String>,
    pub kind: String,
}

/// A tracked file as it is written to the database.
#[derive(Debug)]
pub struct PersistedMediaItem {
    pub chat_id: i64,
    pub message_id: i32,
    pub message_date: Timestamp,
    pub kind: MediaKind,
    pub telegram_media_key: String,
    pub mime_type: Option<String>,
    pub file_size_bytes: Option<i64>,
    pub local_path: String,
    pub sha256: Option<String>,
    pub status: MediaStatus,
    pub error_message: Option<String>,
}

/// The content of a tracked file.
pub struct MediaItemView {
    pub chat_id: i64,
    pub message_id: i32,
    pub message_date: Timestamp,
    pub kind: MediaKind,
    pub telegram_media_key: Seq<char>,
    pub mime_type: Option<Seq<char>>,
    pub file_size_bytes: Option<i64>,
    pub local_path: Seq<char>,
    pub sha256: Option<Seq<char>>,
    pub status: MediaStatus,
    pub error_message: Option<Seq<char>>,
}

impl View for PersistedMediaItem {
    type V = MediaItemView;

    open spec fn view(&self) -> MediaItemView {
        MediaItemView {
            chat_id: self.chat_id,
            message_id: self.message_id,
            message_date: self.message_date,
            kind: self.kind,
            telegram_media_key: self.telegram_media_key@,
            mime_type: text::opt_text(self.mime_type),
            file_size_bytes: self.file_size_bytes,
            local_path: self.local_path@,
            sha256: text::opt_text(self.sha256),
            status: self.status,
            error_message: text::opt_text(self.error_message),
        }
    }
}

/// The contents of a list of tracked files.
pub open spec fn item_views(items: Seq<PersistedMediaItem>) -> Seq<MediaItemView> {
    items.map_values(|item: PersistedMediaItem| item@)
}

impl Clone for PersistedMediaItem {
    fn clone(&self) -> (copy: PersistedMediaItem)
        ensures
            copy == *self,
    {
        PersistedMediaItem {
            chat_id: self.chat_id,
            message_id: self.message_id,
            message_date: self.message_date,
            kind: self.kind,
            telegram_media_key: self.telegram_media_key.clone(),
            mime_type: text::copy_opt(&self.mime_type),
            file_size_bytes: self.file_size_bytes,
            local_path: self.local_path.clone(),
            sha256: text::copy_opt(&self.sha256),
            status: self.status,
            error_message: text::copy_opt(&self.error_message),
        }
    }
}

/// Where a run stands.
#[derive(Debug, Clone, Copy, PartialEq, Eq, Structural)]
pub enum RunStatus {
    Running,
    Succeeded,
    Interrupted,
    Failed,
}

/// The run status that is stored under `name`; an unknown name stands for a failure.
pub open spec fn run_status_named(name: Seq<char>) -> RunStatus {
    if name == "running"@ {
        RunStatus::Running
    } else if name == "succeeded"@ {
        RunStatus::Succeeded
    } else if name == "interrupted"@ {
        RunStatus::Interrupted
    } else {
        RunStatus::Failed
    }
}

impl RunStatus {
    /// The name under which the status is stored.
    pub open spec fn name(self) -> Seq<char> {
        match self {
            RunStatus::Running => "running"@,
            RunStatus::Succeeded => "succeeded"@,
            RunStatus::Interrupted => "interrupted"@,
            RunStatus::Failed => "failed"@,
        }
    }

    pub fn as_str(self) -> (name: &'static str)
        ensures
            name@ == self.name(),
    {
        match self {
            RunStatus::Running => "running",
            RunStatus::Succeeded => "succeeded",
            RunStatus::Interrupted => "interrupted",
            RunStatus::Failed => "failed",
        }
    }

    pub fn parse(value: &str) -> (status: RunStatus)
        ensures
            status == run_status_named(value@),
    {
        if text::same_text(value, "running") {
            RunStatus::Running
        } else if text::same_text(value, "succeeded") {
            RunStatus::Succeeded
        } else if text::same_text(value, "interrupted") {
            RunStatus::Interrupted
        } else {
            RunStatus::Failed
        }
    }
}

/// A run as it is read from the database.
#[derive(Debug)]
pub struct RunRecord {
    pub id: i64,
    pub operation: String,
    pub requested_chat: Option<String>,
    pub chat_id: Option<i64>,
    pub chat_title: Option<String>,
    pub output_dir: Option<String>,
    pub status: RunStatus,
    pub scanned_messages: usize,
    pub media_found: usize,
    pub downloaded: usize,
    pub skipped_existing: usize,
    pub failed: usize,
    pub flood_wait_count: u64,
    pub flood_sleep_ms_total: u64,
    pub last_checkpoint_message_id: Option<i32>,
    pub error_message: Option<String>,
    pub artifact_path: Option<String>,
    pub started_at: String,
    pub finished_at: Option<String>,
}

/// A saved plan as it is read from the database.
#[derive(Debug)]
pub struct ExportPlanRecord {
    pub id: i64,
    pub chat_id: i64,
    pub profile: String,
    pub output_dir: String,
    pub media_filter: String,
    pub scope_hash: String,
    pub planned_high_watermark_message_id: Option<i32>,
    pub planned_backfill_cursor_message_id: Option<i32>,
    pub planned_backfill_complete: bool,
    pub scanned_messages: usize,
    pub media_found: usize,
    pub queued: usize,
    pub estimated_bytes: u64,
    pub per_kind_json: String,
}

/// A plan that is about to be made.
#[derive(Debug)]
pub struct NewExportPlan<'a> {
    pub chat_id: i64,
    pub profile: &'a str,
    pub output_dir: &'a str,
    pub media_filter: &'a str,
    pub scope_hash: &'a str,
}

/// What a finished plan holds.
#[derive(Debug)]
pub struct CompleteExportPlan {
    pub id: i64,
    pub planned_high_watermark_message_id: Option<i32>,
    pub planned_backfill_cursor_message_id: Option<i32>,
    pub planned_backfill_complete: bool,
    pub scanned_messages: usize,
    pub media_found: usize,
    pub queued: usize,
    pub estimated_bytes: u64,
    pub per_kind_json: String,
}

/// A row of the table of tracked files.
#[derive(Debug)]
pub struct MediaRow {
    pub chat_id: i64,
    pub message_id: i32,
    pub message_date: String,
    pub kind: String,
    pub telegram_media_key: String,
    pub mime_type: Option<String>,
    pub file_size_bytes: Option<i64>,
    pub sha256: Option<String>,
    pub local_path: String,
    pub status: String,
    pub error_message: Option<String>,
}

/// A row of the table of checkpoints.
#[derive(Debug, Clone, Copy, PartialEq, Eq, Structural)]
pub struct CheckpointRow {
    pub chat_id: i64,
    pub high_watermark_message_id: Option<i32>,
    pub backfill_cursor_message_id: Option<i32>,
    pub backfill_complete: i64,
}

/// A row of the table of runs, in the integers that the database holds.
#[derive(Debug)]
pub struct RunRow {
    pub id: i64,
    pub operation: String,
    pub requested_chat: Option<String>,
    pub chat_id: Option<i64>,
    pub chat_title: Option<String>,
    pub output_dir: Option<String>,
    pub status: String,
    pub scanned_messages: i64,
    pub media_found: i64,
    pub downloaded: i64,
    pub skipped_existing: i64,
    pub failed: i64,
    pub flood_wait_count: i64,
    pub flood_sleep_ms_total: i64,
    pub last_checkpoint_message_id: Option<i32>,
    pub error_message: Option<String>,
    pub artifact_path: Option<String>,
    pub started_at: String,
    pub finished_at: Option<String>,
}

/// A row of the table of plans, in the integers that the database holds.
#[derive(Debug)]
pub struct PlanRow {
    pub id: i64,
    pub chat_id: i64,
    pub profile: String,
    pub output_dir: String,
    pub media_filter: String,
    pub scope_hash: String,
    pub planned_high_watermark_message_id: Option<i32>,
    pub planned_backfill_cursor_message_id: Option<i32>,
    pub planned_backfill_complete: i64,
    pub scanned_messages: i64,
    pub media_found: i64,
    pub queued: i64,
    pub estimated_bytes: i64,
    pub per_kind_json: String,
}

/// Whether `row` is what is written for `item`.
pub open spec fn media_row_of(item: PersistedMediaItem, row: MediaRow) -> bool {
    &&& row.chat_id == item.chat_id
    &&& row.message_id == item.message_id
    &&& row.message_date@ == item.message_date.text()
    &&& row.kind@ == item.kind.name()
    &&& row.telegram_media_key == item.telegram_media_key
    &&& row.mime_type == item.mime_type
    &&& row.file_size_bytes == item.file_size_bytes
    &&& row.sha256 == item.sha256
    &&& row.local_path == item.local_path
    &&& row.status@ == item.status.name()
    &&& row.error_message == item.error_message
}

/// The row that is written for a tracked file.
pub fn media_to_row(item: &PersistedMediaItem) -> (row: MediaRow)
    ensures
        media_row_of(*item, row),
{
    MediaRow {
        chat_id: item.chat_id,
        message_id: item.message_id,
        message_date: item.message_date.to_rfc3339(),
        kind: item.kind.as_str().to_string(),
        telegram_media_key: item.telegram_media_key.clone(),
        mime_type: text::copy_opt(&item.mime_type),
        file_size_bytes: item.file_size_bytes,
        sha256: text::copy_opt(&item.sha256),
        local_path: item.local_path.clone(),
        status: item.status.as_str().to_string(),
        error_message: text::copy_opt(&item.error_message),
    }
}

/// What is read from a row. The date has to be a moment and the kind a known one; an unknown status
/// stands for a failure.
pub open spec fn media_read(row: MediaRow, read: Result<StoredMediaRecord>) -> bool {
    match read {
        Ok(record) => {
            &&& date::rfc3339_value(row.message_date@) == Ok::<(int, int), Seq<char>>(
                (record.message_date.unix_seconds(), record.message_date.subsec_nanos()),
            )
            &&& types::kind_of_entry(row.kind@) == Some(record.kind)
            &&& record.chat_id == row.chat_id
            &&& record.message_id == row.message_id
            &&& record.telegram_media_key == row.telegram_media_key
            &&& record.status == match types::media_status_named(row.status@) {
                Some(status) => status,
                None => MediaStatus::Failed,
            }
            &&& record.local_path == row.local_path
            &&& record.file_size_bytes == row.file_size_bytes
            &&& record.sha256 == row.sha256
            &&& record.error_message == row.error_message
        },
        Err(error) => match date::rfc3339_value(row.message_date@) {
            Err(message) => error is Database && error.detail()
                == "Conversion error from type Text at index: 2, "@ + message,
            Ok(_) => types::kind_of_entry(row.kind@) is None && error is Database && error.detail()
                == "Conversion error from type Text at index: 3, unsupported media kind `"@ + row.kind@
                + "`"@,
        },
    }
}

/// Whether what was read is what was written; the file's type is not read.
pub open spec fn same_tracked_file(item: PersistedMediaItem, record: StoredMediaRecord) -> bool {
    &&& record.chat_id == item.chat_id
    &&& record.message_id == item.message_id
    &&& record.message_date == item.message_date
    &&& record.kind == item.kind
    &&& record.telegram_media_key == item.telegram_media_key
    &&& record.status == item.status
    &&& record.local_path == item.local_path
    &&& record.file_size_bytes == item.file_size_bytes
    &&& record.sha256 == item.sha256
    &&& record.error_message == item.error_message
}

/// Reads a tracked file from its row. A file that was written reads back unchanged, where its
/// moment lies in a year of four digits.
pub fn stored_media_from_row(row: MediaRow) -> (read: Result<StoredMediaRecord>)
    ensures
        media_read(row, read),
        forall|item: PersistedMediaItem| #[trigger]
            media_row_of(item, row) && item.message_date.has_text(row.message_date@) ==> (read is Ok
                && same_tracked_file(item, read->Ok_0)),
{
    let ghost given = row;
    let message_date = match Timestamp::from_rfc3339(row.message_date.as_str()) {
        Ok(moment) => moment,
        Err(message) => {
            return Err(
                AppError::Database(
                    text::concat("Conversion error from type Text at index: 2, ", message.as_str()),
                ),
            );
        },
    };
    let kind = match MediaKind::parse(row.kind.as_str()) {
        Some(kind) => kind,
        None => {
            let mut detail =
                "Conversion error from type Text at index: 3, unsupported media kind `".to_string();
            detail.append(row.kind.as_str());
            detail.append("`");
            proof {
                assert forall|item: PersistedMediaItem| #[trigger]
                    media_row_of(item, given) implies false by {
                    types::kind_names_read_back(item.kind);
                }
            }
            return Err(AppError::Database(detail));
        },
    };
    let status = match MediaStatus::parse(row.status.as_str()) {
        Some(status) => status,
        None => MediaStatus::Failed,
    };
    let record = StoredMediaRecord {
        chat_id: row.chat_id,
        message_id: row.message_id,
        message_date,
        kind,
        telegram_media_key: row.telegram_media_key,
        status,
        local_path: row.local_path,
        file_size_bytes: row.file_size_bytes,
        sha256: row.sha256,
        error_message: row.error_message,
    };
    proof {
        assert forall|item: PersistedMediaItem| #[trigger]
            media_row_of(item, given) && item.message_date.has_text(
                given.message_date@,
            ) implies same_tracked_file(item, record) by {
            types::kind_names_read_back(item.kind);
            types::status_names_read_back(item.status);
            date::moments_are_equal(record.message_date, item.message_date);
        }
    }
    Ok(record)
}

/// The row that is written for a checkpoint.
pub open spec fn checkpoint_row(checkpoint: CheckpointState) -> CheckpointRow {
    CheckpointRow {
        chat_id: checkpoint.chat_id,
        high_watermark_message_id: checkpoint.high_watermark_message_id,
        backfill_cursor_message_id: checkpoint.backfill_cursor_message_id,
        backfill_complete: if checkpoint.backfill_complete {
            1
        } else {
            0
        },
    }
}

/// The row that is written for a checkpoint.
pub fn checkpoint_to_row(checkpoint: &CheckpointState) -> (row: CheckpointRow)
    ensures
        row == checkpoint_row(*checkpoint),
{
    CheckpointRow {
        chat_id: checkpoint.chat_id,
        high_watermark_message_id: checkpoint.high_watermark_message_id,
        backfill_cursor_message_id: checkpoint.backfill_cursor_message_id,
        backfill_complete: flag(checkpoint.backfill_complete),
    }
}

fn flag(value: bool) -> (out: i64)
    ensures
        out == if value {
            1i64
        } else {
            0i64
        },
{
    if value {
        1
    } else {
        0
    }
}

/// The checkpoint that a row holds.
pub open spec fn row_checkpoint(row: CheckpointRow) -> CheckpointState {
    CheckpointState {
        chat_id: row.chat_id,
        high_watermark_message_id: row.high_watermark_message_id,
        backfill_cursor_message_id: row.backfill_cursor_message_id,
        backfill_complete: row.backfill_complete != 0,
    }
}

/// Reads a checkpoint from its row.
pub fn checkpoint_from_row(row: CheckpointRow) -> (checkpoint: CheckpointState)
    ensures
        checkpoint == row_checkpoint(row),
{
    CheckpointState {
        chat_id: row.chat_id,
        high_watermark_message_id: row.high_watermark_message_id,
        backfill_cursor_message_id: row.backfill_cursor_message_id,
        backfill_complete: row.backfill_complete != 0,
    }
}

/// A checkpoint that is written and read back is unchanged.
pub proof fn checkpoint_reads_back(checkpoint: CheckpointState)
    ensures
        row_checkpoint(checkpoint_row(checkpoint)) == checkpoint,
{
}

/// Reads a run from its row.
pub fn run_record_from_row(row: RunRow) -> (record: RunRecord)
    ensures
        record.id == row.id,
        record.operation == row.operation,
        record.requested_chat == row.requested_chat,
        record.chat_id == row.chat_id,
        record.chat_title == row.chat_title,
        record.output_dir == row.output_dir,
        record.status == run_status_named(row.status@),
        record.scanned_messages == row.scanned_messages as usize,
        record.media_found == row.media_found as usize,
        record.downloaded == row.downloaded as usize,
        record.skipped_existing == row.skipped_existing as usize,
        record.failed == row.failed as usize,
        record.flood_wait_count == row.flood_wait_count as u64,
        record.flood_sleep_ms_total == row.flood_sleep_ms_total as u64,
        record.last_checkpoint_message_id == row.last_checkpoint_message_id,
        record.error_message == row.error_message,
        record.artifact_path == row.artifact_path,
        record.started_at == row.started_at,
        record.finished_at == row.finished_at,
{
    RunRecord {
        id: row.id,
        operation: row.operation,
        requested_chat: row.requested_chat,
        chat_id: row.chat_id,
        chat_title: row.chat_title,
        output_dir: row.output_dir,
        status: RunStatus::parse(row.status.as_str()),
        scanned_messages: row.scanned_messages as usize,
        media_found: row.media_found as usize,
        downloaded: row.downloaded as usize,
        skipped_existing: row.skipped_existing as usize,
        failed: row.failed as usize,
        flood_wait_count: row.flood_wait_count as u64,
        flood_sleep_ms_total: row.flood_sleep_ms_total as u64,
        last_checkpoint_message_id: row.last_checkpoint_message_id,
        error_message: row.error_message,
        artifact_path: row.artifact_path,
        started_at: row.started_at,
        finished_at: row.finished_at,
    }
}

/// Reads a saved plan from its row.
pub fn export_plan_from_row(row: PlanRow) -> (record: ExportPlanRecord)
    ensures
        record.id == row.id,
        record.chat_id == row.chat_id,
        record.profile == row.profile,
        record.output_dir == row.output_dir,
        record.media_filter == row.media_filter,
        record.scope_hash == row.scope_hash,
        record.planned_high_watermark_message_id == row.planned_high_watermark_message_id,
        record.planned_backfill_cursor_message_id == row.planned_backfill_cursor_message_id,
        record.planned_backfill_complete == (row.planned_backfill_complete != 0),
        record.scanned_messages == row.scanned_messages as usize,
        record.media_found == row.media_found as usize,
        record.queued == row.queued as usize,
        record.estimated_bytes == row.estimated_bytes as u64,
        record.per_kind_json == row.per_kind_json,
{
    ExportPlanRecord {
        id: row.id,
        chat_id: row.chat_id,
        profile: row.profile,
        output_dir: row.output_dir,
        media_filter: row.media_filter,
        scope_hash: row.scope_hash,
        planned_high_watermark_message_id: row.planned_high_watermark_message_id,
        planned_backfill_cursor_message_id: row.planned_backfill_cursor_message_id,
        planned_backfill_complete: row.planned_backfill_complete != 0,
        scanned_messages: row.scanned_messages as usize,
        media_found: row.media_found as usize,
        queued: row.queued as usize,
        estimated_bytes: row.estimated_bytes as u64,
        per_kind_json: row.per_kind_json,
    }
}

/// The figures of a finished plan, in the integers that the database holds.
#[derive(Debug, Clone, Copy, PartialEq, Eq, Structural)]
pub struct PlanFigures {
    pub planned_backfill_complete: i64,
    pub scanned_messages: i64,
    pub media_found: i64,
    pub queued: i64,
    pub estimated_bytes: i64,
}

/// The figures that are written for a finished plan.
pub fn plan_figures(plan: &CompleteExportPlan) -> (figures: PlanFigures)
    ensures
        figures.planned_backfill_complete == if plan.planned_backfill_complete {
            1i64
        } else {
            0i64
        },
        figures.scanned_messages == plan.scanned_messages as i64,
        figures.media_found == plan.media_found as i64,
        figures.queued == plan.queued as i64,
        figures.estimated_bytes == plan.estimated_bytes as i64,
{
    PlanFigures {
        planned_backfill_complete: flag(plan.planned_backfill_complete),
        scanned_messages: plan.scanned_messages as i64,
        media_found: plan.media_found as i64,
        queued: plan.queued as i64,
        estimated_bytes: plan.estimated_bytes as i64,
    }
}

/// The figures of a finished run, in the integers that the database holds.
#[derive(Debug, Clone, Copy, PartialEq, Eq, Structural)]
pub struct RunFigures {
    pub scanned_messages: i64,
    pub media_found: i64,
    pub downloaded: i64,
    pub skipped_existing: i64,
    pub failed: i64,
    pub flood_wait_count: i64,
    pub flood_sleep_ms_total: i64,
}

/// The figures that are written for a finished run.
pub fn run_figures(report: &ExportReport) -> (figures: RunFigures)
    ensures
        figures.scanned_messages == report.scanned_messages as i64,
        figures.media_found == report.media_found as i64,
        figures.downloaded == report.downloaded as i64,
        figures.skipped_existing == report.skipped_existing as i64,
        figures.failed == report.failed as i64,
        figures.flood_wait_count == report.flood_wait_count as i64,
        figures.flood_sleep_ms_total == report.flood_sleep_ms_total as i64,
{
    RunFigures {
        scanned_messages: report.scanned_messages as i64,
        media_found: report.media_found as i64,
        downloaded: report.downloaded as i64,
        skipped_existing: report.skipped_existing as i64,
        failed: report.failed as i64,
        flood_wait_count: report.flood_wait_count as i64,
        flood_sleep_ms_total: report.flood_sleep_ms_total as i64,
    }
}

/// A statement that changes one row of the bookkeeping tables.
#[derive(Debug, Clone, Copy, PartialEq, Eq, Structural)]
pub enum RowUpdate {
    CompletePlan,
    ChangePlanStatus,
    FinishRunSuccess,
    FinishRunFailure,
    FinishRunInterrupted,
}

/// What is reported when an update did not change exactly one row.
pub open spec fn missed_update_text(update: RowUpdate, id: int) -> Seq<char> {
    match update {
        RowUpdate::CompletePlan => "export plan "@ + number::int_text(id) + " was not completed"@,
        RowUpdate::ChangePlanStatus => "export plan "@ + number::int_text(id) + " was not updated"@,
        RowUpdate::FinishRunSuccess => "run record "@ + number::int_text(id)
            + " was not updated on success"@,
        RowUpdate::FinishRunFailure => "run record "@ + number::int_text(id)
            + " was not updated on failure"@,
        RowUpdate::FinishRunInterrupted => "run record "@ + number::int_text(id)
            + " was not updated on interruption"@,
    }
}

/// An update has to change exactly one row.
pub fn expect_one_row(update: RowUpdate, id: i64, updated: usize) -> (outcome: Result<()>)
    ensures
        match outcome {
            Ok(_) => updated == 1,
            Err(error) => updated != 1 && error is Runtime && error.detail() == missed_update_text(
                update,
                id as int,
            ),
        },
{
    if updated == 1 {
        return Ok(());
    }
    let (head, tail): (&str, &str) = match update {
        RowUpdate::CompletePlan => ("export plan ", " was not completed"),
        RowUpdate::ChangePlanStatus => ("export plan ", " was not updated"),
        RowUpdate::FinishRunSuccess => ("run record ", " was not updated on success"),
        RowUpdate::FinishRunFailure => ("run record ", " was not updated on failure"),
        RowUpdate::FinishRunInterrupted => ("run record ", " was not updated on interruption"),
    };
    let digits = number::signed_decimal(id);
    let mut detail = head.to_string();
    detail.append(digits.as_str());
    detail.append(tail);
    Err(AppError::Runtime(detail))
}

/// How a stored chat is looked up.
#[derive(Debug)]
pub enum ChatLookup {
    ById(i64),
    ByName { username: String, title: String },
}

/// The id that a query stands for.
pub open spec fn query_id(query: Seq<char>) -> Option<int> {
    number::parsed_within(query, true, i64::MIN as int, i64::MAX as int)
}

/// `s` without one `@` at its front.
pub open spec fn without_at(s: Seq<char>) -> Seq<char> {
    if s.len() > 0 && s[0] == '@' {
        s.drop_first()
    } else {
        s
    }
}

/// A number is an id; anything else is a username, with or without `@`, or a title.
pub fn chat_lookup(query: &str) -> (lookup: ChatLookup)
    ensures
        match lookup {
            ChatLookup::ById(id) => query_id(query@) == Some(id as int),
            ChatLookup::ByName { username, title } => {
                &&& query_id(query@) is None
                &&& username@ == without_at(text::trimmed(query@))
                &&& title@ == text::trimmed(query@)
            },
        },
{
    match number::parse_i64(query) {
        Some(id) => ChatLookup::ById(id),
        None => {
            let title = text::trim(query);
            let username = strip_at(title.as_str());
            ChatLookup::ByName { username, title }
        },
    }
}

/// `value` without one `@` at its front.
pub fn strip_at(value: &str) -> (out: String)
    ensures
        out@ == without_at(value@),
{
    let chars = text::chars_of(value);
    if chars.len() > 0 && chars[0] == '@' {
        let rest = text::slice_of(&chars, 1, chars.len());
        assert(rest@ =~= value@.drop_first());
        text::text_of(&rest)
    } else {
        value.to_string()
    }
}

/// The schema versions, oldest first.
pub open spec fn schema_versions() -> Seq<i64> {
    seq![1i64, 2i64, 3i64]
}

/// The versions that a database at `current` still has to go through.
pub fn pending_migrations(current: i64) -> (versions: Vec<i64>)
    ensures
        versions@ == schema_versions().filter(|version: i64| version > current),
{
    let mut versions: Vec<i64> = Vec::new();
    let ghost all = schema_versions();
    let ghost wanted = |version: i64| version > current;
    let mut version: i64 = 1;
    proof {
        assert(all.take(0) =~= Seq::<i64>::empty());
        reveal(Seq::filter);
    }
    while version <= 3
        invariant
            1 <= version <= 4,
            all == schema_versions(),
            wanted == |v: i64| v > current,
            versions@ == all.take(version - 1).filter(wanted),
        decreases 4 - version,
    {
        proof {
            reveal(Seq::filter);
            assert(all.take(version as int).drop_last() =~= all.take(version - 1));
            assert(all.take(version as int).last() == version);
        }
        if version > current {
            versions.push(version);
        }
        version += 1;
    }
    assert(all.take(3) =~= all);
    versions
}

/// A database has to exist before it can be opened for reading only.
pub fn require_state_db(exists: bool, path: &str) -> (outcome: Result<()>)
    ensures
        match outcome {
            Ok(_) => exists,
            Err(error) => !exists && error is Config && error.detail() == "state DB does not exist at "@
                + path@,
        },
{
    if exists {
        Ok(())
    } else {
        Err(AppError::Config(text::concat("state DB does not exist at ", path)))
    }
}

/// The stored name of a run's status reads back as that status.
pub proof fn run_status_names_read_back(status: RunStatus)
    ensures
        run_status_named(status.name()) == status,
{
    reveal_strlit("running");
    reveal_strlit("succeeded");
    reveal_strlit("interrupted");
    reveal_strlit("failed");
    assert("running"@.len() == 7 && "succeeded"@.len() == 9 && "interrupted"@.len() == 11
        && "failed"@.len() == 6);
}

/// A database goes through the versions above its own, each once and in order, and ends at the third.
pub proof fn migrations_end_at_the_third_version(current: i64)
    ensures
        ({
            let pending = schema_versions().filter(|version: i64| version > current);
            &&& forall|version: i64| #[trigger]
                pending.contains(version) <==> current < version && 1 <= version <= 3
            &&& forall|i: int, j: int|
                0 <= i < j < pending.len() ==> #[trigger] pending[i] < #[trigger] pending[j]
            &&& current < 3 ==> pending.len() > 0 && pending.last() == 3
            &&& current >= 3 ==> pending.len() == 0
        }),
{
    reveal(Seq::filter);
    let newer = |version: i64| version > current;
    let all = schema_versions();
    let one = all.take(1);
    let two = all.take(2);
    assert(all.drop_last() =~= two);
    assert(two.drop_last() =~= one);
    assert(one.drop_last() =~= Seq::<i64>::empty());
    let pending = all.filter(newer);
    assert(pending == (if current < 1 {
        seq![1i64, 2i64, 3i64]
    } else if current < 2 {
        seq![2i64, 3i64]
    } else if current < 3 {
        seq![3i64]
    } else {
        Seq::<i64>::empty()
    })) by {
        assert(Seq::<i64>::empty().filter(newer) =~= Seq::<i64>::empty());
        assert(one.filter(newer) =~= if current < 1 {
            seq![1i64]
        } else {
            Seq::<i64>::empty()
        });
        assert(two.filter(newer) =~= if current < 1 {
            seq![1i64, 2i64]
        } else if current < 2 {
            seq![2i64]
        } else {
            Seq::<i64>::empty()
        });
        assert(pending =~= if current < 1 {
            seq![1i64, 2i64, 3i64]
        } else if current < 2 {
            seq![2i64, 3i64]
        } else if current < 3 {
            seq![3i64]
        } else {
            Seq::<i64>::empty()
        });
    }
    assert forall|version: i64| #[trigger] pending.contains(version) <==> current < version && 1
        <= version <= 3 by {
        if current < version && 1 <= version <= 3 {
            let at = version - if current < 1 {
                1int
            } else {
                current + 1
            };
            assert(pending[at] == version);
        }
    }
}

} // verus!
