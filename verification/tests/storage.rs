use tgbacky::checkpoints::CheckpointTable;
use tgbacky::date::Timestamp;
use tgbacky::error::AppError;
use tgbacky::recovery::{count_removed, EntryFacts, RemovalResult, StaleScan};
use tgbacky::report::{
    format_duration, ExportCounters, ExportReport, ExportReportInput, RunArtifact, RunOutcome,
};
use tgbacky::storage::{
    chat_lookup, checkpoint_from_row, checkpoint_to_row, expect_one_row, export_plan_from_row,
    media_to_row, pending_migrations, plan_figures, require_state_db, run_figures,
    run_record_from_row, stored_media_from_row, strip_at, ChatLookup, CompleteExportPlan, PlanRow,
    PersistedMediaItem, RowUpdate, RunRow, RunStatus,
};
use tgbacky::types::{CheckpointState, MediaKind, MediaStatus, PacingStats};

fn item() -> PersistedMediaItem {
    PersistedMediaItem {
        chat_id: 1,
        message_id: 5,
        message_date: Timestamp::new(1_767_312_000, 123_000_000).expect("in range"),
        kind: MediaKind::Photo,
        telegram_media_key: "photo:1".to_string(),
        mime_type: Some("image/jpeg".to_string()),
        file_size_bytes: Some(123),
        local_path: "/tmp/photo.jpg".to_string(),
        sha256: Some("deadbeef".to_string()),
        status: MediaStatus::Downloaded,
        error_message: None,
    }
}

#[test]
fn persists_checkpoint_roundtrip() {
    let checkpoint = CheckpointState {
        chat_id: 1,
        high_watermark_message_id: Some(42),
        backfill_cursor_message_id: Some(9),
        backfill_complete: false,
    };
    let loaded = checkpoint_from_row(checkpoint_to_row(&checkpoint));
    assert_eq!(loaded.high_watermark_message_id, Some(42));
    assert_eq!(loaded.backfill_cursor_message_id, Some(9));
    assert!(!loaded.backfill_complete);
    assert_eq!(loaded, checkpoint);

    let loaded_media = stored_media_from_row(media_to_row(&item())).expect("media");
    assert_eq!(loaded_media.status, MediaStatus::Downloaded);
    assert_eq!(loaded_media.sha256.as_deref(), Some("deadbeef"));
    assert_eq!(loaded_media.message_date.seconds(), 1_767_312_000);
    assert_eq!(loaded_media.message_date.nanos(), 123_000_000);

    let steps = pending_migrations(0);
    assert_eq!(steps.last().copied(), Some(3));
}

#[test]
fn keeps_checkpoints_separate_per_chat() {
    let mut table = CheckpointTable::from_rows(&[]);
    table.save(&CheckpointState {
        chat_id: 1,
        high_watermark_message_id: Some(10),
        backfill_cursor_message_id: Some(5),
        backfill_complete: false,
    });
    table.save(&CheckpointState {
        chat_id: 2,
        high_watermark_message_id: Some(20),
        backfill_cursor_message_id: Some(8),
        backfill_complete: true,
    });
    let first = table.load(1).expect("first checkpoint");
    let second = table.load(2).expect("second checkpoint");
    assert_eq!(first.high_watermark_message_id, Some(10));
    assert_eq!(second.high_watermark_message_id, Some(20));
    assert!(!first.backfill_complete);
    assert!(second.backfill_complete);
}

#[test]
fn resets_forget_one_checkpoint() {
    let one = CheckpointState {
        chat_id: 1,
        high_watermark_message_id: Some(10),
        backfill_cursor_message_id: Some(3),
        backfill_complete: true,
    };
    let two = CheckpointState {
        chat_id: 2,
        high_watermark_message_id: Some(20),
        backfill_cursor_message_id: Some(5),
        backfill_complete: false,
    };
    let mut table = CheckpointTable::from_rows(&[checkpoint_to_row(&one)]);
    assert_eq!(table.load(1), Some(one));
    assert_eq!(table.load(2), None);
    let row = table.save(&two);
    assert_eq!(row, checkpoint_to_row(&two));
    table.reset(1);
    assert_eq!(table.load(1), None);
    assert_eq!(table.load(2), Some(two));
}

#[test]
fn broken_rows_are_reported() {
    let mut row = media_to_row(&item());
    row.kind = "hologram".to_string();
    assert!(stored_media_from_row(row).is_err());
    let mut row = media_to_row(&item());
    row.status = "lost".to_string();
    assert_eq!(stored_media_from_row(row).expect("read").status, MediaStatus::Failed);
    let mut row = media_to_row(&item());
    row.message_date = "yesterday".to_string();
    assert!(stored_media_from_row(row).is_err());
}

#[test]
fn migrations_go_on_from_a_version() {
    assert_eq!(pending_migrations(0), vec![1, 2, 3]);
    assert_eq!(pending_migrations(1), vec![2, 3]);
    assert!(pending_migrations(3).is_empty());
}

fn report() -> ExportReport {
    let mut counters = ExportCounters::default();
    counters.scanned_messages = 10;
    counters.downloaded = 3;
    counters.skipped_existing = 1;
    for _ in 0..4 {
        counters.record_found(MediaKind::Photo);
    }
    ExportReport::new(ExportReportInput {
        chat_id: 1,
        chat_title: "Demo".to_string(),
        last_checkpoint_message_id: Some(10),
        output_dir: "/out".to_string(),
        duration_ms: 100,
        counters,
        pacing_stats: PacingStats {
            flood_wait_count: 0,
            flood_sleep_ms_total: 0,
            cooldown_active: false,
        },
    })
}

fn run_row() -> RunRow {
    let figures = run_figures(&report());
    RunRow {
        id: 1,
        operation: "export".to_string(),
        requested_chat: Some("@demo".to_string()),
        chat_id: Some(1),
        chat_title: Some("Demo".to_string()),
        output_dir: Some("/out".to_string()),
        status: RunStatus::Succeeded.as_str().to_string(),
        scanned_messages: figures.scanned_messages,
        media_found: figures.media_found,
        downloaded: figures.downloaded,
        skipped_existing: figures.skipped_existing,
        failed: figures.failed,
        flood_wait_count: figures.flood_wait_count,
        flood_sleep_ms_total: figures.flood_sleep_ms_total,
        last_checkpoint_message_id: Some(10),
        error_message: None,
        artifact_path: None,
        started_at: "a".to_string(),
        finished_at: None,
    }
}

#[test]
fn runs_are_read_from_rows() {
    let run = run_record_from_row(run_row());
    assert_eq!(run.status, RunStatus::Succeeded);
    assert_eq!(run.downloaded, 3);
    assert_eq!(run.media_found, 4);
    let mut other = run_row();
    other.status = "paused".to_string();
    assert_eq!(run_record_from_row(other).status, RunStatus::Failed);
    for status in [
        RunStatus::Running,
        RunStatus::Succeeded,
        RunStatus::Interrupted,
        RunStatus::Failed,
    ] {
        assert_eq!(RunStatus::parse(status.as_str()), status);
    }
}

#[test]
fn plans_are_read_from_rows() {
    let plan = CompleteExportPlan {
        id: 2,
        planned_high_watermark_message_id: Some(9),
        planned_backfill_cursor_message_id: Some(1),
        planned_backfill_complete: true,
        scanned_messages: 4,
        media_found: 3,
        queued: 2,
        estimated_bytes: 77,
        per_kind_json: "{}".to_string(),
    };
    let figures = plan_figures(&plan);
    let record = export_plan_from_row(PlanRow {
        id: 2,
        chat_id: 1,
        profile: "default".to_string(),
        output_dir: "/out".to_string(),
        media_filter: "photo".to_string(),
        scope_hash: "h".to_string(),
        planned_high_watermark_message_id: plan.planned_high_watermark_message_id,
        planned_backfill_cursor_message_id: plan.planned_backfill_cursor_message_id,
        planned_backfill_complete: figures.planned_backfill_complete,
        scanned_messages: figures.scanned_messages,
        media_found: figures.media_found,
        queued: figures.queued,
        estimated_bytes: figures.estimated_bytes,
        per_kind_json: plan.per_kind_json,
    });
    assert!(record.planned_backfill_complete);
    assert_eq!(record.queued, 2);
    assert_eq!(record.estimated_bytes, 77);
}

#[test]
fn updates_have_to_hit_one_row() {
    assert!(expect_one_row(RowUpdate::CompletePlan, 4, 1).is_ok());
    assert_eq!(
        expect_one_row(RowUpdate::CompletePlan, 4, 0).unwrap_err().message(),
        "runtime error: export plan 4 was not completed"
    );
    assert_eq!(
        expect_one_row(RowUpdate::ChangePlanStatus, 4, 0).unwrap_err().message(),
        "runtime error: export plan 4 was not updated"
    );
    assert_eq!(
        expect_one_row(RowUpdate::FinishRunSuccess, 4, 0).unwrap_err().message(),
        "runtime error: run record 4 was not updated on success"
    );
    assert_eq!(
        expect_one_row(RowUpdate::FinishRunFailure, 4, 0).unwrap_err().message(),
        "runtime error: run record 4 was not updated on failure"
    );
    assert_eq!(
        expect_one_row(RowUpdate::FinishRunInterrupted, 4, 2).unwrap_err().message(),
        "runtime error: run record 4 was not updated on interruption"
    );
    assert!(require_state_db(true, "/s.db").is_ok());
    assert_eq!(
        require_state_db(false, "/s.db").unwrap_err().message(),
        "invalid configuration: state DB does not exist at /s.db"
    );
}

#[test]
fn chats_are_looked_up_by_id_or_name() {
    assert!(matches!(chat_lookup("-100"), ChatLookup::ById(-100)));
    match chat_lookup(" @demo ") {
        ChatLookup::ByName { username, title } => {
            assert_eq!(username, "demo");
            assert_eq!(title, "@demo");
        }
        other => panic!("{other:?}"),
    }
    assert_eq!(strip_at("@@x"), "@x");
}

#[test]
fn export_report_for_people() {
    assert_eq!(
        report().human(),
        "Target chat        : Demo (1)\n\
         Scanned messages   : 10\n\
         Media found        : 4\n\
         Downloaded         : 3\n\
         Skipped existing   : 1\n\
         Failed             : 0\n\
         Checkpoint         : 10\n\
         Output directory   : /out\n\
         Duration           : 0.100s\n\
         Flood waits        : 0\n\
         Per kind           : photo=4"
    );
    assert_eq!(format_duration(61_005), "61.005s");
}

#[test]
fn artifacts_record_the_outcome() {
    let at = Timestamp::new(0, 0).expect("in range");
    let good = RunArtifact::success(1, "export", Some("@demo".to_string()), report(), at);
    assert_eq!(good.outcome, RunOutcome::Succeeded);
    assert!(good.error.is_none());
    let bad = RunArtifact::failure(2, "export", None, "boom".to_string(), at);
    assert_eq!(bad.outcome, RunOutcome::Failed);
    assert!(bad.report.is_none());
    let cut = RunArtifact::interrupted(3, "export", None, report(), "stop".to_string(), at);
    assert_eq!(cut.outcome, RunOutcome::Interrupted);
    assert_eq!(cut.error.as_deref(), Some("stop"));
}

#[test]
fn exit_codes_tell_errors_apart() {
    let text = || "x".to_string();
    let codes: Vec<u8> = vec![
        AppError::Config(text()).exit_code(),
        AppError::InvalidArgument(text()).exit_code(),
        AppError::Unsupported(text()).exit_code(),
        AppError::Authentication(text()).exit_code(),
        AppError::ChatResolution(text()).exit_code(),
        AppError::Database(text()).exit_code(),
        AppError::Filesystem(text()).exit_code(),
        AppError::Interrupted(text()).exit_code(),
        AppError::Session(text()).exit_code(),
        AppError::Runtime(text()).exit_code(),
        AppError::Telegram(text()).exit_code(),
        AppError::Serialization(text()).exit_code(),
        AppError::FloodWaitExceeded { operation: text(), seconds: 5 }.exit_code(),
    ];
    assert_eq!(codes, vec![2, 2, 2, 3, 4, 5, 6, 130, 1, 1, 1, 1, 1]);
    assert_eq!(
        AppError::FloodWaitExceeded { operation: "fetch".to_string(), seconds: 5 }.message(),
        "telegram asked to wait 5s during fetch; exceeds configured auto-sleep threshold"
    );
    assert_eq!(AppError::Interrupted(text()).message(), "x");
    assert_eq!(AppError::Session(text()).message(), "telegram session storage error: x");
}

#[test]
fn finds_stale_temp_files() {
    let mut scan = StaleScan::new("/root", true, ".part", 0);
    assert_eq!(scan.next_folder().as_deref(), Some("/root"));
    scan.on_entry("/root/old.part", EntryFacts::File { age_ms: 0 });
    scan.on_entry("/root/new.part", EntryFacts::File { age_ms: 0 });
    assert_eq!(scan.next_folder(), None);
    let found = scan.finish();
    assert_eq!(found.stale_files.len(), 2);
    assert_eq!(found.scanned_files, 2);
}

#[test]
fn cleanup_lists_and_removes_stale_parts_in_one_pass() {
    let mut scan = StaleScan::new("/root", true, ".part", 0);
    assert_eq!(scan.next_folder().as_deref(), Some("/root"));
    scan.on_entry("/root/nested", EntryFacts::Folder);
    scan.on_entry("/root/done.jpg", EntryFacts::File { age_ms: 5 });
    assert_eq!(scan.next_folder().as_deref(), Some("/root/nested"));
    scan.on_entry("/root/nested/old.part", EntryFacts::File { age_ms: 5 });
    assert_eq!(scan.next_folder(), None);
    let found = scan.finish();
    let mut removed = 0;
    for _ in &found.stale_files {
        removed = count_removed(removed, RemovalResult::Removed).expect("removed");
    }
    let summary = found.summarize("/root", removed);
    assert_eq!(summary.stale_files.len(), 1);
    assert_eq!(summary.stale_files[0].path, "/root/nested/old.part");
    assert_eq!(summary.scanned_files, 2);
    assert_eq!(summary.removed, 1);
}

#[test]
fn stale_scans_are_sorted_and_mind_the_age() {
    let mut scan = StaleScan::new("/r", true, ".part", 100);
    scan.next_folder();
    scan.on_entry("/r/z.part", EntryFacts::File { age_ms: 100 });
    scan.on_entry("/r/a/b.part", EntryFacts::File { age_ms: 500 });
    scan.on_entry("/r/young.part", EntryFacts::File { age_ms: 99 });
    scan.on_entry("/r/odd\u{fffd}.part", EntryFacts::Unnamed);
    scan.on_entry("/r/locked", EntryFacts::Unreadable);
    scan.on_unreadable();
    let found = scan.finish();
    assert_eq!(found.scanned_files, 4);
    let paths: Vec<&str> = found.stale_files.iter().map(|file| file.path.as_str()).collect();
    assert_eq!(paths, vec!["/r/a/b.part", "/r/z.part"]);
    assert_eq!(found.unreadable_entries, 2);
    assert_eq!(StaleScan::new("/none", false, ".part", 0).next_folder(), None);
    assert_eq!(count_removed(3, RemovalResult::AlreadyGone).expect("gone"), 3);
    assert!(count_removed(3, RemovalResult::Failed("denied".to_string())).is_err());
}
