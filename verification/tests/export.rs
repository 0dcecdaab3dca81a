use std::collections::{BTreeMap, VecDeque};

use tgbacky::date::{Date, Timestamp};
use tgbacky::error::AppError;
use tgbacky::export::plan::{
    check_export_request, check_plan_request, export_scope_hash, media_filter_key, per_kind_json,
    saved_plan, ExportPlanReport, PlanAction, PlanEnding, PlanSession,
};
use tgbacky::export::processor::{
    after_failed_attempt, backoff_delay, collision_variant, download_cancelled, i64_file_size,
    settle_download, validate_download_size, verify_existing_record, DownloadAttempts, DownloadJob,
    DownloadedFile, MessageProcessor, PlanStep, PlannedMessage, RetryDecision,
};
use tgbacky::export::progress::{
    build_progress_message, describe_export_mode, describe_export_scope, download_detail,
    HistoryBatchMeter, ProgressRuntime,
};
use tgbacky::export::scope::{
    empty_checkpoint, messages_to_retry, reached_limit, should_stop_on_message,
    updates_checkpoint, validate_export_options, within_scope,
};
use tgbacky::export::session::{run_outcome, Action, ExportRunOutcome, ExportSession, StoreWrite};
use tgbacky::export::state::{ExportEnd, SavedPlan};
use tgbacky::export::workers::{drain_completed_frontier, AdaptiveConcurrency, MessageFrontier};
use tgbacky::fsutil::{build_media_directory, slugify_chat_title};
use tgbacky::media::build_filename;
use tgbacky::report::{ExportCounters, ExportReportInput, KindCounts};
use tgbacky::storage::{ExportPlanRecord, PersistedMediaItem, StoredMediaRecord};
use tgbacky::types::{
    CheckpointState, ExportOptions, FilenameMode, MediaDescriptor, MediaFilter, MediaKind,
    MediaStatus, PacingStats, ScannedMessage,
};

const OUT: &str = "/out";

fn now() -> Timestamp {
    Timestamp::new(1_775_347_200, 0).expect("in range")
}

fn export_options() -> ExportOptions {
    ExportOptions {
        chat: "@demo".to_string(),
        out_dir: OUT.to_string(),
        resume: false,
        verbose_progress: false,
        media_filter: MediaFilter::all(),
        since_id: None,
        until_id: None,
        date_from: None,
        date_to: None,
        limit: None,
        rescan: false,
    }
}

fn photo_message(message_id: i32, bytes: i64) -> ScannedMessage<i32> {
    ScannedMessage {
        message_id,
        date: now(),
        media: vec![MediaDescriptor {
            kind: MediaKind::Photo,
            telegram_media_key: format!("photo:{message_id}"),
            mime_type: Some("image/jpeg".to_string()),
            file_size_bytes: Some(bytes),
            original_name: None,
            handle: message_id,
        }],
    }
}

fn plain_message(message_id: i32) -> ScannedMessage<i32> {
    ScannedMessage { message_id, date: now(), media: Vec::new() }
}

/// A chat, a state database and a disk that live in memory.
#[derive(Default)]
struct World {
    batches: VecDeque<Vec<ScannedMessage<i32>>>,
    media: Vec<PersistedMediaItem>,
    checkpoint: Option<CheckpointState>,
    superseded: Vec<i64>,
    files: BTreeMap<String, u64>,
    broken: Vec<i32>,
}

fn stored(item: &PersistedMediaItem) -> StoredMediaRecord {
    let item = item.clone();
    StoredMediaRecord {
        chat_id: item.chat_id,
        message_id: item.message_id,
        message_date: item.message_date,
        kind: item.kind,
        telegram_media_key: item.telegram_media_key,
        status: item.status,
        local_path: item.local_path,
        file_size_bytes: item.file_size_bytes,
        sha256: item.sha256,
        error_message: item.error_message,
    }
}

impl World {
    fn commit(&mut self, items: Vec<PersistedMediaItem>) {
        for item in items {
            self.media.retain(|other| {
                other.message_id != item.message_id
                    || other.telegram_media_key != item.telegram_media_key
            });
            self.media.push(item);
        }
    }

    fn retryable(&self) -> Vec<i32> {
        let mut ids: Vec<i32> = self
            .media
            .iter()
            .filter(|item| {
                matches!(
                    item.status,
                    MediaStatus::Pending | MediaStatus::Downloading | MediaStatus::Failed
                )
            })
            .map(|item| item.message_id)
            .collect();
        ids.sort();
        ids.dedup();
        ids.reverse();
        ids
    }

    fn plan(&self, message: ScannedMessage<i32>) -> PlannedMessage<i32> {
        let processor = MessageProcessor::new(
            MediaFilter::all(),
            1,
            "Demo",
            OUT,
            "/",
            None,
            FilenameMode::Stable,
            ".part",
        );
        let mut planned = PlannedMessage::new();
        for media in processor.select_media(&message.media) {
            let known = self
                .media
                .iter()
                .find(|item| item.telegram_media_key == media.telegram_media_key)
                .map(stored);
            let (mut planner, _) = processor.plan_media(message.message_id, message.date, media);
            let mut step = processor.on_record(&mut planner, known);
            loop {
                step = match step {
                    PlanStep::FindRecord => panic!("asked twice"),
                    PlanStep::CheckFile(path) => {
                        let size = self.files.get(&path).copied();
                        processor.on_file(&mut planner, size)
                    }
                    PlanStep::ProbePath(path) => {
                        let owner = self
                            .media
                            .iter()
                            .find(|item| item.local_path == path)
                            .map(|item| item.telegram_media_key.clone());
                        let exists = self.files.contains_key(&path);
                        processor.on_probe(&mut planner, owner, exists).expect("path")
                    }
                    PlanStep::Done(plan) => {
                        planned = planned.include_plan(plan);
                        break;
                    }
                };
            }
        }
        planned
    }

    fn download(&mut self, job: &DownloadJob<i32>) -> PersistedMediaItem {
        let result = if self.broken.contains(&job.handle) {
            Err(AppError::Runtime("broken".to_string()))
        } else {
            let size = job.pending_record.file_size_bytes.unwrap_or(0);
            self.files.insert(job.pending_record.local_path.clone(), size as u64);
            Ok(DownloadedFile {
                final_path: job.pending_record.local_path.clone(),
                final_size_bytes: size,
                sha256: "cafe".to_string(),
            })
        };
        settle_download(job.pending_record.clone(), result).expect("recorded")
    }

    fn export(
        &mut self,
        options: ExportOptions,
        plan: Option<SavedPlan>,
        stop_after: usize,
    ) -> (ExportEnd, Option<i32>, ExportCounters) {
        let checkpoint = self.checkpoint.unwrap_or(empty_checkpoint(1));
        let mut session: ExportSession<i32> =
            ExportSession::new(options, checkpoint, plan, self.retryable(), 3, 64);
        let mut running: VecDeque<DownloadJob<i32>> = VecDeque::new();
        let mut turns = 0;
        loop {
            turns += 1;
            assert!(turns < 10_000, "the export does not end");
            match session.next(turns > stop_after) {
                Action::Continue => {}
                Action::Write(StoreWrite::Commit(items)) => self.commit(items),
                Action::Write(StoreWrite::SaveCheckpoint(saved)) => self.checkpoint = Some(saved),
                Action::Write(StoreWrite::SupersedePlan(id)) => self.superseded.push(id),
                Action::FetchByIds(ids) => {
                    let found = ids.into_iter().map(|id| photo_message(id, 4)).collect();
                    session.on_messages(found);
                }
                Action::LoadRetryRecords(id) => {
                    let records =
                        self.media.iter().filter(|item| item.message_id == id).map(stored).collect();
                    session.on_missing_records(records);
                }
                Action::CountRetryable => {
                    let count = self.retryable().len();
                    session.on_retryable_count(count);
                }
                Action::FetchHistory { .. } => {
                    let batch = self.batches.pop_front().unwrap_or_default();
                    session.on_messages(batch);
                }
                Action::Plan(message) => {
                    let planned = self.plan(message);
                    session.on_planned(planned);
                }
                Action::Start { job, loading } => {
                    assert_eq!(loading.status, MediaStatus::Downloading);
                    self.commit(vec![loading]);
                    running.push_back(job);
                    assert!(running.len() <= 3);
                }
                Action::PollDownload | Action::AwaitDownload => match running.pop_front() {
                    Some(job) => {
                        let record = self.download(&job);
                        session.on_finished(job, record, 0);
                    }
                    None => session.on_none_ready(),
                },
                Action::AbortDownloads => running.clear(),
                Action::Finished { end, last_checkpoint_message_id } => {
                    return (end, last_checkpoint_message_id, session.counters());
                }
            }
        }
    }

    fn make_plan(&mut self, options: ExportOptions, save_queue: bool) -> (PlanSession<i32>, bool) {
        let mut session: PlanSession<i32> = PlanSession::new(options, 1, save_queue);
        loop {
            match session.next(false) {
                PlanAction::Continue => {}
                PlanAction::FetchHistory { .. } => {
                    let batch = self.batches.pop_front().unwrap_or_default();
                    session.on_messages(batch);
                }
                PlanAction::Plan(message) => {
                    let planned = self.plan(message);
                    session.on_planned(planned);
                }
                PlanAction::Commit(items) => self.commit(items),
                PlanAction::Finished { interrupted } => return (session, interrupted),
            }
        }
    }
}

fn world(batches: Vec<Vec<ScannedMessage<i32>>>) -> World {
    World { batches: batches.into_iter().collect(), ..World::default() }
}

#[test]
fn plans_end_as_their_scans_do() {
    let mut demo = world(vec![vec![photo_message(10, 4)], vec![]]);
    let (session, interrupted) = demo.make_plan(export_options(), true);
    assert!(!interrupted);
    assert!(matches!(session.ending(None), PlanEnding::Nothing));
    match session.ending(Some(4)) {
        PlanEnding::Complete(plan) => {
            assert_eq!(plan.id, 4);
            assert_eq!(plan.planned_high_watermark_message_id, Some(10));
            assert!(plan.planned_backfill_complete);
        }
        _ => panic!("expected a completed plan"),
    }
    let mut stopped: PlanSession<i32> = PlanSession::new(export_options(), 1, true);
    while !matches!(stopped.next(true), PlanAction::Finished { .. }) {}
    assert!(matches!(stopped.ending(Some(4)), PlanEnding::Interrupt(4)));
}

#[test]
fn saved_plans_serve_exports_that_go_by_the_checkpoint() {
    let record = || ExportPlanRecord {
        id: 3,
        chat_id: 1,
        profile: "default".to_string(),
        output_dir: OUT.to_string(),
        media_filter: "all".to_string(),
        scope_hash: "x".to_string(),
        planned_high_watermark_message_id: Some(12),
        planned_backfill_cursor_message_id: Some(2),
        planned_backfill_complete: true,
        scanned_messages: 2,
        media_found: 2,
        queued: 2,
        estimated_bytes: 8,
        per_kind_json: "{}".to_string(),
    };
    let plan = saved_plan(&export_options(), Some(record())).expect("plan");
    assert_eq!(plan.id, 3);
    assert_eq!(plan.checkpoint.chat_id, 1);
    assert_eq!(plan.checkpoint.high_watermark_message_id, Some(12));
    assert_eq!(plan.checkpoint.backfill_cursor_message_id, Some(2));
    assert!(plan.checkpoint.backfill_complete);
    assert_eq!(messages_to_retry(&export_options(), vec![9, 8]), vec![9, 8]);
    assert!(saved_plan(&export_options(), None).is_none());

    let mut bounded = export_options();
    bounded.since_id = Some(5);
    assert!(saved_plan(&bounded, Some(record())).is_none());
    assert!(messages_to_retry(&bounded, vec![9, 8]).is_empty());
}

#[test]
fn exports_media_and_writes_report() {
    let mut demo = world(vec![vec![photo_message(10, 4)], vec![]]);
    let (end, last, counters) = demo.export(export_options(), None, 9_999);
    let input = ExportReportInput {
        chat_id: 1,
        chat_title: "Demo".to_string(),
        last_checkpoint_message_id: last,
        output_dir: OUT.to_string(),
        duration_ms: 0,
        counters,
        pacing_stats: PacingStats {
            flood_wait_count: 0,
            flood_sleep_ms_total: 0,
            cooldown_active: false,
        },
    };
    let report = match run_outcome(end, input) {
        ExportRunOutcome::Completed(report) => report,
        ExportRunOutcome::Interrupted(_) => panic!("expected completed outcome"),
    };
    assert_eq!(report.downloaded, 1);
    assert_eq!(report.media_found, 1);
    assert_eq!(report.last_checkpoint_message_id, Some(10));
}

#[test]
fn dry_run_plan_does_not_mutate_database() {
    let mut demo = world(vec![vec![photo_message(10, 4)], vec![]]);
    let (session, interrupted) = demo.make_plan(export_options(), false);
    assert!(!interrupted);
    let report = session.report(1, "Demo", None, 0).expect("plan");
    assert_eq!(report.media_found, 1);
    assert_eq!(report.would_queue, 1);
    assert!(demo.media.is_empty());
    assert!(demo.checkpoint.is_none());
}

#[test]
fn save_queue_writes_pending_media_without_checkpoint() {
    let mut demo = world(vec![vec![photo_message(10, 4)], vec![]]);
    check_plan_request(true, &export_options(), true).expect("request");
    let (session, _) = demo.make_plan(export_options(), true);
    let report = session.report(1, "Demo", Some(1), 0).expect("plan");
    assert_eq!(report.plan_id, Some(1));
    assert_eq!(demo.media.len(), 1);
    assert_eq!(demo.media[0].status, MediaStatus::Pending);
    assert!(demo.checkpoint.is_none());
    let plan = session.completed_plan(1);
    assert_eq!(plan.queued, 1);
    assert_eq!(plan.planned_high_watermark_message_id, Some(10));
    assert_eq!(plan.per_kind_json, "{\"photo\":1}");
    assert_eq!(plan.estimated_bytes, 4);
}

#[test]
fn save_queue_rejects_bounded_scope() {
    let mut options = export_options();
    options.limit = Some(1);
    let error = check_plan_request(true, &options, true).expect_err("bounded save queue should fail");
    assert!(matches!(error, AppError::InvalidArgument(_)));
}

#[test]
fn plan_scope_hash_is_stable() {
    assert_eq!(export_scope_hash(&export_options()), export_scope_hash(&export_options()));
}

#[test]
fn plan_scope_hash_tells_scopes_apart() {
    let mut other = export_options();
    other.limit = Some(5);
    assert_ne!(export_scope_hash(&export_options()), export_scope_hash(&other));
    assert_eq!(
        media_filter_key(&MediaFilter::all()),
        "photo,image_doc,video,animation,audio,voice,document"
    );
}

#[test]
fn export_drains_saved_queue_and_promotes_checkpoint() {
    let mut demo = world(vec![vec![photo_message(10, 4)], vec![]]);
    let (session, _) = demo.make_plan(export_options(), true);
    let plan = session.completed_plan(1);
    let saved = SavedPlan {
        id: 1,
        checkpoint: CheckpointState {
            chat_id: 1,
            high_watermark_message_id: plan.planned_high_watermark_message_id,
            backfill_cursor_message_id: plan.planned_backfill_cursor_message_id,
            backfill_complete: plan.planned_backfill_complete,
        },
    };
    demo.batches = VecDeque::from(vec![vec![photo_message(10, 4)], vec![]]);
    let (end, _, counters) = demo.export(export_options(), Some(saved), 9_999);
    assert_eq!(end, ExportEnd::Completed);
    assert_eq!(counters.downloaded, 1);
    let checkpoint = demo.checkpoint.expect("checkpoint");
    assert_eq!(checkpoint.high_watermark_message_id, Some(10));
    assert!(checkpoint.backfill_complete);
    assert_eq!(demo.media[0].status, MediaStatus::Downloaded);
    assert_eq!(demo.superseded, vec![1]);
}

#[test]
fn automatic_sync_limit_persists_watermark() {
    let mut demo = world(vec![vec![plain_message(5), plain_message(4)]]);
    demo.checkpoint = Some(CheckpointState {
        chat_id: 1,
        high_watermark_message_id: Some(3),
        backfill_cursor_message_id: None,
        backfill_complete: true,
    });
    let mut options = export_options();
    options.limit = Some(1);
    let (end, _, counters) = demo.export(options, None, 9_999);
    assert_eq!(end, ExportEnd::Interrupted);
    assert_eq!(counters.scanned_messages, 1);
    let checkpoint = demo.checkpoint.expect("checkpoint");
    assert_eq!(checkpoint.high_watermark_message_id, Some(5));
}

#[test]
fn wrong_existing_file_does_not_get_trusted() {
    let directory =
        build_media_directory(OUT, slugify_chat_title("Demo").as_str(), MediaKind::Photo, now());
    let file_name = build_filename(
        10,
        now().date(),
        MediaKind::Photo,
        None,
        "photo:10",
        "jpg",
        FilenameMode::Stable,
    );
    let mut demo = world(vec![vec![photo_message(10, 4)], vec![]]);
    demo.files.insert(format!("{directory}/{file_name}"), 5);
    let (end, _, counters) = demo.export(export_options(), None, 9_999);
    assert_eq!(end, ExportEnd::Completed);
    assert_eq!(counters.downloaded, 1);
    assert_eq!(demo.files.len(), 2);
}

#[test]
fn a_second_export_finds_everything_in_place() {
    let mut demo = world(vec![vec![photo_message(10, 4), photo_message(9, 4)], vec![]]);
    demo.export(export_options(), None, 9_999);
    demo.batches = VecDeque::from(vec![vec![photo_message(10, 4), photo_message(9, 4)], vec![]]);
    let mut options = export_options();
    options.rescan = true;
    let (_, _, counters) = demo.export(options, None, 9_999);
    assert_eq!(counters.downloaded, 0);
    assert_eq!(counters.skipped_existing, 2);
    assert_eq!(demo.files.len(), 2);
}

#[test]
fn bounded_exports_leave_the_checkpoint_alone() {
    let mut demo = world(vec![vec![photo_message(10, 4)], vec![]]);
    let mut options = export_options();
    options.since_id = Some(5);
    let (end, _, counters) = demo.export(options, None, 9_999);
    assert_eq!(end, ExportEnd::Completed);
    assert_eq!(counters.downloaded, 1);
    assert!(demo.checkpoint.is_none());
}

#[test]
fn a_failure_counts_once_and_is_tried_again_later() {
    let mut demo = world(vec![vec![photo_message(10, 4), photo_message(9, 4)], vec![]]);
    demo.broken = vec![9];
    let (end, _, counters) = demo.export(export_options(), None, 9_999);
    assert_eq!(end, ExportEnd::Completed);
    assert_eq!((counters.downloaded, counters.failed), (1, 1));
    assert_eq!(demo.retryable(), vec![9]);
    demo.broken.clear();
    demo.batches = VecDeque::from(vec![vec![photo_message(10, 4)]]);
    let (_, _, counters) = demo.export(export_options(), None, 9_999);
    assert_eq!((counters.downloaded, counters.failed), (1, 0));
    assert!(demo.retryable().is_empty());
}

#[test]
fn stopped_exports_pick_up_where_they_were() {
    for stop_after in 0..60 {
        let history = || {
            vec![
                vec![photo_message(10, 4), photo_message(9, 4), photo_message(8, 4)],
                vec![photo_message(7, 4)],
                vec![],
            ]
        };
        let mut demo = world(history());
        demo.export(export_options(), None, stop_after);
        let below = demo.checkpoint.and_then(|saved| saved.backfill_cursor_message_id);
        let finished = demo.checkpoint.map(|saved| saved.backfill_complete).unwrap_or(false);
        let rest: Vec<Vec<ScannedMessage<i32>>> = if finished {
            vec![vec![photo_message(10, 4)]]
        } else {
            let mut batches = history();
            for batch in batches.iter_mut() {
                batch.retain(|message| match below {
                    Some(id) => message.message_id < id,
                    None => true,
                });
            }
            let mut batches: Vec<Vec<ScannedMessage<i32>>> =
                batches.into_iter().filter(|batch| !batch.is_empty()).collect();
            if below.is_some() {
                batches.insert(0, vec![photo_message(10, 4)]);
            }
            batches
        };
        demo.batches = rest.into_iter().collect();
        let (end, _, _) = demo.export(export_options(), None, 9_999);
        assert_eq!(end, ExportEnd::Completed);
        let mut saved: Vec<i32> = demo
            .media
            .iter()
            .filter(|item| {
                matches!(item.status, MediaStatus::Downloaded | MediaStatus::SkippedExisting)
            })
            .map(|item| item.message_id)
            .collect();
        saved.sort();
        assert_eq!(saved, vec![7, 8, 9, 10], "stopped after {stop_after}");
    }
}

#[test]
fn stops_on_date_floor() {
    let message: ScannedMessage<i32> = ScannedMessage {
        message_id: 10,
        date: Timestamp::from_rfc3339("2025-12-20T00:00:00+00:00").expect("date"),
        media: vec![],
    };
    let mut options = export_options();
    options.date_from = Some(Date { year: 2026, month: 1, day: 1 });
    assert!(should_stop_on_message(&message, &options));
}

#[test]
fn scope_bounds_are_kept() {
    let mut options = export_options();
    options.since_id = Some(5);
    options.until_id = Some(8);
    assert!(within_scope(&plain_message(5), &options));
    assert!(within_scope(&plain_message(8), &options));
    assert!(!within_scope(&plain_message(9), &options));
    assert!(should_stop_on_message(&plain_message(4), &options));
    assert!(!updates_checkpoint(&options));
    options.since_id = Some(9);
    assert!(matches!(validate_export_options(&options), Err(AppError::InvalidArgument(_))));
    assert!(matches!(
        check_export_request(false, &export_options()),
        Err(AppError::Authentication(_))
    ));
    let mut limited = export_options();
    limited.limit = Some(2);
    let mut counters = ExportCounters::default();
    assert!(!reached_limit(&limited, &counters));
    counters.scanned_messages = 2;
    assert!(reached_limit(&limited, &counters));
}

#[test]
fn validates_matching_download_size() {
    validate_download_size(4, Some(4)).expect("matching size should pass");
}

#[test]
fn rejects_truncated_download_size() {
    let error = validate_download_size(4, Some(8)).expect_err("size mismatch should fail");
    assert!(error.message().contains("downloaded size mismatch"));
    assert!(validate_download_size(4, None).is_ok());
    assert_eq!(i64_file_size(7).expect("fits"), 7);
    assert!(i64_file_size(u64::MAX).is_err());
}

#[test]
fn retries_wait_twice_as_long() {
    assert_eq!(backoff_delay(1_000, 0), 1_000);
    assert_eq!(backoff_delay(1_000, 1), 2_000);
    assert_eq!(backoff_delay(1_000, 5), 32_000);
    assert_eq!(backoff_delay(2, u32::MAX), u64::MAX);
    assert!(matches!(
        after_failed_attempt(AppError::Runtime("x".to_string()), 1, 3, 10),
        RetryDecision::RetryAfter { delay_ms: 20 }
    ));
    assert!(matches!(
        after_failed_attempt(AppError::Runtime("x".to_string()), 3, 3, 10),
        RetryDecision::GiveUp(AppError::Runtime(_))
    ));
    assert!(matches!(
        after_failed_attempt(download_cancelled(), 0, 3, 10),
        RetryDecision::GiveUp(AppError::Interrupted(_))
    ));
}

#[test]
fn collisions_get_new_names() {
    let first = collision_variant("/o/a.jpg", "photo:1", 1);
    let second = collision_variant("/o/a.jpg", "photo:1", 2);
    assert!(first.starts_with("/o/a_1_"));
    assert!(second.starts_with("/o/a_2_"));
    assert!(first.ends_with(".jpg"));
    assert_ne!(first, second);
}

#[test]
fn describes_automatic_sync_mode() {
    assert_eq!(describe_export_mode(&export_options()), "automatic sync");
}

#[test]
fn describes_rescan_mode() {
    let mut options = export_options();
    options.rescan = true;
    assert_eq!(describe_export_mode(&options), "forced rescan");
}

#[test]
fn describes_scope_with_bounds_and_limit() {
    let mut options = export_options();
    options.since_id = Some(100);
    options.date_to = Some(Date { year: 2026, month: 4, day: 5 });
    options.limit = Some(50);
    assert_eq!(
        describe_export_scope(&options),
        "since message id 100, to 2026-04-05, limit 50 matched messages"
    );
}

#[test]
fn progress_message_includes_cooldown_marker() {
    let message = build_progress_message(
        "automatic sync",
        "downloading",
        &ExportCounters::default(),
        ProgressRuntime {
            worker_limit: 1,
            worker_max: 4,
            active_downloads: 1,
            cooldown_active: true,
            flood_wait_count: 2,
            queued_downloads: 7,
            frontier_depth: 9,
            history_batches_per_sec: None,
            history_messages_per_sec: None,
        },
        None,
        true,
    );
    assert!(message.contains("cooldown=yes"));
    assert!(message.contains("floods=2"));
}

#[test]
fn progress_message_hides_internal_metrics_by_default() {
    let message = build_progress_message(
        "automatic sync",
        "downloading",
        &ExportCounters::default(),
        ProgressRuntime {
            worker_limit: 3,
            worker_max: 8,
            active_downloads: 2,
            cooldown_active: false,
            flood_wait_count: 4,
            queued_downloads: 17,
            frontier_depth: 32,
            history_batches_per_sec: None,
            history_messages_per_sec: None,
        },
        None,
        false,
    );
    assert!(message.contains("pending=17"));
    assert!(message.contains("active=2"));
    assert!(message.contains("workers=3"));
    assert!(!message.contains("worker_max="));
    assert!(!message.contains("frontier="));
    assert!(!message.contains("floods="));
}

#[test]
fn progress_message_includes_history_batch_rate() {
    let message = build_progress_message(
        "automatic sync",
        "scanning history",
        &ExportCounters::default(),
        ProgressRuntime {
            worker_limit: 1,
            worker_max: 4,
            active_downloads: 0,
            cooldown_active: false,
            flood_wait_count: 0,
            queued_downloads: 32,
            frontier_depth: 64,
            history_batches_per_sec: Some(34),
            history_messages_per_sec: None,
        },
        None,
        false,
    );
    assert!(message.contains("history=3.4 batches/s"));
}

#[test]
fn progress_message_includes_history_message_rate() {
    let message = build_progress_message(
        "automatic sync",
        "scanning history",
        &ExportCounters::default(),
        ProgressRuntime {
            worker_limit: 1,
            worker_max: 4,
            active_downloads: 0,
            cooldown_active: false,
            flood_wait_count: 0,
            queued_downloads: 32,
            frontier_depth: 64,
            history_batches_per_sec: Some(34),
            history_messages_per_sec: Some(3120),
        },
        None,
        false,
    );
    assert!(message.contains("312.0 msgs/s"));
    assert!(download_detail(MediaKind::Photo, 7).contains("7"));
}

#[test]
fn history_rates_are_measured() {
    let mut meter = HistoryBatchMeter::default();
    assert_eq!(meter.batches_per_sec(5_000), None);
    meter.observe_batch(100, 0);
    meter.observe_batch(100, 1_000);
    assert_eq!(meter.batches_per_sec(2_000), Some(10));
    assert_eq!(meter.messages_per_sec(2_000), Some(1_000));
}

#[test]
fn history_rates_round_like_floating_point() {
    let shown = |count: usize, ms: u64| {
        let mut meter = HistoryBatchMeter::default();
        meter.observe_batch(count, 0);
        meter.messages_per_sec(ms).expect("started")
    };
    assert_eq!(shown(1, 4_000), 2);
    assert_eq!(shown(3, 4_000), 8);
    assert_eq!(shown(7, 20_000), 3);
    assert_eq!(shown(9, 20_000), 5);
    assert_eq!(shown(1, 0), 10_000);
    assert_eq!(shown(0, 5_000), 0);
    assert_eq!(shown(usize::MAX, 1), u64::MAX);

    let written = |count: usize, ms: u64| {
        let seconds = std::time::Duration::from_millis(ms).as_secs_f64().max(0.001);
        let text = format!("{:.1}", count as f64 / seconds);
        text.replace('.', "").parse::<u64>().expect("digits")
    };
    for count in 0..60 {
        for step in 0..200 {
            for ms in [step, step * 50, step * 1_000, step * 1_237 + 5] {
                assert_eq!(shown(count, ms), written(count, ms), "{count} in {ms} ms");
            }
        }
    }
    for count in [12_345_678, 9_007_199_254_740_993] {
        for ms in [1_800, 86_400_123, 9_007_199_254_740_993_777, u64::MAX] {
            assert_eq!(shown(count, ms), written(count, ms), "{count} in {ms} ms");
        }
    }
}

#[test]
fn failing_downloads_use_up_their_retries() {
    let mut attempts = DownloadAttempts::new(3, 10);
    let mut waits = Vec::new();
    let mut made = 0;
    loop {
        made += 1;
        match attempts.on_failure(AppError::Runtime("x".to_string())) {
            RetryDecision::RetryAfter { delay_ms } => waits.push(delay_ms),
            RetryDecision::GiveUp(error) => {
                assert!(matches!(error, AppError::Runtime(_)));
                break;
            }
        }
    }
    assert_eq!(made, 4);
    assert_eq!(waits, vec![10, 20, 40]);

    let mut attempts = DownloadAttempts::new(3, 10);
    assert!(matches!(
        attempts.on_failure(AppError::Runtime("x".to_string())),
        RetryDecision::RetryAfter { delay_ms: 10 }
    ));
    assert!(matches!(attempts.on_failure(download_cancelled()), RetryDecision::GiveUp(_)));
    assert_eq!(attempts.failed, 1);
}

#[test]
fn tracked_files_are_recognised_by_size() {
    let mut record = stored(&PersistedMediaItem {
        chat_id: 1,
        message_id: 5,
        message_date: now(),
        kind: MediaKind::Photo,
        telegram_media_key: "photo:5".to_string(),
        mime_type: None,
        file_size_bytes: Some(4),
        local_path: "/out/a.jpg".to_string(),
        sha256: None,
        status: MediaStatus::Downloaded,
        error_message: None,
    });
    assert!(verify_existing_record(&record, Some(4)));
    assert!(!verify_existing_record(&record, Some(5)));
    assert!(!verify_existing_record(&record, None));
    record.status = MediaStatus::Failed;
    assert!(verify_existing_record(&record, Some(4)));
    record.file_size_bytes = None;
    assert!(!verify_existing_record(&record, Some(4)));
}

#[test]
fn plans_count_every_file_within_their_limit() {
    let batches = || vec![vec![photo_message(12, 4), photo_message(11, 4)], vec![photo_message(10, 4)]];
    let (session, _) = world(batches()).make_plan(export_options(), false);
    let counters = session.counters();
    assert_eq!(counters.scanned_messages, 3);
    assert_eq!(counters.media_found, 3);
    assert_eq!(counters.would_queue + counters.skipped_existing, 3);
    assert_eq!(counters.per_kind.photo, 3);

    for limit in 0..3 {
        let mut options = export_options();
        options.limit = Some(limit);
        let (session, _) = world(batches()).make_plan(options, false);
        assert_eq!(session.counters().scanned_messages, limit.max(1));
    }
}

#[test]
fn a_flood_wait_leaves_one_worker() {
    let mut workers = AdaptiveConcurrency::new(4);
    assert_eq!(workers.current_limit(), 1);
    for _ in 0..7 {
        workers.observe(0, true);
    }
    assert_eq!(workers.current_limit(), 1);
    workers.observe(0, true);
    assert_eq!(workers.current_limit(), 2);
    workers.constrain_to(9);
    assert_eq!(workers.current_limit(), 4);
    workers.observe(1, true);
    assert_eq!(workers.current_limit(), 1);
    assert_eq!(workers.max_limit(), 4);
}

#[test]
fn checkpoints_wait_for_earlier_messages() {
    let checkpoint = |id: i32| CheckpointState {
        chat_id: 1,
        high_watermark_message_id: Some(10),
        backfill_cursor_message_id: Some(id),
        backfill_complete: false,
    };
    let mut frontiers: VecDeque<MessageFrontier> = VecDeque::from(vec![
        MessageFrontier { message_id: 10, checkpoint: Some(checkpoint(10)), remaining_downloads: 1 },
        MessageFrontier { message_id: 9, checkpoint: Some(checkpoint(9)), remaining_downloads: 0 },
    ]);
    assert!(drain_completed_frontier(&mut frontiers).is_empty());
    frontiers[0].remaining_downloads = 0;
    let saved = drain_completed_frontier(&mut frontiers);
    assert_eq!(saved.len(), 2);
    assert_eq!(saved[1].backfill_cursor_message_id, Some(9));
    assert!(frontiers.is_empty());
}

#[test]
fn plan_counts_are_json() {
    let mut counts = KindCounts::zero();
    counts.add_one(MediaKind::Video);
    counts.add_one(MediaKind::Audio);
    counts.add_one(MediaKind::Video);
    assert_eq!(per_kind_json(&counts), "{\"audio\":1,\"video\":2}");
    assert_eq!(per_kind_json(&KindCounts::zero()), "{}");
}

#[test]
fn plan_report_for_people() {
    let report = ExportPlanReport {
        chat_id: 1,
        chat_title: "Demo".to_string(),
        output_dir: OUT.to_string(),
        mode: "automatic sync".to_string(),
        scope: "entire chat history".to_string(),
        media_filter: vec!["photo".to_string()],
        save_queue: true,
        plan_id: Some(3),
        scanned_messages: 1,
        media_found: 1,
        skipped_existing: 0,
        would_queue: 1,
        estimated_bytes: 4,
        per_kind: Vec::new(),
        duration_ms: 1_500,
    };
    let text = report.human();
    assert!(text.contains("Target chat        : Demo (1)"));
    assert!(text.contains("Plan id            : 3"));
    assert!(text.contains("Duration           : 1.500s"));
    assert!(!text.contains("already"));
}
