use std::collections::VecDeque;

use tgbacky::date::{Date, Timestamp};
use tgbacky::export::processor::{DownloadedFile, MessageProcessor, PlanStep, PlannedMessage};
use tgbacky::export::processor::{settle_download, DownloadJob, MediaPlan};
use tgbacky::export::scope::{empty_checkpoint, should_stop_on_message, within_scope};
use tgbacky::export::session::{Action, ExportSession, StoreWrite};
use tgbacky::fsutil::temp_sidecar_path;
use tgbacky::recovery::{EntryFacts, StaleScan};
use tgbacky::types::{
    ExportOptions, FilenameMode, MediaDescriptor, MediaFilter, MediaKind, ScannedMessage,
};

fn options() -> ExportOptions {
    ExportOptions {
        chat: "@demo".to_string(),
        out_dir: "/out".to_string(),
        resume: false,
        verbose_progress: false,
        media_filter: MediaFilter::all(),
        since_id: None,
        until_id: None,
        date_from: None,
        date_to: None,
        limit: None,
        rescan: false,
    }
}

fn day(text: &str) -> Timestamp {
    Timestamp::from_rfc3339(&format!("{text}T12:00:00+00:00")).expect("moment")
}

#[test]
fn dates_are_ordered_like_days() {
    let earlier = day("2024-02-29").date();
    let later = day("2024-03-01").date();
    assert_eq!(earlier, Date { year: 2024, month: 2, day: 29 });
    assert!(earlier.is_before(later));
    assert!(!later.is_before(earlier));
    assert_eq!(later.end_of_day() - earlier.end_of_day(), 86_400);
    assert_eq!(Date { year: 1969, month: 12, day: 31 }.end_of_day(), 0);
}

#[test]
fn unfinished_downloads_of_an_export_are_found() {
    let part = temp_sidecar_path("/out/demo/photos/a.jpg", ".part");
    assert_eq!(part, "/out/demo/photos/a.jpg.part");
    let mut scan = StaleScan::new("/out", true, ".part", 1_000);
    assert_eq!(scan.next_folder().as_deref(), Some("/out"));
    scan.on_entry(&part, EntryFacts::File { age_ms: 1_000 });
    scan.on_entry("/out/demo/photos/a.jpg", EntryFacts::File { age_ms: 1_000 });
    let found = scan.finish();
    assert_eq!(found.stale_files.len(), 1);
    assert_eq!(found.stale_files[0].path, part);
}

#[test]
fn a_scan_stops_only_where_nothing_in_scope_follows() {
    let mut scope = options();
    scope.since_id = Some(5);
    scope.date_from = Some(Date { year: 2026, month: 1, day: 2 });
    let message = |message_id: i32, date: &str| -> ScannedMessage<u8> {
        ScannedMessage { message_id, date: day(date), media: Vec::new() }
    };
    let history = [
        message(9, "2026-01-04"),
        message(7, "2026-01-03"),
        message(6, "2026-01-02"),
        message(4, "2026-01-01"),
        message(3, "2025-12-31"),
    ];
    let stop = history.iter().position(|message| should_stop_on_message(message, &scope));
    assert_eq!(stop, Some(3));
    assert!(history[..3].iter().all(|message| within_scope(message, &scope)));
    assert!(!history[3..].iter().any(|message| within_scope(message, &scope)));
}

fn photo(message_id: i32) -> ScannedMessage<i32> {
    ScannedMessage {
        message_id,
        date: day("2026-04-05"),
        media: vec![MediaDescriptor {
            kind: MediaKind::Photo,
            telegram_media_key: format!("photo:{message_id}"),
            mime_type: None,
            file_size_bytes: Some(4),
            original_name: None,
            handle: message_id,
        }],
    }
}

fn plan(message: &ScannedMessage<i32>) -> PlannedMessage<i32> {
    let processor = MessageProcessor::new(
        MediaFilter::all(),
        1,
        "Demo",
        "/out",
        "/",
        None,
        FilenameMode::Stable,
        ".part",
    );
    let mut planned = PlannedMessage::new();
    for media in processor.select_media(&message.media) {
        let (mut planner, _) = processor.plan_media(message.message_id, message.date, media);
        let mut step = processor.on_record(&mut planner, None);
        loop {
            step = match step {
                PlanStep::Done(plan) => {
                    planned = planned.include_plan(plan);
                    break;
                }
                _ => processor.on_probe(&mut planner, None, false).expect("path"),
            };
        }
    }
    planned
}

fn first_job(out_dir: &str, current_dir: &str, canonical: Option<String>) -> DownloadJob<i32> {
    let processor = MessageProcessor::new(
        MediaFilter::all(),
        1,
        "Demo",
        out_dir,
        current_dir,
        canonical,
        FilenameMode::Stable,
        ".part",
    );
    let message = photo(7);
    let media = processor.select_media(&message.media).pop().expect("photo");
    let (mut planner, _) = processor.plan_media(message.message_id, message.date, media);
    processor.on_record(&mut planner, None);
    match processor.on_probe(&mut planner, None, false).expect("path") {
        PlanStep::Done(MediaPlan::Queue(job)) => job,
        _ => panic!("expected a job"),
    }
}

#[test]
fn files_are_stored_under_absolute_paths() {
    let job = first_job("./downloads/../media", "/home/me", None);
    assert!(job.pending_record.local_path.starts_with("/home/me/media/demo/"));
    let job = first_job("downloads", "/home/me", Some("/disk/downloads".to_string()));
    assert!(job.pending_record.local_path.starts_with("/disk/downloads/demo/"));
    assert!(job.temp_path.starts_with("/disk/downloads/demo/"));
    let job = first_job("/out", "/home/me", None);
    assert!(job.pending_record.local_path.starts_with("/out/demo/"));
}

#[test]
fn saved_checkpoints_claim_only_settled_messages() {
    let mut session: ExportSession<i32> =
        ExportSession::new(options(), empty_checkpoint(1), None, Vec::new(), 2, 64);
    let mut history: VecDeque<Vec<ScannedMessage<i32>>> =
        VecDeque::from(vec![vec![photo(12), photo(11)], vec![photo(10)], vec![]]);
    let mut running: Vec<DownloadJob<i32>> = Vec::new();
    let mut settled: Vec<i32> = Vec::new();
    let mut turns = 0;
    loop {
        turns += 1;
        assert!(turns < 1_000);
        match session.next(false) {
            Action::Write(StoreWrite::SaveCheckpoint(saved)) => {
                if let Some(cursor) = saved.backfill_cursor_message_id {
                    assert!((cursor..=12).all(|id| settled.contains(&id)));
                }
            }
            Action::FetchHistory { .. } => {
                session.on_messages(history.pop_front().unwrap_or_default());
            }
            Action::Plan(message) => session.on_planned(plan(&message)),
            Action::Start { job, .. } => {
                running.push(job);
                assert!(running.len() <= 2);
            }
            Action::PollDownload => session.on_none_ready(),
            Action::AwaitDownload => {
                let job = running.pop().expect("a running download");
                let file = DownloadedFile {
                    final_path: job.pending_record.local_path.clone(),
                    final_size_bytes: 4,
                    sha256: "cafe".to_string(),
                };
                let record = settle_download(job.pending_record.clone(), Ok(file)).expect("kept");
                settled.push(job.message_id);
                session.on_finished(job, record, 0);
            }
            Action::Finished { last_checkpoint_message_id, .. } => {
                assert_eq!(last_checkpoint_message_id, Some(12));
                break;
            }
            _ => {}
        }
    }
    let counters = session.counters();
    assert_eq!(counters.media_found, 3);
    assert_eq!(
        counters.media_found,
        counters.downloaded + counters.skipped_existing + counters.failed
    );
    assert!(session.durable_checkpoint().backfill_complete);
}
