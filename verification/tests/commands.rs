use tgbacky::commands::api::{begin_delete, describe_check, list as api_list, DeleteStep};
use tgbacky::commands::batch::{ChatOutcome, ExportBatch};
use tgbacky::commands::chats::{
    display_title, display_username, list as chat_list, reset_question, reset_summary,
    tracked_files,
};
use tgbacky::commands::doctor::{
    examine, heading, not_signed_in, profile_root, DoctorCommand, DoctorFacts, FolderFacts,
    Platform, StateDbFacts,
};
use tgbacky::commands::export::{
    export_credential_label, export_plan_prelude, export_prelude, format_media_filter,
    format_worker_setting, interrupted_line, run_artifact_path, ExportCommand, ExportPlanCommand,
};
use tgbacky::commands::profiles::{
    current, delete_question, list as profile_list, use_profile, ProfileEntry,
};
use tgbacky::commands::recover::{describe_file, describe_summary, stale_age_ms};
use tgbacky::commands::runs::{format_run_status, list as run_list, truncate};
use tgbacky::commands::verify::{
    check_record, not_authorized, resolve_verify_chat, CheckStep, FileFacts, Finding, ProblemKind,
    VerifyChatStep, VerifyCommand, VerifyReport,
};
use tgbacky::config::{
    AppConfig, CredentialSource, DownloadConcurrencyOrigin, LogLevel, ProfileLayout, ProfileSource,
};
use tgbacky::date::Timestamp;
use tgbacky::error::AppError;
use tgbacky::hashing::FileHasher;
use tgbacky::naming::in_order;
use tgbacky::onboarding::{next_steps, signed_in, Onboarding, Purpose};
use tgbacky::recovery::{RecoverySummary, StaleTempFile};
use tgbacky::report::RunOutcome;
use tgbacky::secrets::{
    ApiCredentialCheck, ApiCredentialProfile, CredentialStorageStatus,
};
use tgbacky::storage::{RunRecord, RunStatus, StoredChatRecord, StoredMediaRecord};
use tgbacky::types::{ChatKind, ChatSummary, FilenameMode, MediaFilter, MediaKind, MediaStatus};

fn config() -> AppConfig {
    AppConfig {
        profile: "work".to_string(),
        api_profile: "default".to_string(),
        profile_source: ProfileSource::Explicit,
        credential_source: CredentialSource::Absent,
        api_id: None,
        api_hash: None,
        session_path: "/p/session.db".to_string(),
        db_path: "/p/state.db".to_string(),
        download_dir: "/d".to_string(),
        run_artifact_dir: "/a".to_string(),
        log_level: LogLevel::Error,
        retry_count: 1,
        retry_backoff_ms: 1,
        download_stall_timeout_secs: 1,
        media_filter: MediaFilter::all(),
        filename_mode: FilenameMode::Stable,
        temp_extension: ".part".to_string(),
        request_delay_ms: 1,
        download_delay_ms: 1,
        flood_sleep_threshold_secs: 5,
        jitter_ms: 0,
        download_concurrency: 4,
        download_concurrency_origin: DownloadConcurrencyOrigin::Auto,
        cleanup_stale_parts_on_start: false,
        stale_part_min_age_hours: 12,
        verbose_dependency_logs: false,
    }
}

fn moment() -> Timestamp {
    Timestamp::new(1_767_312_000, 0).expect("in range")
}

fn record(path: &str, size: Option<i64>, status: MediaStatus) -> StoredMediaRecord {
    StoredMediaRecord {
        chat_id: 1,
        message_id: 1,
        message_date: moment(),
        kind: MediaKind::Photo,
        telegram_media_key: "photo:1".to_string(),
        status,
        local_path: path.to_string(),
        file_size_bytes: size,
        sha256: None,
        error_message: None,
    }
}

#[test]
fn display_title_names_missing_user() {
    assert_eq!(display_title(ChatKind::User, 42, ""), "(no title; user id 42)");
}

#[test]
fn display_username_hides_empty_values() {
    assert_eq!(display_username(None), "-");
    assert_eq!(display_username(Some("")), "-");
    assert_eq!(display_username(Some("alice")), "alice");
}

#[test]
fn artifact_path_suffix_tracks_outcome() {
    let base = "/tmp/artifacts";
    let success = run_artifact_path(base, 1, RunOutcome::Succeeded);
    let failed = run_artifact_path(base, 1, RunOutcome::Failed);
    assert!(success.ends_with("run_000001_success.json"));
    assert!(failed.ends_with("run_000001_failed.json"));
}

#[test]
fn artifact_paths_stand_in_the_folder() {
    assert_eq!(
        run_artifact_path("/tmp/artifacts", 1_234_567, RunOutcome::Interrupted),
        "/tmp/artifacts/run_1234567_interrupted.json"
    );
    assert_eq!(run_artifact_path("a", -7, RunOutcome::Failed), "a/run_-00007_failed.json");
}

#[test]
fn titles_of_other_kinds_are_named_too() {
    assert_eq!(display_title(ChatKind::Group, -5, "  "), "(no title; group id -5)");
    assert_eq!(display_title(ChatKind::Supergroup, 5, ""), "(no title; supergroup id 5)");
    assert_eq!(display_title(ChatKind::Channel, 5, ""), "(no title; channel id 5)");
    assert_eq!(display_title(ChatKind::Channel, 5, " News "), "News");
    assert_eq!(display_username(Some("  ")), "-");
}

#[test]
fn chats_are_listed_with_a_note() {
    let chats = vec![
        ChatSummary {
            id: -1001,
            title: "News".to_string(),
            username: Some("news".to_string()),
            kind: ChatKind::Channel,
            handle: 0u32,
        },
        ChatSummary { id: 7, title: String::new(), username: None, kind: ChatKind::User, handle: 1 },
    ];
    assert_eq!(
        chat_list(&chats),
        vec![
            "         chat_id  type          username                  title",
            "           -1001  channel       news                      News",
            "               7  user          -                         (no title; user id 7)",
            "",
            "Note: 1 chat(s) have no display name from Telegram; use chat_id.",
        ]
    );
    let none: Vec<ChatSummary<u32>> = Vec::new();
    assert_eq!(chat_list(&none).len(), 1);
}

#[test]
fn tracked_files_are_listed_once() {
    let records = vec![
        record("/d/b.jpg", None, MediaStatus::Downloaded),
        record("/d/a.jpg", None, MediaStatus::Failed),
        record("/d//b.jpg", None, MediaStatus::Downloaded),
    ];
    assert_eq!(
        tracked_files(&records, ".part"),
        vec!["/d/a.jpg", "/d/a.jpg.part", "/d/b.jpg", "/d/b.jpg.part"]
    );
}

fn verify(record: StoredMediaRecord, deep: bool, facts: FileFacts, content: &[u8]) -> Finding {
    match check_record(record, true, deep) {
        CheckStep::Inspect(pending) => match pending.on_facts(facts) {
            CheckStep::Hash(pending) => {
                let mut hasher = FileHasher::new();
                hasher.update(content);
                pending.on_hash(hasher.finish())
            }
            CheckStep::Done(finding) => finding,
            CheckStep::Inspect(_) => panic!("inspected twice"),
        },
        CheckStep::Done(finding) => finding,
        CheckStep::Hash(_) => panic!("hashed unseen"),
    }
}

#[test]
fn verify_records_catches_missing_and_size_mismatch() {
    let mut report = VerifyReport::new(4, false);
    let findings = vec![
        verify(record("ok.jpg", Some(4), MediaStatus::Downloaded), false, FileFacts::File(4), b""),
        verify(record("bad.jpg", Some(4), MediaStatus::Downloaded), false, FileFacts::File(1), b""),
        verify(
            record("missing.jpg", Some(1), MediaStatus::Downloaded),
            false,
            FileFacts::Missing("not found".to_string()),
            b"",
        ),
        verify(record("failed.jpg", None, MediaStatus::Failed), false, FileFacts::Unreadable, b""),
    ];
    for finding in findings {
        report.add(finding);
    }
    assert_eq!(report.ok, 1);
    assert_eq!(report.size_mismatch, 1);
    assert_eq!(report.missing, 1);
    assert_eq!(report.failed_status, 1);
    assert_eq!(report.problems.len(), 3);
    assert!(report.problems.iter().any(|problem| problem.problem.as_str() == "size_mismatch"
        && problem.local_path == "bad.jpg"
        && problem.expected_size_bytes == Some(4)
        && problem.actual_size_bytes == Some(1)));
    assert_eq!(report.problem_count(), 3);
    assert_eq!(
        report.outcome().unwrap_err().message(),
        "runtime error: verification found 3 problem(s)"
    );
}

#[test]
fn deep_verify_accepts_size_mismatch_when_hash_matches() {
    let mut hasher = FileHasher::new();
    hasher.update(b"x");
    let mut item = record("normalized.jpg", Some(4), MediaStatus::Downloaded);
    item.sha256 = Some(hasher.finish());

    let mut report = VerifyReport::new(1, true);
    report.add(verify(item, true, FileFacts::File(1), b"x"));

    assert_eq!(report.ok, 1);
    assert_eq!(report.size_mismatch, 0);
    assert_eq!(report.hash_mismatch, 0);
    assert!(report.problems.is_empty());
    assert!(report.outcome().is_ok());
}

#[test]
fn deep_verify_reports_other_contents() {
    let mut item = record("changed.jpg", Some(1), MediaStatus::Downloaded);
    item.sha256 = Some("00".to_string());
    match verify(item, true, FileFacts::File(1), b"abc") {
        Finding::Problem(problem) => {
            assert_eq!(problem.problem, ProblemKind::HashMismatch);
            assert_eq!(problem.expected_sha256.as_deref(), Some("00"));
            assert_eq!(
                problem.actual_sha256.as_deref(),
                Some("ba7816bf8f01cfea414140de5dae2223b00361a396177a9cb410ff61f20015ad")
            );
        }
        other => panic!("{other:?}"),
    }
}

#[test]
fn every_record_is_counted_once() {
    let mut report = VerifyReport::new(6, false);
    let steps = vec![
        check_record(record("out.jpg", None, MediaStatus::Downloaded), false, false),
        check_record(record("p.jpg", None, MediaStatus::Pending), true, false),
        check_record(record("l.jpg", None, MediaStatus::Downloading), true, false),
    ];
    for step in steps {
        match step {
            CheckStep::Done(finding) => report.add(finding),
            other => panic!("{other:?}"),
        }
    }
    report.add(verify(
        record("dir", None, MediaStatus::Downloaded),
        false,
        FileFacts::NotFile(40),
        b"",
    ));
    report.add(verify(
        record("locked", None, MediaStatus::SkippedExisting),
        false,
        FileFacts::Unreadable,
        b"",
    ));
    let facts = FileFacts::File(9);
    report.count_bytes(&facts);
    report.count_bytes(&FileFacts::NotFile(40));
    report.add(verify(record("ok", Some(-1), MediaStatus::Downloaded), false, facts, b""));
    assert_eq!(report.outside_output_root, 1);
    assert_eq!(report.pending_status, 2);
    assert_eq!(report.unreadable, 2);
    assert_eq!(report.ok, 1);
    assert_eq!(report.checked_bytes, 9);
    assert_eq!(
        report.outside_output_root as u128 + report.ok as u128 + report.problem_count(),
        report.total_tracked as u128
    );
}

#[test]
fn verify_report_for_people() {
    let mut report = VerifyReport::new(1, false);
    report.chat_id = 5;
    report.chat_title = Some("Demo".to_string());
    report.duration_ms = 1_234;
    report.add(verify(
        record("/d/x.jpg", Some(4), MediaStatus::Downloaded),
        false,
        FileFacts::File(1),
        b"",
    ));
    assert_eq!(
        report.human(),
        "Verify report\n\
         Chat              : Demo (5)\n\
         Mode              : fast\n\
         Total tracked     : 1\n\
         Outside --out     : 0\n\
         OK                : 0\n\
         Missing           : 0\n\
         Size mismatch     : 1\n\
         Hash mismatch     : 0\n\
         Failed status     : 0\n\
         Pending status    : 0\n\
         Unreadable        : 0\n\
         Checked bytes     : 0\n\
         Duration          : 1.234s\n\
         \n\
         Problems\n\
         - size_mismatch: message 1, photo, /d/x.jpg (expected 4 bytes, got 1 bytes) (status downloaded)"
    );
    let empty = VerifyReport::new(0, true);
    assert!(empty.human().starts_with("Verify report\nChat              : unknown (0)\nMode              : deep\n"));
}

#[test]
fn verify_finds_chats_offline_first() {
    let known = StoredChatRecord {
        chat_id: 9,
        title: "Demo".to_string(),
        username: None,
        kind: "channel".to_string(),
    };
    match resolve_verify_chat("@demo", Some(known), false, false).expect("known") {
        VerifyChatStep::Known(chat) => {
            assert_eq!(chat.chat_id, 9);
            assert_eq!(chat.title, "Demo");
        }
        VerifyChatStep::AskTelegram => panic!("known chat"),
    }
    assert_eq!(
        resolve_verify_chat("-100", None, true, true).unwrap_err().message(),
        "chat resolution failed: chat `-100` is not known in the local state DB; run an export first"
    );
    assert_eq!(
        resolve_verify_chat("@demo", None, true, false).unwrap_err().message(),
        "chat resolution failed: chat `@demo` is not known locally; use a numeric chat id for \
         offline verify or run `tgbacky auth` first"
    );
    assert!(matches!(
        resolve_verify_chat("@demo", None, true, true),
        Ok(VerifyChatStep::AskTelegram)
    ));
    assert_eq!(
        not_authorized("work").message(),
        "authentication failed: profile `work` is not authorized; run `tgbacky auth --profile work`"
    );
    let command =
        VerifyCommand { chat: "@demo".to_string(), out_dir: None, deep: true, json: false };
    assert!(command.deep && !command.json && command.out_dir.is_none());
}

fn run(id: i64, title: Option<&str>) -> RunRecord {
    RunRecord {
        id,
        operation: "export".to_string(),
        requested_chat: Some("@demo".to_string()),
        chat_id: None,
        chat_title: title.map(|title| title.to_string()),
        output_dir: None,
        status: RunStatus::Interrupted,
        scanned_messages: 0,
        media_found: 0,
        downloaded: 12,
        skipped_existing: 0,
        failed: 3,
        flood_wait_count: 0,
        flood_sleep_ms_total: 0,
        last_checkpoint_message_id: None,
        error_message: Some("boom".to_string()),
        artifact_path: None,
        started_at: "2026-01-02T03:04:05+00:00".to_string(),
        finished_at: None,
    }
}

#[test]
fn runs_are_listed() {
    assert_eq!(
        run_list(&vec![run(7, Some("A very long chat title"))]),
        vec![
            "run_id  status     operation     chat                  dl    fail  started_at",
            "     7  interrupt  export        A very long cha~      12       3  2026-01-02T03:04:05+00:00",
            "         error: boom",
        ]
    );
    let mut other = run(8, None);
    other.error_message = None;
    other.artifact_path = Some("/a/run.json".to_string());
    let lines = run_list(&vec![other]);
    assert!(lines[1].contains("@demo"));
    assert_eq!(lines[2], "         artifact: /a/run.json");
    assert_eq!(format_run_status(RunStatus::Succeeded), "succeeded");
}

#[test]
fn long_values_are_cut() {
    assert_eq!(truncate("abc", 3), "abc");
    assert_eq!(truncate("abcd", 3), "ab~");
    assert_eq!(truncate("abcd", 1), "a");
    assert_eq!(truncate("abcd", 0), "");
    assert_eq!(truncate("приветик", 6), "приве~");
}

#[test]
fn stale_parts_are_described() {
    let file = StaleTempFile { path: "/d/x.part".to_string(), age_ms: 61_999 };
    assert_eq!(describe_file(&file), "/d/x.part  age=61s");
    let summary = RecoverySummary {
        root: "/d".to_string(),
        stale_files: vec![file],
        scanned_files: 5,
        removed: 1,
        unreadable_entries: 2,
    };
    assert_eq!(
        describe_summary(&summary),
        "stale partials: 1 found, 1 removed, 5 files scanned, 2 unreadable entries under /d"
    );
    assert_eq!(stale_age_ms(12), 43_200_000);
    assert_eq!(stale_age_ms(u64::MAX), u64::MAX);
}

fn facts() -> DoctorFacts {
    DoctorFacts {
        session_exists: true,
        state_db: StateDbFacts::Schema(3),
        downloads: FolderFacts::Usable,
        artifacts: FolderFacts::Missing,
        credentials: Ok(CredentialStorageStatus::LocalFile),
        keychain_persistent: false,
        keychain_backend: "entry-only",
    }
}

#[test]
fn doctor_passes_a_healthy_profile() {
    let report = examine(&config(), &facts());
    assert_eq!(
        report.lines,
        vec![
            "session DB        : ok",
            "state DB          : ok (schema v3)",
            "downloads dir     : ok",
            "artifacts dir     : not created yet",
        ]
    );
    assert!(report.failures.is_empty());
    assert!(report.warnings.is_empty());
    assert!(report.outcome().is_ok());
    assert_eq!(report.verdict(), "Doctor result     : ok");
    assert_eq!(profile_root(&config()), "/p");
    assert!(!DoctorCommand { live: false }.live);
}

#[test]
fn doctor_names_what_is_wrong() {
    let bad = DoctorFacts {
        session_exists: false,
        state_db: StateDbFacts::Unreadable("locked".to_string()),
        downloads: FolderFacts::ReadOnly,
        artifacts: FolderFacts::Unreadable("denied".to_string()),
        credentials: Err("broken".to_string()),
        ..facts()
    };
    let report = examine(&config(), &bad);
    assert_eq!(
        report.failures,
        vec![
            "credentials are not readable: broken",
            "session DB does not exist at /p/session.db",
            "state DB at /p/state.db is not readable: locked",
            "no Telegram API credentials configured for API profile `default`",
        ]
    );
    assert_eq!(
        report.warnings,
        vec![
            "downloads dir at /d is read-only",
            "artifacts dir at /a is unreadable: denied",
            "OS keychain backend is not persistent (entry-only)",
        ]
    );
    assert_eq!(
        report.outcome().unwrap_err().message(),
        "invalid configuration: doctor found local configuration failures"
    );
    assert_eq!(report.verdict(), "Doctor result     : ok (with warnings)");
    let missing = DoctorFacts {
        state_db: StateDbFacts::Missing,
        downloads: FolderFacts::NotFolder,
        ..facts()
    };
    let report = examine(&config(), &missing);
    assert_eq!(report.failures, vec!["state DB does not exist at /p/state.db"]);
    assert_eq!(report.warnings, vec!["downloads dir at /d is not a directory"]);
    assert_eq!(
        not_signed_in("work").message(),
        "authentication failed: profile `work` has a session, but it is not authorized"
    );
}

#[test]
fn doctor_roots_relative_sessions() {
    let mut relative = config();
    relative.session_path = "session.db".to_string();
    assert_eq!(profile_root(&relative), "");
    relative.session_path = "/".to_string();
    assert_eq!(profile_root(&relative), ".");
}

fn export_command() -> ExportCommand {
    ExportCommand {
        chats: vec!["@demo".to_string()],
        out_dir: "/out".to_string(),
        resume: true,
        verbose_progress: false,
        media_filter: MediaFilter::all(),
        since_id: None,
        until_id: None,
        date_from: None,
        date_to: None,
        limit: None,
        json_report: false,
        rescan: false,
    }
}

#[test]
fn exports_are_announced() {
    let command = export_command();
    let options = command.options("@demo");
    let lines = export_prelude(&config(), &options, None);
    assert_eq!(
        lines,
        vec![
            "Starting export",
            "Profile           : work (explicit)",
            "API profile       : default",
            "API credentials   : none",
            "Session           : /p/session.db",
            "State DB          : /p/state.db",
            "Chat              : @demo",
            "Output directory  : /out",
            "Mode              : automatic sync",
            "Scope             : entire chat history",
            "Media types       : photo, image_doc, video, animation, audio, voice, document",
            "Download workers  : 4 (auto-detected)",
            "Compatibility      : --resume is now the default behavior and can be omitted",
            "Behavior          : tgbacky resumes from saved checkpoint when available; use --rescan to force a full history pass",
            "",
        ]
    );
    let rescan = ExportCommand { resume: false, rescan: true, ..export_command() };
    assert_eq!(export_prelude(&config(), &rescan.options("@demo"), None).len(), 13);
}

#[test]
fn plans_are_announced() {
    let command = ExportPlanCommand {
        chat: "@demo".to_string(),
        out_dir: "/out".to_string(),
        media_filter: MediaFilter::all(),
        since_id: None,
        until_id: Some(9),
        date_from: None,
        date_to: None,
        limit: None,
        rescan: false,
        save_queue: true,
        json: false,
    };
    let options = command.options();
    assert!(!options.resume);
    let lines = export_plan_prelude(&config(), &options, None, command.save_queue);
    assert_eq!(lines[0], "Planning export");
    assert_eq!(lines[8], "Mode              : bounded scan");
    assert_eq!(lines[11], "Persistence       : save pending queue");
    assert_eq!(lines.len(), 13);
    let dry = export_plan_prelude(&config(), &options, None, false);
    assert_eq!(dry[11], "Persistence       : dry-run only");
}

#[test]
fn credentials_of_a_run_are_named_by_their_storage() {
    let mut used = config();
    used.credential_source = CredentialSource::Runtime;
    assert_eq!(
        export_credential_label(&used, Some(CredentialStorageStatus::Keychain)),
        "keychain"
    );
    assert_eq!(export_credential_label(&used, Some(CredentialStorageStatus::Absent)), "runtime");
    assert_eq!(export_credential_label(&used, None), "runtime");
    used.credential_source = CredentialSource::Flags;
    assert_eq!(export_credential_label(&used, Some(CredentialStorageStatus::Keychain)), "flags");
    assert_eq!(format_worker_setting(8, DownloadConcurrencyOrigin::Cli), "8 (from --workers)");
    let mut filter = MediaFilter::none();
    filter.insert(MediaKind::Voice);
    filter.insert(MediaKind::Photo);
    assert_eq!(format_media_filter(&filter), "photo, voice");
    assert_eq!(interrupted_line(Some(12)), "Interrupted: checkpoint preserved at 12");
    assert_eq!(interrupted_line(None), "Interrupted: checkpoint preserved at none");
}

fn batch(names: &[&str]) -> ExportBatch {
    ExportBatch::new(names.iter().map(|name| name.to_string()).collect()).expect("batch")
}

#[test]
fn a_batch_goes_on_after_a_failure() {
    let mut all = batch(&["@one", "@two", "@three"]);
    assert_eq!(all.next().as_deref(), Some("@one"));
    all = all.on_outcome(ChatOutcome::Succeeded);
    assert_eq!(all.next().as_deref(), Some("@two"));
    all = all.on_outcome(ChatOutcome::Failed(AppError::Runtime("boom".to_string())));
    assert_eq!(all.next().as_deref(), Some("@three"));
    all = all.on_outcome(ChatOutcome::Succeeded);
    assert_eq!(all.next(), None);
    assert_eq!(
        all.summary(),
        vec!["Batch summary", "- @one: ok", "- @two: failed: runtime error: boom", "- @three: ok"]
    );
    let error = all.finish().unwrap_err();
    assert_eq!(error.message(), "runtime error: 1 of 3 chats failed");
    assert_eq!(error.exit_code(), 1);
}

#[test]
fn an_interruption_ends_a_batch() {
    let all = batch(&["@one", "@two"]).on_outcome(ChatOutcome::Interrupted);
    assert_eq!(all.next(), None);
    assert_eq!(all.summary(), vec!["Batch summary", "- @one: interrupted"]);
    assert_eq!(all.finish().unwrap_err().exit_code(), 130);
}

#[test]
fn a_single_chat_fails_with_its_own_error() {
    let one = batch(&["@one"])
        .on_outcome(ChatOutcome::Failed(AppError::ChatResolution("gone".to_string())));
    assert!(one.summary().is_empty());
    assert_eq!(one.finish().unwrap_err().exit_code(), 4);
    let good = batch(&["@one"]).on_outcome(ChatOutcome::Succeeded);
    assert!(good.finish().is_ok());
    assert_eq!(
        ExportBatch::new(Vec::new()).unwrap_err().message(),
        "invalid arguments: --chat must be given at least once"
    );
}

#[test]
fn profiles_are_listed_and_shown() {
    let entries = vec![
        ProfileEntry { name: "a".to_string(), session: true, state: true, downloads: false },
        ProfileEntry { name: "b".to_string(), session: false, state: false, downloads: false },
    ];
    assert_eq!(
        profile_list("/data/profiles", &entries, &Some("b".to_string())),
        vec![
            "Profiles root      : /data/profiles",
            "a  session=yes state=yes downloads=no",
            "b *  session=no state=no downloads=no",
        ]
    );
    assert_eq!(profile_list("/r", &Vec::new(), &None)[1], "No profiles found.");
    let layout = ProfileLayout::new("/data", "a");
    let lines = use_profile("a", &layout, "default", CredentialStorageStatus::Absent, false, false);
    assert_eq!(lines[0], "Current profile set to `a`.");
    assert_eq!(lines[7], "");
    assert_eq!(lines[8], "Warning: this profile directory does not exist yet.");
    assert_eq!(lines[9], "Warning: no Telegram session DB exists for this profile yet.");
    assert_eq!(lines[10], "Warning: no default Telegram API credentials are stored yet.");
    assert_eq!(lines[13], "tgbacky auth --profile a");
    let calm = use_profile("a", &layout, "default", CredentialStorageStatus::Keychain, true, true);
    assert_eq!(calm.len(), 10);
    let shown = current("a", &layout, "default", CredentialStorageStatus::Keychain);
    assert_eq!(shown[0], "Current profile   : a");
    assert_eq!(shown[7], "API credentials   : keychain");
    let names: Vec<String> = vec!["b".to_string(), "Z".to_string(), "a".to_string()];
    assert_eq!(in_order(&names), vec!["Z", "a", "b"]);
}

#[test]
fn api_profiles_are_listed() {
    let entries = vec![ApiCredentialProfile {
        name: "default".to_string(),
        status: CredentialStorageStatus::LocalFile,
        is_default: true,
    }];
    assert_eq!(
        api_list(&entries),
        vec![
            "name                  storage             default",
            "default               local-file          yes",
        ]
    );
}

#[test]
fn api_profiles_are_described_without_secrets() {
    let check = ApiCredentialCheck {
        status: CredentialStorageStatus::Absent,
        local_path: "/data/api-credentials/work.json".to_string(),
        keychain_backend: "entry-only",
        keychain_readable: false,
        keychain_message: "keychain entry not found".to_string(),
    };
    assert_eq!(
        describe_check("work", &check, false),
        vec![
            "API profile       : work",
            "Storage           : none",
            "Keychain backend  : entry-only",
            "Keychain readable : no",
            "Keychain detail   : keychain entry not found",
            "Local file        : /data/api-credentials/work.json",
            "Local file exists : no",
        ]
    );
}

#[test]
fn deletions_are_confirmed() {
    match begin_delete("work", CredentialStorageStatus::Absent, true) {
        DeleteStep::Nothing(line) => {
            assert_eq!(line, "API profile `work` has no stored credentials.")
        }
        other => panic!("{other:?}"),
    }
    match begin_delete("work", CredentialStorageStatus::Keychain, false) {
        DeleteStep::Confirm(lines) => assert_eq!(
            lines,
            vec!["Delete API credentials `work`?", "Storage           : keychain"]
        ),
        other => panic!("{other:?}"),
    }
    assert!(matches!(
        begin_delete("work", CredentialStorageStatus::Keychain, true),
        DeleteStep::Delete
    ));
    let lines = delete_question("a", &ProfileLayout::new("/data", "a"));
    assert_eq!(lines[0], "Delete profile `a`?");
    assert_eq!(lines[2], "- /data/profiles/a/session.db");
    assert_eq!(lines[6], "- profile root /data/profiles/a");
    assert_eq!(lines.len(), 8);
}

#[test]
fn resets_are_announced_and_summed_up() {
    let chat = ChatSummary {
        id: -7,
        title: " Demo ".to_string(),
        username: None,
        kind: ChatKind::Channel,
        handle: (),
    };
    assert_eq!(
        reset_question(&chat, true, 3, false),
        vec![
            "Reset chat `Demo` (-7)?",
            "- checkpoint present: yes",
            "- tracked media rows: 3",
            "- tracked files will be deleted: yes",
        ]
    );
    assert_eq!(
        reset_summary(&chat, false, 3, 2),
        vec![
            "Reset chat `Demo` (-7)",
            "Removed media rows : 3",
            "Removed checkpoint : no",
            "Removed files      : 2",
            "Next export for this chat will start from scratch.",
        ]
    );
}

#[test]
fn doctor_begins_with_the_profile() {
    let platform = Platform { version: "0.2.0", os: "linux", arch: "x86_64" };
    let lines = heading(&config(), &facts(), &platform);
    assert_eq!(lines[0], "tgbacky doctor");
    assert_eq!(lines[2], "Platform          : linux x86_64");
    assert_eq!(lines[3], "Profile           : work (explicit)");
    assert_eq!(lines[4], "Profile root      : /p");
    assert_eq!(lines[10], "API credentials   : local-file");
    assert_eq!(lines[11], "Keychain backend  : entry-only");
    assert_eq!(lines[12], "");
    assert_eq!(lines.len(), 13);
}

#[test]
fn sign_ins_end_with_what_comes_next() {
    let mut way = Onboarding::new(Purpose::Command, true);
    way.on_connected(true);
    assert_eq!(
        signed_in(&way, "work", "/p/session.db"),
        vec!["Found an already authorized Telegram session for profile `work`."]
    );
    let mut way = Onboarding::new(Purpose::SignIn, true);
    way.on_connected(true);
    assert_eq!(
        signed_in(&way, "work", "/p/session.db"),
        vec!["Telegram session for profile `work` is already authorized at /p/session.db."]
    );
    let mut way = Onboarding::new(Purpose::SignIn, true);
    way.on_connected(false);
    way.on_login();
    assert_eq!(
        signed_in(&way, "work", "/p/session.db"),
        vec![
            "Authorization completed successfully for profile `work`.",
            "Session saved to /p/session.db.",
        ]
    );
    let lines = next_steps(&config(), Some("export"));
    assert_eq!(lines[5], "- profile: work");
    assert_eq!(lines[9], "- next step: continue `tgbacky export` with this profile");
    let lines = next_steps(&config(), None);
    assert_eq!(
        lines[9],
        "- next step: use this profile with commands like `tgbacky export --profile work --chat @example`"
    );
}
