use tgbacky::cli::{
    apply_runtime_tuning, apply_workers, asks_for_profile, build_config_overrides,
    resolve_media_filter, ProfileArgs, RuntimeTuningArgs, TelegramApiArgs,
};
use tgbacky::config::{
    auto_scan_ahead_messages, clear_current_profile_if_matches, current_profile,
    default_download_concurrency, normalize_temp_extension, parse_log_level, parse_media_filter,
    profile_layout, profiles_root, resolve_profile_from_values, sanitize_profile,
    sanitize_profile_name, set_current_profile, AppConfig, CanonicalPaths, ConfigOverrides,
    CredentialSource, DownloadConcurrencyOrigin, Environment, LogLevel, PendingConfig,
    ProfileSource,
};
use tgbacky::environment::EnvValue;
use tgbacky::error::AppError;
use tgbacky::secrets::{CredentialStorageStatus, TelegramCredentials};
use tgbacky::types::{FilenameMode, MediaFilter, MediaKind};

fn base_config() -> AppConfig {
    AppConfig {
        profile: "default".to_string(),
        api_profile: "default".to_string(),
        profile_source: ProfileSource::Default,
        credential_source: CredentialSource::Flags,
        api_id: Some(1),
        api_hash: Some("hash".to_string()),
        session_path: "./session.db".to_string(),
        db_path: "./state.db".to_string(),
        download_dir: "./downloads".to_string(),
        run_artifact_dir: "./artifacts".to_string(),
        log_level: LogLevel::Error,
        retry_count: 1,
        retry_backoff_ms: 1,
        download_stall_timeout_secs: 1,
        media_filter: MediaFilter::all(),
        filename_mode: FilenameMode::Stable,
        temp_extension: ".part".to_string(),
        request_delay_ms: 1,
        download_delay_ms: 1,
        flood_sleep_threshold_secs: 5,
        jitter_ms: 0,
        download_concurrency: 3,
        download_concurrency_origin: DownloadConcurrencyOrigin::Auto,
        cleanup_stale_parts_on_start: false,
        stale_part_min_age_hours: 12,
        verbose_dependency_logs: false,
    }
}

fn nothing_exists() -> CanonicalPaths {
    CanonicalPaths {
        main_separator: '/',
        session_path: None,
        db_path: None,
        download_dir: None,
        run_artifact_dir: None,
    }
}

fn bare_environment() -> Environment {
    Environment {
        profile: EnvValue::Missing,
        api_profile: EnvValue::Missing,
        media_filter: EnvValue::Missing,
        save_image_documents: EnvValue::Missing,
        api_id: EnvValue::Missing,
        api_hash: EnvValue::Missing,
        session_path: EnvValue::Missing,
        db_path: EnvValue::Missing,
        download_dir: EnvValue::Missing,
        run_artifact_dir: EnvValue::Missing,
        log_level: EnvValue::Missing,
        retry_count: EnvValue::Missing,
        retry_backoff_ms: EnvValue::Missing,
        download_stall_timeout_secs: EnvValue::Missing,
        filename_mode: EnvValue::Missing,
        temp_extension: EnvValue::Missing,
        request_delay_ms: EnvValue::Missing,
        download_delay_ms: EnvValue::Missing,
        flood_sleep_threshold_secs: EnvValue::Missing,
        jitter_ms: EnvValue::Missing,
        cleanup_stale_parts_on_start: EnvValue::Missing,
        stale_part_min_age_hours: EnvValue::Missing,
        verbose_dependency_logs: EnvValue::Missing,
    }
}

fn text(value: &str) -> EnvValue {
    EnvValue::Text(value.to_string())
}

fn detail(error: AppError) -> String {
    error.message()
}

fn begin(overrides: &ConfigOverrides, env: &Environment) -> Result<PendingConfig, AppError> {
    PendingConfig::begin(overrides, env, Ok(None), Ok(None), "/data")
}

fn load(overrides: &ConfigOverrides, env: &Environment) -> Result<AppConfig, AppError> {
    let pending = begin(overrides, env)?;
    AppConfig::load(pending, overrides, env, Ok((None, CredentialStorageStatus::Absent)))
}

#[test]
fn parses_media_filter() {
    let parsed = parse_media_filter("photo,video,voice").expect("media filter");
    assert!(parsed.contains(MediaKind::Photo));
    assert!(parsed.contains(MediaKind::Video));
    assert!(parsed.contains(MediaKind::Voice));
    assert!(!parsed.contains(MediaKind::Document));
}

#[test]
fn normalizes_temp_extension() {
    assert_eq!(normalize_temp_extension("part".to_string()), ".part");
    assert_eq!(normalize_temp_extension(".tmp".to_string()), ".tmp");
}

#[test]
fn rejects_same_session_and_state_path() {
    let mut config = base_config();
    config.session_path = "./same.db".to_string();
    config.db_path = "./same.db".to_string();
    assert!(config.validate("/work", &nothing_exists()).is_err());
}

#[test]
fn rejects_overlapping_download_and_artifact_dirs() {
    let mut config = base_config();
    config.download_dir = "./data".to_string();
    config.run_artifact_dir = "./data/artifacts".to_string();
    assert!(config.validate("/work", &nothing_exists()).is_err());
}

#[test]
fn auto_download_concurrency_is_positive() {
    assert!(default_download_concurrency() > 0);
}

#[test]
fn auto_scan_window_scales_with_workers() {
    assert_eq!(auto_scan_ahead_messages(1), 64);
    assert_eq!(auto_scan_ahead_messages(4), 128);
}

#[test]
fn override_session_path_is_revalidated() {
    let config = base_config();
    assert!(config
        .with_session_path("./state.db".to_string(), "/work", &nothing_exists())
        .is_err());
}

#[test]
fn sanitizes_profile_name() {
    assert_eq!(sanitize_profile_name("Personal Work"), "personal_work");
    assert_eq!(sanitize_profile_name("___"), "");
}

#[test]
fn resolves_profile_source_precedence() {
    assert_eq!(
        resolve_profile_from_values(
            Some("cli".to_string()),
            Some("env".to_string()),
            Some("current".to_string()),
        )
        .expect("profile"),
        ("cli".to_string(), ProfileSource::Explicit)
    );
    assert_eq!(
        resolve_profile_from_values(None, Some("env".to_string()), Some("current".to_string()))
            .expect("profile"),
        ("env".to_string(), ProfileSource::Env)
    );
    assert_eq!(
        resolve_profile_from_values(None, None, Some("current".to_string())).expect("profile"),
        ("current".to_string(), ProfileSource::Current)
    );
    assert_eq!(
        resolve_profile_from_values(None, None, None).expect("profile"),
        ("default".to_string(), ProfileSource::Default)
    );
}

#[test]
fn resolves_only_filter_override() {
    let filter = resolve_media_filter(&base_config(), Some("photo,video"), None).expect("filter");
    let mut expected = MediaFilter::none();
    expected.insert(MediaKind::Photo);
    expected.insert(MediaKind::Video);
    assert_eq!(filter, expected);
}

#[test]
fn resolves_skip_filter_override() {
    let filter =
        resolve_media_filter(&base_config(), None, Some("document,audio")).expect("filter");
    assert!(!filter.contains(MediaKind::Document));
    assert!(!filter.contains(MediaKind::Audio));
    assert!(filter.contains(MediaKind::Photo));
}

#[test]
fn filter_flags_report_what_is_wrong() {
    let error = resolve_media_filter(&base_config(), Some("photo,hologram"), None).unwrap_err();
    assert_eq!(
        detail(error),
        "invalid arguments: invalid --only value: unsupported media kind `hologram`; expected \
         photo,image_doc,video,animation,audio,voice,document"
    );
    let error = resolve_media_filter(&base_config(), None, Some(" , ")).unwrap_err();
    assert_eq!(
        detail(error),
        "invalid arguments: invalid --skip value: media filter cannot be empty; expected \
         photo,image_doc,video,animation,audio,voice,document"
    );
    let error = resolve_media_filter(&base_config(), Some("gif"), Some("animation")).unwrap_err();
    assert_eq!(
        detail(error),
        "invalid arguments: effective media filter is empty; choose at least one media kind"
    );
}

#[test]
fn loads_defaults_below_the_profile() {
    let config = load(&ConfigOverrides::default(), &bare_environment()).expect("config");
    assert_eq!(config.profile, "default");
    assert_eq!(config.profile_source, ProfileSource::Default);
    assert_eq!(config.api_profile, "default");
    assert_eq!(config.credential_source, CredentialSource::Absent);
    assert_eq!(config.session_path, "/data/profiles/default/session.db");
    assert_eq!(config.db_path, "/data/profiles/default/state.db");
    assert_eq!(config.download_dir, "/data/profiles/default/downloads");
    assert_eq!(config.run_artifact_dir, "/data/profiles/default/run-artifacts");
    assert_eq!(config.log_level, LogLevel::Error);
    assert_eq!(config.retry_count, 3);
    assert_eq!(config.retry_backoff_ms, 1000);
    assert_eq!(config.download_stall_timeout_secs, 120);
    assert_eq!(config.media_filter, MediaFilter::all());
    assert_eq!(config.filename_mode, FilenameMode::Stable);
    assert_eq!(config.temp_extension, ".part");
    assert_eq!(config.request_delay_ms, 400);
    assert_eq!(config.download_delay_ms, 850);
    assert_eq!(config.flood_sleep_threshold_secs, 0);
    assert_eq!(config.jitter_ms, 250);
    assert_eq!(config.download_concurrency, 4);
    assert_eq!(config.download_concurrency_origin, DownloadConcurrencyOrigin::Auto);
    assert!(!config.cleanup_stale_parts_on_start);
    assert_eq!(config.stale_part_min_age_hours, 12);
    assert!(!config.verbose_dependency_logs);
    assert!(config.validate("/work", &nothing_exists()).is_ok());
}

#[test]
fn flags_come_before_environment_and_profile() {
    let mut env = bare_environment();
    env.session_path = text("/env/session.db");
    env.db_path = text("/env/state.db");
    env.api_id = text("7");
    env.api_hash = text("env-hash");
    let mut overrides = ConfigOverrides::default();
    overrides.session_path = Some("/flag/session.db".to_string());
    let config = load(&overrides, &env).expect("config");
    assert_eq!(config.session_path, "/flag/session.db");
    assert_eq!(config.db_path, "/env/state.db");
    assert_eq!(config.download_dir, "/data/profiles/default/downloads");
    assert_eq!(config.credential_source, CredentialSource::Env);
    assert_eq!(config.api_id, Some(7));

    overrides.api_id = Some(9);
    overrides.api_hash = Some("flag-hash".to_string());
    let config = load(&overrides, &env).expect("config");
    assert_eq!(config.credential_source, CredentialSource::Flags);
    assert_eq!(config.api_id, Some(9));
    assert_eq!(config.api_hash.as_deref(), Some("flag-hash"));
}

#[test]
fn stored_credentials_come_last() {
    let overrides = ConfigOverrides::default();
    let env = bare_environment();
    let pending = begin(&overrides, &env).expect("pending");
    assert!(pending.needs_stored_credentials());
    let stored = TelegramCredentials { api_id: 5, api_hash: "kept".to_string() };
    let config = AppConfig::load(
        pending,
        &overrides,
        &env,
        Ok((Some(stored), CredentialStorageStatus::Keychain)),
    )
    .expect("config");
    assert_eq!(
        config.credential_source,
        CredentialSource::Stored(CredentialStorageStatus::Keychain)
    );
    assert_eq!(config.credential_source.label(), "keychain");
    assert_eq!(config.api_id, Some(5));
}

#[test]
fn failed_lookup_of_stored_credentials_is_passed_on() {
    let overrides = ConfigOverrides::default();
    let env = bare_environment();
    let pending = begin(&overrides, &env).expect("pending");
    let failure = Err(AppError::Config("keychain broke".to_string()));
    let error = AppConfig::load(pending, &overrides, &env, failure).unwrap_err();
    assert_eq!(detail(error), "invalid configuration: keychain broke");
}

#[test]
fn reads_settings_from_the_environment() {
    let mut env = bare_environment();
    env.profile = text(" Work Mail ");
    env.api_profile = text("Backup");
    env.media_filter = text("photo, gif");
    env.log_level = text(" WARN ");
    env.retry_count = text("5");
    env.filename_mode = text("original_if_available");
    env.temp_extension = text("tmp");
    env.cleanup_stale_parts_on_start = text("yes");
    env.verbose_dependency_logs = text("0");
    let config = load(&ConfigOverrides::default(), &env).expect("config");
    assert_eq!(config.profile, "work_mail");
    assert_eq!(config.profile_source.label(), "env");
    assert_eq!(config.session_path, "/data/profiles/work_mail/session.db");
    assert_eq!(config.api_profile, "backup");
    assert!(config.media_filter.contains(MediaKind::Animation));
    assert!(!config.media_filter.contains(MediaKind::Video));
    assert_eq!(config.log_level.label(), "warn");
    assert_eq!(config.retry_count, 5);
    assert_eq!(config.filename_mode, FilenameMode::OriginalIfAvailable);
    assert_eq!(config.temp_extension, ".tmp");
    assert!(config.cleanup_stale_parts_on_start);
    assert!(!config.verbose_dependency_logs);
}

#[test]
fn image_documents_can_be_left_out() {
    let mut env = bare_environment();
    env.save_image_documents = text("false");
    let config = load(&ConfigOverrides::default(), &env).expect("config");
    assert!(!config.media_filter.contains(MediaKind::ImageDocument));
    assert!(config.media_filter.contains(MediaKind::Document));
}

#[test]
fn the_first_wrong_setting_is_reported() {
    let overrides = ConfigOverrides::default();

    let mut env = bare_environment();
    env.profile = EnvValue::NotUnicode;
    env.api_profile = text("***");
    assert_eq!(
        detail(load(&overrides, &env).unwrap_err()),
        "invalid configuration: env var tgbacky_PROFILE contains invalid unicode"
    );

    let mut env = bare_environment();
    env.profile = text("***");
    assert_eq!(
        detail(load(&overrides, &env).unwrap_err()),
        "invalid configuration: profile name cannot be empty"
    );

    let mut env = bare_environment();
    env.api_profile = text("***");
    assert_eq!(
        detail(load(&overrides, &env).unwrap_err()),
        "invalid arguments: API profile name cannot be empty"
    );

    let mut env = bare_environment();
    env.media_filter = text("nope");
    assert_eq!(
        detail(load(&overrides, &env).unwrap_err()),
        "invalid configuration: invalid tgbacky_MEDIA_FILTER: unsupported media kind `nope`; \
         expected one of photo,image_doc,video,animation,audio,voice,document"
    );

    let mut env = bare_environment();
    env.api_id = text("12");
    assert_eq!(
        detail(load(&overrides, &env).unwrap_err()),
        "invalid configuration: tgbacky_API_ID and tgbacky_API_HASH must be provided together"
    );

    let mut env = bare_environment();
    env.log_level = text("loud");
    env.retry_count = text("many");
    assert_eq!(
        detail(load(&overrides, &env).unwrap_err()),
        "invalid configuration: tgbacky_LOG_LEVEL must be one of error,warn,info,debug,trace"
    );

    let mut env = bare_environment();
    env.retry_count = text("-1");
    assert_eq!(
        detail(load(&overrides, &env).unwrap_err()),
        "invalid configuration: env var tgbacky_RETRY_COUNT is invalid"
    );

    let mut env = bare_environment();
    env.filename_mode = text("fancy");
    assert_eq!(
        detail(load(&overrides, &env).unwrap_err()),
        "invalid configuration: tgbacky_FILENAME_MODE must be `stable` or `original_if_available`"
    );

    let mut env = bare_environment();
    env.verbose_dependency_logs = text("maybe");
    assert_eq!(
        detail(load(&overrides, &env).unwrap_err()),
        "invalid configuration: env var tgbacky_VERBOSE_DEPENDENCY_LOGS must be `true` or `false`"
    );
}

#[test]
fn a_flag_hides_an_unreadable_path_variable() {
    let mut env = bare_environment();
    env.db_path = EnvValue::NotUnicode;
    let mut overrides = ConfigOverrides::default();
    assert!(load(&overrides, &env).is_err());
    overrides.db_path = Some("/flag/state.db".to_string());
    assert_eq!(load(&overrides, &env).expect("config").db_path, "/flag/state.db");
}

#[test]
fn validation_names_each_fault() {
    let faults: Vec<(AppConfig, &str)> = vec![
        (AppConfig { api_id: Some(0), ..base_config() }, "tgbacky_API_ID must be a positive integer"),
        (
            AppConfig { api_hash: Some("  ".to_string()), ..base_config() },
            "tgbacky_API_HASH cannot be empty",
        ),
        (
            AppConfig { db_path: "session.db".to_string(), ..base_config() },
            "tgbacky_SESSION_PATH and tgbacky_DB_PATH must be different files",
        ),
        (
            AppConfig { session_path: "downloads/s.db".to_string(), ..base_config() },
            "download/artifact directories cannot overlap the session or state database files",
        ),
        (
            AppConfig { run_artifact_dir: "downloads".to_string(), ..base_config() },
            "tgbacky_DOWNLOAD_DIR and tgbacky_RUN_ARTIFACT_DIR must not overlap",
        ),
        (
            AppConfig { temp_extension: ".a/b".to_string(), ..base_config() },
            "tgbacky_TEMP_EXTENSION cannot contain path separators",
        ),
        (
            AppConfig { request_delay_ms: 0, ..base_config() },
            "request and download delays must be greater than zero",
        ),
        (
            AppConfig { download_concurrency: 0, ..base_config() },
            "download worker count must be greater than zero",
        ),
        (
            AppConfig { retry_backoff_ms: 0, ..base_config() },
            "tgbacky_RETRY_BACKOFF_MS must be greater than zero when retries are enabled",
        ),
        (
            AppConfig { download_stall_timeout_secs: 0, ..base_config() },
            "tgbacky_DOWNLOAD_STALL_TIMEOUT_SECS must be greater than zero",
        ),
    ];
    for (config, fault) in faults {
        let error = config.validate("/work", &nothing_exists()).unwrap_err();
        assert_eq!(error.exit_code(), 2);
        assert_eq!(detail(error), format!("invalid configuration: {fault}"));
    }
    assert!(base_config().validate("/work", &nothing_exists()).is_ok());
}

#[test]
fn temporary_extensions_hold_no_separator_of_the_machine() {
    let backslash = || CanonicalPaths { main_separator: '\\', ..nothing_exists() };
    let config = AppConfig { temp_extension: ".a\\b".to_string(), ..base_config() };
    assert!(config.validate("/work", &nothing_exists()).is_ok());
    assert_eq!(
        detail(config.validate("/work", &backslash()).unwrap_err()),
        "invalid configuration: tgbacky_TEMP_EXTENSION cannot contain path separators"
    );
    let config = AppConfig { temp_extension: ".a/b".to_string(), ..base_config() };
    assert!(config.validate("/work", &backslash()).is_ok());
}

#[test]
fn canonical_paths_decide_where_they_exist() {
    let config = base_config();
    let linked = CanonicalPaths {
        main_separator: '/',
        session_path: Some("/real/file.db".to_string()),
        db_path: Some("/real/file.db".to_string()),
        download_dir: None,
        run_artifact_dir: None,
    };
    assert!(config.validate("/work", &linked).is_err());
}

#[test]
fn credentials_of_a_run_replace_others() {
    let config = base_config();
    let given = TelegramCredentials { api_id: 77, api_hash: "typed".to_string() };
    let changed = config
        .with_telegram_credentials(given, "/work", &nothing_exists())
        .expect("valid");
    assert_eq!(changed.credential_source, CredentialSource::Runtime);
    let used = changed.telegram_credentials().expect("credentials");
    assert_eq!(used.api_id, 77);
    assert_eq!(used.api_hash, "typed");
    let bad = TelegramCredentials { api_id: -1, api_hash: "typed".to_string() };
    assert!(config.with_telegram_credentials(bad, "/work", &nothing_exists()).is_err());
}

#[test]
fn missing_credentials_name_the_api_profile() {
    let config = AppConfig { api_hash: None, ..base_config() };
    let error = config.telegram_credentials().unwrap_err();
    assert_eq!(error.exit_code(), 3);
    assert_eq!(
        detail(error),
        "authentication failed: Telegram API credentials are not configured for API profile \
         `default`; run `tgbacky auth` or `tgbacky api add`"
    );
}

#[test]
fn current_profile_file_is_written_and_read() {
    let content = set_current_profile(" My Work ").expect("content");
    assert_eq!(content, "my_work\n");
    assert_eq!(current_profile(Some(content.as_str())).as_deref(), Some("my_work"));
    assert_eq!(current_profile(Some(" \n")), None);
    assert_eq!(current_profile(None), None);
    assert!(clear_current_profile_if_matches("My work", Some("my_work\n")).expect("match"));
    assert!(!clear_current_profile_if_matches("other", Some("my_work\n")).expect("match"));
    assert!(clear_current_profile_if_matches("--", None).is_err());
}

#[test]
fn profiles_are_laid_out_below_the_data_folder() {
    let layout = profile_layout("/data", "A b").expect("layout");
    assert_eq!(layout.root_dir, "/data/profiles/a_b");
    assert_eq!(layout.run_artifact_dir, "/data/profiles/a_b/run-artifacts");
    assert_eq!(profiles_root("/data"), "/data/profiles");
    assert_eq!(
        detail(profile_layout("/data", "??").unwrap_err()),
        "invalid arguments: profile name cannot be empty"
    );
    assert_eq!(sanitize_profile("Ünicode 1").expect("name"), "nicode_1");
    assert_ne!(
        profile_layout("/data", "a").expect("a").root_dir,
        profile_layout("/data", "b").expect("b").root_dir
    );
}

#[test]
fn cleaning_a_clean_name_changes_nothing() {
    for raw in ["Personal Work", "  a--b__C ", "Ж", "x1_y2"] {
        let once = sanitize_profile_name(raw);
        assert_eq!(sanitize_profile_name(once.as_str()), once);
    }
}

#[test]
fn log_levels_are_read() {
    assert_eq!(parse_log_level("Trace").expect("level"), LogLevel::Trace);
    assert!(parse_log_level("off").is_err());
}

#[test]
fn scan_window_stops_at_the_largest_number() {
    assert_eq!(auto_scan_ahead_messages(usize::MAX), usize::MAX);
    assert_eq!(auto_scan_ahead_messages(0), 64);
}

#[test]
fn overrides_follow_the_flags() {
    let profile = ProfileArgs {
        profile: Some("work".to_string()),
        session_path: None,
        db_path: Some("x.db".to_string()),
        download_dir: None,
        run_artifact_dir: None,
    };
    let api = TelegramApiArgs {
        api_profile: Some("backup".to_string()),
        api_id: Some(3),
        api_hash: Some("h".to_string()),
    };
    let both = build_config_overrides(&profile, Some(&api));
    assert_eq!(both.profile.as_deref(), Some("work"));
    assert_eq!(both.db_path.as_deref(), Some("x.db"));
    assert_eq!(both.api_profile.as_deref(), Some("backup"));
    assert_eq!(both.api_id, Some(3));
    let one = build_config_overrides(&profile, None);
    assert_eq!(one.api_id, None);
    assert_eq!(one.api_profile, None);
}

fn no_tuning() -> RuntimeTuningArgs {
    RuntimeTuningArgs {
        delay_ms: None,
        flood_sleep_threshold_secs: None,
        jitter_ms: None,
        retry_count: None,
        retry_backoff_ms: None,
        download_stall_timeout_secs: None,
    }
}

#[test]
fn tuning_flags_change_the_pace() {
    let mut config = base_config();
    let tuning = RuntimeTuningArgs {
        delay_ms: Some(700),
        flood_sleep_threshold_secs: Some(0),
        jitter_ms: Some(9),
        retry_count: Some(5),
        retry_backoff_ms: Some(20),
        download_stall_timeout_secs: Some(60),
    };
    apply_runtime_tuning(&mut config, &tuning).expect("tuning");
    assert_eq!(config.request_delay_ms, 700);
    assert_eq!(config.download_delay_ms, 700);
    assert_eq!(config.flood_sleep_threshold_secs, 0);
    assert_eq!(config.jitter_ms, 9);
    assert_eq!(config.retry_count, 5);
    assert_eq!(config.retry_backoff_ms, 20);
    assert_eq!(config.download_stall_timeout_secs, 60);
    assert!(config.validate("/work", &nothing_exists()).is_ok());
}

#[test]
fn flags_before_a_refused_one_are_taken() {
    let all = RuntimeTuningArgs {
        delay_ms: Some(700),
        flood_sleep_threshold_secs: Some(3),
        jitter_ms: Some(9),
        retry_count: Some(5),
        retry_backoff_ms: Some(20),
        download_stall_timeout_secs: Some(60),
    };
    let fresh = base_config();

    let mut config = base_config();
    let delay = RuntimeTuningArgs { delay_ms: Some(0), ..all };
    assert!(apply_runtime_tuning(&mut config, &delay).is_err());
    assert_eq!(config.jitter_ms, fresh.jitter_ms);
    assert_eq!(config.retry_count, fresh.retry_count);

    let mut config = base_config();
    let backoff = RuntimeTuningArgs { retry_backoff_ms: Some(0), ..all };
    assert!(apply_runtime_tuning(&mut config, &backoff).is_err());
    assert_eq!(config.request_delay_ms, 700);
    assert_eq!(config.flood_sleep_threshold_secs, 3);
    assert_eq!(config.jitter_ms, 9);
    assert_eq!(config.retry_count, 5);
    assert_eq!(config.retry_backoff_ms, fresh.retry_backoff_ms);
    assert_eq!(config.download_stall_timeout_secs, fresh.download_stall_timeout_secs);

    let mut config = base_config();
    let stall = RuntimeTuningArgs { download_stall_timeout_secs: Some(0), ..all };
    assert!(apply_runtime_tuning(&mut config, &stall).is_err());
    assert_eq!(config.retry_backoff_ms, 20);
    assert_eq!(config.download_stall_timeout_secs, fresh.download_stall_timeout_secs);
}

#[test]
fn checked_settings_are_handed_back() {
    let config = base_config();
    let delay = config.request_delay_ms;
    let config = config.checked("/work", &nothing_exists()).expect("sound");
    assert_eq!(config.request_delay_ms, delay);
    let mut config = base_config();
    config.download_concurrency = 0;
    assert_eq!(
        detail(config.checked("/work", &nothing_exists()).unwrap_err()),
        "invalid configuration: download worker count must be greater than zero"
    );
}

#[test]
fn zero_tuning_flags_are_refused() {
    let mut config = base_config();
    let delay = RuntimeTuningArgs { delay_ms: Some(0), ..no_tuning() };
    assert_eq!(
        detail(apply_runtime_tuning(&mut config, &delay).unwrap_err()),
        "invalid arguments: --delay-ms must be greater than zero"
    );
    let backoff = RuntimeTuningArgs { retry_backoff_ms: Some(0), ..no_tuning() };
    assert_eq!(
        detail(apply_runtime_tuning(&mut config, &backoff).unwrap_err()),
        "invalid arguments: --retry-backoff-ms must be greater than zero when retries are enabled"
    );
    let harmless =
        RuntimeTuningArgs { retry_backoff_ms: Some(0), retry_count: Some(0), ..no_tuning() };
    assert!(apply_runtime_tuning(&mut base_config(), &harmless).is_ok());
    let stall = RuntimeTuningArgs { download_stall_timeout_secs: Some(0), ..no_tuning() };
    assert_eq!(
        detail(apply_runtime_tuning(&mut config, &stall).unwrap_err()),
        "invalid arguments: --download-stall-timeout-secs must be greater than zero"
    );
    assert_eq!(config.request_delay_ms, 1);
}

#[test]
fn worker_flag_is_taken_or_refused() {
    let mut config = base_config();
    apply_workers(&mut config, None).expect("none");
    assert_eq!(config.download_concurrency, 3);
    apply_workers(&mut config, Some(8)).expect("eight");
    assert_eq!(config.download_concurrency, 8);
    assert_eq!(config.download_concurrency_origin, DownloadConcurrencyOrigin::Cli);
    assert_eq!(
        detail(apply_workers(&mut config, Some(0)).unwrap_err()),
        "invalid arguments: --workers must be greater than zero"
    );
}

#[test]
fn only_new_users_are_asked_for_a_profile() {
    let fresh = AppConfig { api_id: None, ..base_config() };
    assert!(asks_for_profile(&fresh, false, &None));
    assert!(!asks_for_profile(&fresh, true, &None));
    assert!(!asks_for_profile(&fresh, false, &Some("work".to_string())));
    assert!(!asks_for_profile(&base_config(), false, &None));
}
