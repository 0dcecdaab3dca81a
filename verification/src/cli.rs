//! What flags and answers at the prompt mean, and how a user is led to a signed-in profile.

use vstd::prelude::*;

use crate::config;
use crate::config::{AppConfig, ConfigOverrides, DownloadConcurrencyOrigin};
use crate::error::AppError;
use crate::error::Result;
use crate::number;
use crate::secrets;
use crate::secrets::{CredentialSaveError, CredentialStorageKind, CredentialStorageStatus, TelegramCredentials};
use crate::text;
use crate::types;
use crate::types::{MediaFilter, MediaKind};

verus! {

/// Flags that choose a profile and its files.
#[derive(Debug)]
pub struct ProfileArgs {
    pub profile: Option<String>,
    pub session_path: Option<String>,
    pub db_path: Option<String>,
    pub download_dir: Option<String>,
    pub run_artifact_dir: Option<String>,
}

/// Flags that choose the API credentials.
#[derive(Debug)]
pub struct TelegramApiArgs {
    pub api_profile: Option<String>,
    pub api_id: Option<i32>,
    pub api_hash: Option<String>,
}

/// What flags ask for. Commands without API flags pass none.
pub fn build_config_overrides(profile: &ProfileArgs, telegram_api: Option<&TelegramApiArgs>) -> (
    overrides: ConfigOverrides)
    ensures
        overrides.profile == profile.profile,
        overrides.session_path == profile.session_path,
        overrides.db_path == profile.db_path,
        overrides.download_dir == profile.download_dir,
        overrides.run_artifact_dir == profile.run_artifact_dir,
        match telegram_api {
            Some(api) => overrides.api_profile == api.api_profile && overrides.api_id == api.api_id
                && overrides.api_hash == api.api_hash,
            None => overrides.api_profile is None && overrides.api_id is None && overrides.api_hash is None,
        },
{
    let (api_profile, api_id, api_hash) = match telegram_api {
        Some(api) => (text::copy_opt(&api.api_profile), api.api_id, text::copy_opt(&api.api_hash)),
        None => (None, None, None),
    };
    ConfigOverrides {
        profile: text::copy_opt(&profile.profile),
        api_profile,
        api_id,
        api_hash,
        session_path: text::copy_opt(&profile.session_path),
        db_path: text::copy_opt(&profile.db_path),
        download_dir: text::copy_opt(&profile.download_dir),
        run_artifact_dir: text::copy_opt(&profile.run_artifact_dir),
    }
}

/// Flags that change the pace of a run.
#[derive(Debug, Clone, Copy)]
pub struct RuntimeTuningArgs {
    pub delay_ms: Option<u64>,
    pub flood_sleep_threshold_secs: Option<u64>,
    pub jitter_ms: Option<u64>,
    pub retry_count: Option<u32>,
    pub retry_backoff_ms: Option<u64>,
    pub download_stall_timeout_secs: Option<u64>,
}

/// `value`, or `default` where there is none.
pub open spec fn given_or<T>(value: Option<T>, default: T) -> T {
    match value {
        Some(given) => given,
        None => default,
    }
}

/// The settings with the pace that flags ask for.
pub open spec fn tuned(config: AppConfig, runtime: RuntimeTuningArgs) -> AppConfig {
    AppConfig {
        request_delay_ms: given_or(runtime.delay_ms, config.request_delay_ms),
        download_delay_ms: given_or(runtime.delay_ms, config.download_delay_ms),
        flood_sleep_threshold_secs: given_or(
            runtime.flood_sleep_threshold_secs,
            config.flood_sleep_threshold_secs,
        ),
        jitter_ms: given_or(runtime.jitter_ms, config.jitter_ms),
        retry_count: given_or(runtime.retry_count, config.retry_count),
        retry_backoff_ms: given_or(runtime.retry_backoff_ms, config.retry_backoff_ms),
        download_stall_timeout_secs: given_or(
            runtime.download_stall_timeout_secs,
            config.download_stall_timeout_secs,
        ),
        ..config
    }
}

/// What is wrong with the flags, if anything: the first of these.
pub open spec fn tuning_fault(config: AppConfig, runtime: RuntimeTuningArgs) -> Option<Seq<char>> {
    if runtime.delay_ms == Some(0u64) {
        Some("--delay-ms must be greater than zero"@)
    } else if runtime.retry_backoff_ms == Some(0u64) && tuned(config, runtime).retry_count > 0 {
        Some("--retry-backoff-ms must be greater than zero when retries are enabled"@)
    } else if runtime.download_stall_timeout_secs == Some(0u64) {
        Some("--download-stall-timeout-secs must be greater than zero"@)
    } else {
        None
    }
}

/// Whether `error` refuses an argument with a given text.
pub open spec fn is_refused(error: AppError, detail: Seq<char>) -> bool {
    error is InvalidArgument && error.detail() == detail
}

fn refuse(detail: &str) -> (error: AppError)
    ensures
        is_refused(error, detail@),
{
    AppError::InvalidArgument(detail.to_string())
}

/// The settings when a flag is refused: the flags that are looked at before it have been taken.
pub open spec fn tuned_so_far(config: AppConfig, runtime: RuntimeTuningArgs) -> AppConfig {
    if runtime.delay_ms == Some(0u64) {
        config
    } else if runtime.retry_backoff_ms == Some(0u64) && tuned(config, runtime).retry_count > 0 {
        tuned(
            config,
            RuntimeTuningArgs { retry_backoff_ms: None, download_stall_timeout_secs: None, ..runtime },
        )
    } else {
        tuned(config, RuntimeTuningArgs { download_stall_timeout_secs: None, ..runtime })
    }
}

/// Changes the pace of a run as flags ask for, one flag after the other, up to the first that is
/// refused.
pub fn apply_runtime_tuning(config: &mut AppConfig, runtime: &RuntimeTuningArgs) -> (out: Result<()>)
    ensures
        match tuning_fault(*old(config), *runtime) {
            Some(fault) => {
                &&& out matches Err(error) && is_refused(error, fault)
                &&& *final(config) == tuned_so_far(*old(config), *runtime)
            },
            None => out is Ok && *final(config) == tuned(*old(config), *runtime),
        },
{
    if is_zero(runtime.delay_ms) {
        return Err(refuse("--delay-ms must be greater than zero"));
    }
    config.request_delay_ms = pick(runtime.delay_ms, config.request_delay_ms);
    config.download_delay_ms = pick(runtime.delay_ms, config.download_delay_ms);
    config.flood_sleep_threshold_secs = pick(
        runtime.flood_sleep_threshold_secs,
        config.flood_sleep_threshold_secs,
    );
    config.jitter_ms = pick(runtime.jitter_ms, config.jitter_ms);
    config.retry_count = match runtime.retry_count {
        Some(count) => count,
        None => config.retry_count,
    };
    if is_zero(runtime.retry_backoff_ms) && config.retry_count > 0 {
        return Err(refuse("--retry-backoff-ms must be greater than zero when retries are enabled"));
    }
    config.retry_backoff_ms = pick(runtime.retry_backoff_ms, config.retry_backoff_ms);
    if is_zero(runtime.download_stall_timeout_secs) {
        return Err(refuse("--download-stall-timeout-secs must be greater than zero"));
    }
    config.download_stall_timeout_secs = pick(
        runtime.download_stall_timeout_secs,
        config.download_stall_timeout_secs,
    );
    Ok(())
}

fn is_zero(value: Option<u64>) -> (yes: bool)
    ensures
        yes == (value == Some(0u64)),
{
    match value {
        Some(given) => given == 0,
        None => false,
    }
}

fn pick(value: Option<u64>, default: u64) -> (out: u64)
    ensures
        out == given_or(value, default),
{
    match value {
        Some(given) => given,
        None => default,
    }
}

/// Changes the number of download workers as a flag asks for.
pub fn apply_workers(config: &mut AppConfig, workers: Option<usize>) -> (out: Result<()>)
    ensures
        match workers {
            None => out is Ok && *final(config) == *old(config),
            Some(count) => if count == 0 {
                &&& out matches Err(error)
                &&& is_refused(error, "--workers must be greater than zero"@)
                &&& *final(config) == *old(config)
            } else {
                &&& out is Ok
                &&& *final(config) == (AppConfig {
                    download_concurrency: count,
                    download_concurrency_origin: DownloadConcurrencyOrigin::Cli,
                    ..*old(config)
                })
            },
        },
{
    if let Some(count) = workers {
        if count == 0 {
            return Err(refuse("--workers must be greater than zero"));
        }
        config.download_concurrency = count;
        config.download_concurrency_origin = DownloadConcurrencyOrigin::Cli;
    }
    Ok(())
}

/// Flags never undo what a check of the settings ensures of the pace: the delays, the stall timeout
/// and, where there are retries, the wait before them stay above zero, if the flags leave retries
/// alone or set the wait too.
pub proof fn tuning_keeps_settings_sound(
    config: AppConfig,
    runtime: RuntimeTuningArgs,
    paths: config::ComparedPaths,
)
    requires
        config.fault(paths) is None,
        tuning_fault(config, runtime) is None,
        runtime.retry_count is None || runtime.retry_backoff_ms is Some,
    ensures
        tuned(config, runtime).fault(paths) is None,
{
}

/// The refusal of a flag that lists media kinds.
pub open spec fn kinds_refused(flag: Seq<char>, fault: Seq<char>) -> Seq<char> {
    "invalid "@ + flag + " value: "@ + fault
        + "; expected photo,image_doc,video,animation,audio,voice,document"@
}

fn parse_kinds(flag: &str, raw: &str) -> (out: Result<MediaFilter>)
    ensures
        match types::list_fault(types::entries(raw@)) {
            Some(fault) => out matches Err(error) && is_refused(error, kinds_refused(flag@, fault)),
            None => out matches Ok(filter) && filter == types::list_filter(types::entries(raw@)),
        },
{
    proof {
        types::lists_have_one_answer(types::entries(raw@));
    }
    match MediaKind::parse_csv(raw) {
        Ok(filter) => Ok(filter),
        Err(fault) => {
            let mut detail = text::concat("invalid ", flag);
            detail.append(" value: ");
            detail.append(fault.as_str());
            detail.append("; expected photo,image_doc,video,animation,audio,voice,document");
            Err(AppError::InvalidArgument(detail))
        },
    }
}

/// What is wrong with a flag that lists media kinds, if it is given and anything is.
pub open spec fn kinds_fault(flag: Seq<char>, raw: Option<&str>) -> Option<Seq<char>> {
    match raw {
        Some(list) => match types::list_fault(types::entries(list@)) {
            Some(fault) => Some(kinds_refused(flag, fault)),
            None => None,
        },
        None => None,
    }
}

/// Whether a kind is wanted: `--only` takes the place of the settings, `--skip` takes away.
pub open spec fn wanted(settings: MediaFilter, only: Option<&str>, skip: Option<&str>, kind: MediaKind) -> bool {
    &&& match only {
        Some(list) => types::lists_kind(types::entries(list@), kind),
        None => settings.has(kind),
    }
    &&& match skip {
        Some(list) => !types::lists_kind(types::entries(list@), kind),
        None => true,
    }
}

/// The media kinds that are wanted: those of `--only`, else those of the settings, without those of
/// `--skip`. One at least has to be left.
pub fn resolve_media_filter(config: &AppConfig, only_media: Option<&str>, skip_media: Option<&str>) -> (
    out: Result<MediaFilter>)
    ensures
        match (kinds_fault("--only"@, only_media), kinds_fault("--skip"@, skip_media)) {
            (Some(fault), _) => out matches Err(error) && is_refused(error, fault),
            (None, Some(fault)) => out matches Err(error) && is_refused(error, fault),
            (None, None) => if forall|kind: MediaKind|
                !#[trigger] wanted(config.media_filter, only_media, skip_media, kind) {
                out matches Err(error) && is_refused(
                    error,
                    "effective media filter is empty; choose at least one media kind"@,
                )
            } else {
                out matches Ok(filter) && forall|kind: MediaKind| #[trigger]
                    filter.has(kind) == wanted(config.media_filter, only_media, skip_media, kind)
            },
        },
{
    let chosen = match only_media {
        Some(raw) => match parse_kinds("--only", raw) {
            Ok(filter) => filter,
            Err(error) => {
                return Err(error);
            },
        },
        None => config.media_filter,
    };
    let filter = match skip_media {
        Some(raw) => match parse_kinds("--skip", raw) {
            Ok(skipped) => chosen.without(&skipped),
            Err(error) => {
                return Err(error);
            },
        },
        None => chosen,
    };
    assert forall|kind: MediaKind| #[trigger] filter.has(kind) == wanted(
        config.media_filter,
        only_media,
        skip_media,
        kind,
    ) by {
        if let Some(raw) = only_media {
            assert(types::list_filter(types::entries(raw@)).has(kind) == types::lists_kind(
                types::entries(raw@),
                kind,
            ));
        }
        if let Some(raw) = skip_media {
            assert(types::list_filter(types::entries(raw@)).has(kind) == types::lists_kind(
                types::entries(raw@),
                kind,
            ));
        }
    }
    if filter.is_empty() {
        assert forall|kind: MediaKind| !#[trigger] wanted(
            config.media_filter,
            only_media,
            skip_media,
            kind,
        ) by {
            assert(!filter.has(kind));
        }
        return Err(refuse("effective media filter is empty; choose at least one media kind"));
    }
    proof {
        let kind = choose|kind: MediaKind| #[trigger] filter.has(kind);
        assert(wanted(config.media_filter, only_media, skip_media, kind));
    }
    Ok(filter)
}

/// What an answer to a yes-or-no question means; `None` where it is neither.
pub open spec fn yes_or_no(answer: Seq<char>) -> Option<bool> {
    let word = text::lowered(text::trimmed(answer));
    if word == "y"@ || word == "yes"@ {
        Some(true)
    } else if word == "n"@ || word == "no"@ {
        Some(false)
    } else {
        None
    }
}

/// What a line typed as the answer to a yes-or-no question means. An empty line stands for the
/// default.
pub fn parse_yes_no(input: &str, default_yes: bool) -> (out: Result<bool>)
    ensures
        if text::trimmed(input@).len() == 0 {
            out matches Ok(yes) && yes == default_yes
        } else {
            match yes_or_no(input@) {
                Some(meant) => out matches Ok(yes) && yes == meant,
                None => out matches Err(error) && is_refused(error, "please answer `yes` or `no`"@),
            }
        },
{
    let answer = text::trim(input);
    if text::is_empty(answer.as_str()) {
        return Ok(default_yes);
    }
    let word = text::lower(answer.as_str());
    let word = word.as_str();
    if text::same_text(word, "y") || text::same_text(word, "yes") {
        Ok(true)
    } else if text::same_text(word, "n") || text::same_text(word, "no") {
        Ok(false)
    } else {
        Err(refuse("please answer `yes` or `no`"))
    }
}

/// Whether something that cannot be undone was confirmed: by `yes` in full.
pub fn is_confirmed(input: &str) -> (yes: bool)
    ensures
        yes == (text::trimmed(input@) == "yes"@),
{
    let answer = text::trim(input);
    text::same_text(answer.as_str(), "yes")
}

/// The number of an application as it was typed; it has to be positive.
pub fn parse_prompted_api_id(input: &str) -> (out: Result<i32>)
    ensures
        match secrets::api_id_value(text::trimmed(input@)) {
            Some(value) => if value > 0 {
                out matches Ok(api_id) && api_id == value
            } else {
                out matches Err(error) && is_refused(
                    error,
                    "Telegram API ID must be a positive integer"@,
                )
            },
            None => out matches Err(error) && is_refused(
                error,
                "Telegram API ID must be a positive integer"@,
            ),
        },
{
    let typed = text::trim(input);
    match number::parse_i32(typed.as_str()) {
        Some(api_id) => if api_id > 0 {
            Ok(api_id)
        } else {
            Err(refuse("Telegram API ID must be a positive integer"))
        },
        None => Err(refuse("Telegram API ID must be a positive integer")),
    }
}

/// The credentials that a user gives: the number has to be positive, and there has to be a hash.
/// White space around the hash does not count.
pub fn check_credentials(api_id: i32, api_hash: &str) -> (out: Result<TelegramCredentials>)
    ensures
        if api_id <= 0 {
            out matches Err(error) && is_refused(error, "Telegram API ID must be a positive integer"@)
        } else if text::trimmed(api_hash@).len() == 0 {
            out matches Err(error) && is_refused(error, "Telegram API hash cannot be empty"@)
        } else {
            out matches Ok(credentials) && credentials.api_id == api_id && credentials.api_hash@
                == text::trimmed(api_hash@)
        },
{
    if api_id <= 0 {
        return Err(refuse("Telegram API ID must be a positive integer"));
    }
    let api_hash = text::trim(api_hash);
    if text::is_empty(api_hash.as_str()) {
        return Err(refuse("Telegram API hash cannot be empty"));
    }
    Ok(TelegramCredentials { api_id, api_hash })
}

/// The credentials that flags give; none where they have to be asked for. Half of them is refused.
pub fn credentials_from_args(api_id: Option<i32>, api_hash: Option<String>) -> (out: Result<
    Option<TelegramCredentials>,
>)
    ensures
        match (api_id, api_hash) {
            (Some(id), Some(hash)) => if id <= 0 {
                out matches Err(error) && is_refused(
                    error,
                    "Telegram API ID must be a positive integer"@,
                )
            } else if text::trimmed(hash@).len() == 0 {
                out matches Err(error) && is_refused(error, "Telegram API hash cannot be empty"@)
            } else {
                out matches Ok(Some(credentials)) && credentials.api_id == id && credentials.api_hash@
                    == text::trimmed(hash@)
            },
            (None, None) => out matches Ok(None),
            _ => out matches Err(error) && is_refused(
                error,
                "--api-id and --api-hash must be provided together"@,
            ),
        },
{
    match (api_id, api_hash) {
        (Some(id), Some(hash)) => match check_credentials(id, hash.as_str()) {
            Ok(credentials) => Ok(Some(credentials)),
            Err(error) => Err(error),
        },
        (None, None) => Ok(None),
        _ => Err(refuse("--api-id and --api-hash must be provided together")),
    }
}

/// Where the credentials that a user gave were put.
#[derive(Debug)]
pub enum PersistedCredentialStorage {
    Keychain,
    LocalFile(String),
    NotSaved,
}

/// What follows the attempt to put credentials into the keychain.
#[derive(Debug)]
pub enum PersistStep {
    /// The keychain keeps them; the local file goes.
    Keep,
    /// They are not in the keychain, for the reasons given; ask whether to write a local file.
    AskForFile(Vec<String>),
}

/// What follows the attempt to put credentials into the keychain. They count as kept only where
/// they were read back unchanged; `read_back` is that attempt.
pub fn after_keychain_save(
    api_profile: &str,
    saved: std::result::Result<CredentialStorageKind, CredentialSaveError>,
    read_back: std::result::Result<(), String>,
) -> (step: PersistStep)
    ensures
        match saved {
            Ok(CredentialStorageKind::Keychain) => match read_back {
                Ok(_) => step is Keep,
                Err(reason) => step matches PersistStep::AskForFile(lines) && text::texts(lines@)
                    == seq![
                    "OS keychain accepted the write, but tgbacky could not read it back for API profile `"@
                        + api_profile@ + "`."@,
                    "Keychain detail: "@ + reason@,
                ],
            },
            Ok(CredentialStorageKind::LocalFile) => step matches PersistStep::AskForFile(lines)
                && lines@.len() == 0,
            Err(CredentialSaveError::KeychainUnavailable(message)) => step matches PersistStep::AskForFile(
                lines,
            ) && text::texts(lines@) == seq![
                message@,
                "Telegram API credentials were not saved to the OS keychain for API profile `"@
                    + api_profile@ + "`."@,
            ],
        },
{
    let mut lines: Vec<String> = Vec::new();
    match saved {
        Ok(CredentialStorageKind::Keychain) => match read_back {
            Ok(_) => PersistStep::Keep,
            Err(reason) => {
                let mut first = text::concat(
                    "OS keychain accepted the write, but tgbacky could not read it back for API profile `",
                    api_profile,
                );
                first.append("`.");
                let second = text::concat("Keychain detail: ", reason.as_str());
                let ghost expected = seq![first@, second@];
                lines.push(first);
                lines.push(second);
                assert(text::texts(lines@) =~= expected);
                PersistStep::AskForFile(lines)
            },
        },
        Ok(CredentialStorageKind::LocalFile) => PersistStep::AskForFile(lines),
        Err(CredentialSaveError::KeychainUnavailable(message)) => {
            let mut second = text::concat(
                "Telegram API credentials were not saved to the OS keychain for API profile `",
                api_profile,
            );
            second.append("`.");
            let ghost expected = seq![message@, second@];
            lines.push(message);
            lines.push(second);
            assert(text::texts(lines@) =~= expected);
            PersistStep::AskForFile(lines)
        },
    }
}

/// What is said of where credentials were put.
pub open spec fn storage_lines(api_profile: Seq<char>, storage: PersistedCredentialStorage) -> Seq<
    Seq<char>,
> {
    match storage {
        PersistedCredentialStorage::Keychain => seq![
            "Telegram API credentials saved to OS keychain as `"@ + api_profile + "`."@,
        ],
        PersistedCredentialStorage::LocalFile(file) => seq![
            "Telegram API credentials saved to local file for `"@ + api_profile + "`: "@ + file@ + "."@,
            "This file is sensitive because it stores the API hash in plaintext."@,
        ],
        PersistedCredentialStorage::NotSaved => seq![
            "Telegram API credentials were not saved locally. Reuse tgbacky_API_ID/tgbacky_API_HASH or --api-id/--api-hash on future runs."@,
        ],
    }
}

/// What is said of where credentials were put.
pub fn credentials_storage_message(api_profile: &str, storage: &PersistedCredentialStorage) -> (
    lines: Vec<String>)
    ensures
        text::texts(lines@) == storage_lines(api_profile@, *storage),
{
    let mut lines: Vec<String> = Vec::new();
    match storage {
        PersistedCredentialStorage::Keychain => {
            let mut line = text::concat(
                "Telegram API credentials saved to OS keychain as `",
                api_profile,
            );
            line.append("`.");
            lines.push(line);
        },
        PersistedCredentialStorage::LocalFile(file) => {
            let mut line = text::concat(
                "Telegram API credentials saved to local file for `",
                api_profile,
            );
            line.append("`: ");
            line.append(file.as_str());
            line.append(".");
            lines.push(line);
            lines.push(
                "This file is sensitive because it stores the API hash in plaintext.".to_string(),
            );
        },
        PersistedCredentialStorage::NotSaved => {
            lines.push(
                "Telegram API credentials were not saved locally. Reuse tgbacky_API_ID/tgbacky_API_HASH or --api-id/--api-hash on future runs.".to_string(),
            );
        },
    }
    assert(text::texts(lines@) =~= storage_lines(api_profile@, *storage));
    lines
}

/// Whether an API profile that credentials were added for becomes the default: where that was asked
/// for, or there is none.
pub fn becomes_default(asked: bool, current: &Option<String>) -> (yes: bool)
    ensures
        yes == (asked || *current is None),
{
    asked || current.is_none()
}

/// Refuses to make an API profile without credentials the default.
pub fn check_api_use(name: &str, status: CredentialStorageStatus) -> (out: Result<()>)
    ensures
        if status == CredentialStorageStatus::Absent {
            out matches Err(error) && is_refused(
                error,
                "API profile `"@ + name@ + "` has no stored credentials; run `tgbacky api add --name "@
                    + name@ + "` first"@,
            )
        } else {
            out is Ok
        },
{
    if status != CredentialStorageStatus::Absent {
        return Ok(());
    }
    let mut detail = text::concat("API profile `", name);
    detail.append("` has no stored credentials; run `tgbacky api add --name ");
    detail.append(name);
    detail.append("` first");
    Err(AppError::InvalidArgument(detail))
}

/// The question for the second password, with the hint that goes with it.
pub fn password_label(hint: Option<String>) -> (out: String)
    ensures
        out@ == match hint {
            Some(content) => if content@.len() > 0 {
                "2FA password (hint: "@ + content@ + "): "@
            } else {
                "2FA password: "@
            },
            None => "2FA password: "@,
        },
{
    if let Some(content) = hint {
        if !text::is_empty(content.as_str()) {
            let mut out = text::concat("2FA password (hint: ", content.as_str());
            out.append("): ");
            return out;
        }
    }
    "2FA password: ".to_string()
}

/// Whether a new user is asked for the name of a profile: nothing chose one, there are no
/// credentials, and no profile was ever used.
pub fn asks_for_profile(config: &AppConfig, explicit_profile: bool, current: &Option<String>) -> (
    yes: bool)
    ensures
        yes == (!explicit_profile && (config.api_id is None || config.api_hash is None)
            && config.profile@ == "default"@ && *current is None),
{
    let configured: bool = config.api_id.is_some() && config.api_hash.is_some();
    !explicit_profile && !configured && text::same_text(config.profile.as_str(), "default")
        && current.is_none()
}

/// The profile that a new user chose; none for the default one.
pub fn chosen_profile(input: &str) -> (choice: Option<String>)
    ensures
        if text::trimmed(input@).len() == 0 || text::trimmed(input@) == "default"@ {
            choice is None
        } else {
            choice matches Some(name) && name@ == text::trimmed(input@)
        },
{
    let name = text::trim(input);
    if text::is_empty(name.as_str()) || text::same_text(name.as_str(), "default") {
        None
    } else {
        Some(name)
    }
}

/// `--only` takes the place of the settings, and `--skip` has the last word: a kind that is skipped is
/// never wanted, one that `--only` lists is wanted whatever the settings say, and one that it does not
/// list is not.
pub proof fn flags_choose_the_kinds(
    settings: MediaFilter,
    other: MediaFilter,
    only: &str,
    skip: &str,
    kind: MediaKind,
)
    ensures
        wanted(settings, None, None, kind) <==> settings.has(kind),
        wanted(settings, Some(only), None, kind) <==> types::lists_kind(types::entries(only@), kind),
        wanted(settings, Some(only), Some(skip), kind) == wanted(other, Some(only), Some(skip), kind),
        types::lists_kind(types::entries(skip@), kind) ==> !wanted(settings, None, Some(skip), kind)
            && !wanted(settings, Some(only), Some(skip), kind),
        !types::lists_kind(types::entries(skip@), kind) ==> {
            &&& wanted(settings, None, Some(skip), kind) == wanted(settings, None, None, kind)
            &&& wanted(settings, Some(only), Some(skip), kind) == wanted(
                settings,
                Some(only),
                None,
                kind,
            )
        },
{
}

/// Each flag that is given takes the place of its setting, `--delay-ms` of both delays, and nothing
/// else changes: without flags the settings stay, and flags given twice count once.
pub proof fn flags_take_the_place_of_settings(config: AppConfig, runtime: RuntimeTuningArgs)
    ensures
        ({
            let after = tuned(config, runtime);
            &&& runtime.delay_ms matches Some(ms) ==> after.request_delay_ms == ms
                && after.download_delay_ms == ms
            &&& runtime.delay_ms is None ==> after.request_delay_ms == config.request_delay_ms
                && after.download_delay_ms == config.download_delay_ms
            &&& runtime.flood_sleep_threshold_secs matches Some(secs)
                ==> after.flood_sleep_threshold_secs == secs
            &&& runtime.jitter_ms matches Some(ms) ==> after.jitter_ms == ms
            &&& runtime.retry_count matches Some(count) ==> after.retry_count == count
            &&& runtime.retry_backoff_ms matches Some(ms) ==> after.retry_backoff_ms == ms
            &&& runtime.download_stall_timeout_secs matches Some(secs)
                ==> after.download_stall_timeout_secs == secs
            &&& after.download_concurrency == config.download_concurrency
            &&& after.media_filter == config.media_filter
            &&& after.session_path == config.session_path
            &&& after.db_path == config.db_path
            &&& after.download_dir == config.download_dir
            &&& tuned(after, runtime) == after
        }),
        runtime.delay_ms is None && runtime.flood_sleep_threshold_secs is None && runtime.jitter_ms
            is None && runtime.retry_count is None && runtime.retry_backoff_ms is None
            && runtime.download_stall_timeout_secs is None ==> tuned(config, runtime) == config,
{
}

/// Flags are refused exactly where they would leave a wait of no time: a delay, a stall timeout, or the
/// wait before retries where there are any.
pub proof fn empty_waits_are_refused(config: AppConfig, runtime: RuntimeTuningArgs)
    ensures
        tuning_fault(config, runtime) is Some <==> {
            ||| runtime.delay_ms == Some(0u64)
            ||| runtime.download_stall_timeout_secs == Some(0u64)
            ||| runtime.retry_backoff_ms == Some(0u64) && (runtime.retry_count is Some
                && runtime.retry_count->0 > 0 || runtime.retry_count is None && config.retry_count > 0)
        },
{
}

} // verus!
