//! Settings: profiles, flags and environment variables, and what follows from them.

use vstd::prelude::*;

use crate::environment;
use crate::environment::EnvValue;
use crate::error::AppError;
use crate::error::Result;
use crate::fsutil;
use crate::naming;
use crate::number;
use crate::path;
use crate::secrets;
use crate::secrets::{CredentialStorageStatus, TelegramCredentials};
use crate::text;
use crate::types;
use crate::types::{FilenameMode, MediaFilter, MediaKind};

verus! {

pub const CURRENT_PROFILE_FILE: &'static str = "current-profile";

/// How many files are loaded at once where nothing else is asked for.
pub const DEFAULT_DOWNLOAD_CONCURRENCY: usize = 4;

/// Where the number of download workers comes from.
#[derive(Debug, Clone, Copy, PartialEq, Eq, Structural)]
pub enum DownloadConcurrencyOrigin {
    Auto,
    Cli,
}

/// Where the name of the profile comes from.
#[derive(Debug, Clone, Copy, PartialEq, Eq, Structural)]
pub enum ProfileSource {
    Explicit,
    Env,
    Current,
    Default,
}

impl ProfileSource {
    pub open spec fn name(self) -> Seq<char> {
        match self {
            ProfileSource::Explicit => "explicit"@,
            ProfileSource::Env => "env"@,
            ProfileSource::Current => "current"@,
            ProfileSource::Default => "default"@,
        }
    }

    pub fn label(self) -> (out: &'static str)
        ensures
            out@ == self.name(),
    {
        match self {
            ProfileSource::Explicit => "explicit",
            ProfileSource::Env => "env",
            ProfileSource::Current => "current",
            ProfileSource::Default => "default",
        }
    }
}

/// Where the API credentials come from.
#[derive(Debug, Clone, Copy, PartialEq, Eq, Structural)]
pub enum CredentialSource {
    Flags,
    Env,
    Stored(CredentialStorageStatus),
    Runtime,
    Absent,
}

impl CredentialSource {
    pub open spec fn name(self) -> Seq<char> {
        match self {
            CredentialSource::Flags => "flags"@,
            CredentialSource::Env => "env"@,
            CredentialSource::Stored(status) => status.name(),
            CredentialSource::Runtime => "runtime"@,
            CredentialSource::Absent => "none"@,
        }
    }

    pub fn label(self) -> (out: &'static str)
        ensures
            out@ == self.name(),
    {
        match self {
            CredentialSource::Flags => "flags",
            CredentialSource::Env => "env",
            CredentialSource::Stored(status) => status.label(),
            CredentialSource::Runtime => "runtime",
            CredentialSource::Absent => "none",
        }
    }
}

/// How much is logged.
#[derive(Debug, Clone, Copy, PartialEq, Eq, Structural)]
pub enum LogLevel {
    Error,
    Warn,
    Info,
    Debug,
    Trace,
}

/// The level that a lower-case name stands for.
pub open spec fn log_level_named(name: Seq<char>) -> Option<LogLevel> {
    if name == "error"@ {
        Some(LogLevel::Error)
    } else if name == "warn"@ {
        Some(LogLevel::Warn)
    } else if name == "info"@ {
        Some(LogLevel::Info)
    } else if name == "debug"@ {
        Some(LogLevel::Debug)
    } else if name == "trace"@ {
        Some(LogLevel::Trace)
    } else {
        None
    }
}

impl LogLevel {
    pub open spec fn name(self) -> Seq<char> {
        match self {
            LogLevel::Error => "error"@,
            LogLevel::Warn => "warn"@,
            LogLevel::Info => "info"@,
            LogLevel::Debug => "debug"@,
            LogLevel::Trace => "trace"@,
        }
    }

    pub fn label(self) -> (out: &'static str)
        ensures
            out@ == self.name(),
    {
        match self {
            LogLevel::Error => "error",
            LogLevel::Warn => "warn",
            LogLevel::Info => "info",
            LogLevel::Debug => "debug",
            LogLevel::Trace => "trace",
        }
    }
}

/// What flags ask for.
#[derive(Debug, Default)]
pub struct ConfigOverrides {
    pub profile: Option<String>,
    pub api_profile: Option<String>,
    pub api_id: Option<i32>,
    pub api_hash: Option<String>,
    pub session_path: Option<String>,
    pub db_path: Option<String>,
    pub download_dir: Option<String>,
    pub run_artifact_dir: Option<String>,
}

/// The environment variables that settings are read from.
#[derive(Debug)]
pub struct Environment {
    pub profile: EnvValue,
    pub api_profile: EnvValue,
    pub media_filter: EnvValue,
    pub save_image_documents: EnvValue,
    pub api_id: EnvValue,
    pub api_hash: EnvValue,
    pub session_path: EnvValue,
    pub db_path: EnvValue,
    pub download_dir: EnvValue,
    pub run_artifact_dir: EnvValue,
    pub log_level: EnvValue,
    pub retry_count: EnvValue,
    pub retry_backoff_ms: EnvValue,
    pub download_stall_timeout_secs: EnvValue,
    pub filename_mode: EnvValue,
    pub temp_extension: EnvValue,
    pub request_delay_ms: EnvValue,
    pub download_delay_ms: EnvValue,
    pub flood_sleep_threshold_secs: EnvValue,
    pub jitter_ms: EnvValue,
    pub cleanup_stale_parts_on_start: EnvValue,
    pub stale_part_min_age_hours: EnvValue,
    pub verbose_dependency_logs: EnvValue,
}

/// Why settings are refused: a configuration error, an argument error or one that came from
/// outside.
pub enum Refusal {
    Config(Seq<char>),
    InvalidArgument(Seq<char>),
    Given(AppError),
}

/// Whether `error` reports `refusal`.
pub open spec fn reports(error: AppError, refusal: Refusal) -> bool {
    match refusal {
        Refusal::Config(detail) => error is Config && error.detail() == detail,
        Refusal::InvalidArgument(detail) => error is InvalidArgument && error.detail() == detail,
        Refusal::Given(given) => error == given,
    }
}

/// The first of two refusals.
pub open spec fn earliest(first: Option<Refusal>, second: Option<Refusal>) -> Option<Refusal> {
    if first is Some {
        first
    } else {
        second
    }
}

/// The profile that is asked for, and where it is asked for: by flag, else by the environment, else
/// it is the current one, else `default`.
pub open spec fn chosen_profile(
    flag: Option<Seq<char>>,
    env: Option<Seq<char>>,
    current: Option<Seq<char>>,
) -> (Seq<char>, ProfileSource) {
    if flag is Some {
        (flag->0, ProfileSource::Explicit)
    } else if env is Some {
        (env->0, ProfileSource::Env)
    } else if current is Some {
        (current->0, ProfileSource::Current)
    } else {
        ("default"@, ProfileSource::Default)
    }
}

/// The name that is used for a profile.
pub fn sanitize_profile_name(raw: &str) -> (name: String)
    ensures
        name@ == naming::profile_slug(raw@),
{
    naming::sanitize_name(raw)
}

/// The profile that is used, and where its name comes from.
pub fn resolve_profile_from_values(
    profile_override: Option<String>,
    env_profile: Option<String>,
    current_profile: Option<String>,
) -> (out: Result<(String, ProfileSource)>)
    ensures
        ({
            let (raw, source) = chosen_profile(
                text::opt_text(profile_override),
                text::opt_text(env_profile),
                text::opt_text(current_profile),
            );
            if naming::profile_slug(raw).len() == 0 {
                out matches Err(error) && environment::is_config(error, "profile name cannot be empty"@)
            } else {
                out matches Ok((name, from)) && name@ == naming::profile_slug(raw) && from == source
            }
        }),
{
    let (raw, source) = if let Some(profile) = profile_override {
        (profile, ProfileSource::Explicit)
    } else if let Some(profile) = env_profile {
        (profile, ProfileSource::Env)
    } else if let Some(profile) = current_profile {
        (profile, ProfileSource::Current)
    } else {
        ("default".to_string(), ProfileSource::Default)
    };
    let name = sanitize_profile_name(raw.as_str());
    if text::is_empty(name.as_str()) {
        Err(AppError::Config("profile name cannot be empty".to_string()))
    } else {
        Ok((name, source))
    }
}

/// Why no profile can be used, if so.
pub open spec fn profile_refusal(
    flag: Option<Seq<char>>,
    env: EnvValue,
    current: Result<Option<String>>,
) -> Option<Refusal> {
    if env is NotUnicode {
        Some(Refusal::Config(environment::unreadable("tgbacky_PROFILE"@)))
    } else {
        match current {
            Err(failure) => Some(Refusal::Given(failure)),
            Ok(name) => {
                let (raw, _) = chosen_profile(flag, environment::env_text(env), text::opt_text(name));
                if naming::profile_slug(raw).len() == 0 {
                    Some(Refusal::Config("profile name cannot be empty"@))
                } else {
                    None
                }
            },
        }
    }
}

/// The profile that is used, from a flag, the environment and the current profile.
pub fn resolve_profile(
    profile_override: Option<String>,
    env: &EnvValue,
    current: Result<Option<String>>,
) -> (out: Result<(String, ProfileSource)>)
    ensures
        match profile_refusal(text::opt_text(profile_override), *env, current) {
            Some(refusal) => out matches Err(error) && reports(error, refusal),
            None => {
                let (raw, source) = chosen_profile(
                    text::opt_text(profile_override),
                    environment::env_text(*env),
                    text::opt_text(current->Ok_0),
                );
                out matches Ok((name, from)) && name@ == naming::profile_slug(raw) && from == source
            },
        },
{
    let env_profile = match environment::get_optional("tgbacky_PROFILE", env) {
        Ok(found) => found,
        Err(error) => {
            return Err(error);
        },
    };
    match current {
        Err(error) => Err(error),
        Ok(name) => resolve_profile_from_values(profile_override, env_profile, name),
    }
}

/// Whether `error` refuses a profile without a name.
pub open spec fn is_unnamed(error: AppError) -> bool {
    error is InvalidArgument && error.detail() == "profile name cannot be empty"@
}

/// The name that is used for a profile; there has to be something left of it.
pub fn sanitize_profile(raw: &str) -> (out: Result<String>)
    ensures
        match out {
            Ok(name) => name@ == naming::profile_slug(raw@) && name@.len() > 0,
            Err(error) => naming::profile_slug(raw@).len() == 0 && is_unnamed(error),
        },
{
    let name = sanitize_profile_name(raw);
    if text::is_empty(name.as_str()) {
        Err(AppError::InvalidArgument("profile name cannot be empty".to_string()))
    } else {
        Ok(name)
    }
}

/// Where the files of a profile are.
#[derive(Debug)]
pub struct ProfileLayout {
    pub root_dir: String,
    pub session_path: String,
    pub db_path: String,
    pub download_dir: String,
    pub run_artifact_dir: String,
}

/// The folder of a profile.
pub open spec fn profile_root(data_dir: Seq<char>, profile: Seq<char>) -> Seq<char> {
    path::below(path::below(data_dir, "profiles"@), profile)
}

impl ProfileLayout {
    /// Whether this is the layout of `profile`.
    pub open spec fn is_of(self, data_dir: Seq<char>, profile: Seq<char>) -> bool {
        let root = profile_root(data_dir, profile);
        &&& self.root_dir@ == root
        &&& self.session_path@ == path::below(root, "session.db"@)
        &&& self.db_path@ == path::below(root, "state.db"@)
        &&& self.download_dir@ == path::below(root, "downloads"@)
        &&& self.run_artifact_dir@ == path::below(root, "run-artifacts"@)
    }

    pub fn new(data_dir: &str, profile: &str) -> (layout: ProfileLayout)
        ensures
            layout.is_of(data_dir@, profile@),
    {
        let profiles = path::join(data_dir, "profiles");
        let root = path::join(profiles.as_str(), profile);
        ProfileLayout {
            session_path: path::join(root.as_str(), "session.db"),
            db_path: path::join(root.as_str(), "state.db"),
            download_dir: path::join(root.as_str(), "downloads"),
            run_artifact_dir: path::join(root.as_str(), "run-artifacts"),
            root_dir: root,
        }
    }
}

/// Where the files of a profile are.
pub fn profile_layout(data_dir: &str, profile: &str) -> (out: Result<ProfileLayout>)
    ensures
        match out {
            Ok(layout) => naming::profile_slug(profile@).len() > 0 && layout.is_of(
                data_dir@,
                naming::profile_slug(profile@),
            ),
            Err(error) => naming::profile_slug(profile@).len() == 0 && is_unnamed(error),
        },
{
    match sanitize_profile(profile) {
        Ok(name) => Ok(ProfileLayout::new(data_dir, name.as_str())),
        Err(error) => Err(error),
    }
}

/// The folder of all profiles.
pub fn profiles_root(data_dir: &str) -> (out: String)
    ensures
        out@ == path::below(data_dir@, "profiles"@),
{
    path::join(data_dir, "profiles")
}

/// The current profile, from the contents of the file that names it.
pub fn current_profile(raw: Option<&str>) -> (out: Option<String>)
    ensures
        text::opt_text(out) == secrets::named_in(text::opt_str(raw)),
{
    match raw {
        None => None,
        Some(content) => {
            let name = sanitize_profile_name(content);
            if text::is_empty(name.as_str()) {
                None
            } else {
                Some(name)
            }
        },
    }
}

/// The contents of the file that names the current profile.
pub fn set_current_profile(profile: &str) -> (out: Result<String>)
    ensures
        match out {
            Ok(content) => naming::profile_slug(profile@).len() > 0 && content@ == naming::profile_slug(
                profile@,
            ).push('\n'),
            Err(error) => naming::profile_slug(profile@).len() == 0 && is_unnamed(error),
        },
{
    match sanitize_profile(profile) {
        Ok(name) => {
            let mut content = name;
            content.push('\n');
            Ok(content)
        },
        Err(error) => Err(error),
    }
}

/// Whether the file that names the current profile has to go with `profile`.
pub fn clear_current_profile_if_matches(profile: &str, raw: Option<&str>) -> (out: Result<bool>)
    ensures
        match out {
            Ok(clear) => naming::profile_slug(profile@).len() > 0 && clear == (secrets::named_in(
                text::opt_str(raw),
            ) == Some(naming::profile_slug(profile@))),
            Err(error) => naming::profile_slug(profile@).len() == 0 && is_unnamed(error),
        },
{
    match sanitize_profile(profile) {
        Err(error) => Err(error),
        Ok(name) => match current_profile(raw) {
            None => Ok(false),
            Some(current) => Ok(text::same_text(current.as_str(), name.as_str())),
        },
    }
}

/// How many files are loaded at once where nothing else is asked for.
pub fn default_download_concurrency() -> (workers: usize)
    ensures
        workers == DEFAULT_DOWNLOAD_CONCURRENCY,
        workers > 0,
{
    DEFAULT_DOWNLOAD_CONCURRENCY
}

/// How many messages are read ahead of the downloads: 32 for each worker, 64 at least.
pub fn auto_scan_ahead_messages(download_concurrency: usize) -> (messages: usize)
    ensures
        messages == if download_concurrency * 32 < 64 {
            64int
        } else if download_concurrency * 32 > usize::MAX {
            usize::MAX as int
        } else {
            download_concurrency * 32
        },
{
    let window: usize = match download_concurrency.checked_mul(32) {
        Some(window) => window,
        None => usize::MAX,
    };
    if window < 64 {
        64
    } else {
        window
    }
}

/// Why no API profile can be used, if so.
pub open spec fn api_profile_refusal(
    flag: Option<Seq<char>>,
    env: EnvValue,
    current: Result<Option<String>>,
) -> Option<Refusal> {
    let unnamed = Some(Refusal::InvalidArgument("API profile name cannot be empty"@));
    match (flag, env) {
        (Some(raw), _) => if naming::profile_slug(raw).len() == 0 {
            unnamed
        } else {
            None
        },
        (None, EnvValue::Text(raw)) => if naming::profile_slug(raw@).len() == 0 {
            unnamed
        } else {
            None
        },
        (None, EnvValue::NotUnicode) => Some(
            Refusal::Config(environment::unreadable("tgbacky_API_PROFILE"@)),
        ),
        (None, EnvValue::Missing) => match current {
            Err(failure) => Some(Refusal::Given(failure)),
            Ok(_) => None,
        },
    }
}

/// The API profile that is used: by flag, else by the environment, else the current one, else
/// `default`.
pub open spec fn chosen_api_profile(
    flag: Option<Seq<char>>,
    env: EnvValue,
    current: Option<Seq<char>>,
) -> Seq<char> {
    match (flag, env) {
        (Some(raw), _) => naming::profile_slug(raw),
        (None, EnvValue::Text(raw)) => naming::profile_slug(raw@),
        _ => match current {
            Some(name) => name,
            None => "default"@,
        },
    }
}

/// The error for a media filter that is not understood.
pub open spec fn filter_error(fault: Seq<char>) -> Seq<char> {
    "invalid tgbacky_MEDIA_FILTER: "@ + fault
        + "; expected one of photo,image_doc,video,animation,audio,voice,document"@
}

/// Reads a media filter.
pub fn parse_media_filter(value: &str) -> (out: Result<MediaFilter>)
    ensures
        match types::list_fault(types::entries(value@)) {
            Some(fault) => out matches Err(error) && environment::is_config(error, filter_error(fault)),
            None => out matches Ok(filter) && filter == types::list_filter(types::entries(value@)),
        },
{
    proof {
        types::lists_have_one_answer(types::entries(value@));
    }
    match MediaKind::parse_csv(value) {
        Ok(filter) => Ok(filter),
        Err(fault) => {
            let mut detail = text::concat("invalid tgbacky_MEDIA_FILTER: ", fault.as_str());
            detail.append("; expected one of photo,image_doc,video,animation,audio,voice,document");
            Err(AppError::Config(detail))
        },
    }
}

/// Why a text variable is refused, if so.
pub open spec fn text_refusal(name: Seq<char>, value: EnvValue) -> Option<Refusal> {
    if value is NotUnicode {
        Some(Refusal::Config(environment::unreadable(name)))
    } else {
        None
    }
}

/// Why a number variable is refused, if so.
pub open spec fn number_refusal(name: Seq<char>, value: EnvValue, signed: bool, min: int, max: int) ->
    Option<Refusal> {
    match value {
        EnvValue::Missing => None,
        EnvValue::NotUnicode => Some(Refusal::Config(environment::unreadable(name))),
        EnvValue::Text(content) => if number::parsed_within(content@, signed, min, max) is None {
            Some(Refusal::Config(environment::not_a_number(name)))
        } else {
            None
        },
    }
}

/// The number that a variable holds, or `default`.
pub open spec fn number_or(value: EnvValue, max: int, default: int) -> int {
    match value {
        EnvValue::Text(content) => number::parsed_within(content@, false, 0, max)->0,
        _ => default,
    }
}

/// Why a truth variable is refused, if so.
pub open spec fn truth_refusal(name: Seq<char>, value: EnvValue) -> Option<Refusal> {
    match value {
        EnvValue::Missing => None,
        EnvValue::NotUnicode => Some(Refusal::Config(environment::unreadable(name))),
        EnvValue::Text(content) => if environment::bool_named(content@) is None {
            Some(Refusal::Config(environment::not_a_bool(name)))
        } else {
            None
        },
    }
}

/// The truth value that a variable holds, or `default`.
pub open spec fn truth_or(value: EnvValue, default: bool) -> bool {
    match value {
        EnvValue::Text(content) => environment::bool_named(content@)->0,
        _ => default,
    }
}

/// Why the media filter of the environment is refused, if so.
pub open spec fn filter_refusal(env: Environment) -> Option<Refusal> {
    match env.media_filter {
        EnvValue::NotUnicode => Some(
            Refusal::Config(environment::unreadable("tgbacky_MEDIA_FILTER"@)),
        ),
        EnvValue::Text(content) => match types::list_fault(types::entries(content@)) {
            Some(fault) => Some(Refusal::Config(filter_error(fault))),
            None => None,
        },
        EnvValue::Missing => truth_refusal(
            "tgbacky_SAVE_IMAGE_DOCUMENTS"@,
            env.save_image_documents,
        ),
    }
}

/// The media filter of the environment: the kinds it lists, else all; images sent as documents can
/// be left out of all.
pub open spec fn chosen_filter(env: Environment) -> MediaFilter {
    match env.media_filter {
        EnvValue::Text(content) => types::list_filter(types::entries(content@)),
        _ => MediaFilter {
            photo: true,
            image_document: truth_or(env.save_image_documents, true),
            video: true,
            animation: true,
            audio: true,
            voice: true,
            document: true,
        },
    }
}

fn resolve_env_filter(env: &Environment) -> (out: Result<MediaFilter>)
    ensures
        match filter_refusal(*env) {
            Some(refusal) => out matches Err(error) && reports(error, refusal),
            None => out matches Ok(filter) && filter == chosen_filter(*env),
        },
{
    match environment::get_optional("tgbacky_MEDIA_FILTER", &env.media_filter) {
        Err(error) => Err(error),
        Ok(Some(raw)) => parse_media_filter(raw.as_str()),
        Ok(None) => match environment::parse_optional_bool(
            "tgbacky_SAVE_IMAGE_DOCUMENTS",
            &env.save_image_documents,
        ) {
            Err(error) => Err(error),
            Ok(wanted) => {
                let image_document: bool = match wanted {
                    Some(keep) => keep,
                    None => true,
                };
                Ok(
                    MediaFilter {
                        photo: true,
                        image_document,
                        video: true,
                        animation: true,
                        audio: true,
                        voice: true,
                        document: true,
                    },
                )
            },
        },
    }
}

/// Why the API credentials of the environment are refused, if so.
pub open spec fn env_credentials_refusal(env: Environment) -> Option<Refusal> {
    earliest(
        number_refusal("tgbacky_API_ID"@, env.api_id, true, i32::MIN as int, i32::MAX as int),
        earliest(
            text_refusal("tgbacky_API_HASH"@, env.api_hash),
            if env.api_id is Missing != env.api_hash is Missing {
                Some(
                    Refusal::Config("tgbacky_API_ID and tgbacky_API_HASH must be provided together"@),
                )
            } else {
                None
            },
        ),
    )
}

/// Whether `credentials` are those of the environment, where it has some.
pub open spec fn are_env_credentials(credentials: Option<TelegramCredentials>, env: Environment) -> bool {
    match env.api_id {
        EnvValue::Text(api_id) => credentials matches Some(given) && secrets::api_id_value(api_id@)
            == Some(given.api_id as int) && Some(given.api_hash@) == environment::env_text(env.api_hash),
        _ => credentials is None,
    }
}

/// The API credentials of the environment: both variables have to be set, or none.
pub fn load_credentials_from_env(env: &Environment) -> (out: Result<Option<TelegramCredentials>>)
    ensures
        match env_credentials_refusal(*env) {
            Some(refusal) => out matches Err(error) && reports(error, refusal),
            None => out matches Ok(credentials) && are_env_credentials(credentials, *env),
        },
{
    let api_id = match environment::parse_optional_i32("tgbacky_API_ID", &env.api_id) {
        Ok(found) => found,
        Err(error) => {
            return Err(error);
        },
    };
    let api_hash = match environment::get_optional("tgbacky_API_HASH", &env.api_hash) {
        Ok(found) => found,
        Err(error) => {
            return Err(error);
        },
    };
    match (api_id, api_hash) {
        (Some(api_id), Some(api_hash)) => Ok(Some(TelegramCredentials { api_id, api_hash })),
        (None, None) => Ok(None),
        _ => Err(
            AppError::Config(
                "tgbacky_API_ID and tgbacky_API_HASH must be provided together".to_string(),
            ),
        ),
    }
}

/// Settings of which it is known for whom they are, before stored credentials were looked for.
#[derive(Debug)]
pub struct PendingConfig {
    pub profile: String,
    pub profile_source: ProfileSource,
    pub api_profile: String,
    pub layout: ProfileLayout,
    pub media_filter: MediaFilter,
    /// The credentials of flags or environment; where there are none, stored ones are looked for.
    pub credentials: Option<TelegramCredentials>,
    pub credential_source: CredentialSource,
}

/// Why settings are refused before stored credentials are looked for, if so.
pub open spec fn identity_refusal(
    overrides: ConfigOverrides,
    env: Environment,
    current: Result<Option<String>>,
    current_api: Result<Option<String>>,
) -> Option<Refusal> {
    earliest(
        profile_refusal(text::opt_text(overrides.profile), env.profile, current),
        earliest(
            api_profile_refusal(text::opt_text(overrides.api_profile), env.api_profile, current_api),
            earliest(filter_refusal(env), env_credentials_refusal(env)),
        ),
    )
}

/// Whether flags give credentials.
pub open spec fn flags_give_credentials(overrides: ConfigOverrides) -> bool {
    overrides.api_id is Some && overrides.api_hash is Some
}

impl PendingConfig {
    /// Whether these settings follow from flags, environment and the current profiles.
    pub open spec fn follows_from(
        self,
        overrides: ConfigOverrides,
        env: Environment,
        current: Option<Seq<char>>,
        current_api: Option<Seq<char>>,
        data_dir: Seq<char>,
    ) -> bool {
        let (raw, source) = chosen_profile(
            text::opt_text(overrides.profile),
            environment::env_text(env.profile),
            current,
        );
        &&& self.profile@ == naming::profile_slug(raw)
        &&& self.profile_source == source
        &&& self.api_profile@ == chosen_api_profile(
            text::opt_text(overrides.api_profile),
            env.api_profile,
            current_api,
        )
        &&& self.layout.is_of(data_dir, self.profile@)
        &&& self.media_filter == chosen_filter(env)
        &&& if flags_give_credentials(overrides) {
            &&& self.credential_source == CredentialSource::Flags
            &&& self.credentials matches Some(given) && given.api_id == overrides.api_id->0
                && given.api_hash@ == overrides.api_hash->0@
        } else {
            &&& are_env_credentials(self.credentials, env)
            &&& self.credential_source == if self.credentials is Some {
                CredentialSource::Env
            } else {
                CredentialSource::Absent
            }
        }
    }

    /// The settings that can be made without stored credentials. The first thing that is wrong is
    /// reported: the profile, the API profile, the media filter, the credentials of the
    /// environment.
    pub fn begin(
        overrides: &ConfigOverrides,
        env: &Environment,
        current: Result<Option<String>>,
        current_api: Result<Option<String>>,
        data_dir: &str,
    ) -> (out: Result<PendingConfig>)
        ensures
            match identity_refusal(*overrides, *env, current, current_api) {
                Some(refusal) => out matches Err(error) && reports(error, refusal),
                None => out matches Ok(pending) && pending.follows_from(
                    *overrides,
                    *env,
                    text::opt_text(current->Ok_0),
                    match current_api {
                        Ok(name) => text::opt_text(name),
                        Err(_) => None,
                    },
                    data_dir@,
                ),
            },
    {
        let (profile, profile_source) = match resolve_profile(
            text::copy_opt(&overrides.profile),
            &env.profile,
            current,
        ) {
            Ok(resolved) => resolved,
            Err(error) => {
                return Err(error);
            },
        };
        let api_profile = match secrets::resolve_api_profile(
            text::copy_opt(&overrides.api_profile),
            &env.api_profile,
            current_api,
        ) {
            Ok(name) => name,
            Err(error) => {
                return Err(error);
            },
        };
        let layout = ProfileLayout::new(data_dir, profile.as_str());
        let media_filter = match resolve_env_filter(env) {
            Ok(filter) => filter,
            Err(error) => {
                return Err(error);
            },
        };
        let env_credentials = match load_credentials_from_env(env) {
            Ok(credentials) => credentials,
            Err(error) => {
                return Err(error);
            },
        };
        let (credentials, credential_source) = match (overrides.api_id, &overrides.api_hash) {
            (Some(api_id), Some(api_hash)) => (
                Some(TelegramCredentials { api_id, api_hash: api_hash.clone() }),
                CredentialSource::Flags,
            ),
            _ => match env_credentials {
                Some(credentials) => (Some(credentials), CredentialSource::Env),
                None => (None, CredentialSource::Absent),
            },
        };
        Ok(
            PendingConfig {
                profile,
                profile_source,
                api_profile,
                layout,
                media_filter,
                credentials,
                credential_source,
            },
        )
    }

    /// Whether stored credentials have to be looked for.
    pub fn needs_stored_credentials(&self) -> (yes: bool)
        ensures
            yes == (self.credentials is None),
    {
        self.credentials.is_none()
    }
}

/// The settings of a run.
#[derive(Debug)]
pub struct AppConfig {
    pub profile: String,
    pub api_profile: String,
    pub profile_source: ProfileSource,
    pub credential_source: CredentialSource,
    pub api_id: Option<i32>,
    pub api_hash: Option<String>,
    pub session_path: String,
    pub db_path: String,
    pub download_dir: String,
    pub run_artifact_dir: String,
    pub log_level: LogLevel,
    pub retry_count: u32,
    pub retry_backoff_ms: u64,
    pub download_stall_timeout_secs: u64,
    pub media_filter: MediaFilter,
    pub filename_mode: FilenameMode,
    pub temp_extension: String,
    pub request_delay_ms: u64,
    pub download_delay_ms: u64,
    pub flood_sleep_threshold_secs: u64,
    pub jitter_ms: u64,
    pub download_concurrency: usize,
    pub download_concurrency_origin: DownloadConcurrencyOrigin,
    pub cleanup_stale_parts_on_start: bool,
    pub stale_part_min_age_hours: u64,
    pub verbose_dependency_logs: bool,
}

impl Clone for AppConfig {
    fn clone(&self) -> (copy: Self)
        ensures
            copy == *self,
    {
        AppConfig {
            profile: self.profile.clone(),
            api_profile: self.api_profile.clone(),
            profile_source: self.profile_source,
            credential_source: self.credential_source,
            api_id: self.api_id,
            api_hash: text::copy_opt(&self.api_hash),
            session_path: self.session_path.clone(),
            db_path: self.db_path.clone(),
            download_dir: self.download_dir.clone(),
            run_artifact_dir: self.run_artifact_dir.clone(),
            log_level: self.log_level,
            retry_count: self.retry_count,
            retry_backoff_ms: self.retry_backoff_ms,
            download_stall_timeout_secs: self.download_stall_timeout_secs,
            media_filter: self.media_filter,
            filename_mode: self.filename_mode,
            temp_extension: self.temp_extension.clone(),
            request_delay_ms: self.request_delay_ms,
            download_delay_ms: self.download_delay_ms,
            flood_sleep_threshold_secs: self.flood_sleep_threshold_secs,
            jitter_ms: self.jitter_ms,
            download_concurrency: self.download_concurrency,
            download_concurrency_origin: self.download_concurrency_origin,
            cleanup_stale_parts_on_start: self.cleanup_stale_parts_on_start,
            stale_part_min_age_hours: self.stale_part_min_age_hours,
            verbose_dependency_logs: self.verbose_dependency_logs,
        }
    }
}

/// The path that a setting stands for: by flag, else by the environment, else below the profile.
pub open spec fn chosen_path(flag: Option<String>, env: EnvValue, default: Seq<char>) -> Seq<char> {
    match (flag, env) {
        (Some(given), _) => given@,
        (None, EnvValue::Text(given)) => given@,
        _ => default,
    }
}

/// Why a path setting is refused, if so: the environment counts only where no flag is given.
pub open spec fn path_refusal(flag: Option<String>, name: Seq<char>, env: EnvValue) -> Option<Refusal> {
    if flag is Some {
        None
    } else {
        text_refusal(name, env)
    }
}

fn resolve_path_override(
    flag_value: &Option<String>,
    env_name: &str,
    env: &EnvValue,
    default: &str,
) -> (out: Result<String>)
    ensures
        match path_refusal(*flag_value, env_name@, *env) {
            Some(refusal) => out matches Err(error) && reports(error, refusal),
            None => out matches Ok(given) && given@ == chosen_path(*flag_value, *env, default@),
        },
{
    match flag_value {
        Some(given) => Ok(given.clone()),
        None => match environment::get_optional(env_name, env) {
            Err(error) => Err(error),
            Ok(Some(given)) => Ok(given),
            Ok(None) => Ok(default.to_string()),
        },
    }
}

/// The level that a text names; white space around it and ASCII case are ignored.
pub open spec fn log_level_of(value: Seq<char>) -> Option<LogLevel> {
    log_level_named(text::lowered(text::trimmed(value)))
}

/// Reads the name of a log level.
pub fn parse_log_level(value: &str) -> (out: Result<LogLevel>)
    ensures
        match log_level_of(value@) {
            Some(level) => out matches Ok(given) && given == level,
            None => out matches Err(error) && environment::is_config(
                error,
                "tgbacky_LOG_LEVEL must be one of error,warn,info,debug,trace"@,
            ),
        },
{
    let trimmed = text::trim(value);
    let name = text::lower(trimmed.as_str());
    let name = name.as_str();
    if text::same_text(name, "error") {
        Ok(LogLevel::Error)
    } else if text::same_text(name, "warn") {
        Ok(LogLevel::Warn)
    } else if text::same_text(name, "info") {
        Ok(LogLevel::Info)
    } else if text::same_text(name, "debug") {
        Ok(LogLevel::Debug)
    } else if text::same_text(name, "trace") {
        Ok(LogLevel::Trace)
    } else {
        Err(
            AppError::Config(
                "tgbacky_LOG_LEVEL must be one of error,warn,info,debug,trace".to_string(),
            ),
        )
    }
}

/// Why the log level of the environment is refused, if so.
pub open spec fn log_level_refusal(value: EnvValue) -> Option<Refusal> {
    match value {
        EnvValue::Missing => None,
        EnvValue::NotUnicode => Some(Refusal::Config(environment::unreadable("tgbacky_LOG_LEVEL"@))),
        EnvValue::Text(content) => if log_level_of(content@) is None {
            Some(Refusal::Config("tgbacky_LOG_LEVEL must be one of error,warn,info,debug,trace"@))
        } else {
            None
        },
    }
}

/// The log level of the environment; errors only where it names none.
pub open spec fn chosen_log_level(value: EnvValue) -> LogLevel {
    match value {
        EnvValue::Text(content) => log_level_of(content@)->0,
        _ => LogLevel::Error,
    }
}

fn resolve_log_level(value: &EnvValue) -> (out: Result<LogLevel>)
    ensures
        match log_level_refusal(*value) {
            Some(refusal) => out matches Err(error) && reports(error, refusal),
            None => out matches Ok(level) && level == chosen_log_level(*value),
        },
{
    match environment::get_optional("tgbacky_LOG_LEVEL", value) {
        Err(error) => Err(error),
        Ok(None) => Ok(LogLevel::Error),
        Ok(Some(content)) => parse_log_level(content.as_str()),
    }
}

/// The error for an unknown way of naming files.
pub open spec fn filename_mode_error() -> Seq<char> {
    "tgbacky_FILENAME_MODE must be `stable` or `original_if_available`"@
}

/// Why the way of naming files is refused, if so.
pub open spec fn filename_mode_refusal(value: EnvValue) -> Option<Refusal> {
    match value {
        EnvValue::Missing => None,
        EnvValue::NotUnicode => Some(
            Refusal::Config(environment::unreadable("tgbacky_FILENAME_MODE"@)),
        ),
        EnvValue::Text(content) => if types::filename_mode_named(
            text::lowered(text::trimmed(content@)),
        ) is None {
            Some(Refusal::Config(filename_mode_error()))
        } else {
            None
        },
    }
}

/// The way of naming files; stable names where the environment names none.
pub open spec fn chosen_filename_mode(value: EnvValue) -> FilenameMode {
    match value {
        EnvValue::Text(content) => types::filename_mode_named(
            text::lowered(text::trimmed(content@)),
        )->0,
        _ => FilenameMode::Stable,
    }
}

fn resolve_filename_mode(value: &EnvValue) -> (out: Result<FilenameMode>)
    ensures
        match filename_mode_refusal(*value) {
            Some(refusal) => out matches Err(error) && reports(error, refusal),
            None => out matches Ok(mode) && mode == chosen_filename_mode(*value),
        },
{
    match environment::get_optional("tgbacky_FILENAME_MODE", value) {
        Err(error) => Err(error),
        Ok(None) => Ok(FilenameMode::Stable),
        Ok(Some(content)) => match FilenameMode::parse(content.as_str()) {
            Some(mode) => Ok(mode),
            None => Err(
                AppError::Config(
                    "tgbacky_FILENAME_MODE must be `stable` or `original_if_available`".to_string(),
                ),
            ),
        },
    }
}

/// The suffix of unfinished files, with a point in front.
pub open spec fn pointed(value: Seq<char>) -> Seq<char> {
    if value.len() > 0 && value[0] == '.' {
        value
    } else {
        "."@ + value
    }
}

/// The suffix of unfinished files, with a point in front.
pub fn normalize_temp_extension(value: String) -> (out: String)
    ensures
        out@ == pointed(value@),
{
    let chars = text::chars_of(value.as_str());
    if chars.len() > 0 && chars[0] == '.' {
        value
    } else {
        text::concat(".", value.as_str())
    }
}

/// The suffix of unfinished files.
pub open spec fn chosen_extension(value: EnvValue) -> Seq<char> {
    match value {
        EnvValue::Text(content) => pointed(content@),
        _ => ".part"@,
    }
}

fn resolve_temp_extension(value: &EnvValue) -> (out: Result<String>)
    ensures
        match text_refusal("tgbacky_TEMP_EXTENSION"@, *value) {
            Some(refusal) => out matches Err(error) && reports(error, refusal),
            None => out matches Ok(given) && given@ == chosen_extension(*value),
        },
{
    proof {
        reveal_strlit(".part");
    }
    match environment::get_optional("tgbacky_TEMP_EXTENSION", value) {
        Err(error) => Err(error),
        Ok(Some(content)) => Ok(normalize_temp_extension(content)),
        Ok(None) => Ok(normalize_temp_extension(".part".to_string())),
    }
}

/// The first refusal of a list.
pub open spec fn first_of(list: Seq<Option<Refusal>>) -> Option<Refusal>
    decreases list.len(),
{
    if list.len() == 0 {
        None
    } else {
        earliest(list[0], first_of(list.drop_first()))
    }
}

/// What may be wrong with the remaining settings, in the order in which they are read.
pub open spec fn setting_refusals(overrides: ConfigOverrides, env: Environment) -> Seq<Option<Refusal>> {
    seq![
        path_refusal(overrides.session_path, "tgbacky_SESSION_PATH"@, env.session_path),
        path_refusal(overrides.db_path, "tgbacky_DB_PATH"@, env.db_path),
        path_refusal(overrides.download_dir, "tgbacky_DOWNLOAD_DIR"@, env.download_dir),
        path_refusal(overrides.run_artifact_dir, "tgbacky_RUN_ARTIFACT_DIR"@, env.run_artifact_dir),
        log_level_refusal(env.log_level),
        number_refusal("tgbacky_RETRY_COUNT"@, env.retry_count, false, 0, u32::MAX as int),
        number_refusal("tgbacky_RETRY_BACKOFF_MS"@, env.retry_backoff_ms, false, 0, u64::MAX as int),
        number_refusal("tgbacky_DOWNLOAD_STALL_TIMEOUT_SECS"@, env.download_stall_timeout_secs, false, 0, u64::MAX as int),
        filename_mode_refusal(env.filename_mode),
        text_refusal("tgbacky_TEMP_EXTENSION"@, env.temp_extension),
        number_refusal("tgbacky_REQUEST_DELAY_MS"@, env.request_delay_ms, false, 0, u64::MAX as int),
        number_refusal("tgbacky_DOWNLOAD_DELAY_MS"@, env.download_delay_ms, false, 0, u64::MAX as int),
        number_refusal("tgbacky_FLOOD_SLEEP_THRESHOLD_SECS"@, env.flood_sleep_threshold_secs, false, 0, u64::MAX as int),
        number_refusal("tgbacky_JITTER_MS"@, env.jitter_ms, false, 0, u64::MAX as int),
        truth_refusal("tgbacky_CLEANUP_STALE_PARTS_ON_START"@, env.cleanup_stale_parts_on_start),
        number_refusal("tgbacky_STALE_PART_MIN_AGE_HOURS"@, env.stale_part_min_age_hours, false, 0, u64::MAX as int),
        truth_refusal("tgbacky_VERBOSE_DEPENDENCY_LOGS"@, env.verbose_dependency_logs),
    ]
}

/// Where a list has a first refusal, it is the one at the first place that holds one.
proof fn first_refusal(list: Seq<Option<Refusal>>, at: int)
    requires
        0 <= at < list.len(),
        forall|i: int| 0 <= i < at ==> #[trigger] list[i] is None,
        list[at] is Some,
    ensures
        first_of(list) == list[at],
    decreases list.len(),
{
    if at > 0 {
        let rest = list.drop_first();
        assert forall|i: int| 0 <= i < at - 1 implies #[trigger] rest[i] is None by {
            assert(rest[i] == list[i + 1]);
        }
        assert(list[0] is None);
        first_refusal(rest, at - 1);
    }
}

proof fn no_refusal(list: Seq<Option<Refusal>>)
    requires
        forall|i: int| 0 <= i < list.len() ==> #[trigger] list[i] is None,
    ensures
        first_of(list) is None,
    decreases list.len(),
{
    if list.len() > 0 {
        let rest = list.drop_first();
        assert forall|i: int| 0 <= i < rest.len() implies #[trigger] rest[i] is None by {
            assert(rest[i] == list[i + 1]);
        }
        assert(list[0] is None);
        no_refusal(rest);
    }
}

fn resolve_u64(name: &str, value: &EnvValue, default: u64) -> (out: Result<u64>)
    ensures
        match number_refusal(name@, *value, false, 0, u64::MAX as int) {
            Some(refusal) => out matches Err(error) && reports(error, refusal),
            None => out matches Ok(count) && count == number_or(*value, u64::MAX as int, default as int),
        },
{
    match environment::parse_optional_u64(name, value) {
        Err(error) => Err(error),
        Ok(Some(count)) => Ok(count),
        Ok(None) => Ok(default),
    }
}

fn resolve_u32(name: &str, value: &EnvValue, default: u32) -> (out: Result<u32>)
    ensures
        match number_refusal(name@, *value, false, 0, u32::MAX as int) {
            Some(refusal) => out matches Err(error) && reports(error, refusal),
            None => out matches Ok(count) && count == number_or(*value, u32::MAX as int, default as int),
        },
{
    match environment::parse_optional_u32(name, value) {
        Err(error) => Err(error),
        Ok(Some(count)) => Ok(count),
        Ok(None) => Ok(default),
    }
}

fn resolve_bool(name: &str, value: &EnvValue, default: bool) -> (out: Result<bool>)
    ensures
        match truth_refusal(name@, *value) {
            Some(refusal) => out matches Err(error) && reports(error, refusal),
            None => out matches Ok(truth) && truth == truth_or(*value, default),
        },
{
    match environment::parse_optional_bool(name, value) {
        Err(error) => Err(error),
        Ok(Some(truth)) => Ok(truth),
        Ok(None) => Ok(default),
    }
}

impl AppConfig {
    /// Whether the settings that are read from flags and environment are these.
    pub open spec fn is_set_by(
        self,
        overrides: ConfigOverrides,
        env: Environment,
        layout: ProfileLayout,
    ) -> bool {
        let most = u64::MAX as int;
        &&& self.session_path@ == chosen_path(
            overrides.session_path,
            env.session_path,
            layout.session_path@,
        )
        &&& self.db_path@ == chosen_path(overrides.db_path, env.db_path, layout.db_path@)
        &&& self.download_dir@ == chosen_path(
            overrides.download_dir,
            env.download_dir,
            layout.download_dir@,
        )
        &&& self.run_artifact_dir@ == chosen_path(
            overrides.run_artifact_dir,
            env.run_artifact_dir,
            layout.run_artifact_dir@,
        )
        &&& self.log_level == chosen_log_level(env.log_level)
        &&& self.retry_count == number_or(env.retry_count, u32::MAX as int, 3)
        &&& self.retry_backoff_ms == number_or(env.retry_backoff_ms, most, 1_000)
        &&& self.download_stall_timeout_secs == number_or(env.download_stall_timeout_secs, most, 120)
        &&& self.filename_mode == chosen_filename_mode(env.filename_mode)
        &&& self.temp_extension@ == chosen_extension(env.temp_extension)
        &&& self.request_delay_ms == number_or(env.request_delay_ms, most, 400)
        &&& self.download_delay_ms == number_or(env.download_delay_ms, most, 850)
        &&& self.flood_sleep_threshold_secs == number_or(env.flood_sleep_threshold_secs, most, 0)
        &&& self.jitter_ms == number_or(env.jitter_ms, most, 250)
        &&& self.download_concurrency == DEFAULT_DOWNLOAD_CONCURRENCY
        &&& self.download_concurrency_origin == DownloadConcurrencyOrigin::Auto
        &&& self.cleanup_stale_parts_on_start == truth_or(env.cleanup_stale_parts_on_start, false)
        &&& self.stale_part_min_age_hours == number_or(env.stale_part_min_age_hours, most, 12)
        &&& self.verbose_dependency_logs == truth_or(env.verbose_dependency_logs, false)
    }

    /// Whether the settings hold these credentials, from this source.
    pub open spec fn holds_credentials(
        self,
        credentials: Option<TelegramCredentials>,
        source: CredentialSource,
    ) -> bool {
        &&& self.credential_source == source
        &&& match credentials {
            Some(given) => self.api_id == Some(given.api_id) && text::opt_text(self.api_hash) == Some(
                given.api_hash@,
            ),
            None => self.api_id is None && self.api_hash is None,
        }
    }

    /// The settings of a run. Credentials of flags come before those of the environment, and those
    /// before stored ones; `stored` counts only where there are no others. The first setting that
    /// is wrong is reported. Whether the settings fit together is for `validate`.
    pub fn load(
        pending: PendingConfig,
        overrides: &ConfigOverrides,
        env: &Environment,
        stored: Result<(Option<TelegramCredentials>, CredentialStorageStatus)>,
    ) -> (out: Result<AppConfig>)
        ensures
            ({
                let failure = if pending.credentials is None && stored is Err {
                    Some(Refusal::Given(stored->Err_0))
                } else {
                    None
                };
                match earliest(failure, first_of(setting_refusals(*overrides, *env))) {
                    Some(refusal) => out matches Err(error) && reports(error, refusal),
                    None => {
                        &&& out matches Ok(config)
                        &&& config.profile@ == pending.profile@
                        &&& config.profile_source == pending.profile_source
                        &&& config.api_profile@ == pending.api_profile@
                        &&& config.media_filter == pending.media_filter
                        &&& config.is_set_by(*overrides, *env, pending.layout)
                        &&& if pending.credentials is Some {
                            config.holds_credentials(pending.credentials, pending.credential_source)
                        } else {
                            let (given, status) = stored->Ok_0;
                            config.holds_credentials(
                                given,
                                if given is Some {
                                    CredentialSource::Stored(status)
                                } else {
                                    CredentialSource::Absent
                                },
                            )
                        }
                    },
                }
            }),
    {
        let (credentials, credential_source) = match pending.credentials {
            Some(credentials) => (Some(credentials), pending.credential_source),
            None => match stored {
                Err(error) => {
                    return Err(error);
                },
                Ok((Some(credentials), status)) => (
                    Some(credentials),
                    CredentialSource::Stored(status),
                ),
                Ok((None, _)) => (None, CredentialSource::Absent),
            },
        };
        let (api_id, api_hash) = match credentials {
            Some(credentials) => (Some(credentials.api_id), Some(credentials.api_hash)),
            None => (None, None),
        };
        let ghost list = setting_refusals(*overrides, *env);
        let session_path = match resolve_path_override(
            &overrides.session_path,
            "tgbacky_SESSION_PATH",
            &env.session_path,
            pending.layout.session_path.as_str(),
        ) {
            Ok(value) => value,
            Err(error) => {
                proof {
                    first_refusal(list, 0);
                }
                return Err(error);
            },
        };
        let db_path = match resolve_path_override(
            &overrides.db_path,
            "tgbacky_DB_PATH",
            &env.db_path,
            pending.layout.db_path.as_str(),
        ) {
            Ok(value) => value,
            Err(error) => {
                proof {
                    first_refusal(list, 1);
                }
                return Err(error);
            },
        };
        let download_dir = match resolve_path_override(
            &overrides.download_dir,
            "tgbacky_DOWNLOAD_DIR",
            &env.download_dir,
            pending.layout.download_dir.as_str(),
        ) {
            Ok(value) => value,
            Err(error) => {
                proof {
                    first_refusal(list, 2);
                }
                return Err(error);
            },
        };
        let run_artifact_dir = match resolve_path_override(
            &overrides.run_artifact_dir,
            "tgbacky_RUN_ARTIFACT_DIR",
            &env.run_artifact_dir,
            pending.layout.run_artifact_dir.as_str(),
        ) {
            Ok(value) => value,
            Err(error) => {
                proof {
                    first_refusal(list, 3);
                }
                return Err(error);
            },
        };
        let log_level = match resolve_log_level(&env.log_level) {
            Ok(value) => value,
            Err(error) => {
                proof {
                    first_refusal(list, 4);
                }
                return Err(error);
            },
        };
        let retry_count = match resolve_u32("tgbacky_RETRY_COUNT", &env.retry_count, 3) {
            Ok(value) => value,
            Err(error) => {
                proof {
                    first_refusal(list, 5);
                }
                return Err(error);
            },
        };
        let retry_backoff_ms = match resolve_u64(
            "tgbacky_RETRY_BACKOFF_MS",
            &env.retry_backoff_ms,
            1000,
        ) {
            Ok(value) => value,
            Err(error) => {
                proof {
                    first_refusal(list, 6);
                }
                return Err(error);
            },
        };
        let download_stall_timeout_secs = match resolve_u64(
            "tgbacky_DOWNLOAD_STALL_TIMEOUT_SECS",
            &env.download_stall_timeout_secs,
            120,
        ) {
            Ok(value) => value,
            Err(error) => {
                proof {
                    first_refusal(list, 7);
                }
                return Err(error);
            },
        };
        let filename_mode = match resolve_filename_mode(&env.filename_mode) {
            Ok(value) => value,
            Err(error) => {
                proof {
                    first_refusal(list, 8);
                }
                return Err(error);
            },
        };
        let temp_extension = match resolve_temp_extension(&env.temp_extension) {
            Ok(value) => value,
            Err(error) => {
                proof {
                    first_refusal(list, 9);
                }
                return Err(error);
            },
        };
        let request_delay_ms = match resolve_u64(
            "tgbacky_REQUEST_DELAY_MS",
            &env.request_delay_ms,
            400,
        ) {
            Ok(value) => value,
            Err(error) => {
                proof {
                    first_refusal(list, 10);
                }
                return Err(error);
            },
        };
        let download_delay_ms = match resolve_u64(
            "tgbacky_DOWNLOAD_DELAY_MS",
            &env.download_delay_ms,
            850,
        ) {
            Ok(value) => value,
            Err(error) => {
                proof {
                    first_refusal(list, 11);
                }
                return Err(error);
            },
        };
        let flood_sleep_threshold_secs = match resolve_u64(
            "tgbacky_FLOOD_SLEEP_THRESHOLD_SECS",
            &env.flood_sleep_threshold_secs,
            0,
        ) {
            Ok(value) => value,
            Err(error) => {
                proof {
                    first_refusal(list, 12);
                }
                return Err(error);
            },
        };
        let jitter_ms = match resolve_u64(
            "tgbacky_JITTER_MS",
            &env.jitter_ms,
            250,
        ) {
            Ok(value) => value,
            Err(error) => {
                proof {
                    first_refusal(list, 13);
                }
                return Err(error);
            },
        };
        let cleanup_stale_parts_on_start = match resolve_bool(
            "tgbacky_CLEANUP_STALE_PARTS_ON_START",
            &env.cleanup_stale_parts_on_start,
            false,
        ) {
            Ok(value) => value,
            Err(error) => {
                proof {
                    first_refusal(list, 14);
                }
                return Err(error);
            },
        };
        let stale_part_min_age_hours = match resolve_u64(
            "tgbacky_STALE_PART_MIN_AGE_HOURS",
            &env.stale_part_min_age_hours,
            12,
        ) {
            Ok(value) => value,
            Err(error) => {
                proof {
                    first_refusal(list, 15);
                }
                return Err(error);
            },
        };
        let verbose_dependency_logs = match resolve_bool(
            "tgbacky_VERBOSE_DEPENDENCY_LOGS",
            &env.verbose_dependency_logs,
            false,
        ) {
            Ok(value) => value,
            Err(error) => {
                proof {
                    first_refusal(list, 16);
                }
                return Err(error);
            },
        };
        proof {
            no_refusal(list);
        }
        Ok(
            AppConfig {
                profile: pending.profile,
                api_profile: pending.api_profile,
                profile_source: pending.profile_source,
                credential_source,
                api_id,
                api_hash,
                session_path,
                db_path,
                download_dir,
                run_artifact_dir,
                log_level,
                retry_count,
                retry_backoff_ms,
                download_stall_timeout_secs,
                media_filter: pending.media_filter,
                filename_mode,
                temp_extension,
                request_delay_ms,
                download_delay_ms,
                flood_sleep_threshold_secs,
                jitter_ms,
                download_concurrency: default_download_concurrency(),
                download_concurrency_origin: DownloadConcurrencyOrigin::Auto,
                cleanup_stale_parts_on_start,
                stale_part_min_age_hours,
                verbose_dependency_logs,
            },
        )
    }
}

/// What the machine makes of the paths in the settings: their canonical forms, where they exist, and
/// the character that separates their components.
#[derive(Debug)]
pub struct CanonicalPaths {
    pub main_separator: char,
    pub session_path: Option<String>,
    pub db_path: Option<String>,
    pub download_dir: Option<String>,
    pub run_artifact_dir: Option<String>,
}

/// The form in which a path is compared: the canonical one where it exists, else its text below
/// the working folder with `.` and `..` resolved.
pub open spec fn compared(base: Seq<char>, given: Seq<char>, canonical: Option<String>) -> Seq<char> {
    match canonical {
        Some(existing) => existing@,
        None => path::lexical(path::below(base, given)),
    }
}

fn normalize_path_for_validation(base: &str, given: &str, canonical: &Option<String>) -> (out: String)
    ensures
        out@ == compared(base@, given@, *canonical),
{
    let absolute = path::join(base, given);
    fsutil::normalize_path(absolute.as_str(), text::copy_opt(canonical))
}

/// The paths of the settings in the form in which they are compared, and the separator.
pub struct ComparedPaths {
    pub main_separator: char,
    pub session: Seq<char>,
    pub db: Seq<char>,
    pub downloads: Seq<char>,
    pub artifacts: Seq<char>,
}

impl AppConfig {
    pub open spec fn compared_paths(self, base: Seq<char>, canonical: CanonicalPaths) -> ComparedPaths {
        ComparedPaths {
            main_separator: canonical.main_separator,
            session: compared(base, self.session_path@, canonical.session_path),
            db: compared(base, self.db_path@, canonical.db_path),
            downloads: compared(base, self.download_dir@, canonical.download_dir),
            artifacts: compared(base, self.run_artifact_dir@, canonical.run_artifact_dir),
        }
    }

    /// What keeps the settings from fitting together, if anything: the first of these.
    pub open spec fn fault(self, paths: ComparedPaths) -> Option<Seq<char>> {
        if self.api_id is Some && self.api_id->0 <= 0 {
            Some("tgbacky_API_ID must be a positive integer"@)
        } else if self.api_hash is Some && text::trimmed(self.api_hash->0@).len() == 0 {
            Some("tgbacky_API_HASH cannot be empty"@)
        } else if path::same(paths.session, paths.db) {
            Some("tgbacky_SESSION_PATH and tgbacky_DB_PATH must be different files"@)
        } else if path::leads_below(paths.session, paths.downloads) || path::leads_below(
            paths.db,
            paths.downloads,
        ) || path::leads_below(paths.session, paths.artifacts) || path::leads_below(
            paths.db,
            paths.artifacts,
        ) {
            Some("download/artifact directories cannot overlap the session or state database files"@)
        } else if path::leads_below(paths.artifacts, paths.downloads) || path::leads_below(
            paths.downloads,
            paths.artifacts,
        ) {
            Some("tgbacky_DOWNLOAD_DIR and tgbacky_RUN_ARTIFACT_DIR must not overlap"@)
        } else if self.temp_extension@.contains(paths.main_separator) {
            Some("tgbacky_TEMP_EXTENSION cannot contain path separators"@)
        } else if self.request_delay_ms == 0 || self.download_delay_ms == 0 {
            Some("request and download delays must be greater than zero"@)
        } else if self.download_concurrency == 0 {
            Some("download worker count must be greater than zero"@)
        } else if self.retry_backoff_ms == 0 && self.retry_count > 0 {
            Some("tgbacky_RETRY_BACKOFF_MS must be greater than zero when retries are enabled"@)
        } else if self.download_stall_timeout_secs == 0 {
            Some("tgbacky_DOWNLOAD_STALL_TIMEOUT_SECS must be greater than zero"@)
        } else {
            None
        }
    }

    /// The settings, if they fit together. `base` is the working folder.
    pub fn checked(self, base: &str, canonical: &CanonicalPaths) -> (out: Result<AppConfig>)
        ensures
            match self.fault(self.compared_paths(base@, *canonical)) {
                Some(fault) => out matches Err(error) && environment::is_config(error, fault),
                None => out == Ok::<AppConfig, AppError>(self),
            },
    {
        match self.validate(base, canonical) {
            Ok(()) => Ok(self),
            Err(error) => Err(error),
        }
    }

    /// Checks that the settings fit together. `base` is the working folder.
    pub fn validate(&self, base: &str, canonical: &CanonicalPaths) -> (out: Result<()>)
        ensures
            match self.fault(self.compared_paths(base@, *canonical)) {
                Some(fault) => out matches Err(error) && environment::is_config(error, fault),
                None => out is Ok,
            },
    {
        let session = normalize_path_for_validation(
            base,
            self.session_path.as_str(),
            &canonical.session_path,
        );
        let db = normalize_path_for_validation(base, self.db_path.as_str(), &canonical.db_path);
        let downloads = normalize_path_for_validation(
            base,
            self.download_dir.as_str(),
            &canonical.download_dir,
        );
        let artifacts = normalize_path_for_validation(
            base,
            self.run_artifact_dir.as_str(),
            &canonical.run_artifact_dir,
        );
        let session = session.as_str();
        let db = db.as_str();
        let downloads = downloads.as_str();
        let artifacts = artifacts.as_str();
        if let Some(api_id) = self.api_id {
            if api_id <= 0 {
                return Err(
                    AppError::Config("tgbacky_API_ID must be a positive integer".to_string()),
                );
            }
        }
        if let Some(api_hash) = &self.api_hash {
            let trimmed = text::trim(api_hash.as_str());
            if text::is_empty(trimmed.as_str()) {
                return Err(AppError::Config("tgbacky_API_HASH cannot be empty".to_string()));
            }
        }
        if path::is_same(session, db) {
            return Err(
                AppError::Config(
                    "tgbacky_SESSION_PATH and tgbacky_DB_PATH must be different files".to_string(),
                ),
            );
        }
        if path::starts_with(session, downloads) || path::starts_with(db, downloads)
            || path::starts_with(session, artifacts) || path::starts_with(db, artifacts) {
            return Err(
                AppError::Config(
                    "download/artifact directories cannot overlap the session or state database files".to_string(),
                ),
            );
        }
        if path::starts_with(artifacts, downloads) || path::starts_with(downloads, artifacts) {
            return Err(
                AppError::Config(
                    "tgbacky_DOWNLOAD_DIR and tgbacky_RUN_ARTIFACT_DIR must not overlap".to_string(),
                ),
            );
        }
        if holds(self.temp_extension.as_str(), canonical.main_separator) {
            return Err(
                AppError::Config(
                    "tgbacky_TEMP_EXTENSION cannot contain path separators".to_string(),
                ),
            );
        }
        if self.request_delay_ms == 0 || self.download_delay_ms == 0 {
            return Err(
                AppError::Config(
                    "request and download delays must be greater than zero".to_string(),
                ),
            );
        }
        if self.download_concurrency == 0 {
            return Err(
                AppError::Config("download worker count must be greater than zero".to_string()),
            );
        }
        if self.retry_backoff_ms == 0 && self.retry_count > 0 {
            return Err(
                AppError::Config(
                    "tgbacky_RETRY_BACKOFF_MS must be greater than zero when retries are enabled".to_string(),
                ),
            );
        }
        if self.download_stall_timeout_secs == 0 {
            return Err(
                AppError::Config(
                    "tgbacky_DOWNLOAD_STALL_TIMEOUT_SECS must be greater than zero".to_string(),
                ),
            );
        }
        Ok(())
    }

    /// The API credentials of the settings.
    pub fn telegram_credentials(&self) -> (out: Result<TelegramCredentials>)
        ensures
            match (self.api_id, self.api_hash) {
                (Some(api_id), Some(api_hash)) => out matches Ok(given) && given.api_id == api_id
                    && given.api_hash@ == api_hash@,
                _ => out matches Err(error) && error is Authentication && error.detail()
                    == "Telegram API credentials are not configured for API profile `"@
                    + self.api_profile@ + "`; run `tgbacky auth` or `tgbacky api add`"@,
            },
    {
        match (self.api_id, &self.api_hash) {
            (Some(api_id), Some(api_hash)) => Ok(
                TelegramCredentials { api_id, api_hash: api_hash.clone() },
            ),
            _ => {
                let mut detail = text::concat(
                    "Telegram API credentials are not configured for API profile `",
                    self.api_profile.as_str(),
                );
                detail.append("`; run `tgbacky auth` or `tgbacky api add`");
                Err(AppError::Authentication(detail))
            },
        }
    }

    /// The settings with other credentials.
    pub open spec fn using(self, credentials: TelegramCredentials) -> AppConfig {
        AppConfig {
            api_id: Some(credentials.api_id),
            api_hash: Some(credentials.api_hash),
            credential_source: CredentialSource::Runtime,
            ..self
        }
    }

    /// The settings with other credentials, checked again.
    pub fn with_telegram_credentials(
        &self,
        credentials: TelegramCredentials,
        base: &str,
        canonical: &CanonicalPaths,
    ) -> (out: Result<AppConfig>)
        ensures
            ({
                let changed = self.using(credentials);
                match changed.fault(changed.compared_paths(base@, *canonical)) {
                    Some(fault) => out matches Err(error) && environment::is_config(error, fault),
                    None => out matches Ok(config) && config == changed,
                }
            }),
    {
        let mut config = self.clone();
        config.api_id = Some(credentials.api_id);
        config.api_hash = Some(credentials.api_hash);
        config.credential_source = CredentialSource::Runtime;
        match config.validate(base, canonical) {
            Ok(()) => Ok(config),
            Err(error) => Err(error),
        }
    }

    /// The settings with another session file, checked again. `canonical` is for the new settings.
    pub fn with_session_path(
        &self,
        session_path: String,
        base: &str,
        canonical: &CanonicalPaths,
    ) -> (out: Result<AppConfig>)
        ensures
            ({
                let changed = AppConfig { session_path, ..*self };
                match changed.fault(changed.compared_paths(base@, *canonical)) {
                    Some(fault) => out matches Err(error) && environment::is_config(error, fault),
                    None => out matches Ok(config) && config == changed,
                }
            }),
    {
        let mut config = self.clone();
        config.session_path = session_path;
        match config.validate(base, canonical) {
            Ok(()) => Ok(config),
            Err(error) => Err(error),
        }
    }
}

fn holds(value: &str, wanted: char) -> (yes: bool)
    ensures
        yes == value@.contains(wanted),
{
    let chars = text::chars_of(value);
    let mut i: usize = 0;
    while i < chars.len()
        invariant
            i <= chars@.len(),
            chars@ == value@,
            forall|j: int| 0 <= j < i ==> #[trigger] value@[j] != wanted,
        decreases chars@.len() - i,
    {
        if chars[i] == wanted {
            assert(value@[i as int] == wanted);
            return true;
        }
        i += 1;
    }
    false
}

/// Settings that fit together keep the session, the state database, the downloads and the run
/// artifacts apart: no file of one can be mistaken for, or lie inside, another.
pub proof fn valid_settings_keep_files_apart(config: AppConfig, paths: ComparedPaths)
    requires
        config.fault(paths) is None,
    ensures
        !path::same(paths.session, paths.db),
        !path::leads_below(paths.session, paths.downloads),
        !path::leads_below(paths.db, paths.downloads),
        !path::leads_below(paths.session, paths.artifacts),
        !path::leads_below(paths.db, paths.artifacts),
        !path::leads_below(paths.artifacts, paths.downloads),
        !path::leads_below(paths.downloads, paths.artifacts),
{
}

/// A flag outweighs the environment, and the environment outweighs the profile: which path is used
/// does not depend on what comes behind.
pub proof fn flags_outweigh_environment(
    flag: String,
    env: EnvValue,
    other: EnvValue,
    default: Seq<char>,
    fallback: Seq<char>,
)
    ensures
        chosen_path(Some(flag), env, default) == chosen_path(Some(flag), other, fallback),
        env is Text ==> chosen_path(None, env, default) == chosen_path(None, env, fallback),
{
}

/// The files of two profiles lie in different folders.
pub proof fn profiles_have_their_own_folders(data_dir: Seq<char>, first: Seq<char>, second: Seq<char>)
    requires
        naming::is_slug(first),
        naming::is_slug(second),
        first != second,
    ensures
        profile_root(data_dir, first) != profile_root(data_dir, second),
{
    let base = path::below(data_dir, "profiles"@);
    if first.len() > 0 {
        assert(naming::is_slug_letter(first[0]) || first[0] == '_');
    }
    if second.len() > 0 {
        assert(naming::is_slug_letter(second[0]) || second[0] == '_');
    }
    let front = if base.len() == 0 || base.last() == '/' {
        base
    } else {
        base.push('/')
    };
    assert(profile_root(data_dir, first) == front + first);
    assert(profile_root(data_dir, second) == front + second);
    if front + first == front + second {
        assert((front + first).skip(front.len() as int) =~= first);
        assert((front + second).skip(front.len() as int) =~= second);
    }
}

/// Settings are accepted exactly if the credentials are usable, the files lie apart, and no wait takes no
/// time.
pub proof fn accepted_settings_are_usable(config: AppConfig, paths: ComparedPaths)
    ensures
        config.fault(paths) is None <==> {
            &&& config.api_id is Some ==> config.api_id->0 >= 1
            &&& config.api_hash is Some ==> text::trimmed(config.api_hash->0@).len() >= 1
            &&& !path::same(paths.session, paths.db)
            &&& !path::leads_below(paths.session, paths.downloads)
            &&& !path::leads_below(paths.db, paths.downloads)
            &&& !path::leads_below(paths.session, paths.artifacts)
            &&& !path::leads_below(paths.db, paths.artifacts)
            &&& !path::leads_below(paths.artifacts, paths.downloads)
            &&& !path::leads_below(paths.downloads, paths.artifacts)
            &&& forall|i: int|
                0 <= i < config.temp_extension@.len() ==> #[trigger] config.temp_extension@[i]
                    != paths.main_separator
            &&& config.request_delay_ms >= 1
            &&& config.download_delay_ms >= 1
            &&& config.download_concurrency >= 1
            &&& config.retry_count >= 1 ==> config.retry_backoff_ms >= 1
            &&& config.download_stall_timeout_secs >= 1
        },
{
    let ext = config.temp_extension@;
    if forall|i: int| 0 <= i < ext.len() ==> #[trigger] ext[i] != paths.main_separator {
        assert(!ext.contains(paths.main_separator));
    }
    if !ext.contains(paths.main_separator) {
        assert forall|i: int| 0 <= i < ext.len() implies #[trigger] ext[i] != paths.main_separator by {
            if ext[i] == paths.main_separator {
                assert(ext.contains(ext[i]));
            }
        }
    }
}

/// A profile that is asked for outweighs that of the environment, which outweighs the current one, which
/// outweighs the default; what stands behind does not matter.
pub proof fn profiles_are_chosen_in_order(
    flag: Option<Seq<char>>,
    env: Option<Seq<char>>,
    current: Option<Seq<char>>,
    other: Option<Seq<char>>,
    name: Seq<char>,
)
    ensures
        chosen_profile(Some(name), env, current) == (name, ProfileSource::Explicit),
        chosen_profile(None, Some(name), current) == (name, ProfileSource::Env),
        chosen_profile(None, None, Some(name)) == (name, ProfileSource::Current),
        chosen_profile(None, None, None) == ("default"@, ProfileSource::Default),
        flag is Some ==> chosen_profile(flag, env, current) == chosen_profile(flag, other, other),
        env is Some ==> chosen_profile(flag, env, current) == chosen_profile(flag, env, other),
{
}

/// A variable that is set outweighs the default, and one that is not leaves it: this holds of numbers,
/// truth values and names alike.
pub proof fn variables_outweigh_defaults(
    content: String,
    max: int,
    default: int,
    other: int,
    yes: bool,
)
    ensures
        number_or(EnvValue::Missing, max, default) == default,
        number_or(EnvValue::Text(content), max, default) == number_or(
            EnvValue::Text(content),
            max,
            other,
        ),
        number::parsed_within(content@, false, 0, max) is Some ==> number_or(
            EnvValue::Text(content),
            max,
            default,
        ) == number::parsed_within(content@, false, 0, max)->0,
        truth_or(EnvValue::Missing, yes) == yes,
        environment::bool_named(content@) is Some ==> truth_or(EnvValue::Text(content), yes)
            == environment::bool_named(content@)->0,
        chosen_extension(EnvValue::Missing) == seq!['.', 'p', 'a', 'r', 't'],
        chosen_extension(EnvValue::Text(content)).len() > 0,
        chosen_extension(EnvValue::Text(content))[0] == '.',
        pointed(pointed(content@)) == pointed(content@),
        chosen_filename_mode(EnvValue::Missing) == FilenameMode::Stable,
        chosen_log_level(EnvValue::Missing) == LogLevel::Error,
{
    reveal_strlit(".part");
    reveal_strlit(".");
    assert(".part"@ =~= seq!['.', 'p', 'a', 'r', 't']);
    assert("."@ =~= seq!['.']);
}

/// Without a filter everything is saved, but for images sent as documents where they are switched off;
/// with one, exactly the kinds that it lists.
pub proof fn filters_come_from_the_environment(env: Environment, kind: MediaKind)
    ensures
        env.media_filter matches EnvValue::Text(content) ==> (chosen_filter(env).has(kind)
            <==> types::lists_kind(types::entries(content@), kind)),
        env.media_filter is Missing && kind != MediaKind::ImageDocument ==> chosen_filter(env).has(kind),
        env.media_filter is Missing && env.save_image_documents is Missing ==> chosen_filter(env).has(kind),
        env.media_filter is Missing ==> chosen_filter(env).has(MediaKind::ImageDocument) == truth_or(
            env.save_image_documents,
            true,
        ),
{
}

/// The settings of a run without flags and variables.
pub proof fn settings_have_defaults(
    config: AppConfig,
    overrides: ConfigOverrides,
    env: Environment,
    layout: ProfileLayout,
)
    requires
        config.is_set_by(overrides, env, layout),
    ensures
        overrides.session_path matches Some(given) ==> config.session_path@ == given@,
        overrides.db_path matches Some(given) ==> config.db_path@ == given@,
        overrides.download_dir matches Some(given) ==> config.download_dir@ == given@,
        overrides.run_artifact_dir matches Some(given) ==> config.run_artifact_dir@ == given@,
        overrides.session_path is None && env.session_path is Missing ==> config.session_path@
            == layout.session_path@,
        overrides.db_path is None && env.db_path is Missing ==> config.db_path@ == layout.db_path@,
        overrides.download_dir is None && env.download_dir is Missing ==> config.download_dir@
            == layout.download_dir@,
        overrides.run_artifact_dir is None && env.run_artifact_dir is Missing
            ==> config.run_artifact_dir@ == layout.run_artifact_dir@,
        env.retry_count is Missing ==> config.retry_count == 3,
        env.retry_backoff_ms is Missing ==> config.retry_backoff_ms == 1_000,
        env.download_stall_timeout_secs is Missing ==> config.download_stall_timeout_secs == 120,
        env.request_delay_ms is Missing ==> config.request_delay_ms == 400,
        env.download_delay_ms is Missing ==> config.download_delay_ms == 850,
        env.flood_sleep_threshold_secs is Missing ==> config.flood_sleep_threshold_secs == 0,
        env.jitter_ms is Missing ==> config.jitter_ms == 250,
        env.cleanup_stale_parts_on_start is Missing ==> !config.cleanup_stale_parts_on_start,
        env.stale_part_min_age_hours is Missing ==> config.stale_part_min_age_hours == 12,
        env.verbose_dependency_logs is Missing ==> !config.verbose_dependency_logs,
        config.download_concurrency == 4,
{
}

/// Credentials of flags outweigh those of the environment; without either there are none yet.
pub proof fn credentials_are_chosen_in_order(
    pending: PendingConfig,
    overrides: ConfigOverrides,
    env: Environment,
    current: Option<Seq<char>>,
    current_api: Option<Seq<char>>,
    data_dir: Seq<char>,
)
    requires
        pending.follows_from(overrides, env, current, current_api, data_dir),
    ensures
        overrides.api_id is Some && overrides.api_hash is Some ==> pending.credential_source
            == CredentialSource::Flags && pending.credentials is Some && pending.credentials->0.api_id
            == overrides.api_id->0 && pending.credentials->0.api_hash@ == overrides.api_hash->0@,
        (overrides.api_id is None || overrides.api_hash is None) && env.api_id is Missing
            ==> pending.credentials is None && pending.credential_source == CredentialSource::Absent,
        (overrides.api_id is None || overrides.api_hash is None) && env.api_id is Text
            ==> pending.credentials is Some && pending.credential_source == CredentialSource::Env,
        overrides.profile is Some ==> pending.profile@ == naming::profile_slug(overrides.profile->0@)
            && pending.profile_source == ProfileSource::Explicit,
        overrides.api_profile is Some ==> pending.api_profile@ == naming::profile_slug(
            overrides.api_profile->0@,
        ),
        pending.layout.is_of(data_dir, pending.profile@),
{
}

/// The files of a profile have names of their own below its folder.
pub proof fn files_of_a_profile_are_apart(layout: ProfileLayout, data_dir: Seq<char>, profile: Seq<char>)
    requires
        layout.is_of(data_dir, profile),
    ensures
        path::file_name(layout.session_path@) == Some("session.db"@),
        path::file_name(layout.db_path@) == Some("state.db"@),
        path::file_name(layout.download_dir@) == Some("downloads"@),
        path::file_name(layout.run_artifact_dir@) == Some("run-artifacts"@),
{
    reveal_strlit("session.db");
    reveal_strlit("state.db");
    reveal_strlit("downloads");
    reveal_strlit("run-artifacts");
    assert(path::is_name("session.db"@));
    assert(path::is_name("state.db"@));
    assert(path::is_name("downloads"@));
    assert(path::is_name("run-artifacts"@));
    let root = profile_root(data_dir, profile);
    path::names_stand_below(root, "session.db"@);
    path::names_stand_below(root, "state.db"@);
    path::names_stand_below(root, "downloads"@);
    path::names_stand_below(root, "run-artifacts"@);
}

} // verus!
