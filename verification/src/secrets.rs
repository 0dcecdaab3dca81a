//! Telegram API credentials: where they are kept, and which of them are used.

use vstd::prelude::*;

use crate::environment;
use crate::environment::EnvValue;
use crate::error::AppError;
use crate::error::Result;
use crate::naming;
use crate::naming::NameSet;
use crate::number;
use crate::path;
use crate::text;

verus! {

/// The service under which entries are kept in the keychain of the system.
pub const SERVICE_NAME: &'static str = "tgbacky";

pub const CURRENT_API_PROFILE_FILE: &'static str = "current-api-profile";

pub const API_PROFILES_FILE: &'static str = "api-profiles";

/// The identity of an application towards Telegram.
#[derive(Debug)]
pub struct TelegramCredentials {
    pub api_id: i32,
    pub api_hash: String,
}

impl Clone for TelegramCredentials {
    fn clone(&self) -> (copy: Self)
        ensures
            copy.api_id == self.api_id,
            copy.api_hash@ == self.api_hash@,
    {
        TelegramCredentials { api_id: self.api_id, api_hash: self.api_hash.clone() }
    }
}

/// Whether two credentials have the same contents.
pub open spec fn same_credentials(a: TelegramCredentials, b: TelegramCredentials) -> bool {
    a.api_id == b.api_id && a.api_hash@ == b.api_hash@
}

#[derive(Debug, Clone, Copy, PartialEq, Eq, Structural)]
pub enum CredentialStorageKind {
    Keychain,
    LocalFile,
}

impl CredentialStorageKind {
    pub fn label(self) -> (out: &'static str)
        ensures
            out@ == match self {
                CredentialStorageKind::Keychain => "OS keychain"@,
                CredentialStorageKind::LocalFile => "local API file"@,
            },
    {
        match self {
            CredentialStorageKind::Keychain => "OS keychain",
            CredentialStorageKind::LocalFile => "local API file",
        }
    }
}

/// Where the credentials of an API profile are found.
#[derive(Debug, Clone, Copy, PartialEq, Eq, Structural)]
pub enum CredentialStorageStatus {
    Absent,
    Keychain,
    LocalFile,
    KeychainAndLocalFile,
}

impl CredentialStorageStatus {
    pub open spec fn name(self) -> Seq<char> {
        match self {
            CredentialStorageStatus::Absent => "none"@,
            CredentialStorageStatus::Keychain => "keychain"@,
            CredentialStorageStatus::LocalFile => "local-file"@,
            CredentialStorageStatus::KeychainAndLocalFile => "keychain+local-file"@,
        }
    }

    pub fn label(self) -> (out: &'static str)
        ensures
            out@ == self.name(),
    {
        match self {
            CredentialStorageStatus::Absent => "none",
            CredentialStorageStatus::Keychain => "keychain",
            CredentialStorageStatus::LocalFile => "local-file",
            CredentialStorageStatus::KeychainAndLocalFile => "keychain+local-file",
        }
    }
}

/// The status that follows from where credentials were found.
pub open spec fn status_of(keychain: bool, local_file: bool) -> CredentialStorageStatus {
    if keychain && local_file {
        CredentialStorageStatus::KeychainAndLocalFile
    } else if keychain {
        CredentialStorageStatus::Keychain
    } else if local_file {
        CredentialStorageStatus::LocalFile
    } else {
        CredentialStorageStatus::Absent
    }
}

/// The status that follows from where credentials were found.
pub fn storage_status_from_presence(keychain: bool, local_file: bool) -> (
    status: CredentialStorageStatus)
    ensures
        status == status_of(keychain, local_file),
{
    match (keychain, local_file) {
        (true, true) => CredentialStorageStatus::KeychainAndLocalFile,
        (true, false) => CredentialStorageStatus::Keychain,
        (false, true) => CredentialStorageStatus::LocalFile,
        (false, false) => CredentialStorageStatus::Absent,
    }
}

/// Why credentials could not be put into the keychain.
#[derive(Debug, PartialEq, Eq)]
pub enum CredentialSaveError {
    KeychainUnavailable(String),
}

/// Why the keychain gave no answer: it cannot be reached, or it failed in another way.
#[derive(Debug, PartialEq, Eq)]
pub enum KeychainAccessError {
    Unavailable(String),
    Failure(String),
}

impl KeychainAccessError {
    pub open spec fn text(self) -> Seq<char> {
        match self {
            KeychainAccessError::Unavailable(message) => message@,
            KeychainAccessError::Failure(message) => message@,
        }
    }

    pub fn message(&self) -> (out: String)
        ensures
            out@ == self.text(),
    {
        match self {
            KeychainAccessError::Unavailable(message) => message.clone(),
            KeychainAccessError::Failure(message) => message.clone(),
        }
    }
}

/// The entries of a profile in the keychain: all in one, or the two that earlier releases wrote.
#[derive(Debug, Clone, Copy, PartialEq, Eq, Structural)]
pub enum KeychainField {
    Credentials,
    ApiId,
    ApiHash,
}

impl KeychainField {
    pub open spec fn key(self) -> Seq<char> {
        match self {
            KeychainField::Credentials => "credentials"@,
            KeychainField::ApiId => "api_id"@,
            KeychainField::ApiHash => "api_hash"@,
        }
    }

    pub fn name(self) -> (out: &'static str)
        ensures
            out@ == self.key(),
    {
        match self {
            KeychainField::Credentials => "credentials",
            KeychainField::ApiId => "api_id",
            KeychainField::ApiHash => "api_hash",
        }
    }
}

/// The user under which an entry of a profile is kept in the keychain.
pub open spec fn entry_user(profile: Seq<char>, field: KeychainField) -> Seq<char> {
    "api:"@ + naming::profile_slug(profile) + ":"@ + field.key()
}

/// The user under which an entry of a profile is kept in the keychain.
pub fn entry_name(profile: &str, field: KeychainField) -> (out: String)
    ensures
        out@ == entry_user(profile@, field),
{
    let slug = naming::sanitize_name(profile);
    let mut out = text::concat("api:", slug.as_str());
    out.append(":");
    out.append(field.name());
    out
}

/// The error for an entry of the keychain that could not be opened.
pub fn entry_unavailable(profile: &str, error: &str) -> (out: KeychainAccessError)
    ensures
        out is Unavailable,
        out.text() == "OS keychain is unavailable for API profile `"@ + naming::profile_slug(profile@)
            + "`: "@ + error@,
{
    let slug = naming::sanitize_name(profile);
    let mut message = text::concat("OS keychain is unavailable for API profile `", slug.as_str());
    message.append("`: ");
    message.append(error);
    KeychainAccessError::Unavailable(message)
}

/// What is said when an operation on the keychain failed.
pub open spec fn keyring_message(profile: Seq<char>, action: Seq<char>, error: Seq<char>) -> Seq<char> {
    "OS keychain is unavailable for API profile `"@ + profile + "` while trying to "@ + action + ": "@
        + error
}

/// What is said when an operation on the keychain failed.
pub fn human_keyring_message(profile: &str, action: &str, error: &str) -> (out: String)
    ensures
        out@ == keyring_message(profile@, action@, error@),
{
    let mut out = text::concat("OS keychain is unavailable for API profile `", profile);
    out.append("` while trying to ");
    out.append(action);
    out.append(": ");
    out.append(error);
    out
}

/// The error for a failed operation on the keychain. Failures of the platform and refused access
/// mean that the keychain is unavailable.
pub fn map_keyring_error(profile: &str, action: &str, unavailable: bool, error: &str) -> (
    out: KeychainAccessError)
    ensures
        out is Unavailable == unavailable,
        out.text() == keyring_message(profile@, action@, error@),
{
    let message = human_keyring_message(profile, action, error);
    if unavailable {
        KeychainAccessError::Unavailable(message)
    } else {
        KeychainAccessError::Failure(message)
    }
}

/// What is wrong with the number of an application, if anything. `source` says where it stands.
pub open spec fn api_id_fault(api_id: Option<int>, source: Seq<char>) -> Option<Seq<char>> {
    match api_id {
        None => Some(
            source
                + " is invalid; run `tgbacky auth` again or set tgbacky_API_ID/tgbacky_API_HASH explicitly"@,
        ),
        Some(value) => if value <= 0 {
            Some(source + " must be positive"@)
        } else {
            None
        },
    }
}

/// The number of an application as text holds it.
pub open spec fn api_id_value(raw: Seq<char>) -> Option<int> {
    number::parsed_within(raw, true, i32::MIN as int, i32::MAX as int)
}

fn check_api_id(api_id: Option<i32>, source: &str) -> (out: Result<i32>)
    ensures
        match api_id_fault(
            match api_id {
                Some(value) => Some(value as int),
                None => None,
            },
            source@,
        ) {
            Some(fault) => out matches Err(error) && environment::is_config(error, fault),
            None => out matches Ok(value) && Some(value) == api_id,
        },
{
    match api_id {
        None => Err(
            AppError::Config(
                text::concat(
                    source,
                    " is invalid; run `tgbacky auth` again or set tgbacky_API_ID/tgbacky_API_HASH explicitly",
                ),
            ),
        ),
        Some(value) => if value <= 0 {
            Err(AppError::Config(text::concat(source, " must be positive")))
        } else {
            Ok(value)
        },
    }
}

/// The number of an application as text holds it; it has to be positive.
pub fn parse_api_id(raw: &str, source: &str) -> (out: Result<i32>)
    ensures
        match api_id_fault(api_id_value(raw@), source@) {
            Some(fault) => out matches Err(error) && environment::is_config(error, fault),
            None => out matches Ok(value) && api_id_value(raw@) == Some(value as int),
        },
{
    check_api_id(number::parse_i32(raw), source)
}

/// Stored credentials after decoding: their values, or what the decoder objected to.
#[derive(Debug)]
pub enum DecodedCredentials {
    Stored(TelegramCredentials),
    Invalid(String),
}

/// What a keychain holds for a profile.
pub type KeychainOutcome = std::result::Result<Option<TelegramCredentials>, KeychainAccessError>;

/// What follows a read from the keychain.
#[derive(Debug)]
pub enum LookupStep {
    ReadApiId,
    ReadApiHash(String),
    Done(KeychainOutcome),
}

impl LookupStep {
    /// Whether the lookup ended with credentials of the given contents.
    pub open spec fn found(self, api_id: int, api_hash: Seq<char>) -> bool {
        self matches LookupStep::Done(outcome) && found(outcome, api_id, api_hash)
    }

    /// Whether the lookup ended with a failure of the given text.
    pub open spec fn failed(self, message: Seq<char>) -> bool {
        self matches LookupStep::Done(outcome) && failed(outcome, message)
    }
}

/// Whether credentials of the given contents were found.
pub open spec fn found(outcome: KeychainOutcome, api_id: int, api_hash: Seq<char>) -> bool {
    outcome matches Ok(Some(credentials)) && credentials.api_id == api_id
        && credentials.api_hash@ == api_hash
}

/// Whether a lookup ended with a failure of the given text.
pub open spec fn failed(outcome: KeychainOutcome, message: Seq<char>) -> bool {
    outcome matches Err(KeychainAccessError::Failure(detail)) && detail@ == message
}

/// How messages name the number of an application in the keychain.
pub open spec fn keychain_id_source(profile: Seq<char>) -> Seq<char> {
    "stored api_id in the OS keychain for profile `"@ + profile + "`"@
}

/// What is said of an empty hash in the keychain.
pub open spec fn keychain_hash_empty(profile: Seq<char>) -> Seq<char> {
    "stored api_hash in the OS keychain for profile `"@ + profile + "` is empty"@
}

fn quoted(before: &str, profile: &str, after: &str) -> (out: String)
    ensures
        out@ == before@ + profile@ + after@,
{
    let mut out = text::concat(before, profile);
    out.append(after);
    out
}

fn empty_hash(profile: &str) -> (out: KeychainAccessError)
    ensures
        out matches KeychainAccessError::Failure(message) && message@ == keychain_hash_empty(profile@),
{
    KeychainAccessError::Failure(
        quoted("stored api_hash in the OS keychain for profile `", profile, "` is empty"),
    )
}

fn is_blank(value: &str) -> (yes: bool)
    ensures
        yes == (text::trimmed(value@).len() == 0),
{
    let trimmed = text::trim(value);
    text::is_empty(trimmed.as_str())
}

/// What follows the read of the entry that holds all credentials of a profile: credentials where
/// it holds a positive number and a hash, a failure where it holds something else, and the entries
/// of earlier releases where there is none.
pub fn after_credentials(
    profile: &str,
    reply: std::result::Result<Option<DecodedCredentials>, KeychainAccessError>,
) -> (step: LookupStep)
    ensures
        match reply {
            Err(error) => step matches LookupStep::Done(Err(given)) && given == error,
            Ok(None) => step is ReadApiId,
            Ok(Some(DecodedCredentials::Invalid(error))) => step.failed(
                "stored Telegram API credentials in OS keychain for profile `"@ + profile@
                    + "` are invalid: "@ + error@,
            ),
            Ok(Some(DecodedCredentials::Stored(credentials))) => match api_id_fault(
                Some(credentials.api_id as int),
                keychain_id_source(profile@),
            ) {
                Some(fault) => step.failed("invalid configuration: "@ + fault),
                None => if text::trimmed(credentials.api_hash@).len() == 0 {
                    step.failed(keychain_hash_empty(profile@))
                } else {
                    step.found(credentials.api_id as int, credentials.api_hash@)
                },
            },
        },
{
    let decoded = match reply {
        Err(error) => {
            return LookupStep::Done(Err(error));
        },
        Ok(None) => {
            return LookupStep::ReadApiId;
        },
        Ok(Some(decoded)) => decoded,
    };
    match decoded {
        DecodedCredentials::Invalid(error) => {
            let mut message = quoted(
                "stored Telegram API credentials in OS keychain for profile `",
                profile,
                "` are invalid: ",
            );
            message.append(error.as_str());
            LookupStep::Done(Err(KeychainAccessError::Failure(message)))
        },
        DecodedCredentials::Stored(credentials) => {
            let source = quoted("stored api_id in the OS keychain for profile `", profile, "`");
            match check_api_id(Some(credentials.api_id), source.as_str()) {
                Err(error) => LookupStep::Done(Err(KeychainAccessError::Failure(error.message()))),
                Ok(_) => if is_blank(credentials.api_hash.as_str()) {
                    LookupStep::Done(Err(empty_hash(profile)))
                } else {
                    LookupStep::Done(Ok(Some(credentials)))
                },
            }
        },
    }
}

/// What follows the read of the entry in which earlier releases kept the number.
pub fn after_api_id(reply: std::result::Result<Option<String>, KeychainAccessError>) -> (
    step: LookupStep)
    ensures
        match reply {
            Err(error) => step matches LookupStep::Done(Err(given)) && given == error,
            Ok(None) => step matches LookupStep::Done(Ok(None)),
            Ok(Some(api_id)) => step matches LookupStep::ReadApiHash(given) && given@ == api_id@,
        },
{
    match reply {
        Err(error) => LookupStep::Done(Err(error)),
        Ok(None) => LookupStep::Done(Ok(None)),
        Ok(Some(api_id)) => LookupStep::ReadApiHash(api_id),
    }
}

/// What the entries of earlier releases give: credentials where both are there and hold a positive
/// number and a hash.
pub fn after_api_hash(
    profile: &str,
    api_id: &str,
    reply: std::result::Result<Option<String>, KeychainAccessError>,
) -> (outcome: KeychainOutcome)
    ensures
        match reply {
            Err(error) => outcome matches Err(given) && given == error,
            Ok(None) => outcome matches Ok(None),
            Ok(Some(api_hash)) => if text::trimmed(api_hash@).len() == 0 {
                failed(outcome, keychain_hash_empty(profile@))
            } else {
                match api_id_fault(api_id_value(api_id@), keychain_id_source(profile@)) {
                    Some(fault) => failed(outcome, "invalid configuration: "@ + fault),
                    None => found(outcome, api_id_value(api_id@)->0, api_hash@),
                }
            },
        },
{
    let api_hash = match reply {
        Err(error) => {
            return Err(error);
        },
        Ok(None) => {
            return Ok(None);
        },
        Ok(Some(api_hash)) => api_hash,
    };
    if is_blank(api_hash.as_str()) {
        return Err(empty_hash(profile));
    }
    let source = quoted("stored api_id in the OS keychain for profile `", profile, "`");
    match parse_api_id(api_id, source.as_str()) {
        Err(error) => Err(KeychainAccessError::Failure(error.message())),
        Ok(api_id) => Ok(Some(TelegramCredentials { api_id, api_hash })),
    }
}

/// What follows the question whether an entry is there.
#[derive(Debug)]
pub enum PresenceStep {
    Ask(KeychainField),
    Done(std::result::Result<bool, KeychainAccessError>),
}

/// Whether the keychain holds credentials of a profile: the one entry, or both entries of earlier
/// releases. The entries are asked for in turn, and no more than are needed.
pub fn after_presence(
    field: KeychainField,
    reply: std::result::Result<bool, KeychainAccessError>,
) -> (step: PresenceStep)
    ensures
        match (field, reply) {
            (_, Err(error)) => step matches PresenceStep::Done(Err(given)) && given == error,
            (KeychainField::Credentials, Ok(true)) => step matches PresenceStep::Done(Ok(true)),
            (KeychainField::Credentials, Ok(false)) => step == PresenceStep::Ask(KeychainField::ApiId),
            (KeychainField::ApiId, Ok(true)) => step == PresenceStep::Ask(KeychainField::ApiHash),
            (KeychainField::ApiId, Ok(false)) => step matches PresenceStep::Done(Ok(false)),
            (KeychainField::ApiHash, Ok(there)) => step matches PresenceStep::Done(Ok(given)) && given
                == there,
        },
{
    let there = match reply {
        Err(error) => {
            return PresenceStep::Done(Err(error));
        },
        Ok(there) => there,
    };
    match field {
        KeychainField::Credentials => if there {
            PresenceStep::Done(Ok(true))
        } else {
            PresenceStep::Ask(KeychainField::ApiId)
        },
        KeychainField::ApiId => if there {
            PresenceStep::Ask(KeychainField::ApiHash)
        } else {
            PresenceStep::Done(Ok(false))
        },
        KeychainField::ApiHash => PresenceStep::Done(Ok(there)),
    }
}

/// How messages name a credentials file.
pub open spec fn file_source(path: Seq<char>) -> Seq<char> {
    "local Telegram credentials file at "@ + path
}

/// The credentials of a local file, from what the decoder made of it. The hash must not be empty,
/// the number must be positive.
pub fn read_local_credentials_file(path: &str, decoded: DecodedCredentials) -> (out: Result<
    TelegramCredentials,
>)
    ensures
        match decoded {
            DecodedCredentials::Invalid(problem) => out matches Err(error) && environment::is_config(
                error,
                file_source(path@) + " is invalid: "@ + problem@,
            ),
            DecodedCredentials::Stored(credentials) => if text::trimmed(credentials.api_hash@).len()
                == 0 {
                out matches Err(error) && environment::is_config(
                    error,
                    file_source(path@) + " contains an empty api_hash"@,
                )
            } else {
                match api_id_fault(Some(credentials.api_id as int), file_source(path@)) {
                    Some(fault) => out matches Err(error) && environment::is_config(error, fault),
                    None => out matches Ok(given) && same_credentials(given, credentials),
                }
            },
        },
{
    let source = text::concat("local Telegram credentials file at ", path);
    match decoded {
        DecodedCredentials::Invalid(problem) => {
            let mut detail = source;
            detail.append(" is invalid: ");
            detail.append(problem.as_str());
            Err(AppError::Config(detail))
        },
        DecodedCredentials::Stored(credentials) => {
            if is_blank(credentials.api_hash.as_str()) {
                return Err(
                    AppError::Config(text::concat(source.as_str(), " contains an empty api_hash")),
                );
            }
            match check_api_id(Some(credentials.api_id), source.as_str()) {
                Err(error) => Err(error),
                Ok(_) => Ok(credentials),
            }
        },
    }
}

/// The credentials of a profile and where they are: those of the keychain come first, and those of
/// the local file count where the keychain has none or cannot be reached.
pub fn load_telegram_credentials_with_status(
    keychain: KeychainOutcome,
    local_file: bool,
    local: Result<Option<TelegramCredentials>>,
) -> (out: Result<(Option<TelegramCredentials>, CredentialStorageStatus)>)
    ensures
        match keychain {
            Ok(Some(credentials)) => out matches Ok((Some(given), status)) && given == credentials
                && status == status_of(true, local_file),
            Err(KeychainAccessError::Failure(message)) => out matches Err(error)
                && environment::is_config(error, message@),
            _ => match local {
                Ok(credentials) => out matches Ok((given, status)) && given == credentials && status
                    == status_of(false, local_file),
                Err(failure) => out matches Err(error) && error == failure,
            },
        },
{
    match keychain {
        Ok(Some(credentials)) => Ok(
            (Some(credentials), storage_status_from_presence(true, local_file)),
        ),
        Err(KeychainAccessError::Failure(message)) => Err(AppError::Config(message)),
        Ok(None) | Err(KeychainAccessError::Unavailable(_)) => match local {
            Ok(credentials) => Ok((credentials, storage_status_from_presence(false, local_file))),
            Err(error) => Err(error),
        },
    }
}

/// The credentials of a profile.
pub fn load_telegram_credentials(
    keychain: KeychainOutcome,
    local: Result<Option<TelegramCredentials>>,
) -> (out: Result<Option<TelegramCredentials>>)
    ensures
        match keychain {
            Ok(Some(credentials)) => out matches Ok(Some(given)) && given == credentials,
            Err(KeychainAccessError::Failure(message)) => out matches Err(error)
                && environment::is_config(error, message@),
            _ => match local {
                Ok(credentials) => out matches Ok(given) && given == credentials,
                Err(failure) => out matches Err(error) && error == failure,
            },
        },
{
    match load_telegram_credentials_with_status(keychain, false, local) {
        Ok((credentials, _)) => Ok(credentials),
        Err(error) => Err(error),
    }
}

/// Where the credentials of a profile are, from whether the keychain has them. A keychain that
/// cannot be reached has none.
pub fn credential_storage_status(
    keychain: std::result::Result<bool, KeychainAccessError>,
    local_file: bool,
) -> (out: Result<CredentialStorageStatus>)
    ensures
        match keychain {
            Ok(there) => out == Ok::<CredentialStorageStatus, AppError>(status_of(there, local_file)),
            Err(KeychainAccessError::Unavailable(_)) => out == Ok::<CredentialStorageStatus, AppError>(
                status_of(false, local_file),
            ),
            Err(KeychainAccessError::Failure(message)) => out matches Err(AppError::Runtime(detail))
                && detail@ == message@,
        },
{
    let there = match keychain {
        Ok(there) => there,
        Err(KeychainAccessError::Unavailable(_)) => false,
        Err(KeychainAccessError::Failure(message)) => {
            return Err(AppError::Runtime(message));
        },
    };
    Ok(storage_status_from_presence(there, local_file))
}

/// Whether a profile has credentials anywhere.
pub fn has_telegram_credentials(
    keychain: std::result::Result<bool, KeychainAccessError>,
    local_file: bool,
) -> (out: Result<bool>)
    ensures
        match keychain {
            Ok(there) => out == Ok::<bool, AppError>(there || local_file),
            Err(KeychainAccessError::Unavailable(_)) => out == Ok::<bool, AppError>(local_file),
            Err(KeychainAccessError::Failure(message)) => out matches Err(AppError::Runtime(detail))
                && detail@ == message@,
        },
{
    match credential_storage_status(keychain, local_file) {
        Ok(status) => Ok(status != CredentialStorageStatus::Absent),
        Err(error) => Err(error),
    }
}

/// How long a keychain keeps what is put into it.
#[derive(Debug, Clone, Copy, PartialEq, Eq, Structural)]
pub enum KeychainPersistence {
    EntryOnly,
    ProcessOnly,
    UntilReboot,
    UntilDelete,
    Unknown,
}

impl KeychainPersistence {
    pub open spec fn name(self) -> Seq<char> {
        match self {
            KeychainPersistence::EntryOnly => "entry-only"@,
            KeychainPersistence::ProcessOnly => "process-only"@,
            KeychainPersistence::UntilReboot => "until-reboot"@,
            KeychainPersistence::UntilDelete => "until-delete"@,
            KeychainPersistence::Unknown => "unknown"@,
        }
    }

    pub fn label(self) -> (out: &'static str)
        ensures
            out@ == self.name(),
    {
        match self {
            KeychainPersistence::EntryOnly => "entry-only",
            KeychainPersistence::ProcessOnly => "process-only",
            KeychainPersistence::UntilReboot => "until-reboot",
            KeychainPersistence::UntilDelete => "until-delete",
            KeychainPersistence::Unknown => "unknown",
        }
    }
}

/// `CredentialBuilder::persistence` of the builder that `keyring::default::default_credential_builder`
/// gives. Which builder that is depends on the platform and on how `keyring` was built, so nothing
/// is claimed of the answer.
#[verifier::external_body]
fn backend_persistence() -> (persistence: KeychainPersistence) {
    match keyring::default::default_credential_builder().persistence() {
        keyring::credential::CredentialPersistence::EntryOnly => KeychainPersistence::EntryOnly,
        keyring::credential::CredentialPersistence::ProcessOnly => KeychainPersistence::ProcessOnly,
        keyring::credential::CredentialPersistence::UntilReboot => KeychainPersistence::UntilReboot,
        keyring::credential::CredentialPersistence::UntilDelete => KeychainPersistence::UntilDelete,
        _ => KeychainPersistence::Unknown,
    }
}

/// The name of how long the keychain of this system keeps what is put into it.
pub fn keychain_backend_label() -> (out: &'static str)
    ensures
        exists|persistence: KeychainPersistence| out@ == #[trigger] persistence.name(),
{
    let persistence = backend_persistence();
    assert(persistence.name() == persistence.name());
    persistence.label()
}

/// Whether the keychain of this system keeps what is put into it until it is deleted. What the
/// answer is depends on the platform.
pub fn keychain_backend_is_persistent() -> bool {
    is_persistent(backend_persistence())
}

/// Whether a keychain keeps what is put into it until it is deleted.
pub fn is_persistent(persistence: KeychainPersistence) -> (yes: bool)
    ensures
        yes == (persistence == KeychainPersistence::UntilDelete),
{
    matches!(persistence, KeychainPersistence::UntilDelete)
}

/// Refuses a keychain that does not keep what is put into it until it is deleted.
pub fn ensure_persistent_keychain_backend(profile: &str, persistence: KeychainPersistence) -> (
    out: std::result::Result<(), CredentialSaveError>)
    ensures
        if persistence == KeychainPersistence::UntilDelete {
            out is Ok
        } else {
            out matches Err(CredentialSaveError::KeychainUnavailable(message)) && message@
                == "OS keychain backend is not persistent for API profile `"@ + profile@
                + "` (backend: "@ + persistence.name()
                + "). Native keyring support is missing for this build."@
        },
{
    if is_persistent(persistence) {
        return Ok(());
    }
    let mut message = quoted(
        "OS keychain backend is not persistent for API profile `",
        profile,
        "` (backend: ",
    );
    message.append(persistence.label());
    message.append("). Native keyring support is missing for this build.");
    Err(CredentialSaveError::KeychainUnavailable(message))
}

/// Whether credentials for a profile may be put into the keychain of this system.
pub fn check_keychain_backend(profile: &str) -> (out: std::result::Result<(), CredentialSaveError>)
    ensures
        out matches Err(CredentialSaveError::KeychainUnavailable(message)) ==> exists|
            persistence: KeychainPersistence,
        |
            persistence != KeychainPersistence::UntilDelete && message@
                == "OS keychain backend is not persistent for API profile `"@ + profile@
                + "` (backend: "@ + #[trigger] persistence.name()
                + "). Native keyring support is missing for this build."@,
{
    ensure_persistent_keychain_backend(profile, backend_persistence())
}

pub fn default_api_profile_name() -> (out: &'static str)
    ensures
        out@ == "default"@,
{
    "default"
}

/// Whether `error` refuses an API profile without a name.
pub open spec fn is_unnamed(error: AppError) -> bool {
    error is InvalidArgument && error.detail() == "API profile name cannot be empty"@
}

/// The name that is used for an API profile; there has to be something left of it.
pub fn sanitize_api_profile(raw: &str) -> (out: Result<String>)
    ensures
        match out {
            Ok(name) => name@ == naming::profile_slug(raw@) && name@.len() > 0,
            Err(error) => naming::profile_slug(raw@).len() == 0 && is_unnamed(error),
        },
{
    let name = naming::sanitize_name(raw);
    if text::is_empty(name.as_str()) {
        Err(AppError::InvalidArgument("API profile name cannot be empty".to_string()))
    } else {
        Ok(name)
    }
}

/// The API profile that the file of the current one names.
pub open spec fn named_in(raw: Option<Seq<char>>) -> Option<Seq<char>> {
    match raw {
        Some(content) => if naming::profile_slug(content).len() == 0 {
            None
        } else {
            Some(naming::profile_slug(content))
        },
        None => None,
    }
}

/// The API profile that is used where none is asked for, from the contents of the file that names
/// it.
pub fn current_api_profile(raw: Option<&str>) -> (out: Option<String>)
    ensures
        text::opt_text(out) == named_in(text::opt_str(raw)),
{
    match raw {
        None => None,
        Some(content) => {
            let name = naming::sanitize_name(content);
            if text::is_empty(name.as_str()) {
                None
            } else {
                Some(name)
            }
        },
    }
}

/// The contents of the file that names the current API profile.
pub fn set_current_api_profile(name: &str) -> (out: Result<String>)
    ensures
        match out {
            Ok(content) => naming::profile_slug(name@).len() > 0 && content@ == naming::profile_slug(
                name@,
            ).push('\n'),
            Err(error) => naming::profile_slug(name@).len() == 0 && is_unnamed(error),
        },
{
    match sanitize_api_profile(name) {
        Ok(clean) => {
            let mut content = clean;
            content.push('\n');
            Ok(content)
        },
        Err(error) => Err(error),
    }
}

/// Whether the file that names the current API profile has to go with the profile `name`.
pub fn clear_current_api_profile_if_matches(name: &str, raw: Option<&str>) -> (out: Result<bool>)
    ensures
        match out {
            Ok(clear) => naming::profile_slug(name@).len() > 0 && clear == (named_in(
                text::opt_str(raw),
            ) == Some(naming::profile_slug(name@))),
            Err(error) => naming::profile_slug(name@).len() == 0 && is_unnamed(error),
        },
{
    match sanitize_api_profile(name) {
        Err(error) => Err(error),
        Ok(clean) => match current_api_profile(raw) {
            None => Ok(false),
            Some(current) => Ok(text::same_text(current.as_str(), clean.as_str())),
        },
    }
}

/// The API profile that is used: the one asked for, else that of the environment, else the current
/// one, else `default`. What comes after the first of these that is given does not matter.
pub fn resolve_api_profile(
    override_name: Option<String>,
    env: &EnvValue,
    current: Result<Option<String>>,
) -> (out: Result<String>)
    ensures
        match (override_name, *env) {
            (Some(raw), _) => named_or_refused(raw@, out),
            (None, EnvValue::Text(raw)) => named_or_refused(raw@, out),
            (None, EnvValue::NotUnicode) => out matches Err(error) && environment::is_config(
                error,
                environment::unreadable("tgbacky_API_PROFILE"@),
            ),
            (None, EnvValue::Missing) => match current {
                Err(failure) => out matches Err(error) && error == failure,
                Ok(Some(name)) => out matches Ok(given) && given@ == name@,
                Ok(None) => out matches Ok(given) && given@ == "default"@,
            },
        },
{
    if let Some(raw) = override_name {
        return sanitize_api_profile(raw.as_str());
    }
    match environment::get_optional("tgbacky_API_PROFILE", env) {
        Err(error) => Err(error),
        Ok(Some(raw)) => sanitize_api_profile(raw.as_str()),
        Ok(None) => match current {
            Err(error) => Err(error),
            Ok(Some(name)) => Ok(name),
            Ok(None) => Ok("default".to_string()),
        },
    }
}

/// Whether `out` is the name used for `raw`, or the refusal of a name without anything left.
pub open spec fn named_or_refused(raw: Seq<char>, out: Result<String>) -> bool {
    match out {
        Ok(name) => name@ == naming::profile_slug(raw) && name@.len() > 0,
        Err(error) => naming::profile_slug(raw).len() == 0 && is_unnamed(error),
    }
}

/// The folder of the local credentials files.
pub open spec fn credentials_root(data_dir: Seq<char>) -> Seq<char> {
    path::below(data_dir, "api-credentials"@)
}

/// The folder of the local credentials files.
pub fn api_credentials_root(data_dir: &str) -> (out: String)
    ensures
        out@ == credentials_root(data_dir@),
{
    path::join(data_dir, "api-credentials")
}

/// The local credentials file of a profile.
pub fn local_credentials_path(data_dir: &str, profile: &str) -> (out: Result<String>)
    ensures
        match out {
            Ok(file) => naming::profile_slug(profile@).len() > 0 && file@ == path::below(
                credentials_root(data_dir@),
                naming::profile_slug(profile@) + ".json"@,
            ),
            Err(error) => naming::profile_slug(profile@).len() == 0 && is_unnamed(error),
        },
{
    match sanitize_api_profile(profile) {
        Err(error) => Err(error),
        Ok(name) => {
            let root = api_credentials_root(data_dir);
            let file = text::concat(name.as_str(), ".json");
            Ok(path::join(root.as_str(), file.as_str()))
        },
    }
}

/// Where the credentials of a profile are written, and the file beside it that they are written to
/// first.
#[derive(Debug)]
pub struct CredentialsFile {
    pub path: String,
    pub temp_path: String,
}

/// Where the credentials of a profile are written.
pub fn save_telegram_credentials_to_local_file(data_dir: &str, profile: &str) -> (out: Result<
    CredentialsFile,
>)
    ensures
        match out {
            Ok(file) => {
                &&& naming::profile_slug(profile@).len() > 0
                &&& file.path@ == path::below(
                    credentials_root(data_dir@),
                    naming::profile_slug(profile@) + ".json"@,
                )
                &&& file.temp_path@ == path::below(
                    credentials_root(data_dir@),
                    naming::profile_slug(profile@) + ".json.tmp"@,
                )
            },
            Err(error) => naming::profile_slug(profile@).len() == 0 && is_unnamed(error),
        },
{
    match sanitize_api_profile(profile) {
        Err(error) => Err(error),
        Ok(name) => {
            let root = api_credentials_root(data_dir);
            let file = text::concat(name.as_str(), ".json");
            let temp = text::concat(name.as_str(), ".json.tmp");
            Ok(
                CredentialsFile {
                    path: path::join(root.as_str(), file.as_str()),
                    temp_path: path::join(root.as_str(), temp.as_str()),
                },
            )
        },
    }
}

/// The clean names of `parts` that are not empty.
pub open spec fn slugs_of(parts: Seq<Seq<char>>) -> Set<Seq<char>> {
    Set::new(
        |name: Seq<char>|
            name.len() > 0 && exists|i: int|
                0 <= i < parts.len() && name == naming::profile_slug(#[trigger] parts[i]),
    )
}

proof fn one_more_slug(parts: Seq<Seq<char>>, i: int)
    requires
        0 <= i < parts.len(),
    ensures
        slugs_of(parts.take(i + 1)) == if naming::profile_slug(parts[i]).len() == 0 {
            slugs_of(parts.take(i))
        } else {
            slugs_of(parts.take(i)).insert(naming::profile_slug(parts[i]))
        },
{
    let before = parts.take(i);
    let after = parts.take(i + 1);
    assert forall|name: Seq<char>| slugs_of(after).contains(name) implies slugs_of(before).insert(
        naming::profile_slug(parts[i]),
    ).contains(name) by {
        let k = choose|k: int|
            0 <= k < after.len() && name == naming::profile_slug(#[trigger] after[k]);
        if k < i {
            assert(before[k] == after[k]);
        }
    }
    assert forall|name: Seq<char>| slugs_of(before).contains(name) implies slugs_of(after).contains(
        name,
    ) by {
        let k = choose|k: int|
            0 <= k < before.len() && name == naming::profile_slug(#[trigger] before[k]);
        assert(after[k] == before[k]);
    }
    if naming::profile_slug(parts[i]).len() > 0 {
        assert(after[i] == parts[i]);
        assert(slugs_of(after) =~= slugs_of(before).insert(naming::profile_slug(parts[i])));
    } else {
        assert(slugs_of(after) =~= slugs_of(before));
    }
}

fn insert_slugs(set: NameSet, parts: &[String]) -> (out: NameSet)
    ensures
        out@ == set@.union(slugs_of(text::texts(parts@))),
{
    let ghost all = text::texts(parts@);
    let ghost start = set@;
    let mut out = set;
    let mut i: usize = 0;
    assert(start.union(slugs_of(all.take(0))) =~= start) by {
        assert forall|name: Seq<char>| !slugs_of(all.take(0)).contains(name) by {}
    }
    while i < parts.len()
        invariant
            i <= parts@.len(),
            all == text::texts(parts@),
            out@ == start.union(slugs_of(all.take(i as int))),
        decreases parts@.len() - i,
    {
        let name = naming::sanitize_name(parts[i].as_str());
        proof {
            assert(all[i as int] == parts@[i as int]@);
            one_more_slug(all, i as int);
            assert(start.union(slugs_of(all.take(i as int)).insert(name@)) =~= start.union(
                slugs_of(all.take(i as int)),
            ).insert(name@));
        }
        if !text::is_empty(name.as_str()) {
            out = out.insert(name);
        }
        i += 1;
    }
    assert(all.take(i as int) =~= all);
    out
}

/// The API profiles that the list of them names: one on each line.
pub open spec fn registered(raw: Option<Seq<char>>) -> Set<Seq<char>> {
    match raw {
        Some(content) => slugs_of(text::pieces(content, '\n')),
        None => Set::empty(),
    }
}

/// The API profiles that the list of them names.
pub fn read_registered_api_profiles(raw: Option<&str>) -> (set: NameSet)
    ensures
        set@ == registered(text::opt_str(raw)),
{
    let set = NameSet::new();
    match raw {
        None => set,
        Some(content) => {
            let parts = text::split(content, '\n');
            let out = insert_slugs(set, &parts);
            assert(out@ =~= registered(Some(content@)));
            out
        },
    }
}

/// The list of API profiles as it is written: each on a line of its own.
pub open spec fn profiles_body(list: Seq<Seq<char>>) -> Seq<char> {
    let lines = text::joined(list, seq!['\n']);
    if lines.len() == 0 {
        lines
    } else {
        lines.push('\n')
    }
}

/// Whether every name is clean and not empty.
pub open spec fn all_clean(list: Seq<Seq<char>>) -> bool {
    forall|i: int| 0 <= i < list.len() ==> (#[trigger] list[i]).len() > 0 && naming::is_slug(list[i])
}

proof fn joined_is_filled(list: Seq<Seq<char>>)
    requires
        list.len() > 0,
        all_clean(list),
    ensures
        text::joined(list, seq!['\n']).len() > 0,
{
    assert(list[list.len() - 1].len() > 0);
}

/// Reading a list of API profiles that was written gives the same profiles back.
pub proof fn written_profiles_read_back(list: Seq<Seq<char>>)
    requires
        all_clean(list),
    ensures
        registered(Some(profiles_body(list))) == list.to_set(),
{
    let body = profiles_body(list);
    let parts = text::pieces(body, '\n');
    if list.len() == 0 {
        assert(body =~= Seq::<char>::empty());
        assert(parts[0].len() == 0);
        let blank = parts[0];
        assert(naming::is_slug(blank));
        naming::clean_names_stay(blank);
        assert forall|name: Seq<char>| !slugs_of(parts).contains(name) by {
            if slugs_of(parts).contains(name) {
                let k = choose|k: int|
                    0 <= k < parts.len() && name == naming::profile_slug(#[trigger] parts[k]);
                assert(k == 0);
            }
        }
        assert(slugs_of(parts) =~= list.to_set());
    } else {
        joined_is_filled(list);
        assert forall|i: int| 0 <= i < list.len() implies !(#[trigger] list[i]).contains('\n') by {
            let name = list[i];
            if name.contains('\n') {
                let k = choose|k: int| 0 <= k < name.len() && name[k] == '\n';
                assert(naming::is_slug_letter(name[k]) || name[k] == '_');
            }
        }
        text::split_undoes_join(list, '\n');
        let lines = text::joined(list, seq!['\n']);
        assert(body.drop_last() =~= lines);
        assert(parts == list.push(Seq::<char>::empty()));
        let blank = parts[list.len() as int];
        assert(naming::is_slug(blank));
        naming::clean_names_stay(blank);
        assert forall|name: Seq<char>| slugs_of(parts).contains(name) implies list.to_set().contains(
            name,
        ) by {
            let k = choose|k: int|
                0 <= k < parts.len() && name == naming::profile_slug(#[trigger] parts[k]);
            if k < list.len() {
                assert(parts[k] == list[k]);
                naming::clean_names_stay(list[k]);
                assert(list[k] == name);
            } else {
                assert(parts[k] == blank);
            }
        }
        assert forall|name: Seq<char>| list.to_set().contains(name) implies slugs_of(parts).contains(
            name,
        ) by {
            let k = choose|k: int| 0 <= k < list.len() && list[k] == name;
            naming::clean_names_stay(list[k]);
            assert(parts[k] == list[k]);
        }
        assert(slugs_of(parts) =~= list.to_set());
    }
}

proof fn slugs_are_clean(parts: Seq<Seq<char>>, name: Seq<char>)
    requires
        slugs_of(parts).contains(name),
    ensures
        naming::is_slug(name),
        name.len() > 0,
{
    let k = choose|k: int| 0 <= k < parts.len() && name == naming::profile_slug(#[trigger] parts[k]);
    naming::profile_names_are_slugs(parts[k]);
}

/// The contents of the list of API profiles.
fn write_registered_api_profiles(profiles: &NameSet) -> (body: String)
    ensures
        exists|list: Seq<Seq<char>>|
            naming::is_listing(list, profiles@) && body@ == #[trigger] profiles_body(list),
{
    let names = profiles.list();
    let ghost list = text::texts(names@);
    let mut body = text::join(&names, "\n");
    proof {
        reveal_strlit("\n");
        assert("\n"@ =~= seq!['\n']);
    }
    if !text::is_empty(body.as_str()) {
        body.push('\n');
    }
    assert(naming::is_listing(list, profiles@) && body@ == profiles_body(list));
    body
}

/// Whether `body` is the list of the API profiles of `set` as it is written.
pub open spec fn is_body_of(body: Seq<char>, set: Set<Seq<char>>) -> bool {
    &&& exists|list: Seq<Seq<char>>|
        naming::is_listing(list, set) && body == #[trigger] profiles_body(list)
    &&& registered(Some(body)) == set
}

proof fn clean_body(body: Seq<char>, set: Set<Seq<char>>)
    requires
        exists|list: Seq<Seq<char>>|
            naming::is_listing(list, set) && body == #[trigger] profiles_body(list),
        forall|name: Seq<char>| #[trigger] set.contains(name) ==> name.len() > 0 && naming::is_slug(name),
    ensures
        is_body_of(body, set),
{
    let list = choose|list: Seq<Seq<char>>|
        naming::is_listing(list, set) && body == #[trigger] profiles_body(list);
    assert forall|i: int| 0 <= i < list.len() implies (#[trigger] list[i]).len() > 0
        && naming::is_slug(list[i]) by {
        assert(list.to_set().contains(list[i]));
    }
    written_profiles_read_back(list);
}

/// The contents of the list of API profiles once `name` stands in it; `raw` is what it held.
pub fn register_api_profile(name: &str, raw: Option<&str>) -> (out: Result<String>)
    ensures
        match out {
            Ok(body) => naming::profile_slug(name@).len() > 0 && is_body_of(
                body@,
                registered(text::opt_str(raw)).insert(naming::profile_slug(name@)),
            ),
            Err(error) => naming::profile_slug(name@).len() == 0 && is_unnamed(error),
        },
{
    let clean = match sanitize_api_profile(name) {
        Ok(clean) => clean,
        Err(error) => {
            return Err(error);
        },
    };
    let ghost slug = clean@;
    let profiles = read_registered_api_profiles(raw).insert(clean);
    let body = write_registered_api_profiles(&profiles);
    proof {
        assert forall|n: Seq<char>| #[trigger] profiles@.contains(n) implies n.len() > 0
            && naming::is_slug(n) by {
            naming::profile_names_are_slugs(name@);
            if n != slug {
                slugs_are_clean(text::pieces(raw->0@, '\n'), n);
            }
        }
        clean_body(body@, profiles@);
    }
    Ok(body)
}

/// The contents of the list of API profiles once `name` is out of it; `raw` is what it held.
pub fn unregister_api_profile(name: &str, raw: Option<&str>) -> (out: Result<String>)
    ensures
        match out {
            Ok(body) => naming::profile_slug(name@).len() > 0 && is_body_of(
                body@,
                registered(text::opt_str(raw)).remove(naming::profile_slug(name@)),
            ),
            Err(error) => naming::profile_slug(name@).len() == 0 && is_unnamed(error),
        },
{
    let clean = match sanitize_api_profile(name) {
        Ok(clean) => clean,
        Err(error) => {
            return Err(error);
        },
    };
    let profiles = read_registered_api_profiles(raw).remove(clean.as_str());
    let body = write_registered_api_profiles(&profiles);
    proof {
        assert forall|n: Seq<char>| #[trigger] profiles@.contains(n) implies n.len() > 0
            && naming::is_slug(n) by {
            slugs_are_clean(text::pieces(raw->0@, '\n'), n);
        }
        clean_body(body@, profiles@);
    }
    Ok(body)
}

/// What is known of the stored credentials of an API profile.
#[derive(Debug)]
pub struct ApiCredentialCheck {
    pub status: CredentialStorageStatus,
    pub local_path: String,
    pub keychain_backend: &'static str,
    pub keychain_readable: bool,
    pub keychain_message: String,
}

/// What is known of the stored credentials of an API profile, from what the keychain answered and
/// whether the local file is there. An error of the keychain is reported, not raised.
pub fn check_api_credential_profile(
    keychain: KeychainOutcome,
    local_path: String,
    local_file: bool,
) -> (check: ApiCredentialCheck)
    ensures
        check.keychain_readable == (keychain matches Ok(Some(_))),
        check.status == status_of(check.keychain_readable, local_file),
        check.local_path@ == local_path@,
        exists|persistence: KeychainPersistence|
            check.keychain_backend@ == #[trigger] persistence.name(),
        check.keychain_message@ == match keychain {
            Ok(Some(_)) => "keychain entry readable"@,
            Ok(None) => "keychain entry not found"@,
            Err(error) => error.text(),
        },
{
    let (readable, message) = match keychain {
        Ok(Some(_)) => (true, "keychain entry readable".to_string()),
        Ok(None) => (false, "keychain entry not found".to_string()),
        Err(error) => (false, error.message()),
    };
    ApiCredentialCheck {
        status: storage_status_from_presence(readable, local_file),
        local_path,
        keychain_backend: keychain_backend_label(),
        keychain_readable: readable,
        keychain_message: message,
    }
}

/// Whether the keychain gives back the credentials that were put into it; else why not.
pub fn verify_keychain_credentials(keychain: KeychainOutcome, expected: &TelegramCredentials) -> (
    out: std::result::Result<(), String>)
    ensures
        match keychain {
            Ok(Some(given)) => if same_credentials(given, *expected) {
                out is Ok
            } else {
                out matches Err(reason) && reason@
                    == "keychain entry was readable, but value did not match"@
            },
            Ok(None) => out matches Err(reason) && reason@
                == "keychain entry was not found after write"@,
            Err(error) => out matches Err(reason) && reason@ == error.text(),
        },
{
    match keychain {
        Ok(Some(given)) => if given.api_id == expected.api_id && text::same_text(
            given.api_hash.as_str(),
            expected.api_hash.as_str(),
        ) {
            Ok(())
        } else {
            Err("keychain entry was readable, but value did not match".to_string())
        },
        Ok(None) => Err("keychain entry was not found after write".to_string()),
        Err(error) => Err(error.message()),
    }
}

/// The profile that a file in the folder of the credentials files stands for.
pub open spec fn file_profile(file: Seq<char>) -> Option<Seq<char>> {
    match path::file_name(file) {
        Some(name) => if path::extension(name) == Some("json"@) {
            Some(path::stem(name))
        } else {
            None
        },
        None => None,
    }
}

/// The profiles that files stand for, in their order.
pub open spec fn file_profiles(files: Seq<Seq<char>>) -> Seq<Seq<char>>
    decreases files.len(),
{
    if files.len() == 0 {
        Seq::empty()
    } else {
        match file_profile(files.last()) {
            Some(stem) => file_profiles(files.drop_last()).push(stem),
            None => file_profiles(files.drop_last()),
        }
    }
}

fn stems_of(files: &[String]) -> (stems: Vec<String>)
    ensures
        text::texts(stems@) == file_profiles(text::texts(files@)),
{
    let ghost all = text::texts(files@);
    let mut stems: Vec<String> = Vec::new();
    let mut i: usize = 0;
    assert(all.take(0) =~= Seq::<Seq<char>>::empty());
    assert(text::texts(stems@) =~= Seq::<Seq<char>>::empty());
    while i < files.len()
        invariant
            i <= files@.len(),
            all == text::texts(files@),
            text::texts(stems@) == file_profiles(all.take(i as int)),
        decreases files@.len() - i,
    {
        let file = files[i].as_str();
        let ghost before = text::texts(stems@);
        proof {
            assert(all[i as int] == file@);
            assert(all.take(i + 1).drop_last() =~= all.take(i as int));
            assert(all.take(i + 1).last() == file@);
        }
        let json = match path::extension_of(file) {
            Some(extension) => text::same_text(extension.as_str(), "json"),
            None => false,
        };
        if json {
            if let Some(stem) = path::stem_of(file) {
                stems.push(stem);
                assert(text::texts(stems@) =~= before.push(stem@));
            }
        }
        i += 1;
    }
    assert(all.take(i as int) =~= all);
    stems
}

/// The API profiles that may have credentials: the default one where the keychain has it, those
/// listed, those with a local file and the current one.
pub open spec fn candidates(
    current: Seq<char>,
    default_in_keychain: bool,
    listed: Option<Seq<char>>,
    files: Seq<Seq<char>>,
) -> Set<Seq<char>> {
    let named = if default_in_keychain {
        set!["default"@]
    } else {
        Set::empty()
    };
    named.union(registered(listed)).union(slugs_of(file_profiles(files))).insert(current)
}

/// The API profiles that may have credentials, in order. `files` are the regular files in the
/// folder of the credentials files.
pub fn candidate_api_profiles(
    current: &str,
    default_in_keychain: bool,
    listed: Option<&str>,
    files: &[String],
) -> (names: Vec<String>)
    ensures
        naming::is_listing(
            text::texts(names@),
            candidates(current@, default_in_keychain, text::opt_str(listed), text::texts(files@)),
        ),
{
    let mut set = NameSet::new();
    if default_in_keychain {
        set = set.insert(default_api_profile_name().to_string());
    }
    let ghost named = set@;
    let list = read_registered_api_profiles(listed).list();
    proof {
        assert forall|i: int| 0 <= i < list@.len() implies naming::profile_slug(
            text::texts(list@)[i],
        ) == #[trigger] text::texts(list@)[i] && text::texts(list@)[i].len() > 0 by {
            assert(text::texts(list@).to_set().contains(text::texts(list@)[i]));
            slugs_are_clean(text::pieces(listed->0@, '\n'), text::texts(list@)[i]);
            naming::clean_names_stay(text::texts(list@)[i]);
        }
        let all = text::texts(list@);
        assert forall|n: Seq<char>| slugs_of(all).contains(n) implies all.to_set().contains(n) by {
            let k = choose|k: int| 0 <= k < all.len() && n == naming::profile_slug(#[trigger] all[k]);
            assert(all[k] == n);
        }
        assert forall|n: Seq<char>| all.to_set().contains(n) implies slugs_of(all).contains(n) by {
            let k = choose|k: int| 0 <= k < all.len() && all[k] == n;
            assert(naming::profile_slug(all[k]) == n);
        }
        assert(slugs_of(all) =~= all.to_set());
    }
    let set = insert_slugs(set, &list);
    let stems = stems_of(files);
    let set = insert_slugs(set, &stems);
    let set = set.insert(current.to_string());
    assert(set@ =~= candidates(
        current@,
        default_in_keychain,
        text::opt_str(listed),
        text::texts(files@),
    ));
    set.list()
}

/// A profile and where its credentials are.
#[derive(Debug)]
pub struct ProfileStatus {
    pub name: String,
    pub status: CredentialStorageStatus,
}

/// An API profile as it is listed.
#[derive(Debug)]
pub struct ApiCredentialProfile {
    pub name: String,
    pub status: CredentialStorageStatus,
    pub is_default: bool,
}

/// What a listed profile shows.
#[verifier::ext_equal]
pub struct ProfileView {
    pub name: Seq<char>,
    pub status: CredentialStorageStatus,
    pub is_default: bool,
}

impl View for ApiCredentialProfile {
    type V = ProfileView;

    open spec fn view(&self) -> ProfileView {
        ProfileView { name: self.name@, status: self.status, is_default: self.is_default }
    }
}

/// What the listed profiles show.
pub open spec fn profile_views(list: Seq<ApiCredentialProfile>) -> Seq<ProfileView> {
    list.map_values(|profile: ApiCredentialProfile| profile@)
}

/// The profiles that are listed: those with credentials, and the current one.
pub open spec fn listed_profiles(found: Seq<ProfileStatus>, current: Seq<char>) -> Seq<ProfileView>
    decreases found.len(),
{
    if found.len() == 0 {
        Seq::empty()
    } else {
        let before = listed_profiles(found.drop_last(), current);
        let last = found.last();
        if last.status == CredentialStorageStatus::Absent && last.name@ != current {
            before
        } else {
            before.push(
                ProfileView {
                    name: last.name@,
                    status: last.status,
                    is_default: last.name@ == current,
                },
            )
        }
    }
}

/// The profiles that are listed, out of those that may have credentials.
pub fn list_api_credential_profiles(current: &str, found: Vec<ProfileStatus>) -> (entries: Vec<
    ApiCredentialProfile,
>)
    ensures
        profile_views(entries@) == listed_profiles(found@, current@),
{
    let mut entries: Vec<ApiCredentialProfile> = Vec::new();
    let mut i: usize = 0;
    assert(found@.take(0) =~= Seq::<ProfileStatus>::empty());
    assert(profile_views(entries@) =~= Seq::<ProfileView>::empty());
    while i < found.len()
        invariant
            i <= found@.len(),
            profile_views(entries@) == listed_profiles(found@.take(i as int), current@),
        decreases found@.len() - i,
    {
        let ghost before = profile_views(entries@);
        proof {
            assert(found@.take(i + 1).drop_last() =~= found@.take(i as int));
        }
        let is_default = text::same_text(found[i].name.as_str(), current);
        let status = found[i].status;
        if status != CredentialStorageStatus::Absent || is_default {
            let entry = ApiCredentialProfile { name: found[i].name.clone(), status, is_default };
            let ghost view = entry@;
            entries.push(entry);
            assert(profile_views(entries@) =~= before.push(view));
        }
        i += 1;
    }
    assert(found@.take(i as int) =~= found@);
    entries
}

/// The profile that takes over when the current one is gone: the first one with credentials.
pub fn next_default(entries: &[ApiCredentialProfile]) -> (next: Option<String>)
    ensures
        match next {
            Some(name) => exists|i: int|
                0 <= i < entries@.len() && #[trigger] entries@[i].name@ == name@ && entries@[i].status
                    != CredentialStorageStatus::Absent && forall|j: int|
                    0 <= j < i ==> (#[trigger] entries@[j]).status == CredentialStorageStatus::Absent,
            None => forall|j: int|
                0 <= j < entries@.len() ==> (#[trigger] entries@[j]).status
                    == CredentialStorageStatus::Absent,
        },
{
    let mut i: usize = 0;
    while i < entries.len()
        invariant
            i <= entries@.len(),
            forall|j: int|
                0 <= j < i ==> (#[trigger] entries@[j]).status == CredentialStorageStatus::Absent,
        decreases entries@.len() - i,
    {
        if entries[i].status != CredentialStorageStatus::Absent {
            let name = entries[i].name.clone();
            assert(entries@[i as int].name@ == name@);
            return Some(name);
        }
        i += 1;
    }
    None
}

/// What goes when the credentials of a profile are deleted.
#[derive(Debug)]
pub struct CredentialRemoval {
    /// The local file, removed where it exists.
    pub file: String,
    /// The users of the keychain entries, removed where they exist.
    pub entries: Vec<String>,
    /// What the list of API profiles holds afterwards.
    pub listed: String,
}

/// What goes when the credentials of a profile are deleted; `raw` is what the list of API profiles
/// holds.
pub fn delete_telegram_credentials(data_dir: &str, profile: &str, raw: Option<&str>) -> (out: Result<
    CredentialRemoval,
>)
    ensures
        match out {
            Ok(removal) => {
                &&& naming::profile_slug(profile@).len() > 0
                &&& removal.file@ == path::below(
                    credentials_root(data_dir@),
                    naming::profile_slug(profile@) + ".json"@,
                )
                &&& text::texts(removal.entries@) == seq![
                    entry_user(profile@, KeychainField::Credentials),
                    entry_user(profile@, KeychainField::ApiId),
                    entry_user(profile@, KeychainField::ApiHash),
                ]
                &&& is_body_of(
                    removal.listed@,
                    registered(text::opt_str(raw)).remove(naming::profile_slug(profile@)),
                )
            },
            Err(error) => naming::profile_slug(profile@).len() == 0 && is_unnamed(error),
        },
{
    let file = match local_credentials_path(data_dir, profile) {
        Ok(file) => file,
        Err(error) => {
            return Err(error);
        },
    };
    let mut entries: Vec<String> = Vec::new();
    entries.push(entry_name(profile, KeychainField::Credentials));
    entries.push(entry_name(profile, KeychainField::ApiId));
    entries.push(entry_name(profile, KeychainField::ApiHash));
    assert(text::texts(entries@) =~= seq![
        entry_user(profile@, KeychainField::Credentials),
        entry_user(profile@, KeychainField::ApiId),
        entry_user(profile@, KeychainField::ApiHash),
    ]);
    match unregister_api_profile(profile, raw) {
        Ok(listed) => Ok(CredentialRemoval { file, entries, listed }),
        Err(error) => Err(error),
    }
}

/// The file of a profile's credentials, removed where it exists.
pub fn delete_local_telegram_credentials(data_dir: &str, profile: &str) -> (out: Result<String>)
    ensures
        match out {
            Ok(file) => naming::profile_slug(profile@).len() > 0 && file@ == path::below(
                credentials_root(data_dir@),
                naming::profile_slug(profile@) + ".json"@,
            ),
            Err(error) => naming::profile_slug(profile@).len() == 0 && is_unnamed(error),
        },
{
    local_credentials_path(data_dir, profile)
}

/// Where credentials are tells of both places: a status names the keychain exactly if they are there, and
/// the local file exactly if they are there.
pub proof fn statuses_name_both_places(keychain: bool, local_file: bool)
    ensures
        status_of(keychain, local_file) == CredentialStorageStatus::Absent <==> !keychain && !local_file,
        keychain <==> status_of(keychain, local_file) == CredentialStorageStatus::Keychain || status_of(
            keychain,
            local_file,
        ) == CredentialStorageStatus::KeychainAndLocalFile,
        local_file <==> status_of(keychain, local_file) == CredentialStorageStatus::LocalFile
            || status_of(keychain, local_file) == CredentialStorageStatus::KeychainAndLocalFile,
{
}

/// A stored number is usable exactly if it is a positive number.
pub proof fn usable_numbers_are_positive(api_id: Option<int>, source: Seq<char>)
    ensures
        api_id_fault(api_id, source) is None <==> api_id is Some && api_id->0 >= 1,
{
}

/// A profile with credentials is listed, and so is the default one, which alone is marked; a profile
/// that is neither is not listed.
pub proof fn profiles_with_credentials_are_listed(found: Seq<ProfileStatus>, current: Seq<char>, at: int)
    requires
        0 <= at < found.len(),
    ensures
        ({
            let profile = found[at];
            let shown = ProfileView {
                name: profile.name@,
                status: profile.status,
                is_default: profile.name@ == current,
            };
            profile.status != CredentialStorageStatus::Absent || profile.name@ == current
                ==> listed_profiles(found, current).contains(shown)
        }),
        forall|i: int|
            0 <= i < listed_profiles(found, current).len() ==> {
                let view = #[trigger] listed_profiles(found, current)[i];
                &&& view.is_default <==> view.name == current
                &&& view.is_default || view.status != CredentialStorageStatus::Absent
            },
    decreases found.len(),
{
    let list = listed_profiles(found, current);
    let init = found.drop_last();
    let before = listed_profiles(init, current);
    let last = found.last();
    if init.len() > 0 {
        let place = if at < init.len() {
            at
        } else {
            0
        };
        profiles_with_credentials_are_listed(init, current, place);
    }
    if list != before {
        assert(list == before.push(list.last()));
        assert(list[before.len() as int] == list.last());
        assert forall|x: ProfileView| before.contains(x) implies #[trigger] list.contains(x) by {
            let i = choose|i: int| 0 <= i < before.len() && before[i] == x;
            assert(list[i] == x);
        }
    }
    if at < init.len() {
        assert(init[at] == found[at]);
    }
}

/// The names under which profiles may be stored are the current one, those that are registered, those of
/// the files, and the default one where the keychain has it.
pub proof fn every_known_profile_is_looked_at(
    current: Seq<char>,
    default_in_keychain: bool,
    listed: Option<Seq<char>>,
    files: Seq<Seq<char>>,
    name: Seq<char>,
)
    ensures
        candidates(current, default_in_keychain, listed, files).contains(name) <==> {
            ||| name == current
            ||| default_in_keychain && name == "default"@
            ||| registered(listed).contains(name)
            ||| slugs_of(file_profiles(files)).contains(name)
        },
{
}

} // verus!
