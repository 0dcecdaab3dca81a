//! Checking whether a profile is ready to use.

use vstd::prelude::*;

use crate::config::AppConfig;
use crate::error::AppError;
use crate::error::Result;
use crate::number;
use crate::path;
use crate::report;
use crate::secrets::CredentialStorageStatus;
use crate::text;

verus! {

#[derive(Debug, Clone, Copy, PartialEq, Eq, Structural)]
pub struct DoctorCommand {
    pub live: bool,
}

/// What was found of the state database.
#[derive(Debug)]
pub enum StateDbFacts {
    Missing,
    Schema(i64),
    Unreadable(String),
}

/// What was found of a folder.
#[derive(Debug)]
pub enum FolderFacts {
    Usable,
    ReadOnly,
    NotFolder,
    Missing,
    Unreadable(String),
}

/// What was found of a profile.
#[derive(Debug)]
pub struct DoctorFacts {
    pub session_exists: bool,
    pub state_db: StateDbFacts,
    pub downloads: FolderFacts,
    pub artifacts: FolderFacts,
    /// Where the credentials are, or why that is not known.
    pub credentials: std::result::Result<CredentialStorageStatus, String>,
    pub keychain_persistent: bool,
    pub keychain_backend: &'static str,
}

/// The result of a check: a line for each thing, and what is wrong.
#[derive(Debug)]
pub struct DoctorReport {
    pub lines: Vec<String>,
    pub failures: Vec<String>,
    pub warnings: Vec<String>,
}

/// The folder of the profile: that of the session file.
pub open spec fn root_of(session_path: Seq<char>) -> Seq<char> {
    if path::names(text::pieces(session_path, '/')).len() == 0 {
        "."@
    } else {
        path::parent(session_path)
    }
}

/// The folder of the profile.
pub fn profile_root(config: &AppConfig) -> (out: String)
    ensures
        out@ == root_of(config.session_path@),
{
    let names = path::names_of(config.session_path.as_str());
    if names.len() == 0 {
        ".".to_string()
    } else {
        path::parent_of(config.session_path.as_str())
    }
}

/// A line of the report.
pub open spec fn check_line(label: Seq<char>, finding: Seq<char>) -> Seq<char> {
    text::left_aligned(label, 18) + ": "@ + finding
}

fn push_check(lines: &mut Vec<String>, label: &str, finding: &str)
    ensures
        text::texts(final(lines)@) == text::texts(old(lines)@).push(check_line(label@, finding@)),
{
    let ghost before = text::texts(lines@);
    let mut line = text::align_left(label, 18);
    line.append(": ");
    line.append(finding);
    let ghost content = line@;
    lines.push(line);
    assert(text::texts(lines@) =~= before.push(content));
}

/// What is said of the state database.
pub open spec fn state_db_line(facts: StateDbFacts) -> Seq<char> {
    check_line(
        "state DB"@,
        match facts {
            StateDbFacts::Missing => "missing"@,
            StateDbFacts::Schema(version) => "ok (schema v"@ + number::int_text(version as int) + ")"@,
            StateDbFacts::Unreadable(_) => "unreadable"@,
        },
    )
}

/// What is wrong with the state database, if anything.
pub open spec fn state_db_failures(facts: StateDbFacts, db_path: Seq<char>) -> Seq<Seq<char>> {
    match facts {
        StateDbFacts::Missing => seq!["state DB does not exist at "@ + db_path],
        StateDbFacts::Schema(_) => Seq::empty(),
        StateDbFacts::Unreadable(error) => seq![
            "state DB at "@ + db_path + " is not readable: "@ + error@,
        ],
    }
}

/// What is said of a folder.
pub open spec fn folder_finding(facts: FolderFacts) -> Seq<char> {
    match facts {
        FolderFacts::Usable => "ok"@,
        FolderFacts::ReadOnly => "read-only"@,
        FolderFacts::NotFolder => "not a directory"@,
        FolderFacts::Missing => "not created yet"@,
        FolderFacts::Unreadable(_) => "unreadable"@,
    }
}

/// What is doubtful about a folder, if anything.
pub open spec fn folder_warnings(label: Seq<char>, facts: FolderFacts, folder: Seq<char>) -> Seq<Seq<char>> {
    let head = label + " at "@ + folder;
    match facts {
        FolderFacts::Usable | FolderFacts::Missing => Seq::empty(),
        FolderFacts::ReadOnly => seq![head + " is read-only"@],
        FolderFacts::NotFolder => seq![head + " is not a directory"@],
        FolderFacts::Unreadable(error) => seq![head + " is unreadable: "@ + error@],
    }
}

fn check_optional_directory(label: &str, facts: &FolderFacts, folder: &str, lines: &mut Vec<String>,
    warnings: &mut Vec<String>)
    ensures
        text::texts(final(lines)@) == text::texts(old(lines)@).push(
            check_line(label@, folder_finding(*facts)),
        ),
        text::texts(final(warnings)@) == text::texts(old(warnings)@) + folder_warnings(
            label@,
            *facts,
            folder@,
        ),
{
    let ghost before = text::texts(warnings@);
    let mut head = text::concat(label, " at ");
    head.append(folder);
    match facts {
        FolderFacts::Usable => push_check(lines, label, "ok"),
        FolderFacts::Missing => push_check(lines, label, "not created yet"),
        FolderFacts::ReadOnly => {
            push_check(lines, label, "read-only");
            head.append(" is read-only");
            report::push_line(warnings, head.as_str());
        },
        FolderFacts::NotFolder => {
            push_check(lines, label, "not a directory");
            head.append(" is not a directory");
            report::push_line(warnings, head.as_str());
        },
        FolderFacts::Unreadable(error) => {
            push_check(lines, label, "unreadable");
            head.append(" is unreadable: ");
            head.append(error.as_str());
            report::push_line(warnings, head.as_str());
        },
    }
    assert(text::texts(warnings@) =~= before + folder_warnings(label@, *facts, folder@));
}

/// Where credentials are, as far as it is known.
pub open spec fn known_status(credentials: std::result::Result<CredentialStorageStatus, String>) ->
    CredentialStorageStatus {
    match credentials {
        Ok(status) => status,
        Err(_) => CredentialStorageStatus::Absent,
    }
}

/// What keeps a profile from being used.
pub open spec fn failures_of(config: AppConfig, facts: DoctorFacts) -> Seq<Seq<char>> {
    let unreadable = match facts.credentials {
        Ok(_) => Seq::empty(),
        Err(error) => seq!["credentials are not readable: "@ + error@],
    };
    let session = if facts.session_exists {
        Seq::empty()
    } else {
        seq!["session DB does not exist at "@ + config.session_path@]
    };
    let credentials = if known_status(facts.credentials) == CredentialStorageStatus::Absent
        && config.credential_source.name() == "none"@ {
        seq![
            "no Telegram API credentials configured for API profile `"@ + config.api_profile@ + "`"@,
        ]
    } else {
        Seq::empty()
    };
    unreadable + session + state_db_failures(facts.state_db, config.db_path@) + credentials
}

/// What is doubtful about a profile.
pub open spec fn warnings_of(config: AppConfig, facts: DoctorFacts) -> Seq<Seq<char>> {
    let keychain = if !facts.keychain_persistent && known_status(facts.credentials)
        != CredentialStorageStatus::LocalFile && config.credential_source.name() == "none"@ {
        seq!["OS keychain backend is not persistent ("@ + facts.keychain_backend@ + ")"@]
    } else {
        Seq::empty()
    };
    folder_warnings("downloads dir"@, facts.downloads, config.download_dir@) + folder_warnings(
        "artifacts dir"@,
        facts.artifacts,
        config.run_artifact_dir@,
    ) + keychain
}

/// The lines of the checks.
pub open spec fn lines_of(facts: DoctorFacts) -> Seq<Seq<char>> {
    seq![
        check_line(
            "session DB"@,
            if facts.session_exists {
                "ok"@
            } else {
                "missing"@
            },
        ),
        state_db_line(facts.state_db),
        check_line("downloads dir"@, folder_finding(facts.downloads)),
        check_line("artifacts dir"@, folder_finding(facts.artifacts)),
    ]
}

/// Checks whether a profile is ready to use, from what was found of it.
pub fn examine(config: &AppConfig, facts: &DoctorFacts) -> (out: DoctorReport)
    ensures
        text::texts(out.lines@) == lines_of(*facts),
        text::texts(out.failures@) == failures_of(*config, *facts),
        text::texts(out.warnings@) == warnings_of(*config, *facts),
{
    let mut lines: Vec<String> = Vec::new();
    let mut failures: Vec<String> = Vec::new();
    let mut warnings: Vec<String> = Vec::new();
    assert(text::texts(lines@) =~= Seq::<Seq<char>>::empty());
    let status = match &facts.credentials {
        Ok(status) => *status,
        Err(error) => {
            report::push_text(&mut failures, "credentials are not readable: ", error.as_str());
            CredentialStorageStatus::Absent
        },
    };
    let ghost first = text::texts(failures@);
    if facts.session_exists {
        push_check(&mut lines, "session DB", "ok");
    } else {
        push_check(&mut lines, "session DB", "missing");
        report::push_text(
            &mut failures,
            "session DB does not exist at ",
            config.session_path.as_str(),
        );
    }
    let ghost second = text::texts(failures@);
    match &facts.state_db {
        StateDbFacts::Missing => {
            push_check(&mut lines, "state DB", "missing");
            report::push_text(&mut failures, "state DB does not exist at ", config.db_path.as_str());
        },
        StateDbFacts::Schema(version) => {
            let digits = number::signed_decimal(*version);
            let mut finding = text::concat("ok (schema v", digits.as_str());
            finding.append(")");
            push_check(&mut lines, "state DB", finding.as_str());
        },
        StateDbFacts::Unreadable(error) => {
            push_check(&mut lines, "state DB", "unreadable");
            let mut failure = text::concat("state DB at ", config.db_path.as_str());
            failure.append(" is not readable: ");
            failure.append(error.as_str());
            report::push_line(&mut failures, failure.as_str());
        },
    }
    assert(text::texts(failures@) =~= second + state_db_failures(facts.state_db, config.db_path@));
    check_optional_directory(
        "downloads dir",
        &facts.downloads,
        config.download_dir.as_str(),
        &mut lines,
        &mut warnings,
    );
    check_optional_directory(
        "artifacts dir",
        &facts.artifacts,
        config.run_artifact_dir.as_str(),
        &mut lines,
        &mut warnings,
    );
    let unset = text::same_text(config.credential_source.label(), "none");
    if status == CredentialStorageStatus::Absent && unset {
        let mut failure = text::concat(
            "no Telegram API credentials configured for API profile `",
            config.api_profile.as_str(),
        );
        failure.append("`");
        report::push_line(&mut failures, failure.as_str());
    }
    if !facts.keychain_persistent && status != CredentialStorageStatus::LocalFile && unset {
        let mut warning = text::concat(
            "OS keychain backend is not persistent (",
            facts.keychain_backend,
        );
        warning.append(")");
        report::push_line(&mut warnings, warning.as_str());
    }
    assert(text::texts(lines@) =~= lines_of(*facts));
    assert(text::texts(failures@) =~= failures_of(*config, *facts));
    assert(text::texts(warnings@) =~= warnings_of(*config, *facts));
    DoctorReport { lines, failures, warnings }
}

impl DoctorReport {
    /// Whether the local checks passed.
    pub fn outcome(&self) -> (out: Result<()>)
        ensures
            if self.failures@.len() == 0 {
                out is Ok
            } else {
                out matches Err(AppError::Config(detail)) && detail@
                    == "doctor found local configuration failures"@
            },
    {
        if self.failures.len() == 0 {
            Ok(())
        } else {
            Err(AppError::Config("doctor found local configuration failures".to_string()))
        }
    }

    /// The last line of a check that passed.
    pub fn verdict(&self) -> (out: &'static str)
        ensures
            out@ == if self.warnings@.len() == 0 {
                "Doctor result     : ok"@
            } else {
                "Doctor result     : ok (with warnings)"@
            },
    {
        if self.warnings.len() == 0 {
            "Doctor result     : ok"
        } else {
            "Doctor result     : ok (with warnings)"
        }
    }
}

/// The error for a profile whose session has no signed-in user.
pub fn not_signed_in(profile: &str) -> (error: AppError)
    ensures
        error matches AppError::Authentication(detail) && detail@ == "profile `"@ + profile@
            + "` has a session, but it is not authorized"@,
{
    let mut detail = text::concat("profile `", profile);
    detail.append("` has a session, but it is not authorized");
    AppError::Authentication(detail)
}

/// The program and the system that a check runs on.
#[derive(Debug)]
pub struct Platform<'a> {
    pub version: &'a str,
    pub os: &'a str,
    pub arch: &'a str,
}

/// What a check says first: the program, the profile and its files.
pub open spec fn heading_lines(config: AppConfig, facts: DoctorFacts, platform: Platform<'_>) -> Seq<
    Seq<char>,
> {
    seq![
        "tgbacky doctor"@,
        "Version           : "@ + platform.version@,
        "Platform          : "@ + platform.os@ + " "@ + platform.arch@,
        "Profile           : "@ + config.profile@ + " ("@ + config.profile_source.name() + ")"@,
        "Profile root      : "@ + root_of(config.session_path@),
        "Session           : "@ + config.session_path@,
        "State DB          : "@ + config.db_path@,
        "Downloads         : "@ + config.download_dir@,
        "Artifacts         : "@ + config.run_artifact_dir@,
        "API profile       : "@ + config.api_profile@,
        "API credentials   : "@ + known_status(facts.credentials).name(),
        "Keychain backend  : "@ + facts.keychain_backend@,
        Seq::empty(),
    ]
}

/// What a check says first: the program, the profile and its files.
pub fn heading(config: &AppConfig, facts: &DoctorFacts, platform: &Platform<'_>) -> (lines: Vec<
    String,
>)
    ensures
        text::texts(lines@) == heading_lines(*config, *facts, *platform),
{
    let mut system = text::concat(platform.os, " ");
    system.append(platform.arch);
    let mut profile = text::concat(config.profile.as_str(), " (");
    profile.append(config.profile_source.label());
    profile.append(")");
    let root = profile_root(config);
    let status = match &facts.credentials {
        Ok(status) => *status,
        Err(_) => CredentialStorageStatus::Absent,
    };
    let mut lines: Vec<String> = Vec::new();
    report::push_line(&mut lines, "tgbacky doctor");
    report::push_text(&mut lines, "Version           : ", platform.version);
    report::push_text(&mut lines, "Platform          : ", system.as_str());
    report::push_text(&mut lines, "Profile           : ", profile.as_str());
    report::push_text(&mut lines, "Profile root      : ", root.as_str());
    report::push_text(&mut lines, "Session           : ", config.session_path.as_str());
    report::push_text(&mut lines, "State DB          : ", config.db_path.as_str());
    report::push_text(&mut lines, "Downloads         : ", config.download_dir.as_str());
    report::push_text(&mut lines, "Artifacts         : ", config.run_artifact_dir.as_str());
    report::push_text(&mut lines, "API profile       : ", config.api_profile.as_str());
    report::push_text(&mut lines, "API credentials   : ", status.label());
    report::push_text(&mut lines, "Keychain backend  : ", facts.keychain_backend);
    report::push_blank(&mut lines);
    proof {
        let expected = heading_lines(*config, *facts, *platform);
        assert("Platform          : "@ + system@ =~= expected[2]);
        assert("Profile           : "@ + profile@ =~= expected[3]);
        assert(text::texts(lines@) =~= expected);
    }
    lines
}

/// A setup is sound exactly if the credentials can be read, the session is there, the state database can
/// be read, and there are credentials from anywhere. Every failure is told.
pub proof fn failures_are_told(config: AppConfig, facts: DoctorFacts)
    ensures
        ({
            let unreadable = facts.credentials is Err;
            let no_credentials = (facts.credentials is Err || facts.credentials->Ok_0
                == CredentialStorageStatus::Absent) && config.credential_source.name() == "none"@;
            let told = failures_of(config, facts).len();
            &&& told == 0 <==> !unreadable && facts.session_exists && facts.state_db is Schema
                && !no_credentials
            &&& told == (if unreadable {
                1int
            } else {
                0
            }) + (if facts.session_exists {
                0int
            } else {
                1
            }) + (if facts.state_db is Schema {
                0int
            } else {
                1
            }) + (if no_credentials {
                1int
            } else {
                0
            })
        }),
{
}

/// A folder is warned of exactly if it is there and cannot be used.
pub proof fn unusable_folders_are_warned_of(label: Seq<char>, facts: FolderFacts, folder: Seq<char>)
    ensures
        folder_warnings(label, facts, folder).len() == 0 <==> facts is Usable || facts is Missing,
        folder_warnings(label, facts, folder).len() <= 1,
{
}

} // verus!
