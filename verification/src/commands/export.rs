//! Exports of one or several chats: what is announced, and how they end.

use vstd::prelude::*;

use crate::config::{AppConfig, DownloadConcurrencyOrigin};
use crate::date::Date;
use crate::export::progress;
use crate::export::scope;
use crate::number;
use crate::path;
use crate::report;
use crate::report::RunOutcome;
use crate::secrets::CredentialStorageStatus;
use crate::text;
use crate::types::{ExportOptions, MediaFilter};

verus! {

/// What an export is asked to do.
#[derive(Debug)]
pub struct ExportCommand {
    pub chats: Vec<String>,
    pub out_dir: String,
    pub resume: bool,
    pub verbose_progress: bool,
    pub media_filter: MediaFilter,
    pub since_id: Option<i32>,
    pub until_id: Option<i32>,
    pub date_from: Option<Date>,
    pub date_to: Option<Date>,
    pub limit: Option<usize>,
    pub json_report: bool,
    pub rescan: bool,
}

/// What a plan is asked for.
#[derive(Debug)]
pub struct ExportPlanCommand {
    pub chat: String,
    pub out_dir: String,
    pub media_filter: MediaFilter,
    pub since_id: Option<i32>,
    pub until_id: Option<i32>,
    pub date_from: Option<Date>,
    pub date_to: Option<Date>,
    pub limit: Option<usize>,
    pub rescan: bool,
    pub save_queue: bool,
    pub json: bool,
}

impl ExportCommand {
    /// What the export of one of the chats is asked to do.
    pub open spec fn asks(self, chat: Seq<char>, options: ExportOptions) -> bool {
        &&& options.chat@ == chat
        &&& options.out_dir@ == self.out_dir@
        &&& options.resume == self.resume
        &&& options.verbose_progress == self.verbose_progress
        &&& options.media_filter == self.media_filter
        &&& options.since_id == self.since_id
        &&& options.until_id == self.until_id
        &&& options.date_from == self.date_from
        &&& options.date_to == self.date_to
        &&& options.limit == self.limit
        &&& options.rescan == self.rescan
    }

    /// What the export of one of the chats is asked to do.
    pub fn options(&self, chat: &str) -> (options: ExportOptions)
        ensures
            self.asks(chat@, options),
    {
        ExportOptions {
            chat: chat.to_string(),
            out_dir: self.out_dir.clone(),
            resume: self.resume,
            verbose_progress: self.verbose_progress,
            media_filter: self.media_filter,
            since_id: self.since_id,
            until_id: self.until_id,
            date_from: self.date_from,
            date_to: self.date_to,
            limit: self.limit,
            rescan: self.rescan,
        }
    }
}

impl ExportPlanCommand {
    /// What the plan is made for. A plan never resumes and shows no progress.
    pub open spec fn asks(self, options: ExportOptions) -> bool {
        &&& options.chat@ == self.chat@
        &&& options.out_dir@ == self.out_dir@
        &&& !options.resume
        &&& !options.verbose_progress
        &&& options.media_filter == self.media_filter
        &&& options.since_id == self.since_id
        &&& options.until_id == self.until_id
        &&& options.date_from == self.date_from
        &&& options.date_to == self.date_to
        &&& options.limit == self.limit
        &&& options.rescan == self.rescan
    }

    /// What the plan is made for.
    pub fn options(&self) -> (options: ExportOptions)
        ensures
            self.asks(options),
    {
        ExportOptions {
            chat: self.chat.clone(),
            out_dir: self.out_dir.clone(),
            resume: false,
            verbose_progress: false,
            media_filter: self.media_filter,
            since_id: self.since_id,
            until_id: self.until_id,
            date_from: self.date_from,
            date_to: self.date_to,
            limit: self.limit,
            rescan: self.rescan,
        }
    }
}

/// Where the credentials of a run come from, as it is announced: credentials given for the run are
/// named by where they are stored, if they are.
pub open spec fn credential_label(
    source: Seq<char>,
    stored: Option<CredentialStorageStatus>,
) -> Seq<char> {
    if source == "runtime"@ && stored is Some && stored->0 != CredentialStorageStatus::Absent {
        stored->0.name()
    } else {
        source
    }
}

/// Where the credentials of a run come from. `stored` is where credentials are stored, if that is
/// known.
pub fn export_credential_label(config: &AppConfig, stored: Option<CredentialStorageStatus>) -> (
    out: &'static str)
    ensures
        out@ == credential_label(config.credential_source.name(), stored),
{
    let source = config.credential_source.label();
    if !text::same_text(source, "runtime") {
        return source;
    }
    match stored {
        Some(status) => if status != CredentialStorageStatus::Absent {
            status.label()
        } else {
            source
        },
        None => source,
    }
}

/// The number of download workers and where it comes from.
pub open spec fn worker_text(workers: usize, origin: DownloadConcurrencyOrigin) -> Seq<char> {
    number::nat_text(workers as nat) + match origin {
        DownloadConcurrencyOrigin::Auto => " (auto-detected)"@,
        DownloadConcurrencyOrigin::Cli => " (from --workers)"@,
    }
}

/// The number of download workers and where it comes from.
pub fn format_worker_setting(workers: usize, origin: DownloadConcurrencyOrigin) -> (out: String)
    ensures
        out@ == worker_text(workers, origin),
{
    let mut out = number::decimal(workers as u128);
    match origin {
        DownloadConcurrencyOrigin::Auto => out.append(" (auto-detected)"),
        DownloadConcurrencyOrigin::Cli => out.append(" (from --workers)"),
    }
    out
}

/// The kinds of a filter as text.
pub fn format_media_filter(filter: &MediaFilter) -> (out: String)
    ensures
        out@ == text::joined(filter.names(), ", "@),
{
    let names = filter.kind_names();
    text::join(&names, ", ")
}

/// The lines that exports and plans have in common.
pub open spec fn shared_lines(
    config: AppConfig,
    options: ExportOptions,
    stored: Option<CredentialStorageStatus>,
) -> Seq<Seq<char>> {
    seq![
        "Profile           : "@ + config.profile@ + " ("@ + config.profile_source.name() + ")"@,
        "API profile       : "@ + config.api_profile@,
        "API credentials   : "@ + credential_label(config.credential_source.name(), stored),
        "Session           : "@ + config.session_path@,
        "State DB          : "@ + config.db_path@,
        "Chat              : "@ + options.chat@,
        "Output directory  : "@ + options.out_dir@,
        "Mode              : "@ + progress::mode_text(options),
        "Scope             : "@ + progress::scope_text(options),
        "Media types       : "@ + text::joined(options.media_filter.names(), ", "@),
    ]
}

fn push_shared(
    lines: &mut Vec<String>,
    config: &AppConfig,
    options: &ExportOptions,
    stored: Option<CredentialStorageStatus>,
)
    ensures
        text::texts(final(lines)@) == text::texts(old(lines)@) + shared_lines(*config, *options, stored),
{
    let ghost before = text::texts(lines@);
    let mut profile = text::concat(config.profile.as_str(), " (");
    profile.append(config.profile_source.label());
    profile.append(")");
    report::push_text(lines, "Profile           : ", profile.as_str());
    assert(text::texts(lines@).last() =~= "Profile           : "@ + config.profile@ + " ("@
        + config.profile_source.name() + ")"@);
    report::push_text(lines, "API profile       : ", config.api_profile.as_str());
    report::push_text(lines, "API credentials   : ", export_credential_label(config, stored));
    report::push_text(lines, "Session           : ", config.session_path.as_str());
    report::push_text(lines, "State DB          : ", config.db_path.as_str());
    report::push_text(lines, "Chat              : ", options.chat.as_str());
    report::push_text(lines, "Output directory  : ", options.out_dir.as_str());
    report::push_text(lines, "Mode              : ", progress::describe_export_mode(options));
    let scope = progress::describe_export_scope(options);
    report::push_text(lines, "Scope             : ", scope.as_str());
    let kinds = format_media_filter(&options.media_filter);
    report::push_text(lines, "Media types       : ", kinds.as_str());
    assert(text::texts(lines@) =~= before + shared_lines(*config, *options, stored));
}

/// What is announced before an export.
pub open spec fn prelude_lines(
    config: AppConfig,
    options: ExportOptions,
    stored: Option<CredentialStorageStatus>,
) -> Seq<Seq<char>> {
    let resumed = if options.resume {
        seq!["Compatibility      : --resume is now the default behavior and can be omitted"@]
    } else {
        Seq::empty()
    };
    let behavior = if !options.rescan && scope::unbounded(options) {
        seq![
            "Behavior          : tgbacky resumes from saved checkpoint when available; use --rescan to force a full history pass"@,
        ]
    } else {
        Seq::empty()
    };
    seq!["Starting export"@] + shared_lines(config, options, stored) + seq![
        "Download workers  : "@ + worker_text(
            config.download_concurrency,
            config.download_concurrency_origin,
        ),
    ] + resumed + behavior + seq![Seq::empty()]
}

/// What is announced before an export.
pub fn export_prelude(
    config: &AppConfig,
    options: &ExportOptions,
    stored: Option<CredentialStorageStatus>,
) -> (lines: Vec<String>)
    ensures
        text::texts(lines@) == prelude_lines(*config, *options, stored),
{
    let mut lines: Vec<String> = Vec::new();
    lines.push("Starting export".to_string());
    assert(text::texts(lines@) =~= seq!["Starting export"@]);
    push_shared(&mut lines, config, options, stored);
    let workers = format_worker_setting(
        config.download_concurrency,
        config.download_concurrency_origin,
    );
    report::push_text(&mut lines, "Download workers  : ", workers.as_str());
    let ghost always = text::texts(lines@);
    if options.resume {
        lines.push(
            "Compatibility      : --resume is now the default behavior and can be omitted".to_string(),
        );
        assert(text::texts(lines@) =~= always.push(
            "Compatibility      : --resume is now the default behavior and can be omitted"@,
        ));
    }
    let ghost resumed = text::texts(lines@);
    if !options.rescan && options.since_id.is_none() && options.until_id.is_none()
        && options.date_from.is_none() && options.date_to.is_none() {
        lines.push(
            "Behavior          : tgbacky resumes from saved checkpoint when available; use --rescan to force a full history pass".to_string(),
        );
        assert(text::texts(lines@) =~= resumed.push(
            "Behavior          : tgbacky resumes from saved checkpoint when available; use --rescan to force a full history pass"@,
        ));
    }
    let ghost before = text::texts(lines@);
    lines.push(String::new());
    assert(text::texts(lines@) =~= before.push(Seq::<char>::empty()));
    assert(text::texts(lines@) =~= prelude_lines(*config, *options, stored));
    lines
}

/// What is announced before a plan.
pub open spec fn plan_prelude_lines(
    config: AppConfig,
    options: ExportOptions,
    stored: Option<CredentialStorageStatus>,
    save_queue: bool,
) -> Seq<Seq<char>> {
    seq!["Planning export"@] + shared_lines(config, options, stored) + seq![
        "Persistence       : "@ + if save_queue {
            "save pending queue"@
        } else {
            "dry-run only"@
        },
        Seq::empty(),
    ]
}

/// What is announced before a plan.
pub fn export_plan_prelude(
    config: &AppConfig,
    options: &ExportOptions,
    stored: Option<CredentialStorageStatus>,
    save_queue: bool,
) -> (lines: Vec<String>)
    ensures
        text::texts(lines@) == plan_prelude_lines(*config, *options, stored, save_queue),
{
    let mut lines: Vec<String> = Vec::new();
    lines.push("Planning export".to_string());
    assert(text::texts(lines@) =~= seq!["Planning export"@]);
    push_shared(&mut lines, config, options, stored);
    let persistence = if save_queue {
        "save pending queue"
    } else {
        "dry-run only"
    };
    report::push_text(&mut lines, "Persistence       : ", persistence);
    let ghost before = text::texts(lines@);
    lines.push(String::new());
    assert(text::texts(lines@) =~= before.push(Seq::<char>::empty()));
    assert(text::texts(lines@) =~= plan_prelude_lines(*config, *options, stored, save_queue));
    lines
}

/// The end of the name of a run's artifact.
pub open spec fn artifact_suffix(outcome: RunOutcome) -> Seq<char> {
    match outcome {
        RunOutcome::Succeeded => "success"@,
        RunOutcome::Interrupted => "interrupted"@,
        RunOutcome::Failed => "failed"@,
    }
}

/// The number of a run in the name of its artifact: at least six characters, a sign included.
pub open spec fn run_number(run_id: int) -> Seq<char> {
    if run_id < 0 {
        seq!['-'] + number::padded_text((-run_id) as nat, 5)
    } else {
        number::padded_text(run_id as nat, 6)
    }
}

/// The file that the record of a run is written to.
pub fn run_artifact_path(run_artifact_dir: &str, run_id: i64, outcome: RunOutcome) -> (out: String)
    ensures
        out@ == path::below(
            run_artifact_dir@,
            "run_"@ + run_number(run_id as int) + "_"@ + artifact_suffix(outcome) + ".json"@,
        ),
{
    let suffix = match outcome {
        RunOutcome::Succeeded => "success",
        RunOutcome::Interrupted => "interrupted",
        RunOutcome::Failed => "failed",
    };
    let digits = if run_id < 0 {
        let mut digits = String::new();
        digits.push('-');
        let rest = number::padded((-(run_id as i128)) as u128, 5);
        digits.append(rest.as_str());
        assert(digits@ =~= run_number(run_id as int));
        digits
    } else {
        number::padded(run_id as u128, 6)
    };
    let mut name = text::concat("run_", digits.as_str());
    name.append("_");
    name.append(suffix);
    name.append(".json");
    path::join(run_artifact_dir, name.as_str())
}

/// The line that says where an interrupted export goes on.
pub fn interrupted_line(last_checkpoint_message_id: Option<i32>) -> (out: String)
    ensures
        out@ == "Interrupted: checkpoint preserved at "@ + report::optional_id_text(
            last_checkpoint_message_id,
        ),
{
    let id = match last_checkpoint_message_id {
        Some(id) => number::signed_decimal(id as i64),
        None => "none".to_string(),
    };
    text::concat("Interrupted: checkpoint preserved at ", id.as_str())
}

/// What a command asks of an export is what the export is given: each bound, the filter, the folder and
/// the limit, under their own names.
pub proof fn exports_get_what_was_asked(
    command: ExportCommand,
    plan: ExportPlanCommand,
    chat: Seq<char>,
    options: ExportOptions,
)
    ensures
        command.asks(chat, options) ==> {
            &&& options.chat@ == chat
            &&& options.since_id == command.since_id
            &&& options.until_id == command.until_id
            &&& options.date_from == command.date_from
            &&& options.date_to == command.date_to
            &&& options.limit == command.limit
            &&& options.rescan == command.rescan
            &&& options.media_filter == command.media_filter
            &&& options.out_dir@ == command.out_dir@
        },
        plan.asks(options) ==> {
            &&& options.chat@ == plan.chat@
            &&& options.since_id == plan.since_id
            &&& options.until_id == plan.until_id
            &&& options.date_from == plan.date_from
            &&& options.date_to == plan.date_to
            &&& options.limit == plan.limit
            &&& options.rescan == plan.rescan
            &&& options.media_filter == plan.media_filter
            &&& options.out_dir@ == plan.out_dir@
        },
{
}

} // verus!
