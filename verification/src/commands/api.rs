//! Listing, checking and deleting API credentials.

use vstd::prelude::*;

use crate::export::progress;
use crate::report;
use crate::secrets::{ApiCredentialCheck, ApiCredentialProfile, CredentialStorageStatus};
use crate::text;

verus! {

/// A row of the list of API profiles.
pub open spec fn row_text(name: Seq<char>, storage: Seq<char>, default: Seq<char>) -> Seq<char> {
    text::left_aligned(name, 20) + "  "@ + text::left_aligned(storage, 18) + "  "@ + default
}

fn render_row(name: &str, storage: &str, default: &str) -> (out: String)
    ensures
        out@ == row_text(name@, storage@, default@),
{
    let mut out = text::align_left(name, 20);
    out.append("  ");
    let column = text::align_left(storage, 18);
    out.append(column.as_str());
    out.append("  ");
    out.append(default);
    out
}

/// The row of an API profile.
pub open spec fn entry_row(entry: ApiCredentialProfile) -> Seq<char> {
    row_text(entry.name@, entry.status.name(), progress::yes_no_text(entry.is_default))
}

/// The rows of API profiles.
pub open spec fn entry_rows(entries: Seq<ApiCredentialProfile>) -> Seq<Seq<char>> {
    entries.map_values(|entry: ApiCredentialProfile| entry_row(entry))
}

/// The list of API profiles: a heading, and a row for each.
pub fn list(entries: &[ApiCredentialProfile]) -> (lines: Vec<String>)
    ensures
        text::texts(lines@) == seq![row_text("name"@, "storage"@, "default"@)] + entry_rows(entries@),
{
    let mut lines: Vec<String> = Vec::new();
    lines.push(render_row("name", "storage", "default"));
    let ghost heading = seq![row_text("name"@, "storage"@, "default"@)];
    assert(text::texts(lines@) =~= heading + entry_rows(entries@.take(0)));
    let mut i: usize = 0;
    while i < entries.len()
        invariant
            i <= entries@.len(),
            text::texts(lines@) == heading + entry_rows(entries@.take(i as int)),
        decreases entries@.len() - i,
    {
        let ghost before = text::texts(lines@);
        let row = render_row(
            entries[i].name.as_str(),
            entries[i].status.label(),
            progress::yes_no(entries[i].is_default),
        );
        lines.push(row);
        proof {
            assert(text::texts(lines@) =~= before.push(row@));
            assert(entry_rows(entries@.take(i + 1)) =~= entry_rows(entries@.take(i as int)).push(
                entry_row(entries@[i as int]),
            ));
            assert(text::texts(lines@) =~= heading + entry_rows(entries@.take(i + 1)));
        }
        i += 1;
    }
    assert(entries@.take(i as int) =~= entries@);
    lines
}

/// What is said of where the credentials of an API profile are.
pub open spec fn check_lines(name: Seq<char>, check: ApiCredentialCheck, local_file: bool) -> Seq<
    Seq<char>,
> {
    seq![
        "API profile       : "@ + name,
        "Storage           : "@ + check.status.name(),
        "Keychain backend  : "@ + check.keychain_backend@,
        "Keychain readable : "@ + progress::yes_no_text(check.keychain_readable),
        "Keychain detail   : "@ + check.keychain_message@,
        "Local file        : "@ + check.local_path@,
        "Local file exists : "@ + progress::yes_no_text(local_file),
    ]
}

/// What is said of where the credentials of an API profile are. No secret is among it.
pub fn describe_check(name: &str, check: &ApiCredentialCheck, local_file: bool) -> (lines: Vec<
    String,
>)
    ensures
        text::texts(lines@) == check_lines(name@, *check, local_file),
{
    let mut lines: Vec<String> = Vec::new();
    report::push_text(&mut lines, "API profile       : ", name);
    report::push_text(&mut lines, "Storage           : ", check.status.label());
    report::push_text(&mut lines, "Keychain backend  : ", check.keychain_backend);
    report::push_text(
        &mut lines,
        "Keychain readable : ",
        progress::yes_no(check.keychain_readable),
    );
    report::push_text(&mut lines, "Keychain detail   : ", check.keychain_message.as_str());
    report::push_text(&mut lines, "Local file        : ", check.local_path.as_str());
    report::push_text(&mut lines, "Local file exists : ", progress::yes_no(local_file));
    assert(text::texts(lines@) =~= check_lines(name@, *check, local_file));
    lines
}

/// What the deletion of an API profile begins with.
#[derive(Debug)]
pub enum DeleteStep {
    /// There is nothing to delete: say so.
    Nothing(String),
    /// Ask for a confirmation, with these lines.
    Confirm(Vec<String>),
    Delete,
}

/// What the deletion of an API profile begins with. Nothing is deleted without a confirmation,
/// unless it was given with the command.
pub fn begin_delete(name: &str, status: CredentialStorageStatus, confirmed: bool) -> (step: DeleteStep)
    ensures
        if status == CredentialStorageStatus::Absent {
            step matches DeleteStep::Nothing(line) && line@ == "API profile `"@ + name@
                + "` has no stored credentials."@
        } else if confirmed {
            step is Delete
        } else {
            step matches DeleteStep::Confirm(lines) && text::texts(lines@) == seq![
                "Delete API credentials `"@ + name@ + "`?"@,
                "Storage           : "@ + status.name(),
            ]
        },
{
    if status == CredentialStorageStatus::Absent {
        let mut line = text::concat("API profile `", name);
        line.append("` has no stored credentials.");
        return DeleteStep::Nothing(line);
    }
    if confirmed {
        return DeleteStep::Delete;
    }
    let mut question = text::concat("Delete API credentials `", name);
    question.append("`?");
    let mut lines: Vec<String> = Vec::new();
    report::push_line(&mut lines, question.as_str());
    report::push_text(&mut lines, "Storage           : ", status.label());
    assert(text::texts(lines@) =~= seq![question@, "Storage           : "@ + status.name()]);
    DeleteStep::Confirm(lines)
}

} // verus!
