//! Listing, showing and choosing profiles.

use vstd::prelude::*;

use crate::config::ProfileLayout;
use crate::export::progress;
use crate::report;
use crate::secrets::CredentialStorageStatus;
use crate::text;

verus! {

/// A profile, and which of its files are there.
#[derive(Debug)]
pub struct ProfileEntry {
    pub name: String,
    pub session: bool,
    pub state: bool,
    pub downloads: bool,
}

/// The line of a profile; the current one is marked.
pub open spec fn entry_line(entry: ProfileEntry, active: Option<Seq<char>>) -> Seq<char> {
    entry.name@ + if active == Some(entry.name@) {
        " *"@
    } else {
        Seq::empty()
    } + "  session="@ + progress::yes_no_text(entry.session) + " state="@ + progress::yes_no_text(
        entry.state,
    ) + " downloads="@ + progress::yes_no_text(entry.downloads)
}

fn render_entry(entry: &ProfileEntry, active: &Option<String>) -> (out: String)
    ensures
        out@ == entry_line(*entry, text::opt_text(*active)),
{
    let mut out = entry.name.clone();
    let ghost start = out@;
    let marked: bool = match active {
        Some(name) => text::same_text(name.as_str(), entry.name.as_str()),
        None => false,
    };
    if marked {
        out.append(" *");
    } else {
        assert(out@ =~= start + Seq::<char>::empty());
    }
    out.append("  session=");
    out.append(progress::yes_no(entry.session));
    out.append(" state=");
    out.append(progress::yes_no(entry.state));
    out.append(" downloads=");
    out.append(progress::yes_no(entry.downloads));
    out
}

/// The lines of profiles.
pub open spec fn entry_lines(entries: Seq<ProfileEntry>, active: Option<Seq<char>>) -> Seq<Seq<char>> {
    entries.map_values(|entry: ProfileEntry| entry_line(entry, active))
}

/// The list of profiles: the folder of all, and a line for each.
pub fn list(root: &str, entries: &[ProfileEntry], active: &Option<String>) -> (lines: Vec<String>)
    ensures
        text::texts(lines@) == seq!["Profiles root      : "@ + root@] + if entries@.len() == 0 {
            seq!["No profiles found."@]
        } else {
            entry_lines(entries@, text::opt_text(*active))
        },
{
    let mut lines: Vec<String> = Vec::new();
    report::push_text(&mut lines, "Profiles root      : ", root);
    let ghost head = seq!["Profiles root      : "@ + root@];
    let ghost chosen = text::opt_text(*active);
    if entries.len() == 0 {
        report::push_line(&mut lines, "No profiles found.");
        assert(text::texts(lines@) =~= head + seq!["No profiles found."@]);
        return lines;
    }
    let mut i: usize = 0;
    assert(text::texts(lines@) =~= head + entry_lines(entries@.take(0), chosen));
    while i < entries.len()
        invariant
            i <= entries@.len(),
            chosen == text::opt_text(*active),
            text::texts(lines@) == head + entry_lines(entries@.take(i as int), chosen),
        decreases entries@.len() - i,
    {
        let ghost before = text::texts(lines@);
        let ghost listed = entry_lines(entries@.take(i as int), chosen);
        let line = render_entry(&entries[i], active);
        let ghost content = line@;
        lines.push(line);
        proof {
            assert(text::texts(lines@) =~= before.push(content));
            assert(entry_lines(entries@.take(i + 1), chosen) =~= listed.push(content));
            assert(before.push(content) =~= head + listed.push(content));
        }
        i += 1;
    }
    assert(entries@.take(i as int) =~= entries@);
    lines
}

/// What is doubtful about a profile that was made the current one.
pub open spec fn doubts(root_exists: bool, session_exists: bool, status: CredentialStorageStatus) -> Seq<
    Seq<char>,
> {
    (if root_exists {
        Seq::empty()
    } else {
        seq![Seq::empty(), "Warning: this profile directory does not exist yet."@]
    }) + (if session_exists {
        Seq::empty()
    } else {
        seq!["Warning: no Telegram session DB exists for this profile yet."@]
    }) + (if status != CredentialStorageStatus::Absent {
        Seq::empty()
    } else {
        seq!["Warning: no default Telegram API credentials are stored yet."@]
    })
}

/// What is said of a profile that was made the current one.
pub open spec fn use_lines(
    profile: Seq<char>,
    layout: ProfileLayout,
    api_profile: Seq<char>,
    status: CredentialStorageStatus,
    root_exists: bool,
    session_exists: bool,
) -> Seq<Seq<char>> {
    seq![
        "Current profile set to `"@ + profile + "`."@,
        "Profile root      : "@ + layout.root_dir@,
        "Session           : "@ + layout.session_path@,
        "State DB          : "@ + layout.db_path@,
        "Downloads         : "@ + layout.download_dir@,
        "API profile       : "@ + api_profile,
        "API credentials   : "@ + status.name(),
    ] + doubts(root_exists, session_exists, status) + seq![
        Seq::empty(),
        "Next auth command:"@,
        "tgbacky auth --profile "@ + profile,
    ]
}

/// What is said of a profile that was made the current one.
pub fn use_profile(
    profile: &str,
    layout: &ProfileLayout,
    api_profile: &str,
    status: CredentialStorageStatus,
    root_exists: bool,
    session_exists: bool,
) -> (lines: Vec<String>)
    ensures
        text::texts(lines@) == use_lines(
            profile@,
            *layout,
            api_profile@,
            status,
            root_exists,
            session_exists,
        ),
{
    let mut lines: Vec<String> = Vec::new();
    let mut first = text::concat("Current profile set to `", profile);
    first.append("`.");
    report::push_line(&mut lines, first.as_str());
    report::push_text(&mut lines, "Profile root      : ", layout.root_dir.as_str());
    report::push_text(&mut lines, "Session           : ", layout.session_path.as_str());
    report::push_text(&mut lines, "State DB          : ", layout.db_path.as_str());
    report::push_text(&mut lines, "Downloads         : ", layout.download_dir.as_str());
    report::push_text(&mut lines, "API profile       : ", api_profile);
    report::push_text(&mut lines, "API credentials   : ", status.label());
    let ghost head = text::texts(lines@);
    if !root_exists {
        report::push_blank(&mut lines);
        report::push_line(&mut lines, "Warning: this profile directory does not exist yet.");
    }
    if !session_exists {
        report::push_line(&mut lines, "Warning: no Telegram session DB exists for this profile yet.");
    }
    if status == CredentialStorageStatus::Absent {
        report::push_line(&mut lines, "Warning: no default Telegram API credentials are stored yet.");
    }
    assert(text::texts(lines@) =~= head + doubts(root_exists, session_exists, status));
    report::push_blank(&mut lines);
    report::push_line(&mut lines, "Next auth command:");
    report::push_text(&mut lines, "tgbacky auth --profile ", profile);
    assert(text::texts(lines@) =~= use_lines(
        profile@,
        *layout,
        api_profile@,
        status,
        root_exists,
        session_exists,
    ));
    lines
}

/// What is said of the current profile.
pub open spec fn current_lines(
    profile: Seq<char>,
    layout: ProfileLayout,
    api_profile: Seq<char>,
    status: CredentialStorageStatus,
) -> Seq<Seq<char>> {
    seq![
        "Current profile   : "@ + profile,
        "Profile root      : "@ + layout.root_dir@,
        "Session           : "@ + layout.session_path@,
        "State DB          : "@ + layout.db_path@,
        "Downloads         : "@ + layout.download_dir@,
        "Artifacts         : "@ + layout.run_artifact_dir@,
        "API profile       : "@ + api_profile,
        "API credentials   : "@ + status.name(),
    ]
}

/// What is said of the current profile.
pub fn current(
    profile: &str,
    layout: &ProfileLayout,
    api_profile: &str,
    status: CredentialStorageStatus,
) -> (lines: Vec<String>)
    ensures
        text::texts(lines@) == current_lines(profile@, *layout, api_profile@, status),
{
    let mut lines: Vec<String> = Vec::new();
    report::push_text(&mut lines, "Current profile   : ", profile);
    report::push_text(&mut lines, "Profile root      : ", layout.root_dir.as_str());
    report::push_text(&mut lines, "Session           : ", layout.session_path.as_str());
    report::push_text(&mut lines, "State DB          : ", layout.db_path.as_str());
    report::push_text(&mut lines, "Downloads         : ", layout.download_dir.as_str());
    report::push_text(&mut lines, "Artifacts         : ", layout.run_artifact_dir.as_str());
    report::push_text(&mut lines, "API profile       : ", api_profile);
    report::push_text(&mut lines, "API credentials   : ", status.label());
    assert(text::texts(lines@) =~= current_lines(profile@, *layout, api_profile@, status));
    lines
}

/// What is said before a profile is deleted.
pub open spec fn delete_lines(profile: Seq<char>, layout: ProfileLayout) -> Seq<Seq<char>> {
    seq![
        "Delete profile `"@ + profile + "`?"@,
        "This removes:"@,
        "- "@ + layout.session_path@,
        "- "@ + layout.db_path@,
        "- "@ + layout.run_artifact_dir@,
        "- "@ + layout.download_dir@,
        "- profile root "@ + layout.root_dir@,
        "It does not remove global API credentials."@,
    ]
}

/// What is said before a profile is deleted.
pub fn delete_question(profile: &str, layout: &ProfileLayout) -> (lines: Vec<String>)
    ensures
        text::texts(lines@) == delete_lines(profile@, *layout),
{
    let mut question = text::concat("Delete profile `", profile);
    question.append("`?");
    let mut lines: Vec<String> = Vec::new();
    report::push_line(&mut lines, question.as_str());
    report::push_line(&mut lines, "This removes:");
    report::push_text(&mut lines, "- ", layout.session_path.as_str());
    report::push_text(&mut lines, "- ", layout.db_path.as_str());
    report::push_text(&mut lines, "- ", layout.run_artifact_dir.as_str());
    report::push_text(&mut lines, "- ", layout.download_dir.as_str());
    report::push_text(&mut lines, "- profile root ", layout.root_dir.as_str());
    report::push_line(&mut lines, "It does not remove global API credentials.");
    assert(text::texts(lines@) =~= delete_lines(profile@, *layout));
    lines
}

} // verus!
