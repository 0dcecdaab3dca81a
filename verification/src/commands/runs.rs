//! Listing recorded runs.

use vstd::prelude::*;

use crate::number;
use crate::storage::{RunRecord, RunStatus};
use crate::text;

verus! {

/// The short name of a run's status.
pub open spec fn status_text(status: RunStatus) -> Seq<char> {
    match status {
        RunStatus::Running => "running"@,
        RunStatus::Succeeded => "succeeded"@,
        RunStatus::Interrupted => "interrupt"@,
        RunStatus::Failed => "failed"@,
    }
}

/// The short name of a run's status.
pub fn format_run_status(status: RunStatus) -> (out: &'static str)
    ensures
        out@ == status_text(status),
{
    match status {
        RunStatus::Running => "running",
        RunStatus::Succeeded => "succeeded",
        RunStatus::Interrupted => "interrupt",
        RunStatus::Failed => "failed",
    }
}

/// `value` cut to `width` characters; a cut is marked by `~` in the last place, where there is room
/// for more than the mark.
pub open spec fn shortened(value: Seq<char>, width: nat) -> Seq<char> {
    if value.len() <= width {
        value
    } else if width > 1 {
        value.take(width - 1).push('~')
    } else {
        value.take(width as int)
    }
}

/// `value` cut to `width` characters.
pub fn truncate(value: &str, width: usize) -> (out: String)
    ensures
        out@ == shortened(value@, width as nat),
        out@.len() <= width,
{
    let chars = text::chars_of(value);
    if chars.len() <= width {
        return value.to_string();
    }
    if width > 1 {
        let part = text::slice_of(&chars, 0, width - 1);
        let mut out = text::text_of(&part);
        out.push('~');
        assert(out@ =~= shortened(value@, width as nat));
        out
    } else {
        let part = text::slice_of(&chars, 0, width);
        assert(part@ =~= value@.take(width as int));
        text::text_of(&part)
    }
}

/// What a run was about: the title of the chat, else what was asked for, else `-`.
pub open spec fn chat_of(run: RunRecord) -> Seq<char> {
    match (run.chat_title, run.requested_chat) {
        (Some(title), _) => title@,
        (None, Some(asked)) => asked@,
        (None, None) => "-"@,
    }
}

/// A row of the list of runs.
pub open spec fn row_text(
    id: Seq<char>,
    status: Seq<char>,
    operation: Seq<char>,
    chat: Seq<char>,
    downloaded: Seq<char>,
    failed: Seq<char>,
    started_at: Seq<char>,
) -> Seq<char> {
    text::right_aligned(id, 6) + "  "@ + text::left_aligned(status, 9) + "  "@ + text::left_aligned(
        operation,
        12,
    ) + "  "@ + text::left_aligned(chat, 16) + "  "@ + text::right_aligned(downloaded, 6) + "  "@
        + text::right_aligned(failed, 6) + "  "@ + started_at
}

fn render_row(
    id: &str,
    status: &str,
    operation: &str,
    chat: &str,
    downloaded: &str,
    failed: &str,
    started_at: &str,
) -> (out: String)
    ensures
        out@ == row_text(id@, status@, operation@, chat@, downloaded@, failed@, started_at@),
{
    let mut out = text::align_right(id, 6);
    out.append("  ");
    let status = text::align_left(status, 9);
    out.append(status.as_str());
    out.append("  ");
    let operation = text::align_left(operation, 12);
    out.append(operation.as_str());
    out.append("  ");
    let chat = text::align_left(chat, 16);
    out.append(chat.as_str());
    out.append("  ");
    let downloaded = text::align_right(downloaded, 6);
    out.append(downloaded.as_str());
    out.append("  ");
    let failed = text::align_right(failed, 6);
    out.append(failed.as_str());
    out.append("  ");
    out.append(started_at);
    out
}

/// The lines of a run: its row, and below it the error and the artifact, where there are.
pub open spec fn run_lines(run: RunRecord) -> Seq<Seq<char>> {
    let row = row_text(
        number::int_text(run.id as int),
        status_text(run.status),
        run.operation@,
        shortened(chat_of(run), 16),
        number::nat_text(run.downloaded as nat),
        number::nat_text(run.failed as nat),
        run.started_at@,
    );
    let error = match run.error_message {
        Some(error) => seq!["         error: "@ + error@],
        None => Seq::empty(),
    };
    let artifact = match run.artifact_path {
        Some(artifact) => seq!["         artifact: "@ + artifact@],
        None => Seq::empty(),
    };
    seq![row] + error + artifact
}

/// The lines of all runs.
pub open spec fn all_run_lines(runs: Seq<RunRecord>) -> Seq<Seq<char>>
    decreases runs.len(),
{
    if runs.len() == 0 {
        Seq::empty()
    } else {
        all_run_lines(runs.drop_last()) + run_lines(runs.last())
    }
}

/// The heading of the list of runs.
pub open spec fn heading() -> Seq<char> {
    row_text("run_id"@, "status"@, "operation"@, "chat"@, "dl"@, "fail"@, "started_at"@)
}

fn push_run(lines: &mut Vec<String>, run: &RunRecord)
    ensures
        text::texts(final(lines)@) == text::texts(old(lines)@) + run_lines(*run),
{
    let ghost start = text::texts(lines@);
    let chat = match (&run.chat_title, &run.requested_chat) {
        (Some(title), _) => title.clone(),
        (None, Some(asked)) => asked.clone(),
        (None, None) => "-".to_string(),
    };
    let chat = truncate(chat.as_str(), 16);
    let id = number::signed_decimal(run.id);
    let downloaded = number::decimal(run.downloaded as u128);
    let failed = number::decimal(run.failed as u128);
    let row = render_row(
        id.as_str(),
        format_run_status(run.status),
        run.operation.as_str(),
        chat.as_str(),
        downloaded.as_str(),
        failed.as_str(),
        run.started_at.as_str(),
    );
    let ghost first = row@;
    lines.push(row);
    assert(text::texts(lines@) =~= start + seq![first]);
    let ghost middle = text::texts(lines@);
    match &run.error_message {
        Some(error) => {
            lines.push(text::concat("         error: ", error.as_str()));
            assert(text::texts(lines@) =~= middle + seq!["         error: "@ + error@]);
        },
        None => {
            assert(text::texts(lines@) =~= middle + Seq::<Seq<char>>::empty());
        },
    }
    let ghost last = text::texts(lines@);
    match &run.artifact_path {
        Some(artifact) => {
            lines.push(text::concat("         artifact: ", artifact.as_str()));
            assert(text::texts(lines@) =~= last + seq!["         artifact: "@ + artifact@]);
        },
        None => {
            assert(text::texts(lines@) =~= last + Seq::<Seq<char>>::empty());
        },
    }
    assert(text::texts(lines@) =~= start + run_lines(*run));
}

/// The list of runs: a heading, then each run.
pub fn list(runs: &[RunRecord]) -> (lines: Vec<String>)
    ensures
        text::texts(lines@) == seq![heading()] + all_run_lines(runs@),
{
    let mut lines: Vec<String> = Vec::new();
    lines.push(
        render_row("run_id", "status", "operation", "chat", "dl", "fail", "started_at"),
    );
    let mut i: usize = 0;
    assert(runs@.take(0) =~= Seq::<RunRecord>::empty());
    assert(text::texts(lines@) =~= seq![heading()] + all_run_lines(runs@.take(0)));
    while i < runs.len()
        invariant
            i <= runs@.len(),
            text::texts(lines@) == seq![heading()] + all_run_lines(runs@.take(i as int)),
        decreases runs@.len() - i,
    {
        let ghost before = all_run_lines(runs@.take(i as int));
        push_run(&mut lines, &runs[i]);
        proof {
            assert(runs@.take(i + 1).drop_last() =~= runs@.take(i as int));
            assert(seq![heading()] + before + run_lines(runs@[i as int]) =~= seq![heading()] + (before
                + run_lines(runs@[i as int])));
        }
        i += 1;
    }
    assert(runs@.take(i as int) =~= runs@);
    lines
}

/// A text that is too long is cut to the width, and a mark shows that it was; any other stays.
pub proof fn long_texts_are_cut(value: Seq<char>, width: nat)
    ensures
        shortened(value, width).len() <= width,
        value.len() <= width ==> shortened(value, width) == value,
        value.len() > width && width > 1 ==> shortened(value, width).last() == '~' && shortened(
            value,
            width,
        ).len() == width && shortened(value, width).drop_last() == value.take(width - 1),
{
    if value.len() > width && width > 1 {
        assert(shortened(value, width).drop_last() =~= value.take(width - 1));
    }
}

/// A run is shown with the title of its chat, else with what was asked for.
pub proof fn runs_name_their_chat(run: RunRecord)
    ensures
        run.chat_title is Some ==> chat_of(run) == run.chat_title->0@,
        run.chat_title is None && run.requested_chat is Some ==> chat_of(run) == run.requested_chat->0@,
{
}

} // verus!
