//! Listing chats, and forgetting what is known of one.

use vstd::prelude::*;

use crate::export::progress;
use crate::fsutil;
use crate::number;
use crate::order;
use crate::path;
use crate::report;
use crate::storage::StoredMediaRecord;
use crate::text;
use crate::types::{ChatKind, ChatSummary};

verus! {

/// How a chat's user name is shown: `-` where there is none.
pub open spec fn username_text(username: Option<Seq<char>>) -> Seq<char> {
    match username {
        Some(name) => if text::trimmed(name).len() == 0 {
            "-"@
        } else {
            text::trimmed(name)
        },
        None => "-"@,
    }
}

/// How a chat's user name is shown.
pub fn display_username(username: Option<&str>) -> (out: String)
    ensures
        out@ == username_text(text::opt_str(username)),
{
    match username {
        Some(name) => {
            let name = text::trim(name);
            if text::is_empty(name.as_str()) {
                "-".to_string()
            } else {
                name
            }
        },
        None => "-".to_string(),
    }
}

/// How a chat's title is shown: where it has none, its kind and id.
pub open spec fn title_text(kind: ChatKind, id: int, title: Seq<char>) -> Seq<char> {
    if text::trimmed(title).len() > 0 {
        text::trimmed(title)
    } else {
        "(no title; "@ + kind.name() + " id "@ + number::int_text(id) + ")"@
    }
}

/// How a chat's title is shown.
pub fn display_title(kind: ChatKind, id: i64, title: &str) -> (out: String)
    ensures
        out@ == title_text(kind, id as int, title@),
{
    let title = text::trim(title);
    if !text::is_empty(title.as_str()) {
        return title;
    }
    let digits = number::signed_decimal(id);
    let mut out = text::concat("(no title; ", kind.as_str());
    out.append(" id ");
    out.append(digits.as_str());
    out.append(")");
    out
}

/// A row of the list of chats.
pub open spec fn row_text(id: Seq<char>, kind: Seq<char>, username: Seq<char>, title: Seq<char>) -> Seq<
    char,
> {
    text::right_aligned(id, 16) + "  "@ + text::left_aligned(kind, 12) + "  "@ + text::left_aligned(
        username,
        24,
    ) + "  "@ + title
}

fn render_row(id: &str, kind: &str, username: &str, title: &str) -> (out: String)
    ensures
        out@ == row_text(id@, kind@, username@, title@),
{
    let mut out = text::align_right(id, 16);
    out.append("  ");
    let kind = text::align_left(kind, 12);
    out.append(kind.as_str());
    out.append("  ");
    let username = text::align_left(username, 24);
    out.append(username.as_str());
    out.append("  ");
    out.append(title);
    out
}

/// The row of a chat.
pub open spec fn chat_row<H>(chat: ChatSummary<H>) -> Seq<char> {
    row_text(
        number::int_text(chat.id as int),
        chat.kind.name(),
        username_text(text::opt_text(chat.username)),
        title_text(chat.kind, chat.id as int, chat.title@),
    )
}

/// The rows of chats.
pub open spec fn chat_rows<H>(chats: Seq<ChatSummary<H>>) -> Seq<Seq<char>> {
    chats.map_values(|chat: ChatSummary<H>| chat_row(chat))
}

/// How many chats have no title.
pub open spec fn untitled<H>(chats: Seq<ChatSummary<H>>) -> nat
    decreases chats.len(),
{
    if chats.len() == 0 {
        0
    } else {
        untitled(chats.drop_last()) + if text::trimmed(chats.last().title@).len() == 0 {
            1nat
        } else {
            0
        }
    }
}

/// The list of chats: a heading, a row for each, and a note where titles are missing.
pub open spec fn list_lines<H>(chats: Seq<ChatSummary<H>>) -> Seq<Seq<char>> {
    let table = seq![row_text("chat_id"@, "type"@, "username"@, "title"@)] + chat_rows(chats);
    if untitled(chats) == 0 {
        table
    } else {
        table + seq![
            Seq::empty(),
            "Note: "@ + number::nat_text(untitled(chats))
                + " chat(s) have no display name from Telegram; use chat_id."@,
        ]
    }
}

/// The list of chats.
pub fn list<H>(chats: &[ChatSummary<H>]) -> (lines: Vec<String>)
    ensures
        text::texts(lines@) == list_lines(chats@),
{
    let mut lines: Vec<String> = Vec::new();
    lines.push(render_row("chat_id", "type", "username", "title"));
    let ghost head = seq![row_text("chat_id"@, "type"@, "username"@, "title"@)];
    let mut hidden: usize = 0;
    let mut i: usize = 0;
    assert(text::texts(lines@) =~= head + chat_rows(chats@.take(0)));
    assert(chats@.take(0) =~= Seq::<ChatSummary<H>>::empty());
    while i < chats.len()
        invariant
            i <= chats@.len(),
            hidden <= i,
            hidden == untitled(chats@.take(i as int)),
            text::texts(lines@) == head + chat_rows(chats@.take(i as int)),
        decreases chats@.len() - i,
    {
        let ghost before = text::texts(lines@);
        let ghost rows = chat_rows(chats@.take(i as int));
        proof {
            assert(chats@.take(i + 1).drop_last() =~= chats@.take(i as int));
            assert(chats@.take(i + 1).last() == chats@[i as int]);
        }
        let chat = &chats[i];
        let title = display_title(chat.kind, chat.id, chat.title.as_str());
        let bare = text::trim(chat.title.as_str());
        if text::is_empty(bare.as_str()) {
            hidden += 1;
        }
        let username = match &chat.username {
            Some(name) => display_username(Some(name.as_str())),
            None => display_username(None),
        };
        let id = number::signed_decimal(chat.id);
        let row = render_row(id.as_str(), chat.kind.as_str(), username.as_str(), title.as_str());
        let ghost content = row@;
        lines.push(row);
        proof {
            assert(text::texts(lines@) =~= before.push(content));
            assert(chat_rows(chats@.take(i + 1)) =~= rows.push(content));
            assert(before.push(content) =~= head + rows.push(content));
        }
        i += 1;
    }
    assert(chats@.take(i as int) =~= chats@);
    if hidden > 0 {
        let ghost table = text::texts(lines@);
        lines.push(String::new());
        let digits = number::decimal(hidden as u128);
        let mut note = text::concat("Note: ", digits.as_str());
        note.append(" chat(s) have no display name from Telegram; use chat_id.");
        let ghost content = note@;
        lines.push(note);
        assert(text::texts(lines@) =~= table + seq![Seq::<char>::empty(), content]);
    }
    lines
}

/// Whether a path is that of a tracked file or of its unfinished download.
pub open spec fn is_tracked(records: Seq<StoredMediaRecord>, temp_extension: Seq<char>, file: Seq<char>) -> bool {
    exists|i: int|
        0 <= i < records.len() && (file == (#[trigger] records[i]).local_path@ || file
            == fsutil::sidecar(records[i].local_path@, temp_extension))
}

/// Whether every path of a list comes before the next.
pub open spec fn in_path_order(list: Seq<Seq<char>>) -> bool {
    forall|i: int, j: int|
        0 <= i < j < list.len() ==> order::path_before(#[trigger] list[i], #[trigger] list[j])
}

/// Whether a list has an entry for a path.
pub open spec fn has_path(list: Seq<Seq<char>>, file: Seq<char>) -> bool {
    exists|k: int| 0 <= k < list.len() && path::same(#[trigger] list[k], file)
}

fn place(list: &mut Vec<String>, file: String)
    requires
        in_path_order(text::texts(old(list)@)),
    ensures
        in_path_order(text::texts(final(list)@)),
        has_path(text::texts(final(list)@), file@),
        forall|other: Seq<char>|
            has_path(text::texts(old(list)@), other) ==> #[trigger] has_path(
                text::texts(final(list)@),
                other,
            ),
        forall|k: int|
            0 <= k < final(list)@.len() ==> (#[trigger] text::texts(final(list)@)[k] == file@
                || text::texts(old(list)@).contains(text::texts(final(list)@)[k])),
{
    let ghost all = text::texts(list@);
    let mut i: usize = 0;
    while i < list.len() && order::path_comes_before(list[i].as_str(), file.as_str())
        invariant
            i <= list@.len(),
            all == text::texts(list@),
            forall|k: int| 0 <= k < i ==> order::path_before(#[trigger] all[k], file@),
        decreases list@.len() - i,
    {
        assert(all[i as int] == list@[i as int]@);
        i += 1;
    }
    proof {
        if i < list@.len() {
            assert(all[i as int] == list@[i as int]@);
            order::path_order_laws(all[i as int], file@, file@);
        }
    }
    if i < list.len() && !order::path_comes_before(file.as_str(), list[i].as_str()) {
        assert(path::same(all[i as int], file@));
        assert forall|k: int| 0 <= k < all.len() implies #[trigger] all.contains(all[k]) by {}
        return;
    }
    let ghost whole = all.insert(i as int, file@);
    proof {
        assert forall|p: int, q: int| 0 <= p < q < whole.len() implies order::path_before(
            #[trigger] whole[p],
            #[trigger] whole[q],
        ) by {
            if q < i {
                assert(whole[p] == all[p] && whole[q] == all[q]);
            } else if q == i {
                assert(whole[p] == all[p]);
            } else {
                assert(whole[q] == all[q - 1]);
                if p == i {
                    if q - 1 > i {
                        order::path_order_laws(file@, all[i as int], all[q - 1]);
                    }
                } else if p < i {
                    assert(whole[p] == all[p]);
                } else {
                    assert(whole[p] == all[p - 1]);
                }
            }
        }
        assert forall|other: Seq<char>| has_path(all, other) implies #[trigger] has_path(whole, other) by {
            let k = choose|k: int| 0 <= k < all.len() && path::same(#[trigger] all[k], other);
            if k < i {
                assert(whole[k] == all[k]);
            } else {
                assert(whole[k + 1] == all[k]);
            }
        }
        assert(path::same(whole[i as int], file@));
        assert forall|k: int| 0 <= k < whole.len() implies (#[trigger] whole[k] == file@
            || all.contains(whole[k])) by {
            if k < i {
                assert(whole[k] == all[k]);
            } else if k > i {
                assert(whole[k] == all[k - 1]);
            }
        }
    }
    list.insert(i, file);
    assert(text::texts(list@) =~= whole);
}

/// The files that go when a chat is forgotten: the tracked files and their unfinished downloads,
/// each once.
pub fn tracked_files(records: &[StoredMediaRecord], temp_extension: &str) -> (files: Vec<String>)
    ensures
        in_path_order(text::texts(files@)),
        forall|file: Seq<char>| #[trigger]
            is_tracked(records@, temp_extension@, file) ==> has_path(text::texts(files@), file),
        forall|k: int|
            0 <= k < files@.len() ==> #[trigger] is_tracked(
                records@,
                temp_extension@,
                text::texts(files@)[k],
            ),
{
    let mut files: Vec<String> = Vec::new();
    let mut i: usize = 0;
    while i < records.len()
        invariant
            i <= records@.len(),
            in_path_order(text::texts(files@)),
            forall|file: Seq<char>| #[trigger]
                is_tracked(records@.take(i as int), temp_extension@, file) ==> has_path(
                    text::texts(files@),
                    file,
                ),
            forall|k: int|
                0 <= k < files@.len() ==> #[trigger] is_tracked(
                    records@,
                    temp_extension@,
                    text::texts(files@)[k],
                ),
        decreases records@.len() - i,
    {
        let ghost start = text::texts(files@);
        let local = records[i].local_path.clone();
        let partial = fsutil::temp_sidecar_path(local.as_str(), temp_extension);
        let ghost first = local@;
        let ghost second = partial@;
        place(&mut files, local);
        let ghost middle = text::texts(files@);
        place(&mut files, partial);
        proof {
            let end = text::texts(files@);
            assert forall|file: Seq<char>| #[trigger]
                is_tracked(records@.take(i + 1), temp_extension@, file) implies has_path(end, file) by {
                let k = choose|k: int|
                    0 <= k < i + 1 && (file == (#[trigger] records@.take(i + 1)[k]).local_path@ || file
                        == fsutil::sidecar(records@.take(i + 1)[k].local_path@, temp_extension@));
                if k < i {
                    assert(records@.take(i as int)[k] == records@.take(i + 1)[k]);
                    assert(is_tracked(records@.take(i as int), temp_extension@, file));
                    assert(has_path(middle, file));
                } else {
                    assert(file == first || file == second);
                    assert(has_path(middle, first));
                }
            }
            assert(records@[i as int].local_path@ == first);
            assert(is_tracked(records@, temp_extension@, first));
            assert(is_tracked(records@, temp_extension@, second));
            assert forall|k: int| 0 <= k < end.len() implies #[trigger] is_tracked(
                records@,
                temp_extension@,
                end[k],
            ) by {
                if end[k] != second {
                    assert(middle.contains(end[k]));
                    let m = choose|m: int| 0 <= m < middle.len() && middle[m] == end[k];
                    if middle[m] != first {
                        assert(start.contains(middle[m]));
                        let n = choose|n: int| 0 <= n < start.len() && start[n] == middle[m];
                        assert(is_tracked(records@, temp_extension@, start[n]));
                    }
                }
            }
        }
        i += 1;
    }
    assert(records@.take(i as int) =~= records@);
    files
}

/// A chat as it is named in questions and answers about it.
pub open spec fn named_text(kind: ChatKind, id: int, title: Seq<char>) -> Seq<char> {
    "`"@ + title_text(kind, id, title) + "` ("@ + number::int_text(id) + ")"@
}

fn render_named<H>(chat: &ChatSummary<H>) -> (out: String)
    ensures
        out@ == named_text(chat.kind, chat.id as int, chat.title@),
{
    let title = display_title(chat.kind, chat.id, chat.title.as_str());
    let digits = number::signed_decimal(chat.id);
    let mut out = text::concat("`", title.as_str());
    out.append("` (");
    out.append(digits.as_str());
    out.append(")");
    out
}

/// What is said before a chat is forgotten.
pub open spec fn reset_question_lines<H>(
    chat: ChatSummary<H>,
    has_checkpoint: bool,
    records: nat,
    keep_files: bool,
) -> Seq<Seq<char>> {
    seq![
        "Reset chat "@ + named_text(chat.kind, chat.id as int, chat.title@) + "?"@,
        "- checkpoint present: "@ + progress::yes_no_text(has_checkpoint),
        "- tracked media rows: "@ + number::nat_text(records),
        "- tracked files will be deleted: "@ + progress::yes_no_text(!keep_files),
    ]
}

/// What is said before a chat is forgotten.
pub fn reset_question<H>(
    chat: &ChatSummary<H>,
    has_checkpoint: bool,
    records: usize,
    keep_files: bool,
) -> (lines: Vec<String>)
    ensures
        text::texts(lines@) == reset_question_lines(
            *chat,
            has_checkpoint,
            records as nat,
            keep_files,
        ),
{
    let named = render_named(chat);
    let mut question = text::concat("Reset chat ", named.as_str());
    question.append("?");
    let mut lines: Vec<String> = Vec::new();
    report::push_line(&mut lines, question.as_str());
    report::push_text(&mut lines, "- checkpoint present: ", progress::yes_no(has_checkpoint));
    report::push_count(&mut lines, "- tracked media rows: ", records as u128);
    report::push_text(
        &mut lines,
        "- tracked files will be deleted: ",
        progress::yes_no(!keep_files),
    );
    assert(text::texts(lines@) =~= reset_question_lines(
        *chat,
        has_checkpoint,
        records as nat,
        keep_files,
    ));
    lines
}

/// What is said once a chat was forgotten.
pub open spec fn reset_summary_lines<H>(
    chat: ChatSummary<H>,
    had_checkpoint: bool,
    records: nat,
    removed_files: nat,
) -> Seq<Seq<char>> {
    seq![
        "Reset chat "@ + named_text(chat.kind, chat.id as int, chat.title@),
        "Removed media rows : "@ + number::nat_text(records),
        "Removed checkpoint : "@ + progress::yes_no_text(had_checkpoint),
        "Removed files      : "@ + number::nat_text(removed_files),
        "Next export for this chat will start from scratch."@,
    ]
}

/// What is said once a chat was forgotten.
pub fn reset_summary<H>(
    chat: &ChatSummary<H>,
    had_checkpoint: bool,
    records: usize,
    removed_files: usize,
) -> (lines: Vec<String>)
    ensures
        text::texts(lines@) == reset_summary_lines(
            *chat,
            had_checkpoint,
            records as nat,
            removed_files as nat,
        ),
{
    let named = render_named(chat);
    let mut lines: Vec<String> = Vec::new();
    report::push_text(&mut lines, "Reset chat ", named.as_str());
    report::push_count(&mut lines, "Removed media rows : ", records as u128);
    report::push_text(&mut lines, "Removed checkpoint : ", progress::yes_no(had_checkpoint));
    report::push_count(&mut lines, "Removed files      : ", removed_files as u128);
    report::push_line(&mut lines, "Next export for this chat will start from scratch.");
    assert(text::texts(lines@) =~= reset_summary_lines(
        *chat,
        had_checkpoint,
        records as nat,
        removed_files as nat,
    ));
    lines
}

/// When a chat is forgotten, each of its files goes, and so does what was downloaded of it so far; a file
/// that is neither stays.
pub proof fn forgotten_chats_leave_no_files(
    records: Seq<StoredMediaRecord>,
    temp_extension: Seq<char>,
    at: int,
    file: Seq<char>,
)
    requires
        0 <= at < records.len(),
    ensures
        is_tracked(records, temp_extension, records[at].local_path@),
        is_tracked(records, temp_extension, fsutil::sidecar(records[at].local_path@, temp_extension)),
        (forall|i: int|
            0 <= i < records.len() ==> file != (#[trigger] records[i]).local_path@ && file
                != fsutil::sidecar(records[i].local_path@, temp_extension)) ==> !is_tracked(
            records,
            temp_extension,
            file,
        ),
{
    assert(records[at].local_path@ == records[at].local_path@);
}

} // verus!
