//! Where files go: folder names, output folders, sidecar files and path normalisation.

use vstd::prelude::*;

use crate::date::Timestamp;
use crate::number;
use crate::path;
use crate::text;
use crate::types::MediaKind;

verus! {

/// The folder name of a chat: its title in lower case, letters and digits of all scripts kept and
/// `_` between them; `chat` where nothing is left.
pub open spec fn chat_slug(title: Seq<char>) -> Seq<char> {
    let slug = text::stripped(text::squeezed(title, text::Alphabet::Unicode), '_');
    if slug.len() == 0 {
        "chat"@
    } else {
        slug
    }
}

/// The year of a folder: at least four characters, a sign included.
pub open spec fn year_folder(year: int) -> Seq<char> {
    if year < 0 {
        seq!['-'] + number::padded_text((-year) as nat, 3)
    } else {
        number::padded_text(year as nat, 4)
    }
}

/// The folder of a file: chat, kind, year and month of the message below the output folder.
pub open spec fn media_directory(
    output_root: Seq<char>,
    slug: Seq<char>,
    kind: MediaKind,
    date: Timestamp,
) -> Seq<char> {
    path::below(
        path::below(
            path::below(path::below(output_root, slug), kind.folder()),
            year_folder(date.civil_date().year as int),
        ),
        number::padded_text(date.civil_date().month as nat, 2),
    )
}

/// The path of the file that a download is written to before it is complete.
pub open spec fn sidecar(final_path: Seq<char>, temp_extension: Seq<char>) -> Seq<char> {
    let name = match path::file_name(final_path) {
        Some(name) => name,
        None => "download"@,
    };
    path::renamed(final_path, name + temp_extension)
}

/// The folder name of a chat.
pub fn slugify_chat_title(value: &str) -> (slug: String)
    ensures
        slug@ == chat_slug(value@),
{
    let squeezed = text::squeeze(value, text::Alphabet::Unicode);
    let slug = text::strip_edges(&squeezed, '_');
    if slug.len() == 0 {
        "chat".to_string()
    } else {
        text::text_of(&slug)
    }
}

fn render_year_folder(year: i32) -> (out: String)
    ensures
        out@ == year_folder(year as int),
{
    if year < 0 {
        let digits = number::padded((-(year as i128)) as u128, 3);
        let mut out = String::new();
        out.push('-');
        out.append(digits.as_str());
        assert(out@ =~= year_folder(year as int));
        out
    } else {
        number::padded(year as u128, 4)
    }
}

/// The folder of a file.
pub fn build_media_directory(
    output_root: &str,
    chat_slug: &str,
    kind: MediaKind,
    message_date: Timestamp,
) -> (out: String)
    ensures
        out@ == media_directory(output_root@, chat_slug@, kind, message_date),
{
    let date = message_date.date();
    let year = render_year_folder(date.year);
    let month = number::padded(date.month as u128, 2);
    let chat = path::join(output_root, chat_slug);
    let bucket = path::join(chat.as_str(), kind.bucket_dir());
    let annual = path::join(bucket.as_str(), year.as_str());
    path::join(annual.as_str(), month.as_str())
}

/// The path of the file that a download is written to before it is complete.
pub fn temp_sidecar_path(final_path: &str, temp_extension: &str) -> (out: String)
    ensures
        out@ == sidecar(final_path@, temp_extension@),
{
    let name = match path::name_of(final_path) {
        Some(name) => name,
        None => "download".to_string(),
    };
    let temp = text::concat(name.as_str(), temp_extension);
    path::with_name(final_path, temp.as_str())
}

/// The path under which a location is compared and stored: its canonical form where it exists,
/// else its absolute form with `.` and `..` resolved by the text alone.
pub fn normalize_path(absolute: &str, canonical: Option<String>) -> (out: String)
    ensures
        match canonical {
            Some(existing) => out@ == existing@,
            None => out@ == path::lexical(absolute@),
        },
{
    match canonical {
        Some(existing) => existing,
        None => path::normalize_lexically(absolute),
    }
}

/// Whether a failed rename has to be done as copy and delete: the two paths are on different
/// devices. Code 18 is what Unix systems report for that.
pub fn is_cross_device(crosses_devices: bool, os_code: Option<i32>) -> (yes: bool)
    ensures
        yes == (crosses_devices || os_code == Some(18i32)),
{
    match os_code {
        Some(code) => crosses_devices || code == 18,
        None => crosses_devices,
    }
}

/// The files of an SQLite database: the database, its write-ahead log and its shared memory.
pub fn sqlite_files(path: &str) -> (files: Vec<String>)
    ensures
        files@.len() == 3,
        files@[0]@ == path@,
        files@[1]@ == path@ + "-wal"@,
        files@[2]@ == path@ + "-shm"@,
{
    let mut files: Vec<String> = Vec::new();
    files.push(path.to_string());
    files.push(text::concat(path, "-wal"));
    files.push(text::concat(path, "-shm"));
    files
}

/// The file that a download is written to first carries the suffix of unfinished files, and is
/// never the file itself.
pub proof fn unfinished_files_are_marked(final_path: Seq<char>, temp_extension: Seq<char>)
    requires
        !temp_extension.contains('/'),
    ensures
        path::file_name(sidecar(final_path, temp_extension)) is Some,
        text::ends_with(
            path::file_name(sidecar(final_path, temp_extension))->0,
            temp_extension,
        ),
        temp_extension.len() > 0 ==> sidecar(final_path, temp_extension) != final_path,
{
    reveal_strlit("download");
    path::file_names_are_names(final_path);
    let name = match path::file_name(final_path) {
        Some(name) => name,
        None => "download"@,
    };
    assert(!name.contains('/'));
    let whole = name + temp_extension;
    assert(path::is_name(whole)) by {
        assert(name.len() > 0);
        if whole.contains('/') {
            let k = choose|k: int| 0 <= k < whole.len() && whole[k] == '/';
            if k < name.len() {
                assert(name[k] == '/');
            } else {
                assert(temp_extension[k - name.len()] == '/');
            }
        }
        if whole == seq!['.'] {
            assert(name =~= seq!['.']);
        }
        if whole == seq!['.', '.'] {
            if name.len() == 1 {
                assert(name[0] == whole[0]);
                assert(name =~= seq!['.']);
            } else {
                assert(name =~= seq!['.', '.']);
            }
        }
    }
    let base = if path::file_name(final_path) is Some {
        path::parent(final_path)
    } else {
        final_path
    };
    path::names_stand_below(base, whole);
    assert(whole.skip(whole.len() - temp_extension.len()) =~= temp_extension);
}

/// The folder of a chat always has a name, and it begins and ends with something else than `_`.
pub proof fn chat_folders_have_names(title: Seq<char>)
    ensures
        chat_slug(title).len() > 0,
        chat_slug(title)[0] != '_',
        chat_slug(title).last() != '_',
{
    reveal_strlit("chat");
    text::stripped_has_bare_edges(text::squeezed(title, text::Alphabet::Unicode), '_');
}

/// Files lie under the output folder by chat, kind, year and month, in this order. The year has four
/// digits and the month two.
pub proof fn files_are_sorted_by_month(output_root: Seq<char>, slug: Seq<char>, kind: MediaKind, date: Timestamp)
    requires
        output_root.len() > 0,
        output_root.last() != '/',
        slug.len() > 0,
        slug[0] != '/',
        slug.last() != '/',
        date.civil_date().valid(),
        0 <= date.civil_date().year <= 9999,
    ensures
        ({
            let year = number::padded_text(date.civil_date().year as nat, 4);
            let month = number::padded_text(date.civil_date().month as nat, 2);
            media_directory(output_root, slug, kind, date) == output_root + seq!['/'] + slug + seq!['/']
                + kind.folder() + seq!['/'] + year + seq!['/'] + month
        }),
{
    reveal_strlit("photos");
    reveal_strlit("videos");
    reveal_strlit("animations");
    reveal_strlit("audio");
    reveal_strlit("files");
    let year = number::padded_text(date.civil_date().year as nat, 4);
    let month = number::padded_text(date.civil_date().month as nat, 2);
    digits_make_no_separator(date.civil_date().year as nat, 4);
    digits_make_no_separator(date.civil_date().month as nat, 2);
    let chat = path::below(output_root, slug);
    assert(chat =~= output_root + seq!['/'] + slug);
    let folder = path::below(chat, kind.folder());
    assert(kind.folder().len() > 0 && kind.folder()[0] != '/' && kind.folder().last() != '/');
    assert(chat.last() == slug.last());
    assert(folder =~= chat + seq!['/'] + kind.folder());
    assert(folder.last() == kind.folder().last());
    let years = path::below(folder, year);
    assert(years =~= folder + seq!['/'] + year);
    assert(years.last() == year.last());
    assert(path::below(years, month) =~= years + seq!['/'] + month);
}

proof fn digits_make_no_separator(n: nat, width: nat)
    ensures
        ({
            let padded = number::padded_text(n, width);
            padded.len() > 0 && padded[0] != '/' && padded.last() != '/'
        }),
{
    number::decimal_reads_back(n);
    let plain = number::nat_text(n);
    assert(text::is_ascii_digit(plain[0]) && text::is_ascii_digit(plain[plain.len() - 1]));
    let padded = number::padded_text(n, width);
    if plain.len() < width {
        assert(padded[0] == '0');
        assert(padded.last() == plain.last());
    }
}

} // verus!
