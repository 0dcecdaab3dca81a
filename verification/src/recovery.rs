//! Left-over temporary files: which ones are stale, and what became of them.

use std::collections::VecDeque;

use vstd::prelude::*;

use crate::fsutil;
use crate::order;
use crate::path;
use crate::report;
use crate::text;

verus! {

/// A temporary file that was left behind.
#[derive(Debug)]
pub struct StaleTempFile {
    pub path: String,
    pub age_ms: u64,
}

/// What a search for stale files found, and how many were removed.
#[derive(Debug)]
pub struct RecoverySummary {
    pub root: String,
    pub stale_files: Vec<StaleTempFile>,
    pub scanned_files: usize,
    pub removed: usize,
    pub unreadable_entries: usize,
}

/// What a search for stale files found.
#[derive(Debug)]
pub struct RecoveryScan {
    pub stale_files: Vec<StaleTempFile>,
    pub scanned_files: usize,
    pub unreadable_entries: usize,
}

/// What an entry of a folder is.
#[derive(Debug, Clone, Copy, PartialEq, Eq, Structural)]
pub enum EntryFacts {
    Folder,
    File { age_ms: u64 },
    /// A file whose name is no text.
    Unnamed,
    Unreadable,
}

/// Whether a file is a stale temporary file: its name ends with the extension of temporary files, and
/// it is at least as old as it has to be.
pub open spec fn is_stale(path: Seq<char>, age_ms: u64, temp_extension: Seq<char>, min_age_ms: u64) -> bool {
    match path::file_name(path) {
        Some(name) => text::ends_with(name, temp_extension) && age_ms >= min_age_ms,
        None => false,
    }
}

/// The order of stale files: by path.
pub open spec fn stale_order() -> spec_fn(StaleTempFile, StaleTempFile) -> bool {
    |a: StaleTempFile, b: StaleTempFile| order::path_before(a.path@, b.path@)
}

/// The state of a search.
#[verifier::ext_equal]
pub struct ScanState {
    pub temp_extension: Seq<char>,
    pub min_age_ms: u64,
    pub pending: Seq<Seq<char>>,
    pub stale: Seq<(Seq<char>, u64)>,
    pub scanned_files: usize,
    pub unreadable_entries: usize,
}

/// The content of a list of stale files.
pub open spec fn stale_pairs(list: Seq<StaleTempFile>) -> Seq<(Seq<char>, u64)> {
    list.map_values(|file: StaleTempFile| (file.path@, file.age_ms))
}

impl ScanState {
    /// The state when something could not be read.
    pub open spec fn with_unreadable(self) -> ScanState {
        ScanState {
            unreadable_entries: report::capped(self.unreadable_entries + 1) as usize,
            ..self
        }
    }

    /// The state when an entry of a folder was met: folders are searched later, files are counted and
    /// kept where they are stale, which a file without a readable name never is.
    pub open spec fn with_entry(self, path: Seq<char>, facts: EntryFacts) -> ScanState {
        match facts {
            EntryFacts::Folder => ScanState { pending: self.pending.push(path), ..self },
            EntryFacts::Unreadable => self.with_unreadable(),
            EntryFacts::Unnamed => ScanState {
                scanned_files: report::capped(self.scanned_files + 1) as usize,
                ..self
            },
            EntryFacts::File { age_ms } => ScanState {
                scanned_files: report::capped(self.scanned_files + 1) as usize,
                stale: if is_stale(path, age_ms, self.temp_extension, self.min_age_ms) {
                    self.stale.push((path, age_ms))
                } else {
                    self.stale
                },
                ..self
            },
        }
    }
}

/// A search for stale files, folder by folder.
pub struct StaleScan {
    temp_extension: String,
    min_age_ms: u64,
    pending: VecDeque<String>,
    stale: Vec<StaleTempFile>,
    scanned_files: usize,
    unreadable_entries: usize,
}

impl View for StaleScan {
    type V = ScanState;

    closed spec fn view(&self) -> ScanState {
        ScanState {
            temp_extension: self.temp_extension@,
            min_age_ms: self.min_age_ms,
            pending: text::texts(self.pending@),
            stale: stale_pairs(self.stale@),
            scanned_files: self.scanned_files,
            unreadable_entries: self.unreadable_entries,
        }
    }
}

impl StaleScan {
    /// The files found so far, in the order in which they were met.
    pub closed spec fn found(&self) -> Seq<StaleTempFile> {
        self.stale@
    }

    /// A search below `root`; a root that does not exist is searched without finding anything.
    pub fn new(root: &str, exists: bool, temp_extension: &str, min_age_ms: u64) -> (scan: StaleScan)
        ensures
            scan@ == (ScanState {
                temp_extension: temp_extension@,
                min_age_ms,
                pending: if exists {
                    seq![root@]
                } else {
                    Seq::<Seq<char>>::empty()
                },
                stale: Seq::<(Seq<char>, u64)>::empty(),
                scanned_files: 0,
                unreadable_entries: 0,
            }),
    {
        let mut pending: VecDeque<String> = VecDeque::new();
        if exists {
            pending.push_back(root.to_string());
            assert(text::texts(pending@) =~= seq![root@]);
        } else {
            assert(text::texts(pending@) =~= Seq::<Seq<char>>::empty());
        }
        let scan = StaleScan {
            temp_extension: temp_extension.to_string(),
            min_age_ms,
            pending,
            stale: Vec::new(),
            scanned_files: 0,
            unreadable_entries: 0,
        };
        assert(scan@.stale =~= Seq::<(Seq<char>, u64)>::empty());
        scan
    }

    /// The folder to be read next.
    pub fn next_folder(&mut self) -> (folder: Option<String>)
        ensures
            match folder {
                Some(path) => {
                    &&& old(self)@.pending.len() > 0
                    &&& path@ == old(self)@.pending[0]
                    &&& final(self)@ == (ScanState {
                        pending: old(self)@.pending.drop_first(),
                        ..old(self)@
                    })
                },
                None => old(self)@.pending.len() == 0 && final(self)@ == old(self)@,
            },
    {
        let ghost before = self.pending@;
        let folder = self.pending.pop_front();
        if folder.is_some() {
            assert(text::texts(self.pending@) =~= text::texts(before).drop_first());
        }
        folder
    }

    /// Takes in that a folder could not be read.
    pub fn on_unreadable(&mut self)
        ensures
            final(self)@ == old(self)@.with_unreadable(),
    {
        self.unreadable_entries = self.unreadable_entries.saturating_add(1);
    }

    /// Takes in an entry of a folder.
    pub fn on_entry(&mut self, path: &str, facts: EntryFacts)
        ensures
            final(self)@ == old(self)@.with_entry(path@, facts),
    {
        match facts {
            EntryFacts::Folder => {
                let ghost before = self.pending@;
                self.pending.push_back(path.to_string());
                assert(text::texts(self.pending@) =~= text::texts(before).push(path@));
            },
            EntryFacts::Unreadable => self.on_unreadable(),
            EntryFacts::Unnamed => {
                self.scanned_files = self.scanned_files.saturating_add(1);
            },
            EntryFacts::File { age_ms } => {
                self.scanned_files = self.scanned_files.saturating_add(1);
                let name = match path::name_of(path) {
                    Some(name) => name,
                    None => {
                        return;
                    },
                };
                if text::has_suffix(name.as_str(), self.temp_extension.as_str()) && age_ms
                    >= self.min_age_ms {
                    let ghost before = self.stale@;
                    self.stale.push(StaleTempFile { path: path.to_string(), age_ms });
                    assert(stale_pairs(self.stale@) =~= stale_pairs(before).push((path@, age_ms)));
                }
            },
        }
    }

    /// What was found, ordered by path.
    pub fn finish(self) -> (scan: RecoveryScan)
        ensures
            scan.stale_files@ == order::ordered(self.found(), stale_order()),
            scan.scanned_files == self@.scanned_files,
            scan.unreadable_entries == self@.unreadable_entries,
            stale_pairs(self.found()) == self@.stale,
            order::in_order(scan.stale_files@, stale_order()),
    {
        let ghost before = stale_order();
        proof {
            assert forall|a: StaleTempFile, b: StaleTempFile| #[trigger] before(a, b) implies !before(
                b,
                a,
            ) by {
                order::path_order_laws(a.path@, b.path@, a.path@);
            }
            assert forall|a: StaleTempFile, b: StaleTempFile, c: StaleTempFile| #[trigger]
                before(a, b) && #[trigger] before(b, c) implies before(a, c) by {
                order::path_order_laws(a.path@, b.path@, c.path@);
            }
        }
        let comes_first = |a: &StaleTempFile, b: &StaleTempFile| -> (yes: bool)
            ensures
                yes == before(*a, *b),
            { order::path_comes_before(a.path.as_str(), b.path.as_str()) };
        let sorted = order::sort_by(self.stale, comes_first, Ghost(before));
        RecoveryScan {
            stale_files: sorted,
            scanned_files: self.scanned_files,
            unreadable_entries: self.unreadable_entries,
        }
    }
}

/// What became of the attempt to remove a stale file.
#[derive(Debug)]
pub enum RemovalResult {
    Removed,
    AlreadyGone,
    Failed(String),
}

/// How many files were removed. A file that is gone already does not count, and the first failure is
/// the outcome of the whole.
pub fn count_removed(removed: usize, result: RemovalResult) -> (outcome: crate::error::Result<usize>)
    ensures
        match result {
            RemovalResult::Removed => outcome == Ok::<usize, crate::error::AppError>(
                report::capped(removed + 1) as usize,
            ),
            RemovalResult::AlreadyGone => outcome == Ok::<usize, crate::error::AppError>(removed),
            RemovalResult::Failed(message) => outcome matches Err(error) && error is Filesystem
                && error.detail() == message@,
        },
{
    match result {
        RemovalResult::Removed => Ok(removed.saturating_add(1)),
        RemovalResult::AlreadyGone => Ok(removed),
        RemovalResult::Failed(message) => Err(crate::error::AppError::Filesystem(message)),
    }
}

impl RecoveryScan {
    /// The summary of a search below `root`.
    pub fn summarize(self, root: &str, removed: usize) -> (summary: RecoverySummary)
        ensures
            summary.root@ == root@,
            summary.stale_files == self.stale_files,
            summary.scanned_files == self.scanned_files,
            summary.removed == removed,
            summary.unreadable_entries == self.unreadable_entries,
    {
        RecoverySummary {
            root: root.to_string(),
            stale_files: self.stale_files,
            scanned_files: self.scanned_files,
            removed,
            unreadable_entries: self.unreadable_entries,
        }
    }
}

/// What an export leaves behind of an unfinished download is found once it is old enough.
pub proof fn unfinished_downloads_are_found(
    final_path: Seq<char>,
    temp_extension: Seq<char>,
    age_ms: u64,
    min_age_ms: u64,
)
    requires
        !temp_extension.contains('/'),
    ensures
        is_stale(fsutil::sidecar(final_path, temp_extension), age_ms, temp_extension, min_age_ms)
            <==> age_ms >= min_age_ms,
{
    fsutil::unfinished_files_are_marked(final_path, temp_extension);
}

/// A file is stale exactly if its name ends with the extension of temporary files and it is as old as
/// it has to be: an older file is stale where a younger one is.
pub proof fn only_old_unfinished_files_are_stale(
    path: Seq<char>,
    age_ms: u64,
    older_ms: u64,
    temp_extension: Seq<char>,
    min_age_ms: u64,
)
    requires
        age_ms <= older_ms,
    ensures
        age_ms < min_age_ms ==> !is_stale(path, age_ms, temp_extension, min_age_ms),
        is_stale(path, age_ms, temp_extension, min_age_ms) ==> is_stale(
            path,
            older_ms,
            temp_extension,
            min_age_ms,
        ),
        is_stale(path, min_age_ms, temp_extension, min_age_ms) <==> path::file_name(path) is Some
            && path::file_name(path)->0.len() >= temp_extension.len() && path::file_name(path)->0.skip(
            path::file_name(path)->0.len() - temp_extension.len(),
        ) == temp_extension,
{
}

/// An entry of a folder that a search meets.
pub struct MetEntry {
    pub path: Seq<char>,
    pub facts: EntryFacts,
}

/// A search that has met some entries.
pub open spec fn searched(s: ScanState, entries: Seq<MetEntry>) -> ScanState
    decreases entries.len(),
{
    if entries.len() == 0 {
        s
    } else {
        searched(s, entries.drop_last()).with_entry(entries.last().path, entries.last().facts)
    }
}

/// A search finds every stale file that it meets and no other file, searches every folder that it
/// meets, and forgets nothing.
pub proof fn searches_find_every_stale_file(
    s: ScanState,
    entries: Seq<MetEntry>,
    path: Seq<char>,
    age_ms: u64,
)
    ensures
        ({
            let end = searched(s, entries);
            &&& end.temp_extension == s.temp_extension
            &&& end.min_age_ms == s.min_age_ms
            &&& end.stale.contains((path, age_ms)) <==> s.stale.contains((path, age_ms)) || (is_stale(
                path,
                age_ms,
                s.temp_extension,
                s.min_age_ms,
            ) && entries.contains(MetEntry { path, facts: EntryFacts::File { age_ms } }))
            &&& end.pending.contains(path) <==> s.pending.contains(path) || entries.contains(
                MetEntry { path, facts: EntryFacts::Folder },
            )
        }),
    decreases entries.len(),
{
    if entries.len() > 0 {
        let init = entries.drop_last();
        let last = entries.last();
        searches_find_every_stale_file(s, init, path, age_ms);
        let before = searched(s, init);
        let end = searched(s, entries);
        let file = MetEntry { path, facts: EntryFacts::File { age_ms } };
        let folder = MetEntry { path, facts: EntryFacts::Folder };
        assert(entries =~= init.push(last));
        assert forall|x: MetEntry| #[trigger] entries.contains(x) <==> init.contains(x) || last == x by {
            if init.contains(x) {
                let i = choose|i: int| 0 <= i < init.len() && init[i] == x;
                assert(entries[i] == x);
            }
            if entries.contains(x) {
                let i = choose|i: int| 0 <= i < entries.len() && entries[i] == x;
                if i < init.len() {
                    assert(init[i] == x);
                }
            }
            assert(entries[init.len() as int] == last);
        }
        let pair = (path, age_ms);
        if end.stale != before.stale {
            let added = end.stale.last();
            assert(end.stale == before.stale.push(added));
            assert(end.stale.contains(pair) <==> before.stale.contains(pair) || added == pair) by {
                if before.stale.contains(pair) {
                    let i = choose|i: int| 0 <= i < before.stale.len() && before.stale[i] == pair;
                    assert(end.stale[i] == pair);
                }
                if end.stale.contains(pair) {
                    let i = choose|i: int| 0 <= i < end.stale.len() && end.stale[i] == pair;
                    if i < before.stale.len() {
                        assert(before.stale[i] == pair);
                    }
                }
                assert(end.stale[before.stale.len() as int] == added);
            }
        }
        if end.pending != before.pending {
            assert(end.pending == before.pending.push(last.path));
            assert(end.pending.contains(path) <==> before.pending.contains(path) || last.path == path) by {
                if before.pending.contains(path) {
                    let i = choose|i: int| 0 <= i < before.pending.len() && before.pending[i] == path;
                    assert(end.pending[i] == path);
                }
                if end.pending.contains(path) {
                    let i = choose|i: int| 0 <= i < end.pending.len() && end.pending[i] == path;
                    if i < before.pending.len() {
                        assert(before.pending[i] == path);
                    }
                }
                assert(end.pending[before.pending.len() as int] == last.path);
            }
        }
        assert(file.facts is File && folder.facts is Folder);
    }
}

} // verus!
