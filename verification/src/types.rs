//! The vocabulary of an export: media kinds, chats, messages, options and checkpoints.

use vstd::prelude::*;

use crate::date::{Date, Timestamp};
use crate::text;

verus! {

/// The kinds of media that can be saved, in the order in which they are listed.
#[derive(Debug, Clone, Copy, PartialEq, Eq, Structural, PartialOrd, Ord, Hash)]
pub enum MediaKind {
    Photo,
    ImageDocument,
    Video,
    Animation,
    Audio,
    Voice,
    Document,
}

/// The kind that a lower-case name stands for.
pub open spec fn kind_named(name: Seq<char>) -> Option<MediaKind> {
    if name == "photo"@ {
        Some(MediaKind::Photo)
    } else if name == "image_doc"@ || name == "image-document"@ || name == "image_document"@ {
        Some(MediaKind::ImageDocument)
    } else if name == "video"@ {
        Some(MediaKind::Video)
    } else if name == "animation"@ || name == "gif"@ {
        Some(MediaKind::Animation)
    } else if name == "audio"@ {
        Some(MediaKind::Audio)
    } else if name == "voice"@ || name == "voice_note"@ {
        Some(MediaKind::Voice)
    } else if name == "document"@ || name == "file"@ {
        Some(MediaKind::Document)
    } else {
        None
    }
}

/// The kind that an entry of a media filter stands for: names are trimmed and ASCII case is
/// ignored.
pub open spec fn kind_of_entry(entry: Seq<char>) -> Option<MediaKind> {
    kind_named(text::lowered(text::trimmed(entry)))
}

impl MediaKind {
    pub const ALL: [MediaKind; 7] = [
        MediaKind::Photo,
        MediaKind::ImageDocument,
        MediaKind::Video,
        MediaKind::Animation,
        MediaKind::Audio,
        MediaKind::Voice,
        MediaKind::Document,
    ];

    /// The name under which the kind is stored and listed.
    pub open spec fn name(self) -> Seq<char> {
        match self {
            MediaKind::Photo => "photo"@,
            MediaKind::ImageDocument => "image_doc"@,
            MediaKind::Video => "video"@,
            MediaKind::Animation => "animation"@,
            MediaKind::Audio => "audio"@,
            MediaKind::Voice => "voice"@,
            MediaKind::Document => "document"@,
        }
    }

    /// The folder that holds files of this kind.
    pub open spec fn folder(self) -> Seq<char> {
        match self {
            MediaKind::Photo | MediaKind::ImageDocument => "photos"@,
            MediaKind::Video => "videos"@,
            MediaKind::Animation => "animations"@,
            MediaKind::Audio | MediaKind::Voice => "audio"@,
            MediaKind::Document => "files"@,
        }
    }

    pub fn as_str(self) -> (name: &'static str)
        ensures
            name@ == self.name(),
    {
        match self {
            MediaKind::Photo => "photo",
            MediaKind::ImageDocument => "image_doc",
            MediaKind::Video => "video",
            MediaKind::Animation => "animation",
            MediaKind::Audio => "audio",
            MediaKind::Voice => "voice",
            MediaKind::Document => "document",
        }
    }

    pub fn bucket_dir(self) -> (name: &'static str)
        ensures
            name@ == self.folder(),
    {
        match self {
            MediaKind::Photo | MediaKind::ImageDocument => "photos",
            MediaKind::Video => "videos",
            MediaKind::Animation => "animations",
            MediaKind::Audio | MediaKind::Voice => "audio",
            MediaKind::Document => "files",
        }
    }

    /// Reads a kind's name; white space around it and ASCII case are ignored.
    pub fn parse(value: &str) -> (kind: Option<MediaKind>)
        ensures
            kind == kind_of_entry(value@),
    {
        let trimmed = text::trim(value);
        let name = text::lower(trimmed.as_str());
        let n = name.as_str();
        if text::same_text(n, "photo") {
            Some(MediaKind::Photo)
        } else if text::same_text(n, "image_doc") || text::same_text(n, "image-document")
            || text::same_text(n, "image_document") {
            Some(MediaKind::ImageDocument)
        } else if text::same_text(n, "video") {
            Some(MediaKind::Video)
        } else if text::same_text(n, "animation") || text::same_text(n, "gif") {
            Some(MediaKind::Animation)
        } else if text::same_text(n, "audio") {
            Some(MediaKind::Audio)
        } else if text::same_text(n, "voice") || text::same_text(n, "voice_note") {
            Some(MediaKind::Voice)
        } else if text::same_text(n, "document") || text::same_text(n, "file") {
            Some(MediaKind::Document)
        } else {
            None
        }
    }

    /// Reads a comma-separated list of kinds. Blank entries are passed over; the first entry that
    /// names no kind is an error, and so is a list without any entry.
    pub fn parse_csv(value: &str) -> (filter: Result<MediaFilter, String>)
        ensures
            match filter {
                Ok(found) => accepted_list(entries(value@), found),
                Err(message) => rejected_list(entries(value@), message@),
            },
    {
        let parts = text::split(value, ',');
        let ghost list = entries(value@);
        let mut filter = MediaFilter::none();
        let mut empty: bool = true;
        let mut i: usize = 0;
        while i < parts.len()
            invariant
                i <= parts@.len(),
                list == entries(value@),
                text::texts(parts@) == list,
                forall|j: int| 0 <= j < i ==> !unsupported(#[trigger] list[j]),
                forall|kind: MediaKind| #[trigger]
                    filter.has(kind) <==> lists_kind(list.take(i as int), kind),
                empty ==> forall|j: int| 0 <= j < i ==> blank(#[trigger] list[j]),
                !empty ==> exists|kind: MediaKind| #[trigger] filter.has(kind),
            decreases parts@.len() - i,
        {
            let ghost before = list.take(i as int);
            let ghost after = list.take(i + 1);
            let entry = text::trim(parts[i].as_str());
            assert(list[i as int] == parts@[i as int]@);
            proof {
                text::trimming_twice_is_trimming_once(list[i as int]);
                assert forall|kind: MediaKind| #[trigger] lists_kind(after, kind) <==> lists_kind(
                    before,
                    kind,
                ) || (!blank(list[i as int]) && kind_of_entry(list[i as int]) == Some(kind)) by {
                    if lists_kind(before, kind) {
                        let j = choose|j: int|
                            0 <= j < before.len() && !blank(#[trigger] before[j]) && kind_of_entry(before[j])
                                == Some(kind);
                        assert(after[j] == before[j]);
                    }
                    if lists_kind(after, kind) {
                        let j = choose|j: int|
                            0 <= j < after.len() && !blank(#[trigger] after[j]) && kind_of_entry(after[j])
                                == Some(kind);
                        if j < i {
                            assert(after[j] == before[j]);
                        }
                    }
                    assert(after[i as int] == list[i as int]);
                }
            }
            if !entry.as_str().is_empty() {
                match MediaKind::parse(entry.as_str()) {
                    Some(kind) => {
                        filter.insert(kind);
                        empty = false;
                        assert(filter.has(kind));
                    },
                    None => {
                        assert(first_unsupported(list, i as int));
                        let mut message = "unsupported media kind `".to_string();
                        message.append(entry.as_str());
                        message.append("`");
                        return Err(message);
                    },
                }
            }
            i += 1;
        }
        assert(list.take(i as int) =~= list);
        if empty {
            return Err("media filter cannot be empty".to_string());
        }
        assert(exists|kind: MediaKind| #[trigger] filter.has(kind));
        Ok(filter)
    }
}

/// Every entry is blank or names a kind, and `found` holds the kinds that they name, one at least.
pub open spec fn accepted_list(list: Seq<Seq<char>>, found: MediaFilter) -> bool {
    &&& forall|i: int| 0 <= i < list.len() ==> !unsupported(#[trigger] list[i])
    &&& forall|kind: MediaKind| #[trigger] found.has(kind) <==> lists_kind(list, kind)
    &&& exists|kind: MediaKind| #[trigger] found.has(kind)
}

/// The entry at `at` is the first that is neither blank nor a kind.
pub open spec fn first_unsupported(list: Seq<Seq<char>>, at: int) -> bool {
    &&& 0 <= at < list.len()
    &&& unsupported(list[at])
    &&& forall|j: int| 0 <= j < at ==> !unsupported(#[trigger] list[j])
}

/// `message` says what is wrong with the list: it names the first unsupported entry, or says that
/// all entries are blank.
pub open spec fn rejected_list(list: Seq<Seq<char>>, message: Seq<char>) -> bool {
    ||| exists|at: int| #[trigger]
        first_unsupported(list, at) && message == "unsupported media kind `"@ + text::trimmed(list[at])
            + "`"@
    ||| {
        &&& forall|i: int| 0 <= i < list.len() ==> blank(#[trigger] list[i])
        &&& message == "media filter cannot be empty"@
    }
}

/// What is wrong with a list of kinds, if anything.
pub open spec fn list_fault(list: Seq<Seq<char>>) -> Option<Seq<char>> {
    if exists|at: int| #[trigger] first_unsupported(list, at) {
        let at = choose|at: int| #[trigger] first_unsupported(list, at);
        Some("unsupported media kind `"@ + text::trimmed(list[at]) + "`"@)
    } else if forall|i: int| 0 <= i < list.len() ==> blank(#[trigger] list[i]) {
        Some("media filter cannot be empty"@)
    } else {
        None
    }
}

/// The kinds that the entries of a list name.
pub open spec fn list_filter(list: Seq<Seq<char>>) -> MediaFilter {
    MediaFilter {
        photo: lists_kind(list, MediaKind::Photo),
        image_document: lists_kind(list, MediaKind::ImageDocument),
        video: lists_kind(list, MediaKind::Video),
        animation: lists_kind(list, MediaKind::Animation),
        audio: lists_kind(list, MediaKind::Audio),
        voice: lists_kind(list, MediaKind::Voice),
        document: lists_kind(list, MediaKind::Document),
    }
}

/// A list of kinds is either accepted with exactly one filter or rejected with exactly one message.
pub proof fn lists_have_one_answer(list: Seq<Seq<char>>)
    ensures
        forall|found: MediaFilter| #[trigger]
            accepted_list(list, found) ==> list_fault(list) is None && found == list_filter(list),
        forall|message: Seq<char>| #[trigger]
            rejected_list(list, message) ==> list_fault(list) == Some(message),
{
    assert forall|found: MediaFilter| #[trigger] accepted_list(list, found) implies list_fault(list)
        is None && found == list_filter(list) by {
        let kind = choose|kind: MediaKind| #[trigger] found.has(kind);
        assert(lists_kind(list, kind));
        let i = choose|i: int|
            0 <= i < list.len() && !blank(#[trigger] list[i]) && kind_of_entry(list[i]) == Some(kind);
        assert(!blank(list[i]));
        assert forall|kind: MediaKind| #[trigger] found.has(kind) == list_filter(list).has(kind) by {}
        assert(found.has(MediaKind::Photo) == list_filter(list).has(MediaKind::Photo));
        assert(found.has(MediaKind::ImageDocument) == list_filter(list).has(MediaKind::ImageDocument));
        assert(found.has(MediaKind::Video) == list_filter(list).has(MediaKind::Video));
        assert(found.has(MediaKind::Animation) == list_filter(list).has(MediaKind::Animation));
        assert(found.has(MediaKind::Audio) == list_filter(list).has(MediaKind::Audio));
        assert(found.has(MediaKind::Voice) == list_filter(list).has(MediaKind::Voice));
        assert(found.has(MediaKind::Document) == list_filter(list).has(MediaKind::Document));
    }
    assert forall|message: Seq<char>| #[trigger] rejected_list(list, message) implies list_fault(list)
        == Some(message) by {
        if exists|at: int| #[trigger] first_unsupported(list, at) {
            let at = choose|at: int| #[trigger] first_unsupported(list, at);
            assert forall|other: int| #[trigger] first_unsupported(list, other) implies other == at by {
                if other < at {
                    assert(!unsupported(list[other]));
                } else if at < other {
                    assert(!unsupported(list[at]));
                }
            }
            assert(unsupported(list[at]) && !blank(list[at]));
        }
    }
}

/// The entries of a comma-separated list.
pub open spec fn entries(value: Seq<char>) -> Seq<Seq<char>> {
    text::pieces(value, ',')
}

/// Whether an entry holds nothing but white space.
pub open spec fn blank(entry: Seq<char>) -> bool {
    text::trimmed(entry).len() == 0
}

/// Whether an entry is neither blank nor the name of a kind.
pub open spec fn unsupported(entry: Seq<char>) -> bool {
    !blank(entry) && kind_of_entry(entry) is None
}

/// Whether some entry names `kind`.
pub open spec fn lists_kind(list: Seq<Seq<char>>, kind: MediaKind) -> bool {
    exists|i: int|
        0 <= i < list.len() && !blank(#[trigger] list[i]) && kind_of_entry(list[i]) == Some(kind)
}

/// A set of media kinds.
#[derive(Debug, Clone, Copy, PartialEq, Eq, Structural)]
pub struct MediaFilter {
    pub photo: bool,
    pub image_document: bool,
    pub video: bool,
    pub animation: bool,
    pub audio: bool,
    pub voice: bool,
    pub document: bool,
}

impl MediaFilter {
    /// Whether `kind` is in the set.
    pub open spec fn has(self, kind: MediaKind) -> bool {
        match kind {
            MediaKind::Photo => self.photo,
            MediaKind::ImageDocument => self.image_document,
            MediaKind::Video => self.video,
            MediaKind::Animation => self.animation,
            MediaKind::Audio => self.audio,
            MediaKind::Voice => self.voice,
            MediaKind::Document => self.document,
        }
    }

    /// The kinds of the set among the first `upto` of all kinds, in order.
    pub open spec fn listed(self, upto: nat) -> Seq<MediaKind>
        decreases upto,
    {
        if upto == 0 {
            Seq::<MediaKind>::empty()
        } else {
            let before = self.listed((upto - 1) as nat);
            let kind = kind_at(upto - 1);
            if self.has(kind) {
                before.push(kind)
            } else {
                before
            }
        }
    }

    /// The names of the kinds in the set, in the order of `MediaKind`.
    pub open spec fn names(self) -> Seq<Seq<char>> {
        self.listed(7).map_values(|kind: MediaKind| kind.name())
    }

    pub fn none() -> (filter: MediaFilter)
        ensures
            forall|kind: MediaKind| !#[trigger] filter.has(kind),
    {
        MediaFilter {
            photo: false,
            image_document: false,
            video: false,
            animation: false,
            audio: false,
            voice: false,
            document: false,
        }
    }

    pub fn all() -> (filter: MediaFilter)
        ensures
            forall|kind: MediaKind| #[trigger] filter.has(kind),
    {
        MediaFilter {
            photo: true,
            image_document: true,
            video: true,
            animation: true,
            audio: true,
            voice: true,
            document: true,
        }
    }

    pub fn contains(&self, kind: MediaKind) -> (yes: bool)
        ensures
            yes == self.has(kind),
    {
        match kind {
            MediaKind::Photo => self.photo,
            MediaKind::ImageDocument => self.image_document,
            MediaKind::Video => self.video,
            MediaKind::Animation => self.animation,
            MediaKind::Audio => self.audio,
            MediaKind::Voice => self.voice,
            MediaKind::Document => self.document,
        }
    }

    fn assign(&mut self, kind: MediaKind, value: bool)
        ensures
            forall|other: MediaKind| #[trigger]
                final(self).has(other) == if other == kind {
                    value
                } else {
                    old(self).has(other)
                },
    {
        match kind {
            MediaKind::Photo => self.photo = value,
            MediaKind::ImageDocument => self.image_document = value,
            MediaKind::Video => self.video = value,
            MediaKind::Animation => self.animation = value,
            MediaKind::Audio => self.audio = value,
            MediaKind::Voice => self.voice = value,
            MediaKind::Document => self.document = value,
        }
    }

    pub fn insert(&mut self, kind: MediaKind)
        ensures
            forall|other: MediaKind| #[trigger]
                final(self).has(other) == (other == kind || old(self).has(other)),
    {
        self.assign(kind, true);
    }

    pub fn remove(&mut self, kind: MediaKind)
        ensures
            forall|other: MediaKind| #[trigger]
                final(self).has(other) == (other != kind && old(self).has(other)),
    {
        self.assign(kind, false);
    }

    pub fn is_empty(&self) -> (yes: bool)
        ensures
            yes == (forall|kind: MediaKind| !#[trigger] self.has(kind)),
    {
        let any: bool = self.photo || self.image_document || self.video || self.animation || self.audio
            || self.voice || self.document;
        proof {
            if any {
                let all = seq![
                    MediaKind::Photo,
                    MediaKind::ImageDocument,
                    MediaKind::Video,
                    MediaKind::Animation,
                    MediaKind::Audio,
                    MediaKind::Voice,
                    MediaKind::Document,
                ];
                assert(self.has(all[0]) || self.has(all[1]) || self.has(all[2]) || self.has(all[3])
                    || self.has(all[4]) || self.has(all[5]) || self.has(all[6]));
            }
        }
        !any
    }

    /// The kinds of the set that are not in `other`.
    pub fn without(&self, other: &MediaFilter) -> (left: MediaFilter)
        ensures
            forall|kind: MediaKind| #[trigger]
                left.has(kind) == (self.has(kind) && !other.has(kind)),
    {
        MediaFilter {
            photo: self.photo && !other.photo,
            image_document: self.image_document && !other.image_document,
            video: self.video && !other.video,
            animation: self.animation && !other.animation,
            audio: self.audio && !other.audio,
            voice: self.voice && !other.voice,
            document: self.document && !other.document,
        }
    }

    /// The kinds of the set, in the order of `MediaKind`.
    pub fn kinds(&self) -> (list: Vec<MediaKind>)
        ensures
            list@ == self.listed(7),
    {
        let mut list: Vec<MediaKind> = Vec::new();
        let mut i: usize = 0;
        while i < 7
            invariant
                i <= 7,
                list@ == self.listed(i as nat),
            decreases 7 - i,
        {
            let kind = nth_kind(i);
            if self.contains(kind) {
                list.push(kind);
            }
            i += 1;
        }
        list
    }

    /// The names of the kinds of the set, in the order of `MediaKind`.
    pub fn kind_names(&self) -> (list: Vec<String>)
        ensures
            text::texts(list@) == self.names(),
    {
        let kinds = self.kinds();
        let mut list: Vec<String> = Vec::new();
        let mut i: usize = 0;
        while i < kinds.len()
            invariant
                i <= kinds@.len(),
                list@.len() == i,
                forall|j: int| 0 <= j < i ==> (#[trigger] list@[j])@ == kinds@[j].name(),
            decreases kinds@.len() - i,
        {
            list.push(kinds[i].as_str().to_string());
            i += 1;
        }
        assert(text::texts(list@) =~= self.names());
        list
    }
}

/// The kind at place `i` of the order of `MediaKind`.
pub open spec fn kind_at(i: int) -> MediaKind {
    if i == 0 {
        MediaKind::Photo
    } else if i == 1 {
        MediaKind::ImageDocument
    } else if i == 2 {
        MediaKind::Video
    } else if i == 3 {
        MediaKind::Animation
    } else if i == 4 {
        MediaKind::Audio
    } else if i == 5 {
        MediaKind::Voice
    } else {
        MediaKind::Document
    }
}

fn nth_kind(i: usize) -> (kind: MediaKind)
    ensures
        kind == kind_at(i as int),
{
    match i {
        0 => MediaKind::Photo,
        1 => MediaKind::ImageDocument,
        2 => MediaKind::Video,
        3 => MediaKind::Animation,
        4 => MediaKind::Audio,
        5 => MediaKind::Voice,
        _ => MediaKind::Document,
    }
}

/// What a chat is.
#[derive(Debug, Clone, Copy, PartialEq, Eq, Structural)]
pub enum ChatKind {
    User,
    Group,
    Supergroup,
    Channel,
}

impl ChatKind {
    pub open spec fn name(self) -> Seq<char> {
        match self {
            ChatKind::User => "user"@,
            ChatKind::Group => "group"@,
            ChatKind::Supergroup => "supergroup"@,
            ChatKind::Channel => "channel"@,
        }
    }

    pub fn as_str(self) -> (name: &'static str)
        ensures
            name@ == self.name(),
    {
        match self {
            ChatKind::User => "user",
            ChatKind::Group => "group",
            ChatKind::Supergroup => "supergroup",
            ChatKind::Channel => "channel",
        }
    }
}

/// A chat, with the handle by which its service finds it again.
#[derive(Debug, Clone)]
pub struct ChatSummary<H> {
    pub id: i64,
    pub title: String,
    pub username: Option<String>,
    pub kind: ChatKind,
    pub handle: H,
}

/// A file attached to a message.
#[derive(Debug, Clone)]
pub struct MediaDescriptor<H> {
    pub kind: MediaKind,
    pub telegram_media_key: String,
    pub mime_type: Option<String>,
    pub file_size_bytes: Option<i64>,
    pub original_name: Option<String>,
    pub handle: H,
}

/// A message of a chat's history.
#[derive(Debug, Clone)]
pub struct ScannedMessage<H> {
    pub message_id: i32,
    pub date: Timestamp,
    pub media: Vec<MediaDescriptor<H>>,
}

/// How saved files are named.
#[derive(Debug, Clone, Copy, PartialEq, Eq, Structural)]
pub enum FilenameMode {
    Stable,
    OriginalIfAvailable,
}

/// The mode that a lower-case name stands for.
pub open spec fn filename_mode_named(name: Seq<char>) -> Option<FilenameMode> {
    if name == "stable"@ {
        Some(FilenameMode::Stable)
    } else if name == "original_if_available"@ {
        Some(FilenameMode::OriginalIfAvailable)
    } else {
        None
    }
}

impl FilenameMode {
    /// Reads a mode's name; white space around it and ASCII case are ignored.
    pub fn parse(value: &str) -> (mode: Option<FilenameMode>)
        ensures
            mode == filename_mode_named(text::lowered(text::trimmed(value@))),
    {
        let trimmed = text::trim(value);
        let name = text::lower(trimmed.as_str());
        if text::same_text(name.as_str(), "stable") {
            Some(FilenameMode::Stable)
        } else if text::same_text(name.as_str(), "original_if_available") {
            Some(FilenameMode::OriginalIfAvailable)
        } else {
            None
        }
    }
}

/// What an export is asked to do.
#[derive(Debug, Clone)]
pub struct ExportOptions {
    pub chat: String,
    pub out_dir: String,
    pub resume: bool,
    pub verbose_progress: bool,
    pub media_filter: MediaFilter,
    pub since_id: Option<i32>,
    pub until_id: Option<i32>,
    pub date_from: Option<Date>,
    pub date_to: Option<Date>,
    pub limit: Option<usize>,
    pub rescan: bool,
}

/// Where the download of one file stands.
#[derive(Debug, Clone, Copy, PartialEq, Eq, Structural)]
pub enum MediaStatus {
    Pending,
    Downloading,
    Downloaded,
    Failed,
    SkippedExisting,
}

/// The status that is stored under `name`.
pub open spec fn media_status_named(name: Seq<char>) -> Option<MediaStatus> {
    if name == "pending"@ {
        Some(MediaStatus::Pending)
    } else if name == "downloading"@ {
        Some(MediaStatus::Downloading)
    } else if name == "downloaded"@ {
        Some(MediaStatus::Downloaded)
    } else if name == "failed"@ {
        Some(MediaStatus::Failed)
    } else if name == "skipped_existing"@ {
        Some(MediaStatus::SkippedExisting)
    } else {
        None
    }
}

impl MediaStatus {
    /// The name under which the status is stored.
    pub open spec fn name(self) -> Seq<char> {
        match self {
            MediaStatus::Pending => "pending"@,
            MediaStatus::Downloading => "downloading"@,
            MediaStatus::Downloaded => "downloaded"@,
            MediaStatus::Failed => "failed"@,
            MediaStatus::SkippedExisting => "skipped_existing"@,
        }
    }

    pub fn as_str(self) -> (name: &'static str)
        ensures
            name@ == self.name(),
    {
        match self {
            MediaStatus::Pending => "pending",
            MediaStatus::Downloading => "downloading",
            MediaStatus::Downloaded => "downloaded",
            MediaStatus::Failed => "failed",
            MediaStatus::SkippedExisting => "skipped_existing",
        }
    }

    pub fn parse(value: &str) -> (status: Option<MediaStatus>)
        ensures
            status == media_status_named(value@),
    {
        if text::same_text(value, "pending") {
            Some(MediaStatus::Pending)
        } else if text::same_text(value, "downloading") {
            Some(MediaStatus::Downloading)
        } else if text::same_text(value, "downloaded") {
            Some(MediaStatus::Downloaded)
        } else if text::same_text(value, "failed") {
            Some(MediaStatus::Failed)
        } else if text::same_text(value, "skipped_existing") {
            Some(MediaStatus::SkippedExisting)
        } else {
            None
        }
    }
}

/// How much a connection was slowed down.
#[derive(Debug, Clone, Copy, PartialEq, Eq, Structural)]
pub struct PacingStats {
    pub flood_wait_count: u64,
    pub flood_sleep_ms_total: u64,
    pub cooldown_active: bool,
}

impl Default for PacingStats {
    fn default() -> (stats: PacingStats)
        ensures
            stats.flood_wait_count == 0,
            stats.flood_sleep_ms_total == 0,
            !stats.cooldown_active,
    {
        PacingStats { flood_wait_count: 0, flood_sleep_ms_total: 0, cooldown_active: false }
    }
}

/// How far the history of a chat has been read.
#[derive(Debug, Clone, Copy, PartialEq, Eq, Structural)]
pub struct CheckpointState {
    pub chat_id: i64,
    pub high_watermark_message_id: Option<i32>,
    pub backfill_cursor_message_id: Option<i32>,
    pub backfill_complete: bool,
}

/// Every kind is read back from the name under which it is stored.
pub proof fn kind_names_read_back(kind: MediaKind)
    ensures
        kind_of_entry(kind.name()) == Some(kind),
{
    reveal_strlit("photo");
    reveal_strlit("image_doc");
    reveal_strlit("image-document");
    reveal_strlit("image_document");
    reveal_strlit("video");
    reveal_strlit("animation");
    reveal_strlit("gif");
    reveal_strlit("audio");
    reveal_strlit("voice");
    reveal_strlit("voice_note");
    reveal_strlit("document");
    reveal_strlit("file");
    let name = kind.name();
    assert(!text::is_space(name[0]) && !text::is_space(name.last()));
    text::bare_edges_stay(name);
    assert(text::lowered(name) =~= name);
    assert("photo"@.len() == 5 && "image_doc"@.len() == 9 && "image-document"@.len() == 14);
    assert("image_document"@.len() == 14 && "video"@.len() == 5 && "animation"@.len() == 9);
    assert("gif"@.len() == 3 && "audio"@.len() == 5 && "voice"@.len() == 5 && "voice_note"@.len() == 10);
    assert("document"@.len() == 8 && "file"@.len() == 4);
    assert("photo"@[0] == 'p' && "image_doc"@[0] == 'i' && "video"@[1] == 'i' && "animation"@[0] == 'a');
    assert("audio"@[0] == 'a' && "voice"@[1] == 'o' && "document"@[0] == 'd');
    assert("video"@[0] == 'v' && "voice"@[0] == 'v');
}

/// Every status is read back from the name under which it is stored.
pub proof fn status_names_read_back(status: MediaStatus)
    ensures
        media_status_named(status.name()) == Some(status),
{
    reveal_strlit("pending");
    reveal_strlit("downloading");
    reveal_strlit("downloaded");
    reveal_strlit("failed");
    reveal_strlit("skipped_existing");
    assert("pending"@.len() == 7 && "downloading"@.len() == 11 && "downloaded"@.len() == 10);
    assert("failed"@.len() == 6 && "skipped_existing"@.len() == 16);
}

/// Photos, videos and animations lie in a folder named after them, images sent as documents with the
/// photos, voice notes with the audio, and everything else among the files. No other kinds share a
/// folder.
pub proof fn folders_follow_kinds(kind: MediaKind, other: MediaKind)
    ensures
        kind == MediaKind::Photo || kind == MediaKind::Video || kind == MediaKind::Animation
            ==> kind.folder() == kind.name() + seq!['s'],
        MediaKind::Audio.folder() == MediaKind::Audio.name(),
        MediaKind::Document.folder() == seq!['f', 'i', 'l', 'e', 's'],
        kind.folder() == other.folder() <==> {
            ||| kind == other
            ||| (kind == MediaKind::Photo || kind == MediaKind::ImageDocument) && (other
                == MediaKind::Photo || other == MediaKind::ImageDocument)
            ||| (kind == MediaKind::Audio || kind == MediaKind::Voice) && (other == MediaKind::Audio
                || other == MediaKind::Voice)
        },
{
    reveal_strlit("photo");
    reveal_strlit("photos");
    reveal_strlit("video");
    reveal_strlit("videos");
    reveal_strlit("animation");
    reveal_strlit("animations");
    reveal_strlit("audio");
    reveal_strlit("files");
    assert("photos"@ =~= "photo"@ + seq!['s']);
    assert("videos"@ =~= "video"@ + seq!['s']);
    assert("animations"@ =~= "animation"@ + seq!['s']);
    assert("files"@ =~= seq!['f', 'i', 'l', 'e', 's']);
    assert("photos"@.len() == 6 && "videos"@.len() == 6 && "animations"@.len() == 10);
    assert("audio"@.len() == 5 && "files"@.len() == 5);
    assert("photos"@[0] == 'p' && "videos"@[0] == 'v' && "audio"@[0] == 'a' && "files"@[0] == 'f');
}

/// The place of a kind in the order in which kinds are listed.
pub open spec fn place_of(kind: MediaKind) -> int {
    match kind {
        MediaKind::Photo => 0,
        MediaKind::ImageDocument => 1,
        MediaKind::Video => 2,
        MediaKind::Animation => 3,
        MediaKind::Audio => 4,
        MediaKind::Voice => 5,
        MediaKind::Document => 6,
    }
}

/// A filter lists each of its kinds once, in order, and no other.
pub proof fn filters_list_their_kinds(filter: MediaFilter, upto: nat)
    requires
        upto <= 7,
    ensures
        forall|kind: MediaKind| #[trigger]
            filter.listed(upto).contains(kind) <==> filter.has(kind) && place_of(kind) < upto,
        forall|i: int, j: int|
            0 <= i < j < filter.listed(upto).len() ==> place_of(#[trigger] filter.listed(upto)[i])
                < place_of(#[trigger] filter.listed(upto)[j]),
    decreases upto,
{
    if upto > 0 {
        let less = (upto - 1) as nat;
        filters_list_their_kinds(filter, less);
        let before = filter.listed(less);
        let list = filter.listed(upto);
        let last = kind_at(upto - 1);
        assert(place_of(last) == upto - 1);
        assert forall|kind: MediaKind| #[trigger] list.contains(kind) <==> filter.has(kind) && place_of(
            kind,
        ) < upto by {
            assert(place_of(kind) == upto - 1 ==> kind == last);
            assert(before.contains(kind) <==> filter.has(kind) && place_of(kind) < less);
            if filter.has(last) {
                assert(list == before.push(last));
                if before.contains(kind) {
                    let i = choose|i: int| 0 <= i < before.len() && before[i] == kind;
                    assert(list[i] == kind);
                }
                assert(list[before.len() as int] == last);
                if list.contains(kind) {
                    let i = choose|i: int| 0 <= i < list.len() && list[i] == kind;
                    if i < before.len() {
                        assert(before[i] == kind);
                    }
                }
            }
        }
        assert forall|i: int, j: int| 0 <= i < j < list.len() implies place_of(#[trigger] list[i])
            < place_of(#[trigger] list[j]) by {
            if j == before.len() {
                assert(before.contains(before[i]));
            }
        }
    }
}

/// Entries mean the same whatever white space stands around them and whatever case they are written
/// in, and the other names of a kind mean that kind.
pub proof fn entries_are_read_loosely(entry: Seq<char>)
    ensures
        kind_of_entry(text::trimmed(entry)) == kind_of_entry(entry),
        kind_of_entry("gif"@) == Some(MediaKind::Animation),
        kind_of_entry("voice_note"@) == Some(MediaKind::Voice),
        kind_of_entry("file"@) == Some(MediaKind::Document),
        kind_of_entry("image-document"@) == Some(MediaKind::ImageDocument),
        kind_of_entry("image_document"@) == Some(MediaKind::ImageDocument),
{
    text::trimming_twice_is_trimming_once(entry);
    reveal_strlit("photo");
    reveal_strlit("image_doc");
    reveal_strlit("image-document");
    reveal_strlit("image_document");
    reveal_strlit("video");
    reveal_strlit("animation");
    reveal_strlit("gif");
    reveal_strlit("audio");
    reveal_strlit("voice");
    reveal_strlit("voice_note");
    reveal_strlit("document");
    reveal_strlit("file");
    text::bare_edges_stay("gif"@);
    text::bare_edges_stay("voice_note"@);
    text::bare_edges_stay("file"@);
    text::bare_edges_stay("image-document"@);
    text::bare_edges_stay("image_document"@);
    assert(text::lowered("gif"@) =~= "gif"@);
    assert(text::lowered("voice_note"@) =~= "voice_note"@);
    assert(text::lowered("file"@) =~= "file"@);
    assert(text::lowered("image-document"@) =~= "image-document"@);
    assert(text::lowered("image_document"@) =~= "image_document"@);
    assert("photo"@.len() == 5 && "image_doc"@.len() == 9 && "image-document"@.len() == 14);
    assert("image_document"@.len() == 14 && "video"@.len() == 5 && "animation"@.len() == 9);
    assert("gif"@.len() == 3 && "audio"@.len() == 5 && "voice"@.len() == 5 && "voice_note"@.len() == 10);
    assert("document"@.len() == 8 && "file"@.len() == 4);
}

} // verus!
