//! What a file is, and the name under which it is saved.

use vstd::prelude::*;

use crate::date::Date;
use crate::hashing;
use crate::number;
use crate::path;
use crate::text;
use crate::types::{FilenameMode, MediaKind};

verus! {

/// What the attributes of a document say about it.
#[derive(Debug, Clone, Copy, PartialEq, Eq, Structural)]
pub struct DocumentHints {
    pub has_video_attr: bool,
    pub has_audio_attr: bool,
    pub voice: bool,
    pub animated: bool,
    pub sticker: bool,
}

impl Default for DocumentHints {
    fn default() -> (hints: DocumentHints)
        ensures
            hints == no_hints(),
    {
        DocumentHints {
            has_video_attr: false,
            has_audio_attr: false,
            voice: false,
            animated: false,
            sticker: false,
        }
    }
}

/// The hints of a document without attributes.
pub open spec fn no_hints() -> DocumentHints {
    DocumentHints {
        has_video_attr: false,
        has_audio_attr: false,
        voice: false,
        animated: false,
        sticker: false,
    }
}

/// An attribute of a document, as far as it tells what the document is.
#[derive(Debug, Clone, Copy, PartialEq, Eq, Structural)]
pub enum DocumentAttribute {
    Audio { voice: bool },
    Video,
    Animated,
    Sticker,
    Other,
}

/// A document of a message.
#[derive(Debug)]
pub struct Document {
    pub id: i64,
    pub mime_type: Option<String>,
    pub attributes: Vec<DocumentAttribute>,
}

/// A photo of a message.
#[derive(Debug)]
pub struct Photo {
    pub id: i64,
}

/// What a list of attributes says; of several audio attributes the last one tells whether the
/// document is a voice note.
pub open spec fn hints_of(attributes: Seq<DocumentAttribute>) -> DocumentHints
    decreases attributes.len(),
{
    if attributes.len() == 0 {
        no_hints()
    } else {
        let before = hints_of(attributes.drop_last());
        match attributes.last() {
            DocumentAttribute::Audio { voice } => DocumentHints { has_audio_attr: true, voice, ..before },
            DocumentAttribute::Video => DocumentHints { has_video_attr: true, ..before },
            DocumentAttribute::Animated => DocumentHints { animated: true, ..before },
            DocumentAttribute::Sticker => DocumentHints { sticker: true, ..before },
            DocumentAttribute::Other => before,
        }
    }
}

/// What a document is saved as. Stickers are not saved. A GIF is an animation and every other
/// image type an image document, whatever the attributes say.
pub open spec fn document_kind(mime: Option<Seq<char>>, hints: DocumentHints) -> Option<MediaKind> {
    if hints.sticker {
        None
    } else if mime == Some("image/gif"@) {
        Some(MediaKind::Animation)
    } else if mime is Some && text::starts_with(mime->0, "image/"@) {
        Some(MediaKind::ImageDocument)
    } else if hints.voice {
        Some(MediaKind::Voice)
    } else if hints.has_audio_attr {
        Some(MediaKind::Audio)
    } else if hints.animated {
        Some(MediaKind::Animation)
    } else if hints.has_video_attr {
        Some(MediaKind::Video)
    } else {
        Some(MediaKind::Document)
    }
}

pub fn classify_photo(_photo: &Photo) -> (kind: MediaKind)
    ensures
        kind == MediaKind::Photo,
{
    MediaKind::Photo
}

/// What a document is saved as.
pub fn classify_document(document: &Document) -> (kind: Option<MediaKind>)
    ensures
        kind == document_kind(text::opt_text(document.mime_type), hints_of(document.attributes@)),
{
    let mut hints = DocumentHints::default();
    let mut i: usize = 0;
    while i < document.attributes.len()
        invariant
            i <= document.attributes@.len(),
            hints == hints_of(document.attributes@.take(i as int)),
        decreases document.attributes@.len() - i,
    {
        let ghost next = document.attributes@.take(i + 1);
        assert(next.drop_last() =~= document.attributes@.take(i as int));
        match document.attributes[i] {
            DocumentAttribute::Audio { voice } => {
                hints.has_audio_attr = true;
                hints.voice = voice;
            },
            DocumentAttribute::Video => {
                hints.has_video_attr = true;
            },
            DocumentAttribute::Animated => {
                hints.animated = true;
            },
            DocumentAttribute::Sticker => {
                hints.sticker = true;
            },
            DocumentAttribute::Other => {},
        }
        i += 1;
    }
    assert(document.attributes@.take(i as int) =~= document.attributes@);
    match &document.mime_type {
        Some(mime) => classify_document_hints(Some(mime.as_str()), hints),
        None => classify_document_hints(None, hints),
    }
}

/// What a document with this type and these hints is saved as.
pub fn classify_document_hints(mime_type: Option<&str>, hints: DocumentHints) -> (kind: Option<
    MediaKind,
>)
    ensures
        kind == document_kind(text::opt_str(mime_type), hints),
{
    if hints.sticker {
        return None;
    }
    if let Some(mime) = mime_type {
        if text::same_text(mime, "image/gif") {
            return Some(MediaKind::Animation);
        }
        if text::has_prefix(mime, "image/") {
            return Some(MediaKind::ImageDocument);
        }
    }
    if hints.voice {
        Some(MediaKind::Voice)
    } else if hints.has_audio_attr {
        Some(MediaKind::Audio)
    } else if hints.animated {
        Some(MediaKind::Animation)
    } else if hints.has_video_attr {
        Some(MediaKind::Video)
    } else {
        Some(MediaKind::Document)
    }
}

pub fn stable_media_key_for_photo(photo: &Photo) -> (key: String)
    ensures
        key@ == "photo:"@ + number::int_text(photo.id as int),
{
    let id = number::signed_decimal(photo.id);
    text::concat("photo:", id.as_str())
}

pub fn stable_media_key_for_document(document: &Document) -> (key: String)
    ensures
        key@ == "document:"@ + number::int_text(document.id as int),
{
    let id = number::signed_decimal(document.id);
    text::concat("document:", id.as_str())
}

/// Sixteen hexadecimal digits that stand for `value`.
pub open spec fn suffix_text(value: Seq<char>) -> Seq<char> {
    hashing::hex_text(hashing::sha256(vstd::utf8::encode_utf8(value)).take(8))
}

/// Sixteen hexadecimal digits that stand for `value`: the first eight bytes of its digest.
pub fn stable_suffix(value: &str) -> (suffix: String)
    ensures
        suffix@ == suffix_text(value@),
        suffix@.len() == 16,
{
    let mut hasher = hashing::FileHasher::new();
    hasher.update(value.as_bytes());
    let ghost bytes = vstd::utf8::encode_utf8(value@);
    assert(Seq::<u8>::empty() + bytes =~= bytes);
    let mut digest = hasher.digest();
    let ghost full = digest@;
    digest.truncate(8);
    assert(digest@ =~= full.take(8));
    hashing::encode(digest.as_slice())
}

/// The first `count` ASCII letters and digits of `s`.
pub open spec fn plain_letters(s: Seq<char>, count: nat) -> Seq<char>
    decreases s.len(),
{
    if s.len() == 0 || count == 0 {
        Seq::<char>::empty()
    } else if text::is_ascii_alnum(s[0]) {
        seq![s[0]] + plain_letters(s.drop_first(), (count - 1) as nat)
    } else {
        plain_letters(s.drop_first(), count)
    }
}

/// An extension in its usual form: trimmed, in lower case, with `jpg` for its variants.
pub open spec fn common_extension(ext: Seq<char>) -> Seq<char> {
    let low = text::lowered(text::trimmed(ext));
    if low == "jpeg"@ || low == "jfif"@ {
        "jpg"@
    } else {
        low
    }
}

/// The extension that a file name carries: at most twelve letters and digits.
pub open spec fn name_extension(name: Option<Seq<char>>) -> Option<Seq<char>> {
    match name {
        Some(given) => match path::file_name(given) {
            Some(file) => match path::extension(file) {
                Some(ext) => {
                    let letters = plain_letters(text::lowered(ext), 12);
                    if letters.len() == 0 {
                        None
                    } else {
                        Some(common_extension(letters))
                    }
                },
                None => None,
            },
            None => None,
        },
        None => None,
    }
}

/// What `mime_guess::get_mime_extensions_str` lists for a type.
pub uninterp spec fn mime_extensions(mime: Seq<char>) -> Option<Seq<Seq<char>>>;

/// The extension that a list of known extensions stands for: its first, in the usual form.
pub open spec fn listed_extension(list: Option<Seq<Seq<char>>>) -> Option<Seq<char>> {
    match list {
        Some(known) => if known.len() == 0 {
            None
        } else {
            Some(common_extension(known[0]))
        },
        None => None,
    }
}

/// The extension of files of a type.
pub open spec fn mime_extension(mime: Option<Seq<char>>) -> Option<Seq<char>> {
    match mime {
        Some(given) => listed_extension(mime_extensions(given)),
        None => None,
    }
}

/// The extension of a kind when nothing else is known.
pub open spec fn kind_extension(kind: MediaKind) -> Seq<char> {
    match kind {
        MediaKind::Photo | MediaKind::ImageDocument => "jpg"@,
        MediaKind::Video => "mp4"@,
        MediaKind::Animation => "gif"@,
        MediaKind::Audio => "mp3"@,
        MediaKind::Voice => "ogg"@,
        MediaKind::Document => "bin"@,
    }
}

/// The extension under which a file is saved: that of its name, of its type, or of its kind.
pub open spec fn chosen_extension(
    name: Option<Seq<char>>,
    mime: Option<Seq<char>>,
    kind: MediaKind,
) -> Seq<char> {
    if kind == MediaKind::Photo {
        "jpg"@
    } else if name_extension(name) is Some {
        name_extension(name)->0
    } else if mime_extension(mime) is Some {
        mime_extension(mime)->0
    } else {
        kind_extension(kind)
    }
}

/// `mime_guess::get_mime_extensions_str` looks a type up in a fixed table. `None` stands for an
/// unknown type.
#[verifier::external_body]
fn known_extensions(mime: &str) -> (list: Option<Vec<String>>)
    ensures
        match list {
            Some(known) => mime_extensions(mime@) == Some(text::texts(known@)),
            None => mime_extensions(mime@) is None,
        },
{
    let known = mime_guess::get_mime_extensions_str(mime)?;
    Some(known.iter().map(|item| item.to_string()).collect())
}

fn leading_letters(chars: &[char], count: usize) -> (out: Vec<char>)
    ensures
        out@ == plain_letters(chars@, count as nat),
{
    let mut out: Vec<char> = Vec::new();
    let mut i: usize = 0;
    let mut left: usize = count;
    let ghost whole = plain_letters(chars@, count as nat);
    assert(chars@.skip(0) =~= chars@);
    while i < chars.len() && left > 0
        invariant
            i <= chars@.len(),
            out@ + plain_letters(chars@.skip(i as int), left as nat) == whole,
        decreases chars@.len() - i,
    {
        let c = chars[i];
        let ghost rest = chars@.skip(i as int);
        let ghost kept = out@;
        assert(rest.drop_first() =~= chars@.skip(i + 1));
        if ('A' <= c && c <= 'Z') || ('a' <= c && c <= 'z') || ('0' <= c && c <= '9') {
            out.push(c);
            left -= 1;
            let ghost tail = plain_letters(chars@.skip(i + 1), left as nat);
            assert(out@ + tail =~= kept + (seq![c] + tail));
        }
        i += 1;
    }
    assert(plain_letters(chars@.skip(i as int), left as nat) =~= Seq::<char>::empty());
    assert(out@ =~= whole);
    out
}

/// The extension that a file name carries.
pub fn extension_from_name(name: Option<&str>) -> (ext: Option<String>)
    ensures
        text::opt_text(ext) == name_extension(text::opt_str(name)),
{
    let given = match name {
        Some(given) => given,
        None => {
            return None;
        },
    };
    let ext = match path::extension_of(given) {
        Some(ext) => ext,
        None => {
            return None;
        },
    };
    let low = text::lower(ext.as_str());
    let chars = text::chars_of(low.as_str());
    let letters = leading_letters(&chars, 12);
    if letters.len() == 0 {
        return None;
    }
    let plain = text::text_of(&letters);
    Some(normalize_common_extension(plain.as_str()))
}

/// The extension of files of a type.
pub fn extension_from_mime(mime_type: Option<&str>) -> (ext: Option<String>)
    ensures
        text::opt_text(ext) == mime_extension(text::opt_str(mime_type)),
{
    match mime_type {
        Some(mime) => {
            let known = known_extensions(mime);
            first_extension(&known)
        },
        None => None,
    }
}

/// The extension that a list of known extensions stands for.
pub fn first_extension(known: &Option<Vec<String>>) -> (ext: Option<String>)
    ensures
        text::opt_text(ext) == listed_extension(
            match *known {
                Some(list) => Some(text::texts(list@)),
                None => None,
            },
        ),
{
    match known {
        Some(list) => if list.len() == 0 {
            None
        } else {
            Some(normalize_common_extension(list[0].as_str()))
        },
        None => None,
    }
}

pub fn default_extension(kind: MediaKind) -> (ext: &'static str)
    ensures
        ext@ == kind_extension(kind),
{
    match kind {
        MediaKind::Photo | MediaKind::ImageDocument => "jpg",
        MediaKind::Video => "mp4",
        MediaKind::Animation => "gif",
        MediaKind::Audio => "mp3",
        MediaKind::Voice => "ogg",
        MediaKind::Document => "bin",
    }
}

/// The extension under which a file is saved.
pub fn choose_extension(
    original_name: Option<&str>,
    mime_type: Option<&str>,
    kind: MediaKind,
) -> (ext: String)
    ensures
        ext@ == chosen_extension(text::opt_str(original_name), text::opt_str(mime_type), kind),
{
    if kind == MediaKind::Photo {
        return "jpg".to_string();
    }
    match extension_from_name(original_name) {
        Some(ext) => ext,
        None => match extension_from_mime(mime_type) {
            Some(ext) => ext,
            None => default_extension(kind).to_string(),
        },
    }
}

/// An extension in its usual form.
pub fn normalize_common_extension(extension: &str) -> (out: String)
    ensures
        out@ == common_extension(extension@),
{
    let trimmed = text::trim(extension);
    let low = text::lower(trimmed.as_str());
    if text::same_text(low.as_str(), "jpeg") || text::same_text(low.as_str(), "jfif") {
        "jpg".to_string()
    } else {
        low
    }
}

/// The part of a file name that names saved files after it: its stem in lower case, letters and
/// digits of all scripts kept, at most forty characters.
pub open spec fn clean_stem(value: Seq<char>) -> Seq<char> {
    let whole = match path::file_name(value) {
        Some(name) => path::stem(name),
        None => Seq::<char>::empty(),
    };
    let clean = text::stripped(text::squeezed(whole, text::Alphabet::Unicode), '_');
    if clean.len() <= 40 {
        clean
    } else {
        clean.take(40)
    }
}

/// The name under which a file is saved, with `stem` in it where it is not empty.
pub open spec fn file_name_text(
    message_id: int,
    date: Date,
    kind: MediaKind,
    stem: Seq<char>,
    stable_key: Seq<char>,
    extension: Seq<char>,
) -> Seq<char> {
    let head = number::int_text(message_id) + seq!['_'] + date.text() + seq!['_'] + kind.name() + seq![
        '_',
    ];
    let middle = if stem.len() == 0 {
        head
    } else {
        head + stem + seq!['_']
    };
    middle + suffix_text(stable_key) + seq!['.'] + extension
}

/// The stem that a file name carries under `mode`.
pub open spec fn kept_stem(name: Option<Seq<char>>, mode: FilenameMode) -> Seq<char> {
    match (mode, name) {
        (FilenameMode::OriginalIfAvailable, Some(given)) => clean_stem(given),
        _ => Seq::<char>::empty(),
    }
}

/// The name under which a file is saved.
pub fn build_filename(
    message_id: i32,
    date: Date,
    kind: MediaKind,
    original_name: Option<&str>,
    stable_key: &str,
    extension: &str,
    filename_mode: FilenameMode,
) -> (out: String)
    ensures
        out@ == file_name_text(
            message_id as int,
            date,
            kind,
            kept_stem(text::opt_str(original_name), filename_mode),
            stable_key@,
            extension@,
        ),
{
    let mut out = number::signed_decimal(message_id as i64);
    out.push('_');
    let day = date.to_text();
    out.append(day.as_str());
    out.push('_');
    out.append(kind.as_str());
    out.push('_');
    let ghost head = number::int_text(message_id as int) + seq!['_'] + date.text() + seq!['_']
        + kind.name() + seq!['_'];
    assert(out@ =~= head);
    if filename_mode == FilenameMode::OriginalIfAvailable {
        if let Some(name) = original_name {
            let stem = sanitize_file_stem(name);
            if !stem.as_str().is_empty() {
                out.append(stem.as_str());
                out.push('_');
                assert(out@ =~= head + stem@ + seq!['_']);
            }
        }
    }
    let suffix = stable_suffix(stable_key);
    let ghost middle = out@;
    out.append(suffix.as_str());
    out.push('.');
    out.append(extension);
    assert(out@ =~= middle + suffix@ + seq!['.'] + extension@);
    out
}

/// The part of a file name that names saved files after it.
pub fn sanitize_file_stem(value: &str) -> (out: String)
    ensures
        out@ == clean_stem(value@),
{
    let stem = match path::stem_of(value) {
        Some(stem) => stem,
        None => String::new(),
    };
    assert(path::file_name(value@) is None ==> stem@ =~= Seq::<char>::empty());
    let squeezed = text::squeeze(stem.as_str(), text::Alphabet::Unicode);
    let clean = text::strip_edges(&squeezed, '_');
    if clean.len() <= 40 {
        text::text_of(&clean)
    } else {
        let part = text::slice_of(&clean, 0, 40);
        assert(part@ =~= clean@.take(40));
        text::text_of(&part)
    }
}

/// Whether a type names an image.
pub open spec fn is_image_type(mime: Option<Seq<char>>) -> bool {
    mime is Some && mime->0.len() >= 6 && mime->0.take(6) == seq!['i', 'm', 'a', 'g', 'e', '/']
}

/// Whether an attribute says that a document is heard.
pub open spec fn is_audio(attribute: DocumentAttribute) -> bool {
    attribute is Audio
}

proof fn hints_follow_attributes(attributes: Seq<DocumentAttribute>)
    ensures
        hints_of(attributes).sticker <==> attributes.contains(DocumentAttribute::Sticker),
        hints_of(attributes).animated <==> attributes.contains(DocumentAttribute::Animated),
        hints_of(attributes).has_video_attr <==> attributes.contains(DocumentAttribute::Video),
        hints_of(attributes).has_audio_attr <==> exists|i: int|
            0 <= i < attributes.len() && is_audio(#[trigger] attributes[i]),
        hints_of(attributes).voice <==> exists|i: int|
            0 <= i < attributes.len() && #[trigger] attributes[i] == (DocumentAttribute::Audio {
                voice: true,
            }) && forall|j: int| i < j < attributes.len() ==> !is_audio(#[trigger] attributes[j]),
    decreases attributes.len(),
{
    if attributes.len() > 0 {
        let init = attributes.drop_last();
        let last = attributes.last();
        let n = attributes.len() - 1;
        hints_follow_attributes(init);
        assert(attributes =~= init.push(last));
        assert(attributes[n] == last);
        assert forall|x: DocumentAttribute| #[trigger]
            attributes.contains(x) <==> init.contains(x) || last == x by {
            if init.contains(x) {
                let i = choose|i: int| 0 <= i < init.len() && init[i] == x;
                assert(attributes[i] == x);
            }
            if attributes.contains(x) && last != x {
                let i = choose|i: int| 0 <= i < attributes.len() && attributes[i] == x;
                assert(init[i] == x);
            }
        }
        if exists|i: int| 0 <= i < init.len() && is_audio(#[trigger] init[i]) {
            let i = choose|i: int| 0 <= i < init.len() && is_audio(#[trigger] init[i]);
            assert(is_audio(attributes[i]));
        }
        if exists|i: int| 0 <= i < attributes.len() && is_audio(#[trigger] attributes[i]) {
            let i = choose|i: int| 0 <= i < attributes.len() && is_audio(#[trigger] attributes[i]);
            if i < n {
                assert(is_audio(init[i]));
            }
        }
        let voice = DocumentAttribute::Audio { voice: true };
        if hints_of(init).voice && !is_audio(last) {
            let i = choose|i: int|
                0 <= i < init.len() && #[trigger] init[i] == voice && forall|j: int|
                    i < j < init.len() ==> !is_audio(#[trigger] init[j]);
            assert(attributes[i] == voice);
            assert forall|j: int| i < j < attributes.len() implies !is_audio(#[trigger] attributes[j]) by {
                if j < n {
                    assert(attributes[j] == init[j]);
                }
            }
        }
        if exists|i: int|
            0 <= i < attributes.len() && #[trigger] attributes[i] == voice && forall|j: int|
                i < j < attributes.len() ==> !is_audio(#[trigger] attributes[j]) {
            let i = choose|i: int|
                0 <= i < attributes.len() && #[trigger] attributes[i] == voice && forall|j: int|
                    i < j < attributes.len() ==> !is_audio(#[trigger] attributes[j]);
            if i < n {
                assert(!is_audio(attributes[n]));
                assert(init[i] == voice);
                assert forall|j: int| i < j < init.len() implies !is_audio(#[trigger] init[j]) by {
                    assert(attributes[j] == init[j]);
                }
            }
        }
    }
}

/// What a document is saved as, by its type and its attributes in any order. Stickers are never saved,
/// and everything else is. Image types decide first: a GIF is an animation, any other an image. A
/// document that is heard is a voice note if its last audio attribute says so, else audio. Among the
/// others the animated ones are animations, whether or not they are videos too.
pub proof fn documents_are_told_apart(mime: Option<Seq<char>>, attributes: Seq<DocumentAttribute>)
    ensures
        ({
            let kind = document_kind(mime, hints_of(attributes));
            let gif = mime == Some("image/gif"@);
            let heard = exists|i: int| 0 <= i < attributes.len() && is_audio(#[trigger] attributes[i]);
            let spoken = exists|i: int|
                0 <= i < attributes.len() && #[trigger] attributes[i] == (DocumentAttribute::Audio {
                    voice: true,
                }) && forall|j: int| i < j < attributes.len() ==> !is_audio(#[trigger] attributes[j]);
            let moving = attributes.contains(DocumentAttribute::Animated);
            let video = attributes.contains(DocumentAttribute::Video);
            &&& kind is None <==> attributes.contains(DocumentAttribute::Sticker)
            &&& kind is Some ==> {
                &&& kind->0 == MediaKind::ImageDocument <==> is_image_type(mime) && !gif
                &&& kind->0 == MediaKind::Voice <==> !is_image_type(mime) && spoken
                &&& kind->0 == MediaKind::Audio <==> !is_image_type(mime) && heard && !spoken
                &&& kind->0 == MediaKind::Animation <==> gif || (!is_image_type(mime) && !heard && moving)
                &&& kind->0 == MediaKind::Video <==> !is_image_type(mime) && !heard && !moving && video
                &&& kind->0 == MediaKind::Document <==> !is_image_type(mime) && !heard && !moving
                    && !video
                &&& kind->0 != MediaKind::Photo
            }
        }),
{
    hints_follow_attributes(attributes);
    reveal_strlit("image/gif");
    reveal_strlit("image/");
    assert("image/"@ =~= seq!['i', 'm', 'a', 'g', 'e', '/']);
    assert("image/gif"@.take(6) =~= seq!['i', 'm', 'a', 'g', 'e', '/']);
}

/// Stable names do not depend on what a file was called, and a name in the other mode is the stable one
/// with the clean stem put in before the suffix.
pub proof fn stable_names_ignore_titles(
    message_id: int,
    date: Date,
    kind: MediaKind,
    name: Option<Seq<char>>,
    other: Option<Seq<char>>,
    stable_key: Seq<char>,
    extension: Seq<char>,
)
    ensures
        kept_stem(name, FilenameMode::Stable) == kept_stem(other, FilenameMode::Stable),
        kept_stem(name, FilenameMode::Stable).len() == 0,
        kept_stem(None, FilenameMode::OriginalIfAvailable).len() == 0,
        name is Some ==> kept_stem(name, FilenameMode::OriginalIfAvailable) == clean_stem(name->0),
        clean_stem(stable_key).len() <= 40,
        ({
            let text = file_name_text(message_id, date, kind, Seq::empty(), stable_key, extension);
            let suffix = suffix_text(stable_key) + seq!['.'] + extension;
            &&& text::starts_with(text, number::int_text(message_id) + seq!['_'])
            &&& text::ends_with(text, suffix)
        }),
{
    let text = file_name_text(message_id, date, kind, Seq::empty(), stable_key, extension);
    let front = number::int_text(message_id) + seq!['_'];
    let suffix = suffix_text(stable_key) + seq!['.'] + extension;
    assert(text.take(front.len() as int) =~= front);
    assert(text.skip(text.len() - suffix.len()) =~= suffix);
}

proof fn numbers_hold_no_underscore(id: int)
    ensures
        number::int_text(id).len() > 0,
        forall|i: int| 0 <= i < number::int_text(id).len() ==> #[trigger] number::int_text(id)[i] != '_',
{
    let size: nat = if id < 0 {
        (-id) as nat
    } else {
        id as nat
    };
    number::decimal_reads_back(size);
    let plain = number::nat_text(size);
    let whole = number::int_text(id);
    assert forall|i: int| 0 <= i < whole.len() implies #[trigger] whole[i] != '_' by {
        if id < 0 {
            if i > 0 {
                assert(whole[i] == plain[i - 1]);
                assert(text::is_ascii_digit(plain[i - 1]));
            }
        } else {
            assert(text::is_ascii_digit(plain[i]));
        }
    }
}

/// Files of different messages never get the same name, whatever else is known of them.
pub proof fn messages_share_no_file_names(
    first: int,
    second: int,
    date: Date,
    other_date: Date,
    kind: MediaKind,
    other_kind: MediaKind,
    stem: Seq<char>,
    other_stem: Seq<char>,
    key: Seq<char>,
    other_key: Seq<char>,
    extension: Seq<char>,
    other_extension: Seq<char>,
)
    requires
        first != second,
    ensures
        file_name_text(first, date, kind, stem, key, extension) != file_name_text(
            second,
            other_date,
            other_kind,
            other_stem,
            other_key,
            other_extension,
        ),
{
    let a = number::int_text(first);
    let b = number::int_text(second);
    let x = file_name_text(first, date, kind, stem, key, extension);
    let y = file_name_text(second, other_date, other_kind, other_stem, other_key, other_extension);
    numbers_hold_no_underscore(first);
    numbers_hold_no_underscore(second);
    number::signed_decimal_reads_back(first);
    number::signed_decimal_reads_back(second);
    if x == y {
        assert(x[a.len() as int] == '_');
        assert(y[b.len() as int] == '_');
        assert(x.take(a.len() as int) =~= a);
        assert(y.take(b.len() as int) =~= b);
        if a.len() < b.len() {
            assert(b[a.len() as int] == y[a.len() as int]);
        }
        if b.len() < a.len() {
            assert(a[b.len() as int] == x[b.len() as int]);
        }
        assert(a == b);
    }
}

/// A photo is always a JPEG file. Of any other file the extension of its name comes first, then that of
/// its type, then that of its kind.
pub proof fn extensions_are_chosen_in_order(
    name: Option<Seq<char>>,
    mime: Option<Seq<char>>,
    other: Option<Seq<char>>,
    kind: MediaKind,
)
    ensures
        chosen_extension(name, mime, MediaKind::Photo) == seq!['j', 'p', 'g'],
        kind != MediaKind::Photo && name_extension(name) is Some ==> chosen_extension(name, mime, kind)
            == chosen_extension(name, other, kind) && chosen_extension(name, mime, kind)
            == name_extension(name)->0,
        kind != MediaKind::Photo && name_extension(name) is None && mime_extension(mime) is Some
            ==> chosen_extension(name, mime, kind) == mime_extension(mime)->0,
        name_extension(name) is None && mime_extension(mime) is None ==> chosen_extension(
            name,
            mime,
            kind,
        ) == kind_extension(kind),
{
    reveal_strlit("jpg");
    assert("jpg"@ =~= seq!['j', 'p', 'g']);
}

/// A name starts with the message and the day, and does not start at a root.
pub proof fn names_start_with_the_message(
    message_id: int,
    date: Date,
    kind: MediaKind,
    stem: Seq<char>,
    stable_key: Seq<char>,
    extension: Seq<char>,
)
    ensures
        ({
            let name = file_name_text(message_id, date, kind, stem, stable_key, extension);
            &&& text::starts_with(
                name,
                number::int_text(message_id) + seq!['_'] + date.text() + seq!['_'],
            )
            &&& name.len() > 0
            &&& name[0] != '/'
        }),
{
    let name = file_name_text(message_id, date, kind, stem, stable_key, extension);
    let front = number::int_text(message_id) + seq!['_'] + date.text() + seq!['_'];
    assert(name.take(front.len() as int) =~= front);
    let size: nat = if message_id < 0 {
        (-message_id) as nat
    } else {
        message_id as nat
    };
    number::decimal_reads_back(size);
    assert(text::is_ascii_digit(number::nat_text(size)[0]));
    assert(name[0] == number::int_text(message_id)[0]);
}

/// A stem is cut to forty characters and stays whole where it is shorter.
pub proof fn stems_are_cut_to_forty(value: Seq<char>)
    requires
        path::file_name(value) is Some,
    ensures
        ({
            let whole = text::stripped(
                text::squeezed(path::stem(path::file_name(value)->0), text::Alphabet::Unicode),
                '_',
            );
            &&& whole.len() <= 40 ==> clean_stem(value) == whole
            &&& whole.len() > 40 ==> clean_stem(value).len() == 40 && clean_stem(value) == whole.take(40)
        }),
{
}

/// The variants of an extension are written as one, and everything else in lower case without white
/// space around it.
pub proof fn extensions_have_one_form(ext: Seq<char>)
    ensures
        common_extension("jpeg"@) == "jpg"@,
        common_extension("jfif"@) == "jpg"@,
        common_extension("jpg"@) == "jpg"@,
        common_extension(text::trimmed(ext)) == common_extension(ext),
        text::lowered(text::trimmed(ext)).len() != 4 ==> common_extension(ext) == text::lowered(
            text::trimmed(ext),
        ),
{
    text::trimming_twice_is_trimming_once(ext);
    reveal_strlit("jpeg");
    reveal_strlit("jfif");
    reveal_strlit("jpg");
    text::bare_edges_stay("jpeg"@);
    text::bare_edges_stay("jfif"@);
    text::bare_edges_stay("jpg"@);
    assert(text::lowered("jpeg"@) =~= "jpeg"@);
    assert(text::lowered("jfif"@) =~= "jfif"@);
    assert(text::lowered("jpg"@) =~= "jpg"@);
    assert("jpg"@.len() == 3 && "jpeg"@.len() == 4 && "jfif"@.len() == 4);
}

/// A kind of which nothing else is known has the extension that its files mostly have.
pub proof fn kinds_have_extensions(kind: MediaKind)
    ensures
        kind_extension(kind) == match kind {
            MediaKind::Photo => seq!['j', 'p', 'g'],
            MediaKind::ImageDocument => seq!['j', 'p', 'g'],
            MediaKind::Video => seq!['m', 'p', '4'],
            MediaKind::Animation => seq!['g', 'i', 'f'],
            MediaKind::Audio => seq!['m', 'p', '3'],
            MediaKind::Voice => seq!['o', 'g', 'g'],
            MediaKind::Document => seq!['b', 'i', 'n'],
        },
{
    reveal_strlit("jpg");
    reveal_strlit("mp4");
    reveal_strlit("gif");
    reveal_strlit("mp3");
    reveal_strlit("ogg");
    reveal_strlit("bin");
    assert("jpg"@ =~= seq!['j', 'p', 'g']);
    assert("mp4"@ =~= seq!['m', 'p', '4']);
    assert("gif"@ =~= seq!['g', 'i', 'f']);
    assert("mp3"@ =~= seq!['m', 'p', '3']);
    assert("ogg"@ =~= seq!['o', 'g', 'g']);
    assert("bin"@ =~= seq!['b', 'i', 'n']);
}

} // verus!
