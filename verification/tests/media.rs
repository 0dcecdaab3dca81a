use tgbacky::date::{Date, Timestamp};
use tgbacky::fsutil::{
    build_media_directory, is_cross_device, normalize_path, slugify_chat_title, sqlite_files,
    temp_sidecar_path,
};
use tgbacky::hashing::{digest_of_text, FileHasher};
use tgbacky::media::{
    build_filename, choose_extension, classify_document, classify_document_hints, classify_photo,
    default_extension, extension_from_mime, first_extension, normalize_common_extension,
    sanitize_file_stem, stable_media_key_for_document, stable_media_key_for_photo, stable_suffix,
    Document, DocumentAttribute, DocumentHints, Photo,
};
use tgbacky::number::{decimal, padded, parse_i32, parse_u64, signed_decimal};
use tgbacky::order::{comes_before, path_comes_before};
use tgbacky::path::{extension_of, is_same, join, name_of, normalize_lexically, parent_of, starts_with, stem_of};
use tgbacky::text::{align_left, align_right, has_part, join as join_text, lower, split, trim};
use tgbacky::types::{FilenameMode, MediaFilter, MediaKind, MediaStatus};

fn hints() -> DocumentHints {
    DocumentHints {
        has_video_attr: false,
        has_audio_attr: false,
        voice: false,
        animated: false,
        sticker: false,
    }
}

#[test]
fn classifies_documents() {
    assert_eq!(
        classify_document_hints(Some("image/png"), hints()),
        Some(MediaKind::ImageDocument)
    );
    assert_eq!(
        classify_document_hints(
            Some("application/octet-stream"),
            DocumentHints { voice: true, has_audio_attr: true, ..hints() },
        ),
        Some(MediaKind::Voice)
    );
    assert_eq!(
        classify_document_hints(
            Some("video/mp4"),
            DocumentHints { has_video_attr: true, ..hints() },
        ),
        Some(MediaKind::Video)
    );
}

#[test]
fn gifs_are_animations() {
    assert_eq!(
        classify_document_hints(Some("image/gif"), hints()),
        Some(MediaKind::Animation)
    );
    assert_eq!(
        classify_document_hints(Some("image/webp"), DocumentHints { sticker: true, ..hints() }),
        None
    );
}

#[test]
fn documents_are_read_by_their_attributes() {
    let voice = Document {
        id: 9,
        mime_type: Some("audio/ogg".to_string()),
        attributes: vec![DocumentAttribute::Other, DocumentAttribute::Audio { voice: true }],
    };
    assert_eq!(classify_document(&voice), Some(MediaKind::Voice));
    assert_eq!(stable_media_key_for_document(&voice), "document:9");
    assert_eq!(classify_photo(&Photo { id: 4 }), MediaKind::Photo);
    assert_eq!(stable_media_key_for_photo(&Photo { id: 4 }), "photo:4");
}

#[test]
fn builds_stable_filename() {
    let file = build_filename(
        42,
        Date { year: 2026, month: 1, day: 2 },
        MediaKind::Photo,
        Some("hello world.png"),
        "document:abc",
        "png",
        FilenameMode::OriginalIfAvailable,
    );
    assert!(file.contains("hello_world"));
    assert!(file.ends_with(".png"));
}

#[test]
fn chooses_original_document_extension_first() {
    assert_eq!(
        choose_extension(Some("archive.weirdzip"), Some("application/zip"), MediaKind::Document),
        "weirdzip"
    );
}

#[test]
fn stable_suffix_is_longer() {
    assert_eq!(stable_suffix("document:abc").len(), 16);
}

#[test]
fn normalizes_jpegish_extensions() {
    assert_eq!(normalize_common_extension("jpeg"), "jpg");
    assert_eq!(normalize_common_extension("jfif"), "jpg");
    assert_eq!(normalize_common_extension("png"), "png");
}

#[test]
fn extensions_come_from_the_type_or_the_kind() {
    assert_eq!(extension_from_mime(Some("image/png")).as_deref(), Some("png"));
    assert_eq!(extension_from_mime(Some("no/such-type")), None);
    assert_eq!(first_extension(&None), None);
    assert_eq!(
        first_extension(&Some(vec!["one".to_string(), "two".to_string()])).as_deref(),
        Some("one")
    );
    assert_eq!(choose_extension(None, None, MediaKind::Photo), default_extension(MediaKind::Photo));
}

#[test]
fn file_stems_keep_letters_of_all_scripts() {
    assert_eq!(sanitize_file_stem("Отчёт 2024 (final)"), "отчёт_2024_final");
}

#[test]
fn suffixes_are_digests() {
    assert_eq!(
        digest_of_text("abc"),
        "ba7816bf8f01cfea414140de5dae2223b00361a396177a9cb410ff61f20015ad"
    );
    assert_eq!(stable_suffix("abc"), "ba7816bf8f01cfea");
    let mut hasher = FileHasher::new();
    hasher.update(b"a");
    hasher.update(b"bc");
    assert_eq!(hasher.finish(), digest_of_text("abc"));
}

#[test]
fn slugifies_chat_titles() {
    assert_eq!(slugify_chat_title("Memes Channel"), "memes_channel");
    assert_eq!(slugify_chat_title("Пятисотые на проде"), "пятисотые_на_проде");
    assert_eq!(slugify_chat_title("***"), "chat");
}

#[test]
fn normalizes_missing_relative_paths_lexically() {
    let absolute = join("/cwd", "no-such-dir/./a/../b");
    assert_eq!(normalize_path(absolute.as_str(), None), "/cwd/no-such-dir/b");
    assert_eq!(normalize_path("/cwd/x", Some("/real/x".to_string())), "/real/x");
}

#[test]
fn resolving_twice_changes_nothing() {
    for raw in ["/a/./b//../c/", "a/../../b", "/..", "", ".", "x"] {
        let once = normalize_lexically(raw);
        assert_eq!(normalize_lexically(once.as_str()), once);
        assert_eq!(once.starts_with('/'), raw.starts_with('/'));
    }
}

#[test]
fn files_go_by_chat_kind_and_month() {
    let date = Timestamp::new(1_775_347_200, 0).expect("in range");
    assert_eq!(date.date().to_text(), "2026-04-05");
    assert_eq!(
        build_media_directory("downloads", "my_chat", MediaKind::Photo, date),
        "downloads/my_chat/photos/2026/04"
    );
}

#[test]
fn unfinished_files_stand_beside_the_file() {
    assert_eq!(temp_sidecar_path("/d/x.jpg", ".part"), "/d/x.jpg.part");
    assert_eq!(temp_sidecar_path("/", ".part"), "/download.part");
}

#[test]
fn small_helpers_of_the_file_system() {
    assert!(is_cross_device(true, None));
    assert!(is_cross_device(false, Some(18)));
    assert!(!is_cross_device(false, Some(2)));
    assert_eq!(sqlite_files("s.db"), vec!["s.db", "s.db-wal", "s.db-shm"]);
}

#[test]
fn paths_are_taken_apart() {
    assert_eq!(name_of("/a/b.tar.gz").as_deref(), Some("b.tar.gz"));
    assert_eq!(name_of("/a/.."), None);
    assert_eq!(parent_of("/a/b"), "/a");
    assert_eq!(stem_of("/a/b.tar.gz").as_deref(), Some("b.tar"));
    assert_eq!(extension_of("/a/b.tar.gz").as_deref(), Some("gz"));
    assert_eq!(extension_of("/a/.hidden"), None);
    assert!(starts_with("/a/b/c", "/a//b"));
    assert!(!starts_with("/a/bc", "/a/b"));
    assert!(is_same("/a/./b/", "/a/b"));
    assert!(!is_same("/a/b", "/a/b/c"));
}

#[test]
fn orders_of_text_and_paths() {
    assert!(comes_before("a", "ab"));
    assert!(comes_before("Z", "a"));
    assert!(!comes_before("a", "a"));
    assert!(path_comes_before("/a/b", "/a-b"));
    assert!(!path_comes_before("/a//b", "/a/b"));
}

#[test]
fn numbers_read_back() {
    for value in [0u64, 7, 10, 1234567890123456789] {
        assert_eq!(parse_u64(decimal(value as u128).as_str()), Some(value));
    }
    assert_eq!(signed_decimal(-42), "-42");
    assert_eq!(parse_i32("-2147483648"), Some(i32::MIN));
    assert_eq!(parse_i32("2147483648"), None);
    assert_eq!(parse_i32("+7"), Some(7));
    assert_eq!(padded(7, 3), "007");
}

#[test]
fn text_is_cut_and_put_together() {
    assert_eq!(trim(" \u{a0}x\t\n"), "x");
    assert_eq!(lower("AbÖ"), "abÖ");
    assert_eq!(split("a,,b", ','), vec!["a", "", "b"]);
    assert_eq!(join_text(&vec!["a".to_string(), "b".to_string()], ", "), "a, b");
    assert!(has_part("hello", "ell"));
    assert_eq!(align_right("ab", 4), "  ab");
    assert_eq!(align_left("ab", 4), "ab  ");
    assert_eq!(align_left("abcde", 4), "abcde");
}

#[test]
fn names_of_kinds_and_statuses_read_back() {
    for kind in MediaKind::ALL {
        assert_eq!(MediaKind::parse(kind.as_str()), Some(kind));
    }
    assert_eq!(MediaKind::parse(" GIF "), Some(MediaKind::Animation));
    for status in [
        MediaStatus::Pending,
        MediaStatus::Downloading,
        MediaStatus::Downloaded,
        MediaStatus::Failed,
        MediaStatus::SkippedExisting,
    ] {
        assert_eq!(MediaStatus::parse(status.as_str()), Some(status));
    }
    assert!(MediaFilter::all().without(&MediaFilter::all()).is_empty());
}

#[test]
fn moments_read_back() {
    let moment = Timestamp::new(1_767_312_000, 5_000_000).expect("in range");
    let text = moment.to_rfc3339();
    assert_eq!(text, "2026-01-02T00:00:00.005+00:00");
    let read = Timestamp::from_rfc3339(text.as_str()).expect("read");
    assert_eq!((read.seconds(), read.nanos()), (1_767_312_000, 5_000_000));
    assert!(Timestamp::from_rfc3339("yesterday").is_err());
    assert!(Timestamp::new(i64::MAX, 0).is_none());
    assert_eq!(Date { year: 1970, month: 1, day: 1 }.end_of_day(), 86_400);
    assert!(Date { year: 2025, month: 12, day: 31 }.is_before(Date { year: 2026, month: 1, day: 1 }));
}
