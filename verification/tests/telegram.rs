use tgbacky::error::AppError;
use tgbacky::media::{Document, DocumentAttribute, Photo};
use tgbacky::pacing::{PaceBucket, Pacer, MAX_FLOOD_RETRIES};
use tgbacky::telegram::{
    completed_chunk_count, describe_document, describe_photo, download_stalled, flood_wait_seconds,
    parse_chat_query, peer_chat_kind, peer_not_usable, pick_by_id, pick_by_title, sort_chats,
    starts_dialog_page, username_not_found, AuthFlow, AuthStep, ChatQuery, DownloadProgress,
    PeerKind, SignInReply, DEFAULT_DOWNLOAD_CHUNK_SIZE_BYTES,
};
use tgbacky::types::{ChatKind, ChatSummary, MediaKind};

#[test]
fn counts_completed_download_chunks() {
    assert_eq!(completed_chunk_count(0).expect("zero"), 0);
    assert_eq!(
        completed_chunk_count(DEFAULT_DOWNLOAD_CHUNK_SIZE_BYTES * 3).expect("chunks"),
        3
    );
}

#[test]
fn rejects_partial_chunk_resume() {
    let error = completed_chunk_count(DEFAULT_DOWNLOAD_CHUNK_SIZE_BYTES + 1).expect_err("partial");
    assert!(error.message().contains("cannot resume safely"));
}

#[test]
fn rejects_flood_waits_above_configured_threshold() {
    let mut pacer = Pacer::new(1, 1, 0, 2);
    let result = pacer.sleep_on_flood_wait("test", 5, 0, 0);
    assert!(matches!(result, Err(AppError::FloodWaitExceeded { .. })));
}

#[test]
fn accepts_flood_waits_at_the_threshold() {
    let mut pacer = Pacer::new(1, 1, 0, 5);
    pacer.sleep_on_flood_wait("test", 5, 0, 0).expect("flood wait should be honored");
    let stats = pacer.stats(0);
    assert_eq!(stats.flood_wait_count, 1);
    assert_eq!(stats.flood_sleep_ms_total, 6_000);
    assert!(pacer.sleep_on_flood_wait("test", 6, 0, 0).is_err());
}

#[test]
fn accepts_flood_waits_when_threshold_disabled() {
    let mut pacer = Pacer::new(1, 1, 0, 0);
    pacer.sleep_on_flood_wait("test", 1, 0, 0).expect("flood wait should be honored");
    let stats = pacer.stats(0);
    assert_eq!(stats.flood_wait_count, 1);
    assert_eq!(stats.flood_sleep_ms_total, 2_000);
}

#[test]
fn flood_waits_hold_everything_back() {
    let mut pacer = Pacer::new(400, 850, 0, 0);
    pacer.sleep_on_flood_wait("fetch", 10, 0, 1_000).expect("wait");
    assert_eq!(pacer.cooldown_left_ms(1_000), Some(11_000));
    assert!(pacer.stats(5_000).cooldown_active);
    assert_eq!(pacer.cooldown_left_ms(12_000), None);
    assert_eq!(pacer.period_ms(PaceBucket::Request), 400);
    assert_eq!(pacer.period_ms(PaceBucket::Download), 850);
    assert!(pacer.sleep_on_flood_wait("fetch", 1, MAX_FLOOD_RETRIES, 0).is_err());
    let error = pacer.sleep_on_flood_wait("fetch", 1, MAX_FLOOD_RETRIES, 0).unwrap_err();
    assert!(error.message().contains("fetch"));
}

#[test]
fn jitter_stays_within_its_bound() {
    assert_eq!(Pacer::new(1, 1, 0, 0).jitter_delay_ms(), None);
    let pacer = Pacer::new(1, 1, 3, 0);
    for _ in 0..200 {
        assert!(pacer.jitter_delay_ms().expect("jitter") <= 3);
    }
}

#[test]
fn flood_errors_are_recognised() {
    assert_eq!(flood_wait_seconds(420, Some(7)), Some(7));
    assert_eq!(flood_wait_seconds(420, None), Some(0));
    assert_eq!(flood_wait_seconds(400, Some(7)), None);
}

#[test]
fn chat_queries_are_read() {
    assert!(matches!(
        parse_chat_query("@demo"),
        Ok(ChatQuery::Username(name)) if name == "demo"
    ));
    assert!(matches!(parse_chat_query(" -1001406612170 "), Ok(ChatQuery::Id(-1001406612170))));
    assert!(matches!(
        parse_chat_query("Family, Photos"),
        Ok(ChatQuery::Title(title)) if title == "Family, Photos"
    ));
    let error = parse_chat_query("https://t.me/+abc").unwrap_err();
    assert_eq!(
        error.message(),
        "unsupported input: invite links are not implemented in this v1 build"
    );
    assert_eq!(
        parse_chat_query("https://").unwrap_err().message(),
        "chat resolution failed: invalid invite or chat URL"
    );
    assert!(matches!(parse_chat_query("https://example.org/x"), Ok(ChatQuery::Title(_))));
    assert_eq!(
        username_not_found("demo").message(),
        "chat resolution failed: no chat found for @demo"
    );
    assert_eq!(
        peer_not_usable().message(),
        "chat resolution failed: resolved peer is not usable"
    );
}

fn chat(id: i64, title: &str) -> ChatSummary<u32> {
    ChatSummary {
        id,
        title: title.to_string(),
        username: None,
        kind: ChatKind::Group,
        handle: id as u32,
    }
}

#[test]
fn chats_are_picked_and_sorted() {
    let all = || vec![chat(1, "beta"), chat(2, "Alpha"), chat(3, "beta")];
    assert_eq!(pick_by_id(all(), 2).expect("found").title, "Alpha");
    assert_eq!(
        pick_by_id(all(), 9).err().expect("missing").message(),
        "chat resolution failed: chat id 9 not found"
    );
    assert_eq!(pick_by_title(all(), "Alpha").expect("found").id, 2);
    assert_eq!(
        pick_by_title(all(), "beta").err().expect("two").message(),
        "chat resolution failed: multiple chats share the title `beta`; use @username or numeric id"
    );
    assert_eq!(
        pick_by_title(all(), "gamma").err().expect("none").message(),
        "chat resolution failed: no chat with exact title `gamma` found"
    );
    let sorted = sort_chats(all());
    assert_eq!(sorted.len(), 3);
    assert!(starts_dialog_page(0));
    assert!(!starts_dialog_page(99));
    assert!(starts_dialog_page(100));
}

#[test]
fn peers_have_kinds() {
    assert_eq!(peer_chat_kind(PeerKind::User), ChatKind::User);
    assert_eq!(peer_chat_kind(PeerKind::Group { megagroup: true }), ChatKind::Supergroup);
    assert_eq!(peer_chat_kind(PeerKind::Group { megagroup: false }), ChatKind::Group);
    assert_eq!(peer_chat_kind(PeerKind::Channel), ChatKind::Channel);
}

#[test]
fn media_is_described() {
    let photo = describe_photo(&Photo { id: 7 }, Some(10), 1u32);
    assert_eq!(photo.telegram_media_key, "photo:7");
    assert_eq!(photo.kind, MediaKind::Photo);
    let document = Document {
        id: 8,
        mime_type: Some("video/mp4".to_string()),
        attributes: vec![DocumentAttribute::Video],
    };
    let video = describe_document(&document, Some(5), Some("a.mp4".to_string()), 2u32).expect("video");
    assert_eq!(video.kind, MediaKind::Video);
    assert_eq!(video.telegram_media_key, "document:8");
    let sticker = Document {
        id: 9,
        mime_type: None,
        attributes: vec![DocumentAttribute::Sticker],
    };
    assert!(describe_document(&sticker, None, None, 3u32).is_none());
}

#[test]
fn sign_in_goes_step_by_step() {
    let mut flow = AuthFlow::new();
    assert!(flow.take_code_step().is_err());
    flow.start();
    flow.take_code_step().expect("code");
    let step = flow
        .on_code_reply(SignInReply::PasswordRequired { hint: Some("cat".to_string()) })
        .expect("step");
    assert!(matches!(step, AuthStep::PasswordRequired { hint: Some(hint) } if hint == "cat"));
    flow.take_password_step().expect("password");
    flow.on_password_reply(SignInReply::Authorized).expect("signed in");
    assert!(flow.take_password_step().is_err());
}

#[test]
fn downloads_go_on_at_whole_chunks() {
    let mut progress = DownloadProgress::new();
    progress.on_chunk(DEFAULT_DOWNLOAD_CHUNK_SIZE_BYTES as usize);
    assert_eq!(progress.resume_after_flood_wait().expect("whole"), 1);
    assert_eq!(progress.attempt, 1);
    progress.on_chunk(10);
    assert!(progress
        .resume_after_flood_wait()
        .unwrap_err()
        .message()
        .ends_with(
            "download hit flood wait after 524298 bytes; cannot resume safely from a partial chunk"
        ));
    let too_far = DEFAULT_DOWNLOAD_CHUNK_SIZE_BYTES * 2_147_483_648;
    assert!(completed_chunk_count(too_far)
        .unwrap_err()
        .message()
        .ends_with("download offset 1125899906842624 bytes is too large to resume"));
    assert_eq!(
        completed_chunk_count(too_far - DEFAULT_DOWNLOAD_CHUNK_SIZE_BYTES).expect("far"),
        2_147_483_647
    );
    assert!(download_stalled(120).message().contains("120"));
}
