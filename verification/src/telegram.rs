//! What is decided around requests to the service: logging in, finding a chat, and reading files.

use vstd::prelude::*;

use crate::error::AppError;
use crate::error::Result;
use crate::media;
use crate::media::{Document, Photo};
use crate::number;
use crate::order;
use crate::text;
use crate::types::{ChatKind, ChatSummary, MediaDescriptor};

verus! {

/// The size of the pieces in which files are read.
pub const DEFAULT_DOWNLOAD_CHUNK_SIZE_BYTES: u64 = 512 * 1024;

/// How many chats come with one request.
pub const DIALOG_PAGE_SIZE: usize = 100;

/// What a submitted login code leads to.
#[derive(Debug)]
pub enum AuthStep {
    Authorized,
    PasswordRequired { hint: Option<String> },
}

/// What a login that was started is waiting for.
#[derive(Debug, Clone, Copy, PartialEq, Eq, Structural)]
pub enum PendingAuth {
    Login,
    Password,
}

/// What the service says to a login code or a password.
#[derive(Debug)]
pub enum SignInReply {
    Authorized,
    PasswordRequired { hint: Option<String> },
    InvalidCode,
    SignUpRequired,
    InvalidPassword,
    Other(String),
}

/// A login, step by step.
#[derive(Debug, Clone, Copy, PartialEq, Eq, Structural)]
pub struct AuthFlow {
    pub pending: Option<PendingAuth>,
}

impl AuthFlow {
    pub fn new() -> (flow: AuthFlow)
        ensures
            flow.pending is None,
    {
        AuthFlow { pending: None }
    }

    /// A login code was requested.
    pub fn start(&mut self)
        ensures
            final(self).pending == Some(PendingAuth::Login),
    {
        self.pending = Some(PendingAuth::Login);
    }

    /// A code can be submitted where one was requested. It is used up by that.
    pub fn take_code_step(&mut self) -> (outcome: Result<()>)
        ensures
            match outcome {
                Ok(_) => old(self).pending == Some(PendingAuth::Login) && final(self).pending is None,
                Err(error) => {
                    &&& old(self).pending != Some(PendingAuth::Login)
                    &&& *final(self) == *old(self)
                    &&& error is Authentication
                    &&& error.detail() == if old(self).pending is Some {
                        "password is required before another code can be submitted"@
                    } else {
                        "no pending authentication flow"@
                    }
                },
            },
    {
        match self.pending {
            Some(PendingAuth::Login) => {
                self.pending = None;
                Ok(())
            },
            Some(PendingAuth::Password) => Err(
                AppError::Authentication(
                    "password is required before another code can be submitted".to_string(),
                ),
            ),
            None => Err(AppError::Authentication("no pending authentication flow".to_string())),
        }
    }

    /// Goes on with what the service says to a code.
    pub fn on_code_reply(&mut self, reply: SignInReply) -> (outcome: Result<AuthStep>)
        ensures
            match reply {
                SignInReply::Authorized => {
                    &&& outcome matches Ok(AuthStep::Authorized)
                    &&& *final(self) == *old(self)
                },
                SignInReply::PasswordRequired { hint } => {
                    &&& outcome matches Ok(AuthStep::PasswordRequired { hint: given }) && given == hint
                    &&& final(self).pending == Some(PendingAuth::Password)
                },
                SignInReply::InvalidCode => {
                    &&& outcome matches Err(error) && error is Authentication && error.detail()
                        == "invalid Telegram login code"@
                    &&& *final(self) == *old(self)
                },
                SignInReply::SignUpRequired => {
                    &&& outcome matches Err(error) && error is Authentication && error.detail()
                        == "Telegram reports this account needs sign-up, which is unsupported here"@
                    &&& *final(self) == *old(self)
                },
                SignInReply::InvalidPassword => {
                    &&& outcome matches Err(error) && error is Authentication && error.detail()
                        == "Telegram rejected the code"@
                    &&& *final(self) == *old(self)
                },
                SignInReply::Other(message) => {
                    &&& outcome matches Err(error) && error is Telegram && error.detail() == message@
                    &&& *final(self) == *old(self)
                },
            },
    {
        match reply {
            SignInReply::Authorized => Ok(AuthStep::Authorized),
            SignInReply::PasswordRequired { hint } => {
                self.pending = Some(PendingAuth::Password);
                Ok(AuthStep::PasswordRequired { hint })
            },
            SignInReply::InvalidCode => Err(
                AppError::Authentication("invalid Telegram login code".to_string()),
            ),
            SignInReply::SignUpRequired => Err(sign_up_required()),
            SignInReply::InvalidPassword => Err(
                AppError::Authentication("Telegram rejected the code".to_string()),
            ),
            SignInReply::Other(message) => Err(AppError::Telegram(message)),
        }
    }

    /// A password can be submitted where one is required. It is used up by that.
    pub fn take_password_step(&mut self) -> (outcome: Result<()>)
        ensures
            match outcome {
                Ok(_) => old(self).pending == Some(PendingAuth::Password)
                    && final(self).pending is None,
                Err(error) => {
                    &&& old(self).pending != Some(PendingAuth::Password)
                    &&& *final(self) == *old(self)
                    &&& error is Authentication
                    &&& error.detail() == if old(self).pending is Some {
                        "a login code must be submitted before password"@
                    } else {
                        "no pending password step"@
                    }
                },
            },
    {
        match self.pending {
            Some(PendingAuth::Password) => {
                self.pending = None;
                Ok(())
            },
            Some(PendingAuth::Login) => Err(
                AppError::Authentication(
                    "a login code must be submitted before password".to_string(),
                ),
            ),
            None => Err(AppError::Authentication("no pending password step".to_string())),
        }
    }

    /// Goes on with what the service says to a password. A wrong one can be submitted again.
    pub fn on_password_reply(&mut self, reply: SignInReply) -> (outcome: Result<()>)
        ensures
            match reply {
                SignInReply::Authorized => outcome is Ok && *final(self) == *old(self),
                SignInReply::InvalidPassword => {
                    &&& outcome matches Err(error) && error is Authentication && error.detail()
                        == "invalid Telegram 2FA password"@
                    &&& final(self).pending == Some(PendingAuth::Password)
                },
                SignInReply::PasswordRequired { hint } => {
                    &&& outcome matches Err(error) && error is Authentication && error.detail()
                        == "Telegram still requires a 2FA password"@
                    &&& final(self).pending == Some(PendingAuth::Password)
                },
                SignInReply::InvalidCode => {
                    &&& outcome matches Err(error) && error is Authentication && error.detail()
                        == "Telegram rejected the password flow"@
                    &&& *final(self) == *old(self)
                },
                SignInReply::SignUpRequired => {
                    &&& outcome matches Err(error) && error is Authentication && error.detail()
                        == "Telegram reports this account needs sign-up, which is unsupported here"@
                    &&& *final(self) == *old(self)
                },
                SignInReply::Other(message) => {
                    &&& outcome matches Err(error) && error is Telegram && error.detail() == message@
                    &&& *final(self) == *old(self)
                },
            },
    {
        match reply {
            SignInReply::Authorized => Ok(()),
            SignInReply::InvalidPassword => {
                self.pending = Some(PendingAuth::Password);
                Err(AppError::Authentication("invalid Telegram 2FA password".to_string()))
            },
            SignInReply::PasswordRequired { hint: _ } => {
                self.pending = Some(PendingAuth::Password);
                Err(AppError::Authentication("Telegram still requires a 2FA password".to_string()))
            },
            SignInReply::InvalidCode => Err(
                AppError::Authentication("Telegram rejected the password flow".to_string()),
            ),
            SignInReply::SignUpRequired => Err(sign_up_required()),
            SignInReply::Other(message) => Err(AppError::Telegram(message)),
        }
    }
}

fn sign_up_required() -> (error: AppError)
    ensures
        error is Authentication,
        error.detail() == "Telegram reports this account needs sign-up, which is unsupported here"@,
{
    AppError::Authentication(
        "Telegram reports this account needs sign-up, which is unsupported here".to_string(),
    )
}

/// How long the service asks to wait, where an error is a flood wait: code 420, with the seconds as
/// its value.
pub fn flood_wait_seconds(code: i32, value: Option<u32>) -> (seconds: Option<i32>)
    ensures
        match seconds {
            Some(asked) => code == 420 && asked == (match value {
                Some(given) => given as i32,
                None => 0,
            }),
            None => code != 420,
        },
{
    if code == 420 {
        Some(
            match value {
                Some(given) => given as i32,
                None => 0,
            },
        )
    } else {
        None
    }
}

/// How a chat is asked for.
#[derive(Debug)]
pub enum ChatQuery {
    Username(String),
    Id(i64),
    Title(String),
}

/// What `url::Url::parse` and `domain` make of a text: nothing where it is no URL, else the domain
/// where there is one.
pub uninterp spec fn url_domain(value: Seq<char>) -> Option<Option<Seq<char>>>;

/// `url::Url::parse` of a text, and the `domain` of what it gives.
#[verifier::external_body]
fn domain_of(value: &str) -> (domain: Option<Option<String>>)
    ensures
        match domain {
            Some(inner) => url_domain(value@) == Some(text::opt_text(inner)),
            None => url_domain(value@) is None,
        },
{
    let parsed = url::Url::parse(value).ok()?;
    Some(parsed.domain().map(|domain| domain.to_string()))
}

/// Whether a query is written as a web address.
pub open spec fn is_web_address(query: Seq<char>) -> bool {
    text::starts_with(query, "http://"@) || text::starts_with(query, "https://"@)
}

/// What is wrong with a web address, from what was made of it: it is no URL, or an invite link.
pub open spec fn address_fault(parsed: Option<Option<Seq<char>>>, error: AppError) -> bool {
    match parsed {
        None => error is ChatResolution && error.detail() == "invalid invite or chat URL"@,
        Some(Some(domain)) => text::contains(domain, "t.me"@) && error is Unsupported
            && error.detail() == "invite links are not implemented in this v1 build"@,
        Some(None) => false,
    }
}

/// The content of what was made of a web address.
pub open spec fn parsed_address(parsed: Option<Option<String>>) -> Option<Option<Seq<char>>> {
    match parsed {
        Some(inner) => Some(text::opt_text(inner)),
        None => None,
    }
}

/// A web address has to be a URL, and cannot be an invite link.
pub fn check_chat_url(parsed: &Option<Option<String>>) -> (outcome: Result<()>)
    ensures
        match outcome {
            Ok(_) => parsed_address(*parsed) matches Some(domain) && (domain is Some
                ==> !text::contains(domain->0, "t.me"@)),
            Err(error) => address_fault(parsed_address(*parsed), error),
        },
{
    match parsed {
        None => Err(AppError::ChatResolution("invalid invite or chat URL".to_string())),
        Some(Some(domain)) => if text::has_part(domain.as_str(), "t.me") {
            Err(
                AppError::Unsupported(
                    "invite links are not implemented in this v1 build".to_string(),
                ),
            )
        } else {
            Ok(())
        },
        Some(None) => Ok(()),
    }
}

/// The dialog id that a query stands for.
pub open spec fn dialog_id(query: Seq<char>) -> Option<int> {
    number::parsed_within(text::trimmed(query), true, i64::MIN as int, i64::MAX as int)
}

/// How a query is to be understood: behind `@` stands a username, a number is an id, and anything
/// else is a title.
pub open spec fn query_means(query: Seq<char>, meant: ChatQuery) -> bool {
    match meant {
        ChatQuery::Username(name) => query.len() > 0 && query[0] == '@' && name@ == text::trimmed(
            text::stripped_start(query, '@'),
        ),
        ChatQuery::Id(id) => !(query.len() > 0 && query[0] == '@') && dialog_id(query) == Some(
            id as int,
        ),
        ChatQuery::Title(title) => !(query.len() > 0 && query[0] == '@') && dialog_id(query) is None
            && title@ == query,
    }
}

/// Finds out how a chat is asked for.
pub fn parse_chat_query(query: &str) -> (outcome: Result<ChatQuery>)
    ensures
        match outcome {
            Ok(meant) => {
                &&& query_means(query@, meant)
                &&& is_web_address(query@) ==> (url_domain(query@) matches Some(domain) && (domain is Some
                    ==> !text::contains(domain->0, "t.me"@)))
            },
            Err(error) => is_web_address(query@) && address_fault(url_domain(query@), error),
        },
{
    if text::has_prefix(query, "http://") || text::has_prefix(query, "https://") {
        let parsed = domain_of(query);
        check_chat_url(&parsed)?;
    }
    let chars = text::chars_of(query);
    if chars.len() > 0 && chars[0] == '@' {
        let name = without_leading(&chars, '@');
        let bare = text::text_of(&name);
        return Ok(ChatQuery::Username(text::trim(bare.as_str())));
    }
    let trimmed = text::trim(query);
    match number::parse_i64(trimmed.as_str()) {
        Some(id) => Ok(ChatQuery::Id(id)),
        None => Ok(ChatQuery::Title(query.to_string())),
    }
}

fn without_leading(chars: &[char], edge: char) -> (out: Vec<char>)
    ensures
        out@ == text::stripped_start(chars@, edge),
{
    let mut start: usize = 0;
    assert(chars@.skip(0) =~= chars@);
    while start < chars.len() && chars[start] == edge
        invariant
            start <= chars@.len(),
            text::stripped_start(chars@.skip(start as int), edge) == text::stripped_start(
                chars@,
                edge,
            ),
        decreases chars@.len() - start,
    {
        assert(chars@.skip(start as int).drop_first() =~= chars@.skip(start + 1));
        start += 1;
    }
    let out = text::slice_of(chars, start, chars.len());
    assert(out@ =~= chars@.skip(start as int));
    out
}

/// The error when no chat has a username.
pub fn username_not_found(username: &str) -> (error: AppError)
    ensures
        error is ChatResolution,
        error.detail() == "no chat found for @"@ + username@,
{
    AppError::ChatResolution(text::concat("no chat found for @", username))
}

/// The error when a chat was found that cannot be used.
pub fn peer_not_usable() -> (error: AppError)
    ensures
        error is ChatResolution,
        error.detail() == "resolved peer is not usable"@,
{
    AppError::ChatResolution("resolved peer is not usable".to_string())
}

/// Whether the chat at `at` is the first with this id.
pub open spec fn first_with_id<H>(chats: Seq<ChatSummary<H>>, id: i64, at: int) -> bool {
    &&& 0 <= at < chats.len()
    &&& chats[at].id == id
    &&& forall|j: int| 0 <= j < at ==> (#[trigger] chats[j]).id != id
}

/// The first chat with this id.
pub fn pick_by_id<H>(chats: Vec<ChatSummary<H>>, id: i64) -> (outcome: Result<ChatSummary<H>>)
    ensures
        match outcome {
            Ok(chat) => exists|at: int| #[trigger] first_with_id(chats@, id, at) && chat == chats@[at],
            Err(error) => {
                &&& forall|j: int| 0 <= j < chats@.len() ==> (#[trigger] chats@[j]).id != id
                &&& error is ChatResolution
                &&& error.detail() == "chat id "@ + number::int_text(id as int) + " not found"@
            },
        },
{
    let ghost all = chats@;
    let mut rest = chats;
    let mut i: usize = 0;
    while i < rest.len()
        invariant
            i <= rest@.len(),
            rest@ == all,
            all == chats@,
            forall|j: int| 0 <= j < i ==> (#[trigger] all[j]).id != id,
        decreases rest@.len() - i,
    {
        if rest[i].id == id {
            let chat = rest.swap_remove(i);
            assert(first_with_id(all, id, i as int) && chat == all[i as int]);
            return Ok(chat);
        }
        i += 1;
    }
    let mut detail = "chat id ".to_string();
    let digits = number::signed_decimal(id);
    detail.append(digits.as_str());
    detail.append(" not found");
    Err(AppError::ChatResolution(detail))
}

/// Whether the chat at `at` is the only one with this title.
pub open spec fn only_with_title<H>(chats: Seq<ChatSummary<H>>, title: Seq<char>, at: int) -> bool {
    &&& 0 <= at < chats.len()
    &&& chats[at].title@ == title
    &&& forall|j: int| 0 <= j < chats.len() && j != at ==> (#[trigger] chats[j]).title@ != title
}

/// The only chat with this title.
pub fn pick_by_title<H>(chats: Vec<ChatSummary<H>>, query: &str) -> (outcome: Result<ChatSummary<H>>)
    ensures
        match outcome {
            Ok(chat) => exists|at: int| #[trigger]
                only_with_title(chats@, query@, at) && chat == chats@[at],
            Err(error) => {
                &&& error is ChatResolution
                &&& forall|at: int| !#[trigger] only_with_title(chats@, query@, at)
                &&& error.detail() == if forall|j: int|
                    0 <= j < chats@.len() ==> (#[trigger] chats@[j]).title@ != query@ {
                    "no chat with exact title `"@ + query@ + "` found"@
                } else {
                    "multiple chats share the title `"@ + query@ + "`; use @username or numeric id"@
                }
            },
        },
{
    let ghost all = chats@;
    let mut rest = chats;
    let mut found: Option<usize> = None;
    let mut i: usize = 0;
    while i < rest.len()
        invariant
            i <= rest@.len(),
            rest@ == all,
            all == chats@,
            match found {
                Some(at) => {
                    &&& at < i
                    &&& all[at as int].title@ == query@
                    &&& forall|j: int| 0 <= j < i && j != at ==> (#[trigger] all[j]).title@ != query@
                },
                None => forall|j: int| 0 <= j < i ==> (#[trigger] all[j]).title@ != query@,
            },
        decreases rest@.len() - i,
    {
        if text::same_text(rest[i].title.as_str(), query) {
            if let Some(at) = found {
                assert forall|k: int| !#[trigger] only_with_title(all, query@, k) by {
                    if only_with_title(all, query@, k) {
                        assert(all[at as int].title@ == query@ && all[i as int].title@ == query@);
                    }
                }
                let mut detail = "multiple chats share the title `".to_string();
                detail.append(query);
                detail.append("`; use @username or numeric id");
                return Err(AppError::ChatResolution(detail));
            }
            found = Some(i);
        }
        i += 1;
    }
    match found {
        Some(at) => {
            let chat = rest.swap_remove(at);
            assert(only_with_title(all, query@, at as int) && chat == all[at as int]);
            Ok(chat)
        },
        None => {
            let mut detail = "no chat with exact title `".to_string();
            detail.append(query);
            detail.append("` found");
            Err(AppError::ChatResolution(detail))
        },
    }
}

/// The order of chats: by title.
pub open spec fn title_order<H>() -> spec_fn(ChatSummary<H>, ChatSummary<H>) -> bool {
    |a: ChatSummary<H>, b: ChatSummary<H>| order::text_before(a.title@, b.title@)
}

/// The chats ordered by title; chats with one title keep their order.
pub fn sort_chats<H>(chats: Vec<ChatSummary<H>>) -> (sorted: Vec<ChatSummary<H>>)
    ensures
        sorted@ == order::ordered(chats@, title_order()),
        order::in_order(sorted@, title_order()),
{
    let ghost before = title_order::<H>();
    proof {
        assert forall|a: ChatSummary<H>, b: ChatSummary<H>| #[trigger] before(a, b) implies !before(
            b,
            a,
        ) by {
            order::text_order_laws(a.title@, b.title@, a.title@);
        }
        assert forall|a: ChatSummary<H>, b: ChatSummary<H>, c: ChatSummary<H>| #[trigger]
            before(a, b) && #[trigger] before(b, c) implies before(a, c) by {
            order::text_order_laws(a.title@, b.title@, c.title@);
        }
    }
    let comes_first = |a: &ChatSummary<H>, b: &ChatSummary<H>| -> (yes: bool)
        ensures
            yes == before(*a, *b),
        { order::comes_before(a.title.as_str(), b.title.as_str()) };
    order::sort_by(chats, comes_first, Ghost(before))
}

/// Whether a request is made before the chat at this place of the list: once for each page.
pub fn starts_dialog_page(index: usize) -> (yes: bool)
    ensures
        yes == (index as int % DIALOG_PAGE_SIZE as int == 0),
{
    index % DIALOG_PAGE_SIZE == 0
}

/// What a peer of the service is.
#[derive(Debug, Clone, Copy, PartialEq, Eq, Structural)]
pub enum PeerKind {
    User,
    Group { megagroup: bool },
    Channel,
}

/// The kind of chat that a peer is.
pub fn peer_chat_kind(peer: PeerKind) -> (kind: ChatKind)
    ensures
        kind == match peer {
            PeerKind::User => ChatKind::User,
            PeerKind::Group { megagroup } => if megagroup {
                ChatKind::Supergroup
            } else {
                ChatKind::Group
            },
            PeerKind::Channel => ChatKind::Channel,
        },
{
    match peer {
        PeerKind::User => ChatKind::User,
        PeerKind::Group { megagroup } => if megagroup {
            ChatKind::Supergroup
        } else {
            ChatKind::Group
        },
        PeerKind::Channel => ChatKind::Channel,
    }
}

/// The description of a photo of a message.
pub fn describe_photo<H>(photo: &Photo, file_size_bytes: Option<i64>, handle: H) -> (media:
    MediaDescriptor<H>)
    ensures
        media.kind == crate::types::MediaKind::Photo,
        media.telegram_media_key@ == "photo:"@ + number::int_text(photo.id as int),
        media.mime_type is Some,
        media.mime_type->0@ == "image/jpeg"@,
        media.file_size_bytes == file_size_bytes,
        media.original_name is None,
        media.handle == handle,
{
    MediaDescriptor {
        kind: media::classify_photo(photo),
        telegram_media_key: media::stable_media_key_for_photo(photo),
        mime_type: Some("image/jpeg".to_string()),
        file_size_bytes,
        original_name: None,
        handle,
    }
}

/// The description of a document of a message; a sticker has none.
pub fn describe_document<H>(
    document: &Document,
    file_size_bytes: Option<i64>,
    original_name: Option<String>,
    handle: H,
) -> (found: Option<MediaDescriptor<H>>)
    ensures
        match found {
            Some(media) => {
                &&& media::document_kind(
                    text::opt_text(document.mime_type),
                    media::hints_of(document.attributes@),
                ) == Some(media.kind)
                &&& media.telegram_media_key@ == "document:"@ + number::int_text(document.id as int)
                &&& media.mime_type == document.mime_type
                &&& media.file_size_bytes == file_size_bytes
                &&& media.original_name == original_name
                &&& media.handle == handle
            },
            None => media::document_kind(
                text::opt_text(document.mime_type),
                media::hints_of(document.attributes@),
            ) is None,
        },
{
    match media::classify_document(document) {
        Some(kind) => Some(
            MediaDescriptor {
                kind,
                telegram_media_key: media::stable_media_key_for_document(document),
                mime_type: text::copy_opt(&document.mime_type),
                file_size_bytes,
                original_name,
                handle,
            },
        ),
        None => None,
    }
}

/// Whether `error` says why a download of so many bytes cannot go on: its last piece is not whole, or
/// there are too many pieces.
pub open spec fn cannot_resume(bytes_written: u64, error: AppError) -> bool {
    &&& error is Runtime
    &&& if bytes_written as int % DEFAULT_DOWNLOAD_CHUNK_SIZE_BYTES as int != 0 {
        error.detail() == "download hit flood wait after "@ + number::nat_text(bytes_written as nat)
            + " bytes; cannot resume safely from a partial chunk"@
    } else {
        &&& bytes_written as int / DEFAULT_DOWNLOAD_CHUNK_SIZE_BYTES as int > i32::MAX
        &&& error.detail() == "download offset "@ + number::nat_text(bytes_written as nat)
            + " bytes is too large to resume"@
    }
}

/// How many whole pieces of a file were read, so that reading can go on behind them.
pub fn completed_chunk_count(bytes_written: u64) -> (outcome: Result<i32>)
    ensures
        match outcome {
            Ok(count) => count * DEFAULT_DOWNLOAD_CHUNK_SIZE_BYTES == bytes_written,
            Err(error) => cannot_resume(bytes_written, error),
        },
{
    let digits = number::decimal(bytes_written as u128);
    if bytes_written % DEFAULT_DOWNLOAD_CHUNK_SIZE_BYTES != 0 {
        let mut detail = "download hit flood wait after ".to_string();
        detail.append(digits.as_str());
        detail.append(" bytes; cannot resume safely from a partial chunk");
        return Err(AppError::Runtime(detail));
    }
    let count: u64 = bytes_written / DEFAULT_DOWNLOAD_CHUNK_SIZE_BYTES;
    if count > i32::MAX as u64 {
        let mut detail = "download offset ".to_string();
        detail.append(digits.as_str());
        detail.append(" bytes is too large to resume");
        return Err(AppError::Runtime(detail));
    }
    Ok(count as i32)
}

/// How far the download of a file has got.
#[derive(Debug, Clone, Copy, PartialEq, Eq, Structural)]
pub struct DownloadProgress {
    pub bytes_written: u64,
    pub attempt: u32,
}

impl DownloadProgress {
    pub fn new() -> (progress: DownloadProgress)
        ensures
            progress.bytes_written == 0,
            progress.attempt == 0,
    {
        DownloadProgress { bytes_written: 0, attempt: 0 }
    }

    /// Takes in a piece of the file: the flood waits before it no longer count.
    pub fn on_chunk(&mut self, length: usize)
        ensures
            final(self).attempt == 0,
            final(self).bytes_written == number::capped_u64(
                old(self).bytes_written + length,
            ),
    {
        self.attempt = 0;
        self.bytes_written = self.bytes_written.saturating_add(length as u64);
    }

    /// Goes on after a flood wait that was sat out: says how many pieces to skip.
    pub fn resume_after_flood_wait(&mut self) -> (outcome: Result<i32>)
        ensures
            final(self).bytes_written == old(self).bytes_written,
            match outcome {
                Ok(count) => {
                    &&& count * DEFAULT_DOWNLOAD_CHUNK_SIZE_BYTES == old(self).bytes_written
                    &&& final(self).attempt == if old(self).attempt < u32::MAX {
                        old(self).attempt + 1
                    } else {
                        u32::MAX as int
                    }
                },
                Err(error) => {
                    &&& final(self).attempt == old(self).attempt
                    &&& cannot_resume(old(self).bytes_written, error)
                },
            },
    {
        match completed_chunk_count(self.bytes_written) {
            Ok(count) => {
                self.attempt = self.attempt.saturating_add(1);
                Ok(count)
            },
            Err(error) => Err(error),
        }
    }
}

/// The error of a download that gets no data.
pub fn download_stalled(seconds: u64) -> (error: AppError)
    ensures
        error is Runtime,
        error.detail() == "download stalled for "@ + number::nat_text(seconds as nat) + "s"@,
{
    let mut detail = "download stalled for ".to_string();
    let digits = number::decimal(seconds as u128);
    detail.append(digits.as_str());
    detail.append("s");
    AppError::Runtime(detail)
}

/// A query has one meaning: what starts with `@` is a user name, any other number a chat identifier, and
/// everything else a title.
pub proof fn queries_have_one_meaning(query: Seq<char>, meant: ChatQuery, other: ChatQuery)
    requires
        query_means(query, meant),
        query_means(query, other),
    ensures
        meant is Username <==> query.len() > 0 && query[0] == '@',
        meant is Username <==> other is Username,
        meant is Id <==> other is Id,
        meant is Title <==> other is Title,
        meant matches ChatQuery::Id(id) ==> other matches ChatQuery::Id(same) && id == same,
        meant matches ChatQuery::Title(title) ==> title@ == query,
        meant matches ChatQuery::Username(name) ==> other matches ChatQuery::Username(same) && name@
            == same@,
{
}

/// A number means the chat with that identifier, whatever white space stands around it.
pub proof fn numbers_mean_identifiers(id: i64, query: Seq<char>)
    requires
        text::trimmed(query) == number::int_text(id as int),
    ensures
        dialog_id(query) == Some(id as int),
{
    number::signed_decimal_reads_back(id as int);
}

/// A download goes on behind whole pieces only: it can go on exactly if what was read is made up of
/// whole pieces, and not of too many.
pub proof fn only_whole_pieces_are_kept(bytes_written: u64, error: AppError)
    requires
        cannot_resume(bytes_written, error),
    ensures
        forall|count: int|
            0 <= count <= i32::MAX ==> #[trigger] (count * 524288) != bytes_written as int,
{
    assert forall|count: int| 0 <= count <= i32::MAX implies #[trigger] (count * 524288)
        != bytes_written as int by {
        if count * 524288 == bytes_written as int {
            assert(bytes_written as int % 524288 == 0);
            assert(bytes_written as int / 524288 == count);
        }
    }
}

} // verus!
