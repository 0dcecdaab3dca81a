//! The error type of the library, with its messages and exit codes.

use vstd::prelude::*;

use crate::number;
use crate::text;

verus! {

/// What can go wrong. Errors of the database, the file system, the network client and the JSON
/// encoder are carried as their text.
#[derive(Debug)]
pub enum AppError {
    Config(String),
    InvalidArgument(String),
    Authentication(String),
    ChatResolution(String),
    Unsupported(String),
    Session(String),
    Database(String),
    Filesystem(String),
    Runtime(String),
    Interrupted(String),
    Telegram(String),
    FloodWaitExceeded { operation: String, seconds: i32 },
    Serialization(String),
}

pub type Result<T> = std::result::Result<T, AppError>;

impl AppError {
    /// The text that the error carries; for a flood wait, the operation.
    pub open spec fn detail(self) -> Seq<char> {
        match self {
            AppError::Config(detail) => detail@,
            AppError::InvalidArgument(detail) => detail@,
            AppError::Authentication(detail) => detail@,
            AppError::ChatResolution(detail) => detail@,
            AppError::Unsupported(detail) => detail@,
            AppError::Session(detail) => detail@,
            AppError::Database(detail) => detail@,
            AppError::Filesystem(detail) => detail@,
            AppError::Runtime(detail) => detail@,
            AppError::Interrupted(detail) => detail@,
            AppError::Telegram(detail) => detail@,
            AppError::FloodWaitExceeded { operation, seconds } => operation@,
            AppError::Serialization(detail) => detail@,
        }
    }

    /// The message that is shown for the error.
    pub open spec fn text(self) -> Seq<char> {
        match self {
            AppError::Config(detail) => "invalid configuration: "@ + detail@,
            AppError::InvalidArgument(detail) => "invalid arguments: "@ + detail@,
            AppError::Authentication(detail) => "authentication failed: "@ + detail@,
            AppError::ChatResolution(detail) => "chat resolution failed: "@ + detail@,
            AppError::Unsupported(detail) => "unsupported input: "@ + detail@,
            AppError::Session(detail) => "telegram session storage error: "@ + detail@,
            AppError::Database(detail) => "database error: "@ + detail@,
            AppError::Filesystem(detail) => "filesystem error: "@ + detail@,
            AppError::Runtime(detail) => "runtime error: "@ + detail@,
            AppError::Interrupted(detail) => detail@,
            AppError::Telegram(detail) => "telegram request failed: "@ + detail@,
            AppError::FloodWaitExceeded { operation, seconds } => "telegram asked to wait "@
                + number::int_text(seconds as int) + "s during "@ + operation@
                + "; exceeds configured auto-sleep threshold"@,
            AppError::Serialization(detail) => "serialization error: "@ + detail@,
        }
    }

    /// The exit code that the error stands for.
    pub open spec fn code(self) -> int {
        match self {
            AppError::InvalidArgument(_) | AppError::Config(_) | AppError::Unsupported(_) => 2,
            AppError::Authentication(_) => 3,
            AppError::ChatResolution(_) => 4,
            AppError::Database(_) => 5,
            AppError::Filesystem(_) => 6,
            AppError::Interrupted(_) => 130,
            _ => 1,
        }
    }

    pub fn exit_code(&self) -> (code: u8)
        ensures
            code == self.code(),
            code > 0,
    {
        match self {
            AppError::InvalidArgument(_) | AppError::Config(_) | AppError::Unsupported(_) => 2,
            AppError::Session(_) => 1,
            AppError::Authentication(_) => 3,
            AppError::ChatResolution(_) => 4,
            AppError::Database(_) => 5,
            AppError::Filesystem(_) => 6,
            AppError::Interrupted(_) => 130,
            AppError::Runtime(_) | AppError::Telegram(_) | AppError::FloodWaitExceeded { .. }
            | AppError::Serialization(_) => 1,
        }
    }

    /// The message that is shown for the error.
    pub fn message(&self) -> (out: String)
        ensures
            out@ == self.text(),
    {
        match self {
            AppError::Config(detail) => text::concat("invalid configuration: ", detail.as_str()),
            AppError::InvalidArgument(detail) => text::concat("invalid arguments: ", detail.as_str()),
            AppError::Authentication(detail) => text::concat(
                "authentication failed: ",
                detail.as_str(),
            ),
            AppError::ChatResolution(detail) => text::concat(
                "chat resolution failed: ",
                detail.as_str(),
            ),
            AppError::Unsupported(detail) => text::concat("unsupported input: ", detail.as_str()),
            AppError::Session(detail) => text::concat(
                "telegram session storage error: ",
                detail.as_str(),
            ),
            AppError::Database(detail) => text::concat("database error: ", detail.as_str()),
            AppError::Filesystem(detail) => text::concat("filesystem error: ", detail.as_str()),
            AppError::Runtime(detail) => text::concat("runtime error: ", detail.as_str()),
            AppError::Interrupted(detail) => detail.clone(),
            AppError::Telegram(detail) => text::concat("telegram request failed: ", detail.as_str()),
            AppError::FloodWaitExceeded { operation, seconds } => {
                let count = number::signed_decimal(*seconds as i64);
                let mut out = "telegram asked to wait ".to_string();
                out.append(count.as_str());
                out.append("s during ");
                out.append(operation.as_str());
                out.append("; exceeds configured auto-sleep threshold");
                out
            },
            AppError::Serialization(detail) => text::concat("serialization error: ", detail.as_str()),
        }
    }
}

/// Each error is shown with what it carries, and none ends the program as a success. Wrong input, a
/// failed sign-in, an unknown chat, the database, the file system and an interruption are told apart by
/// their codes.
pub proof fn errors_are_told(error: AppError)
    ensures
        error.code() != 0,
        error.code() == 2 <==> error is InvalidArgument || error is Config || error is Unsupported,
        error.code() == 3 <==> error is Authentication,
        error.code() == 4 <==> error is ChatResolution,
        error.code() == 5 <==> error is Database,
        error.code() == 6 <==> error is Filesystem,
        error.code() == 130 <==> error is Interrupted,
        !(error is FloodWaitExceeded) ==> error.text().len() >= error.detail().len()
            && error.text().skip(error.text().len() - error.detail().len()) == error.detail(),
{
    if !(error is FloodWaitExceeded) {
        assert(error.text().skip(error.text().len() - error.detail().len()) =~= error.detail());
    }
}

} // verus!
