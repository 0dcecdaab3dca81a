//! Verified core of `tgbacky`, a local backup tool for Telegram media.

pub mod text;
pub mod naming;
pub mod number;
pub mod binary64;
pub mod types;
pub mod date;
pub mod error;
pub mod environment;
pub mod path;
pub mod secrets;
pub mod config;
pub mod hashing;
pub mod media;
pub mod fsutil;
pub mod report;
pub mod storage;
pub mod checkpoints;
pub mod export;
pub mod order;
pub mod pacing;
pub mod recovery;
pub mod telegram;
pub mod cli;
pub mod onboarding;
pub mod commands;
