//! What the commands decide and say.

pub mod api;
pub mod batch;
pub mod chats;
pub mod doctor;
pub mod export;
pub mod profiles;
pub mod recover;
pub mod runs;
pub mod verify;
