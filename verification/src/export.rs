//! Exports: what is in scope, what is downloaded, and how far the history has been read.

pub mod history;
pub mod laws;
pub mod plan;
pub mod processor;
pub mod progress;
pub mod scope;
pub mod session;
pub mod state;
pub mod workers;
