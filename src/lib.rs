//! Decisions of a resumable, concurrency-bounded mirror of a creator's files
//! published on a paginated content-hosting API.

pub mod text;
pub mod descriptor;
pub mod context;
pub mod listing;
pub mod transfer;
pub mod schedule;
pub mod errlog;
