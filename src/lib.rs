//! Decisions of a small HTTP file-storage service: what each route answers
//! given what the file system reported, and how failures become responses.

pub mod reply;
pub mod handlers;
pub mod listing;
pub mod rejection;
pub mod store;
pub mod text;
