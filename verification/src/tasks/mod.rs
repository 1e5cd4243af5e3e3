//! The tasks of synchronisation. Each is a machine: it asks for an action, is told what came of
//! it, and goes on from there.
pub mod bookmarks;
pub mod cloud_books;
pub mod config;
pub mod export;
pub mod files;
pub mod highlights;
pub mod import;
pub mod library;
pub mod progress;
pub mod pull;
pub mod push;
pub mod record;
pub mod single;
