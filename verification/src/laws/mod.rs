//! What holds of the library as a whole: of addresses and requests, of listings and of the index, and
//! of whole tasks, whatever the replies are, or in a world where every action succeeds.
pub mod bookmark_runs;
pub mod bookmarks;
pub mod books;
pub mod client;
pub mod cloud_book_runs;
pub mod cloud_books;
pub mod config;
pub mod deletion;
pub mod deletion_runs;
pub mod dispatch;
pub mod errands;
pub mod export_runs;
pub mod files;
pub mod highlight_runs;
pub mod highlights;
pub mod import_runs;
pub mod index;
pub mod index_runs;
pub mod library;
pub mod listing;
pub mod marks;
pub mod outcomes;
pub mod progress;
pub mod progress_runs;
pub mod pulled;
pub mod push;
pub mod pushed;
pub mod requests;
pub mod single;
pub mod spread;
pub mod synced;
pub mod texts;
pub mod trace;
