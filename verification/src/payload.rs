//! What is stored on the server: book contents, progress, marks, and the sync index.
use vstd::prelude::*;

use crate::models::{Bookmark, BookmarkView, Highlight, HighlightView};

verus! {

/// A chapter as it is stored on the server.
#[derive(Debug)]
pub struct SyncChapterPayload {
    pub chapter_index: i32,
    pub title: String,
    pub paragraphs: Vec<String>,
}

/// What a `SyncChapterPayload` holds.
pub struct SyncChapterPayloadView {
    pub chapter_index: i32,
    pub title: Seq<char>,
    pub paragraphs: Seq<Seq<char>>,
}

impl DeepView for SyncChapterPayload {
    type V = SyncChapterPayloadView;

    open spec fn deep_view(&self) -> SyncChapterPayloadView {
        SyncChapterPayloadView {
            chapter_index: self.chapter_index,
            title: self.title@,
            paragraphs: self.paragraphs.deep_view(),
        }
    }
}

/// A book with its text as it is stored on the server.
#[derive(Debug)]
pub struct SyncBookPayload {
    pub uuid: String,
    pub title: String,
    pub author: String,
    pub total_chapters: i32,
    pub cover_extension: Option<String>,
    pub date_added: String,
    pub chapters: Vec<SyncChapterPayload>,
}

/// What a `SyncBookPayload` holds.
pub struct SyncBookPayloadView {
    pub uuid: Seq<char>,
    pub title: Seq<char>,
    pub author: Seq<char>,
    pub total_chapters: i32,
    pub cover_extension: Option<Seq<char>>,
    pub date_added: Seq<char>,
    pub chapters: Seq<SyncChapterPayloadView>,
}

impl DeepView for SyncBookPayload {
    type V = SyncBookPayloadView;

    open spec fn deep_view(&self) -> SyncBookPayloadView {
        SyncBookPayloadView {
            uuid: self.uuid@,
            title: self.title@,
            author: self.author@,
            total_chapters: self.total_chapters,
            cover_extension: self.cover_extension.deep_view(),
            date_added: self.date_added@,
            chapters: self.chapters.deep_view(),
        }
    }
}

/// How far a book has been read, as it is stored on the server.
#[derive(Debug)]
pub struct SyncProgressPayload {
    pub book_uuid: String,
    pub chapter_index: i32,
    pub paragraph_index: i32,
    pub character_offset: i32,
    pub last_read: i64,
    pub device_id: Option<String>,
    pub device_name: Option<String>,
}

/// What a `SyncProgressPayload` holds.
pub struct SyncProgressPayloadView {
    pub book_uuid: Seq<char>,
    pub chapter_index: i32,
    pub paragraph_index: i32,
    pub character_offset: i32,
    pub last_read: i64,
    pub device_id: Option<Seq<char>>,
    pub device_name: Option<Seq<char>>,
}

impl DeepView for SyncProgressPayload {
    type V = SyncProgressPayloadView;

    open spec fn deep_view(&self) -> SyncProgressPayloadView {
        SyncProgressPayloadView {
            book_uuid: self.book_uuid@,
            chapter_index: self.chapter_index,
            paragraph_index: self.paragraph_index,
            character_offset: self.character_offset,
            last_read: self.last_read,
            device_id: self.device_id.deep_view(),
            device_name: self.device_name.deep_view(),
        }
    }
}

/// The bookmarks of a book as they are stored on the server.
#[derive(Debug)]
pub struct BookBookmarksFile {
    pub book_uuid: String,
    pub updated_at: i64,
    pub bookmarks: Vec<Bookmark>,
}

/// What a `BookBookmarksFile` holds.
pub struct BookBookmarksFileView {
    pub book_uuid: Seq<char>,
    pub updated_at: i64,
    pub bookmarks: Seq<BookmarkView>,
}

impl DeepView for BookBookmarksFile {
    type V = BookBookmarksFileView;

    open spec fn deep_view(&self) -> BookBookmarksFileView {
        BookBookmarksFileView {
            book_uuid: self.book_uuid@,
            updated_at: self.updated_at,
            bookmarks: self.bookmarks.deep_view(),
        }
    }
}

/// The highlights of a book as they are stored on the server.
#[derive(Debug)]
pub struct BookHighlightsFile {
    pub book_uuid: String,
    pub updated_at: i64,
    pub highlights: Vec<Highlight>,
}

/// What a `BookHighlightsFile` holds.
pub struct BookHighlightsFileView {
    pub book_uuid: Seq<char>,
    pub updated_at: i64,
    pub highlights: Seq<HighlightView>,
}

impl DeepView for BookHighlightsFile {
    type V = BookHighlightsFileView;

    open spec fn deep_view(&self) -> BookHighlightsFileView {
        BookHighlightsFileView {
            book_uuid: self.book_uuid@,
            updated_at: self.updated_at,
            highlights: self.highlights.deep_view(),
        }
    }
}

/// An entry of the sync index.
#[derive(Debug)]
pub struct SyncDataBookItem {
    pub uuid: String,
    pub title: String,
    pub author: String,
    pub total_chapters: i32,
    pub date_added: String,
    pub cover_extension: Option<String>,
    pub has_cover: bool,
}

/// What a `SyncDataBookItem` holds.
pub struct SyncDataBookItemView {
    pub uuid: Seq<char>,
    pub title: Seq<char>,
    pub author: Seq<char>,
    pub total_chapters: i32,
    pub date_added: Seq<char>,
    pub cover_extension: Option<Seq<char>>,
    pub has_cover: bool,
}

impl DeepView for SyncDataBookItem {
    type V = SyncDataBookItemView;

    open spec fn deep_view(&self) -> SyncDataBookItemView {
        SyncDataBookItemView {
            uuid: self.uuid@,
            title: self.title@,
            author: self.author@,
            total_chapters: self.total_chapters,
            date_added: self.date_added@,
            cover_extension: self.cover_extension.deep_view(),
            has_cover: self.has_cover,
        }
    }
}

/// The sync index: the books that the server holds, and those that were deleted from it.
#[derive(Debug)]
pub struct SyncDataFile {
    pub version: i32,
    pub last_sync_time: String,
    pub books: Vec<SyncDataBookItem>,
    pub deleted: Vec<SyncDeletedItem>,
}

/// What a `SyncDataFile` holds.
pub struct SyncDataFileView {
    pub version: i32,
    pub last_sync_time: Seq<char>,
    pub books: Seq<SyncDataBookItemView>,
    pub deleted: Seq<SyncDeletedItemView>,
}

impl DeepView for SyncDataFile {
    type V = SyncDataFileView;

    open spec fn deep_view(&self) -> SyncDataFileView {
        SyncDataFileView {
            version: self.version,
            last_sync_time: self.last_sync_time@,
            books: self.books.deep_view(),
            deleted: self.deleted.deep_view(),
        }
    }
}

/// A book that was deleted from the server. Older indexes hold the bare identifier.
#[derive(Debug)]
pub enum SyncDeletedItem {
    Simple(String),
    Detailed { uuid: String, deleted_at: String },
}

/// What a `SyncDeletedItem` holds.
pub enum SyncDeletedItemView {
    Simple(Seq<char>),
    Detailed { uuid: Seq<char>, deleted_at: Seq<char> },
}

impl DeepView for SyncDeletedItem {
    type V = SyncDeletedItemView;

    open spec fn deep_view(&self) -> SyncDeletedItemView {
        match self {
            SyncDeletedItem::Simple(uuid) => SyncDeletedItemView::Simple(uuid@),
            SyncDeletedItem::Detailed { uuid, deleted_at } => SyncDeletedItemView::Detailed {
                uuid: uuid@,
                deleted_at: deleted_at@,
            },
        }
    }
}

impl SyncDeletedItemView {
    /// The book that was deleted.
    pub open spec fn uuid(self) -> Seq<char> {
        match self {
            SyncDeletedItemView::Simple(uuid) => uuid,
            SyncDeletedItemView::Detailed { uuid, .. } => uuid,
        }
    }
}

impl SyncDeletedItem {
    /// The book that was deleted.
    pub fn uuid(&self) -> (r: &str)
        ensures
            r@ == self.deep_view().uuid(),
    {
        match self {
            SyncDeletedItem::Simple(uuid) => uuid.as_str(),
            SyncDeletedItem::Detailed { uuid, .. } => uuid.as_str(),
        }
    }
}

} // verus!
