//! The records of the reading app that synchronisation handles.
use vstd::prelude::*;

verus! {

/// The settings that synchronisation reads and writes.
#[derive(Debug)]
pub struct Settings {
    /// The address of the server.
    pub web_dav_url: String,
    /// The account on it.
    pub web_dav_username: String,
    /// Whether synchronisation is switched on.
    pub web_dav_enabled: bool,
    /// When it last went through, in milliseconds since the Unix epoch.
    pub web_dav_last_sync: Option<i64>,
    /// All the other settings, as this device writes them down. They are handed back as they came.
    pub rest: String,
}

/// What a `Settings` holds.
pub struct SettingsView {
    pub web_dav_url: Seq<char>,
    pub web_dav_username: Seq<char>,
    pub web_dav_enabled: bool,
    pub web_dav_last_sync: Option<i64>,
    pub rest: Seq<char>,
}

impl DeepView for Settings {
    type V = SettingsView;

    open spec fn deep_view(&self) -> SettingsView {
        SettingsView {
            web_dav_url: self.web_dav_url@,
            web_dav_username: self.web_dav_username@,
            web_dav_enabled: self.web_dav_enabled,
            web_dav_last_sync: self.web_dav_last_sync,
            rest: self.rest@,
        }
    }
}

/// A book in the local library.
#[derive(Debug)]
pub struct Book {
    pub id: Option<i64>,
    pub uuid: String,
    pub title: String,
    pub author: String,
    pub cover_path: Option<String>,
    pub total_chapters: i32,
    pub date_added: i64,
    pub status: String,
    pub tags: Vec<String>,
}

/// What a `Book` holds.
pub struct BookView {
    pub id: Option<i64>,
    pub uuid: Seq<char>,
    pub title: Seq<char>,
    pub author: Seq<char>,
    pub cover_path: Option<Seq<char>>,
    pub total_chapters: i32,
    pub date_added: i64,
    pub status: Seq<char>,
    pub tags: Seq<Seq<char>>,
}

impl DeepView for Book {
    type V = BookView;

    open spec fn deep_view(&self) -> BookView {
        BookView {
            id: self.id,
            uuid: self.uuid@,
            title: self.title@,
            author: self.author@,
            cover_path: self.cover_path.deep_view(),
            total_chapters: self.total_chapters,
            date_added: self.date_added,
            status: self.status@,
            tags: self.tags.deep_view(),
        }
    }
}

impl Clone for Book {
    fn clone(&self) -> (r: Book)
        ensures
            r.deep_view() == self.deep_view(),
    {
        let r = Book {
            id: self.id,
            uuid: self.uuid.clone(),
            title: self.title.clone(),
            author: self.author.clone(),
            cover_path: self.cover_path.clone(),
            total_chapters: self.total_chapters,
            date_added: self.date_added,
            status: self.status.clone(),
            tags: self.tags.clone(),
        };
        assert(r.tags.deep_view() =~= self.tags.deep_view());
        r
    }
}

/// A chapter of a book.
#[derive(Debug)]
pub struct Chapter {
    pub id: Option<i64>,
    pub book_uuid: String,
    pub chapter_index: i32,
    pub title: String,
    pub paragraphs: Vec<String>,
}

/// What a `Chapter` holds.
pub struct ChapterView {
    pub id: Option<i64>,
    pub book_uuid: Seq<char>,
    pub chapter_index: i32,
    pub title: Seq<char>,
    pub paragraphs: Seq<Seq<char>>,
}

impl DeepView for Chapter {
    type V = ChapterView;

    open spec fn deep_view(&self) -> ChapterView {
        ChapterView {
            id: self.id,
            book_uuid: self.book_uuid@,
            chapter_index: self.chapter_index,
            title: self.title@,
            paragraphs: self.paragraphs.deep_view(),
        }
    }
}

/// How far a book has been read on this device.
#[derive(Debug)]
pub struct ReadingProgress {
    pub id: Option<i64>,
    pub book_uuid: String,
    pub current_chapter_index: i32,
    pub current_paragraph_index: i32,
    pub current_character_offset: i32,
    pub last_read: i64,
}

/// What a `ReadingProgress` holds.
pub struct ReadingProgressView {
    pub id: Option<i64>,
    pub book_uuid: Seq<char>,
    pub current_chapter_index: i32,
    pub current_paragraph_index: i32,
    pub current_character_offset: i32,
    pub last_read: i64,
}

impl DeepView for ReadingProgress {
    type V = ReadingProgressView;

    open spec fn deep_view(&self) -> ReadingProgressView {
        ReadingProgressView {
            id: self.id,
            book_uuid: self.book_uuid@,
            current_chapter_index: self.current_chapter_index,
            current_paragraph_index: self.current_paragraph_index,
            current_character_offset: self.current_character_offset,
            last_read: self.last_read,
        }
    }
}

/// A marked paragraph.
#[derive(Debug)]
pub struct Bookmark {
    pub id: Option<i64>,
    pub book_uuid: String,
    pub chapter_index: i32,
    pub paragraph_index: i32,
    pub content: String,
    pub date_added: i64,
}

/// What a `Bookmark` holds.
pub struct BookmarkView {
    pub id: Option<i64>,
    pub book_uuid: Seq<char>,
    pub chapter_index: i32,
    pub paragraph_index: i32,
    pub content: Seq<char>,
    pub date_added: i64,
}

impl DeepView for Bookmark {
    type V = BookmarkView;

    open spec fn deep_view(&self) -> BookmarkView {
        BookmarkView {
            id: self.id,
            book_uuid: self.book_uuid@,
            chapter_index: self.chapter_index,
            paragraph_index: self.paragraph_index,
            content: self.content@,
            date_added: self.date_added,
        }
    }
}

impl Clone for Bookmark {
    fn clone(&self) -> (r: Bookmark)
        ensures
            r.deep_view() == self.deep_view(),
    {
        let r = Bookmark {
            id: self.id,
            book_uuid: self.book_uuid.clone(),
            chapter_index: self.chapter_index,
            paragraph_index: self.paragraph_index,
            content: self.content.clone(),
            date_added: self.date_added,
        };
        r
    }
}

/// A marked stretch of a paragraph, or all of it.
#[derive(Debug)]
pub struct Highlight {
    pub id: Option<i64>,
    pub book_uuid: String,
    pub chapter_index: i32,
    pub paragraph_index: i32,
    pub start_offset: Option<i32>,
    pub end_offset: Option<i32>,
    pub content: String,
    pub date_added: i64,
}

/// What a `Highlight` holds.
pub struct HighlightView {
    pub id: Option<i64>,
    pub book_uuid: Seq<char>,
    pub chapter_index: i32,
    pub paragraph_index: i32,
    pub start_offset: Option<i32>,
    pub end_offset: Option<i32>,
    pub content: Seq<char>,
    pub date_added: i64,
}

impl DeepView for Highlight {
    type V = HighlightView;

    open spec fn deep_view(&self) -> HighlightView {
        HighlightView {
            id: self.id,
            book_uuid: self.book_uuid@,
            chapter_index: self.chapter_index,
            paragraph_index: self.paragraph_index,
            start_offset: self.start_offset,
            end_offset: self.end_offset,
            content: self.content@,
            date_added: self.date_added,
        }
    }
}

impl Clone for Highlight {
    fn clone(&self) -> (r: Highlight)
        ensures
            r.deep_view() == self.deep_view(),
    {
        let r = Highlight {
            id: self.id,
            book_uuid: self.book_uuid.clone(),
            chapter_index: self.chapter_index,
            paragraph_index: self.paragraph_index,
            start_offset: self.start_offset,
            end_offset: self.end_offset,
            content: self.content.clone(),
            date_added: self.date_added,
        };
        r
    }
}

/// A book as the sync index shows it.
#[derive(Debug)]
pub struct CloudBook {
    pub uuid: String,
    pub title: String,
    pub author: String,
    pub total_chapters: i32,
    pub cover_extension: Option<String>,
    pub has_cover: bool,
    pub date_added: String,
}

/// What a `CloudBook` holds.
pub struct CloudBookView {
    pub uuid: Seq<char>,
    pub title: Seq<char>,
    pub author: Seq<char>,
    pub total_chapters: i32,
    pub cover_extension: Option<Seq<char>>,
    pub has_cover: bool,
    pub date_added: Seq<char>,
}

impl DeepView for CloudBook {
    type V = CloudBookView;

    open spec fn deep_view(&self) -> CloudBookView {
        CloudBookView {
            uuid: self.uuid@,
            title: self.title@,
            author: self.author@,
            total_chapters: self.total_chapters,
            cover_extension: self.cover_extension.deep_view(),
            has_cover: self.has_cover,
            date_added: self.date_added@,
        }
    }
}

/// What came of a synchronisation.
#[derive(Debug)]
pub struct SyncResult {
    pub success: bool,
    pub message: String,
    pub local_changed: bool,
}

/// What a `SyncResult` holds.
pub struct SyncResultView {
    pub success: bool,
    pub message: Seq<char>,
    pub local_changed: bool,
}

impl DeepView for SyncResult {
    type V = SyncResultView;

    open spec fn deep_view(&self) -> SyncResultView {
        SyncResultView {
            success: self.success,
            message: self.message@,
            local_changed: self.local_changed,
        }
    }
}

/// What came of synchronising the progress of one book.
#[derive(Debug)]
pub struct ProgressSyncResult {
    pub status: String,
    pub cloud_chapter_index: Option<i32>,
    pub cloud_paragraph_index: Option<i32>,
    pub cloud_character_offset: Option<i32>,
    pub cloud_last_read: Option<i64>,
    pub message: Option<String>,
}

/// What a `ProgressSyncResult` holds.
pub struct ProgressSyncResultView {
    pub status: Seq<char>,
    pub cloud_chapter_index: Option<i32>,
    pub cloud_paragraph_index: Option<i32>,
    pub cloud_character_offset: Option<i32>,
    pub cloud_last_read: Option<i64>,
    pub message: Option<Seq<char>>,
}

impl DeepView for ProgressSyncResult {
    type V = ProgressSyncResultView;

    open spec fn deep_view(&self) -> ProgressSyncResultView {
        ProgressSyncResultView {
            status: self.status@,
            cloud_chapter_index: self.cloud_chapter_index,
            cloud_paragraph_index: self.cloud_paragraph_index,
            cloud_character_offset: self.cloud_character_offset,
            cloud_last_read: self.cloud_last_read,
            message: self.message.deep_view(),
        }
    }
}

/// News of a synchronisation under way.
#[derive(Debug)]
pub struct SyncProgressEvent {
    pub event_type: String,
    pub book_uuid: Option<String>,
    pub status: Option<String>,
    pub current: i32,
    pub total: i32,
    pub message: Option<String>,
}

/// What a `SyncProgressEvent` holds.
pub struct SyncProgressEventView {
    pub event_type: Seq<char>,
    pub book_uuid: Option<Seq<char>>,
    pub status: Option<Seq<char>>,
    pub current: i32,
    pub total: i32,
    pub message: Option<Seq<char>>,
}

impl DeepView for SyncProgressEvent {
    type V = SyncProgressEventView;

    open spec fn deep_view(&self) -> SyncProgressEventView {
        SyncProgressEventView {
            event_type: self.event_type@,
            book_uuid: self.book_uuid.deep_view(),
            status: self.status.deep_view(),
            current: self.current,
            total: self.total,
            message: self.message.deep_view(),
        }
    }
}

/// A line of the sync history.
#[derive(Debug)]
pub struct SyncHistoryEntry {
    pub id: Option<i64>,
    pub timestamp: i64,
    pub action: String,
    pub status: String,
    pub details: String,
}

/// What a `SyncHistoryEntry` holds.
pub struct SyncHistoryEntryView {
    pub id: Option<i64>,
    pub timestamp: i64,
    pub action: Seq<char>,
    pub status: Seq<char>,
    pub details: Seq<char>,
}

impl DeepView for SyncHistoryEntry {
    type V = SyncHistoryEntryView;

    open spec fn deep_view(&self) -> SyncHistoryEntryView {
        SyncHistoryEntryView {
            id: self.id,
            timestamp: self.timestamp,
            action: self.action@,
            status: self.status@,
            details: self.details@,
        }
    }
}

} // verus!
