//! Book contents: how a book of the library becomes what the server stores, and back.
use vstd::prelude::*;

use crate::codec;
use crate::models::{Book, BookView, Chapter, ChapterView};
use crate::payload::{SyncBookPayload, SyncBookPayloadView, SyncChapterPayload, SyncChapterPayloadView};
use crate::reply;
use crate::text;
use crate::time;
use crate::time::Instant;

verus! {

/// The date that a time in milliseconds stands for, or else the present one.
pub open spec fn date_text(ms: i64, now: Instant) -> Seq<char> {
    match Instant::at_millis(ms) {
        Some(at) => time::rfc3339_text(at),
        None => time::rfc3339_text(now),
    }
}

/// Whether a date names a time in milliseconds, where that is one of the years 0 to 9999.
pub open spec fn keeps_time(date: Seq<char>, ms: i64) -> bool {
    Instant::at_millis(ms) matches Some(at) ==> at.plain() ==> time::rfc3339_instant(date) == Some(at)
}

/// The date that a time in milliseconds stands for, or else the present one. A date of the
/// years 0 to 9999 can be read back.
pub fn format_date(ms: i64, now: Instant) -> (r: String)
    requires
        now.valid(),
    ensures
        r@ == date_text(ms, now),
        keeps_time(r@, ms),
{
    match time::instant_at_millis(ms) {
        Some(at) => time::format_rfc3339(at),
        None => time::format_rfc3339(now),
    }
}

/// The time in milliseconds of an instant, or else of the present one.
pub open spec fn millis_or_now(at: Option<Instant>, now: Instant) -> i64 {
    match at {
        Some(at) => at.millis() as i64,
        None => now.millis() as i64,
    }
}

/// The time in milliseconds of an instant, or else of the present one.
pub fn instant_or_now(at: Option<Instant>, now: Instant) -> (r: i64)
    requires
        now.valid(),
        at matches Some(at) ==> at.valid(),
    ensures
        r == millis_or_now(at, now),
{
    match at {
        Some(at) => at.to_millis(),
        None => now.to_millis(),
    }
}

/// The time in milliseconds that a date stands for, or else the present one.
pub open spec fn date_millis(date: Seq<char>, now: Instant) -> i64 {
    millis_or_now(time::rfc3339_instant(date), now)
}

/// The time in milliseconds that a date stands for, or else the present one.
pub fn parse_date(date: &str, now: Instant) -> (r: i64)
    requires
        now.valid(),
    ensures
        r == date_millis(date@, now),
{
    instant_or_now(time::parse_rfc3339(date), now)
}

/// A chapter as the server stores it.
pub open spec fn stored_chapter(chapter: ChapterView) -> SyncChapterPayloadView {
    SyncChapterPayloadView {
        chapter_index: chapter.chapter_index,
        title: chapter.title,
        paragraphs: chapter.paragraphs,
    }
}

/// The extension that the server keeps a cover under: the one of the file, or else `.jpg`.
pub open spec fn stored_extension(
    cover: Option<Seq<char>>,
    extension: Option<Seq<char>>,
) -> Option<Seq<char>> {
    match cover {
        Some(_) => Some(
            match extension {
                Some(extension) => "."@ + extension,
                None => ".jpg"@,
            },
        ),
        None => None,
    }
}

/// A book as the server stores it.
pub open spec fn stored_book(
    book: BookView,
    chapters: Seq<ChapterView>,
    extension: Option<Seq<char>>,
    now: Instant,
) -> SyncBookPayloadView {
    SyncBookPayloadView {
        uuid: book.uuid,
        title: book.title,
        author: book.author,
        total_chapters: book.total_chapters,
        cover_extension: stored_extension(book.cover_path, extension),
        date_added: date_text(book.date_added, now),
        chapters: chapters.map_values(|c: ChapterView| stored_chapter(c)),
    }
}

fn store_chapters(chapters: Vec<Chapter>) -> (r: Vec<SyncChapterPayload>)
    ensures
        r.deep_view() == chapters.deep_view().map_values(|c: ChapterView| stored_chapter(c)),
{
    let ghost all = chapters.deep_view();
    let mut r: Vec<SyncChapterPayload> = Vec::new();
    for c in it: chapters
        invariant
            r.len() == it.index(),
            all.len() == it.seq().len(),
            forall|i: int| 0 <= i < all.len() ==> all[i] == (#[trigger] it.seq()[i]).deep_view(),
            forall|i: int|
                0 <= i < r.len() ==> (#[trigger] r@[i]).deep_view() == stored_chapter(all[i]),
    {
        r.push(
            SyncChapterPayload {
                chapter_index: c.chapter_index,
                title: c.title,
                paragraphs: c.paragraphs,
            },
        );
    }
    assert(r.deep_view() =~= all.map_values(|c: ChapterView| stored_chapter(c)));
    r
}

/// A book as the server stores it. Its date of addition can be read back.
pub fn store_book(book: &Book, chapters: Vec<Chapter>, extension: &Option<String>, now: Instant) -> (r:
    SyncBookPayload)
    requires
        now.valid(),
    ensures
        r.deep_view() == stored_book(
            book.deep_view(),
            chapters.deep_view(),
            extension.deep_view(),
            now,
        ),
        keeps_time(r.deep_view().date_added, book.date_added),
{
    let cover_extension = match &book.cover_path {
        Some(_) => Some(
            match extension {
                Some(extension) => text::concat2(".", extension),
                None => ".jpg".to_string(),
            },
        ),
        None => None,
    };
    SyncBookPayload {
        uuid: book.uuid.clone(),
        title: book.title.clone(),
        author: book.author.clone(),
        total_chapters: book.total_chapters,
        cover_extension,
        date_added: format_date(book.date_added, now),
        chapters: store_chapters(chapters),
    }
}

/// A chapter of a book that was fetched.
pub open spec fn restored_chapter(book_uuid: Seq<char>, chapter: SyncChapterPayloadView) -> ChapterView {
    ChapterView {
        id: None,
        book_uuid,
        chapter_index: chapter.chapter_index,
        title: chapter.title,
        paragraphs: chapter.paragraphs,
    }
}

/// The chapters of a book that was fetched.
pub open spec fn restored_chapters(payload: SyncBookPayloadView) -> Seq<ChapterView> {
    payload.chapters.map_values(|c: SyncChapterPayloadView| restored_chapter(payload.uuid, c))
}

/// A book that was fetched: unread, without tags.
pub open spec fn restored_book(
    payload: SyncBookPayloadView,
    cover_path: Option<Seq<char>>,
    now: Instant,
) -> BookView {
    BookView {
        id: None,
        uuid: payload.uuid,
        title: payload.title,
        author: payload.author,
        cover_path,
        total_chapters: payload.total_chapters,
        date_added: date_millis(payload.date_added, now),
        status: "unread"@,
        tags: Seq::empty(),
    }
}

fn restore_chapters(book_uuid: &String, chapters: Vec<SyncChapterPayload>) -> (r: Vec<Chapter>)
    ensures
        r.deep_view() == chapters.deep_view().map_values(
            |c: SyncChapterPayloadView| restored_chapter(book_uuid@, c),
        ),
{
    let ghost all = chapters.deep_view();
    let mut r: Vec<Chapter> = Vec::new();
    for c in it: chapters
        invariant
            r.len() == it.index(),
            all.len() == it.seq().len(),
            forall|i: int| 0 <= i < all.len() ==> all[i] == (#[trigger] it.seq()[i]).deep_view(),
            forall|i: int|
                0 <= i < r.len() ==> (#[trigger] r@[i]).deep_view() == restored_chapter(
                    book_uuid@,
                    all[i],
                ),
    {
        r.push(
            Chapter {
                id: None,
                book_uuid: book_uuid.clone(),
                chapter_index: c.chapter_index,
                title: c.title,
                paragraphs: c.paragraphs,
            },
        );
    }
    assert(r.deep_view() =~= all.map_values(
        |c: SyncChapterPayloadView| restored_chapter(book_uuid@, c),
    ));
    r
}

/// A book that was fetched, and its chapters.
pub fn restore_book(payload: SyncBookPayload, cover_path: Option<String>, now: Instant) -> (r: (
    Book,
    Vec<Chapter>,
))
    requires
        now.valid(),
    ensures
        r.0.deep_view() == restored_book(payload.deep_view(), cover_path.deep_view(), now),
        r.1.deep_view() == restored_chapters(payload.deep_view()),
{
    let chapters = restore_chapters(&payload.uuid, payload.chapters);
    let tags: Vec<String> = Vec::new();
    assert(tags.deep_view() =~= Seq::empty());
    let book = Book {
        id: None,
        uuid: payload.uuid,
        title: payload.title,
        author: payload.author,
        cover_path,
        total_chapters: payload.total_chapters,
        date_added: parse_date(&payload.date_added, now),
        status: "unread".to_string(),
        tags,
    };
    (book, chapters)
}

/// What came of unpacking a file, with a message that says what went wrong.
pub open spec fn explained(decoded: Result<Seq<u8>, Seq<char>>) -> Result<Seq<u8>, Seq<char>> {
    match decoded {
        Ok(data) => Ok(data),
        Err(e) => Err("Failed to decompress gzip book data: "@ + e),
    }
}

/// What came of unpacking a file, with a message that says what went wrong.
pub fn explain(decoded: Result<Vec<u8>, String>) -> (r: Result<Vec<u8>, String>)
    ensures
        reply::bytes_outcome(r) == explained(reply::bytes_outcome(decoded)),
{
    match decoded {
        Ok(data) => Ok(data),
        Err(e) => Err(text::concat2("Failed to decompress gzip book data: ", &e)),
    }
}

/// The bytes that a stored file stands for: unpacked where it is packed, and else as it is.
pub open spec fn unpacked(file: Seq<u8>) -> Result<Seq<u8>, Seq<char>> {
    if codec::has_gzip_magic(file) {
        explained(codec::gzip_decoding(file))
    } else {
        Ok(file)
    }
}

/// Whether a stored file keeps some bytes: it is not empty, and they can be had from it.
pub open spec fn keeps_bytes(file: Seq<u8>, data: Seq<u8>) -> bool {
    file.len() > 0 && unpacked(file) == Ok::<Seq<u8>, Seq<char>>(data)
}

/// Packs the contents of a book. What was packed shows that it is, and can be unpacked again.
pub fn pack(data: &Vec<u8>) -> (r: Result<Vec<u8>, String>)
    ensures
        reply::bytes_outcome(r) == codec::gzip_encoding(data@),
        r matches Ok(file) ==> codec::has_gzip_magic(file@),
        r matches Ok(file) ==> keeps_bytes(file@, data@),
{
    codec::gzip_compress(data)
}

/// Unpacks a stored file where it is packed.
pub fn unpack(file: Vec<u8>) -> (r: Result<Vec<u8>, String>)
    ensures
        reply::bytes_outcome(r) == unpacked(file@),
{
    if file.len() >= 2 && file[0] == 0x1f && file[1] == 0x8b {
        explain(codec::gzip_decompress(&file))
    } else {
        Ok(file)
    }
}

} // verus!
