//! Where things stand on the server.
use vstd::prelude::*;

use crate::text;

verus! {

/// The sync index.
pub const INDEX: &'static str = "/AudireReader/sync_data.json";

/// Where an earlier release of the app kept the sync index.
pub const LEGACY_INDEX: &'static str = "/NovelReader/sync_data.json";

/// The folders on the server, the one that holds the others first.
pub open spec fn folders() -> Seq<Seq<char>> {
    seq![
        "/AudireReader"@,
        "/AudireReader/covers"@,
        "/AudireReader/books"@,
        "/AudireReader/progress"@,
        "/AudireReader/bookmarks"@,
        "/AudireReader/highlights"@,
    ]
}

/// The folder at a place in the list.
pub fn folder(i: usize) -> (r: String)
    requires
        i < 6,
    ensures
        r@ == folders()[i as int],
{
    let r = match i {
        0 => "/AudireReader",
        1 => "/AudireReader/covers",
        2 => "/AudireReader/books",
        3 => "/AudireReader/progress",
        4 => "/AudireReader/bookmarks",
        _ => "/AudireReader/highlights",
    };
    r.to_string()
}

/// The same folders in the order in which they are made for a single book.
pub open spec fn book_folders() -> Seq<Seq<char>> {
    seq![
        "/AudireReader"@,
        "/AudireReader/books"@,
        "/AudireReader/covers"@,
        "/AudireReader/progress"@,
        "/AudireReader/bookmarks"@,
        "/AudireReader/highlights"@,
    ]
}

/// The folder at a place in the list for a single book.
pub fn book_folder(i: usize) -> (r: String)
    requires
        i < 6,
    ensures
        r@ == book_folders()[i as int],
{
    match i {
        1 => folder(2),
        2 => folder(1),
        _ => folder(i),
    }
}

/// The contents of a book.
pub open spec fn book_path(uuid: Seq<char>) -> Seq<char> {
    "/AudireReader/books/"@ + uuid + ".json.gz"@
}

/// The contents of a book.
pub fn book_file(uuid: &str) -> (r: String)
    ensures
        r@ == book_path(uuid@),
{
    text::concat3("/AudireReader/books/", uuid, ".json.gz")
}

/// The places where the contents of a book may stand, in the order in which they are tried.
pub open spec fn book_places(uuid: Seq<char>) -> Seq<Seq<char>> {
    seq![
        book_path(uuid),
        "/AudireReader/books/"@ + uuid + ".json"@,
        "/NovelReader/books/"@ + uuid + ".json.gz"@,
        "/NovelReader/books/"@ + uuid + ".json"@,
    ]
}

/// One of the places where the contents of a book may stand.
pub fn book_place(uuid: &str, i: usize) -> (r: String)
    requires
        i < 4,
    ensures
        r@ == book_places(uuid@)[i as int],
{
    match i {
        0 => book_file(uuid),
        1 => text::concat3("/AudireReader/books/", uuid, ".json"),
        2 => text::concat3("/NovelReader/books/", uuid, ".json.gz"),
        _ => text::concat3("/NovelReader/books/", uuid, ".json"),
    }
}

/// How far a book has been read.
pub open spec fn progress_path(uuid: Seq<char>) -> Seq<char> {
    "/AudireReader/progress/"@ + uuid + ".json"@
}

/// How far a book has been read.
pub fn progress_file(uuid: &str) -> (r: String)
    ensures
        r@ == progress_path(uuid@),
{
    text::concat3("/AudireReader/progress/", uuid, ".json")
}

/// The folder of all bookmarks.
pub const BOOKMARKS: &'static str = "/AudireReader/bookmarks";

/// The bookmarks of a book.
pub open spec fn bookmarks_path(uuid: Seq<char>) -> Seq<char> {
    "/AudireReader/bookmarks/"@ + uuid + ".json"@
}

/// The bookmarks of a book.
pub fn bookmarks_file(uuid: &str) -> (r: String)
    ensures
        r@ == bookmarks_path(uuid@),
{
    text::concat3("/AudireReader/bookmarks/", uuid, ".json")
}

/// The folder of all highlights.
pub const HIGHLIGHTS: &'static str = "/AudireReader/highlights";

/// The highlights of a book.
pub open spec fn highlights_path(uuid: Seq<char>) -> Seq<char> {
    "/AudireReader/highlights/"@ + uuid + ".json"@
}

/// The highlights of a book.
pub fn highlights_file(uuid: &str) -> (r: String)
    ensures
        r@ == highlights_path(uuid@),
{
    text::concat3("/AudireReader/highlights/", uuid, ".json")
}

/// The cover of a book, with the extension and the dot before it.
pub open spec fn cover_path(uuid: Seq<char>, extension: Seq<char>) -> Seq<char> {
    "/AudireReader/covers/"@ + uuid + extension
}

/// The cover of a book, with the extension and the dot before it.
pub fn cover_file(uuid: &str, extension: &str) -> (r: String)
    ensures
        r@ == cover_path(uuid@, extension@),
{
    text::concat3("/AudireReader/covers/", uuid, extension)
}

/// All that the server may hold of a book, in the order in which it is removed.
pub open spec fn book_traces(uuid: Seq<char>) -> Seq<Seq<char>> {
    seq![
        book_path(uuid),
        progress_path(uuid),
        bookmarks_path(uuid),
        highlights_path(uuid),
        cover_path(uuid, ".jpg"@),
        cover_path(uuid, ".png"@),
        cover_path(uuid, ".jpeg"@),
    ]
}

/// One of the things that the server may hold of a book.
pub fn book_trace(uuid: &str, i: usize) -> (r: String)
    requires
        i < 7,
    ensures
        r@ == book_traces(uuid@)[i as int],
{
    match i {
        0 => book_file(uuid),
        1 => progress_file(uuid),
        2 => bookmarks_file(uuid),
        3 => highlights_file(uuid),
        4 => cover_file(uuid, ".jpg"),
        5 => cover_file(uuid, ".png"),
        _ => cover_file(uuid, ".jpeg"),
    }
}

} // verus!
