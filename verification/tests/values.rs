use audire_sync::contents;
use audire_sync::events::{subscribe_sync_events, SyncEvents};
use audire_sync::index;
use audire_sync::local;
use audire_sync::marks::merge_marks;
use audire_sync::models::{Book, Bookmark, Chapter, Highlight, ReadingProgress, SyncProgressEvent};
use audire_sync::number;
use audire_sync::payload::{SyncDataBookItem, SyncDataFile, SyncDeletedItem, SyncProgressPayload};
use audire_sync::progress::{self, ProgressPlan};
use audire_sync::protocol::LocalFile;
use audire_sync::remote;
use audire_sync::text;
use audire_sync::time::Instant;

const NOON: Instant = Instant { secs: 1_700_000_000, nanos: 0 };

fn book(uuid: &str) -> Book {
    Book {
        id: Some(7),
        uuid: uuid.to_string(),
        title: "Title".to_string(),
        author: "Author".to_string(),
        cover_path: None,
        total_chapters: 3,
        date_added: 1_700_000_000_123,
        status: "reading".to_string(),
        tags: vec!["tag".to_string()],
    }
}

fn item(uuid: &str) -> SyncDataBookItem {
    index::make_entry(&book(uuid), &None, NOON)
}

fn stone(uuid: &str, at: &str) -> SyncDeletedItem {
    SyncDeletedItem::Detailed { uuid: uuid.to_string(), deleted_at: at.to_string() }
}

#[test]
fn texts() {
    assert_eq!(text::trim(" \u{85}a b\t\n"), "a b");
    assert_eq!(text::trim("\u{200b}a"), "\u{200b}a");
    assert_eq!(text::trim(" \u{2003} "), "");
    assert_eq!(text::trim_end_slashes("a//b//"), "a//b");
    assert_eq!(text::trim_start_slashes("//a/"), "a/");
    assert_eq!(text::after_last_slash("a/b/c"), "c");
    assert_eq!(text::after_last_slash("abc"), "abc");
    assert_eq!(text::after_last_slash("a/"), "");
    assert!(text::starts_with("https://x", "https://"));
    assert!(!text::starts_with("http", "https://"));
    assert!(text::same_text("\u{e9}", "\u{e9}"));
    assert!(!text::same_text("e", "\u{e9}"));
    assert_eq!(text::concat3("a", "", "b"), "ab");
    assert_eq!(text::chars_of("a\u{1F600}"), vec!['a', '\u{1F600}']);
}

#[test]
fn numbers() {
    assert_eq!(number::decimal_text(0), "0");
    assert_eq!(number::decimal_text(u64::MAX), "18446744073709551615");
    assert_eq!(number::parse_i64("-0"), Some(0));
    assert_eq!(number::parse_i64("0012"), Some(12));
    assert_eq!(number::parse_i64("-"), None);
    assert_eq!(number::parse_i64("+"), None);
    assert_eq!(number::parse_i64(" 1"), None);
    assert_eq!(number::parse_i64("1_0"), None);
    assert_eq!(number::parse_i64("\u{663}"), None);
}

#[test]
fn dates() {
    assert_eq!(contents::format_date(1_700_000_000_123, NOON), "2023-11-14T22:13:20.123+00:00");
    assert_eq!(contents::format_date(0, NOON), "1970-01-01T00:00:00+00:00");
    assert_eq!(contents::format_date(-1, NOON), "1969-12-31T23:59:59.999+00:00");
    assert_eq!(contents::format_date(i64::MAX, NOON), "2023-11-14T22:13:20+00:00");
    let first = -8_334_601_228_800_000;
    assert_eq!(contents::format_date(first, NOON), "-262143-01-01T00:00:00+00:00");
    assert_eq!(contents::format_date(first - 1, NOON), "2023-11-14T22:13:20+00:00");
    let last = 8_210_266_876_799_999;
    assert_eq!(contents::format_date(last, NOON), "+262142-12-31T23:59:59.999+00:00");
    assert_eq!(contents::format_date(last + 1, NOON), "2023-11-14T22:13:20+00:00");
    assert_eq!(contents::parse_date(&contents::format_date(first, NOON), NOON), 1_700_000_000_000);
    assert_eq!(contents::parse_date("2023-11-14T22:13:20.123+00:00", NOON), 1_700_000_000_123);
    assert_eq!(contents::parse_date("2023-11-15T00:13:20+02:00", NOON), 1_700_000_000_000);
    assert_eq!(contents::parse_date("2023-11-14T22:13:20Z", NOON), 1_700_000_000_000);
    assert_eq!(contents::parse_date("yesterday", NOON), 1_700_000_000_000);
    assert_eq!(contents::parse_date("1969-12-31T23:59:59.999Z", NOON), -1);
    assert_eq!(Instant { secs: -1, nanos: 999_000_000 }.to_millis(), -1);
    for ms in [0, 1, -1, 999, 1_700_000_000_123, 253_402_300_799_999, -62_167_219_200_000] {
        assert_eq!(contents::parse_date(&contents::format_date(ms, NOON), NOON), ms);
    }
}

#[test]
fn extensions_of_paths() {
    let extension = |path: &str| local::extension(path);
    assert_eq!(extension("/docs/covers/a.b.jpg"), Some("jpg".to_string()));
    assert_eq!(extension("a."), Some(String::new()));
    assert_eq!(extension("..a"), Some("a".to_string()));
    assert_eq!(extension("/docs.d/cover"), None);
    assert_eq!(extension("/docs/.cover"), None);
    assert_eq!(extension("/docs/.."), None);
    assert_eq!(extension("/docs.d/"), Some("d".to_string()));
    assert_eq!(extension("/docs.d/./."), Some("d".to_string()));
    assert_eq!(extension("."), None);
    assert_eq!(extension("/."), None);
    assert_eq!(extension("..."), Some(String::new()));
    assert_eq!(extension("C:\\docs\\covers\\a.jpg"), Some("jpg".to_string()));
    assert_eq!(extension("C:/docs.d/.cover"), None);
    assert_eq!(extension("C:/docs.d/a.b:c"), Some("b:c".to_string()));
    assert_eq!(extension(""), None);
}

#[test]
fn files_below_folders() {
    let place = |dir: &str| {
        local::locate(&LocalFile {
            dir: dir.to_string(),
            folder: "covers".to_string(),
            name: "a.jpg".to_string(),
        })
    };
    assert_eq!(place("/docs"), "/docs/covers/a.jpg");
    assert_eq!(place("/docs/"), "/docs/covers/a.jpg");
    assert_eq!(place(""), "covers/a.jpg");
    let parted = |dir: &str| {
        let path = place(dir);
        let rest = path.strip_prefix(dir).unwrap().to_string();
        rest == "/covers/a.jpg" || rest == "\\covers\\a.jpg"
    };
    assert!(parted("C:\\docs"));
    assert!(parted("\\\\server\\share"));
}

#[test]
fn books_travel() {
    let mut original = book("b1");
    original.cover_path = Some("/covers/b1.png".to_string());
    let chapters = vec![Chapter {
        id: Some(1),
        book_uuid: "b1".to_string(),
        chapter_index: 4,
        title: "One".to_string(),
        paragraphs: vec!["p".to_string(), "q".to_string()],
    }];
    let stored = contents::store_book(&original, chapters, &Some("png".to_string()), NOON);
    assert_eq!(stored.uuid, "b1");
    assert_eq!(stored.cover_extension, Some(".png".to_string()));
    assert_eq!(stored.date_added, "2023-11-14T22:13:20.123+00:00");
    let (copy, chapters) = contents::restore_book(stored, Some("/here/b1.png".to_string()), NOON);
    assert_eq!(copy.id, None);
    assert_eq!(copy.uuid, "b1");
    assert_eq!(copy.title, "Title");
    assert_eq!(copy.author, "Author");
    assert_eq!(copy.total_chapters, 3);
    assert_eq!(copy.date_added, 1_700_000_000_123);
    assert_eq!(copy.status, "unread");
    assert_eq!(copy.cover_path, Some("/here/b1.png".to_string()));
    assert!(copy.tags.is_empty());
    assert_eq!(chapters.len(), 1);
    assert_eq!(chapters[0].id, None);
    assert_eq!(chapters[0].book_uuid, "b1");
    assert_eq!(chapters[0].chapter_index, 4);
    assert_eq!(chapters[0].title, "One");
    assert_eq!(chapters[0].paragraphs, vec!["p", "q"]);
}

#[test]
fn covers_without_an_extension_are_taken_for_jpg() {
    let mut original = book("b1");
    original.cover_path = Some("/covers/b1".to_string());
    let stored = contents::store_book(&original, vec![], &None, NOON);
    assert_eq!(stored.cover_extension, Some(".jpg".to_string()));
    let stored = contents::store_book(&book("b1"), vec![], &None, NOON);
    assert_eq!(stored.cover_extension, None);
}

#[test]
fn entries_of_the_index() {
    let mut original = book("b1");
    original.cover_path = Some("/covers/b1".to_string());
    let entry = index::make_entry(&original, &None, NOON);
    assert_eq!(entry.cover_extension, None);
    assert!(entry.has_cover);
    let entry = index::make_entry(&original, &Some("webp".to_string()), NOON);
    assert_eq!(entry.cover_extension, Some(".webp".to_string()));
    assert_eq!(entry.date_added, "2023-11-14T22:13:20.123+00:00");
    let entry = index::make_entry(&book("b2"), &None, NOON);
    assert!(!entry.has_cover);
    assert_eq!(entry.uuid, "b2");
    assert_eq!(entry.total_chapters, 3);
}

#[test]
fn new_indexes_are_empty() {
    let file = index::new_index(NOON);
    assert_eq!(file.version, 1);
    assert_eq!(file.last_sync_time, "2023-11-14T22:13:20+00:00");
    assert!(file.books.is_empty() && file.deleted.is_empty());
}

#[test]
fn deletions_are_remembered_for_thirty_days() {
    let kept = index::forget_old_deletions(
        vec![
            SyncDeletedItem::Simple("simple".to_string()),
            stone("garbled", "some day"),
            stone("exactly", "2023-10-15T22:13:20+00:00"),
            stone("almost", "2023-10-15T22:13:20.000000001+00:00"),
            stone("ahead", "2033-01-01T00:00:00Z"),
            stone("abroad", "2023-10-15T23:13:20+02:00"),
        ],
        NOON,
    );
    let names: Vec<&str> = kept.iter().map(|d| d.uuid()).collect();
    assert_eq!(names, vec!["simple", "garbled", "almost", "ahead"]);
}

#[test]
fn deleting_takes_the_entry_out_and_notes_it() {
    let file = SyncDataFile {
        version: 5,
        last_sync_time: "long ago".to_string(),
        books: vec![item("a"), item("b"), item("a")],
        deleted: vec![SyncDeletedItem::Simple("x".to_string())],
    };
    assert!(index::books_contain(&file.books, "a"));
    let file = index::delete_book(file, "a".to_string(), NOON);
    assert_eq!(file.version, 5);
    assert_eq!(file.last_sync_time, "2023-11-14T22:13:20+00:00");
    assert_eq!(file.books.len(), 1);
    assert!(!index::books_contain(&file.books, "a"));
    assert!(index::books_contain(&file.books, "b"));
    assert!(index::deleted_contains(&file.deleted, "a"));
    assert!(index::deleted_contains(&file.deleted, "x"));
    assert!(!index::deleted_contains(&file.deleted, "b"));
    let later = Instant { secs: NOON.secs + 30 * 86_400 - 1, nanos: 999_999_999 };
    assert_eq!(index::forget_old_deletions(file.deleted, later).len(), 2);
}

#[test]
fn deletions_at_odd_times_are_remembered() {
    let deleted = |at: Instant| index::delete_book(index::new_index(NOON), "a".to_string(), at).deleted;
    let leap = Instant { secs: 1_700_000_039, nanos: 1_500_000_000 };
    match &deleted(leap)[0] {
        SyncDeletedItem::Detailed { deleted_at, .. } => {
            assert_eq!(deleted_at, "2023-11-14T22:13:60.500+00:00")
        }
        _ => panic!("no date"),
    }
    let almost = Instant { secs: leap.secs + 30 * 86_400, nanos: 1_499_999_999 };
    let over = Instant { secs: leap.secs + 30 * 86_400, nanos: 1_500_000_000 };
    assert_eq!(index::forget_old_deletions(deleted(leap), almost).len(), 1);
    assert_eq!(index::forget_old_deletions(deleted(leap), over).len(), 0);
    let far = Instant { secs: 253_402_300_800, nanos: 0 };
    let later = Instant { secs: far.secs + 99 * 86_400, nanos: 0 };
    assert_eq!(index::forget_old_deletions(deleted(far), later).len(), 1);
}

#[test]
fn forgetting_takes_nothing_else() {
    let later = Instant { secs: NOON.secs + 30 * 86_400, nanos: 0 };
    let file = index::delete_book(index::new_index(NOON), "a".to_string(), NOON);
    assert_eq!(index::forget_old_deletions(file.deleted, later).len(), 0);
}

#[test]
fn listing_the_books() {
    let mut file = index::new_index(NOON);
    index::add_book(&mut file, item("a"));
    let shown = index::show_books(file.books);
    assert_eq!(shown.len(), 1);
    assert_eq!(shown[0].uuid, "a");
    assert_eq!(shown[0].title, "Title");
    assert_eq!(shown[0].author, "Author");
    assert_eq!(shown[0].total_chapters, 3);
    assert_eq!(shown[0].cover_extension, None);
    assert!(!shown[0].has_cover);
}

#[test]
fn places_on_the_server() {
    assert_eq!(remote::book_file("u"), "/AudireReader/books/u.json.gz");
    assert_eq!(remote::progress_file("u"), "/AudireReader/progress/u.json");
    assert_eq!(remote::bookmarks_file("u"), "/AudireReader/bookmarks/u.json");
    assert_eq!(remote::highlights_file("u"), "/AudireReader/highlights/u.json");
    assert_eq!(remote::cover_file("u", ".png"), "/AudireReader/covers/u.png");
    let places: Vec<String> = (0..4).map(|i| remote::book_place("u", i)).collect();
    assert_eq!(
        places,
        vec![
            "/AudireReader/books/u.json.gz",
            "/AudireReader/books/u.json",
            "/NovelReader/books/u.json.gz",
            "/NovelReader/books/u.json",
        ]
    );
    let folders: Vec<String> = (0..6).map(remote::folder).collect();
    assert_eq!(folders[1], "/AudireReader/covers");
    let folders: Vec<String> = (0..6).map(remote::book_folder).collect();
    assert_eq!(folders[1], "/AudireReader/books");
    assert_eq!(remote::book_trace("u", 6), "/AudireReader/covers/u.jpeg");
}

fn read(last_read: i64) -> ReadingProgress {
    ReadingProgress {
        id: Some(3),
        book_uuid: "u".to_string(),
        current_chapter_index: 1,
        current_paragraph_index: 2,
        current_character_offset: 3,
        last_read,
    }
}

fn stored(last_read: i64) -> SyncProgressPayload {
    progress::push_progress("u".to_string(), &read(last_read))
}

#[test]
fn the_more_recent_progress_counts() {
    assert_eq!(progress::plan_progress(&None, &None), ProgressPlan::Nothing);
    assert_eq!(progress::plan_progress(&Some(read(1)), &None), ProgressPlan::Push);
    assert_eq!(progress::plan_progress(&None, &Some(stored(1))), ProgressPlan::Pull);
    assert_eq!(progress::plan_progress(&Some(read(2)), &Some(stored(1))), ProgressPlan::Push);
    assert_eq!(progress::plan_progress(&Some(read(1)), &Some(stored(2))), ProgressPlan::Pull);
    assert_eq!(progress::plan_progress(&Some(read(2)), &Some(stored(2))), ProgressPlan::Keep);
}

#[test]
fn progress_travels() {
    let back = progress::pull_progress("u".to_string(), &stored(9));
    assert_eq!(back.id, None);
    assert_eq!(back.current_chapter_index, 1);
    assert_eq!(back.current_paragraph_index, 2);
    assert_eq!(back.current_character_offset, 3);
    assert_eq!(back.last_read, 9);
    assert_eq!(stored(9).device_id, None);
    assert_eq!(stored(9).device_name, None);
}

fn bookmark(chapter: i32, paragraph: i32, date: i64, content: &str) -> Bookmark {
    Bookmark {
        id: None,
        book_uuid: "u".to_string(),
        chapter_index: chapter,
        paragraph_index: paragraph,
        content: content.to_string(),
        date_added: date,
    }
}

fn contents_of(marks: &[Bookmark]) -> Vec<&str> {
    marks.iter().map(|m| m.content.as_str()).collect()
}

#[test]
fn merging_bookmarks_keeps_the_newest() {
    let local = vec![bookmark(2, 0, 5, "b"), bookmark(1, 1, 5, "a"), bookmark(1, 1, 3, "a2")];
    let cloud = vec![bookmark(1, 1, 4, "c"), bookmark(2, 0, 5, "same age"), bookmark(0, 9, 1, "n")];
    let (merged, updated) = merge_marks(local, cloud);
    assert!(updated);
    assert_eq!(contents_of(&merged), vec!["n", "c", "b"]);
}

#[test]
fn merging_twice_changes_nothing() {
    let local = vec![bookmark(2, 0, 5, "b"), bookmark(1, 1, 5, "a")];
    let cloud = vec![bookmark(1, 1, 9, "c")];
    let (merged, updated) = merge_marks(local, cloud.clone());
    assert!(updated);
    let (again, updated) = merge_marks(merged.clone(), cloud);
    assert!(!updated);
    assert_eq!(contents_of(&again), contents_of(&merged));
    let (again, updated) = merge_marks(merged.clone(), merged.clone());
    assert!(!updated);
    assert_eq!(contents_of(&again), vec!["c", "b"]);
    let (none, updated) = merge_marks(Vec::<Bookmark>::new(), vec![]);
    assert!(none.is_empty() && !updated);
}

fn highlight(paragraph: i32, start: Option<i32>, end: Option<i32>, date: i64) -> Highlight {
    Highlight {
        id: None,
        book_uuid: "u".to_string(),
        chapter_index: 0,
        paragraph_index: paragraph,
        start_offset: start,
        end_offset: end,
        content: String::new(),
        date_added: date,
    }
}

#[test]
fn highlights_are_told_apart_by_their_offsets() {
    let local = vec![highlight(1, Some(4), Some(9), 1), highlight(1, Some(-1), None, 1)];
    let cloud = vec![
        highlight(1, Some(4), Some(8), 1),
        highlight(1, None, None, 1),
        highlight(0, Some(7), None, 1),
        highlight(1, Some(4), Some(9), 2),
    ];
    let (merged, updated) = merge_marks(local, cloud);
    assert!(updated);
    let keys: Vec<(i32, Option<i32>, Option<i32>, i64)> = merged
        .iter()
        .map(|h| (h.paragraph_index, h.start_offset, h.end_offset, h.date_added))
        .collect();
    assert_eq!(
        keys,
        vec![
            (0, Some(7), None, 1),
            (1, None, None, 1),
            (1, Some(-1), None, 1),
            (1, Some(4), Some(8), 1),
            (1, Some(4), Some(9), 2),
        ]
    );
}

#[test]
fn two_devices_agree() {
    let first = vec![bookmark(0, 0, 1, "a"), bookmark(0, 1, 7, "b")];
    let second = vec![bookmark(0, 0, 2, "c"), bookmark(0, 2, 1, "d")];
    let (merged, _) = merge_marks(second, first.clone());
    let (again, updated) = merge_marks(first, merged.clone());
    assert!(updated);
    assert_eq!(contents_of(&again), contents_of(&merged));
    assert_eq!(contents_of(&again), vec!["c", "b", "d"]);
}

fn announcement() -> SyncProgressEvent {
    SyncProgressEvent {
        event_type: "syncStarted".to_string(),
        book_uuid: None,
        status: None,
        current: 0,
        total: 100,
        message: None,
    }
}

#[test]
fn the_last_listener_hears() {
    let mut events: SyncEvents<u8> = SyncEvents::new();
    assert!(events.emit_sync_event(announcement()).is_none());
    assert_eq!(subscribe_sync_events(&mut events, 1), Ok(()));
    assert_eq!(subscribe_sync_events(&mut events, 2), Ok(()));
    let (to, what) = events.emit_sync_event(announcement()).unwrap();
    assert_eq!(*to, 2);
    assert_eq!(what.event_type, "syncStarted");
    assert_eq!(what.total, 100);
}

#[test]
fn times_that_are_known_or_not() {
    let at = Instant { secs: 1, nanos: 2_000_000 };
    assert_eq!(contents::instant_or_now(Some(at), NOON), 1_002);
    assert_eq!(contents::instant_or_now(None, NOON), 1_700_000_000_000);
    assert!(index::is_recent(None, NOON));
    assert!(!index::is_recent(Some(at), NOON));
    assert!(index::is_recent(Some(NOON), at));
}
