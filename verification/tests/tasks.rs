use std::collections::BTreeMap;

use audire_sync::client::{ClientCache, WebDavClient};
use audire_sync::local;
use audire_sync::models::{
    Book, Bookmark, Chapter, Highlight, ProgressSyncResult, ReadingProgress, Settings,
    SyncHistoryEntry, SyncProgressEvent, SyncResult,
};
use audire_sync::payload::{
    BookBookmarksFile, BookHighlightsFile, SyncBookPayload, SyncChapterPayload, SyncDataBookItem,
    SyncDataFile, SyncDeletedItem, SyncProgressPayload,
};
use audire_sync::protocol::{Action, CoverFetch, Event, LocalFile, Move, Task};
use audire_sync::runner::{Outcome, Runner};
use audire_sync::tasks::config::MakeClient;
use audire_sync::tasks::{
    bookmarks, cloud_books, config, export, highlights, import, library, progress, pull, push,
    record, single,
};
use audire_sync::time::Instant;

const NOON: Instant = Instant { secs: 1_700_000_000, nanos: 0 };

/// What was written down, in place of JSON: a file of the server holds the number of a note.
enum Note {
    Book(SyncBookPayload),
    Progress(SyncProgressPayload),
    Bookmarks(BookBookmarksFile),
    Highlights(BookHighlightsFile),
    Index(SyncDataFile),
}

/// The client that a device keeps.
struct Cache(ClientCache);

impl Default for Cache {
    fn default() -> Cache {
        Cache(ClientCache::new())
    }
}

/// A device, and the server that it talks to.
#[derive(Default)]
struct World {
    settings: Option<Settings>,
    secrets: BTreeMap<String, String>,
    cache: Cache,
    books: Vec<Book>,
    chapters: BTreeMap<String, Vec<Chapter>>,
    progress: BTreeMap<String, ReadingProgress>,
    bookmarks: BTreeMap<String, Vec<Bookmark>>,
    highlights: BTreeMap<String, Vec<Highlight>>,
    history: Vec<SyncHistoryEntry>,
    files: BTreeMap<String, Vec<u8>>,
    announced: Vec<SyncProgressEvent>,
    covers: Vec<CoverFetch>,
    server: BTreeMap<String, Vec<u8>>,
    folders: Vec<String>,
    notes: Vec<Note>,
    uploads: Vec<String>,
    failing_uploads: Vec<String>,
    client: Option<WebDavClient>,
}

fn copy_book(b: &SyncBookPayload) -> SyncBookPayload {
    SyncBookPayload {
        uuid: b.uuid.clone(),
        title: b.title.clone(),
        author: b.author.clone(),
        total_chapters: b.total_chapters,
        cover_extension: b.cover_extension.clone(),
        date_added: b.date_added.clone(),
        chapters: b
            .chapters
            .iter()
            .map(|c| SyncChapterPayload {
                chapter_index: c.chapter_index,
                title: c.title.clone(),
                paragraphs: c.paragraphs.clone(),
            })
            .collect(),
    }
}

fn copy_progress(p: &SyncProgressPayload) -> SyncProgressPayload {
    SyncProgressPayload {
        book_uuid: p.book_uuid.clone(),
        chapter_index: p.chapter_index,
        paragraph_index: p.paragraph_index,
        character_offset: p.character_offset,
        last_read: p.last_read,
        device_id: p.device_id.clone(),
        device_name: p.device_name.clone(),
    }
}

fn copy_index(i: &SyncDataFile) -> SyncDataFile {
    SyncDataFile {
        version: i.version,
        last_sync_time: i.last_sync_time.clone(),
        books: i
            .books
            .iter()
            .map(|b| SyncDataBookItem {
                uuid: b.uuid.clone(),
                title: b.title.clone(),
                author: b.author.clone(),
                total_chapters: b.total_chapters,
                date_added: b.date_added.clone(),
                cover_extension: b.cover_extension.clone(),
                has_cover: b.has_cover,
            })
            .collect(),
        deleted: i
            .deleted
            .iter()
            .map(|d| match d {
                SyncDeletedItem::Simple(uuid) => SyncDeletedItem::Simple(uuid.clone()),
                SyncDeletedItem::Detailed { uuid, deleted_at } => SyncDeletedItem::Detailed {
                    uuid: uuid.clone(),
                    deleted_at: deleted_at.clone(),
                },
            })
            .collect(),
    }
}

fn copy_read(p: &ReadingProgress) -> ReadingProgress {
    ReadingProgress {
        id: p.id,
        book_uuid: p.book_uuid.clone(),
        current_chapter_index: p.current_chapter_index,
        current_paragraph_index: p.current_paragraph_index,
        current_character_offset: p.current_character_offset,
        last_read: p.last_read,
    }
}

fn copy_chapters(chapters: &[Chapter]) -> Vec<Chapter> {
    chapters
        .iter()
        .map(|c| Chapter {
            id: c.id,
            book_uuid: c.book_uuid.clone(),
            chapter_index: c.chapter_index,
            title: c.title.clone(),
            paragraphs: c.paragraphs.clone(),
        })
        .collect()
}

fn copy_settings(s: &Settings) -> Settings {
    Settings {
        web_dav_url: s.web_dav_url.clone(),
        web_dav_username: s.web_dav_username.clone(),
        web_dav_enabled: s.web_dav_enabled,
        web_dav_last_sync: s.web_dav_last_sync,
        rest: s.rest.clone(),
    }
}

fn download(server: &BTreeMap<String, Vec<u8>>, path: &str) -> Result<Vec<u8>, String> {
    match server.get(path) {
        Some(bytes) if !bytes.is_empty() => Ok(bytes.clone()),
        Some(_) => Err(format!("File '{}' on WebDAV is empty (0 bytes)", path)),
        None => Err(format!("Download failed for '{}' with status: 404 Not Found", path)),
    }
}

impl World {
    fn note(&mut self, note: Note) -> Event {
        self.notes.push(note);
        Event::Bytes(Ok(format!("note {}", self.notes.len() - 1).into_bytes()))
    }

    fn noted(&self, bytes: &[u8]) -> Option<&Note> {
        let text = String::from_utf8(bytes.to_vec()).ok()?;
        let number: usize = text.strip_prefix("note ")?.parse().ok()?;
        self.notes.get(number)
    }

    fn index(&self) -> &SyncDataFile {
        match self.noted(&self.server["/AudireReader/sync_data.json"]) {
            Some(Note::Index(index)) => index,
            _ => panic!("no index"),
        }
    }

    fn put_index(&mut self, path: &str, index: SyncDataFile) {
        if let Event::Bytes(Ok(bytes)) = self.note(Note::Index(index)) {
            self.server.insert(path.to_string(), bytes);
        }
    }

    fn cloud_progress(&self, uuid: &str) -> Option<&SyncProgressPayload> {
        match self.noted(self.server.get(&format!("/AudireReader/progress/{}.json", uuid))?) {
            Some(Note::Progress(p)) => Some(p),
            _ => None,
        }
    }

    fn cloud_bookmarks(&self, uuid: &str) -> Vec<String> {
        match self.noted(&self.server[&format!("/AudireReader/bookmarks/{}.json", uuid)]) {
            Some(Note::Bookmarks(file)) => {
                file.bookmarks.iter().map(|b| b.content.clone()).collect()
            }
            _ => panic!("no bookmarks"),
        }
    }

    fn perform(&mut self, action: Action) -> Event {
        match action {
            Action::GetSettings => Event::Settings(Ok(self.settings.as_ref().map(copy_settings))),
            Action::SaveSettings(settings) => {
                self.settings = Some(settings);
                Event::Unit(Ok(()))
            }
            Action::GetSecret(key) => Event::Secret(Ok(self.secrets.get(&key).cloned())),
            Action::SetSecret(key, secret) => {
                self.secrets.insert(key, secret);
                Event::Unit(Ok(()))
            }
            Action::DeleteSecret(key) => {
                self.secrets.remove(&key);
                Event::Unit(Ok(()))
            }
            Action::CacheClient(client) => {
                self.cache.0.keep(client);
                Event::Done
            }
            Action::GetBook(uuid) => {
                Event::Book(Ok(self.books.iter().find(|b| b.uuid == uuid).cloned()))
            }
            Action::GetAllBooks => Event::Books(Ok(self.books.clone())),
            Action::GetChapters(uuid) => Event::Chapters(Ok(
                self.chapters.get(&uuid).map(|c| copy_chapters(c)).unwrap_or_default(),
            )),
            Action::InsertBook(book) => {
                self.books.retain(|b| b.uuid != book.uuid);
                self.books.push(book);
                Event::Unit(Ok(()))
            }
            Action::InsertChapters(chapters) => {
                if let Some(first) = chapters.first() {
                    self.chapters.insert(first.book_uuid.clone(), copy_chapters(&chapters));
                }
                Event::Unit(Ok(()))
            }
            Action::DeleteBook(uuid) => {
                self.books.retain(|b| b.uuid != uuid);
                Event::Unit(Ok(()))
            }
            Action::ShrinkMemory => Event::Done,
            Action::GetProgress(uuid) => {
                Event::Progress(Ok(self.progress.get(&uuid).map(copy_read)))
            }
            Action::SaveProgress(p) => {
                self.progress.insert(p.book_uuid.clone(), p);
                Event::Unit(Ok(()))
            }
            Action::GetBookmarks(uuid) => {
                Event::Bookmarks(Ok(self.bookmarks.get(&uuid).cloned().unwrap_or_default()))
            }
            Action::ReplaceBookmarks(uuid, list) => {
                self.bookmarks.insert(uuid, list);
                Event::Unit(Ok(()))
            }
            Action::GetHighlights(uuid) => {
                Event::Highlights(Ok(self.highlights.get(&uuid).cloned().unwrap_or_default()))
            }
            Action::ReplaceHighlights(uuid, list) => {
                self.highlights.insert(uuid, list);
                Event::Unit(Ok(()))
            }
            Action::InsertHistory(entry) => {
                self.history.push(entry);
                Event::Unit(Ok(()))
            }
            Action::Probe(client) => {
                self.client = Some(client);
                Event::Flag(Ok(true))
            }
            Action::Mkdir(_, path) => {
                self.folders.push(path);
                Event::Flag(Ok(true))
            }
            Action::Upload(client, path, bytes) => {
                self.client = Some(client);
                self.uploads.push(path.clone());
                if let Some(i) = self.failing_uploads.iter().position(|p| *p == path) {
                    self.failing_uploads.remove(i);
                    return Event::Flag(Err(format!("Upload failed for '{}'", path)));
                }
                self.server.insert(path, bytes);
                Event::Flag(Ok(true))
            }
            Action::Download(_, path) => Event::Bytes(download(&self.server, &path)),
            Action::Exists(_, path) => Event::Flag(Ok(self.server.contains_key(&path))),
            Action::ExistsNonEmpty(_, path) => {
                Event::Flag(Ok(self.server.get(&path).map(|b| !b.is_empty()).unwrap_or(false)))
            }
            Action::Remove(_, path) => Event::Flag(Ok(self.server.remove(&path).is_some())),
            Action::CoverExtension(path) => Event::Extension(local::extension(&path)),
            Action::FileExists(path) => Event::Present(self.files.contains_key(&path)),
            Action::Locate(file) => Event::Located(local::locate(&file)),
            Action::ReadFile(path) => Event::File(self.files.get(&path).map(|b| Ok(b.clone()))),
            Action::WriteFile(path, bytes) => {
                self.files.insert(path, bytes);
                Event::Unit(Ok(()))
            }
            Action::FetchCovers(_, covers) => {
                self.covers.extend(covers);
                Event::Done
            }
            Action::EncodeBook(x) => self.note(Note::Book(x)),
            Action::EncodeProgress(x) => self.note(Note::Progress(x)),
            Action::EncodeBookmarks(x) => self.note(Note::Bookmarks(x)),
            Action::EncodeHighlights(x) => self.note(Note::Highlights(x)),
            Action::EncodeIndex(x) => self.note(Note::Index(x)),
            Action::DecodeBook(bytes) => Event::BookPayload(match self.noted(&bytes) {
                Some(Note::Book(x)) => Ok(copy_book(x)),
                _ => Err("expected value at line 1 column 1".to_string()),
            }),
            Action::DecodeProgress(bytes) => Event::CloudProgress(match self.noted(&bytes) {
                Some(Note::Progress(x)) => Ok(copy_progress(x)),
                _ => Err("expected value at line 1 column 1".to_string()),
            }),
            Action::DecodeBookmarks(bytes) => Event::CloudBookmarks(match self.noted(&bytes) {
                Some(Note::Bookmarks(x)) => Ok(BookBookmarksFile {
                    book_uuid: x.book_uuid.clone(),
                    updated_at: x.updated_at,
                    bookmarks: x.bookmarks.clone(),
                }),
                _ => Err("expected value at line 1 column 1".to_string()),
            }),
            Action::DecodeHighlights(bytes) => Event::CloudHighlights(match self.noted(&bytes) {
                Some(Note::Highlights(x)) => Ok(BookHighlightsFile {
                    book_uuid: x.book_uuid.clone(),
                    updated_at: x.updated_at,
                    highlights: x.highlights.clone(),
                }),
                _ => Err("expected value at line 1 column 1".to_string()),
            }),
            Action::DecodeIndex(bytes) => Event::Index(match self.noted(&bytes) {
                Some(Note::Index(x)) => Ok(copy_index(x)),
                _ => Err("expected value at line 1 column 1".to_string()),
            }),
            Action::Emit(event) => {
                self.announced.push(event);
                Event::Done
            }
            Action::Run(_) => panic!("a task is not a plain action"),
        }
    }

    fn run(&mut self, task: Task) -> Event {
        let (mut runner, mut outcome) = Runner::start(task);
        loop {
            match outcome {
                Outcome::Ask(action) => {
                    let event = self.perform(action);
                    outcome = runner.answer(event);
                }
                Outcome::Tell(event) => return event,
            }
        }
    }

    fn sync(&mut self, task: Task) -> Result<SyncResult, String> {
        match self.run(task) {
            Event::Synced(result) => result,
            _ => panic!("not a synchronisation"),
        }
    }

    fn flag(&mut self, task: Task) -> Result<bool, String> {
        match self.run(task) {
            Event::Flag(result) => result,
            _ => panic!("not a flag"),
        }
    }

    fn sync_progress(&mut self, uuid: &str) -> Result<ProgressSyncResult, String> {
        match self.run(Task::SyncProgress(uuid.to_string())) {
            Event::ProgressSynced(result) => result,
            _ => panic!("not a progress report"),
        }
    }

    fn import(&mut self, uuid: &str) -> Result<Book, String> {
        match self.run(Task::ImportBook(uuid.to_string(), "/docs".to_string())) {
            Event::Imported(result) => result,
            _ => panic!("not a book"),
        }
    }

    /// Takes over what another device has left on the server.
    fn share(&mut self, other: World) {
        self.server = other.server;
        self.notes = other.notes;
    }
}

fn device() -> World {
    let mut w = World::default();
    w.settings = Some(Settings {
        web_dav_url: "dav.example.com".to_string(),
        web_dav_username: "user".to_string(),
        web_dav_enabled: true,
        web_dav_last_sync: None,
        rest: "dark".to_string(),
    });
    w.secrets.insert("webdav_password".to_string(), "pass".to_string());
    w
}

fn book(uuid: &str) -> Book {
    Book {
        id: Some(1),
        uuid: uuid.to_string(),
        title: format!("Title {}", uuid),
        author: "Author".to_string(),
        cover_path: None,
        total_chapters: 1,
        date_added: 1_700_000_000_000,
        status: "reading".to_string(),
        tags: vec![],
    }
}

fn chapter(uuid: &str) -> Chapter {
    Chapter {
        id: Some(5),
        book_uuid: uuid.to_string(),
        chapter_index: 0,
        title: "One".to_string(),
        paragraphs: vec!["p".to_string()],
    }
}

fn read(uuid: &str, chapter: i32, last_read: i64) -> ReadingProgress {
    ReadingProgress {
        id: Some(2),
        book_uuid: uuid.to_string(),
        current_chapter_index: chapter,
        current_paragraph_index: 4,
        current_character_offset: 8,
        last_read,
    }
}

fn bookmark(paragraph: i32, date: i64, content: &str) -> Bookmark {
    Bookmark {
        id: None,
        book_uuid: "b".to_string(),
        chapter_index: 0,
        paragraph_index: paragraph,
        content: content.to_string(),
        date_added: date,
    }
}

fn texts(list: &[Bookmark]) -> Vec<&str> {
    list.iter().map(|b| b.content.as_str()).collect()
}

fn uuids(index: &SyncDataFile) -> Vec<&str> {
    index.books.iter().map(|b| b.uuid.as_str()).collect()
}

fn b() -> String {
    "b".to_string()
}

#[test]
fn test_webdav_password_storage() {
    let mut w = World::default();

    let set_res = w.perform(config::save_webdav_password("secret_pass_123".to_string()));
    assert!(matches!(set_res, Event::Unit(Ok(()))));

    let loaded = w.perform(config::get_webdav_password());
    assert!(matches!(loaded, Event::Secret(Ok(Some(p))) if p == "secret_pass_123"));

    let del_res = w.perform(config::delete_webdav_password());
    assert!(matches!(del_res, Event::Unit(Ok(()))));

    let after_delete = w.perform(config::get_webdav_password());
    assert!(matches!(after_delete, Event::Secret(Ok(None))));
}

fn client_of(w: &mut World) -> Result<WebDavClient, String> {
    match w.run(Task::Client) {
        Event::Client(result) => result,
        _ => panic!("not a client"),
    }
}

#[test]
fn the_saved_account_is_used() {
    let mut w = World::default();
    w.settings = Some(Settings {
        web_dav_url: String::new(),
        web_dav_username: String::new(),
        web_dav_enabled: false,
        web_dav_last_sync: Some(9),
        rest: "{\"theme\":\"dark\"}".to_string(),
    });
    let saved = w.run(Task::SaveConfig(
        " dav.example.com ".to_string(),
        " me ".to_string(),
        Some("pass".to_string()),
    ));
    assert!(matches!(saved, Event::Unit(Ok(()))));
    let settings = w.settings.as_ref().unwrap();
    assert_eq!(settings.web_dav_url, "dav.example.com");
    assert_eq!(settings.web_dav_username, "me");
    assert!(settings.web_dav_enabled);
    assert_eq!(settings.web_dav_last_sync, Some(9));
    assert_eq!(settings.rest, "{\"theme\":\"dark\"}");
    let client = client_of(&mut w).unwrap();
    assert_eq!(client.base_url, "https://dav.example.com");
    assert_eq!(client.auth_header, "Basic bWU6cGFzcw==");
    assert_eq!(w.flag(Task::TestConnection(None, None, None)), Ok(true));
    assert_eq!(w.client.as_ref().unwrap().auth_header, "Basic bWU6cGFzcw==");
}

#[test]
fn an_account_that_is_given_is_tested() {
    let mut w = World::default();
    let given = Task::TestConnection(
        Some("http://h".to_string()),
        Some("u".to_string()),
        Some("p".to_string()),
    );
    assert_eq!(w.flag(given), Ok(true));
    assert_eq!(w.client.as_ref().unwrap().base_url, "http://h");
    let partly = Task::TestConnection(Some("http://h".to_string()), None, Some("p".to_string()));
    assert_eq!(w.flag(partly), Err("App settings not initialized".to_string()));
}

#[test]
fn without_an_account_there_is_no_client() {
    let mut w = World::default();
    assert_eq!(client_of(&mut w).err().unwrap(), "App settings not initialized");
    let saved = w.run(Task::SaveConfig("a".to_string(), "u".to_string(), Some("p".to_string())));
    assert!(matches!(saved, Event::Unit(Ok(()))));
    assert!(w.settings.is_none());
    assert_eq!(w.secrets["webdav_password"], "p");

    let mut w = device();
    w.run(Task::SaveConfig("a".to_string(), "  ".to_string(), None));
    assert_eq!(client_of(&mut w).err().unwrap(), "WebDAV is not configured or disabled");
    assert_eq!(w.secrets["webdav_password"], "pass");

    let mut w = device();
    w.secrets.clear();
    assert_eq!(client_of(&mut w).err().unwrap(), "WebDAV password is not set");
    w.secrets.insert("webdav_password".to_string(), String::new());
    assert_eq!(client_of(&mut w).err().unwrap(), "WebDAV password is not set");
    assert_eq!(w.sync(Task::ForcePush(true)).err().unwrap(), "WebDAV password is not set");
}

#[test]
fn the_client_that_was_made_last_is_kept() {
    let mut w = device();
    assert!(w.cache.0.client().is_none());
    let client = client_of(&mut w).unwrap();
    let kept = w.cache.0.client().unwrap();
    assert_eq!(kept.base_url, client.base_url);
    assert_eq!(kept.auth_header, client.auth_header);

    w.run(Task::SaveConfig("b.example.com".to_string(), "me".to_string(), None));
    w.sync_progress("b").unwrap();
    assert_eq!(w.cache.0.client().unwrap().base_url, "https://b.example.com");

    w.run(Task::SaveConfig(String::new(), "me".to_string(), None));
    assert!(client_of(&mut w).is_err());
    w.settings = None;
    assert!(client_of(&mut w).is_err());
    assert_eq!(w.cache.0.client().unwrap().base_url, "https://b.example.com");
}

#[test]
fn whether_an_http_client_can_be_built_decides() {
    match MakeClient::finish("h", " u ", "p", Ok(reqwest::Client::new())) {
        Move::Next(MakeClient::Cached { client }, Action::CacheClient(kept)) => {
            assert_eq!(client.base_url, "https://h");
            assert_eq!(client.auth_header, "Basic dTpw");
            assert_eq!(kept.auth_header, client.auth_header);
        }
        _ => panic!("no client"),
    }
    match MakeClient::finish("h", "u", "p", Err("no TLS".to_string())) {
        Move::End(Err(e)) => assert_eq!(e, "Failed to build HTTP client: no TLS"),
        _ => panic!("the failure was lost"),
    }
    match config::test_account("http://h", "u", "p", Ok(reqwest::Client::new())) {
        Move::Next(_, Action::Probe(client)) => assert_eq!(client.base_url, "http://h"),
        _ => panic!("not asked"),
    }
    match config::test_account("http://h", "u", "p", Err("no TLS".to_string())) {
        Move::End(Err(e)) => assert_eq!(e, "Failed to build HTTP client: no TLS"),
        _ => panic!("the failure was lost"),
    }
}

#[test]
fn failures_of_the_database_are_passed_on() {
    let next = config::get_or_init_client();
    let state = match next {
        Move::Next(state, Action::GetSettings) => state,
        _ => panic!("settings were not asked for"),
    };
    match state.advance(Event::Settings(Err("locked".to_string()))) {
        Move::End(Err(e)) => assert_eq!(e, "locked"),
        _ => panic!("the failure was lost"),
    }
    let state = match config::get_or_init_client() {
        Move::Next(state, _) => state,
        _ => panic!("settings were not asked for"),
    };
    match state.advance(Event::Done) {
        Move::End(Err(e)) => assert_eq!(e, "Unexpected reply"),
        _ => panic!("an odd reply was taken"),
    }
}

#[test]
fn progress_is_pushed_and_pulled() {
    let mut w = device();
    w.books.push(book("b"));
    let report = w.sync_progress("b").unwrap();
    assert_eq!(report.status, "noChange");
    assert_eq!(report.cloud_last_read, None);
    assert_eq!(report.message, None);
    assert!(w.history.is_empty());
    assert_eq!(w.settings.as_ref().unwrap().web_dav_last_sync, None);

    w.progress.insert(b(), read("b", 3, 100));
    let report = w.sync_progress("b").unwrap();
    assert_eq!(report.status, "updatedCloud");
    assert_eq!(report.message.as_deref(), Some("Uploaded local progress to cloud"));
    assert_eq!(report.cloud_chapter_index, Some(3));
    assert_eq!(report.cloud_paragraph_index, Some(4));
    assert_eq!(report.cloud_character_offset, Some(8));
    assert_eq!(report.cloud_last_read, Some(100));
    assert_eq!(w.cloud_progress("b").unwrap().chapter_index, 3);
    assert_eq!(w.history.len(), 1);
    assert_eq!(w.history[0].action, "push");
    assert_eq!(w.history[0].status, "success");
    assert_eq!(
        w.history[0].details,
        "{\"bookTitle\":\"Title b\",\"chapterIndex\":3,\"deviceName\":\"This Device\",\"paragraphIndex\":4}"
    );
    assert!(w.settings.as_ref().unwrap().web_dav_last_sync.unwrap() > 1_700_000_000_000);

    let report = w.sync_progress("b").unwrap();
    assert_eq!(report.status, "noChange");
    assert_eq!(report.cloud_last_read, Some(100));
    assert_eq!(w.history.len(), 1);

    w.progress.insert(b(), read("b", 5, 101));
    let report = w.sync_progress("b").unwrap();
    assert_eq!(report.message.as_deref(), Some("Local is newer, updated cloud"));
    assert_eq!(w.cloud_progress("b").unwrap().chapter_index, 5);

    let mut other = device();
    other.share(w);
    let report = other.sync_progress("b").unwrap();
    assert_eq!(report.status, "updatedLocal");
    assert_eq!(report.message.as_deref(), Some("Updated local progress from cloud"));
    assert_eq!(other.progress["b"].current_chapter_index, 5);
    assert_eq!(other.progress["b"].id, None);
    assert_eq!(other.history[0].action, "pull");
    assert!(other.history[0].details.contains("\"bookTitle\":\"Unknown Book\""));

    other.progress.insert(b(), read("b", 0, 7));
    let report = other.sync_progress("b").unwrap();
    assert_eq!(report.message.as_deref(), Some("Cloud is newer, updated local"));
    assert_eq!(other.progress["b"].last_read, 101);
}

#[test]
fn garbled_progress_counts_as_none() {
    let mut w = device();
    w.progress.insert(b(), read("b", 3, 100));
    w.server.insert("/AudireReader/progress/b.json".to_string(), b"garbled".to_vec());
    let report = w.sync_progress("b").unwrap();
    assert_eq!(report.message.as_deref(), Some("Uploaded local progress to cloud"));
    w.server.insert("/AudireReader/progress/b.json".to_string(), vec![]);
    let report = w.sync_progress("b").unwrap();
    assert_eq!(report.message.as_deref(), Some("Uploaded local progress to cloud"));
}

#[test]
fn bookmarks_are_brought_together() {
    let mut w = device();
    w.bookmarks.insert(b(), vec![bookmark(2, 1, "two"), bookmark(1, 1, "one")]);
    assert_eq!(w.flag(Task::SyncBookmarks(b())), Ok(false));
    assert_eq!(w.folders, vec!["/AudireReader/bookmarks"]);
    assert_eq!(w.cloud_bookmarks("b"), vec!["one", "two"]);
    assert_eq!(texts(&w.bookmarks["b"]), vec!["two", "one"]);

    let mut other = device();
    other.share(w);
    other.bookmarks.insert(b(), vec![bookmark(1, 9, "newer"), bookmark(3, 1, "three")]);
    assert_eq!(other.flag(Task::SyncBookmarks(b())), Ok(true));
    assert_eq!(texts(&other.bookmarks["b"]), vec!["newer", "two", "three"]);
    assert_eq!(other.cloud_bookmarks("b"), vec!["newer", "two", "three"]);
    assert_eq!(other.flag(Task::SyncBookmarks(b())), Ok(false));
}

#[test]
fn highlights_are_brought_together() {
    let mark = |start: i32| Highlight {
        id: None,
        book_uuid: b(),
        chapter_index: 0,
        paragraph_index: 0,
        start_offset: Some(start),
        end_offset: Some(9),
        content: String::new(),
        date_added: 1,
    };
    let mut w = device();
    w.highlights.insert(b(), vec![mark(2)]);
    assert_eq!(w.flag(Task::SyncHighlights(b())), Ok(false));
    assert_eq!(w.folders, vec!["/AudireReader/highlights"]);
    let mut other = device();
    other.share(w);
    other.highlights.insert(b(), vec![mark(1)]);
    assert_eq!(other.flag(Task::SyncHighlights(b())), Ok(true));
    let starts: Vec<Option<i32>> =
        other.highlights["b"].iter().map(|h| h.start_offset).collect();
    assert_eq!(starts, vec![Some(1), Some(2)]);
    assert_eq!(other.flag(Task::SyncHighlights(b())), Ok(false));
}

#[test]
fn a_book_travels_with_its_cover() {
    let mut w = device();
    let mut original = book("b");
    original.cover_path = Some("/pictures/cover.png".to_string());
    w.books.push(original);
    w.chapters.insert(b(), vec![chapter("b")]);
    w.files.insert("/pictures/cover.png".to_string(), vec![1, 2, 3]);
    assert_eq!(w.flag(Task::ExportBook(b())), Ok(true));
    assert_eq!(w.folders.len(), 6);
    assert_eq!(w.folders[1], "/AudireReader/books");
    assert!(w.server["/AudireReader/books/b.json.gz"].starts_with(&[0x1f, 0x8b]));
    assert_eq!(w.server["/AudireReader/covers/b.png"], vec![1, 2, 3]);

    let mut other = device();
    other.share(w);
    let copy = other.import("b").unwrap();
    assert_eq!(copy.title, "Title b");
    assert_eq!(copy.date_added, 1_700_000_000_000);
    assert_eq!(copy.cover_path.as_deref(), Some("/docs/covers/b.png"));
    assert_eq!(other.files["/docs/covers/b.png"], vec![1, 2, 3]);
    assert_eq!(other.chapters["b"][0].paragraphs, vec!["p"]);
    assert_eq!(other.chapters["b"][0].id, None);
    assert_eq!(other.books.len(), 1);
    assert_eq!(other.books[0].status, "unread");
}

#[test]
fn books_that_cannot_be_had() {
    let mut w = device();
    assert_eq!(w.flag(Task::ExportBook(b())), Err("Book not found: b".to_string()));

    let missing = w.import("b").unwrap_err();
    assert!(missing.starts_with("File nội dung truyện 'b' trên WebDAV bị thiếu"), "{}", missing);

    w.server.insert("/NovelReader/books/b.json".to_string(), b"garbled".to_vec());
    assert_eq!(
        w.import("b").unwrap_err(),
        "Failed to parse book JSON (7 bytes received): expected value at line 1 column 1"
    );

    let empty = audire_sync::contents::pack(&Vec::new()).unwrap();
    w.server.insert("/AudireReader/books/b.json".to_string(), empty);
    assert_eq!(w.import("b").unwrap_err(), "Decoded JSON data for book 'b' is empty (0 bytes)");

    w.server.insert("/AudireReader/books/b.json.gz".to_string(), vec![0x1f, 0x8b, 1]);
    let broken = w.import("b").unwrap_err();
    assert!(broken.starts_with("Failed to decompress gzip book data: "), "{}", broken);
}

#[test]
fn a_failed_upload_of_contents_is_reported() {
    let mut w = device();
    w.books.push(book("b"));
    w.failing_uploads.push("/AudireReader/books/b.json.gz".to_string());
    assert_eq!(
        w.flag(Task::ExportBook(b())),
        Err("Upload failed for '/AudireReader/books/b.json.gz'".to_string())
    );
}

#[test]
fn the_library_is_synchronised() {
    let mut w = device();
    w.books.push(book("a"));
    w.books.push(book("b"));
    w.progress.insert("a".to_string(), read("a", 1, 5));
    let result = w.sync(Task::SyncLibrary(None)).unwrap();
    assert!(result.success);
    assert!(!result.local_changed);
    assert_eq!(result.message, "Library and progress synchronized successfully");
    assert_eq!(uuids(w.index()), vec!["a", "b"]);
    assert_eq!(w.index().version, 1);
    assert!(w.server.contains_key("/AudireReader/books/a.json.gz"));
    assert!(w.cloud_progress("a").is_some());
    assert!(w.server.contains_key("/AudireReader/bookmarks/b.json"));
    assert!(w.server.contains_key("/AudireReader/highlights/b.json"));
    assert_eq!(w.folders[..6].join(" "), "/AudireReader /AudireReader/covers /AudireReader/books /AudireReader/progress /AudireReader/bookmarks /AudireReader/highlights");
    let kinds: Vec<(&str, i32, i32, &str)> = w
        .announced
        .iter()
        .map(|e| {
            (e.event_type.as_str(), e.current, e.total, e.message.as_deref().unwrap_or(""))
        })
        .collect();
    assert_eq!(
        kinds,
        vec![
            ("syncStarted", 0, 100, "Initializing WebDAV sync..."),
            ("bookStatus", 1, 2, "Uploading book: Title a"),
            ("bookStatus", 2, 2, "Uploading book: Title b"),
            ("syncFinished", 100, 100, "Sync completed successfully"),
        ]
    );
    let last = w.history.last().unwrap();
    assert_eq!(last.action, "sync_library");
    assert_eq!(last.details, "Synced 2 local books successfully");
    assert!(w.settings.as_ref().unwrap().web_dav_last_sync.is_some());
    assert!(w.covers.is_empty());

    let uploads = w.uploads.len();
    w.sync(Task::SyncLibrary(Some("/docs".to_string()))).unwrap();
    assert_eq!(uuids(w.index()), vec!["a", "b"]);
    assert!(!w.uploads[uploads..].iter().any(|p| p.contains("/books/")));
}

#[test]
fn contents_that_got_lost_are_sent_again() {
    let mut w = device();
    w.books.push(book("a"));
    w.sync(Task::SyncLibrary(None)).unwrap();
    w.server.insert("/AudireReader/books/a.json.gz".to_string(), vec![]);
    w.sync(Task::SyncLibrary(None)).unwrap();
    assert!(!w.server["/AudireReader/books/a.json.gz"].is_empty());
    assert_eq!(uuids(w.index()), vec!["a"]);
}

#[test]
fn a_deletion_reaches_the_other_device() {
    let mut w = device();
    w.books.push(book("a"));
    w.books.push(book("b"));
    w.sync(Task::SyncLibrary(None)).unwrap();
    let result = w.sync(Task::DeleteFromCloud("a".to_string())).unwrap();
    assert_eq!(result.message, "Deleted book a from cloud");
    assert!(!w.server.keys().any(|p| p.contains("/a.")));
    assert_eq!(uuids(w.index()), vec!["b"]);
    assert_eq!(w.index().deleted[0].uuid(), "a");
    match w.run(Task::FetchCloudBooks(None)) {
        Event::CloudBooks(Ok(books)) => {
            assert_eq!(books.len(), 1);
            assert_eq!(books[0].uuid, "b");
        }
        _ => panic!("no listing"),
    }

    let mut other = device();
    other.books.push(book("a"));
    other.books.push(book("c"));
    other.share(w);
    let result = other.sync(Task::SyncLibrary(None)).unwrap();
    assert!(result.local_changed);
    assert_eq!(other.books.len(), 1);
    assert_eq!(other.books[0].uuid, "c");
    assert_eq!(uuids(other.index()), vec!["b", "c"]);
    assert!(!other.server.contains_key("/AudireReader/books/a.json.gz"));
}

#[test]
fn saving_the_index_is_tried_three_times() {
    let path = "/AudireReader/sync_data.json".to_string();
    let mut w = device();
    w.books.push(book("a"));
    w.failing_uploads = vec![path.clone(), path.clone()];
    assert!(w.sync(Task::SyncLibrary(None)).is_ok());
    assert_eq!(uuids(w.index()), vec!["a"]);

    let mut w = device();
    w.books.push(book("a"));
    w.failing_uploads = vec![path.clone(), path.clone(), path.clone(), path.clone()];
    assert_eq!(
        w.sync(Task::SyncLibrary(None)).unwrap_err(),
        "Failed to save sync index on WebDAV after 3 attempts"
    );
    assert_eq!(w.uploads.iter().filter(|p| **p == path).count(), 3);
    assert_eq!(w.failing_uploads.len(), 1);
    assert!(w.history.is_empty());
    assert_eq!(w.announced.last().unwrap().event_type, "bookStatus");
}

#[test]
fn a_book_that_cannot_be_copied_is_not_listed() {
    let mut w = device();
    w.books.push(book("a"));
    w.books.push(book("b"));
    w.failing_uploads.push("/AudireReader/books/a.json.gz".to_string());
    w.sync(Task::SyncLibrary(None)).unwrap();
    assert_eq!(uuids(w.index()), vec!["b"]);
}

#[test]
fn an_old_index_moves_to_the_new_place() {
    let mut w = device();
    let mut index = audire_sync::index::new_index(NOON);
    audire_sync::index::add_book(
        &mut index,
        audire_sync::index::make_entry(&book("old"), &None, NOON),
    );
    w.put_index("/NovelReader/sync_data.json", index);
    w.books.push(book("a"));
    w.sync(Task::SyncLibrary(None)).unwrap();
    assert_eq!(uuids(w.index()), vec!["old", "a"]);

    w.put_index("/NovelReader/sync_data.json", audire_sync::index::new_index(NOON));
    w.sync(Task::SyncLibrary(None)).unwrap();
    assert_eq!(uuids(w.index()), vec!["old", "a"]);
}

#[test]
fn covers_are_fetched_for_a_folder() {
    let mut w = device();
    let mut with_cover = book("a");
    with_cover.cover_path = Some("/c/a.webp".to_string());
    let mut plain = book("p");
    plain.cover_path = Some("/c/p".to_string());
    w.books = vec![with_cover, plain, book("n")];
    w.sync(Task::SyncLibrary(Some("/docs".to_string()))).unwrap();
    let places: Vec<(String, String)> =
        w.covers.iter().map(|c| (c.remote.clone(), local::locate(&c.local))).collect();
    assert_eq!(
        places,
        vec![
            ("/AudireReader/covers/a.webp".to_string(), "/docs/covers/a.webp".to_string()),
            ("/AudireReader/covers/p.jpg".to_string(), "/docs/covers/p.jpg".to_string()),
        ]
    );
    match w.run(Task::FetchCloudBooks(None)) {
        Event::CloudBooks(Ok(books)) => {
            assert_eq!(books.len(), 3);
            assert_eq!(books[0].cover_extension.as_deref(), Some(".webp"));
            assert_eq!(books[1].cover_extension, None);
            assert!(books[1].has_cover);
            assert!(!books[2].has_cover);
        }
        _ => panic!("no listing"),
    }
    assert_eq!(w.covers.len(), 2);
}

#[test]
fn only_missing_covers_are_fetched() {
    let mut w = device();
    let client = client_of(&mut w).unwrap();
    let cover = |name: &str| CoverFetch {
        remote: format!("/AudireReader/covers/{}", name),
        local: LocalFile {
            dir: "/docs".to_string(),
            folder: "covers".to_string(),
            name: name.to_string(),
        },
    };
    w.server.insert("/AudireReader/covers/a.jpg".to_string(), vec![1]);
    w.server.insert("/AudireReader/covers/c.jpg".to_string(), vec![3]);
    w.files.insert("/docs/covers/a.jpg".to_string(), vec![9]);
    let covers = vec![cover("a.jpg"), cover("b.jpg"), cover("c.jpg")];
    let done = w.run(Task::FetchMissingCovers(client.clone(), covers));
    assert!(matches!(done, Event::Unit(Ok(()))));
    assert_eq!(w.files["/docs/covers/a.jpg"], vec![9]);
    assert!(!w.files.contains_key("/docs/covers/b.jpg"));
    assert_eq!(w.files["/docs/covers/c.jpg"], vec![3]);
    assert!(matches!(
        w.run(Task::FetchMissingCovers(client, vec![])),
        Event::Unit(Ok(()))
    ));
}

#[test]
fn without_an_index_no_books_are_listed() {
    let mut w = device();
    assert!(matches!(w.run(Task::FetchCloudBooks(None)), Event::CloudBooks(Ok(books)) if books.is_empty()));
    w.server.insert("/AudireReader/sync_data.json".to_string(), b"garbled".to_vec());
    assert!(matches!(w.run(Task::FetchCloudBooks(None)), Event::CloudBooks(Err(e)) if e == "expected value at line 1 column 1"));
    w.server.insert("/AudireReader/sync_data.json".to_string(), vec![]);
    assert!(matches!(w.run(Task::FetchCloudBooks(None)), Event::CloudBooks(Err(_))));
}

#[test]
fn a_push_overwrites_the_server() {
    let mut w = device();
    let mut index = audire_sync::index::new_index(NOON);
    index.deleted.push(SyncDeletedItem::Simple("x".to_string()));
    w.put_index("/AudireReader/sync_data.json", index);
    w.books = vec![book("a"), book("b")];
    w.progress.insert("b".to_string(), read("b", 2, 1));
    w.bookmarks.insert(b(), vec![bookmark(1, 1, "mine")]);
    let result = w.sync(Task::ForcePush(false)).unwrap();
    assert_eq!(result.message, "Force push completed successfully");
    assert!(!result.local_changed);
    assert_eq!(uuids(w.index()), vec!["a", "b"]);
    assert!(w.index().deleted.is_empty());
    assert_eq!(w.cloud_progress("b").unwrap().chapter_index, 2);
    assert!(w.cloud_progress("a").is_none());
    assert_eq!(w.cloud_bookmarks("b"), vec!["mine"]);
    assert!(w.server.contains_key("/AudireReader/highlights/a.json"));
    assert_eq!(w.history[0].action, "force_push_all");
    assert_eq!(w.history[0].details, "Force pushed 2 books to cloud");
}

#[test]
fn a_push_of_progress_leaves_the_index_alone() {
    let mut w = device();
    w.books = vec![book("a")];
    w.progress.insert("a".to_string(), read("a", 2, 1));
    w.sync(Task::ForcePush(true)).unwrap();
    assert!(!w.server.contains_key("/AudireReader/sync_data.json"));
    assert!(!w.server.contains_key("/AudireReader/books/a.json.gz"));
    assert!(w.cloud_progress("a").is_some());
    assert_eq!(w.history[0].action, "force_push_progress");

    w.failing_uploads.push("/AudireReader/sync_data.json".to_string());
    assert_eq!(
        w.sync(Task::ForcePush(false)).unwrap_err(),
        "Upload failed for '/AudireReader/sync_data.json'"
    );
}

#[test]
fn a_pull_overwrites_this_device() {
    let mut w = device();
    w.books = vec![book("a")];
    w.chapters.insert("a".to_string(), vec![chapter("a")]);
    w.progress.insert("a".to_string(), read("a", 2, 1));
    w.bookmarks.insert("a".to_string(), vec![bookmark(1, 1, "theirs")]);
    w.sync(Task::ForcePush(false)).unwrap();

    let mut other = device();
    other.share(w);
    other.progress.insert("a".to_string(), read("a", 9, 99));
    other.bookmarks.insert("a".to_string(), vec![bookmark(1, 9, "mine")]);
    other.books.push(book("only here"));
    let result = other.sync(Task::ForcePull(false, "/docs".to_string())).unwrap();
    assert_eq!(result.message, "Force pull completed successfully");
    assert!(result.local_changed);
    assert_eq!(other.books.len(), 2);
    assert_eq!(other.progress["a"].current_chapter_index, 2);
    assert_eq!(texts(&other.bookmarks["a"]), vec!["theirs"]);
    assert_eq!(other.history.last().unwrap().action, "force_pull_all");
    assert_eq!(other.history.last().unwrap().details, "Force pulled cloud data to local");
}

#[test]
fn a_pull_of_progress_fetches_no_books() {
    let mut w = device();
    w.books = vec![book("a")];
    w.progress.insert("a".to_string(), read("a", 2, 1));
    w.sync(Task::ForcePush(false)).unwrap();
    let mut other = device();
    other.share(w);
    other.sync(Task::ForcePull(true, "/docs".to_string())).unwrap();
    assert!(other.books.is_empty());
    other.books.push(book("a"));
    other.sync(Task::ForcePull(true, "/docs".to_string())).unwrap();
    assert_eq!(other.progress["a"].current_chapter_index, 2);
    assert_eq!(other.history.last().unwrap().action, "force_pull_progress");
}

#[test]
fn a_single_book_is_pushed_and_pulled() {
    let mut w = device();
    let mut original = book("a");
    original.cover_path = Some("/c/a.gif".to_string());
    w.books = vec![original, book("b")];
    w.sync(Task::ForcePushBook(b())).unwrap();
    let result = w.sync(Task::ForcePushBook("a".to_string())).unwrap();
    assert!(result.success);
    assert_eq!(result.message, "Pushed book a to cloud");
    assert_eq!(uuids(w.index()), vec!["b", "a"]);
    assert_eq!(w.index().books[1].cover_extension.as_deref(), Some(".gif"));
    w.sync(Task::ForcePushBook("a".to_string())).unwrap();
    assert_eq!(uuids(w.index()), vec!["b", "a"]);
    assert_eq!(
        w.sync(Task::ForcePushBook("zz".to_string())).unwrap_err(),
        "Book not found: zz"
    );

    let mut other = device();
    other.share(w);
    let result = other.sync(Task::ForcePullBook("a".to_string(), "/docs".to_string())).unwrap();
    assert_eq!(result.message, "Pulled book a from cloud");
    assert!(result.local_changed);
    assert_eq!(other.books[0].uuid, "a");
    assert_eq!(other.books[0].cover_path, None);
    let result =
        other.sync(Task::DownloadVirtualBook(b(), "/docs".to_string())).unwrap();
    assert_eq!(result.message, "Downloaded virtual book Title b");
    assert_eq!(other.books.len(), 2);
    assert!(other.sync(Task::ForcePullBook("zz".to_string(), "/docs".to_string())).is_err());
}

#[test]
fn deleting_without_an_index_succeeds() {
    let mut w = device();
    let result = w.sync(Task::DeleteFromCloud(b())).unwrap();
    assert!(result.success && !result.local_changed);
    assert!(w.server.is_empty());
}

#[test]
fn files_are_copied() {
    let mut w = device();
    let client = client_of(&mut w).unwrap();
    w.files.insert("/here".to_string(), vec![9]);
    assert_eq!(
        w.flag(Task::UploadFile(client.clone(), "/r".to_string(), "/here".to_string())),
        Ok(true)
    );
    assert_eq!(
        w.flag(Task::UploadFile(client.clone(), "/r".to_string(), "/gone".to_string())),
        Err("Local file does not exist: /gone".to_string())
    );
    assert_eq!(
        w.flag(Task::DownloadFile(client.clone(), "/r".to_string(), "/d/f/n".to_string())),
        Ok(true)
    );
    assert_eq!(w.files["/d/f/n"], vec![9]);
    assert_eq!(
        w.flag(Task::DownloadFile(client.clone(), "/x".to_string(), "/d/f/x".to_string())),
        Err("Download failed for '/x' with status: 404 Not Found".to_string())
    );
    assert!(!w.files.contains_key("/d/f/x"));
    let state = match client.download_file("/r", "/full") {
        Move::Next(state, Action::Download(_, path)) => {
            assert_eq!(path, "/r");
            state
        }
        _ => panic!("nothing was asked for"),
    };
    let state = match state.advance(Event::Bytes(Ok(vec![1]))) {
        Move::Next(state, Action::WriteFile(path, bytes)) => {
            assert_eq!((path.as_str(), bytes), ("/full", vec![1]));
            state
        }
        _ => panic!("nothing was written"),
    };
    match state.advance(Event::Unit(Err("no space left".to_string()))) {
        Move::End(Err(e)) => assert_eq!(e, "no space left"),
        _ => panic!("the failure was lost"),
    }
}

#[test]
fn tasks_begin_under_their_own_names() {
    assert!(matches!(library::sync_all(None), Move::Next(_, Action::Emit(_))));
    assert!(matches!(library::sync_library(None), Move::Next(_, Action::Emit(_))));
    assert!(matches!(
        single::upload_single_book(b()),
        Move::Next(_, Action::Run(Task::ExportBook(u))) if u == "b"
    ));
    assert!(matches!(single::force_pull_book(b(), b()), Move::Next(_, Action::Run(Task::ImportBook(_, _)))));
    assert!(matches!(single::delete_book_from_cloud(b()), Move::Next(_, Action::Run(Task::Client))));
    assert!(matches!(single::download_virtual_book(b(), b()), Move::Next(_, Action::Run(Task::ImportBook(_, _)))));
    assert!(matches!(single::force_push_book(b()), Move::Next(_, Action::Run(Task::ExportBook(_)))));
    assert!(matches!(push::force_push(true), Move::Next(_, Action::GetAllBooks)));
    assert!(matches!(pull::force_pull(true, b()), Move::Next(_, Action::Run(Task::Client))));
    assert!(matches!(export::export_and_upload_book(b()), Move::Next(_, Action::GetBook(_))));
    assert!(matches!(import::download_and_import_book(b(), b()), Move::Next(_, Action::Run(Task::Client))));
    assert!(matches!(cloud_books::fetch_cloud_books(None), Move::Next(_, Action::Run(Task::Client))));
    assert!(matches!(progress::sync_book_progress(b()), Move::Next(_, Action::Run(Task::Client))));
    assert!(matches!(bookmarks::sync_book_bookmarks(b()), Move::Next(_, Action::Run(Task::Client))));
    assert!(matches!(highlights::sync_book_highlights(b()), Move::Next(_, Action::Run(Task::Client))));
    assert!(matches!(record::record_sync_success_timestamp(), Move::Next(_, Action::GetSettings)));
    assert!(matches!(config::test_webdav_connection(None, None, None), Move::Next(_, Action::Run(Task::Client))));
}

#[test]
fn the_time_is_noted() {
    let mut w = device();
    assert!(matches!(w.run(Task::RecordTimestamp), Event::Unit(Ok(()))));
    assert!(w.settings.as_ref().unwrap().web_dav_last_sync.is_some());
    let mut w = World::default();
    assert!(matches!(w.run(Task::RecordTimestamp), Event::Unit(Ok(()))));
    assert!(w.settings.is_none());
}

#[test]
fn replies_come_at_an_instant() {
    let (mut runner, outcome) = Runner::start(Task::RecordTimestamp);
    assert!(matches!(outcome, Outcome::Ask(Action::GetSettings)));
    let settings = device().settings;
    match runner.resume(Event::Settings(Ok(settings)), NOON) {
        Outcome::Ask(Action::SaveSettings(s)) => {
            assert_eq!(s.web_dav_last_sync, Some(1_700_000_000_000));
            assert_eq!(s.web_dav_url, "dav.example.com");
        }
        _ => panic!("the settings were not saved"),
    }
    assert!(matches!(runner.resume(Event::Done, NOON), Outcome::Tell(Event::Unit(Ok(())))));
    assert!(matches!(runner.resume(Event::Done, NOON), Outcome::Tell(Event::Done)));
}

#[test]
fn packing_and_unpacking_may_fail() {
    match export::ExportBook::ready(b(), None, None, Err("full".to_string())) {
        Move::End(Err(e)) => assert_eq!(e, "full"),
        _ => panic!("the failure was lost"),
    }
    assert!(matches!(
        export::ExportBook::ready(b(), None, None, Ok(vec![1])),
        Move::Next(_, Action::Run(Task::Client))
    ));
    let client = client_of(&mut device()).unwrap();
    match import::ImportBook::decode(client.clone(), b(), b(), Err("torn".to_string())) {
        Move::End(Err(e)) => assert_eq!(e, "torn"),
        _ => panic!("the failure was lost"),
    }
    assert!(matches!(
        import::ImportBook::decode(client, b(), b(), Ok(vec![7])),
        Move::Next(_, Action::DecodeBook(json)) if json == vec![7]
    ));
}

#[test]
fn a_push_passes_small_failures_over() {
    let mut w = device();
    let client = client_of(&mut w).unwrap();
    let shelf = push::Shelf { client, books: vec![book("a")], progress_only: true };
    let next = push::ForcePush::Progress { shelf, at: 0 }
        .advance(Event::Progress(Err("locked".to_string())), NOON);
    let state = match next {
        Move::Next(state, Action::GetBookmarks(uuid)) => {
            assert_eq!(uuid, "a");
            state
        }
        _ => panic!("bookmarks were not asked for"),
    };
    let state = match state.advance(Event::Bookmarks(Err("locked".to_string())), NOON) {
        Move::Next(state, Action::GetHighlights(_)) => state,
        _ => panic!("highlights were not asked for"),
    };
    match state.advance(Event::Highlights(Err("locked".to_string())), NOON) {
        Move::Next(_, Action::InsertHistory(entry)) => {
            assert_eq!(entry.timestamp, 1_700_000_000_000);
            assert_eq!(entry.action, "force_push_progress");
            assert_eq!(entry.details, "Force pushed 1 books to cloud");
        }
        _ => panic!("the history was not told"),
    }
}

#[test]
fn a_machine_out_of_place_ends() {
    let mut w = device();
    let client = client_of(&mut w).unwrap();
    let shelf = push::Shelf { client, books: vec![], progress_only: true };
    match (push::ForcePush::Progress { shelf, at: 3 }).advance(Event::Done, NOON) {
        Move::End(Err(e)) => assert_eq!(e, "Unexpected reply"),
        _ => panic!("there is no such book"),
    }
}
