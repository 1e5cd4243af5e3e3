//! Keeping track: the sync history, and when synchronisation last went through.
use vstd::prelude::*;

use crate::models::{Settings, SettingsView, SyncHistoryEntry, SyncHistoryEntryView};
use crate::protocol::{Action, ActionView, Event, EventView, Move, MoveView};
use crate::time::Instant;

verus! {

/// The text of a JSON object with four members, two of them texts and two of them numbers.
pub uninterp spec fn json_object_text(
    key1: Seq<char>,
    text1: Seq<char>,
    key2: Seq<char>,
    number2: i32,
    key3: Seq<char>,
    number3: i32,
    key4: Seq<char>,
    text4: Seq<char>,
) -> Seq<char>;

/// The `Display` of a `serde_json::Value`: an object with four members, as compact JSON.
#[verifier::external_body]
fn json_object(
    key1: &str,
    text1: &str,
    key2: &str,
    number2: i32,
    key3: &str,
    number3: i32,
    key4: &str,
    text4: &str,
) -> (json: String)
    ensures
        json@ == json_object_text(key1@, text1@, key2@, number2, key3@, number3, key4@, text4@),
{
    let members = serde_json::Map::from_iter([
        (key1.to_string(), text1.into()),
        (key2.to_string(), number2.into()),
        (key3.to_string(), number3.into()),
        (key4.to_string(), text4.into()),
    ]);
    serde_json::Value::Object(members).to_string()
}

/// What the history tells of a synchronised book.
pub open spec fn progress_details(
    title: Seq<char>,
    chapter: i32,
    paragraph: i32,
    device: Option<Seq<char>>,
) -> Seq<char> {
    json_object_text(
        "bookTitle"@,
        title,
        "chapterIndex"@,
        chapter,
        "paragraphIndex"@,
        paragraph,
        "deviceName"@,
        device.unwrap_or("This Device"@),
    )
}

/// A line of the history that tells of a success.
pub open spec fn success_entry(
    now: Instant,
    action: Seq<char>,
    details: Seq<char>,
) -> SyncHistoryEntryView {
    SyncHistoryEntryView {
        id: None,
        timestamp: now.millis() as i64,
        action,
        status: "success"@,
        details,
    }
}

/// A line of the history that tells of a success.
pub fn history_entry(now: Instant, action: String, details: String) -> (r: SyncHistoryEntry)
    requires
        now.valid(),
    ensures
        r.deep_view() == success_entry(now, action@, details@),
{
    SyncHistoryEntry {
        id: None,
        timestamp: now.to_millis(),
        action,
        status: "success".to_string(),
        details,
    }
}

/// Noting in the history that the progress of a book was synchronised.
pub enum RecordProgress {
    /// The book was looked up.
    Book { action: String, chapter: i32, paragraph: i32, device: Option<String> },
    /// The line was handed over.
    Noted,
}

/// What a `RecordProgress` holds.
pub enum RecordProgressView {
    Book { action: Seq<char>, chapter: i32, paragraph: i32, device: Option<Seq<char>> },
    Noted,
}

impl DeepView for RecordProgress {
    type V = RecordProgressView;

    open spec fn deep_view(&self) -> RecordProgressView {
        match self {
            RecordProgress::Book { action, chapter, paragraph, device } => RecordProgressView::Book {
                action: action@,
                chapter: *chapter,
                paragraph: *paragraph,
                device: device.deep_view(),
            },
            RecordProgress::Noted => RecordProgressView::Noted,
        }
    }
}

impl RecordProgressView {
    /// The beginning.
    pub open spec fn start(
        uuid: Seq<char>,
        action: Seq<char>,
        chapter: i32,
        paragraph: i32,
        device: Option<Seq<char>>,
    ) -> MoveView<RecordProgressView, ()> {
        MoveView::Next(
            RecordProgressView::Book { action, chapter, paragraph, device },
            ActionView::GetBook(uuid),
        )
    }

    /// What follows a reply.
    pub open spec fn after(self, event: EventView, now: Instant) -> MoveView<RecordProgressView, ()> {
        match self {
            RecordProgressView::Book { action, chapter, paragraph, device } => {
                let title = match event {
                    EventView::Book(Ok(Some(book))) => book.title,
                    _ => "Unknown Book"@,
                };
                MoveView::Next(
                    RecordProgressView::Noted,
                    ActionView::InsertHistory(
                        success_entry(
                            now,
                            action,
                            progress_details(title, chapter, paragraph, device),
                        ),
                    ),
                )
            },
            RecordProgressView::Noted => MoveView::End(Ok(())),
        }
    }
}

/// Notes in the history that the progress of a book was synchronised: where to, and by which
/// device.
pub fn record_book_progress_sync(
    book_uuid: String,
    action: String,
    chapter_idx: i32,
    para_idx: i32,
    device: Option<String>,
) -> (r: Move<RecordProgress, ()>)
    ensures
        r.deep_view() == MoveView::<RecordProgressView, ()>::Next(
            RecordProgressView::Book {
                action: action@,
                chapter: chapter_idx,
                paragraph: para_idx,
                device: device.deep_view(),
            },
            ActionView::GetBook(book_uuid@),
        ),
        r.deep_view() == RecordProgressView::start(book_uuid@, action@, chapter_idx, para_idx, device.deep_view()),
{
    Move::Next(
        RecordProgress::Book { action, chapter: chapter_idx, paragraph: para_idx, device },
        Action::GetBook(book_uuid),
    )
}

impl RecordProgress {
    /// What follows a reply.
    pub fn advance(self, event: Event, now: Instant) -> (r: Move<RecordProgress, ()>)
        requires
            now.valid(),
        ensures
            r.deep_view() == self.deep_view().after(event.deep_view(), now),
    {
        match self {
            RecordProgress::Book { action, chapter, paragraph, device } => {
                let title = match event {
                    Event::Book(Ok(Some(book))) => book.title,
                    _ => "Unknown Book".to_string(),
                };
                let device = match device {
                    Some(device) => device,
                    None => "This Device".to_string(),
                };
                let details = json_object(
                    "bookTitle",
                    &title,
                    "chapterIndex",
                    chapter,
                    "paragraphIndex",
                    paragraph,
                    "deviceName",
                    &device,
                );
                Move::Next(
                    RecordProgress::Noted,
                    Action::InsertHistory(history_entry(now, action, details)),
                )
            },
            RecordProgress::Noted => Move::End(Ok(())),
        }
    }
}

/// Noting in the settings when synchronisation went through.
pub enum RecordTimestamp {
    /// The settings were asked for.
    Settings,
    /// The changed settings were handed over.
    Saved,
}

/// What a `RecordTimestamp` holds.
pub enum RecordTimestampView {
    Settings,
    Saved,
}

impl DeepView for RecordTimestamp {
    type V = RecordTimestampView;

    open spec fn deep_view(&self) -> RecordTimestampView {
        match self {
            RecordTimestamp::Settings => RecordTimestampView::Settings,
            RecordTimestamp::Saved => RecordTimestampView::Saved,
        }
    }
}

/// The settings with the time of the last synchronisation.
pub open spec fn stamped(settings: SettingsView, now: Instant) -> SettingsView {
    SettingsView { web_dav_last_sync: Some(now.millis() as i64), ..settings }
}

impl RecordTimestampView {
    /// The beginning.
    pub open spec fn start() -> MoveView<RecordTimestampView, ()> {
        MoveView::Next(RecordTimestampView::Settings, ActionView::GetSettings)
    }

    /// What follows a reply.
    pub open spec fn after(self, event: EventView, now: Instant) -> MoveView<RecordTimestampView, ()> {
        match (self, event) {
            (RecordTimestampView::Settings, EventView::Settings(Ok(Some(settings)))) => MoveView::Next(
                RecordTimestampView::Saved,
                ActionView::SaveSettings(stamped(settings, now)),
            ),
            _ => MoveView::End(Ok(())),
        }
    }
}

/// Notes in the settings, where there are any, when synchronisation went through.
pub fn record_sync_success_timestamp() -> (r: Move<RecordTimestamp, ()>)
    ensures
        r.deep_view() == MoveView::<RecordTimestampView, ()>::Next(
            RecordTimestampView::Settings,
            ActionView::GetSettings,
        ),
        r.deep_view() == RecordTimestampView::start(),
{
    Move::Next(RecordTimestamp::Settings, Action::GetSettings)
}

impl RecordTimestamp {
    /// What follows a reply.
    pub fn advance(self, event: Event, now: Instant) -> (r: Move<RecordTimestamp, ()>)
        requires
            now.valid(),
        ensures
            r.deep_view() == self.deep_view().after(event.deep_view(), now),
    {
        match (self, event) {
            (RecordTimestamp::Settings, Event::Settings(Ok(Some(settings)))) => {
                let settings = Settings {
                    web_dav_url: settings.web_dav_url,
                    web_dav_username: settings.web_dav_username,
                    web_dav_enabled: settings.web_dav_enabled,
                    web_dav_last_sync: Some(now.to_millis()),
                    rest: settings.rest,
                };
                Move::Next(RecordTimestamp::Saved, Action::SaveSettings(settings))
            },
            _ => Move::End(Ok(())),
        }
    }
}

} // verus!
