//! A world for the tasks to act in: this device, and a server that answers as it should. The laws
//! about whole tasks are stated in it.
use vstd::prelude::*;

use crate::client::ClientView;
use crate::models::{
    BookView, BookmarkView, ChapterView, HighlightView, ReadingProgressView, SettingsView,
    SyncHistoryEntryView,
};
use crate::payload::{
    BookBookmarksFileView, BookHighlightsFileView, SyncBookPayloadView, SyncDataFileView,
    SyncProgressPayloadView,
};
use crate::protocol::{ActionView, EventView, LocalFileView, MoveView, TaskView};
use crate::tasks::record;
use crate::time::Instant;

verus! {

/// How what the server stores is written down.
pub struct Notation {
    pub book: spec_fn(SyncBookPayloadView) -> Seq<u8>,
    pub progress: spec_fn(SyncProgressPayloadView) -> Seq<u8>,
    pub bookmarks: spec_fn(BookBookmarksFileView) -> Seq<u8>,
    pub highlights: spec_fn(BookHighlightsFileView) -> Seq<u8>,
    pub index: spec_fn(SyncDataFileView) -> Seq<u8>,
    pub read_book: spec_fn(Seq<u8>) -> Result<SyncBookPayloadView, Seq<char>>,
    pub read_progress: spec_fn(Seq<u8>) -> Result<SyncProgressPayloadView, Seq<char>>,
    pub read_bookmarks: spec_fn(Seq<u8>) -> Result<BookBookmarksFileView, Seq<char>>,
    pub read_highlights: spec_fn(Seq<u8>) -> Result<BookHighlightsFileView, Seq<char>>,
    pub read_index: spec_fn(Seq<u8>) -> Result<SyncDataFileView, Seq<char>>,
}

impl Notation {
    /// Whether what was written down is never empty, and reads back as what it was.
    pub open spec fn faithful(self) -> bool {
        &&& forall|x: SyncBookPayloadView| #[trigger]
            (self.book)(x).len() > 0 && (self.read_book)((self.book)(x)) == Ok::<_, Seq<char>>(x)
        &&& forall|x: SyncProgressPayloadView| #[trigger]
            (self.progress)(x).len() > 0 && (self.read_progress)((self.progress)(x)) == Ok::<
                _,
                Seq<char>,
            >(x)
        &&& forall|x: BookBookmarksFileView| #[trigger]
            (self.bookmarks)(x).len() > 0 && (self.read_bookmarks)((self.bookmarks)(x)) == Ok::<
                _,
                Seq<char>,
            >(x)
        &&& forall|x: BookHighlightsFileView| #[trigger]
            (self.highlights)(x).len() > 0 && (self.read_highlights)((self.highlights)(x)) == Ok::<
                _,
                Seq<char>,
            >(x)
        &&& forall|x: SyncDataFileView| #[trigger]
            (self.index)(x).len() > 0 && (self.read_index)((self.index)(x)) == Ok::<_, Seq<char>>(x)
    }
}

/// This device and the server.
pub struct World {
    /// How things are written down.
    pub notation: Notation,
    /// The client for the server.
    pub client: ClientView,
    /// The files on the server.
    pub server: Map<Seq<char>, Seq<u8>>,
    /// The client that is kept, if any is.
    pub cached: Option<ClientView>,
    /// The secrets of this device.
    pub secrets: Map<Seq<char>, Seq<char>>,
    /// The settings of this device, if there are any yet.
    pub settings: Option<SettingsView>,
    /// The books of this device, by their identifiers.
    pub books: Map<Seq<char>, BookView>,
    /// Their chapters.
    pub chapters: Map<Seq<char>, Seq<ChapterView>>,
    /// How far they have been read.
    pub progress: Map<Seq<char>, ReadingProgressView>,
    /// Their bookmarks.
    pub bookmarks: Map<Seq<char>, Seq<BookmarkView>>,
    /// Their highlights.
    pub highlights: Map<Seq<char>, Seq<HighlightView>>,
    /// The files of this device that matter here, by their paths.
    pub files: Map<Seq<char>, Seq<u8>>,
    /// The extension that a path has, if it has one.
    pub extension: spec_fn(Seq<char>) -> Option<Seq<char>>,
    /// The path of a file.
    pub place: spec_fn(LocalFileView) -> Seq<char>,
    /// The history.
    pub history: Seq<SyncHistoryEntryView>,
}

/// What a table holds under a key, if anything.
pub open spec fn look_up<V>(table: Map<Seq<char>, V>, key: Seq<char>) -> Option<V> {
    if table.dom().contains(key) {
        Some(table[key])
    } else {
        None
    }
}

/// The list that a table holds under a key; none is an empty one.
pub open spec fn list_of<V>(table: Map<Seq<char>, Seq<V>>, key: Seq<char>) -> Seq<V> {
    look_up(table, key).unwrap_or(Seq::empty())
}

/// What a server says of a file that is not there, or is empty.
pub open spec fn no_file() -> Seq<char> {
    "There is no such file, or it is empty"@
}

impl World {
    /// What is in a file of the server, if there is such a file and it is not empty.
    pub open spec fn served(self, path: Seq<char>) -> Option<Seq<u8>> {
        match look_up(self.server, path) {
            Some(bytes) => if bytes.len() > 0 {
                Some(bytes)
            } else {
                None
            },
            None => None,
        }
    }

    /// The world after an action, and what came of it. Only actions that concern what a world
    /// holds are acted on.
    pub open spec fn perform(self, action: ActionView, now: Instant) -> (World, EventView) {
        match action {
            ActionView::GetSettings => (self, EventView::Settings(Ok(self.settings))),
            ActionView::SaveSettings(settings) => (
                World { settings: Some(settings), ..self },
                EventView::Unit(Ok(())),
            ),
            ActionView::GetSecret(key) => (self, EventView::Secret(Ok(look_up(self.secrets, key)))),
            ActionView::SetSecret(key, secret) => (
                World { secrets: self.secrets.insert(key, secret), ..self },
                EventView::Unit(Ok(())),
            ),
            ActionView::DeleteSecret(key) => (
                World { secrets: self.secrets.remove(key), ..self },
                EventView::Unit(Ok(())),
            ),
            ActionView::CacheClient(client) => (
                World { cached: Some(client), ..self },
                EventView::Done,
            ),
            ActionView::GetBook(uuid) => (self, EventView::Book(Ok(look_up(self.books, uuid)))),
            ActionView::GetChapters(uuid) => (
                self,
                EventView::Chapters(Ok(list_of(self.chapters, uuid))),
            ),
            ActionView::InsertBook(book) => (
                World { books: self.books.insert(book.uuid, book), ..self },
                EventView::Unit(Ok(())),
            ),
            ActionView::InsertChapters(chapters) => (
                if chapters.len() > 0 {
                    World {
                        chapters: self.chapters.insert(chapters[0].book_uuid, chapters),
                        ..self
                    }
                } else {
                    self
                },
                EventView::Unit(Ok(())),
            ),
            ActionView::DeleteBook(uuid) => (
                World { books: self.books.remove(uuid), ..self },
                EventView::Unit(Ok(())),
            ),
            ActionView::GetProgress(uuid) => (
                self,
                EventView::Progress(Ok(look_up(self.progress, uuid))),
            ),
            ActionView::SaveProgress(progress) => (
                World { progress: self.progress.insert(progress.book_uuid, progress), ..self },
                EventView::Unit(Ok(())),
            ),
            ActionView::GetBookmarks(uuid) => (
                self,
                EventView::Bookmarks(Ok(list_of(self.bookmarks, uuid))),
            ),
            ActionView::ReplaceBookmarks(uuid, bookmarks) => (
                World { bookmarks: self.bookmarks.insert(uuid, bookmarks), ..self },
                EventView::Unit(Ok(())),
            ),
            ActionView::GetHighlights(uuid) => (
                self,
                EventView::Highlights(Ok(list_of(self.highlights, uuid))),
            ),
            ActionView::ReplaceHighlights(uuid, highlights) => (
                World { highlights: self.highlights.insert(uuid, highlights), ..self },
                EventView::Unit(Ok(())),
            ),
            ActionView::InsertHistory(entry) => (
                World { history: self.history.push(entry), ..self },
                EventView::Unit(Ok(())),
            ),
            ActionView::Mkdir(_, _) => (self, EventView::Flag(Ok(true))),
            ActionView::Upload(_, path, bytes) => (
                World { server: self.server.insert(path, bytes), ..self },
                EventView::Flag(Ok(true)),
            ),
            ActionView::Download(_, path) => (
                self,
                EventView::Bytes(
                    match self.served(path) {
                        Some(bytes) => Ok(bytes),
                        None => Err(no_file()),
                    },
                ),
            ),
            ActionView::Exists(_, path) => (
                self,
                EventView::Flag(Ok(self.server.dom().contains(path))),
            ),
            ActionView::ExistsNonEmpty(_, path) => (
                self,
                EventView::Flag(Ok(self.served(path) is Some)),
            ),
            ActionView::Remove(_, path) => (
                World { server: self.server.remove(path), ..self },
                EventView::Flag(Ok(self.server.dom().contains(path))),
            ),
            ActionView::CoverExtension(path) => (
                self,
                EventView::Extension((self.extension)(path)),
            ),
            ActionView::FileExists(path) => (
                self,
                EventView::Present(self.files.dom().contains(path)),
            ),
            ActionView::Locate(local) => (self, EventView::Located((self.place)(local))),
            ActionView::ReadFile(path) => (
                self,
                EventView::File(
                    match look_up(self.files, path) {
                        Some(bytes) => Some(Ok(bytes)),
                        None => None,
                    },
                ),
            ),
            ActionView::WriteFile(path, bytes) => (
                World { files: self.files.insert(path, bytes), ..self },
                EventView::Unit(Ok(())),
            ),
            ActionView::EncodeBook(x) => (self, EventView::Bytes(Ok((self.notation.book)(x)))),
            ActionView::EncodeProgress(x) => (
                self,
                EventView::Bytes(Ok((self.notation.progress)(x))),
            ),
            ActionView::EncodeBookmarks(x) => (
                self,
                EventView::Bytes(Ok((self.notation.bookmarks)(x))),
            ),
            ActionView::EncodeHighlights(x) => (
                self,
                EventView::Bytes(Ok((self.notation.highlights)(x))),
            ),
            ActionView::EncodeIndex(x) => (self, EventView::Bytes(Ok((self.notation.index)(x)))),
            ActionView::DecodeBook(bytes) => (
                self,
                EventView::BookPayload((self.notation.read_book)(bytes)),
            ),
            ActionView::DecodeProgress(bytes) => (
                self,
                EventView::CloudProgress((self.notation.read_progress)(bytes)),
            ),
            ActionView::DecodeBookmarks(bytes) => (
                self,
                EventView::CloudBookmarks((self.notation.read_bookmarks)(bytes)),
            ),
            ActionView::DecodeHighlights(bytes) => (
                self,
                EventView::CloudHighlights((self.notation.read_highlights)(bytes)),
            ),
            ActionView::DecodeIndex(bytes) => (
                self,
                EventView::Index((self.notation.read_index)(bytes)),
            ),
            ActionView::Run(TaskView::Client) => (
                World { cached: Some(self.client), ..self },
                EventView::Client(Ok(self.client)),
            ),
            ActionView::Run(TaskView::UploadFile(_, remote, local)) => match look_up(
                self.files,
                local,
            ) {
                Some(bytes) => (
                    World { server: self.server.insert(remote, bytes), ..self },
                    EventView::Flag(Ok(true)),
                ),
                None => (self, EventView::Flag(Err("Local file does not exist: "@ + local))),
            },
            ActionView::Run(TaskView::DownloadFile(_, remote, path)) => match self.served(remote) {
                Some(bytes) => (
                    World { files: self.files.insert(path, bytes), ..self },
                    EventView::Flag(Ok(true)),
                ),
                None => (self, EventView::Flag(Err(no_file()))),
            },
            ActionView::Run(TaskView::RecordTimestamp) => (
                World {
                    settings: match self.settings {
                        Some(settings) => Some(record::stamped(settings, now)),
                        None => None,
                    },
                    ..self
                },
                EventView::Unit(Ok(())),
            ),
            ActionView::Run(TaskView::RecordProgress(uuid, action, chapter, paragraph, device)) => {
                let title = match look_up(self.books, uuid) {
                    Some(book) => book.title,
                    None => "Unknown Book"@,
                };
                let details = record::progress_details(title, chapter, paragraph, device);
                (
                    World {
                        history: self.history.push(record::success_entry(now, action, details)),
                        ..self
                    },
                    EventView::Unit(Ok(())),
                )
            },
            _ => (self, EventView::Done),
        }
    }
}

/// What comes of a task in a world, in so many steps: its result, if it has ended by then, and the
/// world after it. `clock` tells the time of each step, by how many are left.
#[verifier::opaque]
pub open spec fn carried_out<S, R>(
    next: MoveView<S, R>,
    after: spec_fn(S, EventView, Instant) -> MoveView<S, R>,
    world: World,
    clock: spec_fn(nat) -> Instant,
    steps: nat,
) -> (Option<Result<R, Seq<char>>>, World)
    decreases steps,
{
    match next {
        MoveView::End(result) => (Some(result), world),
        MoveView::Next(state, action) => if steps == 0 {
            (None, world)
        } else {
            let (world, event) = world.perform(action, clock(steps));
            carried_out(
                after(state, event, clock(steps)),
                after,
                world,
                clock,
                (steps - 1) as nat,
            )
        },
    }
}

/// Where a task has come to after some replies, each with the time at which it came.
pub open spec fn brought_to<S, R>(
    first: MoveView<S, R>,
    after: spec_fn(S, EventView, Instant) -> MoveView<S, R>,
    replies: Seq<(EventView, Instant)>,
) -> MoveView<S, R>
    decreases replies.len(),
{
    if replies.len() == 0 {
        first
    } else {
        match brought_to(first, after, replies.drop_last()) {
            MoveView::Next(state, _) => after(state, replies.last().0, replies.last().1),
            MoveView::End(result) => MoveView::End(result),
        }
    }
}

/// A task that asks for an action goes on with what comes of it.
pub proof fn lemma_step<S, R>(
    state: S,
    action: ActionView,
    after: spec_fn(S, EventView, Instant) -> MoveView<S, R>,
    world: World,
    clock: spec_fn(nat) -> Instant,
    steps: nat,
)
    requires
        steps > 0,
    ensures
        ({
            let (next, event) = world.perform(action, clock(steps));
            carried_out(MoveView::Next(state, action), after, world, clock, steps) == carried_out(
                after(state, event, clock(steps)),
                after,
                next,
                clock,
                (steps - 1) as nat,
            )
        }),
{
    reveal_with_fuel(carried_out, 2);
}

/// A task that has ended stays as it is.
pub proof fn lemma_end<S, R>(
    result: Result<R, Seq<char>>,
    after: spec_fn(S, EventView, Instant) -> MoveView<S, R>,
    world: World,
    clock: spec_fn(nat) -> Instant,
    steps: nat,
)
    ensures
        carried_out(MoveView::End(result), after, world, clock, steps) == (Some(result), world),
{
    reveal_with_fuel(carried_out, 2);
}

} // verus!
