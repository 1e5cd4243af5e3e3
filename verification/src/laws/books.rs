//! What holds of books that travel from one device to another.
use vstd::prelude::*;

use crate::codec;
use crate::contents;
use crate::models::{BookView, ChapterView};
use crate::payload::SyncBookPayloadView;
use crate::protocol::{ActionView, EventView, MoveView, TaskView};
use crate::remote;
use crate::tasks::export::ExportBookView;
use crate::tasks::import;
use crate::tasks::import::ImportBookView;
use crate::time::Instant;
use crate::world;
use crate::world::World;

verus! {

/// How a task that copies a book to the server goes on.
pub open spec fn export_after() -> spec_fn(ExportBookView, EventView, Instant) -> MoveView<
    ExportBookView,
    bool,
> {
    |s: ExportBookView, e: EventView, now: Instant| s.after(e, now)
}

/// What comes of copying a book to the server.
pub open spec fn exported(w: World, uuid: Seq<char>, clock: spec_fn(nat) -> Instant) -> (
    Option<Result<bool, Seq<char>>>,
    World,
) {
    world::carried_out(
        ExportBookView::start(uuid),
        export_after(),
        w,
        clock,
        14,
    )
}

/// The extension of a book's cover, as far as its path shows one.
pub open spec fn cover_extension(w: World, book: BookView) -> Option<Seq<char>> {
    match book.cover_path {
        Some(path) => (w.extension)(path),
        None => None,
    }
}

/// What the server is to store of a book.
pub open spec fn stored(w: World, book: BookView, clock: spec_fn(nat) -> Instant) -> SyncBookPayloadView {
    contents::stored_book(
        book,
        world::list_of(w.chapters, book.uuid),
        cover_extension(w, book),
        if book.cover_path is Some {
            clock(12)
        } else {
            clock(13)
        },
    )
}

/// The server once a book was copied there.
pub open spec fn server_with(w: World, book: BookView, packed: Seq<u8>) -> Map<Seq<char>, Seq<u8>> {
    let server = w.server.insert(remote::book_path(book.uuid), packed);
    match book.cover_path {
        Some(path) => match world::look_up(w.files, path) {
            Some(bytes) => server.insert(
                remote::cover_path(
                    book.uuid,
                    "."@ + cover_extension(w, book).unwrap_or("jpg"@),
                ),
                bytes,
            ),
            None => server,
        },
        None => server,
    }
}

/// Carries out the making of folders.
proof fn lemma_filled(
    w: World,
    uuid: Seq<char>,
    cover: Option<Seq<char>>,
    extension: Option<Seq<char>>,
    packed: Seq<u8>,
    made: int,
    clock: spec_fn(nat) -> Instant,
    n: nat,
)
    requires
        0 <= made <= 6,
        n >= 6 - made,
    ensures
        world::carried_out(
            ExportBookView::fill(w.client, uuid, cover, extension, packed, made),
            export_after(),
            w,
            clock,
            n,
        ) == world::carried_out(
            ExportBookView::fill(w.client, uuid, cover, extension, packed, 6),
            export_after(),
            w,
            clock,
            (n - (6 - made)) as nat,
        ),
    decreases 6 - made,
{
    if made < 6 {
        world::lemma_step(
            ExportBookView::Folders {
                client: w.client,
                uuid,
                cover,
                extension,
                packed,
                made: made + 1,
            },
            ActionView::Mkdir(w.client, remote::book_folders()[made]),
            export_after(),
            w,
            clock,
            n,
        );
        lemma_filled(w, uuid, cover, extension, packed, made + 1, clock, (n - 1) as nat);
    }
}

/// Carries out what follows once the book was written down.
proof fn lemma_encoded(
    w: World,
    book: BookView,
    payload: SyncBookPayloadView,
    packed: Seq<u8>,
    clock: spec_fn(nat) -> Instant,
    n: nat,
)
    requires
        codec::gzip_encoding((w.notation.book)(payload)) == Ok::<Seq<u8>, Seq<char>>(packed),
        n >= 11,
    ensures
        world::carried_out(
            MoveView::Next(
                ExportBookView::Encoded {
                    uuid: book.uuid,
                    cover: book.cover_path,
                    extension: cover_extension(w, book),
                },
                ActionView::EncodeBook(payload),
            ),
            export_after(),
            w,
            clock,
            n,
        ) == (
            Some(Ok::<bool, Seq<char>>(true)),
            World { server: server_with(w, book, packed), cached: Some(w.client), ..w },
        ),
{
    let f = export_after();
    let uuid = book.uuid;
    let cover = book.cover_path;
    let extension = cover_extension(w, book);
    let client = w.client;
    world::lemma_step(
        ExportBookView::Encoded { uuid, cover, extension },
        ActionView::EncodeBook(payload),
        f,
        w,
        clock,
        n,
    );
    world::lemma_step(
        ExportBookView::Client { uuid, cover, extension, packed },
        ActionView::Run(TaskView::Client),
        f,
        w,
        clock,
        (n - 1) as nat,
    );
    let w = World { cached: Some(w.client), ..w };
    lemma_filled(w, uuid, cover, extension, packed, 0, clock, (n - 2) as nat);
    let upload = ActionView::Upload(client, remote::book_path(uuid), packed);
    world::lemma_step(
        ExportBookView::Uploaded { client, uuid, cover, extension },
        upload,
        f,
        w,
        clock,
        (n - 8) as nat,
    );
    let w1 = World { server: w.server.insert(remote::book_path(uuid), packed), ..w };
    match cover {
        Some(path) => {
            world::lemma_step(
                ExportBookView::Cover { client, uuid, path, extension },
                ActionView::FileExists(path),
                f,
                w1,
                clock,
                (n - 9) as nat,
            );
            if w.files.dom().contains(path) {
                let target = remote::cover_path(uuid, "."@ + extension.unwrap_or("jpg"@));
                let send = ActionView::Run(TaskView::UploadFile(client, target, path));
                world::lemma_step(ExportBookView::Sent, send, f, w1, clock, (n - 10) as nat);
                let (w2, _) = w1.perform(send, clock((n - 10) as nat));
                world::lemma_end(Ok(true), f, w2, clock, (n - 11) as nat);
            } else {
                world::lemma_end(Ok(true), f, w1, clock, (n - 10) as nat);
            }
        },
        None => {
            world::lemma_end(Ok(true), f, w1, clock, (n - 9) as nat);
        },
    }
}

/// Copying a book to the server succeeds if the book is there and can be packed. Afterwards the
/// server has its contents, and its cover, if that is there; nothing else has changed but the client
/// that is kept.
pub proof fn law_books_are_exported(
    w: World,
    book: BookView,
    packed: Seq<u8>,
    clock: spec_fn(nat) -> Instant,
)
    requires
        world::look_up(w.books, book.uuid) == Some(book),
        codec::gzip_encoding((w.notation.book)(stored(w, book, clock))) == Ok::<
            Seq<u8>,
            Seq<char>,
        >(packed),
    ensures
        exported(w, book.uuid, clock) == (
            Some(Ok::<bool, Seq<char>>(true)),
            World { server: server_with(w, book, packed), cached: Some(w.client), ..w },
        ),
{
    let f = export_after();
    let uuid = book.uuid;
    let chapters = world::list_of(w.chapters, uuid);
    world::lemma_step(
        ExportBookView::Book { uuid },
        ActionView::GetBook(uuid),
        f,
        w,
        clock,
        14,
    );
    world::lemma_step(
        ExportBookView::Chapters { uuid, book },
        ActionView::GetChapters(uuid),
        f,
        w,
        clock,
        13,
    );
    match book.cover_path {
        Some(path) => {
            world::lemma_step(
                ExportBookView::Extension { uuid, book, chapters },
                ActionView::CoverExtension(path),
                f,
                w,
                clock,
                12,
            );
            lemma_encoded(w, book, stored(w, book, clock), packed, clock, 11);
        },
        None => {
            lemma_encoded(w, book, stored(w, book, clock), packed, clock, 12);
        },
    }
}

/// A book that is not there is not exported; nothing changes.
pub proof fn law_missing_books_are_not_exported(
    w: World,
    uuid: Seq<char>,
    clock: spec_fn(nat) -> Instant,
)
    requires
        !w.books.dom().contains(uuid),
    ensures
        exported(w, uuid, clock) == (
            Some(Err::<bool, Seq<char>>("Book not found: "@ + uuid)),
            w,
        ),
{
    let f = export_after();
    world::lemma_step(
        ExportBookView::Book { uuid },
        ActionView::GetBook(uuid),
        f,
        w,
        clock,
        14,
    );
    world::lemma_end(Err("Book not found: "@ + uuid), f, w, clock, 13);
}

/// How a task that copies a book from the server goes on.
pub open spec fn import_after() -> spec_fn(ImportBookView, EventView, Instant) -> MoveView<
    ImportBookView,
    BookView,
> {
    |s: ImportBookView, e: EventView, now: Instant| s.after(e, now)
}

/// What comes of copying a book from the server.
pub open spec fn imported(
    w: World,
    uuid: Seq<char>,
    dir: Seq<char>,
    clock: spec_fn(nat) -> Instant,
) -> (Option<Result<BookView, Seq<char>>>, World) {
    world::carried_out(
        ImportBookView::start(uuid, dir),
        import_after(),
        w,
        clock,
        11,
    )
}

/// Carries out what follows once the cover is settled.
proof fn lemma_inserted(
    w: World,
    payload: SyncBookPayloadView,
    cover: Option<Seq<char>>,
    now: Instant,
    clock: spec_fn(nat) -> Instant,
    n: nat,
)
    requires
        n >= 3,
    ensures
        ({
            let book = contents::restored_book(payload, cover, now);
            let chapters = contents::restored_chapters(payload);
            let (result, after) = world::carried_out(
                ImportBookView::insert(payload, cover, now),
                import_after(),
                w,
                clock,
                n,
            );
            &&& result == Some(Ok::<BookView, Seq<char>>(book))
            &&& world::look_up(after.books, payload.uuid) == Some(book)
            &&& chapters.len() > 0 ==> world::list_of(after.chapters, payload.uuid) == chapters
            &&& after.server == w.server
            &&& after.files == w.files
        }),
{
    let f = import_after();
    let book = contents::restored_book(payload, cover, now);
    let chapters = contents::restored_chapters(payload);
    world::lemma_step(
        ImportBookView::Book { book, chapters },
        ActionView::InsertBook(book),
        f,
        w,
        clock,
        n,
    );
    let (w1, _) = w.perform(ActionView::InsertBook(book), clock(n));
    world::lemma_step(
        ImportBookView::Chapters { book },
        ActionView::InsertChapters(chapters),
        f,
        w1,
        clock,
        (n - 1) as nat,
    );
    let (w2, _) = w1.perform(ActionView::InsertChapters(chapters), clock((n - 1) as nat));
    world::lemma_step(
        ImportBookView::Shrunk { book },
        ActionView::ShrinkMemory,
        f,
        w2,
        clock,
        (n - 2) as nat,
    );
    world::lemma_end(Ok(book), f, w2, clock, (n - 3) as nat);
}

/// When it is settled what becomes of the cover.
pub open spec fn import_time(
    w: World,
    payload: SyncBookPayloadView,
    uuid: Seq<char>,
    clock: spec_fn(nat) -> Instant,
) -> Instant {
    match payload.cover_extension {
        Some(extension) => if w.server.dom().contains(
            remote::cover_path(uuid, import::dotted(extension)),
        ) {
            clock(6)
        } else {
            clock(8)
        },
        None => clock(9),
    }
}

/// Copying a book from the server succeeds if its contents are there and can be read. Afterwards
/// this device has the book with its chapters, and its cover, if the server has that.
pub proof fn law_books_are_imported(
    w: World,
    payload: SyncBookPayloadView,
    uuid: Seq<char>,
    dir: Seq<char>,
    clock: spec_fn(nat) -> Instant,
)
    requires
        w.served(remote::book_path(uuid)) matches Some(file) && contents::unpacked(file) == Ok::<
            Seq<u8>,
            Seq<char>,
        >((w.notation.book)(payload)),
        w.notation.faithful(),
    ensures
        ({
            let (result, after) = imported(w, uuid, dir, clock);
            let cover = match payload.cover_extension {
                Some(extension) => w.served(remote::cover_path(uuid, import::dotted(extension))),
                None => None,
            };
            let place = (w.place)(
                import::local_cover(dir, uuid, import::dotted(payload.cover_extension->0)),
            );
            let path = if cover is Some {
                Some(place)
            } else {
                None
            };
            let book = contents::restored_book(payload, path, import_time(w, payload, uuid, clock));
            &&& result == Some(Ok::<BookView, Seq<char>>(book))
            &&& world::look_up(after.books, payload.uuid) == Some(book)
            &&& payload.chapters.len() > 0 ==> world::list_of(after.chapters, payload.uuid)
                == contents::restored_chapters(payload)
            &&& after.server == w.server
            &&& after.files == match cover {
                Some(bytes) => w.files.insert(place, bytes),
                None => w.files,
            }
        }),
{
    let f = import_after();
    let client = w.client;
    let file = w.served(remote::book_path(uuid))->0;
    let json = (w.notation.book)(payload);
    assert(remote::book_places(uuid)[0] == remote::book_path(uuid));
    world::lemma_step(
        ImportBookView::Client { uuid, dir },
        ActionView::Run(TaskView::Client),
        f,
        w,
        clock,
        11,
    );
    let w = World { cached: Some(w.client), ..w };
    world::lemma_step(
        ImportBookView::Contents { client, uuid, dir, tried: 1 },
        ActionView::Download(client, remote::book_path(uuid)),
        f,
        w,
        clock,
        10,
    );
    assert(json.len() > 0);
    world::lemma_step(
        ImportBookView::Decoded { client, uuid, dir, received: json.len() as int },
        ActionView::DecodeBook(json),
        f,
        w,
        clock,
        9,
    );
    match payload.cover_extension {
        Some(extension) => {
            let extension = import::dotted(extension);
            let path = remote::cover_path(uuid, extension);
            world::lemma_step(
                ImportBookView::Cover { client, uuid, dir, payload, extension },
                ActionView::Exists(client, path),
                f,
                w,
                clock,
                8,
            );
            if w.server.dom().contains(path) {
                let local = import::local_cover(dir, uuid, extension);
                world::lemma_step(
                    ImportBookView::Placed { client, remote: path, payload },
                    ActionView::Locate(local),
                    f,
                    w,
                    clock,
                    7,
                );
                let place = (w.place)(local);
                let fetch = ActionView::Run(TaskView::DownloadFile(client, path, place));
                world::lemma_step(
                    ImportBookView::Fetched { payload, path: place },
                    fetch,
                    f,
                    w,
                    clock,
                    6,
                );
                let (w1, _) = w.perform(fetch, clock(6));
                let cover = if w.served(path) is Some {
                    Some(place)
                } else {
                    None
                };
                lemma_inserted(w1, payload, cover, clock(6), clock, 5);
            } else {
                lemma_inserted(w, payload, None, clock(8), clock, 7);
            }
        },
        None => {
            lemma_inserted(w, payload, None, clock(9), clock, 8);
        },
    }
}

/// The contents of a book and its cover are stored in different places.
proof fn lemma_places_differ(uuid: Seq<char>, extension: Seq<char>)
    ensures
        remote::book_path(uuid) != remote::cover_path(uuid, extension),
{
    reveal_strlit("/AudireReader/books/");
    reveal_strlit("/AudireReader/covers/");
    assert(remote::book_path(uuid)[14] == 'b');
    assert(remote::cover_path(uuid, extension)[14] == 'c');
}

/// The cover of a book, if it is there and not empty.
pub open spec fn cover_bytes(w: World, book: BookView) -> Option<Seq<u8>> {
    match book.cover_path {
        Some(path) => match world::look_up(w.files, path) {
            Some(bytes) => if bytes.len() > 0 {
                Some(bytes)
            } else {
                None
            },
            None => None,
        },
        None => None,
    }
}

/// Books travel: a book that one device has copied to the server is, copied from there by
/// another, the same book with the same chapters and the same cover. Its date of addition is the
/// same, to the millisecond, if it is one of the years 0 to 9999. The premises on the packed
/// contents and on the date are met by all that are sent: `ExportBook::advance` shows it.
pub proof fn law_books_travel(
    mine: World,
    theirs: World,
    book: BookView,
    packed: Seq<u8>,
    dir: Seq<char>,
    first: spec_fn(nat) -> Instant,
    second: spec_fn(nat) -> Instant,
)
    requires
        mine.notation.faithful(),
        theirs.notation == mine.notation,
        world::look_up(mine.books, book.uuid) == Some(book),
        codec::gzip_encoding((mine.notation.book)(stored(mine, book, first))) == Ok::<
            Seq<u8>,
            Seq<char>,
        >(packed),
        contents::keeps_bytes(packed, (mine.notation.book)(stored(mine, book, first))),
        contents::keeps_time(stored(mine, book, first).date_added, book.date_added),
        theirs.server == exported(mine, book.uuid, first).1.server,
    ensures
        ({
            let (result, after) = imported(theirs, book.uuid, dir, second);
            let chapters = world::list_of(mine.chapters, book.uuid);
            &&& result matches Some(Ok(copy)) && {
                &&& copy.uuid == book.uuid
                &&& copy.title == book.title
                &&& copy.author == book.author
                &&& copy.total_chapters == book.total_chapters
                &&& copy.status == "unread"@
                &&& copy.tags.len() == 0
                &&& (Instant::at_millis(book.date_added) matches Some(at) && at.plain())
                    ==> copy.date_added == book.date_added
                &&& world::look_up(after.books, book.uuid) == Some(copy)
                &&& cover_bytes(mine, book) is Some ==> copy.cover_path is Some && world::look_up(
                    after.files,
                    copy.cover_path->0,
                ) == cover_bytes(mine, book)
                &&& book.cover_path is None ==> copy.cover_path is None
            }
            &&& chapters.len() > 0 ==> world::list_of(after.chapters, book.uuid)
                == chapters.map_values(
                |c: ChapterView| ChapterView { id: None, book_uuid: book.uuid, ..c },
            )
        }),
{
    let payload = stored(mine, book, first);
    let chapters = world::list_of(mine.chapters, book.uuid);
    law_books_are_exported(mine, book, packed, first);
    reveal_strlit(".");
    reveal_strlit(".jpg");
    reveal_strlit("jpg");
    if let Some(path) = book.cover_path {
        let extension = "."@ + cover_extension(mine, book).unwrap_or("jpg"@);
        assert(payload.cover_extension->0 =~= extension);
        assert("."@.is_prefix_of(extension));
        assert(import::dotted(extension) == extension);
        lemma_places_differ(book.uuid, extension);
    }
    assert(theirs.served(remote::book_path(book.uuid)) == Some(packed));
    law_books_are_imported(theirs, payload, book.uuid, dir, second);
    let copies = chapters.map_values(
        |c: ChapterView| ChapterView { id: None, book_uuid: book.uuid, ..c },
    );
    assert(contents::restored_chapters(payload) =~= copies);
    if let Some(at) = Instant::at_millis(book.date_added) {
        assert(at.millis() == book.date_added);
    }
}

} // verus!
