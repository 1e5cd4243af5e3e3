//! What holds of the small tasks that the others rely on, told step by step.
use vstd::prelude::*;

use crate::client::ClientView;
use crate::laws::trace;
use crate::laws::trace::Exchange;
use crate::models::SettingsView;
use crate::protocol::{ActionView, CoverFetchView, EventView, MoveView, TaskView};
use crate::tasks::cloud_books::FetchMissingCoversView;
use crate::tasks::config::{MakeClientView, SaveConfigView};
use crate::tasks::files::{DownloadFileView, UploadFileView};
use crate::tasks::record;
use crate::tasks::record::{RecordProgressView, RecordTimestampView};
use crate::text;
use crate::time::Instant;
use crate::world;

verus! {

/// Sending a file reads that file, sends what is in it to the given place, and ends as that ends.
/// A file that is not there, or cannot be read, is not sent.
pub proof fn law_the_file_is_sent(
    client: ClientView,
    remote: Seq<char>,
    local: Seq<char>,
    bytes: Seq<u8>,
    error: Seq<char>,
    outcome: Result<bool, Seq<char>>,
)
    ensures
        UploadFileView::start(client, remote, local) matches MoveView::Next(first, action) && {
            &&& action == ActionView::ReadFile(local)
            &&& first.after(EventView::File(None)) == MoveView::<UploadFileView, bool>::End(
                Err("Local file does not exist: "@ + local),
            )
            &&& first.after(EventView::File(Some(Err(error)))) == MoveView::<
                UploadFileView,
                bool,
            >::End(Err(error))
            &&& first.after(EventView::File(Some(Ok(bytes)))) matches MoveView::Next(second, sends)
                && {
                &&& sends == ActionView::Upload(client, remote, bytes)
                &&& second.after(EventView::Flag(outcome)) == MoveView::<UploadFileView, bool>::End(
                    outcome,
                )
            }
        },
{
}

/// Fetching a file asks for the given place and writes what comes to the given file.
pub proof fn law_the_file_is_fetched(
    client: ClientView,
    remote: Seq<char>,
    local: Seq<char>,
    bytes: Seq<u8>,
    error: Seq<char>,
)
    ensures
        DownloadFileView::start(client, remote, local) matches MoveView::Next(first, action) && {
            &&& action == ActionView::Download(client, remote)
            &&& first.after(EventView::Bytes(Err(error))) == MoveView::<
                DownloadFileView,
                bool,
            >::End(Err(error))
            &&& first.after(EventView::Bytes(Ok(bytes))) matches MoveView::Next(second, writes) && {
                &&& writes == ActionView::WriteFile(local, bytes)
                &&& second.after(EventView::Unit(Ok(()))) == MoveView::<
                    DownloadFileView,
                    bool,
                >::End(Ok(true))
                &&& second.after(EventView::Unit(Err(error))) == MoveView::<
                    DownloadFileView,
                    bool,
                >::End(Err(error))
            }
        },
{
}

/// The line that the history gets tells of a success at this time, what was done, and by title,
/// chapter, paragraph and device what it was done to. The title is that of the book, if there is
/// one, and the device is this one unless another is named.
pub proof fn law_the_history_tells_of_progress(
    uuid: Seq<char>,
    name: Seq<char>,
    chapter: i32,
    paragraph: i32,
    device: Option<Seq<char>>,
    event: EventView,
    now: Instant,
    other: EventView,
    later: Instant,
)
    ensures
        RecordProgressView::start(uuid, name, chapter, paragraph, device) matches MoveView::Next(
            first,
            action,
        ) && {
            &&& action == ActionView::GetBook(uuid)
            &&& first.after(event, now) matches MoveView::Next(
                second,
                ActionView::InsertHistory(line),
            ) && {
                let title = if event matches EventView::Book(Ok(Some(_))) {
                    event->Book_0->Ok_0->0.title
                } else {
                    "Unknown Book"@
                };
                let by = if device is Some {
                    device->0
                } else {
                    "This Device"@
                };
                &&& line.id is None
                &&& line.timestamp == now.millis() as i64
                &&& line.action == name
                &&& line.status == "success"@
                &&& line.details == record::json_object_text(
                    "bookTitle"@,
                    title,
                    "chapterIndex"@,
                    chapter,
                    "paragraphIndex"@,
                    paragraph,
                    "deviceName"@,
                    by,
                )
                &&& second.after(other, later) == MoveView::<RecordProgressView, ()>::End(Ok(()))
            }
        },
{
}

/// The settings, where there are any, get the present time as that of the last synchronisation, and
/// keep everything else.
pub proof fn law_the_settings_are_stamped(
    settings: SettingsView,
    event: EventView,
    now: Instant,
    other: EventView,
    later: Instant,
)
    ensures
        RecordTimestampView::start() matches MoveView::Next(first, action) && {
            &&& action == ActionView::GetSettings
            &&& first.after(EventView::Settings(Ok(Some(settings))), now) matches MoveView::Next(
                second,
                ActionView::SaveSettings(saved),
            ) && {
                &&& saved.web_dav_last_sync == Some(now.millis() as i64)
                &&& saved.web_dav_url == settings.web_dav_url
                &&& saved.web_dav_username == settings.web_dav_username
                &&& saved.web_dav_enabled == settings.web_dav_enabled
                &&& saved.rest == settings.rest
                &&& second.after(other, later) == MoveView::<RecordTimestampView, ()>::End(Ok(()))
            }
            &&& !(event matches EventView::Settings(Ok(Some(_)))) ==> first.after(event, now)
                == MoveView::<RecordTimestampView, ()>::End(Ok(()))
        },
{
}

/// Saving the account puts the address and the name into the settings, without white space around
/// them, switches synchronisation on exactly if both are there, and keeps everything else. The password, if
/// one is given, is kept as a secret, as it is.
pub proof fn law_the_account_is_saved(
    url: Seq<char>,
    username: Seq<char>,
    password: Option<Seq<char>>,
    settings: SettingsView,
)
    ensures
        SaveConfigView::start(url, username, password) matches MoveView::Next(first, action) && {
            &&& action == ActionView::GetSettings
            &&& first.after(EventView::Settings(Ok(Some(settings)))) matches MoveView::Next(
                second,
                ActionView::SaveSettings(saved),
            ) && {
                &&& saved.web_dav_url == text::trimmed(url)
                &&& saved.web_dav_username == text::trimmed(username)
                &&& saved.web_dav_enabled <==> text::trimmed(url).len() > 0 && text::trimmed(
                    username,
                ).len() > 0
                &&& saved.web_dav_last_sync == settings.web_dav_last_sync
                &&& saved.rest == settings.rest
                &&& match password {
                    Some(secret) => trace::asks(
                        second.after(EventView::Unit(Ok(()))),
                        ActionView::SetSecret("webdav_password"@, secret),
                    ),
                    None => second.after(EventView::Unit(Ok(()))) == MoveView::<
                        SaveConfigView,
                        (),
                    >::End(Ok(())),
                }
            }
            &&& match password {
                Some(secret) => trace::asks(
                    first.after(EventView::Settings(Ok(None))),
                    ActionView::SetSecret("webdav_password"@, secret),
                ),
                None => first.after(EventView::Settings(Ok(None))) == MoveView::<
                    SaveConfigView,
                    (),
                >::End(Ok(())),
            }
        },
{
}

/// The client is made for the account of the settings and the password that is kept as a secret, if
/// synchronisation is on and all of them are there; it is kept, and it is what comes out.
pub proof fn law_the_client_is_made_for_the_account(
    settings: SettingsView,
    password: Seq<char>,
    built: Result<(), Seq<char>>,
    event: EventView,
)
    ensures
        MakeClientView::start() matches MoveView::Next(first, action) && {
            let told = first.after(EventView::Settings(Ok(Some(settings))), built);
            let ready = settings.web_dav_enabled && settings.web_dav_url.len() > 0
                && settings.web_dav_username.len() > 0;
            &&& action == ActionView::GetSettings
            &&& !ready ==> told == MoveView::<MakeClientView, ClientView>::End(
                Err("WebDAV is not configured or disabled"@),
            )
            &&& first.after(EventView::Settings(Ok(None)), built) == MoveView::<
                MakeClientView,
                ClientView,
            >::End(Err("App settings not initialized"@))
            &&& ready ==> (told matches MoveView::Next(second, asks) && {
                let known = second.after(EventView::Secret(Ok(Some(password))), built);
                &&& asks == ActionView::GetSecret("webdav_password"@)
                &&& second.after(EventView::Secret(Ok(None)), built) == MoveView::<
                    MakeClientView,
                    ClientView,
                >::End(Err("WebDAV password is not set"@))
                &&& password.len() == 0 ==> known == MoveView::<MakeClientView, ClientView>::End(
                    Err("WebDAV password is not set"@),
                )
                &&& password.len() > 0 && built is Err ==> known == MoveView::<
                    MakeClientView,
                    ClientView,
                >::End(Err("Failed to build HTTP client: "@ + built->Err_0))
                &&& password.len() > 0 && built is Ok ==> (known matches MoveView::Next(
                    third,
                    ActionView::CacheClient(client),
                ) && {
                    &&& client == ClientView::of(
                        settings.web_dav_url,
                        settings.web_dav_username,
                        password,
                    )
                    &&& third.after(event, built) == MoveView::<MakeClientView, ClientView>::End(
                        Ok(client),
                    )
                })
            })
        },
{
}

/// How fetching covers goes on.
pub open spec fn covers_after() -> spec_fn(FetchMissingCoversView, EventView, Instant) -> MoveView<
    FetchMissingCoversView,
    (),
> {
    |s: FetchMissingCoversView, e: EventView, now: Instant| s.after(e)
}

/// Where fetching covers has come to after some replies.
pub open spec fn covers_run(
    client: ClientView,
    covers: Seq<CoverFetchView>,
    replies: Seq<(EventView, Instant)>,
) -> MoveView<FetchMissingCoversView, ()> {
    world::brought_to(
        FetchMissingCoversView::visit(client, covers, 0),
        covers_after(),
        replies,
    )
}

/// What it has asked for and was told by then.
pub open spec fn covers_log(
    client: ClientView,
    covers: Seq<CoverFetchView>,
    replies: Seq<(EventView, Instant)>,
) -> Seq<Exchange> {
    trace::exchanges(FetchMissingCoversView::visit(client, covers, 0), covers_after(), replies)
}

/// Whether a cover was fetched from its place into a file.
pub open spec fn is_fetched(
    log: Seq<Exchange>,
    client: ClientView,
    cover: CoverFetchView,
    path: Seq<char>,
) -> bool {
    &&& trace::was_told(log, ActionView::Locate(cover.local), EventView::Located(path))
    &&& {
        ||| trace::was_told(log, ActionView::FileExists(path), EventView::Present(true))
        ||| trace::has_asked(
            log,
            ActionView::Run(TaskView::DownloadFile(client, cover.remote, path)),
        )
    }
}

/// Whether this device has a cover, as far as it could be had.
pub open spec fn is_seen_to(log: Seq<Exchange>, client: ClientView, cover: CoverFetchView) -> bool {
    exists|path: Seq<char>| #[trigger] is_fetched(log, client, cover, path)
}

spec fn seen_to(log: Seq<Exchange>, client: ClientView, covers: Seq<CoverFetchView>, n: int) -> bool {
    forall|k: int| 0 <= k < n ==> is_seen_to(log, client, #[trigger] covers[k])
}

proof fn lemma_seen_to_grows(
    log: Seq<Exchange>,
    last: Exchange,
    client: ClientView,
    covers: Seq<CoverFetchView>,
    n: int,
)
    ensures
        seen_to(log, client, covers, n) ==> seen_to(log.push(last), client, covers, n),
{
    trace::lemma_all_grows(log, last);
    if seen_to(log, client, covers, n) {
        assert forall|k: int| 0 <= k < n implies is_seen_to(
            log.push(last),
            client,
            #[trigger] covers[k],
        ) by {
            assert(is_seen_to(log, client, covers[k]));
            let path = choose|path: Seq<char>| #[trigger]
                is_fetched(log, client, covers[k], path);
            assert(is_fetched(log.push(last), client, covers[k], path));
        }
    }
}

spec fn covers_story(
    log: Seq<Exchange>,
    m: MoveView<FetchMissingCoversView, ()>,
    client: ClientView,
    covers: Seq<CoverFetchView>,
) -> bool {
    match m {
        MoveView::Next(state, action) => match state {
            FetchMissingCoversView::Placed { client: c, covers: l, at } => {
                &&& c == client && l == covers && 0 <= at < covers.len()
                &&& seen_to(log, client, covers, at)
                &&& action == ActionView::Locate(covers[at].local)
            },
            FetchMissingCoversView::Looked { client: c, covers: l, at, path } => {
                &&& c == client && l == covers && 0 <= at < covers.len()
                &&& seen_to(log, client, covers, at)
                &&& trace::was_told(
                    log,
                    ActionView::Locate(covers[at].local),
                    EventView::Located(path),
                )
                &&& action == ActionView::FileExists(path)
            },
            FetchMissingCoversView::Fetched { client: c, covers: l, at } => {
                &&& c == client && l == covers && 0 <= at < covers.len()
                &&& seen_to(log, client, covers, at)
                &&& action matches ActionView::Run(TaskView::DownloadFile(d, remote, path)) && d
                    == client && remote == covers[at].remote && trace::was_told(
                    log,
                    ActionView::Locate(covers[at].local),
                    EventView::Located(path),
                )
            },
        },
        MoveView::End(Ok(_)) => seen_to(log, client, covers, covers.len() as int),
        MoveView::End(Err(_)) => true,
    }
}

/// Once the covers were seen to, every one of them either was on this device before, in the place
/// where it belongs, or was asked for at its place on the server, to be put there.
pub proof fn law_every_cover_is_seen_to(
    client: ClientView,
    covers: Seq<CoverFetchView>,
    replies: Seq<(EventView, Instant)>,
)
    ensures
        covers_run(client, covers, replies) matches MoveView::End(Ok(_)) ==> forall|k: int|
            0 <= k < covers.len() ==> is_seen_to(
                covers_log(client, covers, replies),
                client,
                #[trigger] covers[k],
            ),
{
    let after = covers_after();
    let holds = |log: Seq<Exchange>, m: MoveView<FetchMissingCoversView, ()>|
        covers_story(log, m, client, covers);
    assert forall|
        log: Seq<Exchange>,
        state: FetchMissingCoversView,
        action: ActionView,
        event: EventView,
        now: Instant,
    |
        #![trigger holds(log, MoveView::Next(state, action)), after(state, event, now)]
        holds(log, MoveView::Next(state, action)) implies holds(
        log.push(Exchange { action, event, now }),
        after(state, event, now),
    ) by {
        let last = Exchange { action, event, now };
        let all = log.push(last);
        trace::lemma_all_grows(log, last);
        match state {
            FetchMissingCoversView::Placed { at, .. } => {
                lemma_seen_to_grows(log, last, client, covers, at);
            },
            FetchMissingCoversView::Looked { at, path, .. } => {
                lemma_seen_to_grows(log, last, client, covers, at);
                if event == EventView::Present(true) {
                    assert(is_fetched(all, client, covers[at], path));
                    assert(seen_to(all, client, covers, at + 1));
                }
            },
            FetchMissingCoversView::Fetched { at, .. } => {
                lemma_seen_to_grows(log, last, client, covers, at);
                if let ActionView::Run(TaskView::DownloadFile(_, _, path)) = action {
                    assert(is_fetched(all, client, covers[at], path));
                    assert(seen_to(all, client, covers, at + 1));
                }
            },
        }
    }
    trace::lemma_story(FetchMissingCoversView::visit(client, covers, 0), after, holds, replies);
}

} // verus!
