//! What holds of the stored password and of the configured account.
use vstd::prelude::*;

use crate::client;
use crate::client::ClientView;
use crate::models::SettingsView;
use crate::protocol::{ActionView, EventView, MoveView, TaskView};
use crate::tasks::config;
use crate::tasks::config::{MakeClientView, SaveConfigView};
use crate::text;
use crate::time::Instant;
use crate::world;
use crate::world::World;

verus! {

/// A password that was saved is read back.
pub proof fn law_saved_passwords_are_read_back(w: World, password: Seq<char>, now: Instant)
    ensures
        ({
            let key = config::SECRET_KEY_WEBDAV_PASSWORD@;
            let saved = w.perform(ActionView::SetSecret(key, password), now).0;
            saved.perform(ActionView::GetSecret(key), now).1 == EventView::Secret(
                Ok(Some(password)),
            )
        }),
{
}

/// A password that was deleted is gone.
pub proof fn law_deleted_passwords_are_gone(w: World, now: Instant)
    ensures
        ({
            let key = config::SECRET_KEY_WEBDAV_PASSWORD@;
            let deleted = w.perform(ActionView::DeleteSecret(key), now).0;
            deleted.perform(ActionView::GetSecret(key), now).1 == EventView::Secret(Ok(None))
        }),
{
}

/// How a task that saves the configuration goes on.
pub open spec fn save_after() -> spec_fn(SaveConfigView, EventView, Instant) -> MoveView<
    SaveConfigView,
    (),
> {
    |s: SaveConfigView, e: EventView, now: Instant| s.after(e)
}

/// What comes of saving the configuration.
pub open spec fn config_saved(
    w: World,
    url: Seq<char>,
    username: Seq<char>,
    password: Option<Seq<char>>,
    clock: spec_fn(nat) -> Instant,
) -> (Option<Result<(), Seq<char>>>, World) {
    world::carried_out(
        SaveConfigView::start(url, username, password),
        save_after(),
        w,
        clock,
        3,
    )
}

/// Saving the configuration succeeds. Settings that are there get the address and the account,
/// and keep everything else; a password that is given is stored; without one, the old one stays.
pub proof fn law_configuration_is_saved(
    w: World,
    url: Seq<char>,
    username: Seq<char>,
    password: Option<Seq<char>>,
    clock: spec_fn(nat) -> Instant,
)
    ensures
        ({
            let (result, after) = config_saved(w, url, username, password, clock);
            &&& result == Some(Ok::<(), Seq<char>>(()))
            &&& after.settings == match w.settings {
                Some(settings) => Some(config::configured(settings, url, username)),
                None => None,
            }
            &&& after.secrets == match password {
                Some(password) => w.secrets.insert(
                    config::SECRET_KEY_WEBDAV_PASSWORD@,
                    password,
                ),
                None => w.secrets,
            }
        }),
{
    let f = save_after();
    world::lemma_step(
        SaveConfigView::Settings { url, username, password },
        ActionView::GetSettings,
        f,
        w,
        clock,
        3,
    );
    match w.settings {
        Some(settings) => {
            let new = config::configured(settings, url, username);
            world::lemma_step(
                SaveConfigView::Saved { password },
                ActionView::SaveSettings(new),
                f,
                w,
                clock,
                2,
            );
            lemma_stored(World { settings: Some(new), ..w }, password, clock, 1);
        },
        None => {
            lemma_stored(w, password, clock, 2);
        },
    }
}

proof fn lemma_stored(
    w: World,
    password: Option<Seq<char>>,
    clock: spec_fn(nat) -> Instant,
    n: nat,
)
    requires
        n >= 1,
    ensures
        world::carried_out(SaveConfigView::store(password), save_after(), w, clock, n) == (
            Some(Ok::<(), Seq<char>>(())),
            match password {
                Some(password) => World {
                    secrets: w.secrets.insert(config::SECRET_KEY_WEBDAV_PASSWORD@, password),
                    ..w
                },
                None => w,
            },
        ),
{
    let f = save_after();
    match password {
        Some(password) => {
            let store = ActionView::SetSecret(config::SECRET_KEY_WEBDAV_PASSWORD@, password);
            world::lemma_step(SaveConfigView::Stored, store, f, w, clock, n);
            let (w1, _) = w.perform(store, clock(n));
            world::lemma_end(Ok(()), f, w1, clock, (n - 1) as nat);
        },
        None => {
            world::lemma_end(Ok(()), f, w, clock, n);
        },
    }
}

/// How a task that makes a client goes on, where building an HTTP client comes to `built`.
pub open spec fn make_after(built: Result<(), Seq<char>>) -> spec_fn(
    MakeClientView,
    EventView,
    Instant,
) -> MoveView<MakeClientView, ClientView> {
    |s: MakeClientView, e: EventView, now: Instant| s.after(e, built)
}

/// What comes of making a client.
pub open spec fn client_made(
    w: World,
    built: Result<(), Seq<char>>,
    clock: spec_fn(nat) -> Instant,
) -> (Option<Result<ClientView, Seq<char>>>, World) {
    world::carried_out(
        MakeClientView::start(),
        make_after(built),
        w,
        clock,
        3,
    )
}

/// Whether settings name a server to synchronise with.
pub open spec fn names_server(settings: SettingsView) -> bool {
    &&& settings.web_dav_enabled
    &&& settings.web_dav_url.len() > 0
    &&& settings.web_dav_username.len() > 0
}

/// Making a client fails where there are no settings, where they do not name a server, and where
/// there is no password; and where no HTTP client can be built. Else it gives the client for the
/// account in the settings, with the stored password. The client that is given is kept as well; a
/// failure changes nothing, and so leaves the one that was kept.
pub proof fn law_the_configured_client_is_made_and_kept(
    w: World,
    built: Result<(), Seq<char>>,
    clock: spec_fn(nat) -> Instant,
)
    ensures
        ({
            let (result, after) = client_made(w, built, clock);
            let password = world::look_up(w.secrets, config::SECRET_KEY_WEBDAV_PASSWORD@);
            &&& w.settings is None ==> result == Some(
                Err::<ClientView, Seq<char>>("App settings not initialized"@),
            )
            &&& w.settings matches Some(settings) ==> {
                &&& !names_server(settings) ==> result == Some(
                    Err::<ClientView, Seq<char>>("WebDAV is not configured or disabled"@),
                )
                &&& names_server(settings) && (password is None || password->0.len() == 0)
                    ==> result == Some(
                    Err::<ClientView, Seq<char>>("WebDAV password is not set"@),
                )
                &&& names_server(settings) && password is Some && password->0.len() > 0 ==> result
                    == Some(
                    match built {
                        Ok(_) => Ok::<ClientView, Seq<char>>(
                            ClientView::of(
                                settings.web_dav_url,
                                settings.web_dav_username,
                                password->0,
                            ),
                        ),
                        Err(detail) => Err(client::build_error(detail)),
                    },
                )
            }
            &&& after == match result {
                Some(Ok(made)) => World { cached: Some(made), ..w },
                _ => w,
            }
        }),
{
    let f = make_after(built);
    let key = config::SECRET_KEY_WEBDAV_PASSWORD@;
    world::lemma_step(MakeClientView::Settings, ActionView::GetSettings, f, w, clock, 3);
    match w.settings {
        None => {
            world::lemma_end(Err("App settings not initialized"@), f, w, clock, 2);
        },
        Some(s) => if !names_server(s) {
            world::lemma_end(Err("WebDAV is not configured or disabled"@), f, w, clock, 2);
        } else {
            let url = s.web_dav_url;
            let username = s.web_dav_username;
            world::lemma_step(
                MakeClientView::Password { url, username },
                ActionView::GetSecret(key),
                f,
                w,
                clock,
                2,
            );
            let password = world::look_up(w.secrets, key).unwrap_or(Seq::empty());
            if password.len() == 0 {
                world::lemma_end(Err("WebDAV password is not set"@), f, w, clock, 1);
            } else {
                match built {
                    Ok(_) => {
                        let client = ClientView::of(url, username, password);
                        let keep = ActionView::CacheClient(client);
                        world::lemma_step(MakeClientView::Cached { client }, keep, f, w, clock, 1);
                        world::lemma_end(Ok(client), f, w.perform(keep, clock(1)).0, clock, 0);
                    },
                    Err(detail) => {
                        world::lemma_end(Err(client::build_error(detail)), f, w, clock, 1);
                    },
                }
            }
        },
    }
}

/// A world that acts on the task of making a client at once comes to the same as the task carried
/// out step by step.
pub proof fn law_the_client_of_a_world_is_made(w: World, clock: spec_fn(nat) -> Instant)
    requires
        w.settings matches Some(settings) && names_server(settings) && ({
            let password = world::look_up(w.secrets, config::SECRET_KEY_WEBDAV_PASSWORD@);
            password is Some && password->0.len() > 0 && w.client == ClientView::of(
                settings.web_dav_url,
                settings.web_dav_username,
                password->0,
            )
        }),
    ensures
        ({
            let (result, after) = client_made(w, Ok(()), clock);
            &&& result is Some
            &&& w.perform(ActionView::Run(TaskView::Client), clock(3)) == (
                after,
                EventView::Client(result->0),
            )
        }),
{
    law_the_configured_client_is_made_and_kept(w, Ok(()), clock);
}

/// The account that was saved last is the one that is used: the client that is made from the
/// settings and the stored password is the one for that account, and it is kept.
pub proof fn law_the_saved_account_is_used(
    w: World,
    url: Seq<char>,
    username: Seq<char>,
    password: Seq<char>,
    built: Result<(), Seq<char>>,
    clock: spec_fn(nat) -> Instant,
)
    requires
        w.settings is Some,
        text::trimmed(url).len() > 0,
        text::trimmed(username).len() > 0,
        password.len() > 0,
    ensures
        ({
            let saved = config_saved(w, url, username, Some(password), clock).1;
            let client = ClientView::of(text::trimmed(url), text::trimmed(username), password);
            client_made(saved, built, clock) == match built {
                Ok(_) => (Some(Ok(client)), World { cached: Some(client), ..saved }),
                Err(detail) => (Some(Err(client::build_error(detail))), saved),
            }
        }),
{
    law_configuration_is_saved(w, url, username, Some(password), clock);
    let saved = config_saved(w, url, username, Some(password), clock).1;
    law_the_configured_client_is_made_and_kept(saved, built, clock);
}

/// Saving an empty address, or an empty account, switches synchronisation off.
pub proof fn law_an_empty_account_switches_off(
    w: World,
    url: Seq<char>,
    username: Seq<char>,
    password: Option<Seq<char>>,
    built: Result<(), Seq<char>>,
    clock: spec_fn(nat) -> Instant,
)
    requires
        w.settings is Some,
        text::trimmed(url).len() == 0 || text::trimmed(username).len() == 0,
    ensures
        client_made(config_saved(w, url, username, password, clock).1, built, clock).0 == Some(
            Err::<ClientView, Seq<char>>("WebDAV is not configured or disabled"@),
        ),
{
    law_configuration_is_saved(w, url, username, password, clock);
    let saved = config_saved(w, url, username, password, clock).1;
    law_the_configured_client_is_made_and_kept(saved, built, clock);
}

} // verus!
