//! The configuration: the stored password, the settings, and the client that they make.
use vstd::prelude::*;

use crate::client::{ClientView, WebDavClient};
use crate::client;
use crate::models::{Settings, SettingsView};
use crate::protocol;
use crate::protocol::{Action, ActionView, Event, EventView, Move, MoveView, Task, TaskView};
use crate::text;

verus! {

/// The key that the password is kept under.
pub const SECRET_KEY_WEBDAV_PASSWORD: &'static str = "webdav_password";

/// Stores the password.
pub fn save_webdav_password(password: String) -> (r: Action)
    ensures
        r.deep_view() == ActionView::SetSecret(SECRET_KEY_WEBDAV_PASSWORD@, password@),
{
    Action::SetSecret(SECRET_KEY_WEBDAV_PASSWORD.to_string(), password)
}

/// Asks for the password.
pub fn get_webdav_password() -> (r: Action)
    ensures
        r.deep_view() == ActionView::GetSecret(SECRET_KEY_WEBDAV_PASSWORD@),
{
    Action::GetSecret(SECRET_KEY_WEBDAV_PASSWORD.to_string())
}

/// Forgets the password.
pub fn delete_webdav_password() -> (r: Action)
    ensures
        r.deep_view() == ActionView::DeleteSecret(SECRET_KEY_WEBDAV_PASSWORD@),
{
    Action::DeleteSecret(SECRET_KEY_WEBDAV_PASSWORD.to_string())
}

/// Saving the configuration.
pub enum SaveConfig {
    /// The settings were asked for.
    Settings { url: String, username: String, password: Option<String> },
    /// The changed settings were handed over.
    Saved { password: Option<String> },
    /// The password was handed over.
    Stored,
}

/// What a `SaveConfig` holds.
pub enum SaveConfigView {
    Settings { url: Seq<char>, username: Seq<char>, password: Option<Seq<char>> },
    Saved { password: Option<Seq<char>> },
    Stored,
}

impl DeepView for SaveConfig {
    type V = SaveConfigView;

    open spec fn deep_view(&self) -> SaveConfigView {
        match self {
            SaveConfig::Settings { url, username, password } => SaveConfigView::Settings {
                url: url@,
                username: username@,
                password: password.deep_view(),
            },
            SaveConfig::Saved { password } => SaveConfigView::Saved {
                password: password.deep_view(),
            },
            SaveConfig::Stored => SaveConfigView::Stored,
        }
    }
}

/// The settings with the address and the account of a server, without white space around them.
/// Synchronisation is on once both are there.
pub open spec fn configured(
    settings: SettingsView,
    url: Seq<char>,
    username: Seq<char>,
) -> SettingsView {
    SettingsView {
        web_dav_url: text::trimmed(url),
        web_dav_username: text::trimmed(username),
        web_dav_enabled: text::trimmed(url).len() > 0 && text::trimmed(username).len() > 0,
        ..settings
    }
}

impl SaveConfigView {
    /// The beginning.
    pub open spec fn start(
        url: Seq<char>,
        username: Seq<char>,
        password: Option<Seq<char>>,
    ) -> MoveView<SaveConfigView, ()> {
        MoveView::Next(
            SaveConfigView::Settings { url, username, password },
            ActionView::GetSettings,
        )
    }

    /// The password comes last, if there is one.
    pub open spec fn store(password: Option<Seq<char>>) -> MoveView<SaveConfigView, ()> {
        match password {
            Some(password) => MoveView::Next(
                SaveConfigView::Stored,
                ActionView::SetSecret(SECRET_KEY_WEBDAV_PASSWORD@, password),
            ),
            None => MoveView::End(Ok(())),
        }
    }

    /// What follows a reply.
    pub open spec fn after(self, event: EventView) -> MoveView<SaveConfigView, ()> {
        match (self, event) {
            (SaveConfigView::Settings { url, username, password }, EventView::Settings(r)) => match r {
                Ok(Some(settings)) => MoveView::Next(
                    SaveConfigView::Saved { password },
                    ActionView::SaveSettings(configured(settings, url, username)),
                ),
                Ok(None) => SaveConfigView::store(password),
                Err(e) => MoveView::End(Err(e)),
            },
            (SaveConfigView::Saved { password }, EventView::Unit(r)) => match r {
                Ok(_) => SaveConfigView::store(password),
                Err(e) => MoveView::End(Err(e)),
            },
            (SaveConfigView::Stored, EventView::Unit(r)) => MoveView::End(r),
            _ => protocol::unexpected(),
        }
    }
}

/// Saves the address and the account of the server where there are settings to save them in,
/// and the password if one is given.
pub fn save_webdav_config(url: String, username: String, password: Option<String>) -> (r: Move<
    SaveConfig,
    (),
>)
    ensures
        r.deep_view() == MoveView::<SaveConfigView, ()>::Next(
            SaveConfigView::Settings {
                url: url@,
                username: username@,
                password: password.deep_view(),
            },
            ActionView::GetSettings,
        ),
        r.deep_view() == SaveConfigView::start(url@, username@, password.deep_view()),
{
    Move::Next(SaveConfig::Settings { url, username, password }, Action::GetSettings)
}

impl SaveConfig {
    fn store(password: Option<String>) -> (r: Move<SaveConfig, ()>)
        ensures
            r.deep_view() == SaveConfigView::store(password.deep_view()),
    {
        match password {
            Some(password) => Move::Next(SaveConfig::Stored, save_webdav_password(password)),
            None => Move::End(Ok(())),
        }
    }

    /// What follows a reply.
    pub fn advance(self, event: Event) -> (r: Move<SaveConfig, ()>)
        ensures
            r.deep_view() == self.deep_view().after(event.deep_view()),
    {
        match (self, event) {
            (SaveConfig::Settings { url, username, password }, Event::Settings(r)) => match r {
                Ok(Some(settings)) => {
                    let url = text::trim(&url);
                    let username = text::trim(&username);
                    let enabled = !url.as_str().is_empty() && !username.as_str().is_empty();
                    let settings = Settings {
                        web_dav_url: url,
                        web_dav_username: username,
                        web_dav_enabled: enabled,
                        web_dav_last_sync: settings.web_dav_last_sync,
                        rest: settings.rest,
                    };
                    Move::Next(SaveConfig::Saved { password }, Action::SaveSettings(settings))
                },
                Ok(None) => SaveConfig::store(password),
                Err(e) => Move::End(Err(e)),
            },
            (SaveConfig::Saved { password }, Event::Unit(r)) => match r {
                Ok(_) => SaveConfig::store(password),
                Err(e) => Move::End(Err(e)),
            },
            (SaveConfig::Stored, Event::Unit(r)) => Move::End(r),
            _ => protocol::unexpected_reply(),
        }
    }
}

/// Making a client from the settings and the stored password.
pub enum MakeClient {
    /// The settings were asked for.
    Settings,
    /// The password was asked for.
    Password { url: String, username: String },
    /// The client was handed over to be kept.
    Cached { client: WebDavClient },
}

/// What a `MakeClient` holds.
pub enum MakeClientView {
    Settings,
    Password { url: Seq<char>, username: Seq<char> },
    Cached { client: ClientView },
}

impl DeepView for MakeClient {
    type V = MakeClientView;

    open spec fn deep_view(&self) -> MakeClientView {
        match self {
            MakeClient::Settings => MakeClientView::Settings,
            MakeClient::Password { url, username } => MakeClientView::Password {
                url: url@,
                username: username@,
            },
            MakeClient::Cached { client } => MakeClientView::Cached { client: client.deep_view() },
        }
    }
}

impl MakeClientView {
    /// The beginning.
    pub open spec fn start() -> MoveView<MakeClientView, ClientView> {
        MoveView::Next(MakeClientView::Settings, ActionView::GetSettings)
    }

    /// What follows once it has been tried to build an HTTP client: the client for the account is
    /// kept.
    pub open spec fn finished(
        url: Seq<char>,
        username: Seq<char>,
        password: Seq<char>,
        built: Result<(), Seq<char>>,
    ) -> MoveView<MakeClientView, ClientView> {
        match built {
            Ok(_) => {
                let client = ClientView::of(url, username, password);
                MoveView::Next(
                    MakeClientView::Cached { client },
                    ActionView::CacheClient(client),
                )
            },
            Err(detail) => MoveView::End(Err(client::build_error(detail))),
        }
    }

    /// What follows a reply, where building an HTTP client comes to `built`.
    pub open spec fn after(self, event: EventView, built: Result<(), Seq<char>>) -> MoveView<
        MakeClientView,
        ClientView,
    > {
        match (self, event) {
            (MakeClientView::Settings, EventView::Settings(Ok(Some(s)))) => if !s.web_dav_enabled
                || s.web_dav_url.len() == 0 || s.web_dav_username.len() == 0 {
                MoveView::End(Err("WebDAV is not configured or disabled"@))
            } else {
                MoveView::Next(
                    MakeClientView::Password { url: s.web_dav_url, username: s.web_dav_username },
                    ActionView::GetSecret(SECRET_KEY_WEBDAV_PASSWORD@),
                )
            },
            (MakeClientView::Settings, EventView::Settings(Ok(None))) => MoveView::End(
                Err("App settings not initialized"@),
            ),
            (MakeClientView::Settings, EventView::Settings(Err(e))) => MoveView::End(Err(e)),
            (MakeClientView::Password { url, username }, EventView::Secret(Ok(password))) => {
                let password = password.unwrap_or(Seq::empty());
                if password.len() == 0 {
                    MoveView::End(Err("WebDAV password is not set"@))
                } else {
                    MakeClientView::finished(url, username, password, built)
                }
            },
            (MakeClientView::Password { .. }, EventView::Secret(Err(e))) => MoveView::End(Err(e)),
            (MakeClientView::Cached { client }, _) => MoveView::End(Ok(client)),
            _ => protocol::unexpected(),
        }
    }

    /// Whether `r` may follow a reply. All of it is settled but whether an HTTP client can be
    /// built.
    pub open spec fn follows(self, event: EventView, r: MoveView<MakeClientView, ClientView>) -> bool {
        exists|built: Result<(), Seq<char>>| r == #[trigger] self.after(event, built)
    }
}

/// Makes a client from the settings and the stored password, and has it kept.
pub fn get_or_init_client() -> (r: Move<MakeClient, WebDavClient>)
    ensures
        r.deep_view() == MoveView::<MakeClientView, ClientView>::Next(
            MakeClientView::Settings,
            ActionView::GetSettings,
        ),
        r.deep_view() == MakeClientView::start(),
{
    Move::Next(MakeClient::Settings, Action::GetSettings)
}

impl MakeClient {
    /// What follows once it has been tried to build an HTTP client.
    pub fn finish(
        url: &str,
        username: &str,
        password: &str,
        built: Result<reqwest::Client, String>,
    ) -> (r: Move<MakeClient, WebDavClient>)
        ensures
            r.deep_view() == MakeClientView::finished(
                url@,
                username@,
                password@,
                client::build_outcome(built),
            ),
    {
        match WebDavClient::assemble(built, url, username, password) {
            Ok(client) => {
                let kept = client.clone();
                Move::Next(MakeClient::Cached { client }, Action::CacheClient(kept))
            },
            Err(e) => Move::End(Err(e)),
        }
    }

    /// What follows a reply.
    pub fn advance(self, event: Event) -> (r: Move<MakeClient, WebDavClient>)
        ensures
            self.deep_view().follows(event.deep_view(), r.deep_view()),
    {
        let ghost state = self.deep_view();
        let ghost told = event.deep_view();
        let ghost mut outcome: Result<(), Seq<char>> = Ok(());
        let r = match (self, event) {
            (MakeClient::Settings, Event::Settings(Ok(Some(s)))) => {
                if !s.web_dav_enabled || s.web_dav_url.as_str().is_empty()
                    || s.web_dav_username.as_str().is_empty() {
                    Move::End(Err("WebDAV is not configured or disabled".to_string()))
                } else {
                    Move::Next(
                        MakeClient::Password { url: s.web_dav_url, username: s.web_dav_username },
                        get_webdav_password(),
                    )
                }
            },
            (MakeClient::Settings, Event::Settings(Ok(None))) => {
                Move::End(Err("App settings not initialized".to_string()))
            },
            (MakeClient::Settings, Event::Settings(Err(e))) => Move::End(Err(e)),
            (MakeClient::Password { url, username }, Event::Secret(Ok(password))) => {
                let password = match password {
                    Some(password) => password,
                    None => String::new(),
                };
                if password.as_str().is_empty() {
                    Move::End(Err("WebDAV password is not set".to_string()))
                } else {
                    let built = client::build_http_client(
                        client::REQUEST_TIMEOUT,
                        client::CONNECT_TIMEOUT,
                    );
                    proof {
                        outcome = client::build_outcome(built);
                    }
                    MakeClient::finish(&url, &username, &password, built)
                }
            },
            (MakeClient::Password { url: _, username: _ }, Event::Secret(Err(e))) => {
                Move::End(Err(e))
            },
            (MakeClient::Cached { client }, _) => Move::End(Ok(client)),
            _ => protocol::unexpected_reply(),
        };
        assert(r.deep_view() == state.after(told, outcome));
        r
    }
}

/// Testing a connection.
pub enum TestConnection {
    /// The configured client was asked for.
    Client,
    /// The server was asked.
    Probed,
}

/// What a `TestConnection` holds.
pub enum TestConnectionView {
    Client,
    Probed,
}

impl DeepView for TestConnection {
    type V = TestConnectionView;

    open spec fn deep_view(&self) -> TestConnectionView {
        match self {
            TestConnection::Client => TestConnectionView::Client,
            TestConnection::Probed => TestConnectionView::Probed,
        }
    }
}

impl TestConnectionView {
    /// What follows once it has been tried to build an HTTP client for an account that is given.
    pub open spec fn probed(
        url: Seq<char>,
        username: Seq<char>,
        password: Seq<char>,
        built: Result<(), Seq<char>>,
    ) -> MoveView<TestConnectionView, bool> {
        match built {
            Ok(_) => MoveView::Next(
                TestConnectionView::Probed,
                ActionView::Probe(ClientView::of(url, username, password)),
            ),
            Err(detail) => MoveView::End(Err(client::build_error(detail))),
        }
    }

    /// What follows a reply.
    pub open spec fn after(self, event: EventView) -> MoveView<TestConnectionView, bool> {
        match (self, event) {
            (TestConnectionView::Client, EventView::Client(Ok(client))) => MoveView::Next(
                TestConnectionView::Probed,
                ActionView::Probe(client),
            ),
            (TestConnectionView::Client, EventView::Client(Err(e))) => MoveView::End(Err(e)),
            (TestConnectionView::Probed, EventView::Flag(r)) => MoveView::End(r),
            _ => protocol::unexpected(),
        }
    }
}

/// Tests the connection with an account, given what came of building an HTTP client.
pub fn test_account(
    url: &str,
    username: &str,
    password: &str,
    built: Result<reqwest::Client, String>,
) -> (r: Move<TestConnection, bool>)
    ensures
        r.deep_view() == TestConnectionView::probed(
            url@,
            username@,
            password@,
            client::build_outcome(built),
        ),
{
    match WebDavClient::assemble(built, url, username, password) {
        Ok(client) => Move::Next(TestConnection::Probed, Action::Probe(client)),
        Err(e) => Move::End(Err(e)),
    }
}

/// Tests the connection: with the account that is given, if all of it is, and else with the one
/// that is configured.
pub fn test_webdav_connection(
    url: Option<String>,
    username: Option<String>,
    password: Option<String>,
) -> (r: Move<TestConnection, bool>)
    ensures
        match (url, username, password) {
            (Some(url), Some(username), Some(password)) => exists|built: Result<(), Seq<char>>|
                r.deep_view() == #[trigger] TestConnectionView::probed(
                    url@,
                    username@,
                    password@,
                    built,
                ),
            _ => r.deep_view() == MoveView::<TestConnectionView, bool>::Next(
                TestConnectionView::Client,
                ActionView::Run(TaskView::Client),
            ),
        },
{
    match (url, username, password) {
        (Some(url), Some(username), Some(password)) => {
            let built = client::build_http_client(
                client::REQUEST_TIMEOUT,
                client::CONNECT_TIMEOUT,
            );
            let ghost outcome = client::build_outcome(built);
            let r = test_account(&url, &username, &password, built);
            assert(r.deep_view() == TestConnectionView::probed(
                url@,
                username@,
                password@,
                outcome,
            ));
            r
        },
        _ => Move::Next(TestConnection::Client, Action::Run(Task::Client)),
    }
}

impl TestConnection {
    /// What follows a reply.
    pub fn advance(self, event: Event) -> (r: Move<TestConnection, bool>)
        ensures
            r.deep_view() == self.deep_view().after(event.deep_view()),
    {
        match (self, event) {
            (TestConnection::Client, Event::Client(Ok(client))) => Move::Next(
                TestConnection::Probed,
                Action::Probe(client),
            ),
            (TestConnection::Client, Event::Client(Err(e))) => Move::End(Err(e)),
            (TestConnection::Probed, Event::Flag(r)) => Move::End(r),
            _ => protocol::unexpected_reply(),
        }
    }
}

} // verus!
