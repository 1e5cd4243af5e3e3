//! Copying single files between this device and the server.
use vstd::prelude::*;

use crate::client::{ClientView, WebDavClient};
use crate::protocol;
use crate::protocol::{Action, ActionView, Event, EventView, Move, MoveView};
use crate::text;

verus! {

/// Copying a local file to the server.
pub enum UploadFile {
    /// The local file was asked for.
    Read { client: WebDavClient, remote: String, local: String },
    /// The bytes were sent.
    Sent,
}

/// What an `UploadFile` holds.
pub enum UploadFileView {
    Read { client: ClientView, remote: Seq<char>, local: Seq<char> },
    Sent,
}

impl DeepView for UploadFile {
    type V = UploadFileView;

    open spec fn deep_view(&self) -> UploadFileView {
        match self {
            UploadFile::Read { client, remote, local } => UploadFileView::Read {
                client: client.deep_view(),
                remote: remote@,
                local: local@,
            },
            UploadFile::Sent => UploadFileView::Sent,
        }
    }
}

impl UploadFileView {
    /// The beginning.
    pub open spec fn start(
        client: ClientView,
        remote: Seq<char>,
        local: Seq<char>,
    ) -> MoveView<UploadFileView, bool> {
        MoveView::Next(UploadFileView::Read { client, remote, local }, ActionView::ReadFile(local))
    }

    /// What follows a reply.
    pub open spec fn after(self, event: EventView) -> MoveView<UploadFileView, bool> {
        match (self, event) {
            (UploadFileView::Read { client, remote, local }, EventView::File(file)) => match file {
                None => MoveView::End(Err("Local file does not exist: "@ + local)),
                Some(Ok(bytes)) => MoveView::Next(
                    UploadFileView::Sent,
                    ActionView::Upload(client, remote, bytes),
                ),
                Some(Err(e)) => MoveView::End(Err(e)),
            },
            (UploadFileView::Sent, EventView::Flag(r)) => MoveView::End(r),
            _ => protocol::unexpected(),
        }
    }
}

impl WebDavClient {
    /// Copies a local file to the server.
    pub fn upload_file(&self, remote_path: &str, local_path: &str) -> (r: Move<UploadFile, bool>)
        ensures
            r.deep_view() == MoveView::<UploadFileView, bool>::Next(
                UploadFileView::Read {
                    client: self.deep_view(),
                    remote: remote_path@,
                    local: local_path@,
                },
                ActionView::ReadFile(local_path@),
            ),
            r.deep_view() == UploadFileView::start(self.deep_view(), remote_path@, local_path@),
    {
        Move::Next(
            UploadFile::Read {
                client: self.clone(),
                remote: remote_path.to_string(),
                local: local_path.to_string(),
            },
            Action::ReadFile(local_path.to_string()),
        )
    }

    /// Copies a file of the server to this device.
    pub fn download_file(&self, remote_path: &str, local_path: &str) -> (r: Move<
        DownloadFile,
        bool,
    >)
        ensures
            r.deep_view() == MoveView::<DownloadFileView, bool>::Next(
                DownloadFileView::Fetched { local: local_path@ },
                ActionView::Download(self.deep_view(), remote_path@),
            ),
            r.deep_view() == DownloadFileView::start(self.deep_view(), remote_path@, local_path@),
    {
        Move::Next(
            DownloadFile::Fetched { local: local_path.to_string() },
            Action::Download(self.clone(), remote_path.to_string()),
        )
    }
}

impl UploadFile {
    /// What follows a reply.
    pub fn advance(self, event: Event) -> (r: Move<UploadFile, bool>)
        ensures
            r.deep_view() == self.deep_view().after(event.deep_view()),
    {
        match (self, event) {
            (UploadFile::Read { client, remote, local }, Event::File(file)) => match file {
                None => Move::End(Err(text::concat2("Local file does not exist: ", &local))),
                Some(Ok(bytes)) => Move::Next(
                    UploadFile::Sent,
                    Action::Upload(client, remote, bytes),
                ),
                Some(Err(e)) => Move::End(Err(e)),
            },
            (UploadFile::Sent, Event::Flag(r)) => Move::End(r),
            _ => protocol::unexpected_reply(),
        }
    }
}

/// Copying a file of the server to this device.
pub enum DownloadFile {
    /// The bytes were asked for.
    Fetched { local: String },
    /// They were handed over to be written.
    Written,
}

/// What a `DownloadFile` holds.
pub enum DownloadFileView {
    Fetched { local: Seq<char> },
    Written,
}

impl DeepView for DownloadFile {
    type V = DownloadFileView;

    open spec fn deep_view(&self) -> DownloadFileView {
        match self {
            DownloadFile::Fetched { local } => DownloadFileView::Fetched { local: local@ },
            DownloadFile::Written => DownloadFileView::Written,
        }
    }
}

impl DownloadFileView {
    /// The beginning.
    pub open spec fn start(
        client: ClientView,
        remote: Seq<char>,
        local: Seq<char>,
    ) -> MoveView<DownloadFileView, bool> {
        MoveView::Next(DownloadFileView::Fetched { local }, ActionView::Download(client, remote))
    }

    /// What follows a reply.
    pub open spec fn after(self, event: EventView) -> MoveView<DownloadFileView, bool> {
        match (self, event) {
            (DownloadFileView::Fetched { local }, EventView::Bytes(r)) => match r {
                Ok(bytes) => MoveView::Next(
                    DownloadFileView::Written,
                    ActionView::WriteFile(local, bytes),
                ),
                Err(e) => MoveView::End(Err(e)),
            },
            (DownloadFileView::Written, EventView::Unit(r)) => match r {
                Ok(_) => MoveView::End(Ok(true)),
                Err(e) => MoveView::End(Err(e)),
            },
            _ => protocol::unexpected(),
        }
    }
}

impl DownloadFile {
    /// What follows a reply.
    pub fn advance(self, event: Event) -> (r: Move<DownloadFile, bool>)
        ensures
            r.deep_view() == self.deep_view().after(event.deep_view()),
    {
        match (self, event) {
            (DownloadFile::Fetched { local }, Event::Bytes(r)) => match r {
                Ok(bytes) => Move::Next(DownloadFile::Written, Action::WriteFile(local, bytes)),
                Err(e) => Move::End(Err(e)),
            },
            (DownloadFile::Written, Event::Unit(r)) => match r {
                Ok(_) => Move::End(Ok(true)),
                Err(e) => Move::End(Err(e)),
            },
            _ => protocol::unexpected_reply(),
        }
    }
}

} // verus!
