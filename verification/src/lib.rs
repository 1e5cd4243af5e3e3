//! Synchronising an Audire Reader with a WebDAV server.
//!
//! A reader keeps books, and for each book how far it has been read, bookmarks and highlights. A
//! server stores all of that for the other devices of the same user. This library decides what
//! goes where. It performs no input and no output by itself: a task (`tasks`) is a machine that
//! asks for one action at a time (`protocol`) and goes on from the reply, and a runner (`runner`)
//! carries tasks out that others have asked for. Whoever uses the library sees to the actions.
//!
//! The machines rest on plain functions: the client's requests and what its replies mean
//! (`client`, `http`), listings (`listing`, `xml`), the index of the server (`index`), the
//! contents of a book (`contents`), marks (`marks`), progress (`progress`) and paths on the device
//! (`local`). What holds of whole tasks is proved in `laws`, in the model of a world that `world`
//! gives.
pub mod client;
pub mod codec;
pub mod contents;
pub mod events;
pub mod http;
pub mod index;
pub mod laws;
pub mod listing;
pub mod local;
pub mod marks;
pub mod models;
pub mod number;
pub mod payload;
pub mod progress;
pub mod protocol;
pub mod remote;
pub mod reply;
pub mod runner;
pub mod tasks;
pub mod text;
pub mod time;
pub mod world;
pub mod xml;
