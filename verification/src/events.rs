//! Announcements: who hears how a synchronisation is getting on.
use vstd::prelude::*;

use crate::models::SyncProgressEvent;

verus! {

/// The listener of announcements, if there is one. `S` is whatever takes announcements.
pub struct SyncEvents<S> {
    sink: Option<S>,
}

impl<S> SyncEvents<S> {
    /// The listener.
    pub closed spec fn listener(self) -> Option<S> {
        self.sink
    }

    /// Nobody listens yet.
    pub fn new() -> (r: SyncEvents<S>)
        ensures
            r.listener() is None,
    {
        SyncEvents { sink: None }
    }

    /// To whom an announcement goes: to the listener, or to nobody.
    pub fn emit_sync_event(&self, event: SyncProgressEvent) -> (r: Option<(&S, SyncProgressEvent)>)
        ensures
            match (r, self.listener()) {
                (Some((to, what)), Some(sink)) => *to == sink && what == event,
                (None, None) => true,
                _ => false,
            },
    {
        match &self.sink {
            Some(sink) => Some((sink, event)),
            None => None,
        }
    }
}

/// Listens from now on, in place of whoever listened before.
pub fn subscribe_sync_events<S>(events: &mut SyncEvents<S>, sink: S) -> (r: Result<(), String>)
    ensures
        r == Ok::<(), String>(()),
        final(events).listener() == Some(sink),
{
    events.sink = Some(sink);
    Ok(())
}

} // verus!
