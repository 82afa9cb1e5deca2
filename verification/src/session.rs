//! Per-session step logic: what the reader task does with one inbound
//! frame, and what the writer task does with one received snapshot.
//!
//! The surrounding application owns the transport; it parses each inbound
//! frame into a `WsDataIn` and hands it to `reader_step`, and it serializes
//! and sends what `writer_step` returns.  Everything decided here — the
//! identity check, the rename, the queueing, the personalization, and the
//! writer's terminal condition — is stated in the contracts.

use vstd::prelude::*;

use crate::data::{personalized, WsData, WsDataIn, WsDataOut, WsMessage};
use crate::inbox::InboxQueue;
use crate::registry::SessionRegistry;

verus! {

/// What the reader did with one inbound frame.
#[derive(Clone, Copy, Debug, PartialEq, Eq, Structural)]
pub enum ReaderOutcome {
    /// The frame's claimed id was not this session's id: it was discarded
    /// untouched — a client cannot impersonate or rename another session
    /// from its own connection slot.
    Rejected,
    /// The frame was applied: the display name was updated (`name_changed`
    /// reports whether it actually differed) and, if a message body was
    /// present, the message was queued.
    Accepted { name_changed: bool, queued: bool },
}

/// Applies one parsed inbound frame to the shared state, on behalf of the
/// session that owns `session_id`.
///
/// A frame whose `id` differs from the session's own id changes nothing.
/// Otherwise the display name is overwritten (a no-op when the session is
/// already unregistered), and a present message body is queued with the
/// sender identity taken from the frame.
pub fn reader_step(
    registry: &mut SessionRegistry,
    inbox: &mut InboxQueue,
    session_id: u32,
    frame: WsDataIn,
) -> (outcome: ReaderOutcome)
    requires
        old(registry)@.wf(),
    ensures
        final(registry)@.wf(),
        final(registry)@.next_id == old(registry)@.next_id,
        frame.id != session_id ==> final(registry)@ == old(registry)@ && final(inbox)@ == old(
            inbox,
        )@ && outcome == ReaderOutcome::Rejected,
        frame.id == session_id ==> {
            &&& !old(registry)@.names.dom().contains(session_id) ==> final(registry)@.names
                == old(registry)@.names
            &&& old(registry)@.names.dom().contains(session_id) ==> final(registry)@.names
                == old(registry)@.names.insert(session_id, frame.name@)
            &&& match frame.message {
                Some(body) => final(inbox)@ == seq![
                    (WsMessage {
                        id: frame.id,
                        name: frame.name,
                        to_id: frame.to_id,
                        message: body,
                    }),
                ] + old(inbox)@,
                None => final(inbox)@ == old(inbox)@,
            }
            &&& outcome == (ReaderOutcome::Accepted {
                name_changed: old(registry)@.names.dom().contains(session_id) && old(
                    registry,
                )@.names[session_id] != frame.name@,
                queued: frame.message is Some,
            })
        },
{
    if frame.id != session_id {
        return ReaderOutcome::Rejected;
    }
    let WsDataIn { id, name, to_id, message } = frame;
    let name_changed = registry.rename(session_id, name.clone());
    let queued = match message {
        Some(body) => {
            inbox.push_front(WsMessage { id, name, to_id, message: body });
            true
        },
        None => false,
    };
    ReaderOutcome::Accepted { name_changed, queued }
}

/// One writer-loop step: personalizes a received snapshot for the session
/// that owns `id`.  Returns `None` exactly when the session is no longer
/// registered — the writer's terminal condition, not an error; otherwise
/// the personalized snapshot carries the session's id, its current display
/// name, and the message-visibility filter applied for it.
pub fn writer_step(registry: &SessionRegistry, id: u32, snapshot: &WsData) -> (r: Option<
    WsDataOut,
>)
    ensures
        match r {
            Some(out) => registry@.names.dom().contains(id) && out@ == personalized(
                snapshot@,
                id,
                registry@.names[id],
            ),
            None => !registry@.names.dom().contains(id),
        },
{
    match registry.lookup_name(id) {
        Some(username) => Some(WsDataOut::new(snapshot.clone(), id, username)),
        None => None,
    }
}

} // verus!
