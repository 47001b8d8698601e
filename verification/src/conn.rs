//! Per-connection reader and writer decisions.
//!
//! Each live connection runs one reader task and one writer task
//! outside the crate; both bring every observation here as a plain
//! value, so the decision taken on each is verified.  The reader
//! forwards text frames, drops non-text frames and disconnects on a
//! transport fault or a clean close; the delivery path wraps a routed
//! result into a reply line and enqueues it for exactly the
//! originating connection.

use crate::model_router::RouteError;
use crate::registry::spec_deliver;
use crate::registry::Registry;
use crate::text::reply_text;
use crate::text::spec_reply_text;
use vstd::prelude::*;
use vstd::string::StringExecFns;

verus! {

/// What the reader task observed on the transport.
pub enum InboundEvent {
    Text(String),
    NonText,
    Closed,
    Faulted,
}

/// What the reader loop does next: hand the text to the routing path,
/// keep listening, or exit the loop and unregister the connection.
pub enum ReaderAction {
    Forward(String),
    Ignore,
    Disconnect,
}

/// The reader task's decision on one inbound observation.  A non-text
/// frame is recoverable and is dropped; a transport fault or a clean
/// close ends the connection, and only that connection.
pub fn handle_inbound(event: InboundEvent) -> (a: ReaderAction)
    ensures
        match event {
            InboundEvent::Text(s) => a == ReaderAction::Forward(s),
            InboundEvent::NonText => a == ReaderAction::Ignore,
            InboundEvent::Closed => a == ReaderAction::Disconnect,
            InboundEvent::Faulted => a == ReaderAction::Disconnect,
        },
{
    match event {
        InboundEvent::Text(s) => ReaderAction::Forward(s),
        InboundEvent::NonText => ReaderAction::Ignore,
        InboundEvent::Closed => ReaderAction::Disconnect,
        InboundEvent::Faulted => ReaderAction::Disconnect,
    }
}

/// The text delivered back for one routed outcome: the reply line on
/// success, a fixed apology otherwise.
pub open spec fn spec_reply_of(id: nat, outcome: Result<String, RouteError>) -> Seq<char> {
    match outcome {
        Ok(text) => spec_reply_text(id, text@),
        Err(_) => "An error occurred"@,
    }
}

/// Wrap a routed outcome for connection `my_id` and enqueue it there.
/// Exactly the originating connection's queue receives the reply; if
/// that id has been unregistered meanwhile the reply is silently
/// dropped, and in every case all other queues are untouched.
pub fn user_message(registry: &mut Registry, my_id: u64, outcome: Result<String, RouteError>)
    requires
        old(registry).wf(),
    ensures
        final(registry).wf(),
        final(registry)@ == spec_deliver(old(registry)@, my_id, spec_reply_of(my_id as nat, outcome)),
        final(registry).issued() == old(registry).issued(),
        final(registry).next() == old(registry).next(),
{
    let text = match &outcome {
        Ok(generated) => reply_text(my_id, generated.as_str()),
        Err(_) => String::from_str("An error occurred"),
    };
    registry.deliver(my_id, text);
}

} // verus!
