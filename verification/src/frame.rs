//! Inbound frames of the notification stream, and what becomes of each.

use crate::json::{lookup_of, parsed_members, read_unsigned, Lookup};
use vstd::prelude::*;

verus! {

/// One message read from the stream, by kind. Of a text frame the text is
/// kept; the payload of the other kinds is not read.
#[derive(Clone, Debug, PartialEq, Eq)]
pub enum Inbound {
    /// A text frame.
    Text(String),
    /// A binary frame.
    Binary,
    /// A ping of the protocol.
    Ping,
    /// A pong of the protocol.
    Pong,
    /// The peer closes the session.
    Close,
    /// A raw frame.
    Raw,
}

/// A decoded notification: a block has arrived.
#[derive(Clone, Copy, Debug, PartialEq, Eq, Structural)]
pub struct NotificationEvent {
    /// The number of the block.
    pub block_number: u64,
}

/// Why a frame was dropped.
#[derive(Clone, Copy, Debug, PartialEq, Eq, Structural)]
pub enum Diagnostic {
    /// A text frame that is not JSON.
    MalformedText,
    /// A text frame that is JSON without an unsigned `block_number`.
    MissingBlockNumber,
    /// A binary frame, which the stream is not meant to send.
    UnexpectedBinary,
}

/// What becomes of a frame.
#[derive(Clone, Copy, Debug, PartialEq, Eq, Structural)]
pub enum Routed {
    /// It is a notification, handed to the dispatcher.
    Event(NotificationEvent),
    /// It is dropped, with a diagnostic. The session stays.
    Discarded(Diagnostic),
    /// It is a message of the protocol: nothing follows from it.
    Observed,
    /// It ends the session.
    Closed,
}

impl Routed {
    /// The notification that the frame yields, if it yields one.
    pub fn event(&self) -> (r: Option<NotificationEvent>)
        ensures
            r == (match *self {
                Routed::Event(event) => Some(event),
                _ => None,
            }),
    {
        match self {
            Routed::Event(event) => Some(*event),
            _ => None,
        }
    }

    /// The diagnostic that the frame yields, if it yields one.
    pub fn diagnostic(&self) -> (r: Option<Diagnostic>)
        ensures
            r == (match *self {
                Routed::Discarded(diagnostic) => Some(diagnostic),
                _ => None,
            }),
    {
        match self {
            Routed::Discarded(diagnostic) => Some(*diagnostic),
            _ => None,
        }
    }
}

/// The member of a text frame that holds the number of the block.
pub open spec fn block_number_key() -> Seq<char> {
    "block_number"@
}

/// What becomes of a text frame, by what was found in it.
pub open spec fn routed_text(lookup: Lookup) -> Routed {
    match lookup {
        Lookup::Found(block_number) => Routed::Event(NotificationEvent { block_number }),
        Lookup::Absent => Routed::Discarded(Diagnostic::MissingBlockNumber),
        Lookup::NotJson => Routed::Discarded(Diagnostic::MalformedText),
    }
}

/// What becomes of a frame.
pub open spec fn routed(frame: Inbound) -> Routed {
    match frame {
        Inbound::Text(text) => routed_text(lookup_of(parsed_members(text@), block_number_key())),
        Inbound::Binary => Routed::Discarded(Diagnostic::UnexpectedBinary),
        Inbound::Ping => Routed::Observed,
        Inbound::Pong => Routed::Observed,
        Inbound::Close => Routed::Closed,
        Inbound::Raw => Routed::Observed,
    }
}

/// Routes a text frame by what was found in it: a block number makes a
/// notification, anything else a diagnostic.
pub fn route_text(lookup: Lookup) -> (r: Routed)
    ensures
        r == routed_text(lookup),
{
    match lookup {
        Lookup::Found(block_number) => Routed::Event(NotificationEvent { block_number }),
        Lookup::Absent => Routed::Discarded(Diagnostic::MissingBlockNumber),
        Lookup::NotJson => Routed::Discarded(Diagnostic::MalformedText),
    }
}

/// Routes a frame. A text frame is decoded as JSON and asked for its
/// `block_number`; a binary frame is dropped; pings, pongs and raw frames are
/// passed over; a close frame ends the session.
pub fn route_frame(frame: &Inbound) -> (r: Routed)
    ensures
        r == routed(*frame),
{
    match frame {
        Inbound::Text(text) => route_text(read_unsigned(text.as_str(), "block_number")),
        Inbound::Binary => Routed::Discarded(Diagnostic::UnexpectedBinary),
        Inbound::Ping => Routed::Observed,
        Inbound::Pong => Routed::Observed,
        Inbound::Close => Routed::Closed,
        Inbound::Raw => Routed::Observed,
    }
}

/// A frame yields a notification or a diagnostic, never both.
pub proof fn lemma_event_or_diagnostic(frame: Inbound)
    ensures
        !(routed(frame) is Event && routed(frame) is Discarded),
        frame is Binary ==> routed(frame) is Discarded,
        frame is Close ==> routed(frame) is Closed,
        routed(frame) is Event ==> frame is Text,
{
}

} // verus!
