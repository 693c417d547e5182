//! The message envelope exchanged over the relay: its kinds, the decoded
//! message, and the frames and records that dispatching one produces.
use vstd::prelude::*;
use crate::text::same_text;

verus! {

/// How a message is routed, from its `type` field.
#[derive(Clone, Copy, Debug, PartialEq, Eq, Structural)]
pub enum MessageKind {
    Broadcast,
    Chat,
    KeepAlive,
    Unknown,
}

/// The kind named by a `type` field.
pub open spec fn kind_of(t: Seq<char>) -> MessageKind {
    if t == "broadcast"@ {
        MessageKind::Broadcast
    } else if t == "chat"@ {
        MessageKind::Chat
    } else if t == "keep-alive"@ {
        MessageKind::KeepAlive
    } else {
        MessageKind::Unknown
    }
}

impl MessageKind {
    /// Classifies a `type` field.
    pub fn classify(t: &str) -> (r: MessageKind)
        ensures
            r == kind_of(t@),
    {
        if same_text(t, "broadcast") {
            MessageKind::Broadcast
        } else if same_text(t, "chat") {
            MessageKind::Chat
        } else if same_text(t, "keep-alive") {
            MessageKind::KeepAlive
        } else {
            MessageKind::Unknown
        }
    }
}

/// A decoded inbound frame: `{ "type", "from", "to", "data" }`.
#[derive(Debug)]
pub struct WSMessage {
    pub msg_type: String,
    pub from: String,
    pub to: String,
    pub data: String,
}

impl WSMessage {
    pub open spec fn spec_kind(&self) -> MessageKind {
        kind_of(self.msg_type@)
    }

    /// The routing kind of this message.
    pub fn kind(&self) -> (r: MessageKind)
        ensures
            r == self.spec_kind(),
    {
        MessageKind::classify(self.msg_type.as_str())
    }
}

/// Why an inbound frame could not be decoded.
#[derive(Debug)]
pub struct DecodeError {
    pub detail: String,
}

/// One outbound text frame for one registered user's connection.
#[derive(Debug)]
pub struct Delivery {
    pub user: String,
    pub conn: u32,
    pub frame: String,
}

impl View for Delivery {
    type V = (Seq<char>, u32, Seq<char>);

    open spec fn view(&self) -> (Seq<char>, u32, Seq<char>) {
        (self.user@, self.conn, self.frame@)
    }
}

/// What is handed to the persistence store for an accepted chat message.
#[derive(Debug)]
pub struct ChatRecord {
    pub from: String,
    pub to: String,
    pub content: String,
}

impl View for ChatRecord {
    type V = (Seq<char>, Seq<char>, Seq<char>);

    open spec fn view(&self) -> (Seq<char>, Seq<char>, Seq<char>) {
        (self.from@, self.to@, self.content@)
    }
}

/// The views of a list of deliveries, in order.
pub open spec fn deliveries_view(ds: Seq<Delivery>) -> Seq<(Seq<char>, u32, Seq<char>)> {
    ds.map_values(|d: Delivery| d@)
}

} // verus!
