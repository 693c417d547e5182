//! Per-connection decisions of the relay: handshake, registration,
//! dispatch of decoded frames, and teardown. The socket plumbing around it
//! performs what these functions return.
use vstd::prelude::*;
use crate::message::{
    ChatRecord, DecodeError, Delivery, MessageKind, WSMessage, deliveries_view, kind_of,
};
use crate::registry::{ConnectionId, Registry, reaches_all};
use crate::text::{contains, contains_text, extract_user_id, user_id_of};

verus! {

/// Marker that the resource path of an accepted handshake contains.
pub const WS_ENDPOINT: &'static str = "/api/ws";

/// Frame broadcast in answer to a message of an unrecognised type.
pub const UNKNOWN_TYPE_NOTICE: &'static str = "Type unknown";

/// Answer to a handshake request.
#[derive(Clone, Copy, Debug, PartialEq, Eq, Structural)]
pub enum HandshakeReply {
    /// Upgrade the request to a socket connection.
    Upgrade,
    /// Answer with a not-found status and create no connection.
    NotFound,
}

/// Everything that one inbound frame causes: the frames to push, in order,
/// and the chat record to store before pushing them.
pub struct Dispatch {
    pub deliveries: Vec<Delivery>,
    pub persist: Option<ChatRecord>,
}

/// Deliveries of a chat frame: to sender and receiver when both are
/// registered, to the sender alone when only the sender is, else none.
pub open spec fn chat_legs(
    m: Map<Seq<char>, ConnectionId>,
    from: Seq<char>,
    to: Seq<char>,
    frame: Seq<char>,
) -> Seq<(Seq<char>, u32, Seq<char>)> {
    if m.contains_key(from) && m.contains_key(to) {
        seq![(from, m[from], frame), (to, m[to], frame)]
    } else if m.contains_key(from) {
        seq![(from, m[from], frame)]
    } else {
        Seq::empty()
    }
}

/// Delivery of a keep-alive frame: back to the sender only, when registered.
pub open spec fn echo_leg(
    m: Map<Seq<char>, ConnectionId>,
    from: Seq<char>,
    frame: Seq<char>,
) -> Seq<(Seq<char>, u32, Seq<char>)> {
    if m.contains_key(from) {
        seq![(from, m[from], frame)]
    } else {
        Seq::empty()
    }
}

/// What dispatching `decoded` (which came from the text `frame`) against the
/// registrations `m` must yield.
pub open spec fn dispatch_spec(
    m: Map<Seq<char>, ConnectionId>,
    frame: Seq<char>,
    decoded: Result<WSMessage, DecodeError>,
    r: Dispatch,
) -> bool {
    let ds = deliveries_view(r.deliveries@);
    match decoded {
        Err(_) => ds.len() == 0 && r.persist is None,
        Ok(msg) => match kind_of(msg.msg_type@) {
            MessageKind::Broadcast => r.persist is None && reaches_all(m, ds, frame),
            MessageKind::Chat => {
                &&& r.persist is Some
                &&& r.persist->0@ == (msg.from@, msg.to@, msg.data@)
                &&& ds == chat_legs(m, msg.from@, msg.to@, frame)
            },
            MessageKind::KeepAlive => r.persist is None && ds == echo_leg(m, msg.from@, frame),
            MessageKind::Unknown => r.persist is None && reaches_all(m, ds, UNKNOWN_TYPE_NOTICE@),
        },
    }
}

/// State shared by all connection handlers: the registry and the number of
/// open connections.
pub struct Relay {
    registry: Registry,
    count: u64,
}

impl Relay {
    pub closed spec fn wf(&self) -> bool {
        self.registry.wf()
    }

    /// The registrations: user identity to connection.
    pub closed spec fn registered(&self) -> Map<Seq<char>, ConnectionId> {
        self.registry@
    }

    /// The connection counter.
    pub closed spec fn open_connections(&self) -> u64 {
        self.count
    }

    /// A relay with no connection.
    pub fn new() -> (r: Relay)
        ensures
            r.wf(),
            r.registered() == Map::<Seq<char>, ConnectionId>::empty(),
            r.open_connections() == 0,
    {
        Relay { registry: Registry::new(), count: 0 }
    }

    /// The connection counter.
    pub fn connection_count(&self) -> (r: u64)
        ensures
            r == self.open_connections(),
    {
        self.count
    }

    /// The connection registered for `id`, if any.
    pub fn lookup(&self, id: &str) -> (r: Option<ConnectionId>)
        requires
            self.wf(),
        ensures
            r == (if self.registered().contains_key(id@) {
                Some(self.registered()[id@])
            } else {
                None
            }),
    {
        self.registry.lookup(id)
    }

    /// Answer to a handshake for `path`: upgrade exactly when it contains
    /// the endpoint marker.
    pub fn on_request(&self, path: &str) -> (r: HandshakeReply)
        ensures
            r == (if contains(path@, WS_ENDPOINT@) {
                HandshakeReply::Upgrade
            } else {
                HandshakeReply::NotFound
            }),
    {
        if contains_text(path, WS_ENDPOINT) {
            HandshakeReply::Upgrade
        } else {
            HandshakeReply::NotFound
        }
    }

    /// A connection opened on `path`: counts it and registers `conn` for the
    /// identity the path carries, superseding an earlier registration of
    /// that identity. Returns the identity.
    pub fn on_open(&mut self, path: &str, conn: ConnectionId) -> (r: String)
        requires
            old(self).wf(),
            old(self).open_connections() < u64::MAX,
        ensures
            final(self).wf(),
            r@ == user_id_of(path@),
            final(self).open_connections() == old(self).open_connections() + 1,
            final(self).registered() == old(self).registered().insert(user_id_of(path@), conn),
    {
        self.count = self.count + 1;
        let user = extract_user_id(path);
        self.registry.register(user.as_str(), conn);
        user
    }

    /// Routing of one inbound text `frame`, given what decoding it gave.
    /// A frame that did not decode yields nothing, and the connection stays
    /// open.
    pub fn on_message(&self, frame: &str, decoded: Result<WSMessage, DecodeError>) -> (r:
        Dispatch)
        requires
            self.wf(),
        ensures
            dispatch_spec(self.registered(), frame@, decoded, r),
    {
        let msg = match decoded {
            Ok(msg) => msg,
            Err(_) => {
                return Dispatch { deliveries: Vec::new(), persist: None };
            },
        };
        match msg.kind() {
            MessageKind::Broadcast => Dispatch {
                deliveries: self.registry.broadcast_all(frame),
                persist: None,
            },
            MessageKind::Chat => {
                let record = ChatRecord {
                    from: msg.from.clone(),
                    to: msg.to.clone(),
                    content: msg.data.clone(),
                };
                let mut deliveries: Vec<Delivery> = Vec::new();
                let sender = self.registry.lookup(msg.from.as_str());
                let receiver = self.registry.lookup(msg.to.as_str());
                if let Some(s) = sender {
                    deliveries.push(
                        Delivery { user: msg.from.clone(), conn: s, frame: String::from_str(frame) },
                    );
                    if let Some(c) = receiver {
                        deliveries.push(
                            Delivery {
                                user: msg.to.clone(),
                                conn: c,
                                frame: String::from_str(frame),
                            },
                        );
                    }
                }
                assert(deliveries_view(deliveries@) =~= chat_legs(
                    self.registered(),
                    msg.from@,
                    msg.to@,
                    frame@,
                ));
                Dispatch { deliveries, persist: Some(record) }
            },
            MessageKind::KeepAlive => {
                let mut deliveries: Vec<Delivery> = Vec::new();
                if let Some(s) = self.registry.lookup(msg.from.as_str()) {
                    deliveries.push(
                        Delivery { user: msg.from.clone(), conn: s, frame: String::from_str(frame) },
                    );
                }
                assert(deliveries_view(deliveries@) =~= echo_leg(
                    self.registered(),
                    msg.from@,
                    frame@,
                ));
                Dispatch { deliveries, persist: None }
            },
            MessageKind::Unknown => Dispatch {
                deliveries: self.registry.broadcast_all(UNKNOWN_TYPE_NOTICE),
                persist: None,
            },
        }
    }

    /// A connection closed, cleanly or on a transport error: the counter
    /// drops by one and the registrations stay as they are.
    pub fn on_close(&mut self)
        requires
            old(self).wf(),
            old(self).open_connections() > 0,
        ensures
            final(self).wf(),
            final(self).open_connections() == old(self).open_connections() - 1,
            final(self).registered() == old(self).registered(),
    {
        self.count = self.count - 1;
    }
}

/// A broadcast frame reaches every registered user, its sender included,
/// as the exact text that came in.
pub proof fn lemma_broadcast_reaches_everyone(
    m: Map<Seq<char>, ConnectionId>,
    frame: Seq<char>,
    msg: WSMessage,
    r: Dispatch,
)
    requires
        kind_of(msg.msg_type@) == MessageKind::Broadcast,
        dispatch_spec(m, frame, Ok(msg), r),
    ensures
        r.persist is None,
        forall|k: Seq<char>|
            m.contains_key(k) ==> exists|i: int|
                0 <= i < r.deliveries@.len() && (#[trigger] r.deliveries@[i])@ == (k, m[k], frame),
        m.contains_key(msg.from@) ==> exists|i: int|
            0 <= i < r.deliveries@.len() && (#[trigger] r.deliveries@[i])@ == (
                msg.from@,
                m[msg.from@],
                frame,
            ),
{
    let ds = deliveries_view(r.deliveries@);
    assert forall|k: Seq<char>| m.contains_key(k) implies exists|i: int|
        0 <= i < r.deliveries@.len() && (#[trigger] r.deliveries@[i])@ == (k, m[k], frame) by {
        let i = choose|i: int| 0 <= i < ds.len() && #[trigger] ds[i].0 == k;
        assert(r.deliveries@[i]@ == ds[i]);
    }
}

/// A keep-alive frame goes back to its sender's own connection and to no
/// one else, and nothing is stored.
pub proof fn lemma_keep_alive_echoes_sender_only(
    m: Map<Seq<char>, ConnectionId>,
    frame: Seq<char>,
    msg: WSMessage,
    r: Dispatch,
)
    requires
        kind_of(msg.msg_type@) == MessageKind::KeepAlive,
        dispatch_spec(m, frame, Ok(msg), r),
    ensures
        r.persist is None,
        forall|i: int|
            0 <= i < r.deliveries@.len() ==> m.contains_key(msg.from@) && (
            #[trigger] r.deliveries@[i])@ == (msg.from@, m[msg.from@], frame),
        r.deliveries@.len() == (if m.contains_key(msg.from@) {
            1int
        } else {
            0
        }),
{
    let ds = deliveries_view(r.deliveries@);
    assert(ds.len() == r.deliveries@.len());
    assert forall|i: int| 0 <= i < r.deliveries@.len() implies m.contains_key(msg.from@) && (
    #[trigger] r.deliveries@[i])@ == (msg.from@, m[msg.from@], frame) by {
        assert(ds[i] == r.deliveries@[i]@);
    }
}

/// A frame that did not decode is delivered to no one and stores nothing.
pub proof fn lemma_undecodable_frame_is_dropped(
    m: Map<Seq<char>, ConnectionId>,
    frame: Seq<char>,
    e: DecodeError,
    r: Dispatch,
)
    requires
        dispatch_spec(m, frame, Err(e), r),
    ensures
        r.deliveries@.len() == 0,
        r.persist is None,
{
}

/// When an identity registers a second connection, that connection
/// supersedes the first: a chat frame addressed to the identity, and a
/// keep-alive from it, go through the second connection only.
pub proof fn lemma_later_registration_supersedes(
    m: Map<Seq<char>, ConnectionId>,
    id: Seq<char>,
    first: ConnectionId,
    second: ConnectionId,
    from: Seq<char>,
    frame: Seq<char>,
)
    ensures
        ({
            let m2 = m.insert(id, first).insert(id, second);
            &&& m2.contains_key(id)
            &&& m2[id] == second
            &&& forall|i: int|
                0 <= i < chat_legs(m2, from, id, frame).len() && (#[trigger] chat_legs(
                    m2,
                    from,
                    id,
                    frame,
                )[i]).0 == id ==> chat_legs(m2, from, id, frame)[i].1 == second
            &&& forall|i: int|
                0 <= i < echo_leg(m2, id, frame).len() ==> (#[trigger] echo_leg(
                    m2,
                    id,
                    frame,
                )[i]).1 == second
        }),
{
}

} // verus!
