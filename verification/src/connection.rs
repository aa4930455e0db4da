//! Stream connections multiplexed over one shared endpoint.
//!
//! One badge, the listener badge, announces a peer that wants to connect.
//! Every accepted connection has a badge of its own, and a message on that
//! badge starts with a direction tag: [`TAG_INBOUND`] when the bytes after
//! the tag are the peer's bytes for this side, [`TAG_OUTBOUND`] when the peer
//! asks for whatever this side has pending for it. A message with any other
//! tag, or without one, is a protocol error: it is reported and dropped, and
//! the connection stays as it was. Connections are never closed.

use vstd::prelude::*;
use crate::badge_table::BadgeTable;
use crate::badge_table::table_contents;
use crate::badge_table::table_get;
use crate::badge_table::table_insert;
use crate::badge_table::table_new;

verus! {

/// Direction tag of a message that brings the peer's bytes.
pub const TAG_INBOUND: u8 = 0;

/// Direction tag of a message that asks for this side's pending bytes.
pub const TAG_OUTBOUND: u8 = 1;

/// One connection as a mathematical value.
pub ghost struct ConnState {
    /// Bytes that came from the peer and that this side has not taken yet.
    pub inbound: Seq<u8>,
    /// Bytes that this side has pending for the peer.
    pub outbound: Seq<u8>,
    /// The connection waits to be told that there is something to read.
    pub sleep_on_read: bool,
    /// The connection waits to be told that there is room to write.
    pub sleep_on_write: bool,
}

/// One accepted connection.
#[derive(Debug)]
pub struct Connection {
    badge: usize,
    inbound: Vec<u8>,
    outbound: Vec<u8>,
    sleep_on_read: bool,
    sleep_on_write: bool,
}

impl View for Connection {
    type V = ConnState;

    closed spec fn view(&self) -> ConnState {
        ConnState {
            inbound: self.inbound@,
            outbound: self.outbound@,
            sleep_on_read: self.sleep_on_read,
            sleep_on_write: self.sleep_on_write,
        }
    }
}

/// A connection that was just accepted: nothing buffered, and waiting for
/// both wake-ups.
pub open spec fn fresh_connection() -> ConnState {
    ConnState { inbound: Seq::empty(), outbound: Seq::empty(), sleep_on_read: true, sleep_on_write: true }
}

/// Why a connection was not accepted.
#[derive(Clone, Copy, Debug, PartialEq, Eq, Structural)]
pub enum AcceptError {
    /// The badge offered for the connection is the listener badge.
    ListenerBadge,
    /// The badge offered for the connection belongs to a live connection.
    BadgeInUse,
}

/// What the server's owner is to do after one message.
#[derive(Debug, PartialEq, Eq)]
pub enum ConnAction {
    /// A peer asks to connect: accept it and register the connection under
    /// a badge of its own.
    Accept,
    /// `count` bytes of the peer were added to the connection's inbound
    /// buffer.
    Inbound { badge: usize, count: usize },
    /// Send these bytes, which were pending, to the peer.
    Send { badge: usize, bytes: Vec<u8> },
    /// The peer asked for pending bytes and there are none: send nothing.
    Idle { badge: usize },
    /// The message had no direction tag or an unknown one: warn and drop it.
    ProtocolError { badge: usize },
    /// The badge belongs to no connection: warn and drop the message.
    UnknownBadge { badge: usize },
    /// The message carried no badge: warn and drop it.
    Unbadged,
}

/// [`ConnAction`] as a mathematical value.
pub ghost enum ConnEvent {
    Accept,
    Inbound { badge: usize, count: usize },
    Send { badge: usize, bytes: Seq<u8> },
    Idle { badge: usize },
    ProtocolError { badge: usize },
    UnknownBadge { badge: usize },
    Unbadged,
}

impl View for ConnAction {
    type V = ConnEvent;

    open spec fn view(&self) -> ConnEvent {
        match *self {
            ConnAction::Accept => ConnEvent::Accept,
            ConnAction::Inbound { badge, count } => ConnEvent::Inbound { badge, count },
            ConnAction::Send { badge, bytes } => ConnEvent::Send { badge, bytes: bytes@ },
            ConnAction::Idle { badge } => ConnEvent::Idle { badge },
            ConnAction::ProtocolError { badge } => ConnEvent::ProtocolError { badge },
            ConnAction::UnknownBadge { badge } => ConnEvent::UnknownBadge { badge },
            ConnAction::Unbadged => ConnEvent::Unbadged,
        }
    }
}

/// What has to be fetched before a message can be handled.
#[derive(Clone, Copy, Debug, PartialEq, Eq, Structural)]
pub enum Fetch {
    /// The bytes that the peer has for this side: they are to follow the
    /// tag in the payload that is handed to [`ConnectionServer::on_message`].
    PeerBytes,
    /// The bytes that this side has for the peer: they are to be queued on
    /// the connection before the message is handled.
    PendingOutput,
    /// Nothing.
    Nothing,
}

/// What has to be fetched before the message with the badge `badge` and the
/// payload `payload` is handled: something only for a message on a live
/// connection that starts with one of the two direction tags.
pub open spec fn fetch_for(listener: usize, conns: Map<usize, ConnState>, badge: Option<usize>, payload: Seq<u8>) -> Fetch {
    if badge is Some && badge->0 != listener && conns.contains_key(badge->0) && payload.len() > 0 {
        if payload[0] == TAG_INBOUND {
            Fetch::PeerBytes
        } else if payload[0] == TAG_OUTBOUND {
            Fetch::PendingOutput
        } else {
            Fetch::Nothing
        }
    } else {
        Fetch::Nothing
    }
}

/// The connections after a message with the badge `badge` and the payload
/// `payload`, and what its owner is told to do, for a server with the
/// listener badge `listener` and the live connections `conns`.
pub open spec fn step(listener: usize, conns: Map<usize, ConnState>, badge: Option<usize>, payload: Seq<u8>) -> (
    Map<usize, ConnState>,
    ConnEvent,
) {
    match badge {
        None => (conns, ConnEvent::Unbadged),
        Some(b) => {
            if b == listener {
                (conns, ConnEvent::Accept)
            } else if !conns.contains_key(b) {
                (conns, ConnEvent::UnknownBadge { badge: b })
            } else if payload.len() > 0 && payload[0] == TAG_INBOUND {
                (
                    conns.insert(
                        b,
                        ConnState {
                            inbound: conns[b].inbound + payload.skip(1),
                            outbound: conns[b].outbound,
                            sleep_on_read: conns[b].sleep_on_read,
                            sleep_on_write: conns[b].sleep_on_write,
                        },
                    ),
                    ConnEvent::Inbound { badge: b, count: (payload.len() - 1) as usize },
                )
            } else if payload.len() > 0 && payload[0] == TAG_OUTBOUND {
                if conns[b].outbound.len() > 0 {
                    (
                        conns.insert(
                            b,
                            ConnState {
                                inbound: conns[b].inbound,
                                outbound: Seq::empty(),
                                sleep_on_read: conns[b].sleep_on_read,
                                sleep_on_write: conns[b].sleep_on_write,
                            },
                        ),
                        ConnEvent::Send { badge: b, bytes: conns[b].outbound },
                    )
                } else {
                    (conns, ConnEvent::Idle { badge: b })
                }
            } else {
                (conns, ConnEvent::ProtocolError { badge: b })
            }
        },
    }
}

/// The connections that share one endpoint, by badge.
pub struct ConnectionServer {
    incoming_badge: usize,
    index: BadgeTable,
    streams: Vec<Connection>,
}

impl ConnectionServer {
    /// Every badge in the index names a stream that carries that badge, and
    /// the listener badge names none.
    pub closed spec fn wf(&self) -> bool {
        &&& !table_contents(self.index).contains_key(self.incoming_badge)
        &&& forall|b: usize| #[trigger]
            table_contents(self.index).contains_key(b) ==> table_contents(self.index)[b] < self.streams.len()
                && self.streams[table_contents(self.index)[b] as int].badge == b
    }

    /// The badge on which peers ask to connect.
    pub closed spec fn listener(&self) -> usize {
        self.incoming_badge
    }

    /// The live connections, by badge.
    pub closed spec fn connections(&self) -> Map<usize, ConnState> {
        Map::new(
            |b: usize| table_contents(self.index).contains_key(b),
            |b: usize| self.streams[table_contents(self.index)[b] as int]@,
        )
    }

    /// A server that listens on `incoming_badge` and has no connection yet.
    pub fn bind(incoming_badge: usize) -> (server: ConnectionServer)
        ensures
            server.wf(),
            server.listener() == incoming_badge,
            server.connections() == Map::<usize, ConnState>::empty(),
    {
        let server = ConnectionServer { incoming_badge, index: table_new(), streams: Vec::new() };
        assert(server.connections() =~= Map::<usize, ConnState>::empty());
        server
    }

    /// Registers the connection that was accepted under `conn_badge`. The
    /// badge must differ from the listener badge and from the badge of every
    /// live connection; otherwise nothing is registered.
    pub fn accept(&mut self, conn_badge: usize) -> (out: Result<(), AcceptError>)
        requires
            old(self).wf(),
        ensures
            final(self).wf(),
            final(self).listener() == old(self).listener(),
            out == (if conn_badge == old(self).listener() {
                Err::<(), AcceptError>(AcceptError::ListenerBadge)
            } else if old(self).connections().contains_key(conn_badge) {
                Err::<(), AcceptError>(AcceptError::BadgeInUse)
            } else {
                Ok::<(), AcceptError>(())
            }),
            out is Ok ==> final(self).connections() == old(self).connections().insert(conn_badge, fresh_connection()),
            out is Err ==> final(self).connections() == old(self).connections(),
    {
        if conn_badge == self.incoming_badge {
            return Err(AcceptError::ListenerBadge);
        }
        if table_get(&self.index, conn_badge).is_some() {
            return Err(AcceptError::BadgeInUse);
        }
        let at: usize = self.streams.len();
        self.streams.push(
            Connection {
                badge: conn_badge,
                inbound: Vec::new(),
                outbound: Vec::new(),
                sleep_on_read: true,
                sleep_on_write: true,
            },
        );
        let _ = table_insert(&mut self.index, conn_badge, at);
        assert(self.connections() =~= old(self).connections().insert(conn_badge, fresh_connection()));
        Ok(())
    }

    /// Says what has to be fetched before the message is handled.
    pub fn fetch(&self, badge: Option<usize>, payload: &Vec<u8>) -> (out: Fetch)
        requires
            self.wf(),
        ensures
            out == fetch_for(self.listener(), self.connections(), badge, payload@),
    {
        let b: usize = match badge {
            None => { return Fetch::Nothing; },
            Some(b) => b,
        };
        if b == self.incoming_badge || table_get(&self.index, b).is_none() || payload.len() == 0 {
            return Fetch::Nothing;
        }
        let tag: u8 = payload[0];
        if tag == TAG_INBOUND {
            Fetch::PeerBytes
        } else if tag == TAG_OUTBOUND {
            Fetch::PendingOutput
        } else {
            Fetch::Nothing
        }
    }

    /// Handles one message that was received on the shared endpoint.
    pub fn on_message(&mut self, badge: Option<usize>, payload: &Vec<u8>) -> (out: ConnAction)
        requires
            old(self).wf(),
        ensures
            final(self).wf(),
            final(self).listener() == old(self).listener(),
            (final(self).connections(), out@) == step(old(self).listener(), old(self).connections(), badge, payload@),
    {
        let b: usize = match badge {
            None => { return ConnAction::Unbadged; },
            Some(b) => b,
        };
        if b == self.incoming_badge {
            return ConnAction::Accept;
        }
        let at: usize = match table_get(&self.index, b) {
            None => { return ConnAction::UnknownBadge { badge: b }; },
            Some(at) => at,
        };
        if payload.len() == 0 {
            return ConnAction::ProtocolError { badge: b };
        }
        let tag: u8 = payload[0];
        if tag == TAG_INBOUND {
            let mut i: usize = 1;
            while i < payload.len()
                invariant
                    1 <= i <= payload.len(),
                    at < self.streams.len(),
                    self.index == old(self).index,
                    self.incoming_badge == old(self).incoming_badge,
                    self.streams.len() == old(self).streams.len(),
                    forall|k: int| 0 <= k < self.streams.len() && k != at ==> self.streams[k] == old(self).streams[k],
                    self.streams[at as int].badge == old(self).streams[at as int].badge,
                    self.streams[at as int].outbound == old(self).streams[at as int].outbound,
                    self.streams[at as int].sleep_on_read == old(self).streams[at as int].sleep_on_read,
                    self.streams[at as int].sleep_on_write == old(self).streams[at as int].sleep_on_write,
                    self.streams[at as int].inbound@ == old(self).streams[at as int].inbound@ + payload@.subrange(
                        1,
                        i as int,
                    ),
                decreases payload.len() - i,
            {
                let byte: u8 = payload[i];
                self.streams[at].inbound.push(byte);
                i = i + 1;
                assert(payload@.subrange(1, i as int) =~= payload@.subrange(1, i - 1).push(byte));
            }
            assert(payload@.subrange(1, i as int) =~= payload@.skip(1));
            assert(self.connections() =~= step(old(self).listener(), old(self).connections(), badge, payload@).0);
            ConnAction::Inbound { badge: b, count: payload.len() - 1 }
        } else if tag == TAG_OUTBOUND {
            if self.streams[at].outbound.len() == 0 {
                return ConnAction::Idle { badge: b };
            }
            let mut bytes: Vec<u8> = Vec::new();
            core::mem::swap(&mut bytes, &mut self.streams[at].outbound);
            assert(self.connections() =~= step(old(self).listener(), old(self).connections(), badge, payload@).0);
            ConnAction::Send { badge: b, bytes }
        } else {
            ConnAction::ProtocolError { badge: b }
        }
    }

    /// Whether the connection `badge` waits for a read wake-up and for a
    /// write wake-up, in this order. `None` when there is no such connection.
    pub fn waiting(&self, badge: usize) -> (out: Option<(bool, bool)>)
        requires
            self.wf(),
        ensures
            out == (if self.connections().contains_key(badge) {
                Some((self.connections()[badge].sleep_on_read, self.connections()[badge].sleep_on_write))
            } else {
                None
            }),
    {
        match table_get(&self.index, badge) {
            Some(at) => Some((self.streams[at].sleep_on_read, self.streams[at].sleep_on_write)),
            None => None,
        }
    }

    /// Adds `bytes` to what is pending for the peer of the connection
    /// `badge`. Returns false, and changes nothing, when there is no such
    /// connection.
    pub fn queue_output(&mut self, badge: usize, bytes: &Vec<u8>) -> (queued: bool)
        requires
            old(self).wf(),
        ensures
            final(self).wf(),
            final(self).listener() == old(self).listener(),
            queued == old(self).connections().contains_key(badge),
            queued ==> final(self).connections() == old(self).connections().insert(
                badge,
                ConnState {
                    inbound: old(self).connections()[badge].inbound,
                    outbound: old(self).connections()[badge].outbound + bytes@,
                    sleep_on_read: old(self).connections()[badge].sleep_on_read,
                    sleep_on_write: old(self).connections()[badge].sleep_on_write,
                },
            ),
            !queued ==> final(self).connections() == old(self).connections(),
    {
        let at: usize = match table_get(&self.index, badge) {
            None => { return false; },
            Some(at) => at,
        };
        let mut i: usize = 0;
        while i < bytes.len()
            invariant
                i <= bytes.len(),
                at < self.streams.len(),
                self.index == old(self).index,
                self.incoming_badge == old(self).incoming_badge,
                self.streams.len() == old(self).streams.len(),
                forall|k: int| 0 <= k < self.streams.len() && k != at ==> self.streams[k] == old(self).streams[k],
                self.streams[at as int].badge == old(self).streams[at as int].badge,
                self.streams[at as int].inbound == old(self).streams[at as int].inbound,
                self.streams[at as int].sleep_on_read == old(self).streams[at as int].sleep_on_read,
                self.streams[at as int].sleep_on_write == old(self).streams[at as int].sleep_on_write,
                self.streams[at as int].outbound@ == old(self).streams[at as int].outbound@ + bytes@.subrange(
                    0,
                    i as int,
                ),
            decreases bytes.len() - i,
        {
            let byte: u8 = bytes[i];
            self.streams[at].outbound.push(byte);
            i = i + 1;
            assert(bytes@.subrange(0, i as int) =~= bytes@.subrange(0, i - 1).push(byte));
        }
        assert(bytes@.subrange(0, i as int) =~= bytes@);
        assert(self.connections() =~= old(self).connections().insert(
            badge,
            ConnState {
                inbound: old(self).connections()[badge].inbound,
                outbound: old(self).connections()[badge].outbound + bytes@,
                sleep_on_read: old(self).connections()[badge].sleep_on_read,
                sleep_on_write: old(self).connections()[badge].sleep_on_write,
            },
        ));
        true
    }

    /// Takes the bytes that came from the peer of the connection `badge` out
    /// of its inbound buffer, which is left empty. `None` when there is no
    /// such connection.
    pub fn take_inbound(&mut self, badge: usize) -> (out: Option<Vec<u8>>)
        requires
            old(self).wf(),
        ensures
            final(self).wf(),
            final(self).listener() == old(self).listener(),
            out is Some <==> old(self).connections().contains_key(badge),
            out is Some ==> (out->0)@ == old(self).connections()[badge].inbound,
            out is Some ==> final(self).connections() == old(self).connections().insert(
                badge,
                ConnState {
                    inbound: Seq::empty(),
                    outbound: old(self).connections()[badge].outbound,
                    sleep_on_read: old(self).connections()[badge].sleep_on_read,
                    sleep_on_write: old(self).connections()[badge].sleep_on_write,
                },
            ),
            out is None ==> final(self).connections() == old(self).connections(),
    {
        let at: usize = match table_get(&self.index, badge) {
            None => { return None; },
            Some(at) => at,
        };
        let mut bytes: Vec<u8> = Vec::new();
        core::mem::swap(&mut bytes, &mut self.streams[at].inbound);
        assert(self.connections() =~= old(self).connections().insert(
            badge,
            ConnState {
                inbound: Seq::empty(),
                outbound: old(self).connections()[badge].outbound,
                sleep_on_read: old(self).connections()[badge].sleep_on_read,
                sleep_on_write: old(self).connections()[badge].sleep_on_write,
            },
        ));
        Some(bytes)
    }
}

/// The listener badge never names a connection: a message on it always
/// asks for an accept.
pub proof fn law_listener_is_no_connection(server: ConnectionServer)
    requires
        server.wf(),
    ensures
        !server.connections().contains_key(server.listener()),
{
}

/// No message opens or closes a connection, and a message changes no
/// connection but the one whose badge it carries.
pub proof fn law_messages_keep_connections(
    listener: usize,
    conns: Map<usize, ConnState>,
    badge: Option<usize>,
    payload: Seq<u8>,
    other: usize,
)
    requires
        badge != Some(other),
    ensures
        step(listener, conns, badge, payload).0.dom() =~= conns.dom(),
        conns.contains_key(other) ==> step(listener, conns, badge, payload).0[other] == conns[other],
{
}

/// A request for pending bytes on a connection that has none pending is
/// answered with [`ConnEvent::Idle`]: nothing is sent, whatever follows the
/// tag, and nothing changes.
pub proof fn law_nothing_pending_sends_nothing(
    listener: usize,
    conns: Map<usize, ConnState>,
    badge: usize,
    payload: Seq<u8>,
)
    requires
        badge != listener,
        conns.contains_key(badge),
        conns[badge].outbound.len() == 0,
        payload.len() > 0,
        payload[0] == TAG_OUTBOUND,
    ensures
        step(listener, conns, Some(badge), payload) == (conns, ConnEvent::Idle { badge }),
{
}

} // verus!
