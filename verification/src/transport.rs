//! What the transport tells of its connections, and how it ends them.
use crate::connection_context::{ConnectionContext, ConnectionType, ContextView};
use crate::peer_map::PeerMap;
use crate::url;
use crate::url::Url;
use vstd::prelude::*;
use vstd::string::*;

verus! {

/// What is told of a connection.
#[derive(Debug)]
pub struct TransportConnectionStats {
    /// The id of the peer.
    pub pub_key: String,
    /// How many data frames were sent.
    pub send_message_count: u64,
    /// How many bytes of data were sent.
    pub send_bytes: u64,
    /// How many data frames were received.
    pub recv_message_count: u64,
    /// How many bytes of data were received.
    pub recv_bytes: u64,
    /// When the connection was opened, in seconds since the epoch.
    pub opened_at_s: u64,
    /// Whether the bytes travel straight to an address of the peer.
    pub is_direct: bool,
}

/// What is told of the transport.
#[derive(Debug)]
pub struct TransportStats {
    /// What the transport is built on.
    pub backend: String,
    /// The URLs of this side.
    pub peer_urls: Vec<Url>,
    /// The connections.
    pub connections: Vec<TransportConnectionStats>,
}

/// The id of the peer of a connection, once its URL is known.
pub open spec fn peer_of(c: ContextView) -> Option<Seq<char>> {
    match c.remote_url {
        Some(u) => url::peer_id(u),
        None => None,
    }
}

impl TransportConnectionStats {
    /// Whether this is what is told of a connection that is watched to travel in some way.
    pub open spec fn tells(self, c: ContextView, watched: Option<ConnectionType>) -> bool {
        &&& Some(self.pub_key@) == peer_of(c)
        &&& self.send_message_count == c.send_message_count
        &&& self.send_bytes == c.send_bytes
        &&& self.recv_message_count == c.recv_message_count
        &&& self.recv_bytes == c.recv_bytes
        &&& self.opened_at_s == c.opened_at_s
        &&& self.is_direct == (watched == Some(ConnectionType::Direct))
    }

    /// What is told of a connection to a peer with an id.
    pub fn new(ctx: &ConnectionContext, watched: Option<ConnectionType>) -> (r:
        TransportConnectionStats)
        requires
            peer_of(ctx@) is Some,
        ensures
            r.tells(ctx@, watched),
            r.send_message_count == ctx@.send_message_count,
            r.send_bytes == ctx@.send_bytes,
            r.recv_message_count == ctx@.recv_message_count,
            r.recv_bytes == ctx@.recv_bytes,
            r.opened_at_s == ctx@.opened_at_s,
            r.is_direct <==> watched == Some(ConnectionType::Direct),
            ctx@.remote_url matches Some(u) && url::peer_id(u) == Some(r.pub_key@),
    {
        let remote_url = ctx.remote_url().unwrap();
        TransportConnectionStats {
            pub_key: remote_url.peer_id().unwrap().to_owned(),
            send_message_count: ctx.get_send_message_count(),
            send_bytes: ctx.get_send_bytes(),
            recv_message_count: ctx.get_recv_message_count(),
            recv_bytes: ctx.get_recv_bytes(),
            opened_at_s: ctx.get_opened_at_s(),
            is_direct: ctx.get_connection_type(watched) == ConnectionType::Direct,
        }
    }
}

/// Whether the peer of a connection has an id.
pub fn has_peer_id(ctx: &ConnectionContext) -> (r: bool)
    ensures
        r == (peer_of(ctx@) is Some),
{
    match ctx.remote_url() {
        Some(u) => u.peer_id().is_some(),
        None => false,
    }
}

/// What is told of the transport: its own URL, if it is known, and each of its connections, with
/// how it is watched to travel.
pub fn dump_network_stats(
    local_url: Option<Url>,
    connections: &Vec<(ConnectionContext, Option<ConnectionType>)>,
) -> (r: TransportStats)
    requires
        forall|i: int| 0 <= i < connections@.len() ==> peer_of((#[trigger] connections@[i]).0@) is Some,
    ensures
        r.backend@ == "iroh"@,
        match local_url {
            Some(u) => r.peer_urls@.len() == 1 && r.peer_urls@[0]@ == u@,
            None => r.peer_urls@.len() == 0,
        },
        r.connections@.len() == connections@.len(),
        forall|i: int|
            0 <= i < connections@.len() ==> (#[trigger] r.connections@[i]).tells(
                connections@[i].0@,
                connections@[i].1,
            ),
        forall|i: int|
            0 <= i < connections@.len() ==> {
                let stats = #[trigger] r.connections@[i];
                let c = connections@[i].0@;
                &&& stats.send_message_count == c.send_message_count
                &&& stats.send_bytes == c.send_bytes
                &&& stats.recv_message_count == c.recv_message_count
                &&& stats.recv_bytes == c.recv_bytes
                &&& stats.opened_at_s == c.opened_at_s
                &&& stats.is_direct <==> connections@[i].1 == Some(ConnectionType::Direct)
                &&& c.remote_url matches Some(u) && url::peer_id(u) == Some(stats.pub_key@)
            },
{
    let mut peer_urls: Vec<Url> = Vec::new();
    if let Some(own_url) = local_url {
        peer_urls.push(own_url);
    }
    let mut stats: Vec<TransportConnectionStats> = Vec::new();
    let mut i: usize = 0;
    while i < connections.len()
        invariant
            i <= connections.len(),
            stats@.len() == i,
            forall|j: int|
                0 <= j < connections@.len() ==> peer_of(
                    (#[trigger] connections@[j]).0@,
                ) is Some,
            forall|j: int|
                0 <= j < i ==> (#[trigger] stats@[j]).tells(connections@[j].0@, connections@[j].1),
        decreases connections.len() - i,
    {
        assert(peer_of(connections@[i as int].0@) is Some);
        let (ctx, watched) = &connections[i];
        stats.push(TransportConnectionStats::new(ctx, *watched));
        i += 1;
    }
    TransportStats { backend: "iroh".to_owned(), peer_urls, connections: stats }
}

/// Takes a peer out of the map of connections. Hands out its connection, if there is one, and the
/// reason for which it is to be disconnected.
pub fn disconnect<V>(connections: &mut PeerMap<V>, peer: &Url) -> (r: Option<(V, String)>)
    ensures
        final(connections)@ == old(connections)@.remove(peer@),
        match r {
            Some((v, reason)) => {
                &&& old(connections)@.contains_key(peer@)
                &&& v == old(connections)@[peer@]
                &&& reason@ == "disconnecting from remote"@
            },
            None => !old(connections)@.contains_key(peer@),
        },
{
    match connections.remove(peer) {
        Some(v) => Some((v, "disconnecting from remote".to_owned())),
        None => None,
    }
}

} // verus!
