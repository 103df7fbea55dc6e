//! The state of one connection to a peer.
use crate::url;
use crate::url::Url;
use vstd::prelude::*;
use vstd::slice::slice_to_vec;
use vstd::utf8;

verus! {

/// How the bytes of a connection travel.
#[derive(Clone, Copy, Debug, PartialEq, Eq, Structural)]
pub enum ConnectionType {
    /// Straight to an address of the peer.
    Direct,
    /// Through a relay.
    Relay,
    /// Both ways.
    Mixed,
    /// No way is known.
    NoPath,
}

/// What a connection starts from.
#[derive(Debug)]
pub struct ConnectionContextParams {
    /// The URL of the peer, where the connection was opened to it.
    pub remote_url: Option<Url>,
    /// Whether the preflight is sent by whoever opens the connection.
    pub preflight_sent: bool,
    /// When the connection was opened, in seconds since the epoch.
    pub opened_at_s: u64,
    /// How many bytes a frame may have.
    pub max_frame_bytes: usize,
}

/// [`ConnectionContextParams`] as a mathematical value.
#[verifier::ext_equal]
pub struct ParamsView {
    /// The URL of the peer, where the connection was opened to it.
    pub remote_url: Option<Seq<char>>,
    /// Whether the preflight is sent by whoever opens the connection.
    pub preflight_sent: bool,
    /// When the connection was opened, in seconds since the epoch.
    pub opened_at_s: u64,
    /// How many bytes a frame may have.
    pub max_frame_bytes: usize,
}

impl View for ConnectionContextParams {
    type V = ParamsView;

    open spec fn view(&self) -> ParamsView {
        ParamsView {
            remote_url: url::url_option(self.remote_url),
            preflight_sent: self.preflight_sent,
            opened_at_s: self.opened_at_s,
            max_frame_bytes: self.max_frame_bytes,
        }
    }
}

/// The state of a connection.
#[derive(Debug)]
pub struct ConnectionContext {
    remote_url: Option<Url>,
    preflight_sent: bool,
    preflight_received: bool,
    send_message_count: u64,
    send_bytes: u64,
    recv_message_count: u64,
    recv_bytes: u64,
    opened_at_s: u64,
    max_frame_bytes: usize,
    send_stream_open: bool,
    reader_running: bool,
}

/// A [`ConnectionContext`] as a mathematical value.
#[verifier::ext_equal]
pub struct ContextView {
    /// The URL of the peer, once it is known.
    pub remote_url: Option<Seq<char>>,
    /// Whether the preflight was sent.
    pub preflight_sent: bool,
    /// Whether the preflight of the peer was received and accepted.
    pub preflight_received: bool,
    /// How many data frames were sent.
    pub send_message_count: u64,
    /// How many bytes of data were sent.
    pub send_bytes: u64,
    /// How many data frames were received.
    pub recv_message_count: u64,
    /// How many bytes of data were received.
    pub recv_bytes: u64,
    /// When the connection was opened, in seconds since the epoch.
    pub opened_at_s: u64,
    /// How many bytes a frame may have.
    pub max_frame_bytes: usize,
    /// Whether a stream to the peer is open.
    pub send_stream_open: bool,
    /// Whether the reader of the connection runs.
    pub reader_running: bool,
}

/// The state in which a connection starts: nothing counted, nothing received, no stream open, and
/// its reader running.
pub open spec fn opened(params: ParamsView) -> ContextView {
    ContextView {
        remote_url: params.remote_url,
        preflight_sent: params.preflight_sent,
        preflight_received: false,
        send_message_count: 0,
        send_bytes: 0,
        recv_message_count: 0,
        recv_bytes: 0,
        opened_at_s: params.opened_at_s,
        max_frame_bytes: params.max_frame_bytes,
        send_stream_open: false,
        reader_running: true,
    }
}

/// The sum of two counters, which wrap around.
pub open spec fn wrapping_sum(a: u64, b: u64) -> u64 {
    ((a + b) % 0x1_0000_0000_0000_0000) as u64
}

impl ContextView {
    /// The state after a data frame with `len` bytes of data was sent.
    pub open spec fn counting_sent(self, len: u64) -> ContextView {
        ContextView {
            send_message_count: wrapping_sum(self.send_message_count, 1),
            send_bytes: wrapping_sum(self.send_bytes, len),
            ..self
        }
    }

    /// The state after a data frame with `len` bytes of data was received.
    pub open spec fn counting_received(self, len: u64) -> ContextView {
        ContextView {
            recv_message_count: wrapping_sum(self.recv_message_count, 1),
            recv_bytes: wrapping_sum(self.recv_bytes, len),
            ..self
        }
    }
}

/// What closes a connection, and what the handler of the transport is told of it.
#[derive(Debug)]
pub struct Disconnection {
    /// The code with which the connection is closed.
    pub close_code: u8,
    /// The reason with which the connection is closed.
    pub close_reason: Vec<u8>,
    /// The peer and the reason that the handler is told, if the peer is known.
    pub notify: Option<(Url, String)>,
}

/// A [`Disconnection`] as a mathematical value.
#[verifier::ext_equal]
pub struct DisconnectionView {
    /// The code with which the connection is closed.
    pub close_code: u8,
    /// The reason with which the connection is closed.
    pub close_reason: Seq<u8>,
    /// The peer and the reason that the handler is told, if the peer is known.
    pub notify: Option<(Seq<char>, Seq<char>)>,
}

impl View for Disconnection {
    type V = DisconnectionView;

    open spec fn view(&self) -> DisconnectionView {
        DisconnectionView {
            close_code: self.close_code,
            close_reason: self.close_reason@,
            notify: match self.notify {
                Some((peer, reason)) => Some((peer@, reason@)),
                None => None,
            },
        }
    }
}

/// How the bytes of a connection travel, from what is watched of it.
pub open spec fn travels(watched: Option<ConnectionType>) -> ConnectionType {
    match watched {
        Some(t) => t,
        None => ConnectionType::NoPath,
    }
}

impl ContextView {
    /// How the connection is closed for a reason.
    pub open spec fn disconnection(self, reason: Seq<char>) -> DisconnectionView {
        DisconnectionView {
            close_code: 0,
            close_reason: utf8::encode_utf8(reason),
            notify: match self.remote_url {
                Some(peer) => Some((peer, reason)),
                None => None,
            },
        }
    }

    /// The connection without its reader.
    pub open spec fn without_reader(self) -> ContextView {
        ContextView { reader_running: false, ..self }
    }
}

/// Adds two counters, which wrap around.
fn wrapping_add(a: u64, b: u64) -> (r: u64)
    ensures
        r == wrapping_sum(a, b),
{
    ((a as u128 + b as u128) % 0x1_0000_0000_0000_0000) as u64
}

impl View for ConnectionContext {
    type V = ContextView;

    closed spec fn view(&self) -> ContextView {
        ContextView {
            remote_url: url::url_option(self.remote_url),
            preflight_sent: self.preflight_sent,
            preflight_received: self.preflight_received,
            send_message_count: self.send_message_count,
            send_bytes: self.send_bytes,
            recv_message_count: self.recv_message_count,
            recv_bytes: self.recv_bytes,
            opened_at_s: self.opened_at_s,
            max_frame_bytes: self.max_frame_bytes,
            send_stream_open: self.send_stream_open,
            reader_running: self.reader_running,
        }
    }
}

impl Clone for ConnectionContext {
    fn clone(&self) -> (r: ConnectionContext)
        ensures
            r@ == self@,
    {
        ConnectionContext { remote_url: self.remote_url(), ..*self }
    }
}

impl ConnectionContext {
    /// The state in which a connection starts.
    pub fn new(params: ConnectionContextParams) -> (r: ConnectionContext)
        ensures
            r@ == opened(params@),
    {
        ConnectionContext {
            remote_url: params.remote_url,
            preflight_sent: params.preflight_sent,
            preflight_received: false,
            send_message_count: 0,
            send_bytes: 0,
            recv_message_count: 0,
            recv_bytes: 0,
            opened_at_s: params.opened_at_s,
            max_frame_bytes: params.max_frame_bytes,
            send_stream_open: false,
            reader_running: true,
        }
    }

    /// The URL of the peer, once it is known.
    pub fn remote_url(&self) -> (r: Option<Url>)
        ensures
            url::url_option(r) == self@.remote_url,
    {
        match &self.remote_url {
            Some(u) => Some(u.clone()),
            None => None,
        }
    }

    /// How many data frames were sent.
    pub fn get_send_message_count(&self) -> (r: u64)
        ensures
            r == self@.send_message_count,
    {
        self.send_message_count
    }

    /// How many bytes of data were sent.
    pub fn get_send_bytes(&self) -> (r: u64)
        ensures
            r == self@.send_bytes,
    {
        self.send_bytes
    }

    /// How many data frames were received.
    pub fn get_recv_message_count(&self) -> (r: u64)
        ensures
            r == self@.recv_message_count,
    {
        self.recv_message_count
    }

    /// How many bytes of data were received.
    pub fn get_recv_bytes(&self) -> (r: u64)
        ensures
            r == self@.recv_bytes,
    {
        self.recv_bytes
    }

    /// When the connection was opened, in seconds since the epoch.
    pub fn get_opened_at_s(&self) -> (r: u64)
        ensures
            r == self@.opened_at_s,
    {
        self.opened_at_s
    }

    /// How many bytes a frame may have.
    pub fn max_frame_bytes(&self) -> (r: usize)
        ensures
            r == self@.max_frame_bytes,
    {
        self.max_frame_bytes
    }

    /// How the bytes of the connection travel, where `watched` is what the watcher of the
    /// connection reports, if there is one.
    pub fn get_connection_type(&self, watched: Option<ConnectionType>) -> (r: ConnectionType)
        ensures
            r == match watched {
                Some(t) => t,
                None => ConnectionType::NoPath,
            },
            r == travels(watched),
    {
        match watched {
            Some(t) => t,
            None => ConnectionType::NoPath,
        }
    }

    /// Takes the reader of the connection off the context. Says whether there was one, which is
    /// then to be aborted.
    pub fn abort_tasks(&mut self) -> (r: bool)
        ensures
            r == old(self)@.reader_running,
            final(self)@ == (ContextView { reader_running: false, ..old(self)@ }),
            final(self)@ == old(self)@.without_reader(),
    {
        let running: bool = self.reader_running;
        self.reader_running = false;
        running
    }

    /// How to close the connection for a reason.
    pub fn disconnect(&self, reason: String) -> (r: Disconnection)
        ensures
            r.close_code == 0,
            r.close_reason@ == utf8::encode_utf8(reason@),
            match r.notify {
                Some((peer, text)) => self@.remote_url == Some(peer@) && text@ == reason@,
                None => self@.remote_url is None,
            },
            r@ == self@.disconnection(reason@),
    {
        let close_reason = slice_to_vec(reason.as_str().as_bytes());
        let notify = match self.remote_url() {
            Some(peer) => Some((peer, reason)),
            None => None,
        };
        Disconnection { close_code: 0, close_reason, notify }
    }

    /// Whether the preflight was sent.
    pub fn preflight_sent(&self) -> (r: bool)
        ensures
            r == self@.preflight_sent,
    {
        self.preflight_sent
    }

    /// Whether the preflight of the peer was received and accepted.
    pub fn preflight_received(&self) -> (r: bool)
        ensures
            r == self@.preflight_received,
    {
        self.preflight_received
    }

    /// Whether a stream to the peer is open.
    pub fn send_stream_open(&self) -> (r: bool)
        ensures
            r == self@.send_stream_open,
    {
        self.send_stream_open
    }

    /// Notes whether a stream to the peer is open.
    pub(crate) fn set_send_stream_open(&mut self, open: bool)
        ensures
            final(self)@ == (ContextView { send_stream_open: open, ..old(self)@ }),
    {
        self.send_stream_open = open;
    }

    /// Sets the URL of the peer.
    pub(crate) fn set_remote_url(&mut self, peer: Url)
        ensures
            final(self)@ == (ContextView { remote_url: Some(peer@), ..old(self)@ }),
    {
        self.remote_url = Some(peer);
    }

    /// Notes that the preflight was sent.
    pub(crate) fn set_preflight_sent(&mut self)
        ensures
            final(self)@ == (ContextView { preflight_sent: true, ..old(self)@ }),
    {
        self.preflight_sent = true;
    }

    /// Notes that the preflight of the peer was received and accepted.
    pub(crate) fn set_preflight_received(&mut self)
        ensures
            final(self)@ == (ContextView { preflight_received: true, ..old(self)@ }),
    {
        self.preflight_received = true;
    }

    /// Counts a data frame that was sent.
    pub(crate) fn count_sent(&mut self, len: u64)
        ensures
            final(self)@ == old(self)@.counting_sent(len),
    {
        self.send_message_count = wrapping_add(self.send_message_count, 1);
        self.send_bytes = wrapping_add(self.send_bytes, len);
    }

    /// Counts a data frame that was received.
    pub(crate) fn count_received(&mut self, len: u64)
        ensures
            final(self)@ == old(self)@.counting_received(len),
    {
        self.recv_message_count = wrapping_add(self.recv_message_count, 1);
        self.recv_bytes = wrapping_add(self.recv_bytes, len);
    }
}

} // verus!
