//! How the connections of the transport come and go.
use crate::config::IrohTransportConfig;
use crate::connection_context::{ConnectionType, ContextView};
use crate::connection_reader::{
    CloseAction, CloseEvent, ClosePhase, ReaderAction, ReaderEvent, ReaderPhase,
};
use crate::error::{ErrorKind, ErrorView};
use crate::frame_send::{FrameSendView, SendEvent};
use crate::incoming::{StreamEventView, StreamPhase};
use crate::startup::{
    AcceptActionView, AcceptEvent, AddressUpdate, LocalUrlView, StartupAction, StartupEvent, StartupPhase, WatchAction, WatchEvent,
};
use crate::transport::TransportConnectionStats;
use crate::url::{EndpointAddrView, RelayUrlView, Url};
use crate::{
    config, connection_context, connection_reader, error, frame_send, incoming, outside, peer_map, startup, transport,
    url,
};
use vstd::prelude::*;
use vstd::utf8;

verus! {

/// A connection is read on exactly as long as streams come in and end without an error. Its close
/// names the peer and the reason.
pub proof fn connection_is_read_until_an_error(
    phase: ReaderPhase,
    c: ContextView,
    event: ReaderEvent<Seq<char>, ErrorView>,
)
    requires
        connection_reader::reader_expects(phase, event),
    ensures
        ({
            let (next, action) = connection_reader::reader_step(c, event);
            &&& next == ReaderPhase::Ended <==> action is Close
            &&& action is Close <==> (event is AcceptFailed || event matches
                ReaderEvent::StreamHandled(Err(_)))
            &&& action matches ReaderAction::Close(peer, reason) ==> {
                &&& peer == c.remote_url
                &&& event == ReaderEvent::<Seq<char>, ErrorView>::AcceptFailed(reason) || exists|
                    e: ErrorView,
                |
                    event == ReaderEvent::<Seq<char>, ErrorView>::StreamHandled(Err(e)) && reason
                        == #[trigger] e.message()
            }
        }),
{
}

/// Nothing happens on a connection whose reader has ended.
pub proof fn ended_reader_is_over(event: ReaderEvent<Seq<char>, ErrorView>)
    ensures
        !connection_reader::reader_expects(ReaderPhase::Ended, event),
{
}

/// A connection to a peer that is known is closed in this order: the peer is taken out of the map of
/// connections, it is marked as unresponsive, and then, whether it could be marked or not, the
/// connection is disconnected for the reason. Without a peer, it is disconnected at once.
pub proof fn close_goes_in_order(
    peer: Option<Seq<char>>,
    reason: Seq<char>,
    marked: Result<(), ErrorView>,
)
    ensures
        ({
            let (p0, a0) = connection_reader::close_start(peer, reason);
            match peer {
                Some(peer) => {
                    let (p1, a1) = connection_reader::close_step(p0, CloseEvent::Removed);
                    let (p2, a2) = connection_reader::close_step(p1, CloseEvent::Marked(marked));
                    &&& a0 == CloseAction::<Seq<char>, Seq<char>>::Remove(peer)
                    &&& a1 == CloseAction::<Seq<char>, Seq<char>>::MarkUnresponsive(peer)
                    &&& a2 == CloseAction::<Seq<char>, Seq<char>>::Disconnect(reason)
                    &&& connection_reader::close_expects(p0, CloseEvent::Removed)
                    &&& connection_reader::close_expects(p1, CloseEvent::Marked(marked))
                    &&& p2 is Disconnecting
                },
                None => {
                    &&& a0 == CloseAction::<Seq<char>, Seq<char>>::Disconnect(reason)
                    &&& p0 is Disconnecting
                },
            }
        }),
{
}

/// After a connection was told to disconnect, its close is over; before that, exactly the next
/// event in order can happen.
pub proof fn close_ends_with_disconnecting(
    phase: ClosePhase<Seq<char>, Seq<char>>,
    event: CloseEvent<ErrorView>,
)
    ensures
        phase is Disconnecting ==> !connection_reader::close_expects(phase, event),
        connection_reader::close_expects(phase, event) ==> ({
            let (next, action) = connection_reader::close_step(phase, event);
            &&& action is Disconnect <==> event is Marked
            &&& action is Disconnect <==> next is Disconnecting
        }),
{
}

/// The address of the endpoint is followed exactly until it cannot be any more. The URL that is
/// known then stays known, and somebody is told that none comes only if none is.
pub proof fn address_is_followed_until_an_error(
    addrs: Seq<EndpointAddrView>,
    event: WatchEvent<EndpointAddrView, Seq<char>>,
)
    ensures
        ({
            let before = updates(LocalUrlView { url: None, awaited: true }, addrs).0;
            let (after, action) = startup::watch_step(before, event);
            &&& action is Stop <==> event is Failed
            &&& event matches WatchEvent::Updated(addr) ==> (after, action) == (
                startup::address_update(before, addr).0,
                WatchAction::GoOn(startup::address_update(before, addr).1),
            )
            &&& action matches WatchAction::Stop(told) ==> {
                &&& after.url == before.url
                &&& told <==> before.url is None
                &&& told <==> forall|i: int| 0 <= i < addrs.len() ==> !usable(#[trigger] addrs[i])
            }
        }),
{
    awaited_until_usable(addrs);
}

/// The URL of this side after the address was updated several times, and what followed from each
/// update.
pub open spec fn updates(l: LocalUrlView, addrs: Seq<EndpointAddrView>) -> (
    LocalUrlView,
    Seq<AddressUpdate<Seq<char>>>,
)
    decreases addrs.len(),
{
    if addrs.len() == 0 {
        (l, Seq::empty())
    } else {
        let (before, followed) = updates(l, addrs.drop_last());
        let (after, last) = startup::address_update(before, addrs.last());
        (after, followed.push(last))
    }
}

/// Once the URL of this side is known, it stays known.
pub proof fn local_url_stays_known(l: LocalUrlView, addrs: Seq<EndpointAddrView>)
    requires
        l.url is Some,
    ensures
        updates(l, addrs).0.url is Some,
    decreases addrs.len(),
{
    if addrs.len() > 0 {
        local_url_stays_known(l, addrs.drop_last());
    }
}

/// Whether an address gives a URL.
pub open spec fn usable(addr: EndpointAddrView) -> bool {
    url::first_relayed_url(addr, 0) is Some
}

/// The URL of this side is the one that the last usable address gives, and the handler is told the
/// URL of every usable address.
pub proof fn local_url_follows_the_address(l: LocalUrlView, addrs: Seq<EndpointAddrView>, k: int)
    requires
        0 <= k < addrs.len(),
        usable(addrs[k]),
        forall|i: int| k < i < addrs.len() ==> !usable(#[trigger] addrs[i]),
    ensures
        updates(l, addrs).0.url == url::first_relayed_url(addrs[k], 0),
        updates(l, addrs).1.len() == addrs.len(),
        updates(l, addrs).1[k].listening == url::first_relayed_url(addrs[k], 0),
    decreases addrs.len(),
{
    updates_are_as_many(l, addrs);
    updates_are_as_many(l, addrs.drop_last());
    if k < addrs.len() - 1 {
        assert(!usable(addrs[addrs.len() - 1]));
        assert forall|i: int| k < i < addrs.drop_last().len() implies !usable(
            #[trigger] addrs.drop_last()[i],
        ) by {
            assert(!usable(addrs[i]));
        }
        local_url_follows_the_address(l, addrs.drop_last(), k);
    }
}

/// Something follows from each update.
proof fn updates_are_as_many(l: LocalUrlView, addrs: Seq<EndpointAddrView>)
    ensures
        updates(l, addrs).1.len() == addrs.len(),
    decreases addrs.len(),
{
    if addrs.len() > 0 {
        updates_are_as_many(l, addrs.drop_last());
    }
}

/// Who waits for the first URL is signalled once: with the first usable address, and never again.
pub proof fn first_url_is_signalled_once(addrs: Seq<EndpointAddrView>, i: int)
    requires
        0 <= i < addrs.len(),
    ensures
        ({
            let (after, followed) = updates(LocalUrlView { url: None, awaited: true }, addrs);
            &&& followed.len() == addrs.len()
            &&& followed[i].ready <==> (usable(addrs[i]) && forall|j: int|
                0 <= j < i ==> !usable(#[trigger] addrs[j]))
        }),
    decreases addrs.len(),
{
    let l = LocalUrlView { url: None, awaited: true };
    updates_are_as_many(l, addrs);
    updates_are_as_many(l, addrs.drop_last());
    let earlier = addrs.drop_last();
    awaited_until_usable(earlier);
    if i < earlier.len() {
        first_url_is_signalled_once(earlier, i);
        assert forall|j: int| 0 <= j < i implies usable(#[trigger] earlier[j]) == usable(
            addrs[j],
        ) by {}
        assert((forall|j: int| 0 <= j < i ==> !usable(#[trigger] addrs[j])) <==> (forall|j: int|
            0 <= j < i ==> !usable(#[trigger] earlier[j]))) by {
            assert forall|j: int|
                (forall|j: int| 0 <= j < i ==> !usable(#[trigger] earlier[j])) && 0 <= j
                    < i implies !usable(#[trigger] addrs[j]) by {
                assert(!usable(earlier[j]));
            }
            assert forall|j: int|
                (forall|j: int| 0 <= j < i ==> !usable(#[trigger] addrs[j])) && 0 <= j
                    < i implies !usable(#[trigger] earlier[j]) by {
                assert(!usable(addrs[j]));
            }
        }
    } else {
        let none_before = forall|j: int| 0 <= j < i ==> !usable(#[trigger] addrs[j]);
        if none_before {
            assert forall|j: int| 0 <= j < earlier.len() implies !usable(
                #[trigger] earlier[j],
            ) by {
                assert(!usable(addrs[j]));
            }
        } else {
            let j = choose|j: int| 0 <= j < i && usable(#[trigger] addrs[j]);
            assert(usable(earlier[j]));
        }
    }
}

/// The first URL is awaited, and none is known, until an address is usable.
proof fn awaited_until_usable(addrs: Seq<EndpointAddrView>)
    ensures
        ({
            let after = updates(LocalUrlView { url: None, awaited: true }, addrs).0;
            let none_usable = forall|j: int| 0 <= j < addrs.len() ==> !usable(#[trigger] addrs[j]);
            &&& after.awaited <==> none_usable
            &&& after.url is None <==> none_usable
        }),
    decreases addrs.len(),
{
    if addrs.len() > 0 {
        let earlier = addrs.drop_last();
        awaited_until_usable(earlier);
        assert(addrs.last() == addrs[addrs.len() - 1]);
        if forall|j: int| 0 <= j < earlier.len() ==> !usable(#[trigger] earlier[j]) {
            assert forall|j: int| 0 <= j < addrs.len() - 1 implies !usable(#[trigger] addrs[j]) by {
                assert(!usable(earlier[j]));
            }
        } else {
            let j = choose|j: int| 0 <= j < earlier.len() && usable(#[trigger] earlier[j]);
            assert(usable(addrs[j]));
        }
    }
}

/// A configured relay is refused exactly where its URL cannot be read, or where it is reached in
/// plain text and that is not allowed. Without a relay, every configuration can be used.
pub proof fn plain_text_relay_must_be_allowed(
    scheme: Result<Seq<char>, Seq<char>>,
    allow_plain_text: bool,
)
    ensures
        config::relay_allowed(scheme, allow_plain_text) == Err::<(), ErrorView>(
            error::plain(ErrorKind::PlainTextRelay),
        ) <==> scheme == Ok::<Seq<char>, Seq<char>>("http"@) && !allow_plain_text,
        config::relay_allowed(scheme, true) is Ok <==> scheme is Ok,
        config::relay_allowed(scheme, allow_plain_text) is Ok ==> config::relay_allowed(
            scheme,
            true,
        ) is Ok,
{
}

/// Whoever asks for what is kept for a peer, and would keep something else, gets what is kept.
/// Nothing changes for other peers.
pub proof fn one_value_is_kept_per_peer<V>(
    m: Map<Seq<char>, V>,
    peer: Seq<char>,
    first: V,
    second: V,
    other: Seq<char>,
)
    ensures
        ({
            let once = peer_map::keeping(m, peer, first);
            let twice = peer_map::keeping(once, peer, second);
            &&& once.contains_key(peer)
            &&& twice == once
            &&& other != peer ==> once.contains_key(other) == m.contains_key(other) && (
            m.contains_key(other) ==> once[other] == m[other])
        }),
{
}

/// The endpoint uses the configured relay, of whatever kind, and no other. It uses the relays of n0
/// exactly where none is configured. A relay whose URL cannot be read is an error, with its cause.
pub proof fn configured_relay_is_used(read: Option<Result<RelayUrlView, Seq<char>>>)
    ensures
        match (read, startup::bound_with(read)) {
            (None, Ok(options)) => options.relay is None,
            (Some(Ok(relay)), Ok(options)) => options.relay == Some(relay),
            (Some(Err(text)), Err(e)) => e.kind == ErrorKind::UnusableRelayUrl && e.source == Some(
                text,
            ),
            _ => false,
        },
        startup::bound_with(read) matches Ok(options) ==> options.alpns.len() == 1
            && options.alpns[0] == utf8::encode_utf8("kitsune2/0"@),
{
}

/// The relay that the endpoint is bound with is the one that the configuration names.
pub proof fn relay_is_the_one_that_is_configured(config: IrohTransportConfig)
    ensures
        match config.relay_url {
            None => startup::configured_relay(config) is None,
            Some(text) => startup::configured_relay(config) == Some(outside::relay_url(text@)),
        },
        match (config.relay_url, startup::bound_with(startup::configured_relay(config))) {
            (None, Ok(options)) => options.relay is None,
            (Some(text), Ok(options)) => options.relay is Some && outside::relay_url(text@) == Ok::<
                RelayUrlView,
                Seq<char>,
            >(options.relay->0),
            (Some(text), Err(e)) => outside::relay_url(text@) is Err,
            (None, Err(_)) => false,
        },
{
}

/// What each thing that happens at the start of the transport leads to: a bound endpoint waits for
/// half a minute, the transport starts with its first URL, and everything else is an error.
pub proof fn start_of_the_transport(phase: StartupPhase, event: StartupEvent<Seq<char>>)
    ensures
        startup::startup_expects(phase, event) <==> if event is Bound {
            phase == StartupPhase::Binding
        } else {
            phase == StartupPhase::AwaitingUrl
        },
        match (event, startup::startup_step(event)) {
            (StartupEvent::Bound(Ok(_)), (next, StartupAction::AwaitUrl(wait_s))) => wait_s == 30
                && next == StartupPhase::AwaitingUrl,
            (StartupEvent::Bound(Err(text)), (next, StartupAction::Finish(Err(e)))) => e.kind
                == ErrorKind::BindFailed && e.source == Some(text) && next == StartupPhase::Done,
            (StartupEvent::UrlReady, (next, StartupAction::Finish(Ok(_)))) => next
                == StartupPhase::Done,
            (StartupEvent::WatchEnded, (next, StartupAction::Finish(Err(e)))) => e.kind
                == ErrorKind::WatchEnded && e.source is None && next == StartupPhase::Done,
            (StartupEvent::TimedOut, (next, StartupAction::Finish(Err(e)))) => e.kind
                == ErrorKind::RelayTimedOut && e.source is None && next == StartupPhase::Done,
            _ => false,
        },
{
}

/// What an update of the address leads to: by a usable address, this side has its URL and the
/// handler is told so, and who waits for the first URL is signalled if none was known. An address
/// without a usable relay leads to nothing.
pub proof fn address_is_announced(l: LocalUrlView, addr: EndpointAddrView)
    ensures
        ({
            let (next, update) = startup::address_update(l, addr);
            match url::first_relayed_url(addr, 0) {
                Some(u) => {
                    &&& next.url == Some(u)
                    &&& update.listening == Some(u)
                    &&& update.ready <==> l.awaited && l.url is None
                    &&& next.awaited <==> l.awaited && l.url is Some
                },
                None => {
                    &&& next == l
                    &&& update.listening is None
                    &&& !update.ready
                },
            }
        }),
{
}

/// A stream that came in is handled, and after it the next one is waited for. A reader waits for
/// streams until one came in, and for the end of that one.
pub proof fn streams_are_handled_one_by_one(
    c: ContextView,
    phase: ReaderPhase,
    event: ReaderEvent<Seq<char>, ErrorView>,
    text: Seq<char>,
)
    ensures
        ({
            let (next, action) = connection_reader::reader_step(c, ReaderEvent::StreamAccepted);
            action is HandleStream && next == ReaderPhase::Handling
        }),
        ({
            let (next, action) = connection_reader::reader_step(
                c,
                ReaderEvent::StreamHandled(Ok(())),
            );
            action is AcceptStream && next == ReaderPhase::Accepting
        }),
        ({
            let (next, action) = connection_reader::reader_step(c, ReaderEvent::AcceptFailed(text));
            action == ReaderAction::Close(c.remote_url, text) && next == ReaderPhase::Ended
        }),
        connection_reader::reader_expects(phase, event) <==> match event {
            ReaderEvent::StreamAccepted => phase == ReaderPhase::Accepting,
            ReaderEvent::AcceptFailed(_) => phase == ReaderPhase::Accepting,
            ReaderEvent::StreamHandled(_) => phase == ReaderPhase::Handling,
        },
{
}

/// The close of a connection waits for the peer to be taken out of the map, then for it to be
/// marked.
pub proof fn what_can_happen_at_a_close(
    phase: ClosePhase<Seq<char>, Seq<char>>,
    event: CloseEvent<ErrorView>,
)
    ensures
        connection_reader::close_expects(phase, event) <==> match (phase, event) {
            (ClosePhase::Removing(..), CloseEvent::Removed) => true,
            (ClosePhase::Marking(_), CloseEvent::Marked(_)) => true,
            _ => false,
        },
{
}

/// A configured relay may be used unless its URL cannot be read, which is an error with its cause,
/// or it is reached in plain text against the configuration. No relay may always be used.
pub proof fn relay_may_be_used(config: IrohTransportConfig)
    ensures
        match (config.relay_url, config::config_allowed(config)) {
            (None, r) => r is Ok,
            (Some(text), r) => match (outside::url_scheme(text@), r) {
                (Err(cause), Err(e)) => e.kind == ErrorKind::BadRelayConfig && e.source == Some(
                    cause,
                ),
                (Ok(scheme), Err(e)) => e.kind == ErrorKind::PlainTextRelay && e.source is None
                    && scheme == "http"@ && !config.relay_allow_plain_text,
                (Ok(scheme), Ok(_)) => scheme != "http"@ || config.relay_allow_plain_text,
                (Err(_), Ok(_)) => false,
            },
        },
{
}

/// The configuration to start from.
pub proof fn defaults_of_the_configuration()
    ensures
        ({
            let config = config::defaults();
            &&& config.relay_url is None
            &&& !config.relay_allow_plain_text
            &&& config.max_frame_bytes == 1024 * 1024
            &&& config.connect_timeout_s == 60
        }),
{
}

/// What is told of a connection is what its context says, under the same names: what was sent as
/// sent, what was received as received.
pub proof fn stats_tell_what_the_context_says(
    stats: TransportConnectionStats,
    c: ContextView,
    watched: Option<ConnectionType>,
)
    requires
        stats.tells(c, watched),
    ensures
        stats.send_message_count == c.send_message_count,
        stats.send_bytes == c.send_bytes,
        stats.recv_message_count == c.recv_message_count,
        stats.recv_bytes == c.recv_bytes,
        stats.opened_at_s == c.opened_at_s,
        stats.is_direct <==> watched == Some(ConnectionType::Direct),
        c.remote_url matches Some(u) && url::peer_id(u) == Some(stats.pub_key@),
{
}

/// A message that is sent changes only what is told of what was sent, and one that is received only
/// what is told of what was received.
pub proof fn stats_follow_the_messages(
    before: TransportConnectionStats,
    after: TransportConnectionStats,
    c: ContextView,
    s: FrameSendView,
    len: usize,
    r: Result<(), ErrorView>,
    watched: Option<ConnectionType>,
)
    requires
        before.tells(c, watched),
        c.send_message_count < u64::MAX && c.recv_message_count < u64::MAX,
    ensures
        after.tells(frame_send::send_step(s, c, SendEvent::FrameWritten(Ok(()))).1, watched)
            && s.data_len is Some ==> {
            &&& after.send_message_count == before.send_message_count + 1
            &&& after.recv_message_count == before.recv_message_count
            &&& after.recv_bytes == before.recv_bytes
            &&& after.opened_at_s == before.opened_at_s
            &&& after.pub_key@ == before.pub_key@
        },
        after.tells(
            incoming::stream_step(
                StreamPhase::DataDelivered(len),
                c,
                StreamEventView::DataHandled(r),
            ).1,
            watched,
        ) ==> {
            &&& after.recv_message_count == before.recv_message_count + 1
            &&& after.send_message_count == before.send_message_count
            &&& after.send_bytes == before.send_bytes
            &&& after.opened_at_s == before.opened_at_s
            &&& after.pub_key@ == before.pub_key@
        },
{
}

/// Every connection whose peer is known by a URL with an id can be told of, and no other.
pub proof fn peer_of_a_connection(c: ContextView)
    ensures
        match c.remote_url {
            Some(u) => transport::peer_of(c) == url::peer_id(u),
            None => transport::peer_of(c) is None,
        },
{
}

/// Entries for distinct peers stand for a map that has exactly these peers, each with its value.
pub proof fn entries_stand_for_a_map<V>(entries: Seq<(Url, V)>, peer: Seq<char>, i: int)
    requires
        peer_map::distinct(entries),
    ensures
        peer_map::map_of(entries).contains_key(peer) <==> exists|k: int|
            0 <= k < entries.len() && (#[trigger] entries[k]).0@ == peer,
        0 <= i < entries.len() && entries[i].0@ == peer ==> peer_map::map_of(entries)[peer]
            == entries[i].1,
{
    let m = peer_map::map_of(entries);
    if exists|k: int| 0 <= k < entries.len() && (#[trigger] entries[k]).0@ == peer {
        let k = choose|k: int| 0 <= k < entries.len() && (#[trigger] entries[k]).0@ == peer;
        assert(peer_map::entry_at(entries, peer, k));
    }
    if m.contains_key(peer) {
        let k = choose|k: int| peer_map::entry_at(entries, peer, k);
        assert(entries[k].0@ == peer);
    }
    if 0 <= i < entries.len() && entries[i].0@ == peer {
        assert(peer_map::entry_at(entries, peer, i));
        let k = choose|k: int| peer_map::entry_at(entries, peer, k);
        assert(peer_map::entry_at(entries, peer, k));
        assert(entries[i].0@ == entries[k].0@);
    }
}

/// What is kept for a peer when a new value is offered: what was kept before, or else that value.
pub proof fn kept_value_is_not_replaced<V>(m: Map<Seq<char>, V>, peer: Seq<char>, new: V)
    ensures
        m.contains_key(peer) ==> peer_map::keeping(m, peer, new) == m,
        !m.contains_key(peer) ==> peer_map::keeping(m, peer, new) == m.insert(peer, new),
{
}

/// Peers are distinct exactly where no URL stands twice among the entries.
pub proof fn peers_are_distinct<V>(entries: Seq<(Url, V)>)
    ensures
        peer_map::distinct(entries) <==> (forall|i: int, j: int|
            0 <= i < j < entries.len() ==> #[trigger] entries[i].0@ != #[trigger] entries[j].0@),
{
    if forall|i: int, j: int|
        0 <= i < j < entries.len() ==> #[trigger] entries[i].0@ != #[trigger] entries[j].0@ {
        assert forall|i: int, j: int|
            0 <= i < entries.len() && 0 <= j < entries.len() && i != j implies #[trigger] entries[i].0@
            != #[trigger] entries[j].0@ by {
            if j < i {
                assert(entries[j].0@ != entries[i].0@);
            }
        }
    }
}

/// A connection that came in is waited for, and opened when it was established: with a peer that is
/// not known, which gets the preflight only in answer to its own. A connection that could not be
/// established leads to nothing but the next one. No more are accepted when the endpoint is closed.
pub proof fn incoming_connections_are_accepted(event: AcceptEvent, max_frame_bytes: usize)
    ensures
        match (event, startup::accepting(event, max_frame_bytes)) {
            (AcceptEvent::Incoming, AcceptActionView::AwaitHandshake) => true,
            (AcceptEvent::HandshakeFailed, AcceptActionView::AcceptNext) => true,
            (AcceptEvent::EndpointClosed, AcceptActionView::Stop) => true,
            (AcceptEvent::Established(at), AcceptActionView::Open(params)) => {
                &&& params.remote_url is None
                &&& !params.preflight_sent
                &&& at matches Some(s) ==> params.opened_at_s == s
                &&& at is None ==> params.opened_at_s == 0
                &&& params.max_frame_bytes == max_frame_bytes
                &&& incoming::stream_start(connection_context::opened(params)) is PreflightHeader
            },
            _ => false,
        },
{
}

/// A connection is closed without a code, for the reason that is given to the peer and, where the
/// peer is known, to the handler.
pub proof fn closing_tells_the_reason(c: ContextView, reason: Seq<char>)
    ensures
        ({
            let d = c.disconnection(reason);
            &&& d.close_code == 0
            &&& d.close_reason == utf8::encode_utf8(reason)
            &&& match c.remote_url {
                Some(peer) => d.notify == Some((peer, reason)),
                None => d.notify is None,
            }
        }),
{
}

/// A reader is taken off a connection once, and nothing else of the connection changes.
pub proof fn reader_is_taken_off_once(c: ContextView)
    ensures
        !c.without_reader().reader_running,
        c.without_reader().without_reader() == c.without_reader(),
        (ContextView { reader_running: c.reader_running, ..c.without_reader() }) == c,
{
}

/// A connection travels as it is watched to, and in no known way where it is not watched.
pub proof fn connection_travels_as_watched(watched: Option<ConnectionType>)
    ensures
        watched matches Some(t) ==> connection_context::travels(watched) == t,
        watched is None ==> connection_context::travels(watched) == ConnectionType::NoPath,
        connection_context::travels(watched) == ConnectionType::Direct <==> watched == Some(
            ConnectionType::Direct,
        ),
{
}

/// Messages of whatever size leave the counters of the other direction alone, and count one message
/// with its bytes in their own, up to the size of a counter.
pub proof fn counters_go_their_own_ways(c: ContextView, len: u64)
    ensures
        ({
            let sent = c.counting_sent(len);
            &&& sent.recv_message_count == c.recv_message_count && sent.recv_bytes == c.recv_bytes
            &&& c.send_message_count < u64::MAX ==> sent.send_message_count == c.send_message_count
                + 1
            &&& c.send_bytes + len <= u64::MAX ==> sent.send_bytes == c.send_bytes + len
        }),
        ({
            let received = c.counting_received(len);
            &&& received.send_message_count == c.send_message_count && received.send_bytes
                == c.send_bytes
            &&& c.recv_message_count < u64::MAX ==> received.recv_message_count
                == c.recv_message_count + 1
            &&& c.recv_bytes + len <= u64::MAX ==> received.recv_bytes == c.recv_bytes + len
        }),
{
}

} // verus!
