//! What comes out of a stream is what went into it, in order.
use crate::connection_context::ContextView;
use crate::error::ErrorView;
use crate::frame::{FrameType, FrameView, FRAME_HEADER_LEN};
use crate::incoming::{StreamActionView, StreamEventView, StreamPhase};
use crate::laws::{frames, streams};
use crate::{connection_context, frame, frame_send, incoming, url};
use vstd::prelude::*;
use vstd::utf8;

verus! {

/// How everybody but the peer behaves while a stream is handled.
#[verifier::ext_equal]
pub struct Surroundings {
    /// What the handler says to the preflight of the peer.
    pub preflight_handled: Result<(), ErrorView>,
    /// The local URL.
    pub local_url: Option<Seq<char>>,
    /// The preflight that the handler makes for the peer.
    pub preflight_made: Result<Seq<u8>, ErrorView>,
    /// Whether the own preflight can be sent.
    pub preflight_sent: Result<(), ErrorView>,
    /// What the handler says to each piece of data, by how many bytes are left on the stream
    /// behind it.
    pub data_handled: spec_fn(nat) -> Result<(), ErrorView>,
    /// The error that a read gives when the stream has too few bytes left.
    pub read_error: Seq<char>,
}

/// What the handling of a stream comes to.
#[verifier::ext_equal]
pub struct Played {
    /// What the handler was handed, with the URLs of whom it came from, in order.
    pub delivered: Seq<(Seq<char>, Seq<u8>)>,
    /// The connection afterwards.
    pub context: ContextView,
    /// How the handling ended.
    pub outcome: Result<(), ErrorView>,
}

/// The event that answers what is to be done in a phase, on a stream that holds `wire`.
pub open spec fn answer(
    s: Surroundings,
    phase: StreamPhase<Seq<char>>,
    wire: Seq<u8>,
) -> StreamEventView {
    match phase {
        StreamPhase::PreflightDelivered(_) => StreamEventView::PreflightHandled(
            s.preflight_handled,
            s.local_url,
        ),
        StreamPhase::PreflightRequested(..) => StreamEventView::PreflightMade(s.preflight_made),
        StreamPhase::PreflightAnswered(_) => StreamEventView::PreflightSent(s.preflight_sent),
        StreamPhase::Registering => StreamEventView::Registered,
        StreamPhase::DataDelivered(_) => StreamEventView::DataHandled(
            (s.data_handled)(wire.len()),
        ),
        _ => match incoming::wanted(phase) {
            Some(n) if n <= wire.len() => StreamEventView::Read(Ok(wire.take(n as int))),
            _ => StreamEventView::Read(Err(s.read_error)),
        },
    }
}

/// What is left on a stream that holds `wire` after a read in a phase.
pub open spec fn unread(phase: StreamPhase<Seq<char>>, wire: Seq<u8>) -> Seq<u8> {
    match incoming::wanted(phase) {
        Some(n) if n <= wire.len() => wire.skip(n as int),
        _ => wire,
    }
}

/// How many steps are left at most, beyond two for each byte on the stream.
pub open spec fn steps_left(phase: StreamPhase<Seq<char>>) -> nat {
    match phase {
        StreamPhase::PreflightHeader => 9,
        StreamPhase::PreflightPayload(_) => 8,
        StreamPhase::PreflightDelivered(_) => 7,
        StreamPhase::PreflightRequested(..) => 6,
        StreamPhase::PreflightAnswered(_) => 5,
        StreamPhase::Registering => 4,
        StreamPhase::DataHeader => 3,
        StreamPhase::DataPayload(_) => 5,
        StreamPhase::DataDelivered(_) => 4,
        StreamPhase::Closed => 0,
    }
}

/// Handles a stream that holds `wire` from a phase on, step by step to the end.
pub open spec fn play(
    s: Surroundings,
    phase: StreamPhase<Seq<char>>,
    c: ContextView,
    wire: Seq<u8>,
) -> Played
    decreases 2 * wire.len() + steps_left(phase),
{
    let (next, after, action) = incoming::stream_step(phase, c, answer(s, phase, wire));
    match action {
        StreamActionView::Finish(outcome) => Played {
            delivered: Seq::empty(),
            context: after,
            outcome,
        },
        StreamActionView::DeliverPreflight(peer, bytes)
        | StreamActionView::DeliverData(peer, bytes) => {
            let rest = play(s, next, after, unread(phase, wire));
            Played { delivered: seq![(peer, bytes)] + rest.delivered, ..rest }
        },
        _ => play(s, next, after, unread(phase, wire)),
    }
}

/// The bytes of data frames, one after the other.
pub open spec fn data_wire(messages: Seq<Seq<u8>>) -> Seq<u8>
    decreases messages.len(),
{
    if messages.len() == 0 {
        Seq::empty()
    } else {
        frame::header(FrameType::Data, messages[0].len()) + messages[0] + data_wire(
            messages.drop_first(),
        )
    }
}

/// The connection after messages were received.
pub open spec fn counting_all(c: ContextView, messages: Seq<Seq<u8>>) -> ContextView
    decreases messages.len(),
{
    if messages.len() == 0 {
        c
    } else {
        counting_all(c.counting_received(messages[0].len() as u64), messages.drop_first())
    }
}

/// Whether a message fits in a frame of at most `max` bytes.
pub open spec fn fits(message: Seq<u8>, max: nat) -> bool {
    message.len() + 5 <= max && message.len() <= 0xffff_ffff
}

/// Whether no whole data frame stands at the front of bytes: they are cut short, or not a data
/// frame of at most `max` bytes.
pub open spec fn no_data_frame(wire: Seq<u8>, max: nat) -> bool {
    wire.len() < FRAME_HEADER_LEN || match incoming::data_length(Ok(wire.take(5)), max) {
        Err(_) => true,
        Ok(n) => wire.len() - FRAME_HEADER_LEN < n,
    }
}

/// The messages of a peer.
pub open spec fn from_peer(peer: Seq<char>, messages: Seq<Seq<u8>>) -> Seq<(Seq<char>, Seq<u8>)> {
    messages.map_values(|m: Seq<u8>| (peer, m))
}

/// A stream on which no data frame is left ends without an error, and hands nothing out.
proof fn nothing_left(s: Surroundings, c: ContextView, tail: Seq<u8>)
    requires
        c.remote_url is Some,
        no_data_frame(tail, c.max_frame_bytes as nat),
    ensures
        play(s, StreamPhase::DataHeader, c, tail) == (Played {
            delivered: Seq::empty(),
            context: c,
            outcome: Ok(()),
        }),
{
    reveal_with_fuel(play, 2);
}

/// The first of the data frames on a stream is handed out, counted and read off the stream.
proof fn one_message(s: Surroundings, c: ContextView, peer: Seq<char>, m: Seq<u8>, rest: Seq<u8>)
    requires
        c.remote_url == Some(peer),
        fits(m, c.max_frame_bytes as nat),
    ensures
        ({
            let wire = frame::header(FrameType::Data, m.len()) + m + rest;
            let after = play(
                s,
                StreamPhase::DataHeader,
                c.counting_received(m.len() as u64),
                rest,
            );
            play(s, StreamPhase::DataHeader, c, wire) == (Played {
                delivered: seq![(peer, m)] + after.delivered,
                ..after
            })
        }),
{
    let wire = frame::header(FrameType::Data, m.len()) + m + rest;
    let max = c.max_frame_bytes as nat;
    frames::header_reads_back(FrameType::Data, m.len(), Seq::empty(), max);
    assert(wire.take(5) =~= frame::header(FrameType::Data, m.len()) + Seq::<u8>::empty());
    let body = wire.skip(5);
    assert(body =~= m + rest);
    assert(body.take(m.len() as int) =~= m);
    assert(body.skip(m.len() as int) =~= rest);
    let len = m.len() as usize;
    let step = play(s, StreamPhase::DataPayload(len), c, body);
    assert(play(s, StreamPhase::DataHeader, c, wire) == step);
    let handed = play(s, StreamPhase::DataDelivered(len), c, rest);
    assert(step == (Played { delivered: seq![(peer, m)] + handed.delivered, ..handed }));
}

/// Data frames are handed to the handler in the order in which they were sent, each once and byte
/// for byte, whatever the handler thinks of each. What is cut short, or no data frame, is not
/// handed out and ends the stream, but not the connection.
pub proof fn data_is_delivered_in_order(
    s: Surroundings,
    c: ContextView,
    peer: Seq<char>,
    messages: Seq<Seq<u8>>,
    tail: Seq<u8>,
)
    requires
        c.remote_url == Some(peer),
        forall|i: int| 0 <= i < messages.len() ==> fits(#[trigger] messages[i], c.max_frame_bytes as nat),
        no_data_frame(tail, c.max_frame_bytes as nat),
    ensures
        play(s, StreamPhase::DataHeader, c, data_wire(messages) + tail) == (Played {
            delivered: from_peer(peer, messages),
            context: counting_all(c, messages),
            outcome: Ok(()),
        }),
    decreases messages.len(),
{
    if messages.len() == 0 {
        nothing_left(s, c, tail);
        assert(data_wire(messages) + tail =~= tail);
        assert(from_peer(peer, messages) =~= Seq::empty());
    } else {
        let m = messages[0];
        let others = messages.drop_first();
        let next = c.counting_received(m.len() as u64);
        assert forall|i: int| 0 <= i < others.len() implies fits(
            #[trigger] others[i],
            c.max_frame_bytes as nat,
        ) by {
            assert(others[i] == messages[i + 1]);
        }
        data_is_delivered_in_order(s, next, peer, others, tail);
        one_message(s, c, peer, m, data_wire(others) + tail);
        assert(data_wire(messages) + tail =~= frame::header(FrameType::Data, m.len()) + m + (
        data_wire(others) + tail));
        assert(seq![(peer, m)] + from_peer(peer, others) =~= from_peer(peer, messages));
    }
}

/// Whether everybody but the peer does their part in the exchange of preflights on a connection.
pub open spec fn cooperative(s: Surroundings, c: ContextView) -> bool {
    &&& s.preflight_handled is Ok
    &&& c.preflight_sent || (s.local_url is Some && s.preflight_made is Ok && s.preflight_sent is Ok)
}

/// The connection when the preflights were exchanged with the peer at `url`.
pub open spec fn acquainted(c: ContextView, url: Seq<char>) -> ContextView {
    ContextView {
        remote_url: Some(url),
        preflight_received: true,
        preflight_sent: true,
        ..c
    }
}

/// After the preflight of the peer was read, the exchange is completed, and the stream is read for
/// data.
proof fn exchange_completes(s: Surroundings, c: ContextView, url: Seq<char>, rest: Seq<u8>)
    requires
        cooperative(s, c),
        c.remote_url == Some(url),
    ensures
        play(s, StreamPhase::PreflightDelivered(url), c, rest) == play(
            s,
            StreamPhase::DataHeader,
            acquainted(c, url),
            rest,
        ),
{
    let received = ContextView { preflight_received: true, ..c };
    let done = acquainted(c, url);
    assert(play(s, StreamPhase::Registering, done, rest) == play(
        s,
        StreamPhase::DataHeader,
        done,
        rest,
    ));
    if c.preflight_sent {
        assert(received == done);
        assert(play(s, StreamPhase::PreflightDelivered(url), c, rest) == play(
            s,
            StreamPhase::Registering,
            done,
            rest,
        ));
    } else {
        let local = s.local_url->0;
        assert(play(s, StreamPhase::PreflightAnswered(url), received, rest) == play(
            s,
            StreamPhase::Registering,
            done,
            rest,
        ));
        assert(play(s, StreamPhase::PreflightRequested(url, local), received, rest) == play(
            s,
            StreamPhase::PreflightAnswered(url),
            received,
            rest,
        ));
        assert(play(s, StreamPhase::PreflightDelivered(url), c, rest) == play(
            s,
            StreamPhase::PreflightRequested(url, local),
            received,
            rest,
        ));
    }
}

/// The bytes of a preflight frame.
pub open spec fn preflight_wire(url: Seq<char>, preflight: Seq<u8>) -> Seq<u8> {
    let payload = frame::payload(FrameView::Preflight(url, preflight));
    frame::header(FrameType::Preflight, payload.len()) + payload
}

/// The first stream of a connection: the preflight is handed to the handler first, then the
/// messages in the order in which they were sent, all under the URL that the preflight names. A
/// preflight that names no valid URL is not handed out, and is fatal to the connection.
pub proof fn first_stream_is_delivered_in_order(
    s: Surroundings,
    c: ContextView,
    url: Seq<char>,
    preflight: Seq<u8>,
    messages: Seq<Seq<u8>>,
    tail: Seq<u8>,
)
    requires
        !c.preflight_received,
        cooperative(s, c),
        fits(frame::payload(FrameView::Preflight(url, preflight)), c.max_frame_bytes as nat),
        forall|i: int| 0 <= i < messages.len() ==> fits(#[trigger] messages[i], c.max_frame_bytes as nat),
        no_data_frame(tail, c.max_frame_bytes as nat),
    ensures
        play(
            s,
            incoming::stream_start(c),
            c,
            preflight_wire(url, preflight) + data_wire(messages) + tail,
        ) == match url::parse(url) {
            Ok(_) => Played {
                delivered: seq![(url, preflight)] + from_peer(url, messages),
                context: counting_all(acquainted(c, url), messages),
                outcome: Ok(()),
            },
            Err(e) => Played { delivered: Seq::empty(), context: c, outcome: Err(e) },
        },
{
    let payload = frame::payload(FrameView::Preflight(url, preflight));
    let wire = preflight_wire(url, preflight) + data_wire(messages) + tail;
    let rest = data_wire(messages) + tail;
    let max = c.max_frame_bytes as nat;
    frames::header_reads_back(FrameType::Preflight, payload.len(), Seq::empty(), max);
    assert(wire.take(5) =~= frame::header(FrameType::Preflight, payload.len()) + Seq::<
        u8,
    >::empty());
    let body = wire.skip(5);
    assert(body =~= payload + rest);
    assert(body.take(payload.len() as int) =~= payload);
    assert(body.skip(payload.len() as int) =~= rest);
    let len = payload.len() as usize;
    let read = play(s, StreamPhase::PreflightPayload(len), c, body);
    assert(play(s, StreamPhase::PreflightHeader, c, wire) == read);
    assert(payload.len() == 4 + utf8::encode_utf8(url).len() + preflight.len());
    frames::preflight_reads_back(url, preflight);
    if url::parse(url) is Ok {
        let named = ContextView { remote_url: Some(url), ..c };
        let handed = play(s, StreamPhase::PreflightDelivered(url), named, rest);
        assert(read == (Played {
            delivered: seq![(url, preflight)] + handed.delivered,
            ..handed
        }));
        exchange_completes(s, named, url, rest);
        assert(acquainted(named, url) == acquainted(c, url));
        data_is_delivered_in_order(s, acquainted(c, url), url, messages, tail);
    }
}

/// A later stream of a connection: no preflight is read, and the messages are handed to the handler
/// in the order in which they were sent.
pub proof fn later_stream_is_delivered_in_order(
    s: Surroundings,
    c: ContextView,
    messages: Seq<Seq<u8>>,
    tail: Seq<u8>,
)
    requires
        streams::exchanged(c),
        forall|i: int| 0 <= i < messages.len() ==> fits(#[trigger] messages[i], c.max_frame_bytes as nat),
        no_data_frame(tail, c.max_frame_bytes as nat),
    ensures
        play(s, incoming::stream_start(c), c, data_wire(messages) + tail) == (Played {
            delivered: from_peer(c.remote_url->0, messages),
            context: counting_all(c, messages),
            outcome: Ok(()),
        }),
{
    data_is_delivered_in_order(s, c, c.remote_url->0, messages, tail);
}

/// Handles one stream after the other, as long as none is fatal to the connection.
pub open spec fn play_all(s: Surroundings, c: ContextView, wires: Seq<Seq<u8>>) -> Played
    decreases wires.len(),
{
    if wires.len() == 0 {
        Played { delivered: Seq::empty(), context: c, outcome: Ok(()) }
    } else {
        let first = play(s, incoming::stream_start(c), c, wires[0]);
        match first.outcome {
            Err(_) => first,
            Ok(()) => {
                let rest = play_all(s, first.context, wires.drop_first());
                Played { delivered: first.delivered + rest.delivered, ..rest }
            },
        }
    }
}

/// All messages of several streams.
pub open spec fn all_messages(streams: Seq<(Seq<Seq<u8>>, Seq<u8>)>) -> Seq<Seq<u8>>
    decreases streams.len(),
{
    if streams.len() == 0 {
        Seq::empty()
    } else {
        streams[0].0 + all_messages(streams.drop_first())
    }
}

/// The bytes of streams that hold messages, and something that is no data frame at the end.
pub open spec fn stream_wires(streams: Seq<(Seq<Seq<u8>>, Seq<u8>)>) -> Seq<Seq<u8>> {
    streams.map_values(|stream: (Seq<Seq<u8>>, Seq<u8>)| data_wire(stream.0) + stream.1)
}

/// Messages that were received are counted the same in one go and one part after the other. Nothing
/// else of the connection changes.
proof fn counting_goes_on(c: ContextView, first: Seq<Seq<u8>>, then: Seq<Seq<u8>>)
    ensures
        counting_all(counting_all(c, first), then) == counting_all(c, first + then),
        counting_all(c, first) == (ContextView {
            recv_message_count: counting_all(c, first).recv_message_count,
            recv_bytes: counting_all(c, first).recv_bytes,
            ..c
        }),
    decreases first.len(),
{
    if first.len() == 0 {
        assert(first + then =~= then);
    } else {
        counting_goes_on(c.counting_received(first[0].len() as u64), first.drop_first(), then);
        assert((first + then).drop_first() =~= first.drop_first() + then);
        assert((first + then)[0] == first[0]);
    }
}

/// A stream that ends in the middle of a frame does not end the connection: the messages of the
/// streams that follow it are handed to the handler too, all in the order in which they were sent.
pub proof fn streams_are_delivered_in_order(
    s: Surroundings,
    c: ContextView,
    streams: Seq<(Seq<Seq<u8>>, Seq<u8>)>,
)
    requires
        streams::exchanged(c),
        forall|k: int, i: int|
            0 <= k < streams.len() && 0 <= i < streams[k].0.len() ==> fits(
                #[trigger] streams[k].0[i],
                c.max_frame_bytes as nat,
            ),
        forall|k: int|
            0 <= k < streams.len() ==> no_data_frame(
                (#[trigger] streams[k]).1,
                c.max_frame_bytes as nat,
            ),
    ensures
        play_all(s, c, stream_wires(streams)) == (Played {
            delivered: from_peer(c.remote_url->0, all_messages(streams)),
            context: counting_all(c, all_messages(streams)),
            outcome: Ok(()),
        }),
    decreases streams.len(),
{
    let peer = c.remote_url->0;
    let wires = stream_wires(streams);
    if streams.len() == 0 {
        assert(from_peer(peer, all_messages(streams)) =~= Seq::empty());
    } else {
        let (messages, tail) = streams[0];
        let others = streams.drop_first();
        let after = counting_all(c, messages);
        assert(no_data_frame(streams[0].1, c.max_frame_bytes as nat));
        assert forall|i: int| 0 <= i < messages.len() implies fits(
            #[trigger] messages[i],
            c.max_frame_bytes as nat,
        ) by {
            assert(fits(streams[0].0[i], c.max_frame_bytes as nat));
        }
        later_stream_is_delivered_in_order(s, c, messages, tail);
        counting_goes_on(c, messages, all_messages(others));
        assert forall|k: int, i: int|
            0 <= k < others.len() && 0 <= i < others[k].0.len() implies fits(
            #[trigger] others[k].0[i],
            after.max_frame_bytes as nat,
        ) by {
            assert(fits(streams[k + 1].0[i], c.max_frame_bytes as nat));
        }
        assert forall|k: int| 0 <= k < others.len() implies no_data_frame(
            (#[trigger] others[k]).1,
            after.max_frame_bytes as nat,
        ) by {
            assert(no_data_frame(streams[k + 1].1, c.max_frame_bytes as nat));
        }
        streams_are_delivered_in_order(s, after, others);
        assert(wires.drop_first() =~= stream_wires(others));
        assert(from_peer(peer, messages) + from_peer(peer, all_messages(others)) =~= from_peer(
            peer,
            all_messages(streams),
        ));
    }
}

/// The frames that a peer sends over one stream: its preflight, then its messages.
pub open spec fn frames_of(
    url: Seq<char>,
    preflight: Seq<u8>,
    messages: Seq<Seq<u8>>,
) -> Seq<FrameView> {
    seq![FrameView::Preflight(url, preflight)] + messages.map_values(
        |m: Seq<u8>| FrameView::Data(m),
    )
}

/// The bytes that are written to a stream when frames are sent over it.
pub open spec fn written(frames: Seq<FrameView>, max: nat) -> Seq<u8>
    decreases frames.len(),
{
    if frames.len() == 0 {
        Seq::empty()
    } else {
        match frame_send::sending(frames[0], max) {
            Ok(sent) => sent.frame + written(frames.drop_first(), max),
            Err(_) => written(frames.drop_first(), max),
        }
    }
}

/// Data frames that can be sent are written one after the other.
proof fn data_is_written(messages: Seq<Seq<u8>>, max: nat)
    requires
        forall|i: int| 0 <= i < messages.len() ==> fits(#[trigger] messages[i], max),
    ensures
        written(messages.map_values(|m: Seq<u8>| FrameView::Data(m)), max) == data_wire(messages),
    decreases messages.len(),
{
    let frames = messages.map_values(|m: Seq<u8>| FrameView::Data(m));
    if messages.len() > 0 {
        let others = messages.drop_first();
        assert forall|i: int| 0 <= i < others.len() implies fits(#[trigger] others[i], max) by {
            assert(others[i] == messages[i + 1]);
        }
        data_is_written(others, max);
        assert(frames.drop_first() =~= others.map_values(|m: Seq<u8>| FrameView::Data(m)));
        assert(frames[0] == FrameView::Data(messages[0]));
    }
}

/// What a peer sends arrives: where the sender may send the preflight and each message, and the
/// receiver takes frames at least as large, the handler of the receiver is handed the preflight and
/// the messages, in order, under the URL of the sender, and the connection can be answered by that
/// URL.
pub proof fn what_is_sent_arrives(
    s: Surroundings,
    c: ContextView,
    url: Seq<char>,
    preflight: Seq<u8>,
    messages: Seq<Seq<u8>>,
    sender_max: nat,
)
    requires
        !c.preflight_received,
        cooperative(s, c),
        sender_max <= c.max_frame_bytes,
        frame_send::sending(FrameView::Preflight(url, preflight), sender_max) is Ok,
        forall|i: int|
            0 <= i < messages.len() ==> frame_send::sending(
                FrameView::Data(#[trigger] messages[i]),
                sender_max,
            ) is Ok,
    ensures
        url::parse(url) is Ok ==> play(
            s,
            incoming::stream_start(c),
            c,
            written(frames_of(url, preflight, messages), sender_max),
        ) == (Played {
            delivered: seq![(url, preflight)] + from_peer(url, messages),
            context: counting_all(acquainted(c, url), messages),
            outcome: Ok(()),
        }),
{
    let frames = frames_of(url, preflight, messages);
    let tail = Seq::<u8>::empty();
    assert(frames.drop_first() =~= messages.map_values(|m: Seq<u8>| FrameView::Data(m)));
    assert forall|i: int| 0 <= i < messages.len() implies fits(
        #[trigger] messages[i],
        c.max_frame_bytes as nat,
    ) by {
        assert(frame_send::sending(FrameView::Data(messages[i]), sender_max) is Ok);
    }
    assert forall|i: int| 0 <= i < messages.len() implies fits(
        #[trigger] messages[i],
        sender_max,
    ) by {
        assert(frame_send::sending(FrameView::Data(messages[i]), sender_max) is Ok);
    }
    data_is_written(messages, sender_max);
    assert(frames[0] == FrameView::Preflight(url, preflight));
    assert(written(frames, sender_max) == preflight_wire(url, preflight) + data_wire(messages));
    first_stream_is_delivered_in_order(s, c, url, preflight, messages, tail);
    assert(preflight_wire(url, preflight) + data_wire(messages) + tail =~= preflight_wire(
        url,
        preflight,
    ) + data_wire(messages));
}

/// How many bytes messages have together.
pub open spec fn total_len(messages: Seq<Seq<u8>>) -> nat
    decreases messages.len(),
{
    if messages.len() == 0 {
        0
    } else {
        messages[0].len() + total_len(messages.drop_first())
    }
}

/// A counter that wraps around on the way ends where it would without.
proof fn wrapping_on_the_way(a: u64, b: u64, rest: nat)
    ensures
        (connection_context::wrapping_sum(a, b) + rest) % 0x1_0000_0000_0000_0000 == (a + b + rest)
            % 0x1_0000_0000_0000_0000,
{
    let modulus: int = 0x1_0000_0000_0000_0000;
    vstd::arithmetic::div_mod::lemma_add_mod_noop_right(rest as int, a + b, modulus);
}

/// The counters of a connection tell how many messages were received and how many bytes they have
/// together, up to the size of a counter. Nothing else of the connection changes.
pub proof fn received_messages_are_counted(c: ContextView, messages: Seq<Seq<u8>>)
    requires
        forall|i: int| 0 <= i < messages.len() ==> (#[trigger] messages[i]).len() <= u64::MAX,
    ensures
        counting_all(c, messages) == (ContextView {
            recv_message_count: ((c.recv_message_count + messages.len())
                % 0x1_0000_0000_0000_0000) as u64,
            recv_bytes: ((c.recv_bytes + total_len(messages)) % 0x1_0000_0000_0000_0000) as u64,
            ..c
        }),
    decreases messages.len(),
{
    if messages.len() > 0 {
        let m = messages[0];
        let others = messages.drop_first();
        assert forall|i: int| 0 <= i < others.len() implies (#[trigger] others[i]).len()
            <= u64::MAX by {
            assert(others[i] == messages[i + 1]);
        }
        received_messages_are_counted(c.counting_received(m.len() as u64), others);
        wrapping_on_the_way(c.recv_message_count, 1, others.len());
        wrapping_on_the_way(c.recv_bytes, m.len() as u64, total_len(others));
    }
}

} // verus!
