//! What each thing that happens on a stream leads to.
use crate::connection_context::{ContextView, ParamsView};
use crate::error::{ErrorKind, ErrorView};
use crate::frame::FrameType;
use crate::incoming::{StreamActionView, StreamEventView, StreamPhase};
use crate::laws::{frames, streams};
use crate::{connection_context, frame, incoming};
use vstd::prelude::*;

verus! {

/// A stream of a connection whose peer was accepted starts with data; any other with a preflight.
pub proof fn stream_starts_with_what_is_due(c: ContextView)
    ensures
        c.preflight_received ==> incoming::stream_start(c) is DataHeader,
        !c.preflight_received ==> incoming::stream_start(c) is PreflightHeader,
{
}

/// A connection that was just opened has counted nothing, has received nothing and has no stream,
/// and is otherwise as it was asked for.
pub proof fn opened_connection_is_as_asked_for(params: ParamsView)
    ensures
        ({
            let c = connection_context::opened(params);
            &&& c.remote_url == params.remote_url
            &&& c.preflight_sent == params.preflight_sent
            &&& !c.preflight_received
            &&& c.send_message_count == 0 && c.send_bytes == 0
            &&& c.recv_message_count == 0 && c.recv_bytes == 0
            &&& c.opened_at_s == params.opened_at_s
            &&& c.max_frame_bytes == params.max_frame_bytes
            &&& !c.send_stream_open
            &&& c.reader_running
        }),
{
}

/// A peer whose preflight the handler refuses is refused, whether or not the own preflight was sent
/// before: the handling ends with the error of the handler, and nothing of the connection changes.
pub proof fn refused_preflight_is_fatal(
    peer: Seq<char>,
    c: ContextView,
    e: ErrorView,
    local: Option<Seq<char>>,
)
    ensures
        ({
            let (next, after, action) = incoming::stream_step(
                StreamPhase::PreflightDelivered(peer),
                c,
                StreamEventView::PreflightHandled(Err(e), local),
            );
            &&& action == StreamActionView::Finish(Err(e))
            &&& next is Closed
            &&& after == c
        }),
{
}

/// A peer whose preflight the handler accepts is accepted. Where the own preflight was sent before,
/// the connection is registered under the URL of the peer. Otherwise the own preflight is asked for,
/// to go with the local URL, without which the connection cannot go on.
pub proof fn accepted_preflight_is_answered(
    peer: Seq<char>,
    c: ContextView,
    local: Option<Seq<char>>,
)
    ensures
        ({
            let (next, after, action) = incoming::stream_step(
                StreamPhase::PreflightDelivered(peer),
                c,
                StreamEventView::PreflightHandled(Ok(()), local),
            );
            &&& after == (ContextView { preflight_received: true, ..c })
            &&& c.preflight_sent ==> {
                &&& action == StreamActionView::Register(peer)
                &&& next is Registering
            }
            &&& !c.preflight_sent && local is None ==> {
                &&& next is Closed
                &&& action matches StreamActionView::Finish(Err(e)) && e.kind
                    == ErrorKind::ReceivedBeforeUrl && e.source is None
            }
            &&& !c.preflight_sent && local is Some ==> {
                &&& action == StreamActionView::RequestPreflight(peer)
                &&& next == StreamPhase::PreflightRequested(peer, local->0)
            }
        }),
{
}

/// The own preflight is sent to the peer with the local URL, once the handler made it. Where the
/// handler does not make it, the handling ends with the error of the handler.
pub proof fn own_preflight_is_sent(
    peer: Seq<char>,
    local: Seq<char>,
    c: ContextView,
    made: Result<Seq<u8>, ErrorView>,
)
    ensures
        ({
            let (next, after, action) = incoming::stream_step(
                StreamPhase::PreflightRequested(peer, local),
                c,
                StreamEventView::PreflightMade(made),
            );
            &&& after == c
            &&& match made {
                Ok(preflight) => {
                    &&& action == StreamActionView::SendPreflight(local, preflight)
                    &&& next == StreamPhase::PreflightAnswered(peer)
                },
                Err(e) => {
                    &&& action == StreamActionView::Finish(Err(e))
                    &&& next is Closed
                },
            }
        }),
{
}

/// The connection is registered under the URL of the peer once the own preflight was sent. Where it
/// could not be sent, the handling ends with that error.
pub proof fn sent_preflight_completes_the_exchange(
    peer: Seq<char>,
    c: ContextView,
    sent: Result<(), ErrorView>,
)
    ensures
        ({
            let (next, after, action) = incoming::stream_step(
                StreamPhase::PreflightAnswered(peer),
                c,
                StreamEventView::PreflightSent(sent),
            );
            match sent {
                Ok(_) => {
                    &&& action == StreamActionView::Register(peer)
                    &&& next is Registering
                    &&& after == (ContextView { preflight_sent: true, ..c })
                },
                Err(e) => {
                    &&& action == StreamActionView::Finish(Err(e))
                    &&& next is Closed
                    &&& after == c
                },
            }
        }),
{
}

/// An exchange that takes too long ends with an error, wherever it is, and changes nothing of the
/// connection.
pub proof fn exchange_ends_in_time(phase: StreamPhase<Seq<char>>, c: ContextView, text: Seq<char>)
    requires
        phase is PreflightHeader || phase is PreflightPayload || phase is PreflightDelivered
            || phase is PreflightRequested || phase is PreflightAnswered,
    ensures
        incoming::PREFLIGHT_TIMEOUT_S == 10,
        incoming::stream_expects(phase, StreamEventView::TimedOut(text)),
        ({
            let (next, after, action) = incoming::stream_step(
                phase,
                c,
                StreamEventView::TimedOut(text),
            );
            &&& action matches StreamActionView::Finish(Err(e)) && e.kind
                == ErrorKind::PreflightTimedOut && e.source == Some(text)
            &&& next is Closed
            &&& after == c
        }),
{
}

/// What the header of the first frame of a connection leads to: the payload of a preflight frame
/// that is not too large is read, and everything else is fatal, with an error that says why.
pub proof fn first_header_must_be_of_a_preflight(
    c: ContextView,
    read: Result<Seq<u8>, Seq<char>>,
)
    requires
        read matches Ok(bytes) ==> bytes.len() == 5,
    ensures
        ({
            let (next, after, action) = incoming::stream_step(
                StreamPhase::PreflightHeader,
                c,
                StreamEventView::Read(read),
            );
            let max = c.max_frame_bytes;
            &&& after == c
            &&& match read {
                Err(text) => {
                    &&& action matches StreamActionView::Finish(Err(e)) && e.kind
                        == ErrorKind::PreflightHeaderUnread && e.source == Some(text)
                    &&& next is Closed
                },
                Ok(bytes) => {
                    let len = frames::number(bytes, 1);
                    if bytes[0] == 0 && len + 5 <= max {
                        &&& action matches StreamActionView::Read(n) && n == len
                        &&& next matches StreamPhase::PreflightPayload(n) && n == len
                    } else {
                        &&& next is Closed
                        &&& action matches StreamActionView::Finish(Err(e)) && e.source is None
                            && e.kind == if bytes[0] > 1 {
                            ErrorKind::UnknownFrameType(bytes[0])
                        } else if len + 5 > max {
                            ErrorKind::IncomingFrameTooLarge
                        } else {
                            ErrorKind::PreflightExpected
                        }
                    }
                },
            }
        }),
{
}

/// The preflight of a peer is handed to the handler under the URL that it names, which from then on
/// is the URL of the peer. Where it cannot be read, the handling ends with an error, and the peer
/// stays as it is.
pub proof fn preflight_is_delivered(
    len: usize,
    c: ContextView,
    read: Result<Seq<u8>, Seq<char>>,
)
    ensures
        ({
            let (next, after, action) = incoming::stream_step(
                StreamPhase::PreflightPayload(len),
                c,
                StreamEventView::Read(read),
            );
            match read {
                Err(text) => {
                    &&& action matches StreamActionView::Finish(Err(e)) && e.kind
                        == ErrorKind::PreflightDataUnread && e.source == Some(text)
                    &&& next is Closed
                    &&& after == c
                },
                Ok(bytes) => match frame::decoded_preflight(bytes) {
                    Ok((peer, preflight)) => {
                        &&& action == StreamActionView::DeliverPreflight(peer, preflight)
                        &&& next == StreamPhase::PreflightDelivered(peer)
                        &&& after == (ContextView { remote_url: Some(peer), ..c })
                    },
                    Err(e) => {
                        &&& action == StreamActionView::Finish(Err(e))
                        &&& next is Closed
                        &&& after == c
                    },
                },
            }
        }),
{
}

/// When the connection was registered, the header of a data frame is read, which has five bytes.
pub proof fn registered_connection_is_read_for_data(c: ContextView)
    ensures
        ({
            let (next, after, action) = incoming::stream_step(
                StreamPhase::Registering,
                c,
                StreamEventView::Registered,
            );
            &&& action == StreamActionView::Read(5)
            &&& next is DataHeader
            &&& after == c
        }),
{
}

/// What the header of a later frame leads to: the payload of a data frame that is not too large is
/// read, and everything else ends the stream without an error. Nothing of the connection changes.
pub proof fn later_header_must_be_of_data(c: ContextView, read: Result<Seq<u8>, Seq<char>>)
    requires
        read matches Ok(bytes) ==> bytes.len() == 5,
    ensures
        ({
            let (next, after, action) = incoming::stream_step(
                StreamPhase::DataHeader,
                c,
                StreamEventView::Read(read),
            );
            let good = match read {
                Ok(bytes) => bytes[0] == 1 && frames::number(bytes, 1) + 5 <= c.max_frame_bytes,
                Err(_) => false,
            };
            &&& after == c
            &&& good ==> {
                &&& action matches StreamActionView::Read(n) && n == frames::number(read->Ok_0, 1)
                &&& next matches StreamPhase::DataPayload(n) && n == frames::number(read->Ok_0, 1)
            }
            &&& !good ==> {
                &&& next is Closed
                &&& action matches StreamActionView::Finish(r) && r is Ok
            }
        }),
{
}

/// The data of a frame is handed to the handler as it was read, as data of the peer. Where it cannot
/// be read, the stream ends without an error. Data of nobody is an error.
pub proof fn data_is_delivered(len: usize, c: ContextView, read: Result<Seq<u8>, Seq<char>>)
    ensures
        ({
            let (next, after, action) = incoming::stream_step(
                StreamPhase::DataPayload(len),
                c,
                StreamEventView::Read(read),
            );
            &&& after == c
            &&& match (read, c.remote_url) {
                (Ok(data), Some(peer)) => {
                    &&& action == StreamActionView::DeliverData(peer, data)
                    &&& next == StreamPhase::<Seq<char>>::DataDelivered(len)
                },
                (Ok(_), None) => {
                    &&& action matches StreamActionView::Finish(Err(e)) && e.kind
                        == ErrorKind::DataBeforePreflight && e.source is None
                    &&& next is Closed
                },
                (Err(_), _) => {
                    &&& action matches StreamActionView::Finish(r) && r is Ok
                    &&& next is Closed
                },
            }
        }),
{
}

/// When data was handed to the handler, whatever it said, one message more was received, with as
/// many bytes as the frame had, and the next header is read. The counters wrap around; nothing else
/// changes, least of all what was sent.
pub proof fn delivered_data_is_counted(len: usize, c: ContextView, r: Result<(), ErrorView>)
    ensures
        ({
            let (next, after, action) = incoming::stream_step(
                StreamPhase::DataDelivered(len),
                c,
                StreamEventView::DataHandled(r),
            );
            &&& action == StreamActionView::Read(5)
            &&& next is DataHeader
            &&& after.recv_message_count == if c.recv_message_count == 0xffff_ffff_ffff_ffff {
                0
            } else {
                c.recv_message_count + 1
            }
            &&& after.recv_bytes == if c.recv_bytes + len > 0xffff_ffff_ffff_ffff {
                c.recv_bytes + len - 0x1_0000_0000_0000_0000
            } else {
                c.recv_bytes + len
            }
            &&& after == (ContextView {
                recv_message_count: after.recv_message_count,
                recv_bytes: after.recv_bytes,
                ..c
            })
        }),
{
}

/// A read can only give as many bytes as were asked for: five for a header, and as many for a
/// payload as its header says. Each other event can happen in one phase, but for the timeout, which
/// can come as long as the preflights are exchanged. When the handling has ended, nothing can.
pub proof fn what_can_happen_on_a_stream(
    phase: StreamPhase<Seq<char>>,
    event: StreamEventView,
)
    ensures
        incoming::stream_expects(phase, event) <==> match (phase, event) {
            (StreamPhase::PreflightHeader, StreamEventView::Read(Ok(bytes))) => bytes.len() == 5,
            (StreamPhase::DataHeader, StreamEventView::Read(Ok(bytes))) => bytes.len() == 5,
            (StreamPhase::PreflightPayload(n), StreamEventView::Read(Ok(bytes))) => bytes.len()
                == n,
            (StreamPhase::DataPayload(n), StreamEventView::Read(Ok(bytes))) => bytes.len() == n,
            (StreamPhase::PreflightHeader, StreamEventView::Read(Err(_))) => true,
            (StreamPhase::DataHeader, StreamEventView::Read(Err(_))) => true,
            (StreamPhase::PreflightPayload(_), StreamEventView::Read(Err(_))) => true,
            (StreamPhase::DataPayload(_), StreamEventView::Read(Err(_))) => true,
            (StreamPhase::PreflightDelivered(_), StreamEventView::PreflightHandled(..)) => true,
            (StreamPhase::PreflightRequested(..), StreamEventView::PreflightMade(_)) => true,
            (StreamPhase::PreflightAnswered(_), StreamEventView::PreflightSent(_)) => true,
            (StreamPhase::Registering, StreamEventView::Registered) => true,
            (StreamPhase::DataDelivered(_), StreamEventView::DataHandled(_)) => true,
            (StreamPhase::PreflightHeader, StreamEventView::TimedOut(_)) => true,
            (StreamPhase::PreflightPayload(_), StreamEventView::TimedOut(_)) => true,
            (StreamPhase::PreflightDelivered(_), StreamEventView::TimedOut(_)) => true,
            (StreamPhase::PreflightRequested(..), StreamEventView::TimedOut(_)) => true,
            (StreamPhase::PreflightAnswered(_), StreamEventView::TimedOut(_)) => true,
            _ => false,
        },
        incoming::in_preflight(phase) <==> phase is PreflightHeader || phase is PreflightPayload
            || phase is PreflightDelivered || phase is PreflightRequested
            || phase is PreflightAnswered,
{
}

/// How many bytes are read in a phase.
pub proof fn what_is_read_in_a_phase(phase: StreamPhase<Seq<char>>)
    ensures
        match incoming::wanted(phase) {
            Some(n) => match phase {
                StreamPhase::PreflightHeader | StreamPhase::DataHeader => n == 5,
                StreamPhase::PreflightPayload(len) | StreamPhase::DataPayload(len) => n == len,
                _ => false,
            },
            None => !(phase is PreflightHeader || phase is DataHeader || phase is PreflightPayload
                || phase is DataPayload),
        },
{
}

/// Everything that fails while the preflights are exchanged ends the handling with an error.
pub proof fn failure_in_the_exchange_is_fatal(
    phase: StreamPhase<Seq<char>>,
    c: ContextView,
    event: StreamEventView,
)
    requires
        incoming::stream_expects(phase, event),
        phase is PreflightHeader || phase is PreflightPayload || phase is PreflightDelivered
            || phase is PreflightRequested || phase is PreflightAnswered,
        match event {
            StreamEventView::Read(r) => r is Err,
            StreamEventView::PreflightHandled(r, _) => r is Err,
            StreamEventView::PreflightMade(r) => r is Err,
            StreamEventView::PreflightSent(r) => r is Err,
            StreamEventView::TimedOut(_) => true,
            _ => false,
        },
    ensures
        ({
            let (next, after, action) = incoming::stream_step(phase, c, event);
            &&& action matches StreamActionView::Finish(r) && r is Err
            &&& next is Closed
            &&& after == c
        }),
{
}

/// A peer is accepted only by the handler: the preflight counts as received, and the connection is
/// registered where the own preflight was sent before, only after the handler took the preflight.
pub proof fn only_the_handler_accepts_a_peer(
    phase: StreamPhase<Seq<char>>,
    c: ContextView,
    event: StreamEventView,
)
    requires
        incoming::stream_expects(phase, event),
    ensures
        ({
            let (next, after, action) = incoming::stream_step(phase, c, event);
            &&& after.preflight_received != c.preflight_received ==> (event matches
                StreamEventView::PreflightHandled(Ok(_), _))
            &&& action is Register ==> ((event matches StreamEventView::PreflightHandled(Ok(_), _))
                || (event matches StreamEventView::PreflightSent(Ok(_))))
            &&& (event matches StreamEventView::PreflightSent(Ok(_))) ==> phase is PreflightAnswered
        }),
{
}

/// On the first stream of a connection, whatever happens, the connection is registered only after
/// the handler took the preflight of the peer.
pub proof fn registered_after_the_handler_accepted(
    c: ContextView,
    events: Seq<StreamEventView>,
    j: int,
)
    requires
        !c.preflight_received,
        streams::possible(c, events),
        0 <= j < events.len(),
        streams::actions(c, events)[j] is Register,
    ensures
        exists|i: int| 0 <= i <= j && ((#[trigger] events[i]) matches
            StreamEventView::PreflightHandled(Ok(_), _)),
{
    streams::event_steps(c, events, j);
    accepted_by_the_handler(c, events, j);
    let (phase, before) = streams::after_events(c, events.take(j));
    only_the_handler_accepts_a_peer(phase, before, events[j]);
    if !(events[j] matches StreamEventView::PreflightHandled(Ok(_), _)) {
        streams::whole_stream_keeps_order(c, events, j);
        assert(before.preflight_received);
    }
}

/// Once the preflight counts as received, the handler took it.
proof fn accepted_by_the_handler(c: ContextView, events: Seq<StreamEventView>, j: int)
    requires
        !c.preflight_received,
        streams::possible(c, events),
        0 <= j <= events.len(),
    ensures
        streams::after_events(c, events.take(j)).1.preflight_received ==> exists|i: int|
            0 <= i < j && ((#[trigger] events[i]) matches StreamEventView::PreflightHandled(
                Ok(_),
                _,
            )),
    decreases j,
{
    if j > 0 {
        accepted_by_the_handler(c, events, j - 1);
        streams::event_steps(c, events, j - 1);
        let (phase, before) = streams::after_events(c, events.take(j - 1));
        only_the_handler_accepts_a_peer(phase, before, events[j - 1]);
    } else {
        assert(events.take(0).len() == 0);
    }
}

/// What reading the header of a data frame gives: its length, where it is one of data that is not
/// too large, or an error that says why not, with its cause.
pub proof fn data_header_is_read(read: Result<Seq<u8>, Seq<char>>, max: nat)
    ensures
        match incoming::data_length(read, max) {
            Ok(n) => {
                &&& read is Ok
                &&& read->Ok_0.len() >= 5
                &&& read->Ok_0[0] == 1
                &&& n == frames::number(read->Ok_0, 1)
                &&& n + 5 <= max
            },
            Err(e) => match e.kind {
                ErrorKind::DataHeaderUnread => read is Err && e.source == Some(read->Err_0),
                ErrorKind::DataExpected => read is Ok && read->Ok_0.len() >= 5 && read->Ok_0[0] == 0
                    && frames::number(read->Ok_0, 1) + 5 <= max && e.source is None,
                ErrorKind::BadDataHeader => read is Ok && match frame::decoded_header(
                    read->Ok_0,
                    max,
                ) {
                    Err(cause) => e.source == Some(cause.message()),
                    Ok(_) => false,
                },
                _ => false,
            },
        },
{
}

/// What reading the payload of a data frame gives: the data, or an error with its cause.
pub proof fn data_payload_is_read(read: Result<Seq<u8>, Seq<char>>)
    ensures
        match (read, incoming::data_payload(read)) {
            (Ok(bytes), Ok(data)) => data == bytes,
            (Err(text), Err(e)) => e.kind == ErrorKind::DataUnread && e.source == Some(text),
            _ => false,
        },
{
}

/// What reading the header of a preflight frame gives: the length of its payload, where it is one of
/// a preflight that is not too large, or an error that says why not.
pub proof fn preflight_header_is_read(read: Result<Seq<u8>, Seq<char>>, max: nat)
    ensures
        match incoming::preflight_length(read, max) {
            Ok(n) => {
                &&& read is Ok
                &&& read->Ok_0.len() >= 5
                &&& read->Ok_0[0] == 0
                &&& n == frames::number(read->Ok_0, 1)
                &&& n + 5 <= max
            },
            Err(e) => match e.kind {
                ErrorKind::PreflightHeaderUnread => read is Err && e.source == Some(read->Err_0),
                ErrorKind::PreflightExpected => read is Ok && read->Ok_0.len() >= 5
                    && read->Ok_0[0] == 1 && frames::number(read->Ok_0, 1) + 5 <= max
                    && e.source is None,
                _ => read is Ok && frame::decoded_header(read->Ok_0, max) == Err::<
                    (FrameType, nat),
                    ErrorView,
                >(e),
            },
        },
{
}

/// What reading the payload of a preflight frame gives: what the payload says, or an error with its
/// cause.
pub proof fn preflight_payload_is_read(read: Result<Seq<u8>, Seq<char>>)
    ensures
        match read {
            Ok(bytes) => incoming::preflight_payload(read) == frame::decoded_preflight(bytes),
            Err(text) => match incoming::preflight_payload(read) {
                Err(e) => e.kind == ErrorKind::PreflightDataUnread && e.source == Some(text),
                Ok(_) => false,
            },
        },
{
}

} // verus!
