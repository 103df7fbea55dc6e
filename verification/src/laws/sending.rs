//! How frames and messages are sent, whatever happens on the way.
use crate::connection_context::{ContextView, ParamsView};
use crate::error::{ErrorKind, ErrorView};
use crate::frame_send::{FrameSendView, SendAction, SendEvent, SendPhase};
use crate::outgoing::{
    ConnectFailure, OutgoingActionView, OutgoingEventView, OutgoingPhase, OutgoingView,
};
use crate::url::EndpointAddrView;
use crate::{frame_send, outgoing, url};
use vstd::prelude::*;

verus! {

/// A stream to the peer is opened only where none is open, and a frame is written only where one
/// is.
pub proof fn one_stream_at_a_time(s: FrameSendView, c: ContextView, event: SendEvent<Seq<char>>)
    requires
        frame_send::send_expects(s.phase, event),
    ensures
        ({
            let (next, after, action) = frame_send::send_step(s, c, event);
            &&& action is OpenStream ==> !c.send_stream_open && event is StreamLocked
            &&& action is WriteFrame ==> after.send_stream_open
            &&& next.frame == s.frame
        }),
{
}

/// Sending a frame changes nothing of a connection but the stream to the peer and what was sent.
/// A message is counted when its frame was written, and not before.
pub proof fn only_written_messages_are_counted(
    s: FrameSendView,
    c: ContextView,
    event: SendEvent<Seq<char>>,
)
    requires
        frame_send::send_expects(s.phase, event),
    ensures
        ({
            let (next, after, action) = frame_send::send_step(s, c, event);
            &&& after == (ContextView {
                send_stream_open: after.send_stream_open,
                send_message_count: after.send_message_count,
                send_bytes: after.send_bytes,
                ..c
            })
            &&& match (event, s.data_len) {
                (SendEvent::FrameWritten(Ok(())), Some(len)) => after == c.counting_sent(len),
                _ => after.send_message_count == c.send_message_count && after.send_bytes
                    == c.send_bytes,
            }
        }),
{
}

/// A frame is sent over the open stream, or over a new one where none is open. The stream stays
/// open for the next frame.
pub proof fn frame_is_sent(s: FrameSendView, c: ContextView)
    requires
        s.phase == SendPhase::Waiting,
    ensures
        ({
            let (s1, c1, a1) = frame_send::send_step(s, c, SendEvent::StreamLocked);
            let (s2, c2, a2) = if c.send_stream_open {
                (s1, c1, a1)
            } else {
                frame_send::send_step(s1, c1, SendEvent::StreamOpened(Ok(())))
            };
            let (s3, c3, a3) = frame_send::send_step(s2, c2, SendEvent::FrameWritten(Ok(())));
            &&& c.send_stream_open || a1 is OpenStream
            &&& a2 is WriteFrame
            &&& s2.frame == s.frame
            &&& a3 == SendAction::<ErrorView>::Finish(Ok(()))
            &&& s3.phase == SendPhase::Done
            &&& c3.send_stream_open
            &&& c3 == match s.data_len {
                Some(len) => (ContextView { send_stream_open: true, ..c }).counting_sent(len),
                None => ContextView { send_stream_open: true, ..c },
            }
        }),
{
}

/// A stream to which a frame could not be written is given up: the next frame opens a new one.
pub proof fn failed_stream_is_replaced(
    s: FrameSendView,
    c: ContextView,
    reason: Seq<char>,
    next: FrameSendView,
)
    requires
        s.phase == SendPhase::Writing,
        next.phase == SendPhase::Waiting,
    ensures
        ({
            let (s1, c1, a1) = frame_send::send_step(s, c, SendEvent::FrameWritten(Err(reason)));
            let (s2, c2, a2) = frame_send::send_step(next, c1, SendEvent::StreamLocked);
            &&& a1 is Finish && a1->Finish_0 is Err
            &&& a2 is OpenStream
        }),
{
}

/// What holds of a message on its way: it is kept until it is handed out for sending.
pub open spec fn message_kept(s: OutgoingView) -> bool {
    s.data is None <==> s.phase is DataSending || s.phase is Done
}

/// A message that is about to be sent is kept.
pub proof fn message_is_kept_at_first(
    remote_url: Seq<char>,
    data: Seq<u8>,
    connect_timeout_s: u32,
    max_frame_bytes: usize,
)
    ensures
        outgoing::outgoing(remote_url, data, connect_timeout_s, max_frame_bytes) matches Ok(s) ==> {
            &&& message_kept(s)
            &&& s.data == Some(data)
        },
{
}

/// Whatever happens to a message on its way, it is kept unchanged until it is handed out, and it is
/// handed out only over a connection that is registered.
pub proof fn message_is_handed_out_once(s: OutgoingView, event: OutgoingEventView)
    requires
        outgoing::outgoing_expects(s, event),
        message_kept(s),
    ensures
        ({
            let (next, action) = outgoing::outgoing_step(s, event);
            &&& message_kept(next)
            &&& next.data is Some ==> next.data == s.data
            &&& action matches OutgoingActionView::SendData(data, early) ==> {
                &&& s.data == Some(data)
                &&& next.data is None
                &&& event == OutgoingEventView::Locked(true) && early || event
                    == OutgoingEventView::Registered && !early
            }
            &&& next.remote_url == s.remote_url && next.endpoint == s.endpoint
            &&& next.phase is Done <==> action is Finish
        }),
{
}

/// A connection is opened under the URL of the peer, with the preflight as its first frame, and is
/// registered only when the preflight was sent.
pub proof fn registered_after_preflight(s: OutgoingView, event: OutgoingEventView)
    requires
        outgoing::outgoing_expects(s, event),
    ensures
        ({
            let (next, action) = outgoing::outgoing_step(s, event);
            &&& action matches OutgoingActionView::SendPreflight(params, local, preflight) ==> {
                &&& params.remote_url == Some(s.remote_url)
                &&& params.preflight_sent
                &&& params.max_frame_bytes == s.max_frame_bytes
                &&& event == OutgoingEventView::PreflightMade(Ok(preflight))
            }
            &&& action matches OutgoingActionView::Register(peer) ==> {
                &&& peer == s.remote_url
                &&& event matches OutgoingEventView::PreflightSent(Ok(_))
            }
        }),
{
}

/// What goes wrong on the way ends the sending with an error: nothing is registered and no message
/// is handed out after it.
pub proof fn failure_ends_the_sending(s: OutgoingView, event: OutgoingEventView)
    requires
        outgoing::outgoing_expects(s, event),
    ensures
        ({
            let (next, action) = outgoing::outgoing_step(s, event);
            match event {
                OutgoingEventView::ConnectFailed(_)
                | OutgoingEventView::Connected(_, None)
                | OutgoingEventView::PreflightMade(Err(_))
                | OutgoingEventView::PreflightSent(Err(_))
                | OutgoingEventView::DataSent(Err(_)) => {
                    &&& action is Finish && action->Finish_0 is Err
                    &&& next.phase is Done && next.data is None
                },
                _ => action is Finish ==> event matches OutgoingEventView::DataSent(Ok(_)),
            }
        }),
{
}

/// The context that was opened for a connection is given up exactly where its preflight could not
/// be sent. It was not registered then, and never is.
pub proof fn failed_preflight_gives_up_the_context(s: OutgoingView, event: OutgoingEventView)
    requires
        outgoing::outgoing_expects(s, event),
    ensures
        ({
            let (next, action) = outgoing::outgoing_step(s, event);
            &&& match event {
                OutgoingEventView::PreflightSent(Err(e)) => {
                    &&& next.phase == OutgoingPhase::<Seq<char>>::Done(true)
                    &&& action == OutgoingActionView::Finish(Err(e))
                },
                _ => next.phase != OutgoingPhase::<Seq<char>>::Done(true),
            }
        }),
{
}

/// No event can happen to a message whose sending has ended.
pub proof fn ended_sending_is_over(s: OutgoingView, event: OutgoingEventView)
    requires
        s.phase is Done,
    ensures
        !outgoing::outgoing_expects(s, event),
{
}

/// A message to a connected peer is sent at once, and the next message need not wait for it.
pub proof fn connected_peer_is_sent_to(s: OutgoingView, data: Seq<u8>)
    requires
        s.phase is Waiting,
        s.data == Some(data),
    ensures
        ({
            let (s1, a1) = outgoing::outgoing_step(s, OutgoingEventView::Locked(true));
            let (s2, a2) = outgoing::outgoing_step(s1, OutgoingEventView::DataSent(Ok(())));
            &&& a1 == OutgoingActionView::SendData(data, true)
            &&& a2 == OutgoingActionView::Finish(Ok(()))
        }),
{
}

/// A message to a peer that is not connected is sent when a connection was established and
/// registered. The peer gets the preflight with the local URL first. The next message waits until
/// all of that is done.
pub proof fn new_peer_is_connected_first(
    s: OutgoingView,
    data: Seq<u8>,
    opened_at_s: u64,
    local: Seq<char>,
    preflight: Seq<u8>,
)
    requires
        s.phase is Waiting,
        s.data == Some(data),
    ensures
        ({
            let (s1, a1) = outgoing::outgoing_step(s, OutgoingEventView::Locked(false));
            let (s2, a2) = outgoing::outgoing_step(
                s1,
                OutgoingEventView::Connected(Some(opened_at_s), Some(local)),
            );
            let (s3, a3) = outgoing::outgoing_step(
                s2,
                OutgoingEventView::PreflightMade(Ok(preflight)),
            );
            let (s4, a4) = outgoing::outgoing_step(s3, OutgoingEventView::PreflightSent(Ok(())));
            let (s5, a5) = outgoing::outgoing_step(s4, OutgoingEventView::Registered);
            let (s6, a6) = outgoing::outgoing_step(s5, OutgoingEventView::DataSent(Ok(())));
            &&& a1 == OutgoingActionView::Connect(s.endpoint, s.connect_timeout_s)
            &&& a2 == OutgoingActionView::RequestPreflight(s.remote_url)
            &&& a3 == OutgoingActionView::SendPreflight(
                ParamsView {
                    remote_url: Some(s.remote_url),
                    preflight_sent: true,
                    opened_at_s,
                    max_frame_bytes: s.max_frame_bytes,
                },
                local,
                preflight,
            )
            &&& a4 == OutgoingActionView::Register(s.remote_url)
            &&& a5 == OutgoingActionView::SendData(data, false)
            &&& a6 == OutgoingActionView::Finish(Ok(()))
        }),
{
}

/// A frame whose turn it is goes over the open stream, or has one opened first.
pub proof fn frame_in_turn_takes_the_stream(s: FrameSendView, c: ContextView)
    ensures
        ({
            let (next, after, action) = frame_send::send_step(s, c, SendEvent::StreamLocked);
            &&& after == c
            &&& next.frame == s.frame && next.data_len == s.data_len
            &&& c.send_stream_open ==> action is WriteFrame && next.phase == SendPhase::Writing
            &&& !c.send_stream_open ==> action is OpenStream && next.phase == SendPhase::Opening
        }),
{
}

/// A frame is written to the stream that was opened for it, which is then the open one. Where none
/// could be opened, the frame is not sent, for the reason that was given.
pub proof fn opened_stream_is_written_to(s: FrameSendView, c: ContextView, r: Result<(), Seq<char>>)
    ensures
        ({
            let (next, after, action) = frame_send::send_step(s, c, SendEvent::StreamOpened(r));
            &&& next.frame == s.frame && next.data_len == s.data_len
            &&& match r {
                Ok(_) => {
                    &&& action is WriteFrame
                    &&& next.phase == SendPhase::Writing
                    &&& after == (ContextView { send_stream_open: true, ..c })
                },
                Err(text) => {
                    &&& action matches SendAction::Finish(Err(e)) && e.kind
                        == ErrorKind::OpenStreamFailed && e.source == Some(text)
                    &&& next.phase == SendPhase::Done
                    &&& after == c
                },
            }
        }),
{
}

/// A message that was written counts as one message more that was sent, with as many bytes as it
/// has; a preflight does not count. The counters wrap around, and nothing else changes, least of all
/// what was received.
pub proof fn written_message_is_counted(s: FrameSendView, c: ContextView)
    ensures
        ({
            let (next, after, action) = frame_send::send_step(s, c, SendEvent::FrameWritten(Ok(())));
            &&& action matches SendAction::Finish(r) && r is Ok
            &&& next.phase == SendPhase::Done
            &&& match s.data_len {
                None => after == c,
                Some(len) => {
                    &&& after.send_message_count == if c.send_message_count
                        == 0xffff_ffff_ffff_ffff {
                        0
                    } else {
                        c.send_message_count + 1
                    }
                    &&& after.send_bytes == if c.send_bytes + len > 0xffff_ffff_ffff_ffff {
                        c.send_bytes + len - 0x1_0000_0000_0000_0000
                    } else {
                        c.send_bytes + len
                    }
                    &&& after == (ContextView {
                        send_message_count: after.send_message_count,
                        send_bytes: after.send_bytes,
                        ..c
                    })
                },
            }
        }),
{
}

/// A frame that could not be written is not sent, for the reason that was given, and nothing counts.
/// The stream is given up.
pub proof fn unwritten_frame_is_an_error(s: FrameSendView, c: ContextView, text: Seq<char>)
    ensures
        ({
            let (next, after, action) = frame_send::send_step(
                s,
                c,
                SendEvent::FrameWritten(Err(text)),
            );
            &&& after == (ContextView { send_stream_open: false, ..c })
            &&& next.phase == SendPhase::Done
            &&& action matches SendAction::Finish(Err(e)) && e.source == Some(text) && e.kind
                == if s.data_len is Some {
                ErrorKind::SendDataFailed
            } else {
                ErrorKind::SendPreflightFailed
            }
        }),
{
}

/// A frame waits for its turn, then for a stream, then to be written. When it was or could not be,
/// nothing can happen to it.
pub proof fn what_can_happen_to_a_frame(phase: SendPhase, event: SendEvent<Seq<char>>)
    ensures
        frame_send::send_expects(phase, event) <==> match (phase, event) {
            (SendPhase::Waiting, SendEvent::StreamLocked) => true,
            (SendPhase::Opening, SendEvent::StreamOpened(_)) => true,
            (SendPhase::Writing, SendEvent::FrameWritten(_)) => true,
            _ => false,
        },
{
}

/// A message starts with what it was given: the peer, whose URL names the endpoint, the message, and
/// how long connecting may take and how large a frame may be. It starts exactly where the URL of the
/// peer names an endpoint, and waits for its turn with that peer.
pub proof fn message_starts_as_configured(
    remote_url: Seq<char>,
    data: Seq<u8>,
    connect_timeout_s: u32,
    max_frame_bytes: usize,
)
    ensures
        ({
            let started = outgoing::outgoing(remote_url, data, connect_timeout_s, max_frame_bytes);
            match (url::endpoint_of(remote_url), started) {
                (Ok(endpoint), Ok(s)) => {
                    &&& s.remote_url == remote_url
                    &&& s.endpoint == endpoint
                    &&& s.data == Some(data)
                    &&& s.connect_timeout_s == connect_timeout_s
                    &&& s.max_frame_bytes == max_frame_bytes
                    &&& s.phase is Waiting
                    &&& match outgoing::outgoing_start(started) {
                        Ok((first, action)) => first == s && action == OutgoingActionView::Lock(
                            remote_url,
                        ),
                        Err(_) => false,
                    }
                },
                (Err(refusal), Err(e)) => {
                    &&& e == refusal
                    &&& match outgoing::outgoing_start(started) {
                        Ok(_) => false,
                        Err(e) => e == refusal,
                    }
                },
                _ => false,
            }
        }),
{
}

/// Connecting to a peer goes to the endpoint that its URL names, and may take as long as configured.
pub proof fn connecting_takes_as_long_as_configured(
    remote_url: Seq<char>,
    data: Seq<u8>,
    connect_timeout_s: u32,
    max_frame_bytes: usize,
)
    ensures
        outgoing::outgoing(remote_url, data, connect_timeout_s, max_frame_bytes) matches Ok(s) ==> {
            let (next, action) = outgoing::outgoing_step(s, OutgoingEventView::Locked(false));
            &&& action matches OutgoingActionView::Connect(endpoint, timeout_s)
            &&& url::endpoint_of(remote_url) == Ok::<EndpointAddrView, ErrorView>(endpoint)
            &&& timeout_s == connect_timeout_s
            &&& next == (OutgoingView { phase: OutgoingPhase::Connecting, ..s })
        },
{
}

/// A message is kept as it was started on its way: only how far it has come changes, and whether it
/// still has to be handed out.
pub proof fn message_stays_as_started(s: OutgoingView, event: OutgoingEventView)
    ensures
        ({
            let (next, action) = outgoing::outgoing_step(s, event);
            &&& next.remote_url == s.remote_url
            &&& next.endpoint == s.endpoint
            &&& next.connect_timeout_s == s.connect_timeout_s
            &&& next.max_frame_bytes == s.max_frame_bytes
        }),
{
}

/// Why a message is not sent: connecting took too long or was refused, for the reason that was
/// given, or the local URL is not known yet.
pub proof fn failed_connection_is_an_error(s: OutgoingView, text: Seq<char>, at: Option<u64>)
    ensures
        outgoing::outgoing_step(
            s,
            OutgoingEventView::ConnectFailed(ConnectFailure::TimedOut(text)),
        ).1 matches OutgoingActionView::Finish(Err(e)) && e.kind == ErrorKind::ConnectTimedOut
            && e.source == Some(text),
        outgoing::outgoing_step(
            s,
            OutgoingEventView::ConnectFailed(ConnectFailure::Refused(text)),
        ).1 matches OutgoingActionView::Finish(Err(e)) && e.kind == ErrorKind::ConnectFailed
            && e.source == Some(text),
        outgoing::outgoing_step(s, OutgoingEventView::Connected(at, None)).1 matches
            OutgoingActionView::Finish(Err(e)) && e.kind == ErrorKind::ConnectBeforeUrl
            && e.source is None,
{
}

/// What the handler or the connection says against a preflight or a message is what the sender
/// hears; a message that was sent is heard to be.
pub proof fn outcome_is_passed_on(s: OutgoingView, e: ErrorView, r: Result<(), ErrorView>)
    ensures
        outgoing::outgoing_step(s, OutgoingEventView::PreflightMade(Err(e))).1
            == OutgoingActionView::Finish(Err(e)),
        outgoing::outgoing_step(s, OutgoingEventView::PreflightSent(Err(e))).1
            == OutgoingActionView::Finish(Err(e)),
        outgoing::outgoing_step(s, OutgoingEventView::DataSent(r)).1 == OutgoingActionView::Finish(
            r,
        ),
{
}

/// A connection that is made for a message is opened under the URL of the peer, at the time at which
/// it was established, or zero where that is not known, and with the configured size of frames. Its
/// preflight is what the handler made, sent with the local URL that was known then.
pub proof fn connection_is_opened_as_configured(
    s: OutgoingView,
    at: Option<u64>,
    local: Seq<char>,
    preflight: Seq<u8>,
)
    ensures
        ({
            let (s1, a1) = outgoing::outgoing_step(
                s,
                OutgoingEventView::Connected(at, Some(local)),
            );
            let (s2, a2) = outgoing::outgoing_step(
                s1,
                OutgoingEventView::PreflightMade(Ok(preflight)),
            );
            let (s3, a3) = outgoing::outgoing_step(s2, OutgoingEventView::PreflightSent(Ok(())));
            let (s4, a4) = outgoing::outgoing_step(s3, OutgoingEventView::Registered);
            &&& a1 == OutgoingActionView::RequestPreflight(s.remote_url)
            &&& s1.phase is PreflightRequested
            &&& a2 matches OutgoingActionView::SendPreflight(params, url, sent) && {
                &&& params.remote_url == Some(s.remote_url)
                &&& params.preflight_sent
                &&& params.opened_at_s == if at is Some {
                    at->0
                } else {
                    0
                }
                &&& params.max_frame_bytes == s.max_frame_bytes
                &&& url == local
                &&& sent == preflight
            }
            &&& s2.phase is PreflightSending
            &&& a3 == OutgoingActionView::Register(s.remote_url)
            &&& s3.phase is Registering
            &&& s.data is Some ==> a4 == OutgoingActionView::SendData(s.data->0, false)
            &&& s4.phase is DataSending
        }),
{
}

/// A message waits for its turn, then for the steps that a connection takes, then to be sent. It is
/// handed out only as long as it is kept.
pub proof fn what_can_happen_to_a_message(s: OutgoingView, event: OutgoingEventView)
    ensures
        outgoing::outgoing_expects(s, event) <==> match event {
            OutgoingEventView::Locked(_) => s.phase is Waiting && s.data is Some,
            OutgoingEventView::Connected(..) => s.phase is Connecting,
            OutgoingEventView::ConnectFailed(_) => s.phase is Connecting,
            OutgoingEventView::PreflightMade(_) => s.phase is PreflightRequested,
            OutgoingEventView::PreflightSent(_) => s.phase is PreflightSending,
            OutgoingEventView::Registered => s.phase is Registering && s.data is Some,
            OutgoingEventView::DataSent(_) => s.phase is DataSending,
        },
{
}

} // verus!
