//! What is stated of values is stated of all that they hold.
//!
//! The contracts speak of values by their views. Nothing that a value holds is lost in its view, and
//! no two outcomes are taken for one.
use crate::connection_context::{ConnectionContextParams, Disconnection};
use crate::connection_reader::{CloseAction, CloseEvent, ReaderAction, ReaderEvent};
use crate::error::Error;
use crate::frame::{Frame, FrameType, FrameView};
use crate::frame_send::{FrameSend, SendAction, SendEvent};
use crate::incoming::{StreamAction, StreamActionView, StreamEvent, StreamEventView};
use crate::outgoing::{
    ConnectFailure, OutgoingAction, OutgoingActionView, OutgoingEvent, OutgoingEventView,
    OutgoingSend,
};
use crate::startup::{
    AcceptAction, AcceptActionView, AddressUpdate, EndpointOptions, StartupAction, StartupEvent, WatchAction, WatchEvent,
};
use crate::url::{EndpointAddr, Host, RelayUrl, Url};
use crate::{error, frame, frame_send, incoming, outgoing, outside, startup, url};
use bytes::Bytes;
use vstd::prelude::*;

verus! {

/// An error is its kind and the text of its cause.
pub proof fn errors(e: Error)
    ensures
        e@.kind == e.kind,
        match (e.source, e@.source) {
            (Some(s), Some(t)) => t == s@,
            (None, None) => true,
            _ => false,
        },
{
}

/// An outcome is good or an error, and the error is the one that there is.
pub proof fn outcomes(r: Result<(), Error>, t: Result<(), String>)
    ensures
        match (r, error::unit_result(r)) {
            (Ok(_), Ok(_)) => true,
            (Err(e), Err(v)) => v == e@,
            _ => false,
        },
        match (t, error::outcome(t)) {
            (Ok(_), Ok(_)) => true,
            (Err(e), Err(v)) => v == e@,
            _ => false,
        },
{
}

/// Frames, and what encoding and decoding them gives.
pub proof fn frames(
    f: Frame,
    b: Result<Bytes, Error>,
    h: Result<(FrameType, usize), Error>,
    p: Result<(Url, Bytes), Error>,
)
    ensures
        match (f, f@) {
            (Frame::Preflight((u, bytes)), FrameView::Preflight(text, v)) => text == u@ && v
                == outside::contents(bytes),
            (Frame::Data(bytes), FrameView::Data(v)) => v == outside::contents(bytes),
            _ => false,
        },
        match (b, frame::bytes_result(b)) {
            (Ok(bytes), Ok(v)) => v == outside::contents(bytes),
            (Err(e), Err(v)) => v == e@,
            _ => false,
        },
        match (h, frame::header_result(h)) {
            (Ok((ty, len)), Ok((v, n))) => v == ty && n == len,
            (Err(e), Err(v)) => v == e@,
            _ => false,
        },
        match (p, frame::preflight_result(p)) {
            (Ok((u, bytes)), Ok((text, v))) => text == u@ && v == outside::contents(bytes),
            (Err(e), Err(v)) => v == e@,
            _ => false,
        },
{
}

/// What happens to a frame on its way, and what is to be done.
pub proof fn sent_frames(
    e: SendEvent<String>,
    a: SendAction<Error>,
    r: Result<FrameSend, Error>,
)
    ensures
        match (e, e@) {
            (SendEvent::StreamLocked, SendEvent::StreamLocked) => true,
            (SendEvent::StreamOpened(r), SendEvent::StreamOpened(v)) => v is Ok <==> r is Ok,
            (SendEvent::FrameWritten(r), SendEvent::FrameWritten(v)) => v is Ok <==> r is Ok,
            _ => false,
        },
        match (e, e@) {
            (SendEvent::StreamOpened(Err(t)), SendEvent::StreamOpened(Err(v))) => v == t@,
            (SendEvent::FrameWritten(Err(t)), SendEvent::FrameWritten(Err(v))) => v == t@,
            _ => true,
        },
        match (a, a@) {
            (SendAction::OpenStream, SendAction::OpenStream) => true,
            (SendAction::WriteFrame, SendAction::WriteFrame) => true,
            (SendAction::Finish(Ok(_)), SendAction::Finish(Ok(_))) => true,
            (SendAction::Finish(Err(e)), SendAction::Finish(Err(v))) => v == e@,
            _ => false,
        },
        match (r, frame_send::sending_result(r)) {
            (Ok(s), Ok(v)) => v == s@,
            (Err(e), Err(v)) => v == e@,
            _ => false,
        },
{
}

/// What happens on a stream.
pub proof fn stream_events(e: StreamEvent, r: Result<Vec<u8>, String>, n: Result<usize, Error>)
    ensures
        match (e, e@) {
            (StreamEvent::Read(Ok(b)), StreamEventView::Read(Ok(v))) => v == b@,
            (StreamEvent::Read(Err(t)), StreamEventView::Read(Err(v))) => v == t@,
            (
                StreamEvent::PreflightHandled(Ok(_), local),
                StreamEventView::PreflightHandled(Ok(_), v),
            ) => v == url::url_option(local),
            (
                StreamEvent::PreflightHandled(Err(e), local),
                StreamEventView::PreflightHandled(Err(f), v),
            ) => f == e@ && v == url::url_option(local),
            (StreamEvent::PreflightMade(Ok(b)), StreamEventView::PreflightMade(Ok(v))) => v
                == outside::contents(b),
            (StreamEvent::PreflightMade(Err(e)), StreamEventView::PreflightMade(Err(v))) => v
                == e@,
            (StreamEvent::PreflightSent(Ok(_)), StreamEventView::PreflightSent(Ok(_))) => true,
            (StreamEvent::PreflightSent(Err(e)), StreamEventView::PreflightSent(Err(v))) => v
                == e@,
            (StreamEvent::TimedOut(t), StreamEventView::TimedOut(v)) => v == t@,
            (StreamEvent::Registered, StreamEventView::Registered) => true,
            (StreamEvent::DataHandled(Ok(_)), StreamEventView::DataHandled(Ok(_))) => true,
            (StreamEvent::DataHandled(Err(e)), StreamEventView::DataHandled(Err(v))) => v == e@,
            _ => false,
        },
        match (r, incoming::read_result(r)) {
            (Ok(b), Ok(v)) => v == b@,
            (Err(t), Err(v)) => v == t@,
            _ => false,
        },
        match (n, incoming::length_result(n)) {
            (Ok(n), Ok(v)) => v == n,
            (Err(e), Err(v)) => v == e@,
            _ => false,
        },
{
}

/// What is to be done for a stream.
pub proof fn stream_actions(a: StreamAction)
    ensures
        match (a, a@) {
            (StreamAction::Read(n), StreamActionView::Read(v)) => v == n,
            (StreamAction::DeliverPreflight(u, b), StreamActionView::DeliverPreflight(t, v)) => t
                == u@ && v == outside::contents(b),
            (StreamAction::RequestPreflight(u), StreamActionView::RequestPreflight(t)) => t == u@,
            (StreamAction::SendPreflight(u, b), StreamActionView::SendPreflight(t, v)) => t == u@
                && v == outside::contents(b),
            (StreamAction::Register(u), StreamActionView::Register(t)) => t == u@,
            (StreamAction::DeliverData(u, b), StreamActionView::DeliverData(t, v)) => t == u@ && v
                == outside::contents(b),
            (StreamAction::Finish(Ok(_)), StreamActionView::Finish(Ok(_))) => true,
            (StreamAction::Finish(Err(e)), StreamActionView::Finish(Err(v))) => v == e@,
            _ => false,
        },
{
}

/// What happens on a connection and at its close, and what is to be done.
pub proof fn connection_steps(
    e: ReaderEvent<String, Error>,
    a: ReaderAction<Url, String>,
    ce: CloseEvent<Error>,
    ca: CloseAction<Url, String>,
)
    ensures
        match (e, e@) {
            (ReaderEvent::StreamAccepted, ReaderEvent::StreamAccepted) => true,
            (ReaderEvent::AcceptFailed(t), ReaderEvent::AcceptFailed(v)) => v == t@,
            (ReaderEvent::StreamHandled(Ok(_)), ReaderEvent::StreamHandled(Ok(_))) => true,
            (ReaderEvent::StreamHandled(Err(e)), ReaderEvent::StreamHandled(Err(v))) => v == e@,
            _ => false,
        },
        match (a, a@) {
            (ReaderAction::AcceptStream, ReaderAction::AcceptStream) => true,
            (ReaderAction::HandleStream, ReaderAction::HandleStream) => true,
            (ReaderAction::Close(u, t), ReaderAction::Close(peer, reason)) => peer
                == url::url_option(u) && reason == t@,
            _ => false,
        },
        match (ce, ce@) {
            (CloseEvent::Removed, CloseEvent::Removed) => true,
            (CloseEvent::Marked(Ok(_)), CloseEvent::Marked(Ok(_))) => true,
            (CloseEvent::Marked(Err(e)), CloseEvent::Marked(Err(v))) => v == e@,
            _ => false,
        },
        match (ca, ca@) {
            (CloseAction::Remove(u), CloseAction::Remove(v)) => v == u@,
            (CloseAction::MarkUnresponsive(u), CloseAction::MarkUnresponsive(v)) => v == u@,
            (CloseAction::Disconnect(t), CloseAction::Disconnect(v)) => v == t@,
            _ => false,
        },
{
}

/// What happens to a message on its way.
pub proof fn message_events(e: OutgoingEvent, b: Option<Bytes>)
    ensures
        match (e, e@) {
            (OutgoingEvent::Locked(c), OutgoingEventView::Locked(v)) => v == c,
            (OutgoingEvent::Connected(at, u), OutgoingEventView::Connected(v, t)) => v == at && t
                == url::url_option(u),
            (
                OutgoingEvent::ConnectFailed(ConnectFailure::TimedOut(t)),
                OutgoingEventView::ConnectFailed(ConnectFailure::TimedOut(v)),
            ) => v == t@,
            (
                OutgoingEvent::ConnectFailed(ConnectFailure::Refused(t)),
                OutgoingEventView::ConnectFailed(ConnectFailure::Refused(v)),
            ) => v == t@,
            (OutgoingEvent::PreflightMade(Ok(b)), OutgoingEventView::PreflightMade(Ok(v))) => v
                == outside::contents(b),
            (OutgoingEvent::PreflightMade(Err(e)), OutgoingEventView::PreflightMade(Err(v))) => v
                == e@,
            (OutgoingEvent::PreflightSent(Ok(_)), OutgoingEventView::PreflightSent(Ok(_))) => true,
            (OutgoingEvent::PreflightSent(Err(e)), OutgoingEventView::PreflightSent(Err(v))) => v
                == e@,
            (OutgoingEvent::Registered, OutgoingEventView::Registered) => true,
            (OutgoingEvent::DataSent(Ok(_)), OutgoingEventView::DataSent(Ok(_))) => true,
            (OutgoingEvent::DataSent(Err(e)), OutgoingEventView::DataSent(Err(v))) => v == e@,
            _ => false,
        },
        match (b, outgoing::bytes_option(b)) {
            (Some(b), Some(v)) => v == outside::contents(b),
            (None, None) => true,
            _ => false,
        },
{
}

/// What is to be done for a message, and the parameters of a connection.
pub proof fn message_actions(
    a: OutgoingAction,
    params: ConnectionContextParams,
    r: Result<(OutgoingSend, OutgoingAction), Error>,
)
    ensures
        match (a, a@) {
            (OutgoingAction::Lock(u), OutgoingActionView::Lock(v)) => v == u@,
            (OutgoingAction::Connect(e, s), OutgoingActionView::Connect(v, t)) => v == e@ && t == s,
            (OutgoingAction::RequestPreflight(u), OutgoingActionView::RequestPreflight(v)) => v
                == u@,
            (
                OutgoingAction::SendPreflight(p, u, b),
                OutgoingActionView::SendPreflight(q, t, v),
            ) => q == p@ && t == u@ && v == outside::contents(b),
            (OutgoingAction::Register(u), OutgoingActionView::Register(v)) => v == u@,
            (OutgoingAction::SendData(b, early), OutgoingActionView::SendData(v, w)) => v
                == outside::contents(b) && w == early,
            (OutgoingAction::Finish(Ok(_)), OutgoingActionView::Finish(Ok(_))) => true,
            (OutgoingAction::Finish(Err(e)), OutgoingActionView::Finish(Err(v))) => v == e@,
            _ => false,
        },
        params@.remote_url == url::url_option(params.remote_url),
        params@.preflight_sent == params.preflight_sent,
        params@.opened_at_s == params.opened_at_s,
        params@.max_frame_bytes == params.max_frame_bytes,
        match (r, outgoing::outgoing_result(r)) {
            (Ok((s, action)), Ok((v, w))) => v == s@ && w == action@,
            (Err(e), Err(v)) => v == e@,
            _ => false,
        },
{
}

/// What an endpoint is bound with.
pub proof fn endpoint_options(o: EndpointOptions, r: Result<EndpointOptions, Error>, i: int)
    ensures
        match (o.relay, o@.relay) {
            (Some(u), Some(v)) => v == u@,
            (None, None) => true,
            _ => false,
        },
        o@.alpns.len() == o.alpns@.len(),
        0 <= i < o.alpns@.len() ==> o@.alpns[i] == o.alpns@[i]@,
        match (r, startup::options_result(r)) {
            (Ok(options), Ok(v)) => v == options@,
            (Err(e), Err(v)) => v == e@,
            _ => false,
        },
{
}

/// What happens at the start of the transport and to its address, and what is to be done.
pub proof fn startup_steps(
    e: StartupEvent<String>,
    a: StartupAction<Error>,
    u: AddressUpdate<Url>,
    we: WatchEvent<EndpointAddr, String>,
    wa: WatchAction<Url>,
)
    ensures
        match (e, e@) {
            (StartupEvent::Bound(Ok(_)), StartupEvent::Bound(Ok(_))) => true,
            (StartupEvent::Bound(Err(t)), StartupEvent::Bound(Err(v))) => v == t@,
            (StartupEvent::UrlReady, StartupEvent::UrlReady) => true,
            (StartupEvent::WatchEnded, StartupEvent::WatchEnded) => true,
            (StartupEvent::TimedOut, StartupEvent::TimedOut) => true,
            _ => false,
        },
        match (a, a@) {
            (StartupAction::AwaitUrl(s), StartupAction::AwaitUrl(v)) => v == s,
            (StartupAction::Finish(Ok(_)), StartupAction::Finish(Ok(_))) => true,
            (StartupAction::Finish(Err(e)), StartupAction::Finish(Err(v))) => v == e@,
            _ => false,
        },
        u@.ready == u.ready && u@.listening == url::url_option(u.listening),
        match (we, we@) {
            (WatchEvent::Updated(addr), WatchEvent::Updated(v)) => v == addr@,
            (WatchEvent::Failed(t), WatchEvent::Failed(v)) => v == t@,
            _ => false,
        },
        match (wa, wa@) {
            (WatchAction::GoOn(update), WatchAction::GoOn(v)) => v == update@,
            (WatchAction::Stop(told), WatchAction::Stop(v)) => v == told,
            _ => false,
        },
{
}

/// What is to be done to accept connections, and how connections are closed.
pub proof fn accepted_and_closed(a: AcceptAction, d: Disconnection)
    ensures
        match (a, a@) {
            (AcceptAction::AwaitHandshake, AcceptActionView::AwaitHandshake) => true,
            (AcceptAction::Open(params), AcceptActionView::Open(v)) => v == params@,
            (AcceptAction::AcceptNext, AcceptActionView::AcceptNext) => true,
            (AcceptAction::Stop, AcceptActionView::Stop) => true,
            _ => false,
        },
        d@.close_code == d.close_code && d@.close_reason == d.close_reason@,
        match (d.notify, d@.notify) {
            (Some((u, t)), Some((peer, reason))) => peer == u@ && reason == t@,
            (None, None) => true,
            _ => false,
        },
{
}

/// Relay URLs and endpoint addresses.
pub proof fn addresses(r: RelayUrl, a: EndpointAddr, i: int)
    ensures
        r@.text == r.text@ && r@.scheme == r.scheme@,
        r@.port == r.port && r@.known_port == r.known_port,
        match (r.host, r@.host) {
            (None, None) => true,
            (Some(Host::Domain(s)), Some(Host::Domain(v))) => v == s@,
            (Some(Host::Ipv4(s)), Some(Host::Ipv4(v))) => v == s@,
            (Some(Host::Ipv6(s)), Some(Host::Ipv6(v))) => v == s@,
            _ => false,
        },
        a@.id == a.id@,
        a@.relay_urls.len() == a.relay_urls@.len(),
        0 <= i < a.relay_urls@.len() ==> a@.relay_urls[i] == a.relay_urls@[i]@,
{
}

/// What reading and writing URLs gives.
pub proof fn url_results(
    u: Option<Url>,
    t: Result<String, Error>,
    r: Result<Url, Error>,
    relay: Result<RelayUrl, Error>,
    a: Result<EndpointAddr, Error>,
    read: Result<String, String>,
    read_relay: Result<RelayUrl, String>,
)
    ensures
        match (u, url::url_option(u)) {
            (Some(u), Some(v)) => v == u@,
            (None, None) => true,
            _ => false,
        },
        match (t, url::text_result(t)) {
            (Ok(s), Ok(v)) => v == s@,
            (Err(e), Err(v)) => v == e@,
            _ => false,
        },
        match (r, url::url_result(r)) {
            (Ok(u), Ok(v)) => v == u@,
            (Err(e), Err(v)) => v == e@,
            _ => false,
        },
        match (relay, url::relay_result(relay)) {
            (Ok(u), Ok(v)) => v == u@,
            (Err(e), Err(v)) => v == e@,
            _ => false,
        },
        match (a, url::endpoint_result(a)) {
            (Ok(a), Ok(v)) => v == a@,
            (Err(e), Err(v)) => v == e@,
            _ => false,
        },
        match (read, url::read_text(read)) {
            (Ok(s), Ok(v)) => v == s@,
            (Err(e), Err(v)) => v == e@,
            _ => false,
        },
        match (read_relay, url::read_relay(read_relay)) {
            (Ok(u), Ok(v)) => v == u@,
            (Err(e), Err(v)) => v == e@,
            _ => false,
        },
{
}

} // verus!
