//! The handling of an incoming stream.
//!
//! The first frame on a new connection is the preflight of the peer. It names the URL of the peer
//! and is answered with the own preflight, unless that was sent before. Then the connection is
//! registered, and the stream is read for data frames until one cannot be read. What goes wrong
//! before the connection is registered is fatal to the connection; what goes wrong afterwards only
//! ends the stream.
use crate::connection_context::{ConnectionContext, ContextView};
use crate::error::{Error, ErrorKind, ErrorView};
use crate::frame::{decode_frame_header, decode_frame_preflight, FrameType, FRAME_HEADER_LEN};
use crate::url::Url;
use crate::{error, frame, outside, url};
use bytes::Bytes;
use vstd::prelude::*;

verus! {

/// How long the exchange of preflights may take, in seconds.
pub const PREFLIGHT_TIMEOUT_S: u64 = 10;

/// How far the handling of a stream has come. `U` is a URL.
#[derive(Debug)]
pub enum StreamPhase<U> {
    /// The header of the preflight frame is being read.
    PreflightHeader,
    /// The payload of the preflight frame is being read, of which the length is known.
    PreflightPayload(usize),
    /// The handler looks at the preflight of the peer.
    PreflightDelivered(U),
    /// The handler makes the own preflight for the peer, to be sent with the local URL.
    PreflightRequested(U, U),
    /// The own preflight is being sent to the peer.
    PreflightAnswered(U),
    /// The connection to the peer is being registered.
    Registering,
    /// The header of a data frame is being read.
    DataHeader,
    /// The payload of a data frame is being read, of which the length is known.
    DataPayload(usize),
    /// The handler looks at the data of a frame, of which the length is known.
    DataDelivered(usize),
    /// The handling has ended.
    Closed,
}

/// The handling of an incoming stream.
#[derive(Debug)]
pub struct IncomingStream {
    phase: StreamPhase<Url>,
}

/// What happened on a stream.
#[derive(Debug)]
pub enum StreamEvent {
    /// The bytes that were asked for were read, or the read failed.
    Read(Result<Vec<u8>, String>),
    /// The handler looked at the preflight. The local URL is the one known now.
    PreflightHandled(Result<(), Error>, Option<Url>),
    /// The handler made the own preflight, or refused to.
    PreflightMade(Result<Bytes, Error>),
    /// The own preflight was sent, or could not be.
    PreflightSent(Result<(), Error>),
    /// The exchange of preflights took too long.
    TimedOut(String),
    /// The connection was registered.
    Registered,
    /// The handler looked at the data.
    DataHandled(Result<(), Error>),
}

/// A [`StreamEvent`] as a mathematical value.
pub enum StreamEventView {
    /// The bytes that were asked for were read, or the read failed.
    Read(Result<Seq<u8>, Seq<char>>),
    /// The handler looked at the preflight. The local URL is the one known now.
    PreflightHandled(Result<(), ErrorView>, Option<Seq<char>>),
    /// The handler made the own preflight, or refused to.
    PreflightMade(Result<Seq<u8>, ErrorView>),
    /// The own preflight was sent, or could not be.
    PreflightSent(Result<(), ErrorView>),
    /// The exchange of preflights took too long.
    TimedOut(Seq<char>),
    /// The connection was registered.
    Registered,
    /// The handler looked at the data.
    DataHandled(Result<(), ErrorView>),
}

/// What to do for a stream.
#[derive(Debug)]
pub enum StreamAction {
    /// Read this many bytes from the stream.
    Read(usize),
    /// Hand the preflight of the peer to the handler.
    DeliverPreflight(Url, Bytes),
    /// Ask the handler for the preflight to send to the peer.
    RequestPreflight(Url),
    /// Send a preflight frame with the local URL and the own preflight.
    SendPreflight(Url, Bytes),
    /// Register the connection under the URL of the peer.
    Register(Url),
    /// Hand data of the peer to the handler.
    DeliverData(Url, Bytes),
    /// The handling has ended. An error is fatal to the connection.
    Finish(Result<(), Error>),
}

/// A [`StreamAction`] as a mathematical value.
pub enum StreamActionView {
    /// Read this many bytes from the stream.
    Read(usize),
    /// Hand the preflight of the peer to the handler.
    DeliverPreflight(Seq<char>, Seq<u8>),
    /// Ask the handler for the preflight to send to the peer.
    RequestPreflight(Seq<char>),
    /// Send a preflight frame with the local URL and the own preflight.
    SendPreflight(Seq<char>, Seq<u8>),
    /// Register the connection under the URL of the peer.
    Register(Seq<char>),
    /// Hand data of the peer to the handler.
    DeliverData(Seq<char>, Seq<u8>),
    /// The handling has ended. An error is fatal to the connection.
    Finish(Result<(), ErrorView>),
}

/// The view of what a read gave.
pub open spec fn read_result(r: Result<Vec<u8>, String>) -> Result<Seq<u8>, Seq<char>> {
    match r {
        Ok(bytes) => Ok(bytes@),
        Err(t) => Err(t@),
    }
}

impl View for IncomingStream {
    type V = StreamPhase<Seq<char>>;

    closed spec fn view(&self) -> StreamPhase<Seq<char>> {
        match self.phase {
            StreamPhase::PreflightHeader => StreamPhase::PreflightHeader,
            StreamPhase::PreflightPayload(len) => StreamPhase::PreflightPayload(len),
            StreamPhase::PreflightDelivered(peer) => StreamPhase::PreflightDelivered(peer@),
            StreamPhase::PreflightRequested(peer, local) => StreamPhase::PreflightRequested(
                peer@,
                local@,
            ),
            StreamPhase::PreflightAnswered(peer) => StreamPhase::PreflightAnswered(peer@),
            StreamPhase::Registering => StreamPhase::Registering,
            StreamPhase::DataHeader => StreamPhase::DataHeader,
            StreamPhase::DataPayload(len) => StreamPhase::DataPayload(len),
            StreamPhase::DataDelivered(len) => StreamPhase::DataDelivered(len),
            StreamPhase::Closed => StreamPhase::Closed,
        }
    }
}

impl View for StreamEvent {
    type V = StreamEventView;

    open spec fn view(&self) -> StreamEventView {
        match *self {
            StreamEvent::Read(r) => StreamEventView::Read(read_result(r)),
            StreamEvent::PreflightHandled(r, local) => StreamEventView::PreflightHandled(
                error::unit_result(r),
                url::url_option(local),
            ),
            StreamEvent::PreflightMade(r) => StreamEventView::PreflightMade(frame::bytes_result(r)),
            StreamEvent::PreflightSent(r) => StreamEventView::PreflightSent(error::unit_result(r)),
            StreamEvent::TimedOut(t) => StreamEventView::TimedOut(t@),
            StreamEvent::Registered => StreamEventView::Registered,
            StreamEvent::DataHandled(r) => StreamEventView::DataHandled(error::unit_result(r)),
        }
    }
}

impl View for StreamAction {
    type V = StreamActionView;

    open spec fn view(&self) -> StreamActionView {
        match *self {
            StreamAction::Read(n) => StreamActionView::Read(n),
            StreamAction::DeliverPreflight(peer, b) => StreamActionView::DeliverPreflight(
                peer@,
                outside::contents(b),
            ),
            StreamAction::RequestPreflight(peer) => StreamActionView::RequestPreflight(peer@),
            StreamAction::SendPreflight(local, b) => StreamActionView::SendPreflight(
                local@,
                outside::contents(b),
            ),
            StreamAction::Register(peer) => StreamActionView::Register(peer@),
            StreamAction::DeliverData(peer, b) => StreamActionView::DeliverData(
                peer@,
                outside::contents(b),
            ),
            StreamAction::Finish(r) => StreamActionView::Finish(error::unit_result(r)),
        }
    }
}

/// The length of a preflight payload, from what reading the header gave.
pub open spec fn preflight_length(read: Result<Seq<u8>, Seq<char>>, max: nat) -> Result<
    nat,
    ErrorView,
> {
    match read {
        Err(t) => Err(error::caused(ErrorKind::PreflightHeaderUnread, t)),
        Ok(bytes) => match frame::decoded_header(bytes, max) {
            Err(e) => Err(e),
            Ok((FrameType::Data, _)) => Err(error::plain(ErrorKind::PreflightExpected)),
            Ok((FrameType::Preflight, len)) => Ok(len),
        },
    }
}

/// The URL and the preflight of the peer, from what reading the payload gave.
pub open spec fn preflight_payload(read: Result<Seq<u8>, Seq<char>>) -> Result<
    (Seq<char>, Seq<u8>),
    ErrorView,
> {
    match read {
        Err(t) => Err(error::caused(ErrorKind::PreflightDataUnread, t)),
        Ok(bytes) => frame::decoded_preflight(bytes),
    }
}

/// The length of the data of a frame, from what reading the header gave.
pub open spec fn data_length(read: Result<Seq<u8>, Seq<char>>, max: nat) -> Result<nat, ErrorView> {
    match read {
        Err(t) => Err(error::caused(ErrorKind::DataHeaderUnread, t)),
        Ok(bytes) => match frame::decoded_header(bytes, max) {
            Err(e) => Err(error::caused(ErrorKind::BadDataHeader, e.message())),
            Ok((FrameType::Preflight, _)) => Err(error::plain(ErrorKind::DataExpected)),
            Ok((FrameType::Data, len)) => Ok(len),
        },
    }
}

/// The data of a frame, from what reading the payload gave.
pub open spec fn data_payload(read: Result<Seq<u8>, Seq<char>>) -> Result<Seq<u8>, ErrorView> {
    match read {
        Err(t) => Err(error::caused(ErrorKind::DataUnread, t)),
        Ok(bytes) => Ok(bytes),
    }
}

/// The view of a result that holds a length.
pub open spec fn length_result(r: Result<usize, Error>) -> Result<nat, ErrorView> {
    match r {
        Ok(n) => Ok(n as nat),
        Err(e) => Err(e@),
    }
}

/// The length of a preflight payload, from what reading the header gave.
pub fn read_preflight_header(read: Result<Vec<u8>, String>, max_frame_bytes: usize) -> (r: Result<
    usize,
    Error,
>)
    ensures
        length_result(r) == preflight_length(read_result(read), max_frame_bytes as nat),
{
    match read {
        Err(t) => Err(Error::caused_by(ErrorKind::PreflightHeaderUnread, t)),
        Ok(bytes) => match decode_frame_header(bytes.as_slice(), max_frame_bytes) {
            Err(e) => Err(e),
            Ok((FrameType::Data, _)) => Err(Error::new(ErrorKind::PreflightExpected)),
            Ok((FrameType::Preflight, len)) => Ok(len),
        },
    }
}

/// The URL and the preflight of the peer, from what reading the payload gave.
pub fn read_preflight_payload(read: Result<Vec<u8>, String>) -> (r: Result<(Url, Bytes), Error>)
    ensures
        frame::preflight_result(r) == preflight_payload(read_result(read)),
{
    match read {
        Err(t) => Err(Error::caused_by(ErrorKind::PreflightDataUnread, t)),
        Ok(bytes) => decode_frame_preflight(bytes.as_slice()),
    }
}

/// The length of the data of a frame, from what reading the header gave.
pub fn read_data_header(read: Result<Vec<u8>, String>, max_frame_bytes: usize) -> (r: Result<
    usize,
    Error,
>)
    ensures
        length_result(r) == data_length(read_result(read), max_frame_bytes as nat),
{
    match read {
        Err(t) => Err(Error::caused_by(ErrorKind::DataHeaderUnread, t)),
        Ok(bytes) => match decode_frame_header(bytes.as_slice(), max_frame_bytes) {
            Err(e) => Err(Error::caused_by(ErrorKind::BadDataHeader, e.message())),
            Ok((FrameType::Preflight, _)) => Err(Error::new(ErrorKind::DataExpected)),
            Ok((FrameType::Data, len)) => Ok(len),
        },
    }
}

/// The data of a frame, from what reading the payload gave.
pub fn read_data_payload(read: Result<Vec<u8>, String>) -> (r: Result<Bytes, Error>)
    ensures
        frame::bytes_result(r) == data_payload(read_result(read)),
{
    match read {
        Err(t) => Err(Error::caused_by(ErrorKind::DataUnread, t)),
        Ok(bytes) => Ok(outside::copy_bytes(bytes.as_slice())),
    }
}

/// How many bytes are being read in a phase.
pub open spec fn wanted(phase: StreamPhase<Seq<char>>) -> Option<nat> {
    match phase {
        StreamPhase::PreflightHeader | StreamPhase::DataHeader => Some(FRAME_HEADER_LEN as nat),
        StreamPhase::PreflightPayload(len) | StreamPhase::DataPayload(len) => Some(len as nat),
        _ => None,
    }
}

/// Whether the preflights are being exchanged in a phase.
pub open spec fn in_preflight(phase: StreamPhase<Seq<char>>) -> bool {
    ||| phase is PreflightHeader
    ||| phase is PreflightPayload
    ||| phase is PreflightDelivered
    ||| phase is PreflightRequested
    ||| phase is PreflightAnswered
}

/// Whether an event can happen in a phase. A read gives as many bytes as were asked for, or fails.
pub open spec fn stream_expects(phase: StreamPhase<Seq<char>>, event: StreamEventView) -> bool {
    match event {
        StreamEventView::Read(Ok(bytes)) => wanted(phase) == Some(bytes.len()),
        StreamEventView::Read(Err(_)) => wanted(phase) is Some,
        StreamEventView::PreflightHandled(..) => phase is PreflightDelivered,
        StreamEventView::PreflightMade(_) => phase is PreflightRequested,
        StreamEventView::PreflightSent(_) => phase is PreflightAnswered,
        StreamEventView::TimedOut(_) => in_preflight(phase),
        StreamEventView::Registered => phase is Registering,
        StreamEventView::DataHandled(_) => phase is DataDelivered,
    }
}

/// The phase in which the handling of a stream starts.
pub open spec fn stream_start(c: ContextView) -> StreamPhase<Seq<char>> {
    if c.preflight_received {
        StreamPhase::DataHeader
    } else {
        StreamPhase::PreflightHeader
    }
}

/// The end of the handling with an error that is fatal to the connection.
pub open spec fn failing(c: ContextView, e: ErrorView) -> (
    StreamPhase<Seq<char>>,
    ContextView,
    StreamActionView,
) {
    (StreamPhase::Closed, c, StreamActionView::Finish(Err(e)))
}

/// The end of the handling that leaves the connection open.
pub open spec fn ending(c: ContextView) -> (
    StreamPhase<Seq<char>>,
    ContextView,
    StreamActionView,
) {
    (StreamPhase::Closed, c, StreamActionView::Finish(Ok(())))
}

/// What a read makes of the phase and of the connection, and what is to be done.
pub open spec fn read_step(
    phase: StreamPhase<Seq<char>>,
    c: ContextView,
    read: Result<Seq<u8>, Seq<char>>,
) -> (StreamPhase<Seq<char>>, ContextView, StreamActionView) {
    match phase {
        StreamPhase::PreflightHeader => match preflight_length(read, c.max_frame_bytes as nat) {
            Err(e) => failing(c, e),
            Ok(len) => (
                StreamPhase::PreflightPayload(len as usize),
                c,
                StreamActionView::Read(len as usize),
            ),
        },
        StreamPhase::PreflightPayload(_) => match preflight_payload(read) {
            Err(e) => failing(c, e),
            Ok((peer, preflight)) => (
                StreamPhase::PreflightDelivered(peer),
                ContextView { remote_url: Some(peer), ..c },
                StreamActionView::DeliverPreflight(peer, preflight),
            ),
        },
        StreamPhase::DataHeader => match data_length(read, c.max_frame_bytes as nat) {
            Err(_) => ending(c),
            Ok(len) => (
                StreamPhase::DataPayload(len as usize),
                c,
                StreamActionView::Read(len as usize),
            ),
        },
        StreamPhase::DataPayload(len) => match (data_payload(read), c.remote_url) {
            (Err(_), _) => ending(c),
            (Ok(_), None) => failing(c, error::plain(ErrorKind::DataBeforePreflight)),
            (Ok(data), Some(peer)) => (
                StreamPhase::DataDelivered(len),
                c,
                StreamActionView::DeliverData(peer, data),
            ),
        },
        _ => ending(c),
    }
}

/// What an event makes of the phase and of the connection, and what is to be done.
pub open spec fn stream_step(
    phase: StreamPhase<Seq<char>>,
    c: ContextView,
    event: StreamEventView,
) -> (StreamPhase<Seq<char>>, ContextView, StreamActionView) {
    match (phase, event) {
        (_, StreamEventView::Read(read)) => read_step(phase, c, read),
        (_, StreamEventView::TimedOut(t)) => failing(
            c,
            error::caused(ErrorKind::PreflightTimedOut, t),
        ),
        (_, StreamEventView::PreflightHandled(Err(e), _)) => failing(c, e),
        (StreamPhase::PreflightDelivered(peer), StreamEventView::PreflightHandled(Ok(()), local)) => {
            let received = ContextView { preflight_received: true, ..c };
            if c.preflight_sent {
                (StreamPhase::Registering, received, StreamActionView::Register(peer))
            } else {
                match local {
                    None => failing(received, error::plain(ErrorKind::ReceivedBeforeUrl)),
                    Some(url) => (
                        StreamPhase::PreflightRequested(peer, url),
                        received,
                        StreamActionView::RequestPreflight(peer),
                    ),
                }
            }
        },
        (_, StreamEventView::PreflightMade(Err(e))) => failing(c, e),
        (StreamPhase::PreflightRequested(peer, local), StreamEventView::PreflightMade(Ok(preflight))) => (
            StreamPhase::PreflightAnswered(peer),
            c,
            StreamActionView::SendPreflight(local, preflight),
        ),
        (_, StreamEventView::PreflightSent(Err(e))) => failing(c, e),
        (StreamPhase::PreflightAnswered(peer), StreamEventView::PreflightSent(Ok(()))) => (
            StreamPhase::Registering,
            ContextView { preflight_sent: true, ..c },
            StreamActionView::Register(peer),
        ),
        (StreamPhase::DataDelivered(len), StreamEventView::DataHandled(_)) => (
            StreamPhase::DataHeader,
            c.counting_received(len as u64),
            StreamActionView::Read(FRAME_HEADER_LEN),
        ),
        (_, StreamEventView::Registered) => (
            StreamPhase::DataHeader,
            c,
            StreamActionView::Read(FRAME_HEADER_LEN),
        ),
        _ => ending(c),
    }
}

impl ConnectionContext {
    /// Starts to handle a stream that came in. The first thing to do is to read a frame header.
    pub fn handle_incoming_stream(&self) -> (r: (IncomingStream, StreamAction))
        ensures
            r.0@ == stream_start(self@),
            r.1@ == StreamActionView::Read(FRAME_HEADER_LEN),
    {
        let phase = if self.preflight_received() {
            StreamPhase::DataHeader
        } else {
            StreamPhase::PreflightHeader
        };
        (IncomingStream { phase }, StreamAction::Read(FRAME_HEADER_LEN))
    }
}

impl IncomingStream {
    /// Whether the preflights are being exchanged, which may only take so long.
    pub fn in_preflight(&self) -> (r: bool)
        ensures
            r == in_preflight(self@),
    {
        match &self.phase {
            StreamPhase::PreflightHeader
            | StreamPhase::PreflightPayload(_)
            | StreamPhase::PreflightDelivered(_)
            | StreamPhase::PreflightRequested(..)
            | StreamPhase::PreflightAnswered(_) => true,
            _ => false,
        }
    }

    /// How many bytes are being read.
    pub fn wanted(&self) -> (r: Option<usize>)
        ensures
            wanted(self@) == match r {
                Some(n) => Some(n as nat),
                None => None,
            },
    {
        match &self.phase {
            StreamPhase::PreflightHeader | StreamPhase::DataHeader => Some(FRAME_HEADER_LEN),
            StreamPhase::PreflightPayload(len) | StreamPhase::DataPayload(len) => Some(*len),
            _ => None,
        }
    }

    /// Whether an event can happen now.
    pub fn expects(&self, event: &StreamEvent) -> (r: bool)
        ensures
            r == stream_expects(self@, event@),
    {
        match event {
            StreamEvent::Read(Ok(bytes)) => match self.wanted() {
                Some(n) => bytes.len() == n,
                None => false,
            },
            StreamEvent::Read(Err(_)) => self.wanted().is_some(),
            StreamEvent::PreflightHandled(..) => matches!(
                self.phase,
                StreamPhase::PreflightDelivered(_)
            ),
            StreamEvent::PreflightMade(_) => matches!(self.phase, StreamPhase::PreflightRequested(..)),
            StreamEvent::PreflightSent(_) => matches!(self.phase, StreamPhase::PreflightAnswered(_)),
            StreamEvent::TimedOut(_) => self.in_preflight(),
            StreamEvent::Registered => matches!(self.phase, StreamPhase::Registering),
            StreamEvent::DataHandled(_) => matches!(self.phase, StreamPhase::DataDelivered(_)),
        }
    }

    /// Ends the handling with an error that is fatal to the connection.
    fn fail(e: Error) -> (r: (StreamPhase<Url>, StreamAction))
        ensures
            r.0 is Closed,
            r.1@ == StreamActionView::Finish(Err(e@)),
    {
        (StreamPhase::Closed, StreamAction::Finish(Err(e)))
    }

    /// Says what to do after an event.
    pub fn step(&mut self, ctx: &mut ConnectionContext, event: StreamEvent) -> (r: StreamAction)
        requires
            stream_expects(old(self)@, event@),
        ensures
            (final(self)@, final(ctx)@, r@) == stream_step(old(self)@, old(ctx)@, event@),
            match event {
                StreamEvent::PreflightHandled(Err(e), _) => {
                    &&& final(ctx)@ == old(ctx)@
                    &&& r matches StreamAction::Finish(Err(f)) && f@ == e@
                },
                _ => true,
            },
    {
        let mut phase = StreamPhase::Closed;
        core::mem::swap(&mut phase, &mut self.phase);
        let (next, action) = match (phase, event) {
            (StreamPhase::PreflightHeader, StreamEvent::Read(read)) => match read_preflight_header(
                read,
                ctx.max_frame_bytes(),
            ) {
                Err(e) => Self::fail(e),
                Ok(len) => (StreamPhase::PreflightPayload(len), StreamAction::Read(len)),
            },
            (StreamPhase::PreflightPayload(_), StreamEvent::Read(read)) => match read_preflight_payload(
                read,
            ) {
                Err(e) => Self::fail(e),
                Ok((peer, preflight)) => {
                    ctx.set_remote_url(peer.clone());
                    let action = StreamAction::DeliverPreflight(peer.clone(), preflight);
                    (StreamPhase::PreflightDelivered(peer), action)
                },
            },
            (StreamPhase::DataHeader, StreamEvent::Read(read)) => match read_data_header(
                read,
                ctx.max_frame_bytes(),
            ) {
                Err(_) => (StreamPhase::Closed, StreamAction::Finish(Ok(()))),
                Ok(len) => (StreamPhase::DataPayload(len), StreamAction::Read(len)),
            },
            (StreamPhase::DataPayload(len), StreamEvent::Read(read)) => match read_data_payload(
                read,
            ) {
                Err(_) => (StreamPhase::Closed, StreamAction::Finish(Ok(()))),
                Ok(data) => match ctx.remote_url() {
                    None => Self::fail(Error::new(ErrorKind::DataBeforePreflight)),
                    Some(peer) => (
                        StreamPhase::DataDelivered(len),
                        StreamAction::DeliverData(peer, data),
                    ),
                },
            },
            (_, StreamEvent::TimedOut(t)) => Self::fail(
                Error::caused_by(ErrorKind::PreflightTimedOut, t),
            ),
            (_, StreamEvent::PreflightHandled(Err(e), _)) => Self::fail(e),
            (StreamPhase::PreflightDelivered(peer), StreamEvent::PreflightHandled(Ok(()), local)) => {
                ctx.set_preflight_received();
                if ctx.preflight_sent() {
                    (StreamPhase::Registering, StreamAction::Register(peer))
                } else {
                    match local {
                        None => Self::fail(Error::new(ErrorKind::ReceivedBeforeUrl)),
                        Some(url) => {
                            let action = StreamAction::RequestPreflight(peer.clone());
                            (StreamPhase::PreflightRequested(peer, url), action)
                        },
                    }
                }
            },
            (_, StreamEvent::PreflightMade(Err(e))) => Self::fail(e),
            (StreamPhase::PreflightRequested(peer, local), StreamEvent::PreflightMade(Ok(preflight))) => (
                StreamPhase::PreflightAnswered(peer),
                StreamAction::SendPreflight(local, preflight),
            ),
            (_, StreamEvent::PreflightSent(Err(e))) => Self::fail(e),
            (StreamPhase::PreflightAnswered(peer), StreamEvent::PreflightSent(Ok(()))) => {
                ctx.set_preflight_sent();
                (StreamPhase::Registering, StreamAction::Register(peer))
            },
            (StreamPhase::DataDelivered(len), StreamEvent::DataHandled(_)) => {
                ctx.count_received(len as u64);
                (StreamPhase::DataHeader, StreamAction::Read(FRAME_HEADER_LEN))
            },
            (_, StreamEvent::Registered) => (
                StreamPhase::DataHeader,
                StreamAction::Read(FRAME_HEADER_LEN),
            ),
            _ => (StreamPhase::Closed, StreamAction::Finish(Ok(()))),
        };
        self.phase = next;
        action
    }
}

} // verus!
