//! The sending of a message to a peer.
//!
//! A message travels over the connection to its peer. Where there is none, one is established
//! first: the own preflight is sent as its first frame, then the connection is registered. While
//! that goes on, other messages to the same peer wait. Where the preflight cannot be sent, the
//! context of the connection is given up.
use crate::config::IrohTransportConfig;
use crate::connection_context::{ConnectionContextParams, ParamsView};
use crate::error::{Error, ErrorKind, ErrorView};
use crate::startup::opened_at;
use crate::url::{endpoint_from_url, EndpointAddr, EndpointAddrView, Url};
use crate::{error, frame, outside, url};
use bytes::Bytes;
use vstd::prelude::*;

verus! {

/// How far the sending of a message has come. `U` is a URL.
#[derive(Debug)]
pub enum OutgoingPhase<U> {
    /// The message waits for its turn with the peer.
    Waiting,
    /// A connection is being established.
    Connecting,
    /// The handler makes the own preflight, to be sent with the local URL on the connection, which
    /// was established at this many seconds since the epoch.
    PreflightRequested(U, u64),
    /// The own preflight is being sent.
    PreflightSending,
    /// The connection is being registered.
    Registering,
    /// The message is being sent.
    DataSending,
    /// The message was sent, or could not be. Says whether the context that was opened for the
    /// connection is given up.
    Done(bool),
}

/// A message on its way to a peer.
#[derive(Debug)]
pub struct OutgoingSend {
    remote_url: Url,
    endpoint: EndpointAddr,
    data: Option<Bytes>,
    connect_timeout_s: u64,
    max_frame_bytes: usize,
    phase: OutgoingPhase<Url>,
}

/// An [`OutgoingSend`] as a mathematical value.
#[verifier::ext_equal]
pub struct OutgoingView {
    /// The URL of the peer.
    pub remote_url: Seq<char>,
    /// The endpoint of the peer.
    pub endpoint: EndpointAddrView,
    /// The message, as long as it was not handed out for sending.
    pub data: Option<Seq<u8>>,
    /// How long establishing a connection may take, in seconds.
    pub connect_timeout_s: u64,
    /// How many bytes a frame may have.
    pub max_frame_bytes: usize,
    /// How far the sending has come.
    pub phase: OutgoingPhase<Seq<char>>,
}

/// Why a connection could not be established. `T` is the text of an error.
#[derive(Debug)]
pub enum ConnectFailure<T> {
    /// It took too long.
    TimedOut(T),
    /// It was refused.
    Refused(T),
}

/// What happened to a message on its way.
#[derive(Debug)]
pub enum OutgoingEvent {
    /// It is the message's turn. Says whether the peer is connected.
    Locked(bool),
    /// A connection was established, at this many seconds since the epoch, if the clock is set to
    /// a time after it. The local URL is the one known now.
    Connected(Option<u64>, Option<Url>),
    /// No connection could be established.
    ConnectFailed(ConnectFailure<String>),
    /// The handler made the own preflight, or refused to.
    PreflightMade(Result<Bytes, Error>),
    /// The own preflight was sent, or could not be.
    PreflightSent(Result<(), Error>),
    /// The connection was registered.
    Registered,
    /// The message was sent, or could not be.
    DataSent(Result<(), Error>),
}

/// An [`OutgoingEvent`] as a mathematical value.
pub enum OutgoingEventView {
    /// It is the message's turn. Says whether the peer is connected.
    Locked(bool),
    /// A connection was established, at this many seconds since the epoch, if the clock is set to
    /// a time after it. The local URL is the one known now.
    Connected(Option<u64>, Option<Seq<char>>),
    /// No connection could be established.
    ConnectFailed(ConnectFailure<Seq<char>>),
    /// The handler made the own preflight, or refused to.
    PreflightMade(Result<Seq<u8>, ErrorView>),
    /// The own preflight was sent, or could not be.
    PreflightSent(Result<(), ErrorView>),
    /// The connection was registered.
    Registered,
    /// The message was sent, or could not be.
    DataSent(Result<(), ErrorView>),
}

/// What to do for a message.
#[derive(Debug)]
pub enum OutgoingAction {
    /// Wait for the turn of the message with the peer.
    Lock(Url),
    /// Connect to the endpoint, which may take this many seconds.
    Connect(EndpointAddr, u64),
    /// Ask the handler for the preflight to send to the peer.
    RequestPreflight(Url),
    /// Open a context for the connection, and send a preflight frame with the local URL and the
    /// own preflight.
    SendPreflight(ConnectionContextParams, Url, Bytes),
    /// Register the connection under the URL of the peer.
    Register(Url),
    /// Send the message. Says whether the next message may have its turn before that is done.
    SendData(Bytes, bool),
    /// The sending has ended; the next message may have its turn.
    Finish(Result<(), Error>),
}

/// An [`OutgoingAction`] as a mathematical value.
pub enum OutgoingActionView {
    /// Wait for the turn of the message with the peer.
    Lock(Seq<char>),
    /// Connect to the endpoint, which may take this many seconds.
    Connect(EndpointAddrView, u64),
    /// Ask the handler for the preflight to send to the peer.
    RequestPreflight(Seq<char>),
    /// Open a context for the connection, and send a preflight frame with the local URL and the
    /// own preflight.
    SendPreflight(ParamsView, Seq<char>, Seq<u8>),
    /// Register the connection under the URL of the peer.
    Register(Seq<char>),
    /// Send the message. Says whether the next message may have its turn before that is done.
    SendData(Seq<u8>, bool),
    /// The sending has ended; the next message may have its turn.
    Finish(Result<(), ErrorView>),
}

/// The bytes of an optional message.
pub open spec fn bytes_option(b: Option<Bytes>) -> Option<Seq<u8>> {
    match b {
        Some(b) => Some(outside::contents(b)),
        None => None,
    }
}

impl View for OutgoingSend {
    type V = OutgoingView;

    closed spec fn view(&self) -> OutgoingView {
        OutgoingView {
            remote_url: self.remote_url@,
            endpoint: self.endpoint@,
            data: bytes_option(self.data),
            connect_timeout_s: self.connect_timeout_s,
            max_frame_bytes: self.max_frame_bytes,
            phase: match self.phase {
                OutgoingPhase::Waiting => OutgoingPhase::Waiting,
                OutgoingPhase::Connecting => OutgoingPhase::Connecting,
                OutgoingPhase::PreflightRequested(local, at) => OutgoingPhase::PreflightRequested(
                    local@,
                    at,
                ),
                OutgoingPhase::PreflightSending => OutgoingPhase::PreflightSending,
                OutgoingPhase::Registering => OutgoingPhase::Registering,
                OutgoingPhase::DataSending => OutgoingPhase::DataSending,
                OutgoingPhase::Done(give_up) => OutgoingPhase::Done(give_up),
            },
        }
    }
}

impl View for OutgoingEvent {
    type V = OutgoingEventView;

    open spec fn view(&self) -> OutgoingEventView {
        match *self {
            OutgoingEvent::Locked(connected) => OutgoingEventView::Locked(connected),
            OutgoingEvent::Connected(at, local) => OutgoingEventView::Connected(
                at,
                url::url_option(local),
            ),
            OutgoingEvent::ConnectFailed(ConnectFailure::TimedOut(t)) => OutgoingEventView::ConnectFailed(
                ConnectFailure::TimedOut(t@),
            ),
            OutgoingEvent::ConnectFailed(ConnectFailure::Refused(t)) => OutgoingEventView::ConnectFailed(
                ConnectFailure::Refused(t@),
            ),
            OutgoingEvent::PreflightMade(r) => OutgoingEventView::PreflightMade(
                frame::bytes_result(r),
            ),
            OutgoingEvent::PreflightSent(r) => OutgoingEventView::PreflightSent(
                error::unit_result(r),
            ),
            OutgoingEvent::Registered => OutgoingEventView::Registered,
            OutgoingEvent::DataSent(r) => OutgoingEventView::DataSent(error::unit_result(r)),
        }
    }
}

impl View for OutgoingAction {
    type V = OutgoingActionView;

    open spec fn view(&self) -> OutgoingActionView {
        match *self {
            OutgoingAction::Lock(peer) => OutgoingActionView::Lock(peer@),
            OutgoingAction::Connect(endpoint, s) => OutgoingActionView::Connect(endpoint@, s),
            OutgoingAction::RequestPreflight(peer) => OutgoingActionView::RequestPreflight(peer@),
            OutgoingAction::SendPreflight(params, local, b) => OutgoingActionView::SendPreflight(
                params@,
                local@,
                outside::contents(b),
            ),
            OutgoingAction::Register(peer) => OutgoingActionView::Register(peer@),
            OutgoingAction::SendData(data, early) => OutgoingActionView::SendData(
                outside::contents(data),
                early,
            ),
            OutgoingAction::Finish(r) => OutgoingActionView::Finish(error::unit_result(r)),
        }
    }
}

/// A message that is about to be sent.
pub open spec fn outgoing(
    remote_url: Seq<char>,
    data: Seq<u8>,
    connect_timeout_s: u32,
    max_frame_bytes: usize,
) -> Result<OutgoingView, ErrorView> {
    match url::endpoint_of(remote_url) {
        Err(e) => Err(e),
        Ok(endpoint) => Ok(
            OutgoingView {
                remote_url,
                endpoint,
                data: Some(data),
                connect_timeout_s: connect_timeout_s as u64,
                max_frame_bytes,
                phase: OutgoingPhase::Waiting,
            },
        ),
    }
}

/// Whether an event can happen to a message.
pub open spec fn outgoing_expects(s: OutgoingView, event: OutgoingEventView) -> bool {
    match event {
        OutgoingEventView::Locked(_) => s.phase is Waiting && s.data is Some,
        OutgoingEventView::Connected(..) | OutgoingEventView::ConnectFailed(_) => s.phase is Connecting,
        OutgoingEventView::PreflightMade(_) => s.phase is PreflightRequested,
        OutgoingEventView::PreflightSent(_) => s.phase is PreflightSending,
        OutgoingEventView::Registered => s.phase is Registering && s.data is Some,
        OutgoingEventView::DataSent(_) => s.phase is DataSending,
    }
}

/// The end of the sending, where the context that was opened for the connection is given up or not.
pub open spec fn finishing(s: OutgoingView, r: Result<(), ErrorView>, give_up: bool) -> (
    OutgoingView,
    OutgoingActionView,
) {
    (
        OutgoingView { phase: OutgoingPhase::Done(give_up), data: None, ..s },
        OutgoingActionView::Finish(r),
    )
}

/// The message is handed out for sending.
pub open spec fn handing_out(s: OutgoingView, early: bool) -> (OutgoingView, OutgoingActionView) {
    (
        OutgoingView { phase: OutgoingPhase::DataSending, data: None, ..s },
        OutgoingActionView::SendData(s.data->0, early),
    )
}

/// What an event makes of a message on its way, and what is to be done.
pub open spec fn outgoing_step(s: OutgoingView, event: OutgoingEventView) -> (
    OutgoingView,
    OutgoingActionView,
) {
    match event {
        OutgoingEventView::Locked(connected) => if connected {
            handing_out(s, true)
        } else {
            (
                OutgoingView { phase: OutgoingPhase::Connecting, ..s },
                OutgoingActionView::Connect(s.endpoint, s.connect_timeout_s),
            )
        },
        OutgoingEventView::ConnectFailed(ConnectFailure::TimedOut(t)) => finishing(
            s,
            Err(error::caused(ErrorKind::ConnectTimedOut, t)),
            false,
        ),
        OutgoingEventView::ConnectFailed(ConnectFailure::Refused(t)) => finishing(
            s,
            Err(error::caused(ErrorKind::ConnectFailed, t)),
            false,
        ),
        OutgoingEventView::Connected(_, None) => finishing(
            s,
            Err(error::plain(ErrorKind::ConnectBeforeUrl)),
            false,
        ),
        OutgoingEventView::Connected(at, Some(local)) => (
            OutgoingView {
                phase: OutgoingPhase::PreflightRequested(
                    local,
                    match at {
                        Some(s) => s,
                        None => 0,
                    },
                ),
                ..s
            },
            OutgoingActionView::RequestPreflight(s.remote_url),
        ),
        OutgoingEventView::PreflightMade(Err(e)) => finishing(s, Err(e), false),
        OutgoingEventView::PreflightMade(Ok(preflight)) => match s.phase {
            OutgoingPhase::PreflightRequested(local, at) => (
                OutgoingView { phase: OutgoingPhase::PreflightSending, ..s },
                OutgoingActionView::SendPreflight(
                    ParamsView {
                        remote_url: Some(s.remote_url),
                        preflight_sent: true,
                        opened_at_s: at,
                        max_frame_bytes: s.max_frame_bytes,
                    },
                    local,
                    preflight,
                ),
            ),
            _ => finishing(s, Ok(()), false),
        },
        OutgoingEventView::PreflightSent(Err(e)) => finishing(s, Err(e), true),
        OutgoingEventView::PreflightSent(Ok(())) => (
            OutgoingView { phase: OutgoingPhase::Registering, ..s },
            OutgoingActionView::Register(s.remote_url),
        ),
        OutgoingEventView::Registered => handing_out(s, false),
        OutgoingEventView::DataSent(r) => finishing(s, r, false),
    }
}

/// The view of a result that holds a message on its way and what to do for it.
pub open spec fn outgoing_result(r: Result<(OutgoingSend, OutgoingAction), Error>) -> Result<
    (OutgoingView, OutgoingActionView),
    ErrorView,
> {
    match r {
        Ok((s, action)) => Ok((s@, action@)),
        Err(e) => Err(e@),
    }
}

/// The start of the sending of a message: it waits for its turn.
pub open spec fn outgoing_start(s: Result<OutgoingView, ErrorView>) -> Result<
    (OutgoingView, OutgoingActionView),
    ErrorView,
> {
    match s {
        Ok(s) => Ok((s, OutgoingActionView::Lock(s.remote_url))),
        Err(e) => Err(e),
    }
}

impl OutgoingSend {
    /// Starts to send a message to a peer.
    pub fn send(remote_url: Url, data: Bytes, config: &IrohTransportConfig) -> (r: Result<
        (OutgoingSend, OutgoingAction),
        Error,
    >)
        ensures
            outgoing_result(r) == outgoing_start(
                outgoing(
                    remote_url@,
                    outside::contents(data),
                    config.connect_timeout_s,
                    config.max_frame_bytes,
                ),
            ),
            match r {
                Ok((s, _)) => {
                    &&& s@.remote_url == remote_url@
                    &&& s@.data == Some(outside::contents(data))
                    &&& s@.connect_timeout_s == config.connect_timeout_s
                    &&& s@.max_frame_bytes == config.max_frame_bytes
                },
                Err(_) => true,
            },
    {
        match endpoint_from_url(&remote_url) {
            Err(e) => Err(e),
            Ok(endpoint) => {
                let action = OutgoingAction::Lock(remote_url.clone());
                let s = OutgoingSend {
                    remote_url,
                    endpoint,
                    data: Some(data),
                    connect_timeout_s: config.connect_timeout_s as u64,
                    max_frame_bytes: config.max_frame_bytes,
                    phase: OutgoingPhase::Waiting,
                };
                Ok((s, action))
            },
        }
    }

    /// Whether an event can happen now.
    pub fn expects(&self, event: &OutgoingEvent) -> (r: bool)
        ensures
            r == outgoing_expects(self@, event@),
    {
        match event {
            OutgoingEvent::Locked(_) => matches!(self.phase, OutgoingPhase::Waiting)
                && self.data.is_some(),
            OutgoingEvent::Connected(..) => matches!(self.phase, OutgoingPhase::Connecting),
            OutgoingEvent::ConnectFailed(ConnectFailure::TimedOut(_)) => matches!(
                self.phase,
                OutgoingPhase::Connecting
            ),
            OutgoingEvent::ConnectFailed(ConnectFailure::Refused(_)) => matches!(
                self.phase,
                OutgoingPhase::Connecting
            ),
            OutgoingEvent::PreflightMade(_) => matches!(
                self.phase,
                OutgoingPhase::PreflightRequested(..)
            ),
            OutgoingEvent::PreflightSent(_) => matches!(self.phase, OutgoingPhase::PreflightSending),
            OutgoingEvent::Registered => matches!(self.phase, OutgoingPhase::Registering)
                && self.data.is_some(),
            OutgoingEvent::DataSent(_) => matches!(self.phase, OutgoingPhase::DataSending),
        }
    }

    /// Whether the sending has ended, and the context that was opened for the connection is given
    /// up: its preflight could not be sent. Its reader is then to be aborted, and it is dropped.
    pub fn gives_up_context(&self) -> (r: bool)
        ensures
            r == (self@.phase == OutgoingPhase::<Seq<char>>::Done(true)),
    {
        match self.phase {
            OutgoingPhase::Done(give_up) => give_up,
            _ => false,
        }
    }

    /// Ends the sending.
    fn finish(&mut self, r: Result<(), Error>, give_up: bool) -> (action: OutgoingAction)
        ensures
            (final(self)@, action@) == finishing(old(self)@, error::unit_result(r), give_up),
    {
        self.phase = OutgoingPhase::Done(give_up);
        self.data = None;
        OutgoingAction::Finish(r)
    }

    /// Hands out the message for sending.
    fn hand_out(&mut self, early: bool) -> (action: OutgoingAction)
        requires
            old(self)@.data is Some,
        ensures
            (final(self)@, action@) == handing_out(old(self)@, early),
    {
        self.phase = OutgoingPhase::DataSending;
        let data = self.data.take().unwrap();
        OutgoingAction::SendData(data, early)
    }

    /// Says what to do after an event.
    pub fn step(&mut self, event: OutgoingEvent) -> (r: OutgoingAction)
        requires
            outgoing_expects(old(self)@, event@),
        ensures
            (final(self)@, r@) == outgoing_step(old(self)@, event@),
    {
        match event {
            OutgoingEvent::Locked(true) => self.hand_out(true),
            OutgoingEvent::Locked(false) => {
                self.phase = OutgoingPhase::Connecting;
                OutgoingAction::Connect(self.endpoint.clone(), self.connect_timeout_s)
            },
            OutgoingEvent::ConnectFailed(ConnectFailure::TimedOut(t)) => self.finish(
                Err(Error::caused_by(ErrorKind::ConnectTimedOut, t)),
                false,
            ),
            OutgoingEvent::ConnectFailed(ConnectFailure::Refused(t)) => self.finish(
                Err(Error::caused_by(ErrorKind::ConnectFailed, t)),
                false,
            ),
            OutgoingEvent::Connected(_, None) => self.finish(
                Err(Error::new(ErrorKind::ConnectBeforeUrl)),
                false,
            ),
            OutgoingEvent::Connected(at, Some(local)) => {
                self.phase = OutgoingPhase::PreflightRequested(local, opened_at(at));
                OutgoingAction::RequestPreflight(self.remote_url.clone())
            },
            OutgoingEvent::PreflightMade(Err(e)) => self.finish(Err(e), false),
            OutgoingEvent::PreflightMade(Ok(preflight)) => {
                let mut phase = OutgoingPhase::PreflightSending;
                core::mem::swap(&mut phase, &mut self.phase);
                match phase {
                    OutgoingPhase::PreflightRequested(local, at) => {
                        let params = ConnectionContextParams {
                            remote_url: Some(self.remote_url.clone()),
                            preflight_sent: true,
                            opened_at_s: at,
                            max_frame_bytes: self.max_frame_bytes,
                        };
                        OutgoingAction::SendPreflight(params, local, preflight)
                    },
                    _ => self.finish(Ok(()), false),
                }
            },
            OutgoingEvent::PreflightSent(Err(e)) => self.finish(Err(e), true),
            OutgoingEvent::PreflightSent(Ok(())) => {
                self.phase = OutgoingPhase::Registering;
                OutgoingAction::Register(self.remote_url.clone())
            },
            OutgoingEvent::Registered => self.hand_out(false),
            OutgoingEvent::DataSent(r) => self.finish(r, false),
        }
    }
}

} // verus!
