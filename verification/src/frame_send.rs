//! The sending of one frame over a connection.
//!
//! A connection has at most one stream to the peer, over which all frames are sent in turn. It is
//! opened when there is none, kept for the next frame, and given up when writing to it fails.
use crate::connection_context::{ConnectionContext, ContextView};
use crate::error::{Error, ErrorKind, ErrorView};
use crate::frame::{encode_frame, Frame, FrameView};
use crate::url::Url;
use crate::{error, frame, outside};
use bytes::Bytes;
use vstd::prelude::*;

verus! {

/// How far the sending of a frame has come.
#[derive(Clone, Copy, Debug, PartialEq, Eq, Structural)]
pub enum SendPhase {
    /// The frame waits for its turn on the stream.
    Waiting,
    /// A stream is being opened.
    Opening,
    /// The frame is being written.
    Writing,
    /// The frame was sent, or could not be.
    Done,
}

/// A frame on its way to the peer.
#[derive(Debug)]
pub struct FrameSend {
    frame: Bytes,
    data_len: Option<u64>,
    phase: SendPhase,
}

/// A [`FrameSend`] as a mathematical value.
#[verifier::ext_equal]
pub struct FrameSendView {
    /// The bytes of the frame.
    pub frame: Seq<u8>,
    /// How many bytes of data a data frame holds; nothing for a preflight frame.
    pub data_len: Option<u64>,
    /// How far the sending has come.
    pub phase: SendPhase,
}

/// What happened to a frame on its way. `T` is the text of an error.
#[derive(Debug)]
pub enum SendEvent<T> {
    /// It is the frame's turn.
    StreamLocked,
    /// A stream was opened, or could not be.
    StreamOpened(Result<(), T>),
    /// The frame was written, or could not be.
    FrameWritten(Result<(), T>),
}

/// What to do for a frame on its way. `E` is an error.
#[derive(Debug)]
pub enum SendAction<E> {
    /// Open a stream to the peer.
    OpenStream,
    /// Write the frame to the open stream.
    WriteFrame,
    /// The sending has ended; let the next frame have its turn. A stream that failed is dropped.
    Finish(Result<(), E>),
}

impl View for FrameSend {
    type V = FrameSendView;

    closed spec fn view(&self) -> FrameSendView {
        FrameSendView {
            frame: outside::contents(self.frame),
            data_len: self.data_len,
            phase: self.phase,
        }
    }
}

impl View for SendEvent<String> {
    type V = SendEvent<Seq<char>>;

    open spec fn view(&self) -> SendEvent<Seq<char>> {
        match *self {
            SendEvent::StreamLocked => SendEvent::StreamLocked,
            SendEvent::StreamOpened(r) => SendEvent::StreamOpened(error::outcome(r)),
            SendEvent::FrameWritten(r) => SendEvent::FrameWritten(error::outcome(r)),
        }
    }
}

impl View for SendAction<Error> {
    type V = SendAction<ErrorView>;

    open spec fn view(&self) -> SendAction<ErrorView> {
        match *self {
            SendAction::OpenStream => SendAction::OpenStream,
            SendAction::WriteFrame => SendAction::WriteFrame,
            SendAction::Finish(r) => SendAction::Finish(error::unit_result(r)),
        }
    }
}

/// Whether an event can happen in a phase.
pub open spec fn send_expects(phase: SendPhase, event: SendEvent<Seq<char>>) -> bool {
    match event {
        SendEvent::StreamLocked => phase == SendPhase::Waiting,
        SendEvent::StreamOpened(_) => phase == SendPhase::Opening,
        SendEvent::FrameWritten(_) => phase == SendPhase::Writing,
    }
}

/// What an event makes of a frame on its way and of the connection, and what is to be done.
pub open spec fn send_step(
    s: FrameSendView,
    c: ContextView,
    event: SendEvent<Seq<char>>,
) -> (FrameSendView, ContextView, SendAction<ErrorView>) {
    let at = |phase: SendPhase| FrameSendView { phase, ..s };
    match event {
        SendEvent::StreamLocked => if c.send_stream_open {
            (at(SendPhase::Writing), c, SendAction::WriteFrame)
        } else {
            (at(SendPhase::Opening), c, SendAction::OpenStream)
        },
        SendEvent::StreamOpened(Ok(())) => (
            at(SendPhase::Writing),
            ContextView { send_stream_open: true, ..c },
            SendAction::WriteFrame,
        ),
        SendEvent::StreamOpened(Err(t)) => (
            at(SendPhase::Done),
            c,
            SendAction::Finish(Err(error::caused(ErrorKind::OpenStreamFailed, t))),
        ),
        SendEvent::FrameWritten(Ok(())) => (
            at(SendPhase::Done),
            match s.data_len {
                Some(len) => c.counting_sent(len),
                None => c,
            },
            SendAction::Finish(Ok(())),
        ),
        SendEvent::FrameWritten(Err(t)) => (
            at(SendPhase::Done),
            ContextView { send_stream_open: false, ..c },
            SendAction::Finish(
                Err(
                    error::caused(
                        match s.data_len {
                            Some(_) => ErrorKind::SendDataFailed,
                            None => ErrorKind::SendPreflightFailed,
                        },
                        t,
                    ),
                ),
            ),
        ),
    }
}

/// A frame that is about to be sent.
pub open spec fn sending(frame: FrameView, max: nat) -> Result<FrameSendView, ErrorView> {
    match frame::encoded(frame, max) {
        Err(e) => Err(e),
        Ok(bytes) => Ok(
            FrameSendView {
                frame: bytes,
                data_len: match frame {
                    FrameView::Preflight(..) => None,
                    FrameView::Data(data) => Some(data.len() as u64),
                },
                phase: SendPhase::Waiting,
            },
        ),
    }
}

/// The view of a result that holds a frame to send.
pub open spec fn sending_result(r: Result<FrameSend, Error>) -> Result<FrameSendView, ErrorView> {
    match r {
        Ok(s) => Ok(s@),
        Err(e) => Err(e@),
    }
}

impl ConnectionContext {
    /// Starts to send the preflight, with the URL of this side.
    pub fn send_preflight_frame(&self, url: Url, preflight_bytes: Bytes) -> (r: Result<
        FrameSend,
        Error,
    >)
        ensures
            sending_result(r) == sending(
                FrameView::Preflight(url@, outside::contents(preflight_bytes)),
                self@.max_frame_bytes as nat,
            ),
    {
        match encode_frame(Frame::Preflight((url, preflight_bytes)), self.max_frame_bytes()) {
            Err(e) => Err(e),
            Ok(frame) => Ok(FrameSend { frame, data_len: None, phase: SendPhase::Waiting }),
        }
    }

    /// Starts to send data.
    pub fn send_data_frame(&self, data: Bytes) -> (r: Result<FrameSend, Error>)
        ensures
            sending_result(r) == sending(
                FrameView::Data(outside::contents(data)),
                self@.max_frame_bytes as nat,
            ),
    {
        let data_len: u64 = outside::byte_slice(&data).len() as u64;
        match encode_frame(Frame::Data(data), self.max_frame_bytes()) {
            Err(e) => Err(e),
            Ok(frame) => Ok(
                FrameSend { frame, data_len: Some(data_len), phase: SendPhase::Waiting },
            ),
        }
    }
}

impl FrameSend {
    /// The bytes of the frame.
    pub fn frame(&self) -> (r: &Bytes)
        ensures
            outside::contents(*r) == self@.frame,
    {
        &self.frame
    }

    /// How far the sending has come.
    pub fn phase(&self) -> (r: SendPhase)
        ensures
            r == self@.phase,
    {
        self.phase
    }

    /// Whether an event can happen now.
    pub fn expects(&self, event: &SendEvent<String>) -> (r: bool)
        ensures
            r == send_expects(self@.phase, event@),
    {
        match event {
            SendEvent::StreamLocked => self.phase == SendPhase::Waiting,
            SendEvent::StreamOpened(_) => self.phase == SendPhase::Opening,
            SendEvent::FrameWritten(_) => self.phase == SendPhase::Writing,
        }
    }

    /// Says what to do after an event.
    pub fn step(&mut self, ctx: &mut ConnectionContext, event: SendEvent<String>) -> (r: SendAction<
        Error,
    >)
        requires
            send_expects(old(self)@.phase, event@),
        ensures
            (final(self)@, final(ctx)@, r@) == send_step(old(self)@, old(ctx)@, event@),
    {
        match event {
            SendEvent::StreamLocked => {
                if ctx.send_stream_open() {
                    self.phase = SendPhase::Writing;
                    SendAction::WriteFrame
                } else {
                    self.phase = SendPhase::Opening;
                    SendAction::OpenStream
                }
            },
            SendEvent::StreamOpened(Ok(())) => {
                ctx.set_send_stream_open(true);
                self.phase = SendPhase::Writing;
                SendAction::WriteFrame
            },
            SendEvent::StreamOpened(Err(t)) => {
                self.phase = SendPhase::Done;
                SendAction::Finish(Err(Error::caused_by(ErrorKind::OpenStreamFailed, t)))
            },
            SendEvent::FrameWritten(Ok(())) => {
                self.phase = SendPhase::Done;
                if let Some(len) = self.data_len {
                    ctx.count_sent(len);
                }
                SendAction::Finish(Ok(()))
            },
            SendEvent::FrameWritten(Err(t)) => {
                ctx.set_send_stream_open(false);
                self.phase = SendPhase::Done;
                let kind = match self.data_len {
                    Some(_) => ErrorKind::SendDataFailed,
                    None => ErrorKind::SendPreflightFailed,
                };
                SendAction::Finish(Err(Error::caused_by(kind, t)))
            },
        }
    }
}

} // verus!
