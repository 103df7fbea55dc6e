//! The reader of a connection.
//!
//! A connection is read one incoming stream after the other. A stream that ends in order leaves
//! the connection open for the next one. When no stream can be accepted, or a stream ends with an
//! error, the connection is closed for good: its peer leaves the map of connections and is marked
//! as unresponsive.
use crate::connection_context::{ConnectionContext, ContextView};
use crate::error;
use crate::error::{Error, ErrorView};
use crate::url;
use crate::url::Url;
use vstd::prelude::*;

verus! {

/// What a reader is at.
#[derive(Clone, Copy, Debug, PartialEq, Eq, Structural)]
pub enum ReaderPhase {
    /// It waits for a stream.
    Accepting,
    /// A stream is being handled.
    Handling,
    /// It has ended.
    Ended,
}

/// The reader of a connection.
#[derive(Debug)]
pub struct ConnectionReader {
    phase: ReaderPhase,
}

/// What happened on a connection. `T` is the text of an error, `E` an error.
#[derive(Debug)]
pub enum ReaderEvent<T, E> {
    /// A stream came in.
    StreamAccepted,
    /// No stream can come in any more.
    AcceptFailed(T),
    /// A stream was handled.
    StreamHandled(Result<(), E>),
}

/// What to do for a connection. `U` is a URL, `T` a text.
#[derive(Debug)]
pub enum ReaderAction<U, T> {
    /// Wait for the next stream.
    AcceptStream,
    /// Handle the stream that came in.
    HandleStream,
    /// Close the connection to the peer, if it is known, for the reason.
    Close(Option<U>, T),
}

impl View for ConnectionReader {
    type V = ReaderPhase;

    closed spec fn view(&self) -> ReaderPhase {
        self.phase
    }
}

impl View for ReaderEvent<String, Error> {
    type V = ReaderEvent<Seq<char>, ErrorView>;

    open spec fn view(&self) -> ReaderEvent<Seq<char>, ErrorView> {
        match *self {
            ReaderEvent::StreamAccepted => ReaderEvent::StreamAccepted,
            ReaderEvent::AcceptFailed(t) => ReaderEvent::AcceptFailed(t@),
            ReaderEvent::StreamHandled(r) => ReaderEvent::StreamHandled(error::unit_result(r)),
        }
    }
}

impl View for ReaderAction<Url, String> {
    type V = ReaderAction<Seq<char>, Seq<char>>;

    open spec fn view(&self) -> ReaderAction<Seq<char>, Seq<char>> {
        match *self {
            ReaderAction::AcceptStream => ReaderAction::AcceptStream,
            ReaderAction::HandleStream => ReaderAction::HandleStream,
            ReaderAction::Close(peer, reason) => ReaderAction::Close(
                url::url_option(peer),
                reason@,
            ),
        }
    }
}

/// Whether an event can happen in a phase.
pub open spec fn reader_expects(
    phase: ReaderPhase,
    event: ReaderEvent<Seq<char>, ErrorView>,
) -> bool {
    match event {
        ReaderEvent::StreamAccepted | ReaderEvent::AcceptFailed(_) => phase
            == ReaderPhase::Accepting,
        ReaderEvent::StreamHandled(_) => phase == ReaderPhase::Handling,
    }
}

/// What an event makes of the phase, and what is to be done.
pub open spec fn reader_step(c: ContextView, event: ReaderEvent<Seq<char>, ErrorView>) -> (
    ReaderPhase,
    ReaderAction<Seq<char>, Seq<char>>,
) {
    match event {
        ReaderEvent::StreamAccepted => (ReaderPhase::Handling, ReaderAction::HandleStream),
        ReaderEvent::StreamHandled(Ok(())) => (ReaderPhase::Accepting, ReaderAction::AcceptStream),
        ReaderEvent::StreamHandled(Err(e)) => (
            ReaderPhase::Ended,
            ReaderAction::Close(c.remote_url, e.message()),
        ),
        ReaderEvent::AcceptFailed(t) => (ReaderPhase::Ended, ReaderAction::Close(c.remote_url, t)),
    }
}

impl ConnectionReader {
    /// A reader that waits for the first stream.
    pub fn new() -> (r: ConnectionReader)
        ensures
            r@ == ReaderPhase::Accepting,
    {
        ConnectionReader { phase: ReaderPhase::Accepting }
    }

    /// What the reader is at.
    pub fn phase(&self) -> (r: ReaderPhase)
        ensures
            r == self@,
    {
        self.phase
    }

    /// Whether an event can happen now.
    pub fn expects(&self, event: &ReaderEvent<String, Error>) -> (r: bool)
        ensures
            r == reader_expects(self@, event@),
    {
        match event {
            ReaderEvent::StreamAccepted => self.phase == ReaderPhase::Accepting,
            ReaderEvent::AcceptFailed(_) => self.phase == ReaderPhase::Accepting,
            ReaderEvent::StreamHandled(_) => self.phase == ReaderPhase::Handling,
        }
    }

    /// Says what to do after an event.
    pub fn step(&mut self, ctx: &ConnectionContext, event: ReaderEvent<String, Error>) -> (r:
        ReaderAction<Url, String>)
        requires
            reader_expects(old(self)@, event@),
        ensures
            (final(self)@, r@) == reader_step(ctx@, event@),
    {
        match event {
            ReaderEvent::StreamAccepted => {
                self.phase = ReaderPhase::Handling;
                ReaderAction::HandleStream
            },
            ReaderEvent::StreamHandled(Ok(())) => {
                self.phase = ReaderPhase::Accepting;
                ReaderAction::AcceptStream
            },
            ReaderEvent::StreamHandled(Err(e)) => {
                self.phase = ReaderPhase::Ended;
                ReaderAction::Close(ctx.remote_url(), e.message())
            },
            ReaderEvent::AcceptFailed(t) => {
                self.phase = ReaderPhase::Ended;
                ReaderAction::Close(ctx.remote_url(), t)
            },
        }
    }
}

/// How far the close of a connection has come. `U` is a URL, `T` a text.
#[derive(Debug)]
pub enum ClosePhase<U, T> {
    /// The peer is being taken out of the map of connections.
    Removing(U, T),
    /// The peer is being marked as unresponsive.
    Marking(T),
    /// The connection is being disconnected.
    Disconnecting,
}

/// The close of a connection.
#[derive(Debug)]
pub struct ConnectionClose {
    phase: ClosePhase<Url, String>,
}

/// What happened at the close of a connection. `E` is an error.
#[derive(Debug)]
pub enum CloseEvent<E> {
    /// The peer is not in the map of connections any more.
    Removed,
    /// The peer was marked as unresponsive, or could not be.
    Marked(Result<(), E>),
}

/// What to do to close a connection. `U` is a URL, `T` a text.
#[derive(Debug)]
pub enum CloseAction<U, T> {
    /// Take the peer out of the map of connections.
    Remove(U),
    /// Mark the peer as unresponsive.
    MarkUnresponsive(U),
    /// Disconnect for the reason. There is nothing to do after that.
    Disconnect(T),
}

impl View for ConnectionClose {
    type V = ClosePhase<Seq<char>, Seq<char>>;

    closed spec fn view(&self) -> ClosePhase<Seq<char>, Seq<char>> {
        match self.phase {
            ClosePhase::Removing(peer, reason) => ClosePhase::Removing(peer@, reason@),
            ClosePhase::Marking(reason) => ClosePhase::Marking(reason@),
            ClosePhase::Disconnecting => ClosePhase::Disconnecting,
        }
    }
}

impl View for CloseEvent<Error> {
    type V = CloseEvent<ErrorView>;

    open spec fn view(&self) -> CloseEvent<ErrorView> {
        match *self {
            CloseEvent::Removed => CloseEvent::Removed,
            CloseEvent::Marked(r) => CloseEvent::Marked(error::unit_result(r)),
        }
    }
}

impl View for CloseAction<Url, String> {
    type V = CloseAction<Seq<char>, Seq<char>>;

    open spec fn view(&self) -> CloseAction<Seq<char>, Seq<char>> {
        match *self {
            CloseAction::Remove(peer) => CloseAction::Remove(peer@),
            CloseAction::MarkUnresponsive(peer) => CloseAction::MarkUnresponsive(peer@),
            CloseAction::Disconnect(reason) => CloseAction::Disconnect(reason@),
        }
    }
}

/// The start of a close: a peer that is known is taken out of the map first.
pub open spec fn close_start(peer: Option<Seq<char>>, reason: Seq<char>) -> (
    ClosePhase<Seq<char>, Seq<char>>,
    CloseAction<Seq<char>, Seq<char>>,
) {
    match peer {
        Some(peer) => (ClosePhase::Removing(peer, reason), CloseAction::Remove(peer)),
        None => (ClosePhase::Disconnecting, CloseAction::Disconnect(reason)),
    }
}

/// Whether an event can happen in a phase.
pub open spec fn close_expects(
    phase: ClosePhase<Seq<char>, Seq<char>>,
    event: CloseEvent<ErrorView>,
) -> bool {
    match event {
        CloseEvent::Removed => phase is Removing,
        CloseEvent::Marked(_) => phase is Marking,
    }
}

/// What an event makes of the phase, and what is to be done: a peer that was taken out of the map
/// is marked, and however that went, the connection is disconnected.
pub open spec fn close_step(
    phase: ClosePhase<Seq<char>, Seq<char>>,
    event: CloseEvent<ErrorView>,
) -> (ClosePhase<Seq<char>, Seq<char>>, CloseAction<Seq<char>, Seq<char>>)
    recommends
        close_expects(phase, event),
{
    match phase {
        ClosePhase::Removing(peer, reason) => (
            ClosePhase::Marking(reason),
            CloseAction::MarkUnresponsive(peer),
        ),
        ClosePhase::Marking(reason) => (
            ClosePhase::Disconnecting,
            CloseAction::Disconnect(reason),
        ),
        ClosePhase::Disconnecting => (phase, CloseAction::Disconnect(Seq::empty())),
    }
}

impl ConnectionClose {
    /// Starts to close the connection to a peer, if it is known, for a reason.
    pub fn new(peer: Option<Url>, reason: String) -> (r: (
        ConnectionClose,
        CloseAction<Url, String>,
    ))
        ensures
            (r.0@, r.1@) == close_start(url::url_option(peer), reason@),
    {
        match peer {
            Some(peer) => {
                let action = CloseAction::Remove(peer.clone());
                (ConnectionClose { phase: ClosePhase::Removing(peer, reason) }, action)
            },
            None => (
                ConnectionClose { phase: ClosePhase::Disconnecting },
                CloseAction::Disconnect(reason),
            ),
        }
    }

    /// Whether an event can happen now.
    pub fn expects(&self, event: &CloseEvent<Error>) -> (r: bool)
        ensures
            r == close_expects(self@, event@),
    {
        match event {
            CloseEvent::Removed => matches!(self.phase, ClosePhase::Removing(..)),
            CloseEvent::Marked(_) => matches!(self.phase, ClosePhase::Marking(_)),
        }
    }

    /// Says what to do after an event.
    pub fn step(&mut self, event: CloseEvent<Error>) -> (r: CloseAction<Url, String>)
        requires
            close_expects(old(self)@, event@),
        ensures
            (final(self)@, r@) == close_step(old(self)@, event@),
    {
        let mut phase = ClosePhase::Disconnecting;
        core::mem::swap(&mut phase, &mut self.phase);
        match phase {
            ClosePhase::Removing(peer, reason) => {
                self.phase = ClosePhase::Marking(reason);
                CloseAction::MarkUnresponsive(peer)
            },
            ClosePhase::Marking(reason) => CloseAction::Disconnect(reason),
            ClosePhase::Disconnecting => CloseAction::Disconnect(String::new()),
        }
    }
}

} // verus!
