//! Errors of the transport.
use crate::text::decimal_text;
use vstd::prelude::*;
use vstd::string::*;

verus! {

/// What went wrong.
#[derive(Clone, Copy, Debug, PartialEq, Eq, Structural)]
pub enum ErrorKind {
    /// An outgoing frame is larger than the configured maximum, or than its header can announce.
    FrameTooLarge,
    /// Fewer bytes than a frame header.
    ShorterThanHeader,
    /// An incoming frame announces more bytes than the configured maximum.
    IncomingFrameTooLarge,
    /// A preflight payload ends inside the URL length.
    NoUrlLength,
    /// A preflight payload ends inside the URL.
    NoUrl,
    /// The URL of a preflight is not UTF-8.
    UrlNotUtf8,
    /// A relay URL has no host.
    RelayWithoutHost,
    /// A relay URL has no port, and its scheme has no default port.
    RelayWithoutPort,
    /// A peer URL has no peer id.
    NoPeerId,
    /// The peer id of a URL is not an endpoint id.
    BadPeerId,
    /// The address of a peer URL does not make a relay URL.
    BadRelayAddress,
    /// The configured relay URL is not a URL.
    BadRelayConfig,
    /// The configured relay is reached in plain text, which the configuration forbids.
    PlainTextRelay,
    /// The endpoint could not be bound.
    BindFailed,
    /// No relay connection was established in time.
    RelayTimedOut,
    /// The address watcher ended before there was an address.
    WatchEnded,
    /// A connection to a peer was not established in time.
    ConnectTimedOut,
    /// A connection to a peer failed.
    ConnectFailed,
    /// A connection was attempted while the local URL is unknown.
    ConnectBeforeUrl,
    /// A connection came in while the local URL is unknown.
    ReceivedBeforeUrl,
    /// A preflight frame could not be written.
    SendPreflightFailed,
    /// A data frame could not be written.
    SendDataFailed,
    /// No stream to the remote could be opened.
    OpenStreamFailed,
    /// The preflight exchange took too long.
    PreflightTimedOut,
    /// Data came in from a peer without a URL.
    DataBeforePreflight,
    /// The header of a preflight frame could not be read.
    PreflightHeaderUnread,
    /// A data frame came in where the preflight is due.
    PreflightExpected,
    /// The payload of a preflight frame could not be read.
    PreflightDataUnread,
    /// The header of a data frame could not be read.
    DataHeaderUnread,
    /// The header of a data frame could not be decoded.
    BadDataHeader,
    /// A preflight frame came in where data is due.
    DataExpected,
    /// The payload of a data frame could not be read.
    DataUnread,
    /// The first byte of a frame names no frame type.
    UnknownFrameType(u8),
    /// The text is no valid peer URL. The source holds the whole message.
    InvalidUrl,
    /// The relay URL to use cannot be parsed. The source holds the context.
    UnusableRelayUrl,
    /// The handler of the transport failed. The source holds the whole message.
    Handler,
}

/// An error of the transport: what went wrong, and the text of the error that caused it.
#[derive(Clone, Debug)]
pub struct Error {
    /// What went wrong.
    pub kind: ErrorKind,
    /// The text of the causing error.
    pub source: Option<String>,
}

/// An [`Error`] as a mathematical value.
#[verifier::ext_equal]
pub struct ErrorView {
    /// What went wrong.
    pub kind: ErrorKind,
    /// The text of the causing error.
    pub source: Option<Seq<char>>,
}

/// The characters of an optional string.
pub open spec fn option_text(s: Option<String>) -> Option<Seq<char>> {
    match s {
        Some(t) => Some(t@),
        None => None,
    }
}

impl View for Error {
    type V = ErrorView;

    open spec fn view(&self) -> ErrorView {
        ErrorView { kind: self.kind, source: option_text(self.source) }
    }
}

/// An error that no other error caused.
pub open spec fn plain(kind: ErrorKind) -> ErrorView {
    ErrorView { kind, source: None }
}

/// An error that another error caused, whose text is `source`.
pub open spec fn caused(kind: ErrorKind, source: Seq<char>) -> ErrorView {
    ErrorView { kind, source: Some(source) }
}

/// The view of a result whose value is its own view.
pub open spec fn unit_result(r: Result<(), Error>) -> Result<(), ErrorView> {
    match r {
        Ok(()) => Ok(()),
        Err(e) => Err(e@),
    }
}

/// The view of a result with the text of an error.
pub open spec fn outcome(r: Result<(), String>) -> Result<(), Seq<char>> {
    match r {
        Ok(()) => Ok(()),
        Err(t) => Err(t@),
    }
}

/// The fixed words that describe a kind of error.
pub open spec fn words(kind: ErrorKind) -> Seq<char> {
    match kind {
        ErrorKind::FrameTooLarge => "frame too large"@,
        ErrorKind::ShorterThanHeader => "iroh frame shorter than header"@,
        ErrorKind::IncomingFrameTooLarge => "iroh frame too large"@,
        ErrorKind::NoUrlLength => "preflight data too short for URL length"@,
        ErrorKind::NoUrl => "preflight data too short for actual URL"@,
        ErrorKind::UrlNotUtf8 => "invalid peer url"@,
        ErrorKind::RelayWithoutHost => "relay url must have host"@,
        ErrorKind::RelayWithoutPort => "relay url must have known default port"@,
        ErrorKind::NoPeerId => "url must have peer id"@,
        ErrorKind::BadPeerId => "failed to convert peer id to endpoint id"@,
        ErrorKind::BadRelayAddress => "invalid relay url"@,
        ErrorKind::BadRelayConfig => "invalid relay URL"@,
        ErrorKind::PlainTextRelay => "disallowed plaintext relay url"@,
        ErrorKind::BindFailed => "failed to bind iroh endpoint"@,
        ErrorKind::RelayTimedOut => "timed out waiting for relay connection (30s)"@,
        ErrorKind::WatchEnded => "watch_addr_task ended before providing a URL"@,
        ErrorKind::ConnectTimedOut => "iroh connect timed out"@,
        ErrorKind::ConnectFailed => "iroh connect failed"@,
        ErrorKind::ConnectBeforeUrl => "Connection attempted before home relay URL is known"@,
        ErrorKind::ReceivedBeforeUrl => "Connection received before home relay URL is known"@,
        ErrorKind::SendPreflightFailed => "failed to send preflight frame"@,
        ErrorKind::SendDataFailed => "failed to send data frame"@,
        ErrorKind::OpenStreamFailed => "failed to open uni-directional stream"@,
        ErrorKind::PreflightTimedOut => "timed out waiting for preflight"@,
        ErrorKind::DataBeforePreflight => "received data before preflight"@,
        ErrorKind::PreflightHeaderUnread => "preflight header read failed"@,
        ErrorKind::PreflightExpected => "preflight frame expected, received data frame"@,
        ErrorKind::PreflightDataUnread => "preflight data read failed"@,
        ErrorKind::DataHeaderUnread => "error reading data frame header"@,
        ErrorKind::BadDataHeader => "failed to decode iroh frame header"@,
        ErrorKind::DataExpected => "data frame expected, received preflight frame"@,
        ErrorKind::DataUnread => "error reading data frame data"@,
        ErrorKind::UnknownFrameType(_) => "unknown iroh frame type: "@,
        ErrorKind::InvalidUrl => ""@,
        ErrorKind::UnusableRelayUrl => ""@,
        ErrorKind::Handler => ""@,
    }
}

impl ErrorView {
    /// The text of the causing error, or `None` where there is none.
    pub open spec fn source_text(self) -> Seq<char> {
        match self.source {
            Some(s) => s,
            None => "None"@,
        }
    }

    /// The message of the error: the context, then the text of the causing error in brackets.
    /// An error that stands for another one has that error's message.
    pub open spec fn message(self) -> Seq<char> {
        match self.kind {
            ErrorKind::InvalidUrl | ErrorKind::Handler => self.source_text(),
            ErrorKind::UnusableRelayUrl => self.source_text() + " (src: None)"@,
            _ => self.context() + " (src: "@ + self.source_text() + ")"@,
        }
    }

    /// What the error says without its cause.
    pub open spec fn context(self) -> Seq<char> {
        match self.kind {
            ErrorKind::InvalidUrl | ErrorKind::Handler | ErrorKind::UnusableRelayUrl => self.source_text(),
            ErrorKind::UnknownFrameType(value) => words(self.kind) + crate::text::decimal(
                value as nat,
            ),
            _ => words(self.kind),
        }
    }
}

/// The fixed words that describe a kind of error.
fn kind_words(kind: ErrorKind) -> (r: &'static str)
    ensures
        r@ == words(kind),
{
    match kind {
        ErrorKind::FrameTooLarge => "frame too large",
        ErrorKind::ShorterThanHeader => "iroh frame shorter than header",
        ErrorKind::IncomingFrameTooLarge => "iroh frame too large",
        ErrorKind::NoUrlLength => "preflight data too short for URL length",
        ErrorKind::NoUrl => "preflight data too short for actual URL",
        ErrorKind::UrlNotUtf8 => "invalid peer url",
        ErrorKind::RelayWithoutHost => "relay url must have host",
        ErrorKind::RelayWithoutPort => "relay url must have known default port",
        ErrorKind::NoPeerId => "url must have peer id",
        ErrorKind::BadPeerId => "failed to convert peer id to endpoint id",
        ErrorKind::BadRelayAddress => "invalid relay url",
        ErrorKind::BadRelayConfig => "invalid relay URL",
        ErrorKind::PlainTextRelay => "disallowed plaintext relay url",
        ErrorKind::BindFailed => "failed to bind iroh endpoint",
        ErrorKind::RelayTimedOut => "timed out waiting for relay connection (30s)",
        ErrorKind::WatchEnded => "watch_addr_task ended before providing a URL",
        ErrorKind::ConnectTimedOut => "iroh connect timed out",
        ErrorKind::ConnectFailed => "iroh connect failed",
        ErrorKind::ConnectBeforeUrl => "Connection attempted before home relay URL is known",
        ErrorKind::ReceivedBeforeUrl => "Connection received before home relay URL is known",
        ErrorKind::SendPreflightFailed => "failed to send preflight frame",
        ErrorKind::SendDataFailed => "failed to send data frame",
        ErrorKind::OpenStreamFailed => "failed to open uni-directional stream",
        ErrorKind::PreflightTimedOut => "timed out waiting for preflight",
        ErrorKind::DataBeforePreflight => "received data before preflight",
        ErrorKind::PreflightHeaderUnread => "preflight header read failed",
        ErrorKind::PreflightExpected => "preflight frame expected, received data frame",
        ErrorKind::PreflightDataUnread => "preflight data read failed",
        ErrorKind::DataHeaderUnread => "error reading data frame header",
        ErrorKind::BadDataHeader => "failed to decode iroh frame header",
        ErrorKind::DataExpected => "data frame expected, received preflight frame",
        ErrorKind::DataUnread => "error reading data frame data",
        ErrorKind::UnknownFrameType(_) => "unknown iroh frame type: ",
        ErrorKind::InvalidUrl => "",
        ErrorKind::UnusableRelayUrl => "",
        ErrorKind::Handler => "",
    }
}

impl Error {
    /// An error that no other error caused.
    pub fn new(kind: ErrorKind) -> (r: Error)
        ensures
            r@ == plain(kind),
    {
        Error { kind, source: None }
    }

    /// An error that another error caused.
    pub fn caused_by(kind: ErrorKind, source: String) -> (r: Error)
        ensures
            r@ == caused(kind, source@),
    {
        Error { kind, source: Some(source) }
    }

    /// The text of the causing error, or `None` where there is none.
    pub fn source_text(&self) -> (r: String)
        ensures
            r@ == self@.source_text(),
    {
        match &self.source {
            Some(s) => s.clone(),
            None => "None".to_owned(),
        }
    }

    /// What the error says without its cause.
    pub fn context(&self) -> (r: String)
        ensures
            r@ == self@.context(),
    {
        match self.kind {
            ErrorKind::InvalidUrl | ErrorKind::Handler | ErrorKind::UnusableRelayUrl => self.source_text(),
            ErrorKind::UnknownFrameType(value) => {
                let mut r: String = kind_words(self.kind).to_owned();
                r.append(decimal_text(value as u64).as_str());
                r
            },
            _ => kind_words(self.kind).to_owned(),
        }
    }

    /// The message of the error.
    pub fn message(&self) -> (r: String)
        ensures
            r@ == self@.message(),
    {
        match self.kind {
            ErrorKind::InvalidUrl | ErrorKind::Handler => self.source_text(),
            ErrorKind::UnusableRelayUrl => {
                let mut r: String = self.source_text();
                r.append(" (src: None)");
                r
            },
            _ => {
                let mut r: String = self.context();
                r.append(" (src: ");
                r.append(self.source_text().as_str());
                r.append(")");
                r
            },
        }
    }
}

} // verus!
