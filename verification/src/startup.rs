//! The start of the transport, and what keeps it reachable.
//!
//! An endpoint is bound, with the configured relay or those of n0. The transport is ready once the
//! endpoint has a home relay, by which peers reach it. From then on it follows the changes of its
//! address, and accepts the connections that come in.
use crate::config::IrohTransportConfig;
use crate::connection_context::{ConnectionContextParams, ParamsView};
use crate::error::{Error, ErrorKind, ErrorView};
use crate::url::{
    get_url_with_first_relay, EndpointAddr, EndpointAddrView, RelayUrl, RelayUrlView, Url,
};
use crate::{config, error, outside, url};
use vstd::prelude::*;
use vstd::slice::slice_to_vec;
use vstd::string::*;
use vstd::utf8;

verus! {

/// How long the start waits for a home relay, in seconds.
pub const RELAY_TIMEOUT_S: u64 = 30;

/// The name of the protocol that peers speak.
pub fn alpn() -> (r: Vec<u8>)
    ensures
        r@ == utf8::encode_utf8("kitsune2/0"@),
{
    slice_to_vec("kitsune2/0".as_bytes())
}

/// What an endpoint is bound with.
#[derive(Debug)]
pub struct EndpointOptions {
    /// The only relay to use. Without one, the relays that n0 provides are used.
    pub relay: Option<RelayUrl>,
    /// The protocols that the endpoint speaks.
    pub alpns: Vec<Vec<u8>>,
}

/// [`EndpointOptions`] as a mathematical value.
#[verifier::ext_equal]
pub struct EndpointOptionsView {
    /// The only relay to use. Without one, the relays that n0 provides are used.
    pub relay: Option<RelayUrlView>,
    /// The protocols that the endpoint speaks.
    pub alpns: Seq<Seq<u8>>,
}

impl View for EndpointOptions {
    type V = EndpointOptionsView;

    open spec fn view(&self) -> EndpointOptionsView {
        EndpointOptionsView {
            relay: match self.relay {
                Some(u) => Some(u@),
                None => None,
            },
            alpns: self.alpns@.map_values(|a: Vec<u8>| a@),
        }
    }
}

/// What the endpoint of a transport is bound with, where `read` is what reading the URL of the
/// configured relay gave, if one is configured.
pub open spec fn bound_with(read: Option<Result<RelayUrlView, Seq<char>>>) -> Result<
    EndpointOptionsView,
    ErrorView,
> {
    let alpns = seq![utf8::encode_utf8("kitsune2/0"@)];
    match read {
        None => Ok(EndpointOptionsView { relay: None, alpns }),
        Some(read) => match url::relay_parse(read) {
            Ok(relay) => Ok(EndpointOptionsView { relay: Some(relay), alpns }),
            Err(e) => Err(e),
        },
    }
}

/// What reading the URL of the configured relay gives.
pub open spec fn configured_relay(config: IrohTransportConfig) -> Option<
    Result<RelayUrlView, Seq<char>>,
> {
    match config.relay_url {
        None => None,
        Some(text) => Some(outside::relay_url(text@)),
    }
}

/// The view of a result that holds endpoint options.
pub open spec fn options_result(r: Result<EndpointOptions, Error>) -> Result<
    EndpointOptionsView,
    ErrorView,
> {
    match r {
        Ok(options) => Ok(options@),
        Err(e) => Err(e@),
    }
}

impl EndpointOptions {
    /// What the endpoint of a transport is bound with, where `read` is what reading the URL of the
    /// configured relay gave, if one is configured.
    pub fn from_relay(read: Option<Result<RelayUrl, String>>) -> (r: Result<EndpointOptions, Error>)
        ensures
            options_result(r) == bound_with(
                match read {
                    Some(read) => Some(url::read_relay(read)),
                    None => None,
                },
            ),
            match (read, r) {
                (None, Ok(options)) => options.relay is None,
                (Some(Ok(given)), Ok(options)) => match options.relay {
                    Some(relay) => relay@ == given@,
                    None => false,
                },
                (Some(Err(_)), Err(_)) => true,
                _ => false,
            },
    {
        let relay = match read {
            None => None,
            Some(read) => match url::used_relay(read) {
                Err(e) => return Err(e),
                Ok(relay) => Some(relay),
            },
        };
        let mut alpns: Vec<Vec<u8>> = Vec::new();
        alpns.push(alpn());
        let options = EndpointOptions { relay, alpns };
        assert(options@.alpns =~= seq![utf8::encode_utf8("kitsune2/0"@)]);
        Ok(options)
    }

    /// What the endpoint of a configured transport is bound with. A configuration that was found
    /// usable always gives options.
    pub fn new(config: &IrohTransportConfig) -> (r: Result<EndpointOptions, Error>)
        ensures
            options_result(r) == bound_with(configured_relay(*config)),
            config::config_allowed(*config) is Ok ==> r is Ok,
            match (config.relay_url, r) {
                (None, Ok(options)) => options.relay is None,
                (None, Err(_)) => false,
                (Some(text), Ok(options)) => match options.relay {
                    Some(relay) => outside::relay_url(text@) == Ok::<RelayUrlView, Seq<char>>(
                        relay@,
                    ),
                    None => false,
                },
                (Some(text), Err(_)) => outside::relay_url(text@) is Err,
            },
    {
        match &config.relay_url {
            None => Self::from_relay(None),
            Some(text) => Self::from_relay(Some(outside::read_relay_url(text.as_str()))),
        }
    }
}

/// How far the start of the transport has come.
#[derive(Clone, Copy, Debug, PartialEq, Eq, Structural)]
pub enum StartupPhase {
    /// The endpoint is being bound.
    Binding,
    /// The endpoint waits for a home relay.
    AwaitingUrl,
    /// The transport has started, or could not.
    Done,
}

/// The start of the transport.
#[derive(Debug)]
pub struct Startup {
    phase: StartupPhase,
}

/// What happened at the start of the transport. `T` is the text of an error.
#[derive(Debug)]
pub enum StartupEvent<T> {
    /// The endpoint was bound, or could not be.
    Bound(Result<(), T>),
    /// The first URL of the endpoint is known.
    UrlReady,
    /// The address of the endpoint is not followed any more, and no URL is known.
    WatchEnded,
    /// The endpoint had to wait too long for a home relay.
    TimedOut,
}

/// What to do at the start of the transport. `E` is an error.
#[derive(Debug)]
pub enum StartupAction<E> {
    /// Follow the address of the endpoint, accept connections, and wait this many seconds for the
    /// first URL.
    AwaitUrl(u64),
    /// The transport has started, or could not.
    Finish(Result<(), E>),
}

impl View for Startup {
    type V = StartupPhase;

    closed spec fn view(&self) -> StartupPhase {
        self.phase
    }
}

impl View for StartupEvent<String> {
    type V = StartupEvent<Seq<char>>;

    open spec fn view(&self) -> StartupEvent<Seq<char>> {
        match *self {
            StartupEvent::Bound(r) => StartupEvent::Bound(error::outcome(r)),
            StartupEvent::UrlReady => StartupEvent::UrlReady,
            StartupEvent::WatchEnded => StartupEvent::WatchEnded,
            StartupEvent::TimedOut => StartupEvent::TimedOut,
        }
    }
}

impl View for StartupAction<Error> {
    type V = StartupAction<ErrorView>;

    open spec fn view(&self) -> StartupAction<ErrorView> {
        match *self {
            StartupAction::AwaitUrl(s) => StartupAction::AwaitUrl(s),
            StartupAction::Finish(r) => StartupAction::Finish(error::unit_result(r)),
        }
    }
}

/// Whether an event can happen in a phase.
pub open spec fn startup_expects(phase: StartupPhase, event: StartupEvent<Seq<char>>) -> bool {
    match event {
        StartupEvent::Bound(_) => phase == StartupPhase::Binding,
        _ => phase == StartupPhase::AwaitingUrl,
    }
}

/// What an event makes of the phase, and what is to be done.
pub open spec fn startup_step(event: StartupEvent<Seq<char>>) -> (
    StartupPhase,
    StartupAction<ErrorView>,
) {
    match event {
        StartupEvent::Bound(Ok(())) => (
            StartupPhase::AwaitingUrl,
            StartupAction::AwaitUrl(RELAY_TIMEOUT_S),
        ),
        StartupEvent::Bound(Err(t)) => (
            StartupPhase::Done,
            StartupAction::Finish(Err(error::caused(ErrorKind::BindFailed, t))),
        ),
        StartupEvent::UrlReady => (StartupPhase::Done, StartupAction::Finish(Ok(()))),
        StartupEvent::WatchEnded => (
            StartupPhase::Done,
            StartupAction::Finish(Err(error::plain(ErrorKind::WatchEnded))),
        ),
        StartupEvent::TimedOut => (
            StartupPhase::Done,
            StartupAction::Finish(Err(error::plain(ErrorKind::RelayTimedOut))),
        ),
    }
}

impl Startup {
    /// A start that waits for the endpoint to be bound.
    pub fn new() -> (r: Startup)
        ensures
            r@ == StartupPhase::Binding,
    {
        Startup { phase: StartupPhase::Binding }
    }

    /// How far the start has come.
    pub fn phase(&self) -> (r: StartupPhase)
        ensures
            r == self@,
    {
        self.phase
    }

    /// Whether an event can happen now.
    pub fn expects(&self, event: &StartupEvent<String>) -> (r: bool)
        ensures
            r == startup_expects(self@, event@),
    {
        match event {
            StartupEvent::Bound(_) => self.phase == StartupPhase::Binding,
            _ => self.phase == StartupPhase::AwaitingUrl,
        }
    }

    /// Says what to do after an event.
    pub fn step(&mut self, event: StartupEvent<String>) -> (r: StartupAction<Error>)
        requires
            startup_expects(old(self)@, event@),
        ensures
            (final(self)@, r@) == startup_step(event@),
    {
        self.phase = StartupPhase::Done;
        match event {
            StartupEvent::Bound(Ok(())) => {
                self.phase = StartupPhase::AwaitingUrl;
                StartupAction::AwaitUrl(RELAY_TIMEOUT_S)
            },
            StartupEvent::Bound(Err(t)) => StartupAction::Finish(
                Err(Error::caused_by(ErrorKind::BindFailed, t)),
            ),
            StartupEvent::UrlReady => StartupAction::Finish(Ok(())),
            StartupEvent::WatchEnded => StartupAction::Finish(
                Err(Error::new(ErrorKind::WatchEnded)),
            ),
            StartupEvent::TimedOut => StartupAction::Finish(
                Err(Error::new(ErrorKind::RelayTimedOut)),
            ),
        }
    }
}

/// The URL of this side, and whether somebody waits for the first one.
#[derive(Debug)]
pub struct LocalUrl {
    url: Option<Url>,
    awaited: bool,
}

/// A [`LocalUrl`] as a mathematical value.
#[verifier::ext_equal]
pub struct LocalUrlView {
    /// The URL, once it is known.
    pub url: Option<Seq<char>>,
    /// Whether somebody waits for the first URL.
    pub awaited: bool,
}

/// What follows from an update of the address. `U` is a URL.
#[derive(Debug)]
pub struct AddressUpdate<U> {
    /// Whether to signal that the first URL is known.
    pub ready: bool,
    /// The URL that the handler is told.
    pub listening: Option<U>,
}

impl View for LocalUrl {
    type V = LocalUrlView;

    closed spec fn view(&self) -> LocalUrlView {
        LocalUrlView { url: url::url_option(self.url), awaited: self.awaited }
    }
}

impl View for AddressUpdate<Url> {
    type V = AddressUpdate<Seq<char>>;

    open spec fn view(&self) -> AddressUpdate<Seq<char>> {
        AddressUpdate { ready: self.ready, listening: url::url_option(self.listening) }
    }
}

/// What an update of the address makes of the URL of this side, and what follows from it. An
/// address without a usable relay changes nothing.
pub open spec fn address_update(l: LocalUrlView, addr: EndpointAddrView) -> (
    LocalUrlView,
    AddressUpdate<Seq<char>>,
) {
    match url::first_relayed_url(addr, 0) {
        None => (l, AddressUpdate { ready: false, listening: None }),
        Some(u) => (
            LocalUrlView { url: Some(u), awaited: l.awaited && l.url is Some },
            AddressUpdate { ready: l.awaited && l.url is None, listening: Some(u) },
        ),
    }
}

impl LocalUrl {
    /// No URL is known yet. Somebody may wait for the first one.
    pub fn new(awaited: bool) -> (r: LocalUrl)
        ensures
            r@ == (LocalUrlView { url: None, awaited }),
    {
        LocalUrl { url: None, awaited }
    }

    /// The URL, once it is known.
    pub fn url(&self) -> (r: Option<Url>)
        ensures
            url::url_option(r) == self@.url,
    {
        match &self.url {
            Some(u) => Some(u.clone()),
            None => None,
        }
    }

    /// Takes note of the address that the endpoint has now.
    pub fn update(&mut self, addr: &EndpointAddr) -> (r: AddressUpdate<Url>)
        ensures
            (final(self)@, r@) == address_update(old(self)@, addr@),
    {
        match get_url_with_first_relay(addr) {
            None => AddressUpdate { ready: false, listening: None },
            Some(u) => {
                let changed: bool = match &self.url {
                    Some(known) => !known.same(&u),
                    None => true,
                };
                let first: bool = self.url.is_none();
                if changed {
                    self.url = Some(u.clone());
                }
                let ready: bool = first && self.awaited;
                if ready {
                    self.awaited = false;
                }
                AddressUpdate { ready, listening: Some(u) }
            },
        }
    }
}

/// What happened to the address of the endpoint, which is followed. `A` is an address, `T` the text
/// of an error.
#[derive(Debug)]
pub enum WatchEvent<A, T> {
    /// The endpoint has this address now.
    Updated(A),
    /// The address cannot be followed any more.
    Failed(T),
}

/// What to do to follow the address of the endpoint. `U` is a URL.
#[derive(Debug)]
pub enum WatchAction<U> {
    /// Do what follows from the update, then wait for the next one.
    GoOn(AddressUpdate<U>),
    /// Follow the address no more. Says whether somebody still waits for the first URL, who is then
    /// told that none comes.
    Stop(bool),
}

impl View for WatchEvent<EndpointAddr, String> {
    type V = WatchEvent<EndpointAddrView, Seq<char>>;

    open spec fn view(&self) -> WatchEvent<EndpointAddrView, Seq<char>> {
        match *self {
            WatchEvent::Updated(addr) => WatchEvent::Updated(addr@),
            WatchEvent::Failed(t) => WatchEvent::Failed(t@),
        }
    }
}

impl View for WatchAction<Url> {
    type V = WatchAction<Seq<char>>;

    open spec fn view(&self) -> WatchAction<Seq<char>> {
        match *self {
            WatchAction::GoOn(update) => WatchAction::GoOn(update@),
            WatchAction::Stop(told) => WatchAction::Stop(told),
        }
    }
}

/// What an event makes of the URL of this side, and what is to be done. The URL that is known when
/// the address cannot be followed any more stays known.
pub open spec fn watch_step(l: LocalUrlView, event: WatchEvent<EndpointAddrView, Seq<char>>) -> (
    LocalUrlView,
    WatchAction<Seq<char>>,
) {
    match event {
        WatchEvent::Updated(addr) => {
            let (next, update) = address_update(l, addr);
            (next, WatchAction::GoOn(update))
        },
        WatchEvent::Failed(_) => (
            LocalUrlView { awaited: false, ..l },
            WatchAction::Stop(l.awaited),
        ),
    }
}

impl LocalUrl {
    /// Says what to do after an event of the address.
    pub fn watch(&mut self, event: WatchEvent<EndpointAddr, String>) -> (r: WatchAction<Url>)
        ensures
            (final(self)@, r@) == watch_step(old(self)@, event@),
    {
        match event {
            WatchEvent::Updated(addr) => WatchAction::GoOn(self.update(&addr)),
            WatchEvent::Failed(_) => {
                let told: bool = self.awaited;
                self.awaited = false;
                WatchAction::Stop(told)
            },
        }
    }
}

/// What happened to the endpoint that accepts connections.
#[derive(Debug)]
pub enum AcceptEvent {
    /// A connection came in.
    Incoming,
    /// The endpoint was closed.
    EndpointClosed,
    /// The connection was established, at this many seconds since the epoch, if the clock is
    /// set to a time after it.
    Established(Option<u64>),
    /// The connection could not be established.
    HandshakeFailed,
}

/// What to do to accept connections.
#[derive(Debug)]
pub enum AcceptAction {
    /// Wait for the connection to be established.
    AwaitHandshake,
    /// Open a context for the connection, then wait for the next one.
    Open(ConnectionContextParams),
    /// Wait for the next connection.
    AcceptNext,
    /// Accept no more connections.
    Stop,
}

/// An [`AcceptAction`] as a mathematical value.
pub enum AcceptActionView {
    /// Wait for the connection to be established.
    AwaitHandshake,
    /// Open a context for the connection, then wait for the next one.
    Open(ParamsView),
    /// Wait for the next connection.
    AcceptNext,
    /// Accept no more connections.
    Stop,
}

impl View for AcceptAction {
    type V = AcceptActionView;

    open spec fn view(&self) -> AcceptActionView {
        match *self {
            AcceptAction::AwaitHandshake => AcceptActionView::AwaitHandshake,
            AcceptAction::Open(params) => AcceptActionView::Open(params@),
            AcceptAction::AcceptNext => AcceptActionView::AcceptNext,
            AcceptAction::Stop => AcceptActionView::Stop,
        }
    }
}

/// What is to be done after an event of the endpoint.
pub open spec fn accepting(event: AcceptEvent, max_frame_bytes: usize) -> AcceptActionView {
    match event {
        AcceptEvent::Incoming => AcceptActionView::AwaitHandshake,
        AcceptEvent::EndpointClosed => AcceptActionView::Stop,
        AcceptEvent::HandshakeFailed => AcceptActionView::AcceptNext,
        AcceptEvent::Established(elapsed_s) => AcceptActionView::Open(
            ParamsView {
                remote_url: None,
                preflight_sent: false,
                opened_at_s: match elapsed_s {
                    Some(s) => s,
                    None => 0,
                },
                max_frame_bytes,
            },
        ),
    }
}

/// When a connection was opened, in seconds since the epoch, by a clock that may be set to a time
/// before it.
pub fn opened_at(elapsed_s: Option<u64>) -> (r: u64)
    ensures
        r == match elapsed_s {
            Some(s) => s,
            None => 0,
        },
{
    match elapsed_s {
        Some(s) => s,
        None => 0,
    }
}

/// Says what to do after an event of the endpoint. The peer of a connection that came in is not
/// known yet, and gets the preflight when its own has come.
pub fn accept_step(event: AcceptEvent, max_frame_bytes: usize) -> (r: AcceptAction)
    ensures
        match (event, r) {
            (AcceptEvent::Incoming, AcceptAction::AwaitHandshake) => true,
            (AcceptEvent::EndpointClosed, AcceptAction::Stop) => true,
            (AcceptEvent::HandshakeFailed, AcceptAction::AcceptNext) => true,
            (AcceptEvent::Established(elapsed_s), AcceptAction::Open(params)) => params@ == (
            ParamsView {
                remote_url: None,
                preflight_sent: false,
                opened_at_s: match elapsed_s {
                    Some(s) => s,
                    None => 0,
                },
                max_frame_bytes,
            }),
            _ => false,
        },
        r@ == accepting(event, max_frame_bytes),
{
    match event {
        AcceptEvent::Incoming => AcceptAction::AwaitHandshake,
        AcceptEvent::EndpointClosed => AcceptAction::Stop,
        AcceptEvent::HandshakeFailed => AcceptAction::AcceptNext,
        AcceptEvent::Established(elapsed_s) => AcceptAction::Open(
            ConnectionContextParams {
                remote_url: None,
                preflight_sent: false,
                opened_at_s: opened_at(elapsed_s),
                max_frame_bytes,
            },
        ),
    }
}

} // verus!
