//! Peer URLs, relay URLs and the endpoint addresses that they stand for.
//!
//! A peer is reached through its home relay. Its URL names the relay's scheme, host and port, and
//! ends with the id of the peer's endpoint.
use crate::error::{Error, ErrorKind, ErrorView};
use crate::{error, outside, text};
use vstd::prelude::*;
use vstd::string::*;

verus! {

/// A host of a relay URL.
#[derive(Debug)]
pub enum Host<T> {
    /// A domain name.
    Domain(T),
    /// An IPv4 address.
    Ipv4(T),
    /// An IPv6 address, without brackets.
    Ipv6(T),
}

/// A URL of a relay server.
#[derive(Debug)]
pub struct RelayUrl {
    /// The whole URL.
    pub text: String,
    /// The scheme.
    pub scheme: String,
    /// The host, if there is one.
    pub host: Option<Host<String>>,
    /// The port, where it is written out.
    pub port: Option<u16>,
    /// The port, or the default port of the scheme.
    pub known_port: Option<u16>,
}

/// A [`RelayUrl`] as a mathematical value.
#[verifier::ext_equal]
pub struct RelayUrlView {
    /// The whole URL.
    pub text: Seq<char>,
    /// The scheme.
    pub scheme: Seq<char>,
    /// The host, if there is one.
    pub host: Option<Host<Seq<char>>>,
    /// The port, where it is written out.
    pub port: Option<u16>,
    /// The port, or the default port of the scheme.
    pub known_port: Option<u16>,
}

/// The characters of a host.
pub open spec fn host_view(h: Option<Host<String>>) -> Option<Host<Seq<char>>> {
    match h {
        None => None,
        Some(Host::Domain(s)) => Some(Host::Domain(s@)),
        Some(Host::Ipv4(s)) => Some(Host::Ipv4(s@)),
        Some(Host::Ipv6(s)) => Some(Host::Ipv6(s@)),
    }
}

impl View for RelayUrl {
    type V = RelayUrlView;

    open spec fn view(&self) -> RelayUrlView {
        RelayUrlView {
            text: self.text@,
            scheme: self.scheme@,
            host: host_view(self.host),
            port: self.port,
            known_port: self.known_port,
        }
    }
}

impl Clone for RelayUrl {
    fn clone(&self) -> (r: RelayUrl)
        ensures
            r@ == self@,
    {
        let host = match &self.host {
            None => None,
            Some(Host::Domain(s)) => Some(Host::Domain(s.clone())),
            Some(Host::Ipv4(s)) => Some(Host::Ipv4(s.clone())),
            Some(Host::Ipv6(s)) => Some(Host::Ipv6(s.clone())),
        };
        RelayUrl {
            text: self.text.clone(),
            scheme: self.scheme.clone(),
            host,
            port: self.port,
            known_port: self.known_port,
        }
    }
}

impl RelayUrl {
    /// Reads a text as the URL of a relay.
    pub fn from_str(src: &str) -> (r: Result<RelayUrl, Error>)
        ensures
            relay_result(r) == relay_parse(outside::relay_url(src@)),
            r is Ok <==> outside::url_scheme(src@) is Ok,
            match r {
                Ok(relay) => well_written(relay@) && reads_back(relay@),
                Err(_) => true,
            },
    {
        used_relay(outside::read_relay_url(src))
    }
}

/// Whether a relay is reached over HTTP, in plain text or encrypted.
pub open spec fn over_http(relay: RelayUrlView) -> bool {
    relay.scheme == "http"@ || relay.scheme == "https"@
}

/// The default port of a scheme over HTTP.
pub open spec fn default_port(scheme: Seq<char>) -> u16 {
    if scheme == "https"@ {
        443
    } else {
        80
    }
}

/// Whether a relay URL, if it is one over HTTP, has a host, is written with its scheme first and a
/// slash behind the host, and writes its port exactly where that is not the default port.
pub open spec fn well_written(relay: RelayUrlView) -> bool {
    over_http(relay) ==> {
        &&& relay.host matches Some(host) && !host_text(host).contains('/')
        &&& text::begins_with(relay.text, relay.scheme + "://"@)
        &&& relay.text.skip(relay.scheme.len() + 3int).contains('/')
        &&& match relay.port {
            Some(port) => relay.known_port == Some(port) && port != default_port(relay.scheme),
            None => relay.known_port == Some(default_port(relay.scheme)),
        }
    }
}

/// The scheme, host and port of a relay, with the port written out.
pub open spec fn written_out(relay: RelayUrlView) -> Seq<char> {
    relay.scheme + "://"@ + host_text(relay.host->0) + ":"@ + text::decimal(
        relay.known_port->0 as nat,
    )
}

/// Whether a relay over HTTP is nothing but a scheme, a host and perhaps a port: its URL has no
/// user info, and nothing follows the address but the final slash.
pub open spec fn is_bare(relay: RelayUrlView) -> bool {
    let start = relay.scheme.len() + 3int;
    let end = relay.text.len() - 1;
    &&& over_http(relay)
    &&& start <= end
    &&& text::begins_with(relay.text, relay.scheme + "://"@)
    &&& relay.text[end] == '/'
    &&& forall|i: int|
        start <= i < end ==> (#[trigger] relay.text[i]) != '/' && relay.text[i] != '@'
}

/// Whether a bare relay is what is read where its URL is, as it stands or with the port written
/// out, each with or without the final slash.
pub open spec fn reads_back(relay: RelayUrlView) -> bool {
    is_bare(relay) ==> {
        &&& relay_at(relay.text) == Ok::<RelayUrlView, Seq<char>>(relay)
        &&& relay_at(relay.text.drop_last()) == Ok::<RelayUrlView, Seq<char>>(relay)
        &&& relay_at(written_out(relay)) == Ok::<RelayUrlView, Seq<char>>(relay)
        &&& relay_at(written_out(relay) + "/"@) == Ok::<RelayUrlView, Seq<char>>(relay)
    }
}

/// The relay to use, from what reading its URL gave.
pub open spec fn relay_parse(read: Result<RelayUrlView, Seq<char>>) -> Result<
    RelayUrlView,
    ErrorView,
> {
    match read {
        Ok(relay) => Ok(relay),
        Err(e) => Err(error::caused(ErrorKind::UnusableRelayUrl, e)),
    }
}

/// The view of a result that holds a relay URL.
pub open spec fn relay_result(r: Result<RelayUrl, Error>) -> Result<RelayUrlView, ErrorView> {
    match r {
        Ok(u) => Ok(u@),
        Err(e) => Err(e@),
    }
}

/// The relay to use, from what reading its URL gave.
pub fn used_relay(read: Result<RelayUrl, String>) -> (r: Result<RelayUrl, Error>)
    ensures
        relay_result(r) == relay_parse(read_relay(read)),
{
    match read {
        Ok(relay) => Ok(relay),
        Err(e) => Err(Error::caused_by(ErrorKind::UnusableRelayUrl, e)),
    }
}

/// Whether a text begins like a peer URL.
pub open spec fn has_peer_scheme(text: Seq<char>) -> bool {
    ||| text::begins_with(text, "ws://"@)
    ||| text::begins_with(text, "wss://"@)
    ||| text::begins_with(text, "http://"@)
    ||| text::begins_with(text, "https://"@)
}

/// The peer id at the end of a URL: what follows the last slash after the scheme.
pub open spec fn peer_id(url: Seq<char>) -> Option<Seq<char>> {
    match text::after_separator(url) {
        None => None,
        Some(rest) => match rest.index_of_last('/') {
            None => None,
            Some(i) => if i + 1 == rest.len() {
                None
            } else {
                Some(rest.skip(i + 1))
            },
        },
    }
}

/// The host and port of a URL: what stands between the scheme and the next slash.
pub open spec fn addr(url: Seq<char>) -> Seq<char> {
    match text::after_separator(url) {
        None => Seq::empty(),
        Some(rest) => match rest.index_of_first('/') {
            None => rest,
            Some(i) => rest.take(i),
        },
    }
}

/// Whether the scheme of a URL stands for an encrypted connection.
pub open spec fn uses_tls(url: Seq<char>) -> bool {
    text::begins_with(url, "wss://"@) || text::begins_with(url, "https://"@)
}

/// What reading a text as a peer URL gives.
pub open spec fn parse(text: Seq<char>) -> Result<Seq<char>, ErrorView> {
    match outside::url_rejection(text) {
        None => Ok(text),
        Some(message) => Err(error::caused(ErrorKind::InvalidUrl, message)),
    }
}

/// A text that begins like a peer URL has a first `://`.
proof fn scheme_separator(t: Seq<char>)
    requires
        has_peer_scheme(t),
    ensures
        text::after_separator(t) is Some,
{
    reveal_strlit("ws://");
    reveal_strlit("wss://");
    reveal_strlit("http://");
    reveal_strlit("https://");
    let i: int = if text::begins_with(t, "ws://"@) {
        2
    } else if text::begins_with(t, "wss://"@) {
        3
    } else if text::begins_with(t, "http://"@) {
        4
    } else {
        5
    };
    let p = t.take(i + 3);
    assert(p[i] == t[i] && p[i + 1] == t[i + 1] && p[i + 2] == t[i + 2]);
    text::separator_found(t, 0, i);
}

/// A validated URL of a peer.
#[derive(Debug)]
pub struct Url {
    text: String,
}

impl View for Url {
    type V = Seq<char>;

    closed spec fn view(&self) -> Seq<char> {
        self.text@
    }
}

impl Clone for Url {
    fn clone(&self) -> (r: Url)
        ensures
            r@ == self@,
    {
        proof {
            use_type_invariant(self);
        }
        Url { text: self.text.clone() }
    }
}

impl Url {
    #[verifier::type_invariant]
    spec fn well_formed(self) -> bool {
        &&& outside::url_rejection(self.text@) is None
        &&& has_peer_scheme(self.text@)
    }

    /// Reads a text as the URL of a peer. An accepted text is kept as it is.
    pub fn from_str(src: &str) -> (r: Result<Url, Error>)
        ensures
            match r {
                Ok(url) => parse(src@) == Ok::<Seq<char>, ErrorView>(url@) && url@ == src@,
                Err(e) => parse(src@) == Err::<Seq<char>, ErrorView>(e@),
            },
    {
        match outside::check_url(src) {
            Ok(()) => Ok(Url { text: src.to_owned() }),
            Err(message) => Err(Error::caused_by(ErrorKind::InvalidUrl, message)),
        }
    }

    /// The text of the URL, which reads as that URL.
    pub fn as_str(&self) -> (r: &str)
        ensures
            r@ == self@,
            parse(r@) == Ok::<Seq<char>, ErrorView>(self@),
    {
        proof {
            use_type_invariant(self);
        }
        self.text.as_str()
    }

    /// Whether two URLs are the same.
    pub fn same(&self, other: &Url) -> (r: bool)
        ensures
            r == (self@ == other@),
    {
        self.text == other.text
    }

    /// Whether the scheme stands for an encrypted connection.
    pub fn uses_tls(&self) -> (r: bool)
        ensures
            r == uses_tls(self@),
    {
        let chars: Vec<char> = text::chars_of(self.text.as_str());
        text::starts_with(&chars, "wss://") || text::starts_with(&chars, "https://")
    }

    /// The peer id, if the URL has one.
    pub fn peer_id(&self) -> (r: Option<&str>)
        ensures
            peer_id(self@) == match r {
                Some(id) => Some(id@),
                None => None,
            },
    {
        let chars: Vec<char> = text::chars_of(self.text.as_str());
        let end: usize = chars.len();
        match text::find_separator(&chars) {
            None => None,
            Some(i) => {
                let start: usize = i + 3;
                match text::find_last_char(&chars, start, '/') {
                    None => None,
                    Some(j) => {
                        if j + 1 == end {
                            None
                        } else {
                            let id = self.text.as_str().substring_char(j + 1, end);
                            assert(id@ == self@.skip(start as int).skip(j - start + 1));
                            Some(id)
                        }
                    },
                }
            },
        }
    }

    /// The host and port to connect to.
    pub fn addr(&self) -> (r: &str)
        ensures
            r@ == addr(self@),
    {
        proof {
            use_type_invariant(self);
            scheme_separator(self.text@);
        }
        let chars: Vec<char> = text::chars_of(self.text.as_str());
        match text::find_separator(&chars) {
            None => "",
            Some(i) => {
                let start: usize = i + 3;
                let end: usize = match text::find_char(&chars, start, '/') {
                    None => chars.len(),
                    Some(j) => j,
                };
                let r = self.text.as_str().substring_char(start, end);
                assert(r@ == self@.skip(start as int).take(end - start));
                assert(self@.skip(start as int).take(chars.len() - start) == self@.skip(
                    start as int,
                ));
                r
            },
        }
    }
}

/// How a host is written in a URL.
pub open spec fn host_text(host: Host<Seq<char>>) -> Seq<char> {
    match host {
        Host::Domain(s) => s,
        Host::Ipv4(s) => s,
        Host::Ipv6(s) => "["@ + s + "]"@,
    }
}

/// The text of the peer URL of an endpoint with a home relay. Where the relay URL writes no port,
/// the default port of its scheme is written out.
pub open spec fn relayed_text(relay: RelayUrlView, endpoint_id: Seq<char>) -> Result<
    Seq<char>,
    ErrorView,
> {
    match relay.port {
        Some(_) => Ok(relay.text + endpoint_id),
        None => match (relay.host, relay.known_port) {
            (None, _) => Err(error::plain(ErrorKind::RelayWithoutHost)),
            (Some(_), None) => Err(error::plain(ErrorKind::RelayWithoutPort)),
            (Some(host), Some(port)) => Ok(
                relay.scheme + "://"@ + host_text(host) + ":"@ + text::decimal(port as nat) + "/"@
                    + endpoint_id,
            ),
        },
    }
}

/// The peer URL of an endpoint with a home relay.
pub open spec fn relayed_url(relay: RelayUrlView, endpoint_id: Seq<char>) -> Result<
    Seq<char>,
    ErrorView,
> {
    match relayed_text(relay, endpoint_id) {
        Ok(t) => parse(t),
        Err(e) => Err(e),
    }
}

/// The view of a result that holds a text.
pub open spec fn text_result(r: Result<String, Error>) -> Result<Seq<char>, ErrorView> {
    match r {
        Ok(s) => Ok(s@),
        Err(e) => Err(e@),
    }
}

/// The view of a result that holds a URL.
pub open spec fn url_result(r: Result<Url, Error>) -> Result<Seq<char>, ErrorView> {
    match r {
        Ok(u) => Ok(u@),
        Err(e) => Err(e@),
    }
}

/// The view of an optional URL.
pub open spec fn url_option(u: Option<Url>) -> Option<Seq<char>> {
    match u {
        Some(u) => Some(u@),
        None => None,
    }
}

/// The address of an endpoint: its id, and the relays through which it is reached.
#[derive(Debug)]
pub struct EndpointAddr {
    /// The id of the endpoint, as it is written.
    pub id: String,
    /// The relays, in the order in which they are tried.
    pub relay_urls: Vec<RelayUrl>,
}

/// An [`EndpointAddr`] as a mathematical value.
#[verifier::ext_equal]
pub struct EndpointAddrView {
    /// The id of the endpoint, as it is written.
    pub id: Seq<char>,
    /// The relays, in the order in which they are tried.
    pub relay_urls: Seq<RelayUrlView>,
}

impl View for EndpointAddr {
    type V = EndpointAddrView;

    open spec fn view(&self) -> EndpointAddrView {
        EndpointAddrView {
            id: self.id@,
            relay_urls: self.relay_urls@.map_values(|u: RelayUrl| u@),
        }
    }
}

impl Clone for EndpointAddr {
    fn clone(&self) -> (r: EndpointAddr)
        ensures
            r@ == self@,
    {
        let mut relay_urls: Vec<RelayUrl> = Vec::new();
        let mut i: usize = 0;
        while i < self.relay_urls.len()
            invariant
                i <= self.relay_urls.len(),
                relay_urls@.len() == i,
                forall|j: int| 0 <= j < i ==> (#[trigger] relay_urls@[j])@ == self.relay_urls@[j]@,
            decreases self.relay_urls.len() - i,
        {
            relay_urls.push(self.relay_urls[i].clone());
            i += 1;
        }
        let r = EndpointAddr { id: self.id.clone(), relay_urls };
        assert(r@.relay_urls =~= self@.relay_urls);
        r
    }
}

/// The URL by the first relay, from position `from` on, that gives one.
pub open spec fn first_relayed_url(addr: EndpointAddrView, from: int) -> Option<Seq<char>>
    decreases addr.relay_urls.len() - from,
{
    if from < 0 || from >= addr.relay_urls.len() {
        None
    } else {
        match relayed_url(addr.relay_urls[from], addr.id) {
            Ok(t) => Some(t),
            Err(_) => first_relayed_url(addr, from + 1),
        }
    }
}

/// How a host is written in a URL.
fn write_host(host: &Host<String>) -> (r: String)
    ensures
        Some(r@) == match host_view(Some(*host)) {
            Some(h) => Some(host_text(h)),
            None => None,
        },
{
    match host {
        Host::Domain(s) => s.clone(),
        Host::Ipv4(s) => s.clone(),
        Host::Ipv6(s) => {
            let mut r: String = "[".to_owned();
            r.append(s.as_str());
            r.append("]");
            r
        },
    }
}

/// Writes the peer URL of an endpoint with a home relay, without validating it.
pub fn write_relayed_url(relay_url: &RelayUrl, endpoint_id: &str) -> (r: Result<String, Error>)
    ensures
        text_result(r) == relayed_text(relay_url@, endpoint_id@),
{
    if relay_url.port.is_none() {
        let host = match &relay_url.host {
            None => return Err(Error::new(ErrorKind::RelayWithoutHost)),
            Some(host) => host,
        };
        let port: u16 = match relay_url.known_port {
            None => return Err(Error::new(ErrorKind::RelayWithoutPort)),
            Some(port) => port,
        };
        let mut t: String = relay_url.scheme.clone();
        t.append("://");
        t.append(write_host(host).as_str());
        t.append(":");
        t.append(text::decimal_text(port as u64).as_str());
        t.append("/");
        t.append(endpoint_id);
        Ok(t)
    } else {
        let mut t: String = relay_url.text.clone();
        t.append(endpoint_id);
        Ok(t)
    }
}

/// The peer URL of an endpoint with a home relay.
pub fn canonicalize_relay_url(relay_url: &RelayUrl, endpoint_id: &str) -> (r: Result<Url, Error>)
    ensures
        url_result(r) == relayed_url(relay_url@, endpoint_id@),
{
    match write_relayed_url(relay_url, endpoint_id) {
        Err(e) => Err(e),
        Ok(t) => Url::from_str(t.as_str()),
    }
}

/// The peer URL by the first relay of an endpoint that gives one.
pub fn get_url_with_first_relay(endpoint_addr: &EndpointAddr) -> (r: Option<Url>)
    ensures
        url_option(r) == first_relayed_url(endpoint_addr@, 0),
{
    let mut i: usize = 0;
    while i < endpoint_addr.relay_urls.len()
        invariant
            i <= endpoint_addr.relay_urls@.len(),
            first_relayed_url(endpoint_addr@, 0) == first_relayed_url(endpoint_addr@, i as int),
        decreases endpoint_addr.relay_urls@.len() - i,
    {
        assert(endpoint_addr@.relay_urls[i as int] == endpoint_addr.relay_urls@[i as int]@);
        match canonicalize_relay_url(&endpoint_addr.relay_urls[i], endpoint_addr.id.as_str()) {
            Ok(url) => return Some(url),
            Err(_) => {},
        }
        i = i + 1;
    }
    None
}

/// The text of the URL of the relay through which the peer of a URL is reached.
pub open spec fn relay_of(url: Seq<char>) -> Seq<char> {
    (if uses_tls(url) {
        "https"@
    } else {
        "http"@
    }) + "://"@ + addr(url)
}

/// What reading a text as a relay URL gives, with the message of `url::Url::parse` where it fails.
pub open spec fn relay_at(text: Seq<char>) -> Result<RelayUrlView, Seq<char>> {
    match outside::url_scheme(text) {
        Err(e) => Err(e),
        Ok(_) => outside::relay_url(text),
    }
}

/// The endpoint address made of an endpoint id and a relay URL, each as it was read.
pub open spec fn endpoint_parts(
    id: Result<Seq<char>, Seq<char>>,
    relay: Result<RelayUrlView, Seq<char>>,
) -> Result<EndpointAddrView, ErrorView> {
    match (id, relay) {
        (Err(e), _) => Err(error::caused(ErrorKind::BadPeerId, e)),
        (Ok(_), Err(e)) => Err(error::caused(ErrorKind::BadRelayAddress, e)),
        (Ok(id), Ok(relay)) => Ok(EndpointAddrView { id, relay_urls: seq![relay] }),
    }
}

/// The address of the endpoint that a peer URL stands for.
pub open spec fn endpoint_of(url: Seq<char>) -> Result<EndpointAddrView, ErrorView> {
    match peer_id(url) {
        None => Err(error::plain(ErrorKind::NoPeerId)),
        Some(peer) => endpoint_parts(outside::endpoint_id(peer), relay_at(relay_of(url))),
    }
}

/// The view of a result of reading a text.
pub open spec fn read_text(r: Result<String, String>) -> Result<Seq<char>, Seq<char>> {
    match r {
        Ok(s) => Ok(s@),
        Err(e) => Err(e@),
    }
}

/// The view of a result of reading a relay URL.
pub open spec fn read_relay(r: Result<RelayUrl, String>) -> Result<RelayUrlView, Seq<char>> {
    match r {
        Ok(u) => Ok(u@),
        Err(e) => Err(e@),
    }
}

/// The view of a result that holds an endpoint address.
pub open spec fn endpoint_result(r: Result<EndpointAddr, Error>) -> Result<
    EndpointAddrView,
    ErrorView,
> {
    match r {
        Ok(a) => Ok(a@),
        Err(e) => Err(e@),
    }
}

/// The text of the URL of the relay through which the peer of a URL is reached.
pub fn relay_text(url: &Url) -> (r: String)
    ensures
        r@ == relay_of(url@),
{
    let scheme = if url.uses_tls() {
        "https"
    } else {
        "http"
    };
    let mut t: String = scheme.to_owned();
    t.append("://");
    t.append(url.addr());
    t
}

/// The endpoint address made of an endpoint id and a relay URL, each as it was read.
pub fn endpoint_addr(id: Result<String, String>, relay: Result<RelayUrl, String>) -> (r: Result<
    EndpointAddr,
    Error,
>)
    ensures
        endpoint_result(r) == endpoint_parts(read_text(id), read_relay(relay)),
{
    let id = match id {
        Err(e) => return Err(Error::caused_by(ErrorKind::BadPeerId, e)),
        Ok(id) => id,
    };
    match relay {
        Err(e) => Err(Error::caused_by(ErrorKind::BadRelayAddress, e)),
        Ok(relay_url) => {
            let mut relay_urls: Vec<RelayUrl> = Vec::new();
            relay_urls.push(relay_url);
            let r = EndpointAddr { id, relay_urls };
            assert(r@.relay_urls == seq![relay_url@]);
            Ok(r)
        },
    }
}

/// The address of the endpoint that a peer URL stands for. There is one exactly where the URL ends
/// with an endpoint id and its host and port make a URL.
pub fn endpoint_from_url(url: &Url) -> (r: Result<EndpointAddr, Error>)
    ensures
        endpoint_result(r) == endpoint_of(url@),
        r is Ok <==> match peer_id(url@) {
            Some(peer) => outside::endpoint_id(peer) is Ok && outside::url_scheme(
                relay_of(url@),
            ) is Ok,
            None => false,
        },
        match r {
            Ok(found) => {
                &&& well_written(found@.relay_urls[0])
                &&& reads_back(found@.relay_urls[0])
                &&& outside::is_hex_id(found@.id)
                &&& outside::endpoint_id(found@.id) == Ok::<Seq<char>, Seq<char>>(found@.id)
            },
            Err(_) => true,
        },
{
    let peer = match url.peer_id() {
        None => return Err(Error::new(ErrorKind::NoPeerId)),
        Some(peer) => peer,
    };
    let id = outside::read_endpoint_id(peer);
    let text = relay_text(url);
    let relay = match outside::read_url_scheme(text.as_str()) {
        Err(e) => Err(e),
        Ok(_) => outside::read_relay_url(text.as_str()),
    };
    endpoint_addr(id, relay)
}

} // verus!
