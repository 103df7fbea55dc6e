//! How numbers, URLs and errors are written and taken apart.
use crate::error::{ErrorKind, ErrorView};
use crate::url::{EndpointAddrView, Host, RelayUrlView};
use crate::{error, outside, text, url};
use vstd::prelude::*;
use vstd::string::*;

verus! {

/// The number that decimal digits stand for.
pub open spec fn value(digits: Seq<char>) -> int
    decreases digits.len(),
{
    if digits.len() == 0 {
        0
    } else {
        10 * value(digits.drop_last()) + (digits.last() as int - '0' as int)
    }
}

/// A number is written in decimal digits that stand for it, without leading zeros.
pub proof fn numerals_stand_for_numbers(n: nat)
    ensures
        value(text::decimal(n)) == n,
        text::decimal(n).len() > 0,
        forall|i: int|
            0 <= i < text::decimal(n).len() ==> '0' <= #[trigger] text::decimal(n)[i]
                && text::decimal(n)[i] <= '9',
        text::decimal(n)[0] == '0' ==> n == 0 && text::decimal(n).len() == 1,
    decreases n,
{
    let d = text::decimal(n);
    if n < 10 {
        assert(d.drop_last() =~= Seq::empty());
        assert(value(d.drop_last()) == 0);
    } else {
        numerals_stand_for_numbers(n / 10);
        let head = text::decimal(n / 10);
        assert(d.drop_last() =~= head);
        assert(d.last() == text::digit(n % 10));
        assert(d[0] == head[0]);
        assert forall|i: int| 0 <= i < d.len() implies '0' <= #[trigger] d[i] && d[i] <= '9' by {
            if i < head.len() {
                assert(d[i] == head[i]);
            }
        }
        if head[0] == '0' {
            assert(n / 10 == 0);
        }
    }
}

/// A text begins with a prefix exactly where it is that prefix and something more.
pub proof fn beginnings(s: Seq<char>, prefix: Seq<char>)
    ensures
        text::begins_with(s, prefix) <==> exists|rest: Seq<char>| s == #[trigger] (prefix + rest),
        text::begins_with(prefix + s, prefix),
{
    if text::begins_with(s, prefix) {
        assert(s =~= prefix + s.skip(prefix.len() as int));
    }
    if exists|rest: Seq<char>| s == #[trigger] (prefix + rest) {
        let rest = choose|rest: Seq<char>| s == #[trigger] (prefix + rest);
        assert(s.take(prefix.len() as int) =~= prefix);
    }
    assert((prefix + s).take(prefix.len() as int) =~= prefix);
}

/// Whether a scheme can stand in front of `://`.
pub open spec fn is_scheme(scheme: Seq<char>) -> bool {
    !scheme.contains(':')
}

/// The first `://` of a text that begins with a scheme and `://` stands behind the scheme.
proof fn scheme_comes_first(scheme: Seq<char>, rest: Seq<char>)
    requires
        is_scheme(scheme),
    ensures
        text::after_separator(scheme + "://"@ + rest) == Some(rest),
        text::separator_from(scheme + "://"@ + rest, 0) == Some(scheme.len() as int),
{
    reveal_strlit("://");
    let t = scheme + "://"@ + rest;
    let n = scheme.len() as int;
    assert(text::separator_at(t, n));
    text::separator_found(t, 0, n);
    let k = text::separator_from(t, 0)->0;
    if k < n {
        assert(t[k] == scheme[k]);
        assert(scheme.contains(scheme[k]));
    }
    assert(t.skip(n + 3) =~= rest);
}

/// The host and port of a URL stand between its scheme and the next slash, or its end.
pub proof fn address_of_a_url(scheme: Seq<char>, address: Seq<char>, path: Seq<char>)
    requires
        is_scheme(scheme),
        !address.contains('/'),
    ensures
        url::addr(scheme + "://"@ + address) == address,
        url::addr(scheme + "://"@ + address + "/"@ + path) == address,
{
    reveal_strlit("/");
    scheme_comes_first(scheme, address);
    address.index_of_first_ensures('/');
    let rest = address + "/"@ + path;
    assert(scheme + "://"@ + address + "/"@ + path =~= scheme + "://"@ + rest);
    scheme_comes_first(scheme, rest);
    rest.index_of_first_ensures('/');
    assert(rest[address.len() as int] == '/');
    let i = rest.index_of_first('/')->0;
    if i < address.len() {
        assert(rest[i] == address[i]);
        assert(address.contains(address[i]));
    }
    assert(rest.take(i) =~= address);
}

/// A URL ends with a peer id exactly where a slash behind the scheme is followed by one more segment,
/// which is that id.
pub proof fn peer_id_of_a_url(scheme: Seq<char>, address: Seq<char>, path: Seq<char>, id: Seq<char>)
    requires
        is_scheme(scheme),
        !address.contains('/'),
        !id.contains('/'),
    ensures
        url::peer_id(scheme + "://"@ + address) is None,
        url::peer_id(scheme + "://"@ + path + "/"@ + id) == if id.len() == 0 {
            None::<Seq<char>>
        } else {
            Some(id)
        },
{
    reveal_strlit("/");
    scheme_comes_first(scheme, address);
    address.index_of_last_ensures('/');
    let rest = path + "/"@ + id;
    assert(scheme + "://"@ + path + "/"@ + id =~= scheme + "://"@ + rest);
    scheme_comes_first(scheme, rest);
    rest.index_of_last_ensures('/');
    assert(rest[path.len() as int] == '/');
    let i = rest.index_of_last('/')->0;
    if i > path.len() {
        assert(rest[i] == id[i - path.len() - 1]);
        assert(id.contains(id[i - path.len() - 1]));
    }
    assert(rest.skip(i + 1) =~= id);
}

/// A URL stands for an encrypted connection exactly where its scheme is one of the two that do.
pub proof fn encrypted_schemes(scheme: Seq<char>, rest: Seq<char>)
    requires
        is_scheme(scheme),
    ensures
        url::uses_tls(scheme + "://"@ + rest) <==> scheme == "https"@ || scheme == "wss"@,
{
    reveal_strlit("://");
    reveal_strlit("https");
    reveal_strlit("wss");
    reveal_strlit("https://");
    reveal_strlit("wss://");
    let t = scheme + "://"@ + rest;
    let n = scheme.len() as int;
    if scheme == "https"@ {
        assert(t.take(8) =~= "https://"@);
    }
    if scheme == "wss"@ {
        assert(t.take(6) =~= "wss://"@);
    }
    if text::begins_with(t, "https://"@) {
        tls_scheme(scheme, rest, "https"@);
    }
    if text::begins_with(t, "wss://"@) {
        tls_scheme(scheme, rest, "wss"@);
    }
}

/// A URL that begins with a scheme and a colon has that scheme.
proof fn tls_scheme(scheme: Seq<char>, rest: Seq<char>, other: Seq<char>)
    requires
        is_scheme(scheme),
        other == "https"@ && text::begins_with(scheme + "://"@ + rest, "https://"@) || other
            == "wss"@ && text::begins_with(scheme + "://"@ + rest, "wss://"@),
    ensures
        scheme == other,
{
    reveal_strlit("://");
    reveal_strlit("https");
    reveal_strlit("wss");
    reveal_strlit("https://");
    reveal_strlit("wss://");
    let t = scheme + "://"@ + rest;
    let n = scheme.len() as int;
    let m = other.len() as int;
    let head = if other == "https"@ {
        "https://"@
    } else {
        "wss://"@
    };
    assert(other == "https"@ || other == "wss"@);
    assert(text::begins_with(t, head));
    assert forall|i: int| 0 <= i < head.len() implies t[i] == head[i] by {
        assert(t.take(head.len() as int)[i] == t[i]);
    }
    assert(head[m] == ':');
    assert(forall|i: int| 0 <= i < m ==> head[i] == other[i]);
    if n > m {
        assert(t[m] == scheme[m]);
        assert(scheme.contains(scheme[m]));
    }
    if n < m {
        assert(t[n] == ':');
        assert(head[n] == ':');
        assert(other[n] == ':');
    }
    assert(n == m);
    assert(scheme =~= other) by {
        assert forall|i: int| 0 <= i < n implies scheme[i] == other[i] by {
            assert(t[i] == scheme[i]);
        }
    }
}

/// The relay of a peer is reached under the host and port of the peer's URL, encrypted where that
/// URL is.
pub proof fn relay_of_a_peer(scheme: Seq<char>, address: Seq<char>, path: Seq<char>)
    requires
        is_scheme(scheme),
        !address.contains('/'),
    ensures
        scheme == "https"@ || scheme == "wss"@ ==> url::relay_of(
            scheme + "://"@ + address + "/"@ + path,
        ) == "https"@ + "://"@ + address,
        !(scheme == "https"@ || scheme == "wss"@) ==> url::relay_of(
            scheme + "://"@ + address + "/"@ + path,
        ) == "http"@ + "://"@ + address,
{
    address_of_a_url(scheme, address, path);
    let rest = address + "/"@ + path;
    assert(scheme + "://"@ + address + "/"@ + path =~= scheme + "://"@ + rest);
    encrypted_schemes(scheme, rest);
}

/// A text is a peer URL exactly where it is accepted, and then it is kept as it is. A refused one
/// gives the message with which it was refused.
pub proof fn accepted_text_is_the_url(t: Seq<char>)
    ensures
        match (outside::url_rejection(t), url::parse(t)) {
            (None, Ok(u)) => u == t,
            (Some(message), Err(e)) => e.kind == ErrorKind::InvalidUrl && e.source == Some(message),
            _ => false,
        },
{
}

/// How the URL of an endpoint with a home relay is written: the relay URL and the id, where the
/// relay URL writes a port, or else the scheme, the host, the known port and the id. An IPv6 address
/// is written in brackets. Without a host, or without a known port, there is none.
pub proof fn peer_url_is_written(relay: RelayUrlView, id: Seq<char>)
    ensures
        match url::relayed_text(relay, id) {
            Ok(t) => {
                let host = match relay.host {
                    Some(Host::Domain(name)) => name,
                    Some(Host::Ipv4(address)) => address,
                    Some(Host::Ipv6(address)) => "["@ + address + "]"@,
                    None => Seq::empty(),
                };
                if relay.port is Some {
                    t == relay.text + id
                } else {
                    &&& relay.host is Some
                    &&& relay.known_port is Some
                    &&& t == relay.scheme + "://"@ + host + ":"@ + text::decimal(
                        relay.known_port->0 as nat,
                    ) + "/"@ + id
                }
            },
            Err(e) => {
                &&& relay.port is None
                &&& e.source is None
                &&& e.kind == ErrorKind::RelayWithoutHost && relay.host is None || e.kind
                    == ErrorKind::RelayWithoutPort && relay.host is Some && relay.known_port is None
            },
        },
        match (url::relayed_text(relay, id), url::relayed_url(relay, id)) {
            (Ok(t), Ok(u)) => u == t && outside::url_rejection(t) is None,
            (Ok(t), Err(e)) => e.kind == ErrorKind::InvalidUrl && e.source is Some && e.source
                == outside::url_rejection(t),
            (Err(e), Err(f)) => f == e,
            (Err(_), Ok(_)) => false,
        },
{
}

/// The URL of an endpoint is by the first of its relays that gives one; there is none exactly where
/// no relay gives one.
pub proof fn first_usable_relay_gives_the_url(addr: EndpointAddrView, from: int)
    requires
        0 <= from,
    ensures
        match url::first_relayed_url(addr, from) {
            Some(t) => exists|k: int|
                #![trigger addr.relay_urls[k]]
                from <= k < addr.relay_urls.len() && url::relayed_url(addr.relay_urls[k], addr.id)
                    == Ok::<Seq<char>, ErrorView>(t) && forall|j: int|
                    from <= j < k ==> url::relayed_url(#[trigger] addr.relay_urls[j], addr.id) is Err,
            None => forall|j: int|
                from <= j < addr.relay_urls.len() ==> url::relayed_url(
                    #[trigger] addr.relay_urls[j],
                    addr.id,
                ) is Err,
        },
    decreases addr.relay_urls.len() - from,
{
    if from < addr.relay_urls.len() {
        let first = addr.relay_urls[from];
        if url::relayed_url(first, addr.id) is Err {
            first_usable_relay_gives_the_url(addr, from + 1);
            if let Some(t) = url::first_relayed_url(addr, from + 1) {
                let k = choose|k: int|
                    #![trigger addr.relay_urls[k]]
                    from + 1 <= k < addr.relay_urls.len() && url::relayed_url(
                        addr.relay_urls[k],
                        addr.id,
                    ) == Ok::<Seq<char>, ErrorView>(t) && forall|j: int|
                        from + 1 <= j < k ==> url::relayed_url(
                            #[trigger] addr.relay_urls[j],
                            addr.id,
                        ) is Err;
                assert(url::relayed_url(addr.relay_urls[k], addr.id) == Ok::<
                    Seq<char>,
                    ErrorView,
                >(t));
            }
        }
    }
}

/// A peer URL stands for the endpoint id that it ends with and for one relay, which is read from its
/// host and port. The first of these that is missing or cannot be read is the error.
pub proof fn endpoint_of_a_peer(u: Seq<char>)
    ensures
        match (url::peer_id(u), url::endpoint_of(u)) {
            (None, Err(e)) => e.kind == ErrorKind::NoPeerId && e.source is None,
            (None, Ok(_)) => false,
            (Some(peer), found) => match (outside::endpoint_id(peer), url::relay_at(url::relay_of(u))) {
                (Err(cause), _) => found matches Err(e) && e.kind == ErrorKind::BadPeerId
                    && e.source == Some(cause),
                (Ok(_), Err(cause)) => found matches Err(e) && e.kind == ErrorKind::BadRelayAddress
                    && e.source == Some(cause),
                (Ok(id), Ok(relay)) => found matches Ok(a) && a.id == id && a.relay_urls.len() == 1
                    && a.relay_urls[0] == relay,
            },
        },
{
}

/// An endpoint address is made of the id and the relay as they were read; what could not be read is
/// the error, the id before the relay.
pub proof fn endpoint_is_made_of_its_parts(
    id: Result<Seq<char>, Seq<char>>,
    relay: Result<RelayUrlView, Seq<char>>,
)
    ensures
        match (id, relay, url::endpoint_parts(id, relay)) {
            (Ok(id), Ok(relay), Ok(a)) => a.id == id && a.relay_urls.len() == 1 && a.relay_urls[0]
                == relay,
            (Err(cause), _, Err(e)) => e.kind == ErrorKind::BadPeerId && e.source == Some(cause),
            (Ok(_), Err(cause), Err(e)) => e.kind == ErrorKind::BadRelayAddress && e.source == Some(
                cause,
            ),
            _ => false,
        },
{
}

/// A relay is read where the scheme of its URL is, and the message of that reading is the one that is
/// heard where it is not.
pub proof fn relay_is_read(t: Seq<char>)
    ensures
        match outside::url_scheme(t) {
            Ok(_) => url::relay_at(t) == outside::relay_url(t),
            Err(message) => url::relay_at(t) == Err::<RelayUrlView, Seq<char>>(message),
        },
        match (outside::relay_url(t), url::relay_parse(outside::relay_url(t))) {
            (Ok(relay), Ok(used)) => used == relay,
            (Err(message), Err(e)) => e.kind == ErrorKind::UnusableRelayUrl && e.source == Some(
                message,
            ),
            _ => false,
        },
{
}

/// The message of an error is what it says and, in brackets, its cause, or `None` where there is
/// none. Errors that stand for the error of somebody else say what that one says.
pub proof fn message_tells_the_cause(e: ErrorView)
    ensures
        ({
            let cause = match e.source {
                Some(source) => source,
                None => "None"@,
            };
            match e.kind {
                ErrorKind::InvalidUrl | ErrorKind::Handler => e.message() == cause && e.context()
                    == cause,
                ErrorKind::UnusableRelayUrl => e.context() == cause && e.message() == cause
                    + " (src: None)"@,
                _ => e.message() == e.context() + " (src: "@ + cause + ")"@,
            }
        }),
        e.kind matches ErrorKind::UnknownFrameType(value) ==> e.context()
            == "unknown iroh frame type: "@ + text::decimal(value as nat),
        error::plain(e.kind).kind == e.kind && error::plain(e.kind).source is None,
        forall|cause: Seq<char>|
            (#[trigger] error::caused(e.kind, cause)).kind == e.kind && error::caused(
                e.kind,
                cause,
            ).source == Some(cause),
{
}

/// What an error says does not depend on its cause, unless it stands for the error of somebody else.
pub proof fn context_does_not_depend_on_the_cause(e: ErrorView, other: ErrorView)
    requires
        e.kind == other.kind,
        !(e.kind is InvalidUrl || e.kind is Handler || e.kind is UnusableRelayUrl),
    ensures
        e.context() == other.context(),
{
}

} // verus!
