//! The URL that a peer announces leads back to it.
use crate::error::{ErrorKind, ErrorView};
use crate::url::{EndpointAddrView, RelayUrlView};
use crate::{outgoing, outside, text, url};
use vstd::prelude::*;

verus! {

/// What follows the last slash of a URL, behind the scheme, is its peer id.
proof fn last_segment(t: Seq<char>, k: int, slash: int)
    requires
        text::separator_at(t, k),
        k + 3 <= slash < t.len() - 1,
        t[slash] == '/',
        forall|j: int| slash < j < t.len() ==> t[j] != '/',
    ensures
        url::peer_id(t) == Some(t.skip(slash + 1)),
{
    text::separator_found(t, 0, k);
    let first = text::separator_from(t, 0)->0;
    let rest = t.skip(first + 3);
    rest.index_of_last_ensures('/');
    assert(rest[slash - first - 3] == '/');
    let i = rest.index_of_last('/')->0;
    assert(rest[i] == t[first + 3 + i]);
    assert(rest.skip(i + 1) =~= t.skip(slash + 1));
}

/// Whether a relay URL is written so that an endpoint id can follow it: with a port, it has to end
/// in a slash behind its scheme.
pub open spec fn takes_id(relay: RelayUrlView) -> bool {
    relay.port is Some ==> match text::after_separator(relay.text) {
        Some(rest) => rest.len() > 0 && rest.last() == '/',
        None => false,
    }
}

/// Whether a text can be an endpoint id in a URL.
pub open spec fn is_segment(id: Seq<char>) -> bool {
    id.len() > 0 && !id.contains('/')
}

/// An endpoint id that was written out can stand in a URL.
pub proof fn written_id_is_a_segment(id: Seq<char>)
    requires
        outside::is_hex_id(id),
    ensures
        is_segment(id),
{
    if id.contains('/') {
        let i = choose|i: int| 0 <= i < id.len() && id[i] == '/';
        assert(('0' <= id[i] && id[i] <= '9') || ('a' <= id[i] && id[i] <= 'f'));
    }
}

/// The separator behind the scheme of a URL that is written with a host and a port.
proof fn parts_of_written_out(scheme: Seq<char>, host: Seq<char>, port: nat, id: Seq<char>)
    ensures
        ({
            let t = scheme + "://"@ + host + ":"@ + text::decimal(port) + "/"@ + id;
            let address = host + ":"@ + text::decimal(port);
            let slash = scheme.len() + 3int + address.len();
            &&& text::separator_at(t, scheme.len() as int)
            &&& t.len() == slash + 1 + id.len()
            &&& t[slash] == '/'
            &&& t.skip(slash + 1) == id
            &&& t.subrange(scheme.len() + 3int, slash) == address
            &&& t.take(scheme.len() + 3int) == scheme + "://"@
        }),
{
    reveal_strlit("://");
    reveal_strlit(":");
    reveal_strlit("/");
    let t = scheme + "://"@ + host + ":"@ + text::decimal(port) + "/"@ + id;
    let address = host + ":"@ + text::decimal(port);
    let slash = scheme.len() + 3int + address.len();
    assert(t =~= scheme + "://"@ + address + "/"@ + id);
    assert(t.skip(slash + 1) =~= id);
    assert(t.subrange(scheme.len() + 3int, slash) =~= address);
    assert(t.take(scheme.len() + 3int) =~= scheme + "://"@);
}

/// The URL that an endpoint announces ends with its id.
pub proof fn announced_url_names_the_endpoint(relay: RelayUrlView, id: Seq<char>)
    requires
        takes_id(relay),
        is_segment(id),
    ensures
        url::relayed_text(relay, id) matches Ok(t) ==> url::peer_id(t) == Some(id),
{
    if let Ok(t) = url::relayed_text(relay, id) {
        if relay.port is Some {
            let k = text::separator_from(relay.text, 0)->0;
            let slash = relay.text.len() - 1;
            separator_is_found(relay.text, 0);
            assert(relay.text.skip(k + 3).last() == relay.text[slash]);
            assert(text::separator_at(t, k));
            assert forall|j: int| slash < j < t.len() implies t[j] != '/' by {
                assert(t[j] == id[j - slash - 1]);
            }
            last_segment(t, k, slash);
            assert(t.skip(slash + 1) =~= id);
        } else {
            let host = url::host_text(relay.host->0);
            let port = relay.known_port->0 as nat;
            parts_of_written_out(relay.scheme, host, port, id);
            let address = host + ":"@ + text::decimal(port);
            let slash = relay.scheme.len() + 3int + address.len();
            assert forall|j: int| slash < j < t.len() implies t[j] != '/' by {
                assert(t.skip(slash + 1)[j - slash - 1] == t[j]);
                assert(id.contains(id[j - slash - 1]));
            }
            last_segment(t, relay.scheme.len() as int, slash);
        }
    }
}

/// What stands at the first `://` is one.
proof fn separator_is_found(t: Seq<char>, from: int)
    ensures
        text::separator_from(t, from) matches Some(k) ==> from <= k && text::separator_at(t, k) && (
        forall|j: int| from <= j < k ==> !text::separator_at(t, j)),
    decreases t.len() - from,
{
    if from >= 0 && from + 3 <= t.len() && !text::separator_at(t, from) {
        separator_is_found(t, from + 1);
    }
}

/// The host and port of a relay, as the URL that an endpoint announces writes them.
pub open spec fn address_of(relay: RelayUrlView) -> Seq<char> {
    match (relay.port, relay.host, relay.known_port) {
        (None, Some(host), Some(port)) => url::host_text(host) + ":"@ + text::decimal(port as nat),
        _ => url::addr(relay.text),
    }
}

/// The digits of a number are no slashes.
proof fn no_slash_in_decimal(n: nat)
    ensures
        !text::decimal(n).contains('/'),
    decreases n,
{
    if n >= 10 {
        no_slash_in_decimal(n / 10);
        let head = text::decimal(n / 10);
        assert forall|i: int| 0 <= i < text::decimal(n).len() implies text::decimal(n)[i] != '/' by {
            if i < head.len() {
                assert(head.contains(head[i]));
            }
        }
    }
}

/// The host and port of a relay hold no slashes.
proof fn no_slash_in_address(host: Seq<char>, port: nat)
    requires
        !host.contains('/'),
    ensures
        !(host + ":"@ + text::decimal(port)).contains('/'),
{
    reveal_strlit(":");
    no_slash_in_decimal(port);
    let address = host + ":"@ + text::decimal(port);
    assert forall|a: int| 0 <= a < address.len() implies address[a] != '/' by {
        if a < host.len() {
            assert(host.contains(host[a]));
        } else if a > host.len() {
            let d = a - host.len() - 1;
            assert(address[a] == text::decimal(port)[d]);
            assert(text::decimal(port).contains(text::decimal(port)[d]));
        }
    }
}

/// The scheme, host and port of a URL that begins like one over HTTP.
proof fn http_parts(t: Seq<char>, scheme: Seq<char>, slash: int)
    requires
        scheme == "http"@ || scheme == "https"@,
        text::begins_with(t, scheme + "://"@),
        scheme.len() + 3 <= slash < t.len(),
        t[slash] == '/',
        forall|j: int| scheme.len() + 3 <= j < slash ==> t[j] != '/',
    ensures
        url::addr(t) == t.subrange(scheme.len() + 3int, slash),
        url::uses_tls(t) <==> scheme == "https"@,
{
    reveal_strlit("http");
    reveal_strlit("https");
    reveal_strlit("://");
    reveal_strlit("wss://");
    reveal_strlit("https://");
    let n = scheme.len() as int;
    let p = scheme + "://"@;
    assert forall|i: int| 0 <= i < n + 3 implies t[i] == p[i] by {
        assert(t.take(n + 3)[i] == t[i]);
    }
    assert(text::separator_at(t, n));
    text::separator_found(t, 0, n);
    let first = text::separator_from(t, 0)->0;
    assert(first == n) by {
        assert(t[first] == p[first]);
    }
    let rest = t.skip(n + 3);
    rest.index_of_first_ensures('/');
    assert(rest[slash - n - 3] == '/');
    let i = rest.index_of_first('/')->0;
    assert(rest[i] == t[n + 3 + i]);
    assert(rest.take(i) =~= t.subrange(n + 3, slash));
    assert(t.take(6)[0] == t[0]);
    assert("wss://"@[0] == 'w');
    assert(!text::begins_with(t, "wss://"@));
    if scheme == "https"@ {
        assert("https://"@ =~= scheme + "://"@);
    } else {
        assert(t[4] == ':');
        if text::begins_with(t, "https://"@) {
            assert(t.take(8)[4] == 's');
        }
    }
}

/// The URL that an endpoint announces leads to its relay: to the same scheme, host and port.
pub proof fn announced_url_leads_to_the_relay(relay: RelayUrlView, id: Seq<char>)
    requires
        url::over_http(relay),
        url::well_written(relay),
    ensures
        url::relayed_text(relay, id) matches Ok(t) ==> url::relay_of(t) == relay.scheme + "://"@
            + address_of(relay),
{
    if let Ok(t) = url::relayed_text(relay, id) {
        let n = relay.scheme.len() as int;
        reveal_strlit("://");
        if relay.port is Some {
            let rest = relay.text.skip(n + 3);
            rest.index_of_first_ensures('/');
            let i = rest.index_of_first('/')->0;
            let slash = n + 3 + i;
            assert(rest[i] == relay.text[slash]);
            assert forall|j: int| n + 3 <= j < slash implies relay.text[j] != '/' by {
                assert(rest[j - n - 3] == relay.text[j]);
            }
            assert(t.take(n + 3) =~= relay.text.take(n + 3));
            http_parts(relay.text, relay.scheme, slash);
            http_parts(t, relay.scheme, slash);
            assert(t.subrange(n + 3, slash) =~= relay.text.subrange(n + 3, slash));
        } else {
            let host = url::host_text(relay.host->0);
            let port = relay.known_port->0 as nat;
            let address = host + ":"@ + text::decimal(port);
            let slash = n + 3 + address.len();
            parts_of_written_out(relay.scheme, host, port, id);
            no_slash_in_address(host, port);
            assert forall|j: int| n + 3 <= j < slash implies t[j] != '/' by {
                assert(t.subrange(n + 3, slash)[j - n - 3] == t[j]);
                assert(address.contains(address[j - n - 3]));
            }
            http_parts(t, relay.scheme, slash);
        }
    }
}

/// The URL that an endpoint announces stands for that endpoint: whoever reads it finds the same
/// id, where the id reads as itself, and looks for the relay under the same scheme, host and port.
pub proof fn announced_url_stands_for_the_endpoint(relay: RelayUrlView, id: Seq<char>)
    requires
        takes_id(relay),
        url::over_http(relay),
        url::well_written(relay),
        is_segment(id),
    ensures
        url::relayed_text(relay, id) matches Ok(t) ==> url::endpoint_of(t) == url::endpoint_parts(
            outside::endpoint_id(id),
            url::relay_at(relay.scheme + "://"@ + address_of(relay)),
        ),
        outside::endpoint_id(id) == Ok::<Seq<char>, Seq<char>>(id) ==> match url::relayed_text(
            relay,
            id,
        ) {
            Ok(t) => match url::endpoint_of(t) {
                Ok(found) => found.id == id && found.relay_urls.len() == 1,
                Err(e) => e.kind == ErrorKind::BadRelayAddress,
            },
            Err(_) => true,
        },
{
    announced_url_names_the_endpoint(relay, id);
    announced_url_leads_to_the_relay(relay, id);
}

/// A bare relay URL can be followed by an endpoint id, and announces its host and port.
proof fn bare_relay_parts(relay: RelayUrlView)
    requires
        url::is_bare(relay),
        url::well_written(relay),
    ensures
        takes_id(relay),
        relay.scheme + "://"@ + address_of(relay) == if relay.port is Some {
            relay.text.drop_last()
        } else {
            url::written_out(relay)
        },
{
    reveal_strlit("://");
    let t = relay.text;
    let n = relay.scheme.len() as int;
    let slash = t.len() - 1;
    if relay.port is Some {
        http_parts(t, relay.scheme, slash);
        let p = relay.scheme + "://"@;
        assert forall|i: int| 0 <= i < n + 3 implies t[i] == p[i] by {
            assert(t.take(n + 3)[i] == t[i]);
        }
        assert(p + t.subrange(n + 3, slash) =~= t.drop_last());
        assert(text::separator_at(t, n));
        text::separator_found(t, 0, n);
        let first = text::separator_from(t, 0)->0;
        assert(t.skip(first + 3).last() == t[slash]);
    } else {
        assert(relay.scheme + "://"@ + address_of(relay) =~= url::written_out(relay));
    }
}

/// A peer URL survives the way to an endpoint address and back: where the relay reads as it was
/// written, and the id as itself, the URL that an endpoint announces stands for that id and that
/// relay alone, and the first URL of that address is the announced one again.
pub proof fn announced_url_survives_the_round_trip(relay: RelayUrlView, id: Seq<char>)
    requires
        takes_id(relay),
        url::over_http(relay),
        url::well_written(relay),
        is_segment(id),
    ensures
        ({
            &&& outside::endpoint_id(id) == Ok::<Seq<char>, Seq<char>>(id)
            &&& url::relay_at(relay.scheme + "://"@ + address_of(relay)) == Ok::<
                RelayUrlView,
                Seq<char>,
            >(relay)
        }) ==> match url::relayed_url(relay, id) {
            Ok(t) => {
                let found = EndpointAddrView { id, relay_urls: seq![relay] };
                &&& url::endpoint_of(t) == Ok::<EndpointAddrView, ErrorView>(found)
                &&& url::first_relayed_url(found, 0) == Some(t)
            },
            Err(_) => true,
        },
{
    announced_url_stands_for_the_endpoint(relay, id);
}

/// A peer URL by a bare relay survives the way to an endpoint address and back: it stands for the
/// endpoint id and the relay that it was made from, and the first URL of that address is that peer
/// URL again. The relay and the id are such as reading them gives.
pub proof fn url_by_a_bare_relay_survives_the_round_trip(relay: RelayUrlView, id: Seq<char>)
    requires
        url::is_bare(relay),
        url::well_written(relay),
        outside::is_hex_id(id),
    ensures
        url::reads_back(relay) && outside::endpoint_id(id) == Ok::<Seq<char>, Seq<char>>(id)
            ==> match url::relayed_url(relay, id) {
            Ok(t) => {
                let found = EndpointAddrView { id, relay_urls: seq![relay] };
                &&& url::endpoint_of(t) == Ok::<EndpointAddrView, ErrorView>(found)
                &&& url::first_relayed_url(found, 0) == Some(t)
            },
            Err(_) => true,
        },
{
    bare_relay_parts(relay);
    written_id_is_a_segment(id);
    announced_url_survives_the_round_trip(relay, id);
}

/// Relays over HTTP with one scheme, host and port give one peer URL, which names the port: it
/// makes no difference whether a default port was written.
pub proof fn one_url_with_or_without_default_port(
    one: RelayUrlView,
    other: RelayUrlView,
    id: Seq<char>,
)
    requires
        url::over_http(one),
        url::well_written(one),
        url::well_written(other),
        one.scheme == other.scheme,
        one.host == other.host,
        one.known_port == Some(url::default_port(one.scheme)),
        other.known_port == one.known_port,
    ensures
        url::relayed_text(one, id) == url::relayed_text(other, id),
        url::relayed_text(one, id) == Ok::<Seq<char>, ErrorView>(
            url::written_out(one) + "/"@ + id,
        ),
        url::relayed_url(one, id) == url::relayed_url(other, id),
{
}

/// A bare relay without a port reads the same with the default port of its scheme written out, and
/// the peer URL by it names that port.
pub proof fn default_port_may_be_written(relay: RelayUrlView, id: Seq<char>)
    requires
        url::is_bare(relay),
        url::well_written(relay),
        relay.port is None,
    ensures
        ({
            let port = text::decimal(url::default_port(relay.scheme) as nat);
            let with = relay.scheme + "://"@ + url::host_text(relay.host->0) + ":"@ + port + "/"@;
            &&& url::relayed_text(relay, id) == Ok::<Seq<char>, ErrorView>(with + id)
            &&& url::reads_back(relay) ==> {
                &&& url::relay_at(relay.text) == Ok::<RelayUrlView, Seq<char>>(relay)
                &&& url::relay_at(with) == Ok::<RelayUrlView, Seq<char>>(relay)
            }
        }),
{
}

/// A peer to which messages can be sent has an id.
pub proof fn reachable_peer_has_an_id(
    remote_url: Seq<char>,
    data: Seq<u8>,
    connect_timeout_s: u32,
    max_frame_bytes: usize,
)
    ensures
        outgoing::outgoing(remote_url, data, connect_timeout_s, max_frame_bytes) is Ok
            ==> url::peer_id(remote_url) is Some,
{
}

/// Which relays are reached over HTTP, and their default ports.
pub proof fn relays_over_http(relay: RelayUrlView)
    ensures
        url::over_http(relay) <==> relay.scheme == "http"@ || relay.scheme == "https"@,
        relay.scheme == "http"@ ==> url::default_port(relay.scheme) == 80,
        relay.scheme == "https"@ ==> url::default_port(relay.scheme) == 443,
        url::written_out(relay) == relay.scheme + "://"@ + url::host_text(relay.host->0) + ":"@
            + text::decimal(relay.known_port->0 as nat),
{
    reveal_strlit("http");
    reveal_strlit("https");
    assert("http"@.len() != "https"@.len());
}

} // verus!
