use kitsune2_transport_iroh::error::ErrorKind;
use kitsune2_transport_iroh::url::{
    canonicalize_relay_url, endpoint_addr, endpoint_from_url, get_url_with_first_relay, relay_text,
    used_relay, write_relayed_url, EndpointAddr, Host, RelayUrl, Url,
};

fn endpoint_id(seed: u8) -> String {
    iroh::SecretKey::from_bytes(&[seed; 32]).public().to_string()
}

fn bare_relay(text: &str, scheme: &str, host: Option<Host<String>>) -> RelayUrl {
    RelayUrl {
        text: text.to_string(),
        scheme: scheme.to_string(),
        host,
        port: None,
        known_port: None,
    }
}

#[test]
fn url_keeps_its_text() {
    let url = Url::from_str("wss://a.b:443/relay/foo").unwrap();
    assert_eq!(url.as_str(), "wss://a.b:443/relay/foo");
    assert_eq!(url.peer_id(), Some("foo"));
    assert_eq!(url.addr(), "a.b:443");
    assert!(url.uses_tls());
    assert!(url.same(&url.clone()));
}

#[test]
fn url_parts_agree_with_the_validated_url() {
    for text in [
        "ws://a.b:80",
        "ws://[::1]:80",
        "wss://a.b:443",
        "http://1.1.1.1:999/foo",
        "https://a.b:443/a/b/c",
    ] {
        let url = Url::from_str(text).unwrap();
        let other = kitsune2_api::Url::from_str(text).unwrap();
        assert_eq!(url.as_str(), other.as_str());
        assert_eq!(url.peer_id(), other.peer_id());
        assert_eq!(url.addr(), other.addr());
        assert_eq!(url.uses_tls(), other.uses_tls());
    }
}

#[test]
fn url_without_peer_id() {
    let url = Url::from_str("ws://a.b:80").unwrap();
    assert_eq!(url.peer_id(), None);
    assert_eq!(url.addr(), "a.b:80");
    assert!(!url.uses_tls());
    assert!(!url.same(&Url::from_str("ws://a.b:81").unwrap()));
}

#[test]
fn url_that_is_not_canonical_is_refused() {
    for text in ["ws://a.b", "w://a.b:80", "ws://a.b:80/", "ws://a.b:80//foo", "nonsense"] {
        let e = Url::from_str(text).unwrap_err();
        assert_eq!(e.kind, ErrorKind::InvalidUrl);
        let cause = kitsune2_api::Url::from_str(text).unwrap_err().to_string();
        assert_eq!(e.message(), cause);
        assert_eq!(e.context(), cause);
    }
}

#[test]
fn relay_url_is_read() {
    let relay = RelayUrl::from_str("https://relay.example.com").unwrap();
    assert_eq!(relay.text, "https://relay.example.com./");
    assert_eq!(relay.scheme, "https");
    assert!(matches!(&relay.host, Some(Host::Domain(d)) if d == "relay.example.com."));
    assert_eq!(relay.port, None);
    assert_eq!(relay.known_port, Some(443));
    let copy = relay.clone();
    assert_eq!(copy.text, relay.text);
    assert_eq!(copy.known_port, relay.known_port);
}

#[test]
fn relay_url_that_cannot_be_read() {
    let e = RelayUrl::from_str("not a url").unwrap_err();
    assert_eq!(e.kind, ErrorKind::UnusableRelayUrl);
    let cause = "not a url".parse::<iroh::RelayUrl>().unwrap_err().to_string();
    assert_eq!(e.message(), format!("{cause} (src: None)"));
    let e = used_relay(Err("because".to_string())).unwrap_err();
    assert_eq!(e.message(), "because (src: None)");
}

#[test]
fn default_port_is_written_out() {
    let id = endpoint_id(1);
    let relay = RelayUrl::from_str("https://relay.example.com").unwrap();
    let url = canonicalize_relay_url(&relay, &id).unwrap();
    assert_eq!(url.as_str(), format!("https://relay.example.com.:443/{id}"));
    let relay = RelayUrl::from_str("http://127.0.0.1").unwrap();
    let url = canonicalize_relay_url(&relay, &id).unwrap();
    assert_eq!(url.as_str(), format!("http://127.0.0.1:80/{id}"));
}

#[test]
fn default_port_may_be_written() {
    let id = endpoint_id(1);
    for (without, with, port) in [
        ("https://relay.example.com", "https://relay.example.com:443/", 443),
        ("http://127.0.0.1/", "http://127.0.0.1:80", 80),
        ("https://[::1]", "https://[::1]:443", 443),
    ] {
        let one = RelayUrl::from_str(without).unwrap();
        let other = RelayUrl::from_str(with).unwrap();
        assert_eq!(one.text, other.text);
        assert_eq!((one.port, one.known_port), (None, Some(port)));
        assert_eq!((other.port, other.known_port), (None, Some(port)));
        let url = canonicalize_relay_url(&one, &id).unwrap();
        assert!(url.same(&canonicalize_relay_url(&other, &id).unwrap()));
        assert!(url.as_str().contains(&format!(":{port}/")));
    }
}

#[test]
fn mapped_address_reads_the_same_however_it_is_written() {
    let relay = RelayUrl::from_str("http://[::ffff:1.2.3.4]").unwrap();
    assert_eq!(relay.text, "http://[::ffff:102:304]/");
    assert!(matches!(&relay.host, Some(Host::Ipv6(a)) if a == "::ffff:1.2.3.4"));
    for text in [
        "http://[::ffff:102:304]/",
        "http://[::ffff:102:304]",
        "http://[::ffff:1.2.3.4]:80",
        "http://[::ffff:1.2.3.4]:80/",
    ] {
        let other = RelayUrl::from_str(text).unwrap();
        assert_eq!(other.text, relay.text);
        assert_eq!((other.port, other.known_port), (None, Some(80)));
        assert_eq!(format!("{:?}", other.host), format!("{:?}", relay.host));
    }
    assert!(canonicalize_relay_url(&relay, &endpoint_id(1)).is_err());
}

#[test]
fn other_port_is_known() {
    let relay = RelayUrl::from_str("https://127.0.0.1:80").unwrap();
    assert_eq!((relay.port, relay.known_port), (Some(80), Some(80)));
}

#[test]
fn peer_url_survives_the_round_trip() {
    let id = endpoint_id(9);
    for relay in [
        "https://relay.example.com",
        "http://relay.example.com:80",
        "http://127.0.0.1:4433",
        "http://[::1]",
        "https://[2001:db8::1]:8443",
        "https://b\u{fc}cher.example",
        "http://[::ffff:1.2.3.4]:8080/",
    ] {
        let relay = RelayUrl::from_str(relay).unwrap();
        let url = canonicalize_relay_url(&relay, &id).unwrap();
        let addr = endpoint_from_url(&url).unwrap();
        assert_eq!(addr.id, id);
        assert_eq!(addr.relay_urls.len(), 1);
        let found = &addr.relay_urls[0];
        assert_eq!(found.text, relay.text);
        assert_eq!(found.scheme, relay.scheme);
        assert_eq!(format!("{:?}", found.host), format!("{:?}", relay.host));
        assert_eq!((found.port, found.known_port), (relay.port, relay.known_port));
        assert!(get_url_with_first_relay(&addr).unwrap().same(&url));
    }
}

#[test]
fn ipv6_host_is_written_in_brackets() {
    let id = endpoint_id(1);
    let relay = RelayUrl::from_str("http://[::1]").unwrap();
    assert!(matches!(&relay.host, Some(Host::Ipv6(a)) if a == "::1"));
    let url = canonicalize_relay_url(&relay, &id).unwrap();
    assert_eq!(url.as_str(), format!("http://[::1]:80/{id}"));
}

#[test]
fn written_port_is_kept() {
    let id = endpoint_id(1);
    let relay = RelayUrl::from_str("https://127.0.0.1:8443").unwrap();
    assert_eq!(relay.port, Some(8443));
    let url = canonicalize_relay_url(&relay, &id).unwrap();
    assert_eq!(url.as_str(), format!("https://127.0.0.1:8443/{id}"));
}

#[test]
fn relay_without_host_or_port_is_refused() {
    let e = write_relayed_url(&bare_relay("data:x", "data", None), "id").unwrap_err();
    assert_eq!(e.kind, ErrorKind::RelayWithoutHost);
    assert_eq!(e.message(), "relay url must have host (src: None)");
    let host = Some(Host::Domain("a.b".to_string()));
    let e = write_relayed_url(&bare_relay("foo://a.b", "foo", host), "id").unwrap_err();
    assert_eq!(e.kind, ErrorKind::RelayWithoutPort);
    assert_eq!(e.message(), "relay url must have known default port (src: None)");
}

#[test]
fn first_usable_relay_gives_the_url() {
    let id = endpoint_id(2);
    let addr = EndpointAddr {
        id: id.clone(),
        relay_urls: vec![
            bare_relay("data:x", "data", None),
            RelayUrl::from_str("http://127.0.0.1:1234").unwrap(),
            RelayUrl::from_str("http://127.0.0.1:5678").unwrap(),
        ],
    };
    let url = get_url_with_first_relay(&addr.clone()).unwrap();
    assert_eq!(url.as_str(), format!("http://127.0.0.1:1234/{id}"));
}

#[test]
fn no_usable_relay_gives_no_url() {
    let addr = EndpointAddr { id: endpoint_id(2), relay_urls: vec![] };
    assert!(get_url_with_first_relay(&addr).is_none());
    let addr = EndpointAddr {
        id: endpoint_id(2),
        relay_urls: vec![bare_relay("data:x", "data", None)],
    };
    assert!(get_url_with_first_relay(&addr).is_none());
}

#[test]
fn announced_url_leads_back_to_the_endpoint() {
    let id = endpoint_id(3);
    for relay in ["https://relay.example.com", "http://127.0.0.1:4433", "http://[::1]"] {
        let relay = RelayUrl::from_str(relay).unwrap();
        let url = canonicalize_relay_url(&relay, &id).unwrap();
        assert_eq!(url.peer_id(), Some(id.as_str()));
        let addr = endpoint_from_url(&url).unwrap();
        assert_eq!(addr.id, id);
        assert_eq!(addr.relay_urls.len(), 1);
        assert_eq!(addr.relay_urls[0].text, relay.text);
        assert_eq!(addr.relay_urls[0].known_port, relay.known_port);
    }
}

#[test]
fn relay_of_a_peer_has_its_address() {
    let url = Url::from_str("wss://a.b:443/relay/foo").unwrap();
    assert_eq!(relay_text(&url), "https://a.b:443");
    let url = Url::from_str("ws://a.b:80/foo").unwrap();
    assert_eq!(relay_text(&url), "http://a.b:80");
}

#[test]
fn url_without_peer_id_has_no_endpoint() {
    let url = Url::from_str("http://a.b:80").unwrap();
    let e = endpoint_from_url(&url).unwrap_err();
    assert_eq!(e.kind, ErrorKind::NoPeerId);
    assert_eq!(e.message(), "url must have peer id (src: None)");
}

#[test]
fn peer_id_must_be_an_endpoint_id() {
    let url = Url::from_str("http://a.b:80/foo").unwrap();
    let e = endpoint_from_url(&url).unwrap_err();
    assert_eq!(e.kind, ErrorKind::BadPeerId);
    let cause = "foo".parse::<iroh::EndpointId>().unwrap_err().to_string();
    assert_eq!(e.message(), format!("failed to convert peer id to endpoint id (src: {cause})"));
}

#[test]
fn relay_address_must_be_readable() {
    let e = endpoint_addr(Ok("id".to_string()), Err("no".to_string())).unwrap_err();
    assert_eq!(e.kind, ErrorKind::BadRelayAddress);
    assert_eq!(e.message(), "invalid relay url (src: no)");
    let e = endpoint_addr(Err("bad".to_string()), Err("no".to_string())).unwrap_err();
    assert_eq!(e.kind, ErrorKind::BadPeerId);
}

/// The base 32 form of a key.
fn base32(bytes: &[u8]) -> String {
    let mut bits: String = bytes.iter().map(|b| format!("{b:08b}")).collect();
    while bits.len() % 5 != 0 {
        bits.push('0');
    }
    let digits = b"ABCDEFGHIJKLMNOPQRSTUVWXYZ234567";
    (0..bits.len() / 5)
        .map(|i| digits[usize::from_str_radix(&bits[5 * i..5 * i + 5], 2).unwrap()] as char)
        .collect()
}

#[test]
fn endpoint_id_is_written_in_hexadecimal() {
    let id = endpoint_id(4);
    let key = iroh::SecretKey::from_bytes(&[4; 32]).public();
    let url = Url::from_str(&format!("http://127.0.0.1:80/{}", base32(key.as_bytes()))).unwrap();
    assert_eq!(endpoint_from_url(&url).unwrap().id, id);
    let url = Url::from_str(&format!("http://127.0.0.1:80/{}", id.to_uppercase())).unwrap();
    assert_eq!(endpoint_from_url(&url).unwrap_err().kind, ErrorKind::BadPeerId);
}
