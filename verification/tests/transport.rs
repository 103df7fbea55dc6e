use kitsune2_transport_iroh::config::check_relay_scheme;
use kitsune2_transport_iroh::connection_context::{
    ConnectionContext, ConnectionContextParams, ConnectionType,
};
use kitsune2_transport_iroh::error::ErrorKind;
use kitsune2_transport_iroh::peer_map::PeerMap;
use kitsune2_transport_iroh::startup::{
    accept_step, alpn, AcceptAction, AcceptEvent, EndpointOptions, LocalUrl, Startup,
    StartupAction, StartupEvent, StartupPhase, WatchAction, WatchEvent, RELAY_TIMEOUT_S,
};
use kitsune2_transport_iroh::transport::{disconnect, dump_network_stats, has_peer_id};
use kitsune2_transport_iroh::url::{EndpointAddr, RelayUrl, Url};
use kitsune2_transport_iroh::{IrohTransportConfig, IrohTransportFactory, IrohTransportModConfig};

fn url(text: &str) -> Url {
    Url::from_str(text).unwrap()
}

fn with_relay(relay: &str, allow: bool) -> IrohTransportModConfig {
    IrohTransportModConfig {
        iroh_transport: IrohTransportConfig {
            relay_url: Some(relay.to_string()),
            relay_allow_plain_text: allow,
            ..IrohTransportConfig::default()
        },
    }
}

#[test]
fn default_configuration() {
    let config = IrohTransportFactory::create().default_config().iroh_transport;
    assert_eq!(config.relay_url, None);
    assert!(!config.relay_allow_plain_text);
    assert_eq!(config.max_frame_bytes, 1024 * 1024);
    assert_eq!(config.connect_timeout_s, 60);
    let module = IrohTransportModConfig::default();
    assert!(IrohTransportFactory.validate_config(&module).is_ok());
}

#[test]
fn plain_text_relay_has_to_be_allowed() {
    let factory = IrohTransportFactory::create();
    assert!(factory.validate_config(&with_relay("https://a.b", false)).is_ok());
    assert!(factory.validate_config(&with_relay("http://a.b", true)).is_ok());
    let e = factory.validate_config(&with_relay("http://a.b", false)).unwrap_err();
    assert_eq!(e.kind, ErrorKind::PlainTextRelay);
    assert_eq!(e.message(), "disallowed plaintext relay url (src: None)");
    let e = factory.validate_config(&with_relay("HTTP://a.b", false)).unwrap_err();
    assert_eq!(e.kind, ErrorKind::PlainTextRelay);
    let e = factory.validate_config(&with_relay("nonsense", true)).unwrap_err();
    assert_eq!(e.kind, ErrorKind::BadRelayConfig);
    assert_eq!(e.message(), "invalid relay URL (src: relative URL without a base)");
}

#[test]
fn relay_scheme_is_checked() {
    assert!(check_relay_scheme(Ok("https".to_string()), false).is_ok());
    assert!(check_relay_scheme(Ok("ws".to_string()), false).is_ok());
    assert!(check_relay_scheme(Ok("http".to_string()), true).is_ok());
    assert!(check_relay_scheme(Ok("http".to_string()), false).is_err());
    assert!(check_relay_scheme(Err("no".to_string()), true).is_err());
}

#[test]
fn endpoint_is_bound_with_the_configured_relay() {
    let config = with_relay("https://127.0.0.1:4433", false).iroh_transport;
    let options = EndpointOptions::new(&config).unwrap();
    assert_eq!(options.relay.unwrap().text, "https://127.0.0.1:4433/");
    assert_eq!(options.alpns, vec![b"kitsune2/0".to_vec()]);
    let options = EndpointOptions::new(&IrohTransportConfig::default()).unwrap();
    assert!(options.relay.is_none());
    assert_eq!(options.alpns, vec![alpn()]);
    let config = with_relay("nonsense", false).iroh_transport;
    let e = EndpointOptions::new(&config).unwrap_err();
    let cause = "nonsense".parse::<iroh::RelayUrl>().unwrap_err().to_string();
    assert_eq!(e.message(), format!("{cause} (src: None)"));
}

#[test]
fn transport_starts_with_its_first_url() {
    let mut startup = Startup::new();
    assert_eq!(startup.phase(), StartupPhase::Binding);
    assert!(!startup.expects(&StartupEvent::UrlReady));
    let action = startup.step(StartupEvent::Bound(Ok(())));
    assert!(matches!(action, StartupAction::AwaitUrl(s) if s == RELAY_TIMEOUT_S));
    assert_eq!(RELAY_TIMEOUT_S, 30);
    assert_eq!(startup.phase(), StartupPhase::AwaitingUrl);
    assert!(matches!(startup.step(StartupEvent::UrlReady), StartupAction::Finish(Ok(()))));
    assert_eq!(startup.phase(), StartupPhase::Done);
}

#[test]
fn transport_that_cannot_start() {
    match Startup::new().step(StartupEvent::Bound(Err("in use".to_string()))) {
        StartupAction::Finish(Err(e)) => {
            assert_eq!(e.message(), "failed to bind iroh endpoint (src: in use)")
        }
        _ => panic!("started"),
    }
    for (event, message) in [
        (StartupEvent::TimedOut, "timed out waiting for relay connection (30s) (src: None)"),
        (StartupEvent::WatchEnded, "watch_addr_task ended before providing a URL (src: None)"),
    ] {
        let mut startup = Startup::new();
        startup.step(StartupEvent::Bound(Ok(())));
        match startup.step(event) {
            StartupAction::Finish(Err(e)) => assert_eq!(e.message(), message),
            _ => panic!("started"),
        }
    }
}

fn address(relays: &[&str]) -> EndpointAddr {
    EndpointAddr {
        id: "peer".to_string(),
        relay_urls: relays.iter().map(|r| RelayUrl::from_str(r).unwrap()).collect(),
    }
}

#[test]
fn local_url_follows_the_address() {
    let mut local = LocalUrl::new(true);
    assert!(local.url().is_none());
    let update = local.update(&address(&[]));
    assert!(!update.ready && update.listening.is_none() && local.url().is_none());
    let update = local.update(&address(&["http://127.0.0.1:1111"]));
    assert!(update.ready);
    assert_eq!(update.listening.unwrap().as_str(), "http://127.0.0.1:1111/peer");
    assert_eq!(local.url().unwrap().as_str(), "http://127.0.0.1:1111/peer");
    let update = local.update(&address(&["http://127.0.0.1:1111"]));
    assert!(!update.ready && update.listening.is_some());
    let update = local.update(&address(&["http://127.0.0.1:2222"]));
    assert!(!update.ready);
    assert_eq!(update.listening.unwrap().as_str(), "http://127.0.0.1:2222/peer");
    local.update(&address(&[]));
    assert_eq!(local.url().unwrap().as_str(), "http://127.0.0.1:2222/peer");
}

#[test]
fn address_is_followed_until_an_error() {
    let mut local = LocalUrl::new(true);
    let action = local.watch(WatchEvent::Updated(address(&[])));
    assert!(matches!(action, WatchAction::GoOn(u) if !u.ready && u.listening.is_none()));
    let mut early = LocalUrl::new(true);
    let action = early.watch(WatchEvent::Failed("gone".to_string()));
    assert!(matches!(action, WatchAction::Stop(true)));
    let action = local.watch(WatchEvent::Updated(address(&["http://127.0.0.1:1111"])));
    assert!(matches!(action, WatchAction::GoOn(u) if u.ready && u.listening.is_some()));
    let action = local.watch(WatchEvent::Failed("gone".to_string()));
    assert!(matches!(action, WatchAction::Stop(false)));
    assert_eq!(local.url().unwrap().as_str(), "http://127.0.0.1:1111/peer");
}

#[test]
fn nobody_waits_for_the_url() {
    let mut local = LocalUrl::new(false);
    assert!(!local.update(&address(&["http://127.0.0.1:1111"])).ready);
}

#[test]
fn incoming_connections_are_opened() {
    assert!(matches!(accept_step(AcceptEvent::Incoming, 9), AcceptAction::AwaitHandshake));
    assert!(matches!(accept_step(AcceptEvent::HandshakeFailed, 9), AcceptAction::AcceptNext));
    assert!(matches!(accept_step(AcceptEvent::EndpointClosed, 9), AcceptAction::Stop));
    match accept_step(AcceptEvent::Established(Some(5)), 9) {
        AcceptAction::Open(params) => {
            assert!(params.remote_url.is_none());
            assert!(!params.preflight_sent);
            assert_eq!(params.opened_at_s, 5);
            assert_eq!(params.max_frame_bytes, 9);
        }
        _ => panic!("not opened"),
    }
    match accept_step(AcceptEvent::Established(None), 9) {
        AcceptAction::Open(params) => assert_eq!(params.opened_at_s, 0),
        _ => panic!("not opened"),
    }
}

#[test]
fn peers_are_kept_by_url() {
    let (a, b) = (url("http://a.b:80/a"), url("http://a.b:80/b"));
    let mut map: PeerMap<u32> = PeerMap::new();
    assert!(map.get(&a).is_none());
    assert_eq!(map.insert(a.clone(), 1), None);
    assert_eq!(map.insert(b.clone(), 2), None);
    assert_eq!(map.insert(a.clone(), 3), Some(1));
    assert_eq!(map.get(&a), Some(&3));
    assert_eq!(map.get(&b), Some(&2));
    let mut peers: Vec<String> =
        map.get_connected_peers().iter().map(|u| u.as_str().to_string()).collect();
    peers.sort();
    assert_eq!(peers, vec!["http://a.b:80/a".to_string(), "http://a.b:80/b".to_string()]);
    assert_eq!(map.entries().len(), 2);
    assert_eq!(map.remove(&a), Some(3));
    assert_eq!(map.remove(&a), None);
    assert_eq!(map.get(&b), Some(&2));
    let drained = map.drain();
    assert_eq!(drained.len(), 1);
    assert!(drained[0].0.same(&b) && drained[0].1 == 2);
    assert!(map.get(&b).is_none());
}

#[test]
fn one_value_is_kept_per_peer() {
    let (a, b) = (url("http://a.b:80/a"), url("http://a.b:80/b"));
    let mut map: PeerMap<u32> = PeerMap::new();
    assert_eq!(*map.get_or_insert(&a, 1), 1);
    assert_eq!(*map.get_or_insert(&a, 2), 1);
    assert_eq!(*map.get_or_insert(&b, 3), 3);
    assert_eq!(map.get(&a), Some(&1));
}

#[test]
fn disconnecting_takes_the_peer_out() {
    let (a, b) = (url("http://a.b:80/a"), url("http://a.b:80/b"));
    let mut map: PeerMap<u32> = PeerMap::new();
    map.insert(a.clone(), 1);
    assert!(disconnect(&mut map, &b).is_none());
    let (value, reason) = disconnect(&mut map, &a).unwrap();
    assert_eq!(value, 1);
    assert_eq!(reason, "disconnecting from remote");
    assert!(map.get(&a).is_none());
}

fn context(remote_url: Option<Url>) -> ConnectionContext {
    ConnectionContext::new(ConnectionContextParams {
        remote_url,
        preflight_sent: true,
        opened_at_s: 42,
        max_frame_bytes: 100,
    })
}

#[test]
fn stats_tell_of_each_connection() {
    let connections = vec![
        (context(Some(url("http://a.b:80/a"))), Some(ConnectionType::Direct)),
        (context(Some(url("http://a.b:80/relay/b"))), Some(ConnectionType::Relay)),
        (context(Some(url("http://a.b:80/c"))), None),
    ];
    assert!(connections.iter().all(|(ctx, _)| has_peer_id(ctx)));
    let stats = dump_network_stats(Some(url("http://a.b:80/me")), &connections);
    assert_eq!(stats.backend, "iroh");
    assert_eq!(stats.peer_urls.len(), 1);
    assert_eq!(stats.peer_urls[0].as_str(), "http://a.b:80/me");
    let keys: Vec<&str> = stats.connections.iter().map(|c| c.pub_key.as_str()).collect();
    assert_eq!(keys, vec!["a", "b", "c"]);
    let direct: Vec<bool> = stats.connections.iter().map(|c| c.is_direct).collect();
    assert_eq!(direct, vec![true, false, false]);
    assert_eq!(stats.connections[0].opened_at_s, 42);
    assert_eq!(stats.connections[0].send_message_count, 0);
    assert_eq!(stats.connections[0].recv_bytes, 0);
}

#[test]
fn stats_without_connections() {
    let stats = dump_network_stats(None, &vec![]);
    assert!(stats.peer_urls.is_empty() && stats.connections.is_empty());
    assert!(!has_peer_id(&context(None)));
    assert!(!has_peer_id(&context(Some(url("http://a.b:80")))));
}
