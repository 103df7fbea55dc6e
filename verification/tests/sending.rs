use bytes::Bytes;
use kitsune2_transport_iroh::connection_context::{
    ConnectionContext, ConnectionContextParams, ConnectionType,
};
use kitsune2_transport_iroh::error::{Error, ErrorKind};
use kitsune2_transport_iroh::frame_send::{FrameSend, SendAction, SendEvent, SendPhase};
use kitsune2_transport_iroh::outgoing::{
    ConnectFailure, OutgoingAction, OutgoingEvent, OutgoingSend,
};
use kitsune2_transport_iroh::peer_map::PeerMap;
use kitsune2_transport_iroh::url::Url;
use kitsune2_transport_iroh::IrohTransportConfig;

const MAX: usize = 64;

fn endpoint_id(seed: u8) -> String {
    iroh::SecretKey::from_bytes(&[seed; 32]).public().to_string()
}

fn peer() -> Url {
    Url::from_str(&format!("http://127.0.0.1:80/{}", endpoint_id(1))).unwrap()
}

fn local() -> Url {
    Url::from_str("http://127.0.0.1:80/me").unwrap()
}

fn context() -> ConnectionContext {
    ConnectionContext::new(ConnectionContextParams {
        remote_url: Some(peer()),
        preflight_sent: true,
        opened_at_s: 11,
        max_frame_bytes: MAX,
    })
}

fn send_ok(ctx: &mut ConnectionContext, mut send: FrameSend) {
    let open = ctx.send_stream_open();
    let mut action = send.step(ctx, SendEvent::StreamLocked);
    if !open {
        assert!(matches!(action, SendAction::OpenStream));
        assert_eq!(send.phase(), SendPhase::Opening);
        action = send.step(ctx, SendEvent::StreamOpened(Ok(())));
    }
    assert!(matches!(action, SendAction::WriteFrame));
    assert_eq!(send.phase(), SendPhase::Writing);
    let action = send.step(ctx, SendEvent::FrameWritten(Ok(())));
    assert!(matches!(action, SendAction::Finish(Ok(()))));
    assert_eq!(send.phase(), SendPhase::Done);
}

#[test]
fn frames_share_one_stream() {
    let mut ctx = context();
    assert!(!ctx.send_stream_open());
    let send = ctx.send_preflight_frame(local(), Bytes::from_static(b"pre")).unwrap();
    assert_eq!(send.phase(), SendPhase::Waiting);
    assert!(send.expects(&SendEvent::StreamLocked));
    assert!(!send.expects(&SendEvent::FrameWritten(Ok(()))));
    assert_eq!(&send.frame()[..9], &[0, 0, 0, 0, 29, 0, 0, 0, 22]);
    send_ok(&mut ctx, send);
    assert!(ctx.send_stream_open());
    assert_eq!(ctx.get_send_message_count(), 0);
    let send = ctx.send_data_frame(Bytes::from_static(b"hello")).unwrap();
    assert_eq!(&send.frame()[..], &[1, 0, 0, 0, 5, b'h', b'e', b'l', b'l', b'o']);
    send_ok(&mut ctx, send);
    let send = ctx.send_data_frame(Bytes::from_static(b"again!")).unwrap();
    send_ok(&mut ctx, send);
    assert_eq!(ctx.get_send_message_count(), 2);
    assert_eq!(ctx.get_send_bytes(), 11);
    assert_eq!(ctx.get_recv_message_count(), 0);
}

#[test]
fn too_large_message_is_not_sent() {
    let ctx = context();
    let e = ctx.send_data_frame(Bytes::from(vec![0u8; MAX - 4])).unwrap_err();
    assert_eq!(e.kind, ErrorKind::FrameTooLarge);
    let e = ctx.send_preflight_frame(local(), Bytes::from(vec![0u8; MAX])).unwrap_err();
    assert_eq!(e.kind, ErrorKind::FrameTooLarge);
    assert!(ctx.send_data_frame(Bytes::from(vec![0u8; MAX - 5])).is_ok());
}

#[test]
fn stream_that_cannot_be_opened_fails_the_frame() {
    let mut ctx = context();
    let mut send = ctx.send_data_frame(Bytes::from_static(b"x")).unwrap();
    send.step(&mut ctx, SendEvent::StreamLocked);
    match send.step(&mut ctx, SendEvent::StreamOpened(Err("lost".to_string()))) {
        SendAction::Finish(Err(e)) => {
            assert_eq!(e.message(), "failed to open uni-directional stream (src: lost)")
        }
        _ => panic!("not finished"),
    }
    assert!(!ctx.send_stream_open());
    assert_eq!(ctx.get_send_message_count(), 0);
}

#[test]
fn stream_that_fails_is_replaced() {
    let mut ctx = context();
    let mut send = ctx.send_data_frame(Bytes::from_static(b"x")).unwrap();
    send.step(&mut ctx, SendEvent::StreamLocked);
    send.step(&mut ctx, SendEvent::StreamOpened(Ok(())));
    match send.step(&mut ctx, SendEvent::FrameWritten(Err("reset".to_string()))) {
        SendAction::Finish(Err(e)) => {
            assert_eq!(e.message(), "failed to send data frame (src: reset)")
        }
        _ => panic!("not finished"),
    }
    assert!(!ctx.send_stream_open());
    assert_eq!(ctx.get_send_message_count(), 0);
    assert_eq!(ctx.get_send_bytes(), 0);
    let mut send = ctx.send_preflight_frame(local(), Bytes::new()).unwrap();
    let action = send.step(&mut ctx, SendEvent::StreamLocked);
    assert!(matches!(action, SendAction::OpenStream));
    send.step(&mut ctx, SendEvent::StreamOpened(Ok(())));
    match send.step(&mut ctx, SendEvent::FrameWritten(Err("reset".to_string()))) {
        SendAction::Finish(Err(e)) => {
            assert_eq!(e.message(), "failed to send preflight frame (src: reset)")
        }
        _ => panic!("not finished"),
    }
}

#[test]
fn reader_is_aborted_once() {
    let mut ctx = context();
    assert!(ctx.abort_tasks());
    assert!(!ctx.abort_tasks());
}

#[test]
fn disconnecting_tells_the_peer_and_the_handler() {
    let d = context().disconnect("bye".to_string());
    assert_eq!(d.close_code, 0);
    assert_eq!(d.close_reason, b"bye");
    let (peer_url, reason) = d.notify.unwrap();
    assert!(peer_url.same(&peer()));
    assert_eq!(reason, "bye");
    let unknown = ConnectionContext::new(ConnectionContextParams {
        remote_url: None,
        preflight_sent: false,
        opened_at_s: 0,
        max_frame_bytes: MAX,
    });
    let d = unknown.disconnect("bye".to_string());
    assert_eq!(d.close_reason, b"bye");
    assert!(d.notify.is_none());
}

#[test]
fn connection_type_is_what_is_watched() {
    let ctx = context();
    assert_eq!(ctx.get_connection_type(Some(ConnectionType::Direct)), ConnectionType::Direct);
    assert_eq!(ctx.get_connection_type(Some(ConnectionType::Mixed)), ConnectionType::Mixed);
    assert_eq!(ctx.get_connection_type(None), ConnectionType::NoPath);
}

#[test]
fn context_clone_is_a_snapshot() {
    let mut ctx = context();
    let copy = ctx.clone();
    let send = ctx.send_data_frame(Bytes::from_static(b"x")).unwrap();
    send_ok(&mut ctx, send);
    assert_eq!(copy.get_send_message_count(), 0);
    assert_eq!(ctx.get_send_message_count(), 1);
    assert_eq!(copy.max_frame_bytes(), MAX);
    assert!(copy.remote_url().unwrap().same(&peer()));
}

fn start() -> OutgoingSend {
    let config = IrohTransportConfig { max_frame_bytes: MAX, ..IrohTransportConfig::default() };
    let (send, action) = OutgoingSend::send(peer(), Bytes::from_static(b"msg"), &config).unwrap();
    assert!(matches!(action, OutgoingAction::Lock(url) if url.same(&peer())));
    send
}

fn step(send: &mut OutgoingSend, event: OutgoingEvent) -> OutgoingAction {
    assert!(send.expects(&event));
    send.step(event)
}

#[test]
fn message_to_a_connected_peer_is_sent_at_once() {
    let mut send = start();
    let action = step(&mut send, OutgoingEvent::Locked(true));
    assert!(matches!(action, OutgoingAction::SendData(data, true) if &data[..] == b"msg"));
    let action = step(&mut send, OutgoingEvent::DataSent(Ok(())));
    assert!(matches!(action, OutgoingAction::Finish(Ok(()))));
    assert!(!send.gives_up_context());
    assert!(!send.expects(&OutgoingEvent::Locked(true)));
    assert!(!send.expects(&OutgoingEvent::DataSent(Ok(()))));
}

#[test]
fn message_to_a_new_peer_waits_for_the_connection() {
    let mut send = start();
    match step(&mut send, OutgoingEvent::Locked(false)) {
        OutgoingAction::Connect(endpoint, timeout_s) => {
            assert_eq!(endpoint.id, endpoint_id(1));
            assert_eq!(endpoint.relay_urls[0].text, "http://127.0.0.1/");
            assert_eq!(timeout_s, 60);
        }
        _ => panic!("no connection"),
    }
    let action = step(&mut send, OutgoingEvent::Connected(Some(99), Some(local())));
    assert!(matches!(action, OutgoingAction::RequestPreflight(url) if url.same(&peer())));
    match step(&mut send, OutgoingEvent::PreflightMade(Ok(Bytes::from_static(b"pre")))) {
        OutgoingAction::SendPreflight(params, url, preflight) => {
            assert!(params.remote_url.unwrap().same(&peer()));
            assert!(params.preflight_sent);
            assert_eq!(params.opened_at_s, 99);
            assert_eq!(params.max_frame_bytes, MAX);
            assert!(url.same(&local()));
            assert_eq!(&preflight[..], b"pre");
        }
        _ => panic!("no preflight"),
    }
    let action = step(&mut send, OutgoingEvent::PreflightSent(Ok(())));
    assert!(matches!(action, OutgoingAction::Register(url) if url.same(&peer())));
    let action = step(&mut send, OutgoingEvent::Registered);
    assert!(matches!(action, OutgoingAction::SendData(data, false) if &data[..] == b"msg"));
    let e = Error::caused_by(ErrorKind::SendDataFailed, "gone".to_string());
    let action = step(&mut send, OutgoingEvent::DataSent(Err(e)));
    assert!(
        matches!(action, OutgoingAction::Finish(Err(e)) if e.kind == ErrorKind::SendDataFailed)
    );
}

#[test]
fn clock_before_the_epoch_counts_as_zero() {
    let mut send = start();
    step(&mut send, OutgoingEvent::Locked(false));
    step(&mut send, OutgoingEvent::Connected(None, Some(local())));
    match step(&mut send, OutgoingEvent::PreflightMade(Ok(Bytes::new()))) {
        OutgoingAction::SendPreflight(params, _, _) => assert_eq!(params.opened_at_s, 0),
        _ => panic!("no preflight"),
    }
}

#[test]
fn connection_failures_end_the_sending() {
    for (event, message) in [
        (
            OutgoingEvent::ConnectFailed(ConnectFailure::TimedOut("late".to_string())),
            "iroh connect timed out (src: late)",
        ),
        (
            OutgoingEvent::ConnectFailed(ConnectFailure::Refused("no".to_string())),
            "iroh connect failed (src: no)",
        ),
        (
            OutgoingEvent::Connected(Some(1), None),
            "Connection attempted before home relay URL is known (src: None)",
        ),
    ] {
        let mut send = start();
        step(&mut send, OutgoingEvent::Locked(false));
        match step(&mut send, event) {
            OutgoingAction::Finish(Err(e)) => assert_eq!(e.message(), message),
            _ => panic!("not finished"),
        }
        assert!(!send.expects(&OutgoingEvent::Registered));
    }
}

#[test]
fn preflight_failures_end_the_sending() {
    let refused = || Error::caused_by(ErrorKind::Handler, "refused".to_string());
    let mut send = start();
    step(&mut send, OutgoingEvent::Locked(false));
    step(&mut send, OutgoingEvent::Connected(Some(1), Some(local())));
    let action = step(&mut send, OutgoingEvent::PreflightMade(Err(refused())));
    assert!(matches!(action, OutgoingAction::Finish(Err(e)) if e.message() == "refused"));
    assert!(!send.gives_up_context());

    let mut send = start();
    step(&mut send, OutgoingEvent::Locked(false));
    step(&mut send, OutgoingEvent::Connected(Some(1), Some(local())));
    step(&mut send, OutgoingEvent::PreflightMade(Ok(Bytes::new())));
    assert!(!send.gives_up_context());
    let action = step(&mut send, OutgoingEvent::PreflightSent(Err(refused())));
    assert!(matches!(action, OutgoingAction::Finish(Err(e)) if e.message() == "refused"));
    assert!(send.gives_up_context());
    assert!(!send.expects(&OutgoingEvent::Registered));
}

#[test]
fn message_to_a_url_without_endpoint_is_refused() {
    let url = Url::from_str("http://127.0.0.1:80").unwrap();
    let config = IrohTransportConfig::default();
    let e = OutgoingSend::send(url, Bytes::new(), &config).unwrap_err();
    assert_eq!(e.kind, ErrorKind::NoPeerId);
}

#[test]
fn messages_to_one_peer_share_a_connection() {
    let mut connections: PeerMap<usize> = PeerMap::new();
    let mut connects = 0;
    let mut preflights = 0;
    let mut sends: Vec<OutgoingSend> = (0..3).map(|_| start()).collect();
    for (k, send) in sends.iter_mut().enumerate() {
        let mut event = OutgoingEvent::Locked(connections.get(&peer()).is_some());
        loop {
            event = match step(send, event) {
                OutgoingAction::Connect(..) => {
                    connects += 1;
                    OutgoingEvent::Connected(Some(1), Some(local()))
                }
                OutgoingAction::RequestPreflight(_) => {
                    OutgoingEvent::PreflightMade(Ok(Bytes::new()))
                }
                OutgoingAction::SendPreflight(..) => {
                    preflights += 1;
                    OutgoingEvent::PreflightSent(Ok(()))
                }
                OutgoingAction::Register(url) => {
                    connections.insert(url, k);
                    OutgoingEvent::Registered
                }
                OutgoingAction::SendData(data, early) => {
                    assert_eq!(&data[..], b"msg");
                    assert_eq!(early, k > 0);
                    assert_eq!(preflights, 1);
                    OutgoingEvent::DataSent(Ok(()))
                }
                OutgoingAction::Finish(result) => {
                    assert!(result.is_ok());
                    break;
                }
                OutgoingAction::Lock(_) => panic!("the message has its turn"),
            };
        }
    }
    assert_eq!(connects, 1);
    assert_eq!(connections.get(&peer()), Some(&0));
}
