use bytes::Bytes;
use kitsune2_transport_iroh::connection_context::{ConnectionContext, ConnectionContextParams};
use kitsune2_transport_iroh::connection_reader::{
    CloseAction, CloseEvent, ConnectionClose, ConnectionReader, ReaderAction, ReaderEvent,
    ReaderPhase,
};
use kitsune2_transport_iroh::error::{Error, ErrorKind};
use kitsune2_transport_iroh::frame::{encode_frame, Frame};
use kitsune2_transport_iroh::frame_send::SendEvent;
use kitsune2_transport_iroh::incoming::{
    read_data_header, read_data_payload, read_preflight_header, read_preflight_payload,
    IncomingStream, StreamAction, StreamEvent, PREFLIGHT_TIMEOUT_S,
};
use kitsune2_transport_iroh::url::Url;

const MAX: usize = 1024;

fn url(text: &str) -> Url {
    Url::from_str(text).unwrap()
}

fn peer() -> Url {
    url("http://localhost:80/peer")
}

fn local() -> Url {
    url("http://localhost:80/local")
}

fn incoming_context() -> ConnectionContext {
    ConnectionContext::new(ConnectionContextParams {
        remote_url: None,
        preflight_sent: false,
        opened_at_s: 7,
        max_frame_bytes: MAX,
    })
}

fn outgoing_context() -> ConnectionContext {
    ConnectionContext::new(ConnectionContextParams {
        remote_url: Some(peer()),
        preflight_sent: true,
        opened_at_s: 7,
        max_frame_bytes: MAX,
    })
}

fn preflight_frame() -> Bytes {
    encode_frame(Frame::Preflight((peer(), Bytes::from_static(b"pre"))), MAX).unwrap()
}

fn data_frame(data: &'static [u8]) -> Bytes {
    encode_frame(Frame::Data(Bytes::from_static(data)), MAX).unwrap()
}

fn handler_error() -> Error {
    Error::caused_by(ErrorKind::Handler, "refused".to_string())
}

fn step(
    stream: &mut IncomingStream,
    ctx: &mut ConnectionContext,
    event: StreamEvent,
) -> StreamAction {
    assert!(stream.expects(&event));
    stream.step(ctx, event)
}

/// What a stream did: what the handler was handed, what was sent back, where the connection was
/// registered, and how the handling ended.
#[derive(Default)]
struct Log {
    delivered: Vec<(String, Vec<u8>)>,
    answered: Vec<(String, Vec<u8>)>,
    registered: Vec<String>,
    outcome: Option<Result<(), Error>>,
}

/// Handles a stream that holds `wire`, with a handler that refuses data where asked to.
fn run(ctx: &mut ConnectionContext, wire: &[u8], refuse_data: bool) -> Log {
    let mut log = Log::default();
    let mut wire = wire.to_vec();
    let (mut stream, mut action) = ctx.handle_incoming_stream();
    loop {
        let event = match action {
            StreamAction::Read(n) => {
                assert_eq!(stream.wanted(), Some(n));
                if n <= wire.len() {
                    let rest = wire.split_off(n);
                    StreamEvent::Read(Ok(std::mem::replace(&mut wire, rest)))
                } else {
                    StreamEvent::Read(Err("end of stream".to_string()))
                }
            }
            StreamAction::DeliverPreflight(peer, bytes) => {
                log.delivered.push((peer.as_str().to_string(), bytes.to_vec()));
                StreamEvent::PreflightHandled(Ok(()), Some(local()))
            }
            StreamAction::RequestPreflight(peer) => {
                assert!(ctx.remote_url().unwrap().same(&peer));
                StreamEvent::PreflightMade(Ok(Bytes::from_static(b"own")))
            }
            StreamAction::SendPreflight(local, bytes) => {
                log.answered.push((local.as_str().to_string(), bytes.to_vec()));
                StreamEvent::PreflightSent(Ok(()))
            }
            StreamAction::Register(peer) => {
                assert!(ctx.preflight_received() && ctx.preflight_sent());
                log.registered.push(peer.as_str().to_string());
                StreamEvent::Registered
            }
            StreamAction::DeliverData(peer, bytes) => {
                log.delivered.push((peer.as_str().to_string(), bytes.to_vec()));
                StreamEvent::DataHandled(if refuse_data { Err(handler_error()) } else { Ok(()) })
            }
            StreamAction::Finish(outcome) => {
                log.outcome = Some(outcome);
                return log;
            }
        };
        action = step(&mut stream, ctx, event);
    }
}

fn delivered(parts: &[&[u8]]) -> Vec<(String, Vec<u8>)> {
    parts.iter().map(|p| ("http://localhost:80/peer".to_string(), p.to_vec())).collect()
}

#[test]
fn preflight_then_data_is_delivered_in_order() {
    let mut ctx = incoming_context();
    let mut wire = preflight_frame().to_vec();
    wire.extend_from_slice(&data_frame(b"one"));
    wire.extend_from_slice(&data_frame(b""));
    wire.extend_from_slice(&data_frame(b"three"));
    let log = run(&mut ctx, &wire, false);
    assert_eq!(log.delivered, delivered(&[b"pre", b"one", b"", b"three"]));
    assert_eq!(log.answered, vec![("http://localhost:80/local".to_string(), b"own".to_vec())]);
    assert_eq!(log.registered, vec!["http://localhost:80/peer".to_string()]);
    assert!(log.outcome.unwrap().is_ok());
    assert_eq!(ctx.get_recv_message_count(), 3);
    assert_eq!(ctx.get_recv_bytes(), 8);
    assert_eq!(ctx.get_send_message_count(), 0);
    assert_eq!(ctx.get_opened_at_s(), 7);
}

#[test]
fn refused_data_is_counted_and_read_past() {
    let mut ctx = incoming_context();
    let mut wire = preflight_frame().to_vec();
    wire.extend_from_slice(&data_frame(b"one"));
    wire.extend_from_slice(&data_frame(b"two"));
    let log = run(&mut ctx, &wire, true);
    assert_eq!(log.delivered, delivered(&[b"pre", b"one", b"two"]));
    assert!(log.outcome.unwrap().is_ok());
    assert_eq!(ctx.get_recv_message_count(), 2);
}

#[test]
fn later_stream_holds_data_only() {
    let mut ctx = incoming_context();
    run(&mut ctx, &preflight_frame(), false);
    assert!(ctx.preflight_received());
    let log = run(&mut ctx, &data_frame(b"later"), false);
    assert_eq!(log.delivered, delivered(&[b"later"]));
    assert!(log.answered.is_empty() && log.registered.is_empty());
    assert!(log.outcome.unwrap().is_ok());
    let log = run(&mut ctx, &preflight_frame(), false);
    assert!(log.delivered.is_empty());
    assert!(log.outcome.unwrap().is_ok());
}

#[test]
fn frame_that_is_cut_short_ends_the_stream_only() {
    let mut wire = preflight_frame().to_vec();
    wire.extend_from_slice(&data_frame(b"whole"));
    let cut = data_frame(b"cut short");
    for k in 0..cut.len() {
        let mut ctx = incoming_context();
        let mut wire = wire.clone();
        wire.extend_from_slice(&cut[..k]);
        let log = run(&mut ctx, &wire, false);
        assert_eq!(log.delivered, delivered(&[b"pre", b"whole"]));
        assert!(log.outcome.unwrap().is_ok());
        assert_eq!(ctx.get_recv_message_count(), 1);
    }
}

#[test]
fn stream_after_a_cut_one_is_read() {
    let mut ctx = incoming_context();
    run(&mut ctx, &preflight_frame(), false);
    let mut wire = data_frame(b"first").to_vec();
    wire.extend_from_slice(&data_frame(b"lost")[..7]);
    let log = run(&mut ctx, &wire, false);
    assert_eq!(log.delivered, delivered(&[b"first"]));
    let log = run(&mut ctx, &data_frame(b"second"), false);
    assert_eq!(log.delivered, delivered(&[b"second"]));
    assert_eq!(ctx.get_recv_message_count(), 2);
    assert_eq!(ctx.get_recv_bytes(), 11);
}

#[test]
fn preflight_that_is_cut_short_is_fatal() {
    let frame = preflight_frame();
    for k in 0..frame.len() {
        let mut ctx = incoming_context();
        let log = run(&mut ctx, &frame[..k], false);
        assert!(log.delivered.is_empty() && log.registered.is_empty());
        let kind = log.outcome.unwrap().unwrap_err().kind;
        let expected = if k < 5 {
            ErrorKind::PreflightHeaderUnread
        } else {
            ErrorKind::PreflightDataUnread
        };
        assert_eq!(kind, expected);
        assert!(ctx.remote_url().is_none());
    }
}

#[test]
fn data_instead_of_preflight_is_fatal() {
    let mut ctx = incoming_context();
    let log = run(&mut ctx, &data_frame(b"early"), false);
    assert!(log.delivered.is_empty());
    let e = log.outcome.unwrap().unwrap_err();
    assert_eq!(e.kind, ErrorKind::PreflightExpected);
    assert_eq!(e.message(), "preflight frame expected, received data frame (src: None)");
}

#[test]
fn preflight_on_an_outgoing_connection_is_not_answered() {
    let mut ctx = outgoing_context();
    let log = run(&mut ctx, &preflight_frame(), false);
    assert_eq!(log.delivered, delivered(&[b"pre"]));
    assert!(log.answered.is_empty());
    assert_eq!(log.registered, vec!["http://localhost:80/peer".to_string()]);
}

#[test]
fn refused_preflight_is_fatal() {
    let mut ctx = incoming_context();
    let (mut stream, _) = ctx.handle_incoming_stream();
    let frame = preflight_frame();
    step(&mut stream, &mut ctx, StreamEvent::Read(Ok(frame[..5].to_vec())));
    let action = step(&mut stream, &mut ctx, StreamEvent::Read(Ok(frame[5..].to_vec())));
    assert!(matches!(action, StreamAction::DeliverPreflight(..)));
    assert!(ctx.remote_url().unwrap().same(&peer()));
    let event = StreamEvent::PreflightHandled(Err(handler_error()), Some(local()));
    let action = step(&mut stream, &mut ctx, event);
    assert!(matches!(action, StreamAction::Finish(Err(e)) if e.message() == "refused"));
    assert!(!ctx.preflight_received());
}

fn delivered_preflight(ctx: &mut ConnectionContext) -> IncomingStream {
    let (mut stream, _) = ctx.handle_incoming_stream();
    let frame = preflight_frame();
    step(&mut stream, ctx, StreamEvent::Read(Ok(frame[..5].to_vec())));
    step(&mut stream, ctx, StreamEvent::Read(Ok(frame[5..].to_vec())));
    stream
}

#[test]
fn preflight_before_the_local_url_is_known_is_fatal() {
    let mut ctx = incoming_context();
    let mut stream = delivered_preflight(&mut ctx);
    let action = step(&mut stream, &mut ctx, StreamEvent::PreflightHandled(Ok(()), None));
    match action {
        StreamAction::Finish(Err(e)) => {
            assert_eq!(e.kind, ErrorKind::ReceivedBeforeUrl);
            assert_eq!(
                e.message(),
                "Connection received before home relay URL is known (src: None)"
            );
        }
        _ => panic!("not finished"),
    }
    assert!(ctx.preflight_received() && !ctx.preflight_sent());
}

#[test]
fn own_preflight_that_fails_is_fatal() {
    let mut ctx = incoming_context();
    let mut stream = delivered_preflight(&mut ctx);
    step(&mut stream, &mut ctx, StreamEvent::PreflightHandled(Ok(()), Some(local())));
    let action = step(&mut stream, &mut ctx, StreamEvent::PreflightMade(Err(handler_error())));
    assert!(matches!(action, StreamAction::Finish(Err(e)) if e.kind == ErrorKind::Handler));

    let mut ctx = incoming_context();
    let mut stream = delivered_preflight(&mut ctx);
    step(&mut stream, &mut ctx, StreamEvent::PreflightHandled(Ok(()), Some(local())));
    step(&mut stream, &mut ctx, StreamEvent::PreflightMade(Ok(Bytes::new())));
    let e = Error::caused_by(ErrorKind::SendPreflightFailed, "gone".to_string());
    let action = step(&mut stream, &mut ctx, StreamEvent::PreflightSent(Err(e)));
    assert!(
        matches!(action, StreamAction::Finish(Err(e)) if e.kind == ErrorKind::SendPreflightFailed)
    );
    assert!(!ctx.preflight_sent());
}

#[test]
fn exchange_that_takes_too_long_is_fatal() {
    assert_eq!(PREFLIGHT_TIMEOUT_S, 10);
    let mut ctx = incoming_context();
    let (mut stream, _) = ctx.handle_incoming_stream();
    assert!(stream.in_preflight());
    let action =
        step(&mut stream, &mut ctx, StreamEvent::TimedOut("deadline has elapsed".to_string()));
    match action {
        StreamAction::Finish(Err(e)) => assert_eq!(
            e.message(),
            "timed out waiting for preflight (src: deadline has elapsed)"
        ),
        _ => panic!("not finished"),
    }
    run(&mut ctx, &preflight_frame(), false);
    let (stream, _) = ctx.handle_incoming_stream();
    assert!(!stream.in_preflight());
    assert!(!stream.expects(&StreamEvent::TimedOut(String::new())));
}

#[test]
fn only_what_fits_the_phase_is_expected() {
    let ctx = incoming_context();
    let (stream, _) = ctx.handle_incoming_stream();
    assert!(stream.expects(&StreamEvent::Read(Ok(vec![0; 5]))));
    assert!(!stream.expects(&StreamEvent::Read(Ok(vec![0; 4]))));
    assert!(stream.expects(&StreamEvent::Read(Err(String::new()))));
    assert!(!stream.expects(&StreamEvent::Registered));
    assert!(!stream.expects(&StreamEvent::DataHandled(Ok(()))));
    assert!(!stream.expects(&StreamEvent::PreflightSent(Ok(()))));
    assert!(!stream.expects(&StreamEvent::PreflightMade(Ok(Bytes::new()))));
    assert!(!stream.expects(&StreamEvent::PreflightHandled(Ok(()), None)));
}

#[test]
fn preflight_reads_give_their_errors() {
    let e = read_preflight_header(Err("gone".to_string()), MAX).unwrap_err();
    assert_eq!(e.message(), "preflight header read failed (src: gone)");
    assert_eq!(read_preflight_header(Ok(vec![0, 0, 0, 1, 0]), MAX).unwrap(), 256);
    let e = read_preflight_header(Ok(vec![0, 0, 0, 4, 0]), MAX).unwrap_err();
    assert_eq!(e.kind, ErrorKind::IncomingFrameTooLarge);
    let e = read_preflight_payload(Err("gone".to_string())).unwrap_err();
    assert_eq!(e.message(), "preflight data read failed (src: gone)");
    let frame = preflight_frame();
    let (url, bytes) = read_preflight_payload(Ok(frame[5..].to_vec())).unwrap();
    assert!(url.same(&peer()));
    assert_eq!(&bytes[..], b"pre");
}

#[test]
fn data_reads_give_their_errors() {
    let e = read_data_header(Err("gone".to_string()), MAX).unwrap_err();
    assert_eq!(e.message(), "error reading data frame header (src: gone)");
    let e = read_data_header(Ok(vec![9, 0, 0, 0, 0]), MAX).unwrap_err();
    assert_eq!(e.kind, ErrorKind::BadDataHeader);
    assert_eq!(
        e.message(),
        "failed to decode iroh frame header (src: unknown iroh frame type: 9 (src: None))"
    );
    let e = read_data_header(Ok(vec![0, 0, 0, 0, 0]), MAX).unwrap_err();
    assert_eq!(e.message(), "data frame expected, received preflight frame (src: None)");
    assert_eq!(read_data_header(Ok(vec![1, 0, 0, 1, 0]), MAX).unwrap(), 256);
    let e = read_data_payload(Err("gone".to_string())).unwrap_err();
    assert_eq!(e.message(), "error reading data frame data (src: gone)");
    assert_eq!(&read_data_payload(Ok(vec![1, 2])).unwrap()[..], &[1, 2]);
}

#[test]
fn connection_is_read_while_streams_end_in_order() {
    let ctx = outgoing_context();
    let mut reader = ConnectionReader::new();
    for _ in 0..3 {
        assert_eq!(reader.phase(), ReaderPhase::Accepting);
        assert!(reader.expects(&ReaderEvent::StreamAccepted));
        assert!(!reader.expects(&ReaderEvent::StreamHandled(Ok(()))));
        let action = reader.step(&ctx, ReaderEvent::StreamAccepted);
        assert!(matches!(action, ReaderAction::HandleStream));
        assert_eq!(reader.phase(), ReaderPhase::Handling);
        let action = reader.step(&ctx, ReaderEvent::StreamHandled(Ok(())));
        assert!(matches!(action, ReaderAction::AcceptStream));
    }
    let action = reader.step(&ctx, ReaderEvent::AcceptFailed("closed by peer".to_string()));
    match action {
        ReaderAction::Close(Some(url), reason) => {
            assert!(url.same(&peer()));
            assert_eq!(reason, "closed by peer");
        }
        _ => panic!("not closed"),
    }
    assert_eq!(reader.phase(), ReaderPhase::Ended);
}

#[test]
fn fatal_stream_closes_the_connection() {
    let ctx = incoming_context();
    let mut reader = ConnectionReader::new();
    reader.step(&ctx, ReaderEvent::StreamAccepted);
    let e = Error::new(ErrorKind::PreflightExpected);
    match reader.step(&ctx, ReaderEvent::StreamHandled(Err(e))) {
        ReaderAction::Close(None, reason) => {
            assert_eq!(reason, "preflight frame expected, received data frame (src: None)")
        }
        _ => panic!("not closed"),
    }
    assert_eq!(reader.phase(), ReaderPhase::Ended);
}

#[test]
fn data_before_a_peer_is_known_is_an_error() {
    let e = Error::new(ErrorKind::DataBeforePreflight);
    assert_eq!(e.message(), "received data before preflight (src: None)");
}

#[test]
fn frames_sent_meanwhile_do_not_disturb_a_stream() {
    let mut ctx = incoming_context();
    let mut stream = delivered_preflight(&mut ctx);
    let mut send = ctx.send_data_frame(Bytes::from_static(b"meanwhile")).unwrap();
    send.step(&mut ctx, SendEvent::StreamLocked);
    send.step(&mut ctx, SendEvent::StreamOpened(Ok(())));
    send.step(&mut ctx, SendEvent::FrameWritten(Ok(())));
    assert!(!ctx.preflight_received() && !ctx.preflight_sent());
    assert!(ctx.remote_url().unwrap().same(&peer()));
    let event = StreamEvent::PreflightHandled(Ok(()), Some(local()));
    let action = step(&mut stream, &mut ctx, event);
    assert!(matches!(action, StreamAction::RequestPreflight(url) if url.same(&peer())));
    assert_eq!(ctx.get_send_message_count(), 1);
    assert_eq!(ctx.get_send_bytes(), 9);
}

#[test]
fn close_removes_marks_and_disconnects() {
    for marked in [Ok(()), Err(handler_error())] {
        let (mut close, action) = ConnectionClose::new(Some(peer()), "gone".to_string());
        assert!(matches!(action, CloseAction::Remove(url) if url.same(&peer())));
        assert!(close.expects(&CloseEvent::Removed));
        assert!(!close.expects(&CloseEvent::Marked(Ok(()))));
        let action = close.step(CloseEvent::Removed);
        assert!(matches!(action, CloseAction::MarkUnresponsive(url) if url.same(&peer())));
        assert!(!close.expects(&CloseEvent::Removed));
        assert!(close.expects(&CloseEvent::Marked(Ok(()))));
        let action = close.step(CloseEvent::Marked(marked));
        assert!(matches!(action, CloseAction::Disconnect(reason) if reason == "gone"));
        assert!(!close.expects(&CloseEvent::Removed));
        assert!(!close.expects(&CloseEvent::Marked(Ok(()))));
    }
}

#[test]
fn close_without_a_peer_disconnects() {
    let (close, action) = ConnectionClose::new(None, "gone".to_string());
    assert!(matches!(action, CloseAction::Disconnect(reason) if reason == "gone"));
    assert!(!close.expects(&CloseEvent::Removed));
}

#[test]
fn verdicts_on_data_change_nothing_of_a_stream() {
    let mut wire = preflight_frame().to_vec();
    wire.extend_from_slice(&data_frame(b"one"));
    wire.extend_from_slice(&data_frame(b"two"));
    let (mut one, mut other) = (incoming_context(), incoming_context());
    let (taken, refused) = (run(&mut one, &wire, false), run(&mut other, &wire, true));
    assert_eq!(taken.delivered, refused.delivered);
    assert_eq!(taken.registered, refused.registered);
    assert_eq!(one.get_recv_message_count(), other.get_recv_message_count());
    assert_eq!(one.get_recv_bytes(), other.get_recv_bytes());
}
