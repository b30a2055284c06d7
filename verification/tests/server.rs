use responder::accept::AcceptDecision;
use responder::accept::AcceptEvent;
use responder::accept::AcceptorState;
use responder::accept::IoErrorKind;
use responder::accept::ServeOutcome;
use responder::accept::classify_accept_error;
use responder::config::ConcurrencyMode;
use responder::config::ListenerConfig;
use responder::config::ResponsePayload;
use responder::config::compute_response;
use responder::config::default_ok_response;
use responder::conn::ConnAction;
use responder::conn::ConnPhase;
use responder::conn::Connection;
use responder::conn::HandlerError;
use responder::conn::ReadOutcome;
use responder::conn::WriteOutcome;
use responder::decode::decode_request;

fn config_with(mode: ConcurrencyMode, payload: ResponsePayload) -> ListenerConfig {
    ListenerConfig {
        host: "127.0.0.1".to_string(),
        port: 0,
        mode,
        read_buffer_size: 1024,
        read_timeout_ms: Some(1000),
        payload,
    }
}

#[test]
fn static_payload_returned_byte_for_byte() {
    let payload = vec![0u8, 200u8, 13u8, 10u8, 255u8];
    let cfg = config_with(ConcurrencyMode::Sequential, ResponsePayload::Static(payload.clone()));
    for request in [b"x".to_vec(), b"GET / HTTP/1.1\r\n\r\n".to_vec(), vec![0xffu8, 0xfe]] {
        let mut c = Connection::accept("peer".to_string());
        let a = c.begin();
        assert!(matches!(a, ConnAction::Read));
        let a = c.on_read(&cfg, ReadOutcome::Received(request));
        match a {
            ConnAction::Write(r) => assert_eq!(r, payload),
            _ => panic!("expected a write action"),
        }
    }
}

#[test]
fn decoding_never_fails_on_any_bytes() {
    let inputs: Vec<Vec<u8>> = vec![
        vec![],
        vec![0xff],
        vec![0xff, 0xfe, 0xfd],
        vec![0xc3],
        vec![0xe2, 0x82],
        vec![72, 0xff, 73],
        vec![0xf0, 0x9f, 0x92, 0x96],
        b"plain ascii".to_vec(),
        vec![0x80, 0x80, 0x80, 0x80, 0x80],
        vec![0xc0, 0xaf],
        vec![0xed, 0xa0, 0x80],
    ];
    for bytes in inputs {
        let decoded = decode_request(&bytes);
        assert!(decoded.len() <= 3 * bytes.len() + 3);
    }
}

#[test]
fn decoding_random_byte_arrays_never_fails() {
    let mut seed: u64 = 0x9e3779b97f4a7c15;
    for len in 0..256usize {
        let mut bytes = Vec::with_capacity(len);
        for _ in 0..len {
            seed = seed
                .wrapping_mul(6364136223846793005)
                .wrapping_add(1442695040888963407);
            bytes.push((seed >> 56) as u8);
        }
        let decoded = decode_request(&bytes);
        // every decoded character consumed at least one input byte
        assert!(decoded.chars().count() <= bytes.len());
    }
}

#[test]
fn decoding_replaces_invalid_sequences() {
    assert_eq!(decode_request(&vec![0xffu8]), "\u{FFFD}");
    assert_eq!(decode_request(&vec![72u8, 0xff, 73u8]), "H\u{FFFD}I");
    assert_eq!(decode_request(&b"hi".to_vec()), "hi");
    assert_eq!(decode_request(&Vec::new()), "");
}

#[test]
fn empty_read_is_empty_request_not_a_crash() {
    let cfg = config_with(ConcurrencyMode::Sequential, ResponsePayload::DefaultOk);
    let mut c = Connection::accept("peer".to_string());
    c.begin();
    let a = c.on_read(&cfg, ReadOutcome::Received(Vec::new()));
    assert_eq!(c.phase, ConnPhase::Responding);
    assert_eq!(c.decoded.as_deref(), Some(""));
    assert_eq!(c.error, None);
    match a {
        ConnAction::Write(r) => assert_eq!(r, b"HTTP/1.1 200 OK\r\n\r\n".to_vec()),
        _ => panic!("expected a write action"),
    }
}

#[test]
fn sequential_mode_serves_one_connection_at_a_time() {
    let cfg = config_with(ConcurrencyMode::Sequential, ResponsePayload::DefaultOk);
    let mut s = AcceptorState::new(&cfg);
    assert!(s.may_dispatch());
    let d = s.on_event(AcceptEvent::Incoming);
    assert_eq!(d, AcceptDecision::Dispatch);
    // while the first handler runs, the second client may not be taken
    assert!(!s.may_dispatch());
    s.handler_returned();
    // only now is the second client's accept allowed
    assert!(s.may_dispatch());
    let d = s.on_event(AcceptEvent::Incoming);
    assert_eq!(d, AcceptDecision::Dispatch);
    assert_eq!(s.in_flight, 1);
}

#[test]
fn concurrent_mode_overlaps_two_connections() {
    let cfg = config_with(
        ConcurrencyMode::Concurrent { pool_bound: None },
        ResponsePayload::DefaultOk,
    );
    let mut s = AcceptorState::new(&cfg);
    assert_eq!(s.on_event(AcceptEvent::Incoming), AcceptDecision::Dispatch);
    assert!(s.may_dispatch());
    assert_eq!(s.on_event(AcceptEvent::Incoming), AcceptDecision::Dispatch);
    // both handlers are mid-flight at once
    assert_eq!(s.in_flight, 2);
    s.handler_returned();
    s.handler_returned();
    assert_eq!(s.in_flight, 0);
}

#[test]
fn bounded_pool_blocks_when_saturated() {
    let cfg = config_with(
        ConcurrencyMode::Concurrent { pool_bound: Some(2) },
        ResponsePayload::DefaultOk,
    );
    let mut s = AcceptorState::new(&cfg);
    s.on_event(AcceptEvent::Incoming);
    s.on_event(AcceptEvent::Incoming);
    assert!(!s.may_dispatch());
    s.handler_returned();
    assert!(s.may_dispatch());
}

#[test]
fn get_request_yields_default_ok_end_to_end() {
    let cfg = config_with(ConcurrencyMode::Sequential, ResponsePayload::DefaultOk);
    let mut s = AcceptorState::new(&cfg);
    assert_eq!(s.on_event(AcceptEvent::Incoming), AcceptDecision::Dispatch);
    let mut c = Connection::accept("127.0.0.1:54321".to_string());
    assert!(matches!(c.begin(), ConnAction::Read));
    let a = c.on_read(&cfg, ReadOutcome::Received(b"GET / HTTP/1.1\r\n\r\n".to_vec()));
    match a {
        ConnAction::Write(r) => assert_eq!(r, b"HTTP/1.1 200 OK\r\n\r\n".to_vec()),
        _ => panic!("expected a write action"),
    }
    assert_eq!(c.decoded.as_deref(), Some("GET / HTTP/1.1\r\n\r\n"));
    let a = c.on_write(WriteOutcome::Written);
    assert!(matches!(a, ConnAction::Close));
    assert_eq!(c.finish(), Ok(()));
    assert_eq!(c.phase, ConnPhase::Closed);
    s.handler_returned();
    assert_eq!(s.in_flight, 0);
}

#[test]
fn closing_the_listener_stops_serving_with_closed() {
    let cfg = config_with(ConcurrencyMode::Sequential, ResponsePayload::DefaultOk);
    let mut s = AcceptorState::new(&cfg);
    let ev = classify_accept_error(IoErrorKind::Other, true);
    assert_eq!(ev, AcceptEvent::ClosedListener);
    let d = s.on_event(ev);
    assert_eq!(d, AcceptDecision::Stop);
    assert_eq!(s.done, Some(ServeOutcome::Closed));
}

#[test]
fn transient_accept_errors_keep_the_loop_running() {
    let cfg = config_with(ConcurrencyMode::Sequential, ResponsePayload::DefaultOk);
    let mut s = AcceptorState::new(&cfg);
    for kind in [
        IoErrorKind::WouldBlock,
        IoErrorKind::Interrupted,
        IoErrorKind::TimedOut,
        IoErrorKind::ConnectionAborted,
        IoErrorKind::ConnectionReset,
    ] {
        let ev = classify_accept_error(kind, false);
        assert_eq!(ev, AcceptEvent::Transient);
        assert_eq!(s.on_event(ev), AcceptDecision::Retry);
        assert_eq!(s.done, None);
    }
}

#[test]
fn fatal_accept_error_stops_serving() {
    let cfg = config_with(ConcurrencyMode::Sequential, ResponsePayload::DefaultOk);
    let mut s = AcceptorState::new(&cfg);
    let ev = classify_accept_error(IoErrorKind::Other, false);
    assert_eq!(ev, AcceptEvent::Fatal);
    assert_eq!(s.on_event(ev), AcceptDecision::Stop);
    assert_eq!(s.done, Some(ServeOutcome::Fatal));
}

#[test]
fn read_timeout_aborts_the_connection() {
    let cfg = config_with(ConcurrencyMode::Sequential, ResponsePayload::DefaultOk);
    let mut c = Connection::accept("peer".to_string());
    c.begin();
    let a = c.on_read(&cfg, ReadOutcome::TimedOut);
    assert!(matches!(a, ConnAction::Close));
    assert_eq!(c.phase, ConnPhase::Failed);
    assert_eq!(c.finish(), Err(HandlerError::ReadTimeout));
    assert_eq!(c.phase, ConnPhase::Closed);
}

#[test]
fn read_failure_aborts_the_connection() {
    let cfg = config_with(ConcurrencyMode::Sequential, ResponsePayload::DefaultOk);
    let mut c = Connection::accept("peer".to_string());
    c.begin();
    let a = c.on_read(&cfg, ReadOutcome::Failed);
    assert!(matches!(a, ConnAction::Close));
    assert_eq!(c.finish(), Err(HandlerError::ReadError));
}

#[test]
fn write_failure_aborts_the_connection() {
    let cfg = config_with(ConcurrencyMode::Sequential, ResponsePayload::DefaultOk);
    let mut c = Connection::accept("peer".to_string());
    c.begin();
    c.on_read(&cfg, ReadOutcome::Received(b"x".to_vec()));
    let a = c.on_write(WriteOutcome::Failed);
    assert!(matches!(a, ConnAction::Close));
    assert_eq!(c.finish(), Err(HandlerError::WriteError));
}

#[test]
fn default_response_is_the_status_line() {
    assert_eq!(default_ok_response(), b"HTTP/1.1 200 OK\r\n\r\n".to_vec());
}

#[test]
fn echo_payload_returns_the_request() {
    let request = vec![1u8, 2, 3, 0xff];
    let r = compute_response(&ResponsePayload::Echo, &request);
    assert_eq!(r, request);
}
