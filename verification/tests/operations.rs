//! Single operations, and the laws on concrete values.

use vlink::{Action, Effect, ErrorAction, ErrorKind, Extractable, Extraction, IoError, LocalAddress};
use vlink::TcpBridge;

type Bridge = TcpBridge<&'static str, &'static str>;

fn error(kind: ErrorKind, code: i32) -> IoError {
    IoError { kind, code: Some(code), message: "failed".to_string() }
}

fn listening() -> Bridge {
    TcpBridge::accepting_from(10000, "listener")
}

fn emitting() -> Bridge {
    TcpBridge::emit_to(9999)
}

/// An emitting bridge with a connection for each of `v_ports`.
fn connected(v_ports: &[u16]) -> Bridge {
    let mut bridge = emitting();
    for v_port in v_ports {
        let reply = bridge.connect_done(*v_port, Ok("stream"));
        assert!(matches!(reply, Action::Nothing));
    }
    bridge
}

#[test]
fn new_bridges() {
    let bridge = listening();
    assert_eq!(bridge.port(), 10000);
    assert!(bridge.is_listening());
    assert_eq!(bridge.listener(), Some(&"listener"));
    assert_eq!(bridge.active_connections(), 0);
    assert!(!bridge.is_closed());

    let bridge = emitting();
    assert_eq!(bridge.port(), 9999);
    assert!(!bridge.is_listening());
    assert_eq!(bridge.listener(), None);
    assert_eq!(bridge.active_connections(), 0);
    assert!(!bridge.is_closed());
}

#[test]
fn loopback_address() {
    let address = LocalAddress::loopback(10000);
    assert_eq!(address.octets, [127, 0, 0, 1]);
    assert_eq!(address.port, 10000);
}

#[test]
fn extraction_waits_for_all_sockets() {
    let bridge = connected(&[7, 5, 6]);
    match bridge.extract() {
        Extraction::Wait { mut v_ports, accept } => {
            v_ports.sort();
            assert_eq!(v_ports, vec![5, 6, 7]);
            assert!(!accept);
        }
        other => panic!("{other:?}"),
    }
    match listening().extract() {
        Extraction::Wait { v_ports, accept } => {
            assert!(v_ports.is_empty());
            assert!(accept);
        }
        other => panic!("{other:?}"),
    }
    // with nothing to wait for, it still waits
    assert!(matches!(emitting().extract(), Extraction::Wait { accept: false, .. }));
}

#[test]
fn closed_bridge_extracts_nothing() {
    let mut bridge = listening();
    bridge.close();
    assert!(bridge.is_closed());
    assert!(matches!(bridge.extract(), Extraction::Done(Action::Nothing)));
}

#[test]
fn accepted_socket_connects() {
    let mut bridge = listening();
    let next = bridge.extract_ready(Extractable::New("client", 40001));
    assert!(matches!(next, Extraction::Done(Action::Connect(40001))));
    assert_eq!(bridge.active_connections(), 1);
    assert_eq!(bridge.stream(40001), Some(&"client"));
    assert_eq!(bridge.stream(40002), None);
}

#[test]
fn accept_error_ends_listening() {
    let mut bridge = listening();
    bridge.extract_ready(Extractable::New("client", 40001));
    match bridge.extract_ready(Extractable::Error(error(ErrorKind::Other, 24))) {
        Extraction::Done(Action::AcceptError(err)) => {
            assert_eq!(err.kind, ErrorKind::Other);
            assert_eq!(err.code, Some(24));
            assert_eq!(err.message, "failed");
        }
        other => panic!("{other:?}"),
    }
    assert!(!bridge.is_listening());
    assert!(!bridge.is_closed());
    // the last connection takes the bridge with it
    assert!(matches!(bridge.extract_from(40001, Ok(0), &[]), Action::Data(40001, [])));
    assert!(bridge.is_closed());
}

#[test]
fn accept_error_closes_at_once_without_connections() {
    let mut bridge = listening();
    bridge.extract_ready(Extractable::Error(error(ErrorKind::Other, 24)));
    assert!(bridge.is_closed());
}

#[test]
fn readable_stream_is_read() {
    let mut bridge = connected(&[5]);
    assert!(matches!(bridge.extract_ready(Extractable::Read(5)), Extraction::Read(5)));
    assert_eq!(bridge.active_connections(), 1);
}

#[test]
fn read_data() {
    let mut bridge = connected(&[5]);
    let buf = [1u8, 2, 3, 4];
    match bridge.extract_from(5, Ok(3), &buf) {
        Action::Data(5, data) => assert_eq!(data, &[1, 2, 3]),
        other => panic!("{other:?}"),
    }
    match bridge.extract_from(5, Ok(4), &buf) {
        Action::Data(5, data) => assert_eq!(data, &buf),
        other => panic!("{other:?}"),
    }
    assert_eq!(bridge.active_connections(), 1);
}

#[test]
fn read_end_of_stream() {
    let mut bridge = connected(&[5, 6]);
    let buf = [1u8, 2];
    assert!(matches!(bridge.extract_from(5, Ok(0), &buf), Action::Data(5, [])));
    assert_eq!(bridge.stream(5), None);
    assert_eq!(bridge.stream(6), Some(&"stream"));
}

#[test]
fn read_would_block() {
    let mut bridge = connected(&[5]);
    let read = Err(error(ErrorKind::WouldBlock, 11));
    assert!(matches!(bridge.extract_from(5, read, &[]), Action::Nothing));
    assert_eq!(bridge.stream(5), Some(&"stream"));
}

#[test]
fn read_error_ends_connection() {
    let mut bridge = connected(&[5, 6]);
    let read = Err(error(ErrorKind::ConnectionReset, 104));
    match bridge.extract_from(5, read, &[]) {
        Action::Error(5, err) => {
            assert_eq!(err.kind, ErrorKind::ConnectionReset);
            assert_eq!(err.code, Some(104));
        }
        other => panic!("{other:?}"),
    }
    assert_eq!(bridge.stream(5), None);
    assert_eq!(bridge.stream(6), Some(&"stream"));
}

#[test]
fn input_nothing() {
    let mut bridge = connected(&[5]);
    assert!(matches!(bridge.input(Action::Nothing), Effect::Reply(Action::Nothing)));
    assert_eq!(bridge.active_connections(), 1);
}

#[test]
fn input_connect() {
    let mut bridge = emitting();
    match bridge.input(Action::Connect(5)) {
        Effect::Connect(5, address) => {
            assert_eq!(address.octets, [127, 0, 0, 1]);
            assert_eq!(address.port, 9999);
        }
        other => panic!("{other:?}"),
    }
    assert_eq!(bridge.active_connections(), 0);
    assert!(matches!(bridge.connect_done(5, Ok("server")), Action::Nothing));
    assert_eq!(bridge.stream(5), Some(&"server"));
    // a second connection of the same `v_port` takes the place of the first
    assert!(matches!(bridge.connect_done(5, Ok("again")), Action::Nothing));
    assert_eq!(bridge.stream(5), Some(&"again"));
    assert_eq!(bridge.active_connections(), 1);
}

#[test]
fn input_connect_that_fails() {
    let mut bridge = emitting();
    match bridge.connect_done(5, Err(error(ErrorKind::ConnectionRefused, 111))) {
        Action::Error(5, err) => assert_eq!(err.kind, ErrorKind::ConnectionRefused),
        other => panic!("{other:?}"),
    }
    assert_eq!(bridge.active_connections(), 0);
}

#[test]
fn input_connect_after_close_still_connects() {
    let mut bridge = emitting();
    bridge.close();
    assert!(bridge.is_closed());
    assert!(matches!(bridge.input(Action::Connect(5)), Effect::Connect(5, _)));
    assert!(matches!(bridge.connect_done(5, Ok("server")), Action::Nothing));
    assert!(!bridge.is_closed());
}

#[test]
fn input_accept_error() {
    let mut bridge = connected(&[5]);
    let effect = bridge.input(Action::AcceptError(error(ErrorKind::Other, 24)));
    assert!(matches!(effect, Effect::Reply(Action::Nothing)));
    assert_eq!(bridge.active_connections(), 1);
    assert!(!bridge.is_closed());

    // connections that follow fail, also once the bridge has been closed
    for _ in 0..2 {
        match bridge.input(Action::Connect(6)) {
            Effect::Reply(Action::Error(6, err)) => {
                assert_eq!(err.kind, ErrorKind::NotConnected);
                assert_eq!(err.code, None);
                assert_eq!(err.message, "err");
            }
            other => panic!("{other:?}"),
        }
        bridge.close();
    }
    assert_eq!(bridge.active_connections(), 1);

    // and the bridge terminates with the existing ones
    bridge.input(Action::Data(5, &[]));
    assert!(bridge.is_closed());
}

#[test]
fn input_data() {
    let mut bridge = connected(&[5]);
    let data = [1u8, 2, 3];
    match bridge.input(Action::Data(5, &data)) {
        Effect::Write(5, written) => assert_eq!(written, &data),
        other => panic!("{other:?}"),
    }
    *bridge.stream_mut(5).unwrap() = "written to";
    assert!(matches!(bridge.write_done(5, Ok(())), Action::Nothing));
    assert_eq!(bridge.stream(5), Some(&"written to"));
    assert!(bridge.stream_mut(6).is_none());
}

#[test]
fn input_data_that_cannot_be_written() {
    let mut bridge = connected(&[5]);
    assert!(matches!(bridge.input(Action::Data(5, &[1])), Effect::Write(5, [1])));
    match bridge.write_done(5, Err(error(ErrorKind::BrokenPipe, 32))) {
        Action::Error(5, err) => assert_eq!(err.kind, ErrorKind::BrokenPipe),
        other => panic!("{other:?}"),
    }
    // the stream remains until it is read from
    assert_eq!(bridge.stream(5), Some(&"stream"));
}

#[test]
fn input_data_without_connection() {
    let mut bridge = connected(&[5]);
    match bridge.input(Action::Data(6, &[1])) {
        Effect::Reply(Action::Error(6, err)) => {
            assert_eq!(err.kind, ErrorKind::NotConnected);
            assert_eq!(err.message, "err");
        }
        other => panic!("{other:?}"),
    }
    assert_eq!(bridge.active_connections(), 1);
}

#[test]
fn input_end_of_stream() {
    let mut bridge = connected(&[5, 6]);
    assert!(matches!(bridge.input(Action::Data(5, &[])), Effect::Reply(Action::Nothing)));
    assert_eq!(bridge.stream(5), None);
    assert_eq!(bridge.stream(6), Some(&"stream"));
}

#[test]
fn input_errors() {
    let mut bridge = connected(&[5, 6]);
    let ErrorAction(v_port, err) = ErrorAction(5, error(ErrorKind::ConnectionReset, 104));
    assert!(matches!(bridge.input(Action::Error(v_port, err)), Effect::Reply(Action::Nothing)));
    assert_eq!(bridge.stream(5), None);
    assert_eq!(bridge.stream(6), Some(&"stream"));
    // for a connection that has ended already there is nothing to do
    bridge.input_error(5, error(ErrorKind::ConnectionReset, 104));
    assert_eq!(bridge.active_connections(), 1);
    bridge.input_error(6, error(ErrorKind::ConnectionReset, 104));
    assert_eq!(bridge.active_connections(), 0);
    assert!(!bridge.is_closed());
}

#[test]
fn close_twice() {
    let mut bridge = listening();
    bridge.extract_ready(Extractable::New("client", 40001));
    for _ in 0..2 {
        bridge.close();
        assert!(!bridge.is_listening());
        assert!(!bridge.is_closed());
        assert_eq!(bridge.stream(40001), Some(&"client"));
        assert_eq!(bridge.port(), 10000);
    }
    bridge.input_error(40001, error(ErrorKind::ConnectionReset, 104));
    assert!(bridge.is_closed());
}

#[test]
fn failed_connect_ends_both_sides() {
    let mut own = listening();
    let mut other = emitting();
    let action = match own.extract_ready(Extractable::New("client", 40001)) {
        Extraction::Done(action) => action,
        other => panic!("{other:?}"),
    };
    let v_port = match other.input(action) {
        Effect::Connect(v_port, _) => v_port,
        other => panic!("{other:?}"),
    };
    let refused = Err(error(ErrorKind::ConnectionRefused, 111));
    match other.connect_done(v_port, refused) {
        Action::Error(v_port, err) => own.input_error(v_port, err),
        other => panic!("{other:?}"),
    }
    assert_eq!(own.active_connections(), 0);
    assert_eq!(other.active_connections(), 0);
    assert!(own.is_listening());
}

#[test]
fn data_passes_unchanged() {
    let mut own = listening();
    own.extract_ready(Extractable::New("client", 40001));
    let mut other = connected(&[40001]);
    let buf = [9u8, 8, 7, 6];
    match other.input(own.extract_from(40001, Ok(2), &buf)) {
        Effect::Write(40001, data) => assert_eq!(data, &[9, 8]),
        other => panic!("{other:?}"),
    }
    match other.input(own.extract_from(40001, Ok(0), &buf)) {
        Effect::Reply(Action::Nothing) => {}
        other => panic!("{other:?}"),
    }
    assert_eq!(own.active_connections(), 0);
    assert_eq!(other.active_connections(), 0);
}

#[test]
fn failed_write_ends_reading_side() {
    let mut own = listening();
    own.extract_ready(Extractable::New("client", 40001));
    let mut other = connected(&[40001]);
    let buf = [9u8, 8, 7, 6];
    assert!(matches!(other.input(own.extract_from(40001, Ok(2), &buf)), Effect::Write(40001, _)));
    match other.write_done(40001, Err(error(ErrorKind::BrokenPipe, 32))) {
        Action::Error(v_port, err) => own.input_error(v_port, err),
        other => panic!("{other:?}"),
    }
    assert_eq!(own.active_connections(), 0);
    assert_eq!(other.active_connections(), 1);
}

#[test]
fn bytes_pass_in_order() {
    let mut own = listening();
    own.extract_ready(Extractable::New("client", 40001));
    own.extract_ready(Extractable::New("another", 40002));
    let mut other = connected(&[40001, 40002]);
    let mut written: Vec<u8> = Vec::new();
    for piece in [[1u8, 2, 3], [4, 5, 6], [7, 8, 9]] {
        // a write that fails on another connection
        if own.stream(40002).is_some() {
            own.extract_from(40002, Ok(1), &piece);
            match other.write_done(40002, Err(error(ErrorKind::BrokenPipe, 32))) {
                Action::Error(v_port, err) => own.input_error(v_port, err),
                other => panic!("{other:?}"),
            }
        }
        match other.input(own.extract_from(40001, Ok(2), &piece)) {
            Effect::Write(40001, data) => written.extend(data.iter().copied()),
            other => panic!("{other:?}"),
        }
        own.close();
        other.close();
    }
    assert_eq!(written, vec![1, 2, 4, 5, 7, 8]);
    assert_eq!(own.active_connections(), 1);
    assert_eq!(other.active_connections(), 2);
}

#[test]
fn accept_error_lasts() {
    let mut bridge = listening();
    bridge.extract_ready(Extractable::New("client", 40001));
    bridge.extract_ready(Extractable::New("another", 40002));
    bridge.extract_ready(Extractable::Error(error(ErrorKind::Other, 24)));
    bridge.input(Action::Data(40001, &[1]));
    bridge.extract_from(40001, Ok(0), &[]);
    assert!(!bridge.is_closed());
    assert!(!bridge.is_listening());
    assert!(matches!(bridge.extract(), Extraction::Wait { accept: false, .. }));
    bridge.input(Action::Data(40002, &[]));
    assert!(bridge.is_closed());
    assert!(matches!(bridge.extract(), Extraction::Done(Action::Nothing)));
}
