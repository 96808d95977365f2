//! A whole bridge over sockets in memory, between a client and an echo server.

use std::cell::{Cell, RefCell};
use std::collections::VecDeque;
use std::rc::Rc;

use vlink::{Action, Effect, ErrorKind, Extractable, Extraction, IoError, TcpBridge};

/// One end of a connection in memory.
struct Socket {
    incoming: Rc<RefCell<VecDeque<u8>>>,
    outgoing: Rc<RefCell<VecDeque<u8>>>,
    closed: Rc<Cell<bool>>,
}

impl Socket {
    fn pair() -> (Socket, Socket) {
        let there = Rc::new(RefCell::new(VecDeque::new()));
        let back = Rc::new(RefCell::new(VecDeque::new()));
        let closed = Rc::new(Cell::new(false));
        let near = Socket { incoming: back.clone(), outgoing: there.clone(), closed: closed.clone() };
        let far = Socket { incoming: there, outgoing: back, closed };
        (near, far)
    }

    fn readable(&self) -> bool {
        !self.incoming.borrow().is_empty() || self.closed.get()
    }

    fn try_read(&self, buf: &mut [u8]) -> Result<usize, IoError> {
        if !self.readable() {
            return Err(error(ErrorKind::WouldBlock));
        }
        let mut incoming = self.incoming.borrow_mut();
        let count = buf.len().min(incoming.len());
        for slot in buf[..count].iter_mut() {
            *slot = incoming.pop_front().unwrap();
        }
        Ok(count)
    }

    fn write_all(&mut self, data: &[u8]) -> Result<(), IoError> {
        if self.closed.get() {
            return Err(error(ErrorKind::BrokenPipe));
        }
        self.outgoing.borrow_mut().extend(data.iter().copied());
        Ok(())
    }

    fn read_u128_le(&self) -> Option<u128> {
        let mut incoming = self.incoming.borrow_mut();
        if incoming.len() < 16 {
            return None;
        }
        let mut bytes = [0u8; 16];
        for slot in bytes.iter_mut() {
            *slot = incoming.pop_front().unwrap();
        }
        Some(u128::from_le_bytes(bytes))
    }
}

impl Drop for Socket {
    fn drop(&mut self) {
        self.closed.set(true);
    }
}

fn error(kind: ErrorKind) -> IoError {
    IoError { kind, code: None, message: "in memory".to_string() }
}

/// What a bridge can connect to: the sockets that wait to be accepted, by port.
#[derive(Default)]
struct Network {
    backlog: Vec<(u16, u16, Socket)>,
}

impl Network {
    fn connect(&mut self, from: u16, to: u16) -> Socket {
        let (near, far) = Socket::pair();
        self.backlog.push((to, from, far));
        near
    }

    fn accept(&mut self, at: u16) -> Option<(Socket, u16)> {
        let index = self.backlog.iter().position(|(to, _, _)| *to == at)?;
        let (_, from, socket) = self.backlog.remove(index);
        Some((socket, from))
    }
}

/// Extracts an action, or `None` where the extraction would have to wait.
fn extract<'a>(
    bridge: &mut TcpBridge<Socket, ()>,
    network: &mut Network,
    buf: &'a mut [u8],
) -> Option<Action<'a>> {
    let ready = match bridge.extract() {
        Extraction::Done(action) => return Some(action),
        Extraction::Read(_) => panic!("nothing is ready yet"),
        Extraction::Wait { v_ports, accept } => {
            let accepted = if accept { network.accept(bridge.port()) } else { None };
            match accepted {
                Some((socket, v_port)) => Extractable::New(socket, v_port),
                None => {
                    let readable = v_ports
                        .into_iter()
                        .find(|v_port| bridge.stream(*v_port).unwrap().readable());
                    Extractable::Read(readable?)
                }
            }
        }
    };
    match bridge.extract_ready(ready) {
        Extraction::Done(action) => Some(action),
        Extraction::Wait { .. } => panic!("something is ready already"),
        Extraction::Read(v_port) => {
            let read = bridge.stream(v_port).unwrap().try_read(buf);
            Some(bridge.extract_from(v_port, read, buf))
        }
    }
}

/// Inputs an action, and gives the answer.
fn input<'a>(
    bridge: &mut TcpBridge<Socket, ()>,
    network: &mut Network,
    action: Action<'a>,
) -> Action<'a> {
    match bridge.input(action) {
        Effect::Reply(reply) => reply,
        Effect::Connect(v_port, address) => {
            assert_eq!(address.octets, [127, 0, 0, 1]);
            let socket = network.connect(0, address.port);
            bridge.connect_done(v_port, Ok(socket))
        }
        Effect::Write(v_port, data) => {
            let written = bridge.stream_mut(v_port).unwrap().write_all(data);
            bridge.write_done(v_port, written)
        }
    }
}

fn handle_bridge_action(
    own: &mut TcpBridge<Socket, ()>,
    other: &mut TcpBridge<Socket, ()>,
    network: &mut Network,
    action: Action<'_>,
) {
    if let Action::Nothing = action {
        return;
    }
    match input(other, network, action) {
        Action::Nothing => {}
        Action::Error(v_port, err) => own.input_error(v_port, err),
        _ => panic!("input is not allowed to return anything but Nothing or Error"),
    }
}

#[test]
fn bridge_test() {
    const SERVER_PORT: u16 = 9999;
    const BRIDGE_PORT: u16 = 10000;
    const CLIENT_PORT: u16 = 40001;

    let mut network = Network::default();
    let mut listening: TcpBridge<Socket, ()> = TcpBridge::accepting_from(BRIDGE_PORT, ());
    let mut emitting: TcpBridge<Socket, ()> = TcpBridge::emit_to(SERVER_PORT);
    let mut listen_buf = [0u8; 4092];
    let mut emit_buf = [0u8; 4092];

    let mut client = network.connect(CLIENT_PORT, BRIDGE_PORT);
    let mut server: Option<Socket> = None;
    let mut next: u128 = 50;
    client.write_all(&next.to_le_bytes()).unwrap();
    let mut echoed: Vec<u128> = Vec::new();

    for _ in 0..10_000 {
        if listening.is_closed() | emitting.is_closed() {
            break;
        }
        if let Some(action) = extract(&mut listening, &mut network, &mut listen_buf) {
            handle_bridge_action(&mut listening, &mut emitting, &mut network, action);
        }
        if emitting.active_connections() > 0 {
            if let Some(action) = extract(&mut emitting, &mut network, &mut emit_buf) {
                // after the first time set emitting to close, to terminate with the client
                emitting.close();
                handle_bridge_action(&mut emitting, &mut listening, &mut network, action);
            }
        }

        // the server reads 16 bytes, then writes them back, and ends upon zero
        if server.is_none() && next == 50 {
            server = network.accept(SERVER_PORT).map(|(socket, _)| socket);
        }
        if let Some(socket) = server.as_mut() {
            match socket.read_u128_le() {
                Some(0) => server = None,
                Some(number) => socket.write_all(&number.to_le_bytes()).unwrap(),
                None => {}
            }
        }

        // the client counts down
        if let Some(number) = client.read_u128_le() {
            assert_eq!(number, next);
            echoed.push(number);
            next -= 1;
            client.write_all(&next.to_le_bytes()).unwrap();
        }
    }

    assert_eq!(echoed, (1..=50).rev().collect::<Vec<u128>>());
    assert!(emitting.is_closed());
    assert_eq!(listening.active_connections(), 0);
    assert!(listening.is_listening());
    assert!(!listening.is_closed());
    let mut buf = [0u8];
    assert_eq!(client.try_read(&mut buf).unwrap(), 0);
}
