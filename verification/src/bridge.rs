//! One half of a bridge.

use std::collections::hash_map::Entry;
use std::collections::HashMap;

use vstd::prelude::*;

use crate::interface::{
    Action, ActionView, Effect, ErrorKind, Extractable, Extraction, ExtractionView, IoError,
    LocalAddress,
};
use crate::state::BridgeState;

verus! {

/// How far a bridge has come on its way from open to closing.
enum Phase<L> {
    /// Accepts connections
    Listening(L),
    /// Opens the connections that are input, and waits for more of them
    Emitting,
    /// Terminates with its last connection
    Closing,
    /// Terminates with its last connection, and the other half accepts no more of them
    Refusing,
}

/// One half of a bridge, with streams of type `S` and a listener of type `L`.
///
/// Its view is a [`BridgeState`].
#[must_use]
pub struct TcpBridge<S, L> {
    /// This is the bridged port
    port: u16,
    streams: HashMap<u16, S>,
    phase: Phase<L>,
}

impl<S, L> View for TcpBridge<S, L> {
    type V = BridgeState<S, L>;

    closed spec fn view(&self) -> BridgeState<S, L> {
        BridgeState {
            port: self.port,
            streams: self.streams@,
            listener: match self.phase {
                Phase::Listening(listener) => Some(listener),
                _ => None,
            },
            closing: self.phase is Closing || self.phase is Refusing,
            refusing: self.phase is Refusing,
        }
    }
}

impl<S, L> TcpBridge<S, L> {
    /// Every bridge keeps the invariant, whatever has happened to it.
    pub proof fn law_always_valid(&self)
        ensures
            self@.valid(),
    {
    }
}

/// constructors
impl<S, L> TcpBridge<S, L> {
    /// Creates a listening [`TcpBridge`] which accepts connections to `port`, where `listener` is
    /// bound to [`LocalAddress::loopback`] of that port.
    pub fn accepting_from(port: u16, listener: L) -> (bridge: TcpBridge<S, L>)
        ensures
            bridge@ == (BridgeState::<S, L> {
                port,
                streams: Map::empty(),
                listener: Some(listener),
                closing: false,
                refusing: false,
            }),
            bridge@.valid(),
    {
        TcpBridge { port, streams: HashMap::new(), phase: Phase::Listening(listener) }
    }

    /// Creates an emitting [`TcpBridge`] which emits connections to `port`
    pub fn emit_to(port: u16) -> (bridge: TcpBridge<S, L>)
        ensures
            bridge@ == (BridgeState::<S, L> {
                port,
                streams: Map::empty(),
                listener: None,
                closing: false,
                refusing: false,
            }),
            bridge@.valid(),
    {
        TcpBridge { port, streams: HashMap::new(), phase: Phase::Emitting }
    }
}

/// extract logic
impl<S, L> TcpBridge<S, L> {
    /// Begins to wait for an action to occur which can be transferred to the other half of this
    /// Bridge.
    ///
    /// From a closed bridge there is nothing to extract; on any other, the extraction waits for
    /// the listener, if there is one, and for the stream of every connection. That can be for
    /// nothing at all, as on an emitting bridge that has no connection yet: then it waits until it
    /// is given up.
    pub fn extract<'a>(&self) -> (next: Extraction<'a>)
        ensures
            self@.closed() ==> next@ == ExtractionView::Done(ActionView::Nothing),
            !self@.closed() ==> (next@ matches ExtractionView::Wait { v_ports, accept } && {
                &&& accept == self@.listening()
                &&& v_ports.no_duplicates()
                &&& forall|v_port: u16| #[trigger]
                    v_ports.contains(v_port) <==> self@.connected(v_port)
            }),
    {
        if self.is_closed() {
            return Extraction::Done(Action::Nothing);
        }
        Extraction::Wait { v_ports: self.v_ports(), accept: self.is_listening() }
    }

    /// The `v_port`s of all active connections, in no particular order.
    fn v_ports(&self) -> (v_ports: Vec<u16>)
        ensures
            v_ports@.no_duplicates(),
            forall|v_port: u16| #[trigger]
                v_ports@.contains(v_port) <==> self@.connected(v_port),
    {
        let mut v_ports: Vec<u16> = Vec::new();
        for v_port in iter: self.streams.keys()
            invariant
                v_ports@ == iter.seq().unref().take(iter.index()),
                iter.seq().no_duplicates(),
                iter.seq().unref().to_set() == self.streams@.dom(),
                iter.index() == iter.seq().len() ==> v_ports@ == iter.seq().unref(),
        {
            v_ports.push(*v_port);
        }
        assert forall|v_port: u16| #[trigger] v_ports@.contains(v_port) <==> self@.connected(
            v_port,
        ) by {
            assert(v_ports@.to_set().contains(v_port) <==> self.streams@.dom().contains(v_port));
        }
        v_ports
    }

    /// Goes on with an extraction once one of the sockets that it waits for has come up with
    /// `ready`.
    pub fn extract_ready<'a>(&mut self, ready: Extractable<S>) -> (next: Extraction<'a>)
        requires
            old(self)@.may_occur(ready),
        ensures
            final(self)@ == old(self)@.after_ready(ready),
            final(self)@.valid(),
            next@ == BridgeState::<S, L>::ready_outcome(ready),
    {
        match ready {
            Extractable::Error(err) => {
                self.close();
                Extraction::Done(Action::AcceptError(err))
            },
            Extractable::New(socket, v_port) => {
                self.streams.insert(v_port, socket);
                Extraction::Done(Action::Connect(v_port))
            },
            Extractable::Read(v_port) => Extraction::Read(v_port),
        }
    }

    /// Ends an extraction with what a read from the stream of `v_port` into `buf` has come to: the
    /// number of bytes read, or a failure.
    pub fn extract_from<'a>(
        &mut self,
        v_port: u16,
        read: Result<usize, IoError>,
        buf: &'a [u8],
    ) -> (action: Action<'a>)
        requires
            old(self)@.connected(v_port),
            read matches Ok(count) ==> count <= buf@.len(),
        ensures
            final(self)@ == old(self)@.after_read(v_port, read),
            final(self)@.valid(),
            action@ == BridgeState::<S, L>::read_report(v_port, read, buf@),
    {
        match read {
            Err(err) => match err.kind {
                ErrorKind::WouldBlock => Action::Nothing,
                _ => {
                    // error means socket dead, remove and drop the stream
                    self.streams.remove(&v_port);
                    Action::Error(v_port, err)
                },
            },
            Ok(count) => {
                if count == 0 {
                    // 0 means EOF, remove and drop the stream
                    self.streams.remove(&v_port);
                }
                Action::Data(v_port, &buf[0..count])
            },
        }
    }
}

/// input logic
impl<S, L> TcpBridge<S, L> {
    /// Inputs an action produced by the other half of this Bridge.
    ///
    /// In the end every input is answered with `Nothing` or with an `Error`, which is for the other
    /// half's `input_error`.
    pub fn input<'a>(&mut self, action: Action<'a>) -> (effect: Effect<'a>)
        requires
            old(self)@.accepts(action@),
        ensures
            final(self)@ == old(self)@.after_input(action@),
            final(self)@.valid(),
            effect@ == old(self)@.input_effect(action@),
    {
        match action {
            Action::Nothing => Effect::Reply(Action::Nothing),
            Action::AcceptError(_err) => {
                // remote won't accept any more connections
                self.phase = Phase::Refusing;
                Effect::Reply(Action::Nothing)
            },
            Action::Error(v_port, err) => {
                self.input_error(v_port, err);
                Effect::Reply(Action::Nothing)
            },
            Action::Connect(v_port) => self.connect_new(v_port),
            Action::Data(v_port, data) => self.write_to(v_port, data),
        }
    }

    /// The connection of `v_port` is no longer active on the other side: ends it on this one, if
    /// it has not ended already.
    pub fn input_error(&mut self, v_port: u16, _err: IoError)
        ensures
            final(self)@ == old(self)@.without_stream(v_port),
            final(self)@.valid(),
    {
        self.streams.remove(&v_port);
    }

    /// Has the given `data` written to the stream associated with `v_port`
    pub fn write_to<'a>(&mut self, v_port: u16, data: &'a [u8]) -> (effect: Effect<'a>)
        requires
            data@.len() == 0 ==> old(self)@.connected(v_port),
        ensures
            final(self)@ == (if data@.len() == 0 {
                old(self)@.without_stream(v_port)
            } else {
                old(self)@
            }),
            final(self)@.valid(),
            effect@ == old(self)@.write_effect(v_port, data@),
    {
        if data.len() == 0 {
            // empty means EOF on other side
            // remove and close stream
            self.streams.remove(&v_port);
            return Effect::Reply(Action::Nothing);
        }
        if !self.streams.contains_key(&v_port) {
            return Effect::Reply(Action::Error(v_port, IoError::not_connected()));
        }
        Effect::Write(v_port, data)
    }

    /// Ends an input of `Data` for `v_port`, once writing it has come to `written`.
    ///
    /// A stream that could not be written to remains until it is read from.
    pub fn write_done<'a>(&self, v_port: u16, written: Result<(), IoError>) -> (reply: Action<'a>)
        ensures
            reply@ == BridgeState::<S, L>::write_reply(v_port, written),
    {
        match written {
            Err(err) => Action::Error(v_port, err),
            Ok(()) => Action::Nothing,
        }
    }

    /// Has a new stream created, to be associated with `v_port`.
    pub fn connect_new<'a>(&self, v_port: u16) -> (effect: Effect<'a>)
        requires
            !self@.listening(),
        ensures
            effect@ == self@.connect_effect(v_port),
    {
        match &self.phase {
            Phase::Refusing => Effect::Reply(Action::Error(v_port, IoError::not_connected())),
            _ => Effect::Connect(v_port, LocalAddress::loopback(self.port)),
        }
    }

    /// Ends an input of `Connect` for `v_port`, once the attempt to connect has come to
    /// `connected`: a new stream is associated with `v_port`.
    ///
    /// The returned [`Action`] contains information on a potential error during the creation of
    /// the stream and must be sent to the other half of this Bridge to inform it about the result.
    pub fn connect_done<'a>(&mut self, v_port: u16, connected: Result<S, IoError>) -> (reply:
        Action<'a>)
        requires
            old(self)@.connects(),
        ensures
            final(self)@ == old(self)@.after_connect(v_port, connected),
            final(self)@.valid(),
            reply@ == BridgeState::<S, L>::connect_reply(v_port, connected),
    {
        match connected {
            Ok(stream) => {
                self.streams.insert(v_port, stream);
                Action::Nothing
            },
            Err(err) => Action::Error(v_port, err),
        }
    }
}

/// info getters
impl<S, L> TcpBridge<S, L> {
    /// The bridged port.
    pub fn port(&self) -> (port: u16)
        ensures
            port == self@.port,
    {
        self.port
    }

    /// Whether the bridge accepts connections.
    pub fn is_listening(&self) -> (listening: bool)
        ensures
            listening == self@.listening(),
    {
        match &self.phase {
            Phase::Listening(_) => true,
            _ => false,
        }
    }

    /// The number of active connections.
    pub fn active_connections(&self) -> (count: usize)
        ensures
            count == self@.streams.len(),
    {
        self.streams.len()
    }

    /// Whether the bridge has terminated.
    pub fn is_closed(&self) -> (closed: bool)
        ensures
            closed == self@.closed(),
    {
        let closing: bool = match &self.phase {
            Phase::Closing => true,
            Phase::Refusing => true,
            _ => false,
        };
        closing && !self.is_listening() && self.active_connections() == 0
    }

    /// Accepts no more connections, and terminates with the last one. Connections that are input
    /// are still opened, unless the other half has said that there will be no more of them.
    pub fn close(&mut self)
        ensures
            final(self)@ == old(self)@.shut(),
            final(self)@.valid(),
    {
        match &self.phase {
            Phase::Refusing => {},
            _ => {
                self.phase = Phase::Closing;
            },
        }
    }

    /// What accepts connections, while the bridge listens.
    pub fn listener(&self) -> (listener: Option<&L>)
        ensures
            match listener {
                Some(listener) => self@.listener == Some(*listener),
                None => self@.listener is None,
            },
    {
        match &self.phase {
            Phase::Listening(listener) => Some(listener),
            _ => None,
        }
    }

    /// The stream of the connection of `v_port`.
    pub fn stream(&self, v_port: u16) -> (stream: Option<&S>)
        ensures
            match stream {
                Some(stream) => self@.connected(v_port) && *stream == self@.streams[v_port],
                None => !self@.connected(v_port),
            },
    {
        self.streams.get(&v_port)
    }

    /// The stream of the connection of `v_port`, to be written to.
    pub fn stream_mut(&mut self, v_port: u16) -> (stream: Option<&mut S>)
        ensures
            match stream {
                Some(stream) => {
                    &&& old(self)@.connected(v_port)
                    &&& *stream == old(self)@.streams[v_port]
                    &&& final(self)@ == old(self)@.with_stream(v_port, *final(stream))
                },
                None => !old(self)@.connected(v_port) && final(self)@ == old(self)@,
            },
            final(self)@.valid(),
    {
        match self.streams.entry(v_port) {
            Entry::Occupied(entry) => Some(entry.into_mut()),
            Entry::Vacant(_) => None,
        }
    }
}

} // verus!
