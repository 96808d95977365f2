//! The mathematical model of a bridge: its state, and what each operation makes of it.

use vstd::prelude::*;

use crate::interface::{
    ActionView, EffectView, ErrorKind, Extractable, ExtractionView, IoError, IoErrorView,
    LocalAddressView,
};

verus! {

/// The state of one half of a bridge.
#[verifier::ext_equal]
pub struct BridgeState<S, L> {
    /// The bridged port
    pub port: u16,
    /// The stream of each active connection, by the connection's `v_port`
    pub streams: Map<u16, S>,
    /// What accepts connections, while the bridge listens
    pub listener: Option<L>,
    /// Whether the bridge terminates with its last connection
    pub closing: bool,
    /// Whether the other half has said that it accepts no more connections
    pub refusing: bool,
}

/// What a bridge is, whatever has happened to it.
impl<S, L> BridgeState<S, L> {
    /// The invariant of a bridge: it has finitely many connections, one that is closing does not
    /// listen, and one whose other half accepts no more connections is closing.
    pub open spec fn valid(self) -> bool {
        &&& self.streams.dom().finite()
        &&& self.closing ==> self.listener is None
        &&& self.refusing ==> self.closing
    }

    /// Whether the bridge has an active connection for `v_port`.
    pub open spec fn connected(self, v_port: u16) -> bool {
        self.streams.contains_key(v_port)
    }

    /// Whether the bridge accepts connections.
    pub open spec fn listening(self) -> bool {
        self.listener is Some
    }

    /// Whether the bridge has terminated: nothing will ever be extracted from it again, unless a
    /// connection is input to it.
    pub open spec fn closed(self) -> bool {
        &&& self.closing
        &&& !self.listening()
        &&& self.streams.is_empty()
    }

    /// The bridge with `stream` as the connection of `v_port`, in place of an earlier one.
    pub open spec fn with_stream(self, v_port: u16, stream: S) -> Self {
        BridgeState { streams: self.streams.insert(v_port, stream), ..self }
    }

    /// The bridge without a connection for `v_port`.
    pub open spec fn without_stream(self, v_port: u16) -> Self {
        BridgeState { streams: self.streams.remove(v_port), ..self }
    }

    /// The bridge once it accepts no more connections, and terminates with its last one.
    pub open spec fn shut(self) -> Self {
        BridgeState { listener: None, closing: true, ..self }
    }
}

/// Extraction.
impl<S, L> BridgeState<S, L> {
    /// Whether the sockets of the bridge can come up with `ready`: only a listener accepts or
    /// fails to, no two active connections have the same `v_port`, and only active connections
    /// are read from.
    pub open spec fn may_occur(self, ready: Extractable<S>) -> bool {
        match ready {
            Extractable::Read(v_port) => self.connected(v_port),
            Extractable::New(_, v_port) => self.listening() && !self.connected(v_port),
            Extractable::Error(_) => self.listening(),
        }
    }

    /// The bridge after its sockets have come up with `ready`: an accepted stream is a connection
    /// from then on, and a listener that has failed is given up.
    pub open spec fn after_ready(self, ready: Extractable<S>) -> Self {
        match ready {
            Extractable::Read(_) => self,
            Extractable::New(stream, v_port) => self.with_stream(v_port, stream),
            Extractable::Error(_) => self.shut(),
        }
    }

    /// How an extraction goes on once the sockets of the bridge have come up with `ready`.
    pub open spec fn ready_outcome(ready: Extractable<S>) -> ExtractionView {
        match ready {
            Extractable::Read(v_port) => ExtractionView::Read(v_port),
            Extractable::New(_, v_port) => ExtractionView::Done(ActionView::Connect(v_port)),
            Extractable::Error(err) => ExtractionView::Done(ActionView::AcceptError(err@)),
        }
    }

    /// Whether a read that came out as `read` ends the connection: one that read nothing, which
    /// is the end of the stream, or one that failed, unless only because there was nothing to
    /// read yet.
    pub open spec fn read_ends(read: Result<usize, IoError>) -> bool {
        match read {
            Ok(count) => count == 0,
            Err(err) => err.kind != ErrorKind::WouldBlock,
        }
    }

    /// The bridge after a read from the stream of `v_port` that came out as `read`.
    pub open spec fn after_read(self, v_port: u16, read: Result<usize, IoError>) -> Self {
        if Self::read_ends(read) {
            self.without_stream(v_port)
        } else {
            self
        }
    }

    /// What is extracted by a read from the stream of `v_port` that came out as `read` and left
    /// `buf` in the buffer.
    pub open spec fn read_report(
        v_port: u16,
        read: Result<usize, IoError>,
        buf: Seq<u8>,
    ) -> ActionView {
        match read {
            Ok(count) => ActionView::Data(v_port, buf.take(count as int)),
            Err(err) => if err.kind == ErrorKind::WouldBlock {
                ActionView::Nothing
            } else {
                ActionView::Error(v_port, err@)
            },
        }
    }
}

/// Input.
impl<S, L> BridgeState<S, L> {
    /// Whether `action` may be input to the bridge: a listening bridge is the half that connections
    /// and failures to accept come from, and only an active connection can be ended.
    pub open spec fn accepts(self, action: ActionView) -> bool {
        match action {
            ActionView::Connect(_) => !self.listening(),
            ActionView::AcceptError(_) => !self.listening(),
            ActionView::Data(v_port, data) => data.len() == 0 ==> self.connected(v_port),
            _ => true,
        }
    }

    /// The bridge after the input of `action`, before the effect that the input has.
    pub open spec fn after_input(self, action: ActionView) -> Self {
        match action {
            ActionView::AcceptError(_) => BridgeState { closing: true, refusing: true, ..self },
            ActionView::Error(v_port, _) => self.without_stream(v_port),
            ActionView::Data(v_port, data) => if data.len() == 0 {
                self.without_stream(v_port)
            } else {
                self
            },
            _ => self,
        }
    }

    /// What the input of `action` comes to: where to connect to, what to write, or the answer.
    pub open spec fn input_effect(self, action: ActionView) -> EffectView {
        match action {
            ActionView::Connect(v_port) => self.connect_effect(v_port),
            ActionView::Data(v_port, data) => self.write_effect(v_port, data),
            _ => EffectView::Reply(ActionView::Nothing),
        }
    }

    /// What the input of `Connect` comes to: it connects to the bridged port of this machine,
    /// unless the other half has said that it accepts no more connections.
    pub open spec fn connect_effect(self, v_port: u16) -> EffectView {
        if self.refusing {
            EffectView::Reply(ActionView::Error(v_port, IoErrorView::not_connected()))
        } else {
            EffectView::Connect(v_port, LocalAddressView::loopback(self.port))
        }
    }

    /// What the input of `Data` comes to: the data is written to the connection of `v_port`. No
    /// data is the end of the connection, and data for a connection that is no longer active is
    /// answered with an error.
    pub open spec fn write_effect(self, v_port: u16, data: Seq<u8>) -> EffectView {
        if data.len() == 0 {
            EffectView::Reply(ActionView::Nothing)
        } else if self.connected(v_port) {
            EffectView::Write(v_port, data)
        } else {
            EffectView::Reply(ActionView::Error(v_port, IoErrorView::not_connected()))
        }
    }

    /// Whether the bridge opens connections that are input to it.
    pub open spec fn connects(self) -> bool {
        !self.listening() && !self.refusing
    }

    /// The bridge after an attempt to connect for `v_port` that came out as `connected`.
    pub open spec fn after_connect(self, v_port: u16, connected: Result<S, IoError>) -> Self {
        match connected {
            Ok(stream) => self.with_stream(v_port, stream),
            Err(_) => self,
        }
    }

    /// The answer to `Connect`, when the attempt to connect came out as `connected`.
    pub open spec fn connect_reply(v_port: u16, connected: Result<S, IoError>) -> ActionView {
        match connected {
            Ok(_) => ActionView::Nothing,
            Err(err) => ActionView::Error(v_port, err@),
        }
    }

    /// The answer to `Data`, when writing it came out as `written`.
    pub open spec fn write_reply(v_port: u16, written: Result<(), IoError>) -> ActionView {
        match written {
            Ok(_) => ActionView::Nothing,
            Err(err) => ActionView::Error(v_port, err@),
        }
    }
}

} // verus!
