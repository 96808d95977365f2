//! The values that pass between a bridge, its sockets and the other half of the bridge.
//!
//! Each of them has a view: the same value with byte slices and strings as sequences. The
//! contracts of [`crate::bridge`] speak of these views.

use vstd::prelude::*;

verus! {

/// What kind of failure an [`IoError`] stands for.
#[derive(Debug, Clone, Copy, PartialEq, Eq)]
pub enum ErrorKind {
    NotFound,
    PermissionDenied,
    ConnectionRefused,
    ConnectionReset,
    HostUnreachable,
    NetworkUnreachable,
    ConnectionAborted,
    NotConnected,
    AddrInUse,
    AddrNotAvailable,
    NetworkDown,
    BrokenPipe,
    AlreadyExists,
    WouldBlock,
    InvalidInput,
    InvalidData,
    TimedOut,
    WriteZero,
    Interrupted,
    Unsupported,
    UnexpectedEof,
    OutOfMemory,
    /// Any other kind: see the `code` of the failure
    Other,
}

/// A failure of a socket.
#[derive(Debug)]
pub struct IoError {
    /// What kind of failure it is
    pub kind: ErrorKind,
    /// The code of the operating system, where the failure has one
    pub code: Option<i32>,
    /// The failure in words
    pub message: String,
}

/// The view of an [`IoError`].
pub struct IoErrorView {
    pub kind: ErrorKind,
    pub code: Option<i32>,
    pub message: Seq<char>,
}

impl View for IoError {
    type V = IoErrorView;

    open spec fn view(&self) -> IoErrorView {
        IoErrorView { kind: self.kind, code: self.code, message: self.message@ }
    }
}

impl IoErrorView {
    /// The failure with which a bridge answers for a `v_port` that it has no connection for.
    pub open spec fn not_connected() -> IoErrorView {
        IoErrorView { kind: ErrorKind::NotConnected, code: None, message: "err"@ }
    }
}

impl IoError {
    /// The failure with which a bridge answers for a `v_port` that it has no connection for.
    pub fn not_connected() -> (err: IoError)
        ensures
            err@ == IoErrorView::not_connected(),
    {
        IoError { kind: ErrorKind::NotConnected, code: None, message: "err".to_string() }
    }
}

/// What is extracted from one half of a bridge and input to the other.
#[derive(Debug)]
pub enum Action<'a> {
    /// Nothing has happened, and nothing is to be done.
    Nothing,
    /// `Connect( ... ).0` - The given `u16` is the port of the original "client" socket. (`v_port`)
    ///
    /// When extracted:
    ///
    /// A socket has connected to the bridge.
    ///
    /// When inserted:
    ///
    /// A new connection should be emitted to the port of the Bridge.
    /// The `v_port` is to be remembered as it is used to identify following actions to their
    /// respective connections.
    Connect(u16),
    /// `Data( ... ).0` - The `v_port`. Real port of the original "client" socket and id to the
    /// connection.
    /// `Data( ... ).1` - The binary `data` of this operation. No `data` at all is the end of the
    /// connection.
    ///
    /// When extracted:
    ///
    /// `data` has been extracted for the connection identified via `v_port`
    ///
    /// When inserted:
    ///
    /// `data` should be inserted to the connection identified via `v_port`
    Data(u16, &'a [u8]),
    /// `Error( ... ).0` - The `v_port`. Real port of the original "client" socket and id to the
    /// connection.
    /// `Error( ... ).1` - The `error`
    ///
    /// When extracted:
    ///
    /// `error` has occurred extracting data for the connection identified via `v_port`.
    /// This terminates this end of the connection.
    ///
    /// When inserted:
    ///
    /// The connection identified via `v_port` is no longer active and local socket should be
    /// terminated.
    Error(u16, IoError),
    /// `AcceptError( ... ).0` - The `error`
    ///
    /// When extracted (listening bridge only):
    ///
    /// There has been a fatal `error` in accepting new connections to this Bridge.
    /// The Bridge will no longer accept connections and will terminate automatically as soon as
    /// the last active connection terminates.
    ///
    /// When inserted (connecting bridge only):
    ///
    /// Inserting following `Connect( ... )` actions fails and the Bridge terminates when all
    /// existing connections have terminated.
    AcceptError(IoError),
}

/// An `Action::Error` on its own: the `v_port` and the `error`.
#[derive(Debug)]
pub struct ErrorAction(pub u16, pub IoError);

/// The view of an [`Action`].
pub enum ActionView {
    Nothing,
    Connect(u16),
    Data(u16, Seq<u8>),
    Error(u16, IoErrorView),
    AcceptError(IoErrorView),
}

impl<'a> View for Action<'a> {
    type V = ActionView;

    open spec fn view(&self) -> ActionView {
        match *self {
            Action::Nothing => ActionView::Nothing,
            Action::Connect(v_port) => ActionView::Connect(v_port),
            Action::Data(v_port, data) => ActionView::Data(v_port, data@),
            Action::Error(v_port, err) => ActionView::Error(v_port, err@),
            Action::AcceptError(err) => ActionView::AcceptError(err@),
        }
    }
}

/// An address of this machine.
#[derive(Debug, Clone, Copy)]
pub struct LocalAddress {
    /// The four bytes of the IPv4 address
    pub octets: [u8; 4],
    /// The port
    pub port: u16,
}

/// The view of a [`LocalAddress`].
pub struct LocalAddressView {
    pub octets: Seq<u8>,
    pub port: u16,
}

impl View for LocalAddress {
    type V = LocalAddressView;

    open spec fn view(&self) -> LocalAddressView {
        LocalAddressView { octets: self.octets@, port: self.port }
    }
}

impl LocalAddressView {
    /// The loopback address `127.0.0.1`, with `port`.
    pub open spec fn loopback(port: u16) -> LocalAddressView {
        LocalAddressView { octets: seq![127u8, 0u8, 0u8, 1u8], port }
    }
}

impl LocalAddress {
    /// The loopback address `127.0.0.1`, with `port`: where a listening bridge of that port is
    /// bound, and where an emitting bridge of that port connects to.
    pub fn loopback(port: u16) -> (address: LocalAddress)
        ensures
            address@ == LocalAddressView::loopback(port),
    {
        let address = LocalAddress { octets: [127u8, 0u8, 0u8, 1u8], port };
        assert(address.octets@ =~= seq![127u8, 0u8, 0u8, 1u8]);
        address
    }
}

/// What the sockets of a bridge can come up with while an extraction waits for them.
#[derive(Debug)]
pub enum Extractable<S> {
    /// The stream of the given `v_port` is ready to be read from.
    Read(u16),
    /// The listener has accepted the given stream, from a socket with the given port.
    New(S, u16),
    /// The listener has failed.
    Error(IoError),
}

/// How an extraction goes on.
#[derive(Debug)]
pub enum Extraction<'a> {
    /// Wait for the streams of all the given `v_ports` to be ready to be read from, and, if
    /// `accept`, for the listener to accept: what comes up first goes to `extract_ready`.
    Wait { v_ports: Vec<u16>, accept: bool },
    /// Read once from the stream of the given `v_port`: what came of it goes to `extract_from`.
    Read(u16),
    /// The extraction is over, and this is what it has extracted.
    Done(Action<'a>),
}

/// The view of an [`Extraction`].
pub enum ExtractionView {
    Wait { v_ports: Seq<u16>, accept: bool },
    Read(u16),
    Done(ActionView),
}

impl<'a> View for Extraction<'a> {
    type V = ExtractionView;

    open spec fn view(&self) -> ExtractionView {
        match *self {
            Extraction::Wait { v_ports, accept } => ExtractionView::Wait {
                v_ports: v_ports@,
                accept,
            },
            Extraction::Read(v_port) => ExtractionView::Read(v_port),
            Extraction::Done(action) => ExtractionView::Done(action@),
        }
    }
}

/// How an input goes on.
#[derive(Debug)]
pub enum Effect<'a> {
    /// The input is over, and this is the answer, for the other half of the bridge.
    Reply(Action<'a>),
    /// Connect to the given address: what came of it goes to `connect_done`, with the given
    /// `v_port`.
    Connect(u16, LocalAddress),
    /// Write all of the given data to the stream of the given `v_port`: what came of it goes to
    /// `write_done`.
    Write(u16, &'a [u8]),
}

/// The view of an [`Effect`].
pub enum EffectView {
    Reply(ActionView),
    Connect(u16, LocalAddressView),
    Write(u16, Seq<u8>),
}

impl<'a> View for Effect<'a> {
    type V = EffectView;

    open spec fn view(&self) -> EffectView {
        match *self {
            Effect::Reply(action) => EffectView::Reply(action@),
            Effect::Connect(v_port, address) => EffectView::Connect(v_port, address@),
            Effect::Write(v_port, data) => EffectView::Write(v_port, data@),
        }
    }
}

} // verus!
