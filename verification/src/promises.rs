//! What each operation of a bridge promises, for every input: who is connected afterwards, what is
//! reported, what is answered and what is left alone.

use vstd::prelude::*;

use crate::interface::{
    Action, ActionView, Effect, EffectView, ErrorKind, Extractable, Extraction, ExtractionView,
    IoError, IoErrorView, LocalAddress,
};
use crate::laws::{Halves, Step, Transfer};
use crate::state::BridgeState;

verus! {

/// Whether nothing but the connection of `v_port` differs between `before` and `after`.
pub open spec fn only_differs_at<S, L>(
    before: BridgeState<S, L>,
    after: BridgeState<S, L>,
    v_port: u16,
) -> bool {
    &&& after.port == before.port
    &&& after.listener == before.listener
    &&& after.closing == before.closing
    &&& after.refusing == before.refusing
    &&& forall|p: u16|
        #![trigger after.streams.contains_key(p)]
        p != v_port ==> {
            &&& after.streams.contains_key(p) == before.streams.contains_key(p)
            &&& before.streams.contains_key(p) ==> after.streams[p] == before.streams[p]
        }
}

/// Whether `effect` is the answer that there is no connection for `v_port`.
pub open spec fn says_not_connected(effect: EffectView, v_port: u16) -> bool {
    effect matches EffectView::Reply(ActionView::Error(p, e)) && {
        &&& p == v_port
        &&& e.kind == ErrorKind::NotConnected
        &&& e.code is None
        &&& e.message == "err"@
    }
}

/// Whether `action` reports `err` for the connection of `v_port`.
pub open spec fn reports_error(action: ActionView, v_port: u16, err: IoError) -> bool {
    action matches ActionView::Error(p, e) && {
        &&& p == v_port
        &&& e.kind == err.kind
        &&& e.code == err.code
        &&& e.message == err.message@
    }
}

/// A bridge that has a stream for `v_port` is connected for it, one that has a listener listens,
/// and one is closed exactly if it is closing, does not listen, and has a stream for no `v_port`.
pub proof fn law_what_a_bridge_is<S, L>(bridge: BridgeState<S, L>, v_port: u16)
    ensures
        bridge.connected(v_port) == bridge.streams.contains_key(v_port),
        bridge.listening() == (bridge.listener is Some),
        bridge.connects() == (bridge.listener is None && !bridge.refusing),
        bridge.closed() && bridge.streams.contains_key(v_port) ==> false,
        bridge.closed() ==> bridge.closing && bridge.listener is None,
        bridge.closing && bridge.listener is None && !bridge.closed() ==> exists|p: u16| #[trigger]
            bridge.streams.contains_key(p),
        bridge.valid() ==> bridge.streams.dom().finite(),
        bridge.valid() && bridge.closing ==> bridge.listener is None,
        bridge.valid() && bridge.refusing ==> bridge.closing,
{
    if bridge.closing && bridge.listener is None && !bridge.closed() {
        if forall|p: u16| !#[trigger] bridge.streams.contains_key(p) {
            assert(bridge.streams.dom() =~= Set::<u16>::empty());
        }
    }
}

/// Each view shows all that the value holds: the `v_port`, the bytes one for one, the kind, the code
/// and the text of a failure, the address.
pub proof fn law_views_show_everything<'a>(
    v_port: u16,
    data: &'a [u8],
    err: IoError,
    address: LocalAddress,
    action: Action<'a>,
    v_ports: Vec<u16>,
    accept: bool,
)
    ensures
        Action::Nothing@ == ActionView::Nothing,
        Action::Connect(v_port)@ == ActionView::Connect(v_port),
        Action::Data(v_port, data)@ == ActionView::Data(v_port, data@),
        reports_error(Action::Error(v_port, err)@, v_port, err),
        Action::AcceptError(err)@ matches ActionView::AcceptError(e) && e.kind == err.kind && e.code
            == err.code && e.message == err.message@,
        Effect::Reply(action)@ == EffectView::Reply(action@),
        Effect::Write(v_port, data)@ == EffectView::Write(v_port, data@),
        Effect::Connect(v_port, address)@ matches EffectView::Connect(p, a) && p == v_port
            && a.octets == address.octets@ && a.port == address.port,
        Extraction::Read(v_port)@ == ExtractionView::Read(v_port),
        Extraction::Done(action)@ == ExtractionView::Done(action@),
        (Extraction::Wait { v_ports, accept })@ matches ExtractionView::Wait { v_ports: w, accept: a }
            && w == v_ports@ && a == accept,
{
}

/// A connection is opened for every `Connect` that is input to a bridge that does not listen and
/// has not been told that there will be no more of them, however many connections it has: for that
/// `v_port`, at `127.0.0.1`, and at the bridged port.
pub proof fn law_connect_is_attempted<S, L>(bridge: BridgeState<S, L>, v_port: u16)
    requires
        bridge.listener is None,
        !bridge.refusing,
    ensures
        bridge.accepts(ActionView::Connect(v_port)),
        bridge.input_effect(ActionView::Connect(v_port)) == bridge.connect_effect(v_port),
        bridge.connect_effect(v_port) matches EffectView::Connect(p, address) && {
            &&& p == v_port
            &&& address.port == bridge.port
            &&& address.octets == seq![127u8, 0u8, 0u8, 1u8]
        },
        bridge.after_input(ActionView::Connect(v_port)) == bridge,
{
}

/// A `Connect` is answered with an error, and changes nothing, once the bridge has been told that
/// there will be no more of them.
pub proof fn law_connect_is_refused<S, L>(bridge: BridgeState<S, L>, v_port: u16)
    requires
        bridge.listener is None,
        bridge.refusing,
    ensures
        bridge.accepts(ActionView::Connect(v_port)),
        bridge.input_effect(ActionView::Connect(v_port)) == bridge.connect_effect(v_port),
        says_not_connected(bridge.connect_effect(v_port), v_port),
        bridge.after_input(ActionView::Connect(v_port)) == bridge,
{
}

/// A stream that is opened for `v_port` is its connection from then on, and there is nothing to
/// answer. A failure to open one is answered, and changes nothing.
pub proof fn law_connect_outcome<S, L>(
    bridge: BridgeState<S, L>,
    v_port: u16,
    stream: S,
    err: IoError,
)
    ensures
        ({
            let after = bridge.after_connect(v_port, Ok(stream));
            &&& after.streams.contains_key(v_port)
            &&& after.streams[v_port] == stream
            &&& only_differs_at(bridge, after, v_port)
        }),
        BridgeState::<S, L>::connect_reply(v_port, Ok(stream)) == ActionView::Nothing,
        bridge.after_connect(v_port, Err(err)) == bridge,
        reports_error(BridgeState::<S, L>::connect_reply(v_port, Err(err)), v_port, err),
{
}

/// To use a stream for `v_port` is to leave everything else alone.
pub proof fn law_stream_is_replaced<S, L>(bridge: BridgeState<S, L>, v_port: u16, stream: S)
    ensures
        bridge.with_stream(v_port, stream).streams.contains_key(v_port),
        bridge.with_stream(v_port, stream).streams[v_port] == stream,
        only_differs_at(bridge, bridge.with_stream(v_port, stream), v_port),
{
}

/// An emitting bridge opens a connection to its port for every client of the other half, whatever
/// has happened to it and whoever has come and gone, until it is told that there will be no more.
pub proof fn law_emitting_bridge_serves_every_client<S, L>(
    port: u16,
    steps: Seq<Step<S>>,
    v_port: u16,
)
    requires
        ({
            let bridge = BridgeState::<S, L> {
                port,
                streams: Map::empty(),
                listener: None,
                closing: false,
                refusing: false,
            };
            bridge.allows_all(steps)
        }),
        forall|i: int|
            0 <= i < steps.len() ==> !(#[trigger] steps[i] matches Step::Input(
                ActionView::AcceptError(_),
            )),
    ensures
        ({
            let bridge = BridgeState::<S, L> {
                port,
                streams: Map::empty(),
                listener: None,
                closing: false,
                refusing: false,
            };
            let later = bridge.after_all(steps);
            &&& later.accepts(ActionView::Connect(v_port))
            &&& later.input_effect(ActionView::Connect(v_port)) matches EffectView::Connect(
                p,
                address,
            ) && p == v_port && address.port == port && address.octets == seq![
                127u8,
                0u8,
                0u8,
                1u8,
            ]
        }),
{
    let bridge = BridgeState::<S, L> {
        port,
        streams: Map::empty(),
        listener: None,
        closing: false,
        refusing: false,
    };
    lemma_not_refusing_lasts(bridge, steps);
    law_connect_is_attempted(bridge.after_all(steps), v_port);
}

proof fn lemma_not_refusing_lasts<S, L>(bridge: BridgeState<S, L>, steps: Seq<Step<S>>)
    requires
        bridge.valid(),
        bridge.listener is None,
        !bridge.refusing,
        bridge.allows_all(steps),
        forall|i: int|
            0 <= i < steps.len() ==> !(#[trigger] steps[i] matches Step::Input(
                ActionView::AcceptError(_),
            )),
    ensures
        bridge.after_all(steps).listener is None,
        !bridge.after_all(steps).refusing,
        bridge.after_all(steps).port == bridge.port,
    decreases steps.len(),
{
    if steps.len() > 0 {
        let step = steps[0];
        assert(!(step matches Step::Input(ActionView::AcceptError(_))));
        assert(steps.first() == step);
        let rest = steps.drop_first();
        assert forall|i: int| 0 <= i < rest.len() implies !(#[trigger] rest[i] matches Step::Input(
            ActionView::AcceptError(_),
        )) by {
            assert(rest[i] == steps[i + 1]);
        }
        lemma_not_refusing_lasts(bridge.after(step), rest);
    }
}

/// A client that the one half accepts, and for which the other half's attempt to connect succeeds,
/// is connected on both halves, each with its own stream, unless the other half has been told that
/// there will be no more of them. However many other clients there are, nothing changes for them.
pub proof fn law_accepted_client_is_connected<S, L>(
    halves: Halves<S, L>,
    v_port: u16,
    accepted: S,
    opened: S,
)
    requires
        halves.own.listener is Some,
        !halves.own.streams.contains_key(v_port),
        halves.other.listener is None,
        !halves.other.refusing,
    ensures
        ({
            let transfer = Transfer::Accept(accepted, v_port, Ok(opened));
            let after = halves.after_transfer(transfer);
            &&& halves.may_transfer(transfer)
            &&& halves.other.accepts(Halves::<S, L>::extracted(transfer))
            &&& after.own.streams.contains_key(v_port)
            &&& after.own.streams[v_port] == accepted
            &&& after.other.streams.contains_key(v_port)
            &&& after.other.streams[v_port] == opened
            &&& only_differs_at(halves.own, after.own, v_port)
            &&& only_differs_at(halves.other, after.other, v_port)
        }),
{
}

/// A connection whose stream is ready to be read from is read from, whatever its `v_port` is, and
/// nothing has changed before that.
pub proof fn law_ready_stream_is_read<S, L>(bridge: BridgeState<S, L>, v_port: u16)
    requires
        bridge.streams.contains_key(v_port),
    ensures
        bridge.may_occur(Extractable::Read(v_port)),
        BridgeState::<S, L>::ready_outcome(Extractable::Read(v_port)) == ExtractionView::Read(
            v_port,
        ),
        bridge.after_ready(Extractable::Read(v_port)) == bridge,
{
}

/// A socket that a listener accepts from a port that has no connection is the connection of that
/// port from then on, and is reported as such.
pub proof fn law_accepted_socket_is_connected<S, L>(
    bridge: BridgeState<S, L>,
    stream: S,
    v_port: u16,
)
    requires
        bridge.listener is Some,
        !bridge.streams.contains_key(v_port),
    ensures
        ({
            let ready = Extractable::New(stream, v_port);
            let after = bridge.after_ready(ready);
            &&& bridge.may_occur(ready)
            &&& BridgeState::<S, L>::ready_outcome(ready) == ExtractionView::Done(
                ActionView::Connect(v_port),
            )
            &&& after.streams.contains_key(v_port)
            &&& after.streams[v_port] == stream
            &&& only_differs_at(bridge, after, v_port)
        }),
{
}

/// A failure of the listener is reported as it is, ends the listening and begins the closing, and
/// leaves the connections alone.
pub proof fn law_listener_failure_is_reported<S, L>(bridge: BridgeState<S, L>, err: IoError)
    requires
        bridge.listener is Some,
    ensures
        ({
            let ready = Extractable::Error(err);
            let after = bridge.after_ready(ready);
            &&& bridge.may_occur(ready)
            &&& BridgeState::<S, L>::ready_outcome(ready) matches ExtractionView::Done(
                ActionView::AcceptError(e),
            ) && e.kind == err.kind && e.code == err.code && e.message == err.message@
            &&& after.listener is None
            &&& after.closing
            &&& after.refusing == bridge.refusing
            &&& after.port == bridge.port
            &&& after.streams == bridge.streams
        }),
{
}

/// Sockets that a bridge does not have come up with nothing: no stream is ready that is not a
/// connection, and without a listener nothing is accepted. Nor is a port accepted that already has a
/// connection.
pub proof fn law_absent_sockets_are_silent<S, L>(
    bridge: BridgeState<S, L>,
    stream: S,
    v_port: u16,
    err: IoError,
)
    ensures
        !bridge.streams.contains_key(v_port) ==> !bridge.may_occur(Extractable::Read(v_port)),
        bridge.streams.contains_key(v_port) ==> !bridge.may_occur(Extractable::New(stream, v_port)),
        bridge.listener is None ==> !bridge.may_occur(Extractable::New(stream, v_port)),
        bridge.listener is None ==> !bridge.may_occur(Extractable::Error(err)),
{
}

/// A read that fails, for whatever reason but that there is nothing to read yet, is reported with
/// its `v_port` and that failure, and ends that connection and no other.
pub proof fn law_failed_read_ends_connection<S, L>(
    bridge: BridgeState<S, L>,
    v_port: u16,
    err: IoError,
    buf: Seq<u8>,
)
    requires
        bridge.streams.contains_key(v_port),
        err.kind != ErrorKind::WouldBlock,
    ensures
        reports_error(BridgeState::<S, L>::read_report(v_port, Err(err), buf), v_port, err),
        !bridge.after_read(v_port, Err(err)).streams.contains_key(v_port),
        only_differs_at(bridge, bridge.after_read(v_port, Err(err)), v_port),
{
}

/// A read that finds nothing to read yet is not reported, and changes nothing.
pub proof fn law_early_read_is_ignored<S, L>(
    bridge: BridgeState<S, L>,
    v_port: u16,
    err: IoError,
    buf: Seq<u8>,
)
    requires
        bridge.streams.contains_key(v_port),
        err.kind == ErrorKind::WouldBlock,
    ensures
        BridgeState::<S, L>::read_report(v_port, Err(err), buf) == ActionView::Nothing,
        bridge.after_read(v_port, Err(err)) == bridge,
{
}

/// The end of a stream is reported as no data for its `v_port`, and ends that connection and no
/// other.
pub proof fn law_end_of_stream_ends_connection<S, L>(
    bridge: BridgeState<S, L>,
    v_port: u16,
    buf: Seq<u8>,
)
    requires
        bridge.streams.contains_key(v_port),
    ensures
        BridgeState::<S, L>::read_report(v_port, Ok(0), buf) matches ActionView::Data(p, data) && p
            == v_port && data.len() == 0,
        !bridge.after_read(v_port, Ok(0)).streams.contains_key(v_port),
        only_differs_at(bridge, bridge.after_read(v_port, Ok(0)), v_port),
{
}

/// Bytes that are read are reported for their `v_port`, every one of them, in order and no others,
/// and the connection remains.
pub proof fn law_read_bytes_are_reported<S, L>(
    bridge: BridgeState<S, L>,
    v_port: u16,
    count: usize,
    buf: Seq<u8>,
)
    requires
        bridge.streams.contains_key(v_port),
        0 < count <= buf.len(),
    ensures
        BridgeState::<S, L>::read_report(v_port, Ok(count), buf) matches ActionView::Data(p, data)
            && {
            &&& p == v_port
            &&& data.len() == count
            &&& forall|i: int| 0 <= i < count ==> #[trigger] data[i] == buf[i]
        },
        bridge.after_read(v_port, Ok(count)) == bridge,
{
}

/// Data for an active connection is written to it, whole and unchanged, and changes nothing else.
pub proof fn law_data_is_written<S, L>(bridge: BridgeState<S, L>, v_port: u16, data: Seq<u8>)
    requires
        bridge.streams.contains_key(v_port),
        data.len() > 0,
    ensures
        bridge.accepts(ActionView::Data(v_port, data)),
        bridge.input_effect(ActionView::Data(v_port, data)) == EffectView::Write(v_port, data),
        bridge.write_effect(v_port, data) == EffectView::Write(v_port, data),
        bridge.after_input(ActionView::Data(v_port, data)) == bridge,
{
}

/// Data for a connection that is not active is answered with an error for it, on either half,
/// listening or not, and changes nothing.
pub proof fn law_data_without_connection_is_refused<S, L>(
    bridge: BridgeState<S, L>,
    v_port: u16,
    data: Seq<u8>,
)
    requires
        !bridge.streams.contains_key(v_port),
        data.len() > 0,
    ensures
        bridge.accepts(ActionView::Data(v_port, data)),
        says_not_connected(bridge.input_effect(ActionView::Data(v_port, data)), v_port),
        says_not_connected(bridge.write_effect(v_port, data), v_port),
        bridge.after_input(ActionView::Data(v_port, data)) == bridge,
{
}

/// No data ends the connection that it is for and no other, and is answered with nothing.
pub proof fn law_no_data_ends_connection<S, L>(
    bridge: BridgeState<S, L>,
    v_port: u16,
    data: Seq<u8>,
)
    requires
        bridge.streams.contains_key(v_port),
        data.len() == 0,
    ensures
        ({
            let action = ActionView::Data(v_port, data);
            let after = bridge.after_input(action);
            &&& bridge.accepts(action)
            &&& bridge.input_effect(action) == EffectView::Reply(ActionView::Nothing)
            &&& bridge.write_effect(v_port, data) == EffectView::Reply(ActionView::Nothing)
            &&& !after.streams.contains_key(v_port)
            &&& only_differs_at(bridge, after, v_port)
        }),
{
}

/// Data that is written is answered with nothing, and data that cannot be written with the failure.
pub proof fn law_write_outcome<S, L>(v_port: u16, err: IoError)
    ensures
        BridgeState::<S, L>::write_reply(v_port, Ok(())) == ActionView::Nothing,
        reports_error(BridgeState::<S, L>::write_reply(v_port, Err(err)), v_port, err),
{
}

/// Data that is read on one half of a connection that the other half no longer has ends the
/// connection on the reading half too, and leaves the other half as it is.
pub proof fn law_lost_connection_is_given_up<S, L>(
    halves: Halves<S, L>,
    v_port: u16,
    count: usize,
    buf: Seq<u8>,
    written: Result<(), IoError>,
)
    requires
        halves.own.streams.contains_key(v_port),
        !halves.other.streams.contains_key(v_port),
        0 < count <= buf.len(),
    ensures
        ({
            let transfer = Transfer::<S>::Read(v_port, Ok(count), buf, written);
            let after = halves.after_transfer(transfer);
            &&& halves.may_transfer(transfer)
            &&& halves.other.accepts(Halves::<S, L>::extracted(transfer))
            &&& !after.own.streams.contains_key(v_port)
            &&& only_differs_at(halves.own, after.own, v_port)
            &&& after.other == halves.other
        }),
{
}

/// An error that is input ends the connection that it is for and no other, if there still is one,
/// and is answered with nothing, on every bridge.
pub proof fn law_error_ends_connection<S, L>(
    bridge: BridgeState<S, L>,
    v_port: u16,
    err: IoErrorView,
)
    ensures
        bridge.accepts(ActionView::Error(v_port, err)),
        bridge.input_effect(ActionView::Error(v_port, err)) == EffectView::Reply(
            ActionView::Nothing,
        ),
        !bridge.after_input(ActionView::Error(v_port, err)).streams.contains_key(v_port),
        only_differs_at(bridge, bridge.after_input(ActionView::Error(v_port, err)), v_port),
        !bridge.without_stream(v_port).streams.contains_key(v_port),
        only_differs_at(bridge, bridge.without_stream(v_port), v_port),
{
}

/// An `AcceptError` that is input begins the closing and the refusing, leaves the connections alone,
/// and is answered with nothing.
pub proof fn law_accept_error_begins_refusing<S, L>(bridge: BridgeState<S, L>, err: IoErrorView)
    requires
        bridge.listener is None,
    ensures
        ({
            let action = ActionView::AcceptError(err);
            let after = bridge.after_input(action);
            &&& bridge.accepts(action)
            &&& bridge.input_effect(action) == EffectView::Reply(ActionView::Nothing)
            &&& after.closing
            &&& after.refusing
            &&& after.listener is None
            &&& after.port == bridge.port
            &&& after.streams == bridge.streams
        }),
{
}

/// Nothing that is input changes nothing and is answered with nothing.
pub proof fn law_nothing_does_nothing<S, L>(bridge: BridgeState<S, L>)
    ensures
        bridge.accepts(ActionView::Nothing),
        bridge.input_effect(ActionView::Nothing) == EffectView::Reply(ActionView::Nothing),
        bridge.after_input(ActionView::Nothing) == bridge,
{
}

/// What only the listening half can have extracted is not input to it, and a connection that is not
/// active is not ended by no data.
pub proof fn law_listening_half_is_not_connected_to<S, L>(
    bridge: BridgeState<S, L>,
    v_port: u16,
    err: IoErrorView,
)
    ensures
        bridge.listener is Some ==> !bridge.accepts(ActionView::Connect(v_port)),
        bridge.listener is Some ==> !bridge.accepts(ActionView::AcceptError(err)),
        !bridge.streams.contains_key(v_port) ==> !bridge.accepts(
            ActionView::Data(v_port, Seq::empty()),
        ),
{
}

/// To be told to close ends the listening and begins the closing, and changes nothing else.
pub proof fn law_close_begins_closing<S, L>(bridge: BridgeState<S, L>)
    ensures
        bridge.shut().closing,
        bridge.shut().listener is None,
        bridge.shut().refusing == bridge.refusing,
        bridge.shut().port == bridge.port,
        bridge.shut().streams == bridge.streams,
{
}

/// A bridge begins to close only when it is told to, when its listener fails, or when an
/// `AcceptError` is input to it; it begins to refuse only by the last of these, and stops listening
/// only by the first two.
pub proof fn law_only_three_things_begin_closing<S, L>(bridge: BridgeState<S, L>, step: Step<S>)
    requires
        bridge.valid(),
        bridge.allows(step),
    ensures
        ({
            let after = bridge.after(step);
            let told = step is Close;
            let failed = step matches Step::Ready(Extractable::Error(_));
            let refused = step matches Step::Input(ActionView::AcceptError(_));
            &&& after.closing == (bridge.closing || told || failed || refused)
            &&& after.refusing == (bridge.refusing || refused)
            &&& after.listener == (if told || failed {
                None
            } else {
                bridge.listener
            })
            &&& after.port == bridge.port
        }),
{
}

/// A bridge that has had none of these is not closed, and waits for more, whatever connections have
/// come and gone; if it was listening, it still is.
pub proof fn law_open_bridge_stays_open<S, L>(bridge: BridgeState<S, L>, steps: Seq<Step<S>>)
    requires
        bridge.valid(),
        !bridge.closing,
        bridge.allows_all(steps),
        forall|i: int|
            0 <= i < steps.len() ==> !(#[trigger] steps[i] is Close) && !(steps[i] matches Step::Ready(
                Extractable::Error(_),
            )) && !(steps[i] matches Step::Input(ActionView::AcceptError(_))),
    ensures
        !bridge.after_all(steps).closed(),
        !bridge.after_all(steps).closing,
        !bridge.after_all(steps).refusing,
        bridge.after_all(steps).listener == bridge.listener,
    decreases steps.len(),
{
    if steps.len() > 0 {
        let step = steps[0];
        assert(!(step is Close));
        assert(steps.first() == step);
        law_only_three_things_begin_closing(bridge, step);
        let rest = steps.drop_first();
        assert forall|i: int| 0 <= i < rest.len() implies !(#[trigger] rest[i] is Close) && !(
        rest[i] matches Step::Ready(Extractable::Error(_))) && !(rest[i] matches Step::Input(
            ActionView::AcceptError(_),
        )) by {
            assert(rest[i] == steps[i + 1]);
        }
        law_open_bridge_stays_open(bridge.after(step), rest);
    }
}

} // verus!
