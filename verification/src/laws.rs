//! What holds of bridges beyond single operations.

use vstd::prelude::*;

use crate::interface::{ActionView, EffectView, Extractable, ExtractionView, IoError, IoErrorView};
use crate::state::BridgeState;

verus! {

/// One operation on a bridge.
pub enum Step<S> {
    /// `extract_ready`
    Ready(Extractable<S>),
    /// `extract_from`
    Read(u16, Result<usize, IoError>),
    /// `input`
    Input(ActionView),
    /// `connect_done`
    Connect(u16, Result<S, IoError>),
    /// `stream_mut`, and what it leaves of the stream
    Use(u16, S),
    /// `input_error`
    InputError(u16),
    /// `close`
    Close,
}

impl<S> Step<S> {
    /// Whether the operation has to do with the connection of `v_port`.
    pub open spec fn concerns(self, v_port: u16) -> bool {
        match self {
            Step::Ready(Extractable::New(_, p)) => p == v_port,
            Step::Read(p, _) => p == v_port,
            Step::Input(ActionView::Error(p, _)) => p == v_port,
            Step::Input(ActionView::Data(p, _)) => p == v_port,
            Step::Connect(p, _) => p == v_port,
            Step::Use(p, _) => p == v_port,
            Step::InputError(p) => p == v_port,
            _ => false,
        }
    }

    /// Whether the operation makes a connection for `v_port`.
    pub open spec fn connects(self, v_port: u16) -> bool {
        match self {
            Step::Ready(Extractable::New(_, p)) => p == v_port,
            Step::Connect(p, Ok(_)) => p == v_port,
            _ => false,
        }
    }
}

impl<S, L> BridgeState<S, L> {
    /// Whether the operation can be performed on the bridge.
    pub open spec fn allows(self, step: Step<S>) -> bool {
        match step {
            Step::Ready(ready) => self.may_occur(ready),
            Step::Read(v_port, _) => self.connected(v_port),
            Step::Input(action) => self.accepts(action),
            Step::Connect(_, _) => self.connects(),
            Step::Use(v_port, _) => self.connected(v_port),
            Step::InputError(_) => true,
            Step::Close => true,
        }
    }

    /// The bridge after the operation.
    pub open spec fn after(self, step: Step<S>) -> Self {
        match step {
            Step::Ready(ready) => self.after_ready(ready),
            Step::Read(v_port, read) => self.after_read(v_port, read),
            Step::Input(action) => self.after_input(action),
            Step::Connect(v_port, connected) => self.after_connect(v_port, connected),
            Step::Use(v_port, stream) => self.with_stream(v_port, stream),
            Step::InputError(v_port) => self.without_stream(v_port),
            Step::Close => self.shut(),
        }
    }

    /// Whether each operation of `steps` can be performed in its turn, from the bridge on.
    pub open spec fn allows_all(self, steps: Seq<Step<S>>) -> bool
        decreases steps.len(),
    {
        steps.len() == 0 || {
            &&& self.allows(steps.first())
            &&& self.after(steps.first()).allows_all(steps.drop_first())
        }
    }

    /// The bridge after all the operations of `steps`, in their turn.
    pub open spec fn after_all(self, steps: Seq<Step<S>>) -> Self
        decreases steps.len(),
    {
        if steps.len() == 0 {
            self
        } else {
            self.after(steps.first()).after_all(steps.drop_first())
        }
    }

    /// Whether the bridge will get no more connections: it accepts none, and opens none.
    pub open spec fn winding_down(self) -> bool {
        !self.listening() && self.refusing
    }
}

/// Every operation keeps the invariant.
pub proof fn law_steps_keep_invariant<S, L>(bridge: BridgeState<S, L>, step: Step<S>)
    requires
        bridge.valid(),
        bridge.allows(step),
    ensures
        bridge.after(step).valid(),
{
}

/// The bridged port never changes, a bridge never begins to listen, and neither closing nor
/// refusing is ever undone.
pub proof fn law_progress_is_one_way<S, L>(bridge: BridgeState<S, L>, step: Step<S>)
    requires
        bridge.valid(),
        bridge.allows(step),
    ensures
        bridge.after(step).port == bridge.port,
        bridge.after(step).listening() ==> bridge.after(step).listener == bridge.listener,
        bridge.closing ==> bridge.after(step).closing,
        bridge.refusing ==> bridge.after(step).refusing,
{
}

/// An operation leaves alone every connection that it does not concern.
pub proof fn law_connections_are_independent<S, L>(
    bridge: BridgeState<S, L>,
    step: Step<S>,
    v_port: u16,
)
    requires
        bridge.valid(),
        bridge.allows(step),
        !step.concerns(v_port),
    ensures
        bridge.after(step).connected(v_port) == bridge.connected(v_port),
        bridge.connected(v_port) ==> bridge.after(step).streams[v_port] == bridge.streams[v_port],
{
}

/// Connections come from nothing but a listener that accepts one or an attempt to connect that
/// succeeds.
pub proof fn law_only_connecting_connects<S, L>(
    bridge: BridgeState<S, L>,
    step: Step<S>,
    v_port: u16,
)
    requires
        bridge.valid(),
        bridge.allows(step),
        !bridge.connected(v_port),
    ensures
        bridge.after(step).connected(v_port) == step.connects(v_port),
{
}

/// Nothing comes up on the sockets of a closed bridge.
pub proof fn law_closed_bridge_is_silent<S, L>(bridge: BridgeState<S, L>, ready: Extractable<S>)
    requires
        bridge.valid(),
        bridge.closed(),
    ensures
        !bridge.may_occur(ready),
{
}

/// After a failure to accept, a bridge never accepts a connection again, whatever happens, and it
/// is closed whenever it has no connections left: at once if it has none.
pub proof fn law_accept_error_ends_listening<S, L>(
    bridge: BridgeState<S, L>,
    err: IoError,
    steps: Seq<Step<S>>,
)
    requires
        bridge.valid(),
        bridge.may_occur(Extractable::Error(err)),
        bridge.after_ready(Extractable::Error(err)).allows_all(steps),
    ensures
        ({
            let after = bridge.after_ready(Extractable::Error(err));
            let later = after.after_all(steps);
            &&& after.streams == bridge.streams
            &&& after.closed() == bridge.streams.is_empty()
            &&& !later.listening()
            &&& later.closed() == later.streams.is_empty()
            &&& forall|stream: S, v_port: u16|
                !#[trigger] later.may_occur(Extractable::New(stream, v_port))
        }),
{
    lemma_closing_lasts(bridge.shut(), steps);
}

/// A bridge that is told to close never accepts a connection again, whatever happens, and it is
/// closed whenever it has no connections left: at once if it has none.
pub proof fn law_close_ends_listening<S, L>(bridge: BridgeState<S, L>, steps: Seq<Step<S>>)
    requires
        bridge.valid(),
        bridge.shut().allows_all(steps),
    ensures
        ({
            let later = bridge.shut().after_all(steps);
            &&& bridge.shut().streams == bridge.streams
            &&& bridge.shut().closed() == bridge.streams.is_empty()
            &&& !later.listening()
            &&& later.closed() == later.streams.is_empty()
            &&& forall|stream: S, v_port: u16|
                !#[trigger] later.may_occur(Extractable::New(stream, v_port))
        }),
{
    lemma_closing_lasts(bridge.shut(), steps);
}

/// A bridge that is closing stays so.
proof fn lemma_closing_lasts<S, L>(bridge: BridgeState<S, L>, steps: Seq<Step<S>>)
    requires
        bridge.valid(),
        bridge.closing,
        bridge.allows_all(steps),
    ensures
        bridge.after_all(steps).valid(),
        bridge.after_all(steps).closing,
    decreases steps.len(),
{
    if steps.len() > 0 {
        lemma_closing_lasts(bridge.after(steps.first()), steps.drop_first());
    }
}

/// A closing bridge terminates with its last connection.
pub proof fn law_last_connection_closes<S, L>(
    bridge: BridgeState<S, L>,
    step: Step<S>,
    v_port: u16,
)
    requires
        bridge.valid(),
        bridge.closing,
        bridge.streams.dom() == set![v_port],
        bridge.allows(step),
        !bridge.after(step).connected(v_port),
    ensures
        bridge.after(step).closed(),
{
    let after = bridge.after(step);
    assert(bridge.connected(v_port));
    assert forall|p: u16| !#[trigger] after.streams.dom().contains(p) by {
        if p != v_port {
            law_only_connecting_connects(bridge, step, p);
        }
    }
}

/// Once an `AcceptError` is input, every `Connect` that follows fails: it is answered with an
/// error, without an attempt to connect, and makes no connection, whatever happens in between.
pub proof fn law_connect_fails_after_accept_error<S, L>(
    bridge: BridgeState<S, L>,
    err: IoErrorView,
    steps: Seq<Step<S>>,
    v_port: u16,
)
    requires
        bridge.valid(),
        bridge.accepts(ActionView::AcceptError(err)),
        bridge.after_input(ActionView::AcceptError(err)).allows_all(steps),
    ensures
        ({
            let later = bridge.after_input(ActionView::AcceptError(err)).after_all(steps);
            let connect = ActionView::Connect(v_port);
            &&& later.accepts(connect)
            &&& later.input_effect(connect) == EffectView::Reply(
                ActionView::Error(v_port, IoErrorView::not_connected()),
            )
            &&& later.after_input(connect) == later
        }),
{
    lemma_winding_down(bridge.after_input(ActionView::AcceptError(err)), steps);
}

/// Once an `AcceptError` is input, the bridge keeps to the connections that it has and, when all
/// of them have terminated, is closed for good.
pub proof fn law_accept_error_is_final<S, L>(
    bridge: BridgeState<S, L>,
    err: IoErrorView,
    steps: Seq<Step<S>>,
)
    requires
        bridge.valid(),
        bridge.accepts(ActionView::AcceptError(err)),
        bridge.after_input(ActionView::AcceptError(err)).allows_all(steps),
    ensures
        ({
            let later = bridge.after_input(ActionView::AcceptError(err)).after_all(steps);
            &&& later.streams.dom().subset_of(bridge.streams.dom())
            &&& later.closed() == later.streams.is_empty()
            &&& bridge.streams.is_empty() ==> later.closed()
        }),
{
    let failed = bridge.after_input(ActionView::AcceptError(err));
    lemma_winding_down(failed, steps);
    if bridge.streams.is_empty() {
        assert(failed.after_all(steps).streams.dom() =~= Set::<u16>::empty());
    }
}

/// A bridge that is winding down stays so, and gets no connection.
proof fn lemma_winding_down<S, L>(bridge: BridgeState<S, L>, steps: Seq<Step<S>>)
    requires
        bridge.valid(),
        bridge.winding_down(),
        bridge.allows_all(steps),
    ensures
        bridge.after_all(steps).valid(),
        bridge.after_all(steps).winding_down(),
        bridge.after_all(steps).streams.dom().subset_of(bridge.streams.dom()),
    decreases steps.len(),
{
    if steps.len() > 0 {
        let step = steps.first();
        let after = bridge.after(step);
        assert forall|p: u16| after.streams.dom().contains(p) implies bridge.streams.dom().contains(
            p,
        ) by {
            if !bridge.connected(p) {
                law_only_connecting_connects(bridge, step, p);
            }
        }
        lemma_winding_down(after, steps.drop_first());
    }
}

/// To close a bridge twice is to close it once.
pub proof fn law_close_is_idempotent<S, L>(bridge: BridgeState<S, L>)
    requires
        bridge.valid(),
    ensures
        bridge.shut().shut() == bridge.shut(),
{
}

/// Ending a connection undoes making it, on either side.
pub proof fn law_end_undoes_connect<S, L>(bridge: BridgeState<S, L>, stream: S, v_port: u16)
    requires
        bridge.valid(),
        !bridge.connected(v_port),
    ensures
        bridge.after_ready(Extractable::New(stream, v_port)).after_read(v_port, Ok(0)) == bridge,
        bridge.after_connect(v_port, Ok(stream)).after_input(
            ActionView::Data(v_port, Seq::empty()),
        ) == bridge,
        bridge.with_stream(v_port, stream).without_stream(v_port) == bridge,
{
    assert(bridge.streams.insert(v_port, stream).remove(v_port) =~= bridge.streams);
}

impl<S, L> BridgeState<S, L> {
    /// The answer to the input of `action` in the end, where an attempt to connect comes out as
    /// `connected` and writing comes out as `written`.
    pub open spec fn answer(
        self,
        action: ActionView,
        connected: Result<S, IoError>,
        written: Result<(), IoError>,
    ) -> ActionView {
        match self.input_effect(action) {
            EffectView::Reply(reply) => reply,
            EffectView::Connect(v_port, _) => Self::connect_reply(v_port, connected),
            EffectView::Write(v_port, _) => Self::write_reply(v_port, written),
        }
    }

    /// The bridge after the input of `action` in the end, where an attempt to connect comes out as
    /// `connected`.
    pub open spec fn after_answer(
        self,
        action: ActionView,
        connected: Result<S, IoError>,
    ) -> Self {
        match self.input_effect(action) {
            EffectView::Connect(v_port, _) => self.after_input(action).after_connect(
                v_port,
                connected,
            ),
            _ => self.after_input(action),
        }
    }

    /// The bridge after its other half has answered `answer` to an action extracted from it.
    pub open spec fn after_answered(self, answer: ActionView) -> Self {
        match answer {
            ActionView::Error(v_port, _) => self.without_stream(v_port),
            _ => self,
        }
    }
}

/// An input is answered with nothing or with an error for the connection that the input is about,
/// and with an error only if it is `Connect` or `Data`.
pub proof fn law_answer_is_nothing_or_error<S, L>(
    bridge: BridgeState<S, L>,
    action: ActionView,
    connected: Result<S, IoError>,
    written: Result<(), IoError>,
)
    requires
        bridge.valid(),
        bridge.accepts(action),
    ensures
        match bridge.answer(action, connected, written) {
            ActionView::Nothing => true,
            ActionView::Error(v_port, _) => match action {
                ActionView::Connect(p) => p == v_port,
                ActionView::Data(p, data) => p == v_port && data.len() > 0,
                _ => false,
            },
            _ => false,
        },
{
}

/// Something that happens on a socket of one half of a bridge and is transferred to the other.
pub enum Transfer<S> {
    /// The listener accepts a stream, and the other half's attempt to connect comes out as the
    /// given result.
    Accept(S, u16, Result<S, IoError>),
    /// The listener fails.
    AcceptError(IoError),
    /// A read from the stream of a `v_port` comes out as the given result, with the given bytes in
    /// the buffer, and the other half's write, if it comes to one, comes out as the last result.
    Read(u16, Result<usize, IoError>, Seq<u8>, Result<(), IoError>),
}

impl<S> Transfer<S> {
    /// Whether data is read that the other half then fails to write.
    pub open spec fn write_fails(self) -> bool {
        self matches Transfer::Read(_, Ok(count), _, Err(_)) && count > 0
    }
}

/// Something that happens to the two halves of a bridge.
pub enum Event<S> {
    /// A transfer, from the first half to the second one if the `bool` is true, else the other way
    Transfer(bool, Transfer<S>),
    /// The first half is told to close if the `bool` is true, else the second one
    Close(bool),
}

impl<S> Event<S> {
    /// Whether data is read that the other half then fails to write.
    pub open spec fn write_fails(self) -> bool {
        self matches Event::Transfer(_, transfer) && transfer.write_fails()
    }

    /// Whether that is so of the connection of `v_port`, in the direction that is `forward`.
    pub open spec fn write_fails_on(self, forward: bool, v_port: u16) -> bool {
        &&& self.write_fails()
        &&& self matches Event::Transfer(direction, Transfer::Read(p, _, _, _))
        &&& direction == forward
        &&& p == v_port
    }

    /// The bytes that the event reads from the connection of `v_port`, where it is a transfer in
    /// the direction that is `forward`.
    pub open spec fn read_by(self, forward: bool, v_port: u16) -> Seq<u8> {
        match self {
            Event::Transfer(direction, Transfer::Read(p, Ok(count), buf, _)) => if direction
                == forward && p == v_port {
                buf.take(count as int)
            } else {
                Seq::empty()
            },
            _ => Seq::empty(),
        }
    }
}

/// The bytes that the whole of `run` reads from the connection of `v_port`, in the direction that
/// is `forward`, one after the other.
pub open spec fn bytes_read<S>(run: Seq<Event<S>>, forward: bool, v_port: u16) -> Seq<u8>
    decreases run.len(),
{
    if run.len() == 0 {
        Seq::empty()
    } else {
        run.first().read_by(forward, v_port) + bytes_read(run.drop_first(), forward, v_port)
    }
}

/// The two halves of a bridge.
pub struct Halves<S, L> {
    /// The half that something is extracted from
    pub own: BridgeState<S, L>,
    /// The half that it is input to
    pub other: BridgeState<S, L>,
}

impl<S, L> Halves<S, L> {
    /// Whether the two halves go together: at most one of them listens, and they have the same
    /// connections.
    pub open spec fn in_step(self) -> bool {
        &&& self.own.valid()
        &&& self.other.valid()
        &&& !(self.own.listening() && self.other.listening())
        &&& self.own.streams.dom() == self.other.streams.dom()
    }

    /// The two halves, the other way around.
    pub open spec fn swapped(self) -> Self {
        Halves { own: self.other, other: self.own }
    }

    /// Whether `transfer` can happen.
    pub open spec fn may_transfer(self, transfer: Transfer<S>) -> bool {
        &&& self.own.may_occur(Self::ready(transfer))
        &&& transfer matches Transfer::Read(_, Ok(count), buf, _) ==> count <= buf.len()
    }

    /// What the sockets of the half that `transfer` happens to come up with.
    pub open spec fn ready(transfer: Transfer<S>) -> Extractable<S> {
        match transfer {
            Transfer::Accept(stream, v_port, _) => Extractable::New(stream, v_port),
            Transfer::AcceptError(err) => Extractable::Error(err),
            Transfer::Read(v_port, _, _, _) => Extractable::Read(v_port),
        }
    }

    /// What a read comes out as, if the extraction goes on with one.
    pub open spec fn read(transfer: Transfer<S>) -> Result<usize, IoError> {
        match transfer {
            Transfer::Read(_, read, _, _) => read,
            _ => arbitrary(),
        }
    }

    /// What is in the buffer then.
    pub open spec fn buffer(transfer: Transfer<S>) -> Seq<u8> {
        match transfer {
            Transfer::Read(_, _, buf, _) => buf,
            _ => arbitrary(),
        }
    }

    /// The half that `transfer` happens to, once the action is extracted: after a read, if that is
    /// how the extraction goes on.
    pub open spec fn after_extract(self, transfer: Transfer<S>) -> BridgeState<S, L> {
        let ready = Self::ready(transfer);
        match BridgeState::<S, L>::ready_outcome(ready) {
            ExtractionView::Read(v_port) => self.own.after_ready(ready).after_read(
                v_port,
                Self::read(transfer),
            ),
            _ => self.own.after_ready(ready),
        }
    }

    /// What is extracted: what the read comes to, if the extraction goes on with one.
    pub open spec fn extracted(transfer: Transfer<S>) -> ActionView {
        match BridgeState::<S, L>::ready_outcome(Self::ready(transfer)) {
            ExtractionView::Read(v_port) => BridgeState::<S, L>::read_report(
                v_port,
                Self::read(transfer),
                Self::buffer(transfer),
            ),
            ExtractionView::Done(action) => action,
            ExtractionView::Wait { .. } => ActionView::Nothing,
        }
    }

    /// What an attempt of the other half to connect comes out as.
    pub open spec fn connected(transfer: Transfer<S>) -> Result<S, IoError> {
        match transfer {
            Transfer::Accept(_, _, connected) => connected,
            _ => arbitrary(),
        }
    }

    /// What the other half's write comes out as.
    pub open spec fn written(transfer: Transfer<S>) -> Result<(), IoError> {
        match transfer {
            Transfer::Read(_, _, _, written) => written,
            _ => arbitrary(),
        }
    }

    /// The two halves after `transfer`: the action is extracted from one half and input to the
    /// other, whose answer comes back to the first.
    pub open spec fn after_transfer(self, transfer: Transfer<S>) -> Self {
        let action = Self::extracted(transfer);
        let connected = Self::connected(transfer);
        let answer = self.other.answer(action, connected, Self::written(transfer));
        Halves {
            own: self.after_extract(transfer).after_answered(answer),
            other: self.other.after_answer(action, connected),
        }
    }

    /// The two halves the way around that is `forward`, or the other one.
    pub open spec fn facing(self, forward: bool) -> Self {
        if forward {
            self
        } else {
            self.swapped()
        }
    }

    /// Whether `event` can happen.
    pub open spec fn may_happen(self, event: Event<S>) -> bool {
        match event {
            Event::Transfer(forward, transfer) => self.facing(forward).may_transfer(transfer),
            Event::Close(_) => true,
        }
    }

    /// The two halves after `event`.
    pub open spec fn after_event(self, event: Event<S>) -> Self {
        match event {
            Event::Transfer(forward, transfer) => self.facing(forward).after_transfer(
                transfer,
            ).facing(forward),
            Event::Close(own) => if own {
                Halves { own: self.own.shut(), other: self.other }
            } else {
                Halves { own: self.own, other: self.other.shut() }
            },
        }
    }

    /// Whether the events of `run` can happen in their turn.
    pub open spec fn may_run(self, run: Seq<Event<S>>) -> bool
        decreases run.len(),
    {
        run.len() == 0 || {
            &&& self.may_happen(run.first())
            &&& self.after_event(run.first()).may_run(run.drop_first())
        }
    }

    /// The two halves after all the events of `run`, in their turn.
    pub open spec fn after_run(self, run: Seq<Event<S>>) -> Self
        decreases run.len(),
    {
        if run.len() == 0 {
            self
        } else {
            self.after_event(run.first()).after_run(run.drop_first())
        }
    }

    /// The bytes that `event` has the half that it goes to write to the connection of `v_port`,
    /// where `event` is a transfer in the direction that is `forward`.
    pub open spec fn written_by(self, event: Event<S>, forward: bool, v_port: u16) -> Seq<u8> {
        match event {
            Event::Transfer(direction, transfer) => match self.facing(
                direction,
            ).other.input_effect(Self::extracted(transfer)) {
                EffectView::Write(p, data) => if direction == forward && p == v_port {
                    data
                } else {
                    Seq::empty()
                },
                _ => Seq::empty(),
            },
            Event::Close(_) => Seq::empty(),
        }
    }

    /// The bytes that the whole of `run` has written to the connection of `v_port`, in the
    /// direction that is `forward`, one after the other.
    pub open spec fn bytes_written(
        self,
        run: Seq<Event<S>>,
        forward: bool,
        v_port: u16,
    ) -> Seq<u8>
        decreases run.len(),
    {
        if run.len() == 0 {
            Seq::empty()
        } else {
            self.written_by(run.first(), forward, v_port) + self.after_event(
                run.first(),
            ).bytes_written(run.drop_first(), forward, v_port)
        }
    }
}

/// A listening and an emitting bridge that are new are in step.
pub proof fn law_new_halves_are_in_step<S, L>(from: u16, to: u16, listener: L)
    ensures
        (Halves::<S, L> {
            own: BridgeState {
                port: from,
                streams: Map::empty(),
                listener: Some(listener),
                closing: false,
                refusing: false,
            },
            other: BridgeState {
                port: to,
                streams: Map::empty(),
                listener: None,
                closing: false,
                refusing: false,
            },
        }).in_step(),
{
}

/// What is extracted from one half may always be input to the other, and afterwards the two halves
/// have the same connections again: whether the other half connects or fails to, and however a
/// connection ends, as long as no write fails.
pub proof fn law_transfer_keeps_in_step<S, L>(halves: Halves<S, L>, transfer: Transfer<S>)
    requires
        halves.in_step(),
        halves.may_transfer(transfer),
        !transfer.write_fails(),
    ensures
        halves.other.accepts(Halves::<S, L>::extracted(transfer)),
        halves.after_transfer(transfer).in_step(),
{
    let after = halves.after_transfer(transfer);
    assert(after.own.streams.dom() =~= after.other.streams.dom());
}

/// Whatever is transferred, in either direction, and whenever a half is told to close, the two
/// halves have the same connections again afterwards, as long as no write fails.
pub proof fn law_halves_stay_in_step<S, L>(halves: Halves<S, L>, run: Seq<Event<S>>)
    requires
        halves.in_step(),
        halves.may_run(run),
        forall|i: int| 0 <= i < run.len() ==> !(#[trigger] run[i]).write_fails(),
    ensures
        halves.after_run(run).in_step(),
    decreases run.len(),
{
    if run.len() > 0 {
        assert(!run[0].write_fails());
        if let Event::Transfer(forward, transfer) = run.first() {
            law_transfer_keeps_in_step(halves.facing(forward), transfer);
        }
        assert forall|i: int| 0 <= i < run.drop_first().len() implies !(
        #[trigger] run.drop_first()[i]).write_fails() by {
            assert(!run[i + 1].write_fails());
        }
        law_halves_stay_in_step(halves.after_event(run.first()), run.drop_first());
    }
}

/// Each connection by itself: if the two halves agree on whether there is one for `v_port`, they
/// agree again after everything that happens, as long as no write of that connection fails. What
/// becomes of other connections has no part in it.
pub proof fn law_connection_stays_in_step<S, L>(
    halves: Halves<S, L>,
    run: Seq<Event<S>>,
    v_port: u16,
)
    requires
        halves.own.connected(v_port) == halves.other.connected(v_port),
        halves.may_run(run),
        forall|i: int|
            0 <= i < run.len() ==> !(#[trigger] run[i]).write_fails_on(true, v_port)
                && !run[i].write_fails_on(false, v_port),
    ensures
        halves.after_run(run).own.connected(v_port) == halves.after_run(run).other.connected(
            v_port,
        ),
    decreases run.len(),
{
    if run.len() > 0 {
        let after = halves.after_event(run.first());
        assert(!run[0].write_fails_on(true, v_port));
        assert(after.own.connected(v_port) == after.other.connected(v_port));
        assert forall|i: int| 0 <= i < run.drop_first().len() implies !(
        #[trigger] run.drop_first()[i]).write_fails_on(true, v_port)
            && !run.drop_first()[i].write_fails_on(false, v_port) by {
            assert(!run[i + 1].write_fails_on(true, v_port));
        }
        law_connection_stays_in_step(after, run.drop_first(), v_port);
    }
}

/// Over everything that happens, the bytes that are read from a connection on one half are the
/// bytes that the other half is made to write to the connection with the same `v_port`: all of
/// them, unchanged and in order.
///
/// At first the other half has the connection if the reading half has it. Only a failure to write
/// in the opposite direction, on the same connection, can take it away from the other half alone.
pub proof fn law_bytes_pass_in_order<S, L>(
    halves: Halves<S, L>,
    run: Seq<Event<S>>,
    forward: bool,
    v_port: u16,
)
    requires
        halves.facing(forward).own.connected(v_port) ==> halves.facing(forward).other.connected(
            v_port,
        ),
        halves.may_run(run),
        forall|i: int| 0 <= i < run.len() ==> !(#[trigger] run[i]).write_fails_on(!forward, v_port),
    ensures
        halves.bytes_written(run, forward, v_port) == bytes_read(run, forward, v_port),
    decreases run.len(),
{
    if run.len() > 0 {
        let event = run.first();
        let after = halves.after_event(event);
        assert(!run[0].write_fails_on(!forward, v_port));
        assert(halves.written_by(event, forward, v_port) =~= event.read_by(forward, v_port));
        assert forall|i: int| 0 <= i < run.drop_first().len() implies !(
        #[trigger] run.drop_first()[i]).write_fails_on(!forward, v_port) by {
            assert(!run[i + 1].write_fails_on(!forward, v_port));
        }
        law_bytes_pass_in_order(after, run.drop_first(), forward, v_port);
    }
}

/// Data that the other half fails to write ends the connection on the half that it was read from,
/// and on no other; the other half keeps its own until it reads from it.
pub proof fn law_failed_write_ends_reading_side<S, L>(halves: Halves<S, L>, transfer: Transfer<S>)
    requires
        halves.may_transfer(transfer),
        transfer.write_fails(),
        halves.other.connected(transfer->Read_0),
    ensures
        halves.other.accepts(Halves::<S, L>::extracted(transfer)),
        halves.after_transfer(transfer).own == halves.own.without_stream(transfer->Read_0),
        halves.after_transfer(transfer).other == halves.other,
{
}

/// Bytes read from a connection on one half are written to the connection with the same `v_port`
/// on the other half, if it has one: all of them and unchanged.
pub proof fn law_data_passes_unchanged<S, L>(
    halves: Halves<S, L>,
    v_port: u16,
    count: usize,
    buf: Seq<u8>,
)
    requires
        halves.other.connected(v_port),
        0 < count <= buf.len(),
    ensures
        ({
            let action = BridgeState::<S, L>::read_report(v_port, Ok(count), buf);
            &&& halves.other.accepts(action)
            &&& halves.other.input_effect(action) == EffectView::Write(
                v_port,
                buf.take(count as int),
            )
            &&& halves.own.after_read(v_port, Ok(count)) == halves.own
            &&& halves.other.after_input(action) == halves.other
        }),
{
}

/// The end of a connection on one half, of itself or by a failure to read, ends the connection with
/// the same `v_port` on the other half, if it has one, and no other.
pub proof fn law_end_passes_on<S, L>(
    halves: Halves<S, L>,
    v_port: u16,
    read: Result<usize, IoError>,
    buf: Seq<u8>,
)
    requires
        halves.other.connected(v_port),
        BridgeState::<S, L>::read_ends(read),
    ensures
        ({
            let action = BridgeState::<S, L>::read_report(v_port, read, buf);
            &&& halves.other.accepts(action)
            &&& halves.own.after_read(v_port, read) == halves.own.without_stream(v_port)
            &&& halves.other.after_input(action) == halves.other.without_stream(v_port)
            &&& halves.other.input_effect(action) == EffectView::Reply(ActionView::Nothing)
        }),
{
}

} // verus!
