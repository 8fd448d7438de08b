use vstd::prelude::*;

use crate::error::CallbackError;
use crate::event::{translate_event, translated, InboundEvent, InboundEventModel};
use crate::message::{Message, MessageModel};

verus! {

/// The capability through which a subscriber receives messages. The pump
/// invokes it once per inbound item, in arrival order, never concurrently;
/// a failure it returns is absorbed and never stops the subscription.
pub trait GossipMessageCallback {
    /// Handles one delivered message.
    fn on_message(&self, msg: Message) -> Result<(), CallbackError>;
}

/// The lifecycle of the delivery pump of one subscription.
#[derive(Debug, Clone, Copy, PartialEq, Eq, Structural)]
pub enum PumpState {
    /// The pump is consuming the inbound stream and delivering messages.
    Running,
    /// The pump observed the cancellation signal, or the stream was
    /// exhausted, and is leaving its loop; no further item is consumed.
    Stopping,
    /// The loop has exited; no further callback invocation occurs.
    Stopped,
}

/// What one iteration of the pump's loop observes, reduced to plain values.
/// The cancellation signal is checked with priority: an iteration that sees
/// it never also consumes a stream item.
pub enum PumpInput {
    /// The shared cancellation signal was observed set.
    Cancelled,
    /// The next inbound stream item became ready.
    Item(InboundEvent),
    /// The inbound stream is exhausted: the engine closed it.
    Exhausted,
}

/// The mathematical model of a [`PumpInput`].
pub enum PumpInputModel {
    Cancelled,
    Item(InboundEventModel),
    Exhausted,
}

impl View for PumpInput {
    type V = PumpInputModel;

    open spec fn view(&self) -> PumpInputModel {
        match self {
            PumpInput::Cancelled => PumpInputModel::Cancelled,
            PumpInput::Item(e) => PumpInputModel::Item(e@),
            PumpInput::Exhausted => PumpInputModel::Exhausted,
        }
    }
}

impl DeepView for PumpInput {
    type V = PumpInputModel;

    open spec fn deep_view(&self) -> PumpInputModel {
        self.view()
    }
}

/// The messages a pump delivers for a sequence of loop observations: one
/// translated message per inbound item, in arrival order, and nothing at or
/// after the first observation of cancellation or exhaustion.
pub open spec fn deliveries(inputs: Seq<PumpInputModel>) -> Seq<MessageModel>
    decreases inputs.len(),
{
    if inputs.len() == 0 {
        Seq::empty()
    } else {
        match inputs[0] {
            PumpInputModel::Item(e) => seq![translated(e)] + deliveries(inputs.drop_first()),
            _ => Seq::empty(),
        }
    }
}

/// The delivery pump of one subscription: translates inbound items into
/// messages and hands them to the callback, strictly serialized, in arrival
/// order. The log of delivered messages is kept as ghost state so that the
/// delivery history can be spoken of in contracts.
pub struct Pump {
    state: PumpState,
    delivered: Ghost<Seq<MessageModel>>,
}

impl Pump {
    /// The lifecycle state of this pump.
    pub closed spec fn state(&self) -> PumpState {
        self.state
    }

    /// The messages delivered to the callback so far, in delivery order.
    pub closed spec fn log(&self) -> Seq<MessageModel> {
        self.delivered@
    }

    /// A pump starts running with nothing delivered.
    pub fn new() -> (p: Pump)
        ensures
            p.state() is Running,
            p.log() == Seq::<MessageModel>::empty(),
    {
        Pump { state: PumpState::Running, delivered: Ghost(Seq::empty()) }
    }

    /// One iteration of the loop protocol: an observed cancellation or an
    /// exhausted stream moves the pump towards its terminal state without a
    /// delivery; an inbound item is translated into exactly one message,
    /// which is handed to the callback before the next item is looked at. A
    /// failure returned by the callback is absorbed: it neither stops the
    /// pump nor surfaces anywhere else.
    pub fn step<C: GossipMessageCallback>(&mut self, cb: &C, input: PumpInput) -> (cont: bool)
        requires
            old(self).state() is Running,
        ensures
            input@ matches PumpInputModel::Item(e) ==> {
                &&& cont
                &&& final(self).state() is Running
                &&& final(self).log() == old(self).log().push(translated(e))
            },
            !(input@ is Item) ==> {
                &&& !cont
                &&& final(self).state() is Stopping
                &&& final(self).log() == old(self).log()
            },
    {
        match input {
            PumpInput::Cancelled => {
                self.state = PumpState::Stopping;
                false
            }
            PumpInput::Exhausted => {
                self.state = PumpState::Stopping;
                false
            }
            PumpInput::Item(e) => {
                let m = translate_event(e);
                self.delivered = Ghost(self.delivered@.push(m@));
                let _ = cb.on_message(m);
                true
            }
        }
    }

    /// Leaving the loop: the pump reaches its terminal state. Nothing is
    /// delivered at or after this point, since every delivery happens in
    /// [`Pump::step`], which demands a running pump.
    pub fn stop(&mut self)
        requires
            old(self).state() is Stopping,
        ensures
            final(self).state() is Stopped,
            final(self).log() == old(self).log(),
    {
        self.state = PumpState::Stopped;
    }
}

/// Runs a pump over a finite sequence of loop observations, as the delivery
/// loop of a subscription does over its lifetime: each observation is taken
/// in order, and the pump stops at the first cancellation or exhaustion, or
/// once the observations run out (an exhausted stream).
pub fn run_pump<C: GossipMessageCallback>(cb: &C, inputs: Vec<PumpInput>) -> (p: Pump)
    ensures
        p.state() is Stopped,
        p.log() == deliveries(inputs.deep_view()),
{
    let ghost all = inputs.deep_view();
    let mut rest = inputs;
    let mut p = Pump::new();
    proof {
        assert(p.log() + deliveries(rest.deep_view()) =~= deliveries(all));
    }
    loop
        invariant_except_break
            p.state() is Running,
            p.log() + deliveries(rest.deep_view()) == deliveries(all),
        ensures
            p.state() is Stopping,
            p.log() == deliveries(all),
        decreases rest.len(),
    {
        if rest.len() == 0 {
            let _ = p.step(cb, PumpInput::Exhausted);
            proof {
                assert(deliveries(rest.deep_view()) =~= Seq::<MessageModel>::empty());
                assert(p.log() =~= deliveries(all));
            }
            break;
        }
        let ghost prev_rest = rest.deep_view();
        let ghost prev_log = p.log();
        let x = rest.remove(0);
        proof {
            assert(rest.deep_view() =~= prev_rest.drop_first());
        }
        let cont = p.step(cb, x);
        if !cont {
            proof {
                assert(deliveries(prev_rest) =~= Seq::<MessageModel>::empty());
                assert(p.log() =~= deliveries(all));
            }
            break;
        }
        proof {
            assert(x@ matches PumpInputModel::Item(e) && deliveries(prev_rest) == seq![
                translated(e),
            ] + deliveries(prev_rest.drop_first()));
            assert(p.log() + deliveries(rest.deep_view()) =~= prev_log + deliveries(prev_rest));
        }
    }
    p.stop();
    p
}

/// Law: messages are delivered in the same relative order as the items they
/// come from arrive on the inbound stream — the k-th delivered message is
/// the translation of the k-th loop observation, which is an inbound item.
pub proof fn lemma_deliveries_in_arrival_order(inputs: Seq<PumpInputModel>)
    ensures
        deliveries(inputs).len() <= inputs.len(),
        forall|k: int|
            0 <= k < deliveries(inputs).len() ==> #[trigger] inputs[k] is Item && deliveries(
                inputs,
            )[k] == translated(inputs[k]->Item_0),
    decreases inputs.len(),
{
    if inputs.len() > 0 {
        match inputs[0] {
            PumpInputModel::Item(e) => {
                lemma_deliveries_in_arrival_order(inputs.drop_first());
                assert forall|k: int| 0 <= k < deliveries(inputs).len() implies #[trigger] inputs[k] is Item
                    && deliveries(inputs)[k] == translated(inputs[k]->Item_0) by {
                    if k > 0 {
                        assert(inputs.drop_first()[k - 1] == inputs[k]);
                    }
                }
            }
            _ => {}
        }
    }
}

/// Law: as long as every observation is an inbound item, nothing is
/// dropped — exactly one message is delivered per item.
pub proof fn lemma_deliveries_complete(inputs: Seq<PumpInputModel>)
    requires
        forall|k: int| 0 <= k < inputs.len() ==> #[trigger] inputs[k] is Item,
    ensures
        deliveries(inputs).len() == inputs.len(),
    decreases inputs.len(),
{
    if inputs.len() > 0 {
        assert(inputs[0] is Item);
        assert forall|k: int| 0 <= k < inputs.drop_first().len() implies #[trigger] inputs.drop_first()[k] is Item by {
            assert(inputs.drop_first()[k] == inputs[k + 1]);
        }
        lemma_deliveries_complete(inputs.drop_first());
    }
}

/// Law: a single erroring inbound item produces exactly one `Error` message,
/// and delivery of every other item, before and after it, goes on unchanged.
pub proof fn lemma_error_item_is_isolated(inputs: Seq<PumpInputModel>, i: int)
    requires
        forall|k: int| 0 <= k < inputs.len() ==> #[trigger] inputs[k] is Item,
        0 <= i < inputs.len(),
        inputs[i]->Item_0 matches InboundEventModel::Failed(description),
    ensures
        deliveries(inputs).len() == inputs.len(),
        deliveries(inputs)[i] == MessageModel::Error(inputs[i]->Item_0->Failed_0),
        forall|k: int|
            0 <= k < inputs.len() && k != i ==> deliveries(inputs)[k] == translated(
                inputs[k]->Item_0,
            ),
{
    lemma_deliveries_complete(inputs);
    lemma_deliveries_in_arrival_order(inputs);
}

/// Law: once the cancellation signal is observed, nothing further is
/// delivered — every delivery comes from an observation that arrived
/// strictly before the cancellation.
pub proof fn lemma_no_delivery_after_cancel(inputs: Seq<PumpInputModel>, i: int)
    requires
        0 <= i < inputs.len(),
        inputs[i] is Cancelled,
    ensures
        deliveries(inputs).len() <= i,
{
    lemma_deliveries_in_arrival_order(inputs);
    if deliveries(inputs).len() > i {
        assert(inputs[i] is Item);
    }
}

} // verus!
