//! Forwarding of backend events to the listener of the user interface.
//!
//! An event reaches whoever is registered when it comes, and is dropped if no one is. Falling
//! behind loses events but does not end the forwarding; only the end of the event stream does.
use vstd::prelude::*;

verus! {

/// What came of waiting for an event.
pub enum Received<E> {
    /// An event.
    Event(E),
    /// Some events were lost.
    Lagged,
    /// There are no more events.
    Closed,
}

/// What is done about it.
pub enum ForwardStep<H, E> {
    /// Hand the event to the listener, then wait on.
    Deliver(H, E),
    /// Wait on.
    Ignore,
    /// Report that events were lost, then wait on.
    Warn,
    /// End.
    End,
}

/// The step for what was received while `handler` was registered.
pub open spec fn step_for<H, E>(received: Received<E>, handler: Option<H>) -> ForwardStep<H, E> {
    match received {
        Received::Event(event) => match handler {
            Some(handler) => ForwardStep::Deliver(handler, event),
            None => ForwardStep::Ignore,
        },
        Received::Lagged => ForwardStep::Warn,
        Received::Closed => ForwardStep::End,
    }
}

/// Decides on what was received, with the handler that is registered now.
pub fn forward_backend_event<H, E>(received: Received<E>, handler: Option<H>) -> (step: ForwardStep<
    H,
    E,
>)
    ensures
        step == step_for(received, handler),
        received matches Received::Event(event) ==> (handler matches Some(registered) ==> step
            == ForwardStep::Deliver(registered, event)),
        received is Event && handler is None ==> step is Ignore,
        received is Lagged ==> step is Warn,
        received is Closed ==> step is End,
{
    match received {
        Received::Event(event) => match handler {
            Some(handler) => ForwardStep::Deliver(handler, event),
            None => ForwardStep::Ignore,
        },
        Received::Lagged => ForwardStep::Warn,
        Received::Closed => ForwardStep::End,
    }
}

/// Forwarding has ended by the time `inputs` have come: what was received and the handler
/// registered then, one after another.
pub open spec fn has_ended<H, E>(inputs: Seq<(Received<E>, Option<H>)>) -> bool {
    exists|i: int|
        0 <= i < inputs.len() && step_for((#[trigger] inputs[i]).0, inputs[i].1) is End
}

/// What is delivered of `inputs`, and to whom, in order.
pub open spec fn delivered<H, E>(inputs: Seq<(Received<E>, Option<H>)>) -> Seq<(H, E)>
    decreases inputs.len(),
{
    if inputs.len() == 0 {
        Seq::empty()
    } else {
        let before = delivered(inputs.drop_last());
        match step_for(inputs.last().0, inputs.last().1) {
            ForwardStep::Deliver(handler, event) if !has_ended(inputs.drop_last()) => before.push(
                (handler, event),
            ),
            _ => before,
        }
    }
}

/// An event came, and someone was registered.
pub open spec fn is_heard<H, E>(input: (Received<E>, Option<H>)) -> bool {
    input.0 is Event && input.1 is Some
}

/// Until the event stream ends, what is delivered is every event that came while someone was
/// registered, once each, in the order in which they came, and nothing else.
pub proof fn delivers_what_is_heard<H, E>(inputs: Seq<(Received<E>, Option<H>)>)
    requires
        forall|i: int| 0 <= i < inputs.len() ==> !((#[trigger] inputs[i]).0 is Closed),
    ensures
        delivered(inputs) == inputs.filter(
            |input: (Received<E>, Option<H>)| is_heard(input),
        ).map_values(|input: (Received<E>, Option<H>)| (input.1->0, input.0->Event_0)),
    decreases inputs.len(),
{
    reveal(Seq::filter);
    let heard = |input: (Received<E>, Option<H>)| is_heard(input);
    let unpack = |input: (Received<E>, Option<H>)| (input.1->0, input.0->Event_0);
    if inputs.len() == 0 {
        assert(inputs.filter(heard).map_values(unpack) =~= Seq::empty());
    } else {
        let before = inputs.drop_last();
        let last = inputs.last();
        delivers_what_is_heard(before);
        if is_heard(last) {
            assert(inputs.filter(heard) == before.filter(heard).push(last));
            assert(before.filter(heard).push(last).map_values(unpack) =~= before.filter(
                heard,
            ).map_values(unpack).push(unpack(last)));
        } else {
            assert(inputs.filter(heard) == before.filter(heard));
        }
    }
}

/// Once the event stream has ended, nothing is delivered any more.
pub proof fn nothing_follows_the_end<H, E>(
    inputs: Seq<(Received<E>, Option<H>)>,
    later: Seq<(Received<E>, Option<H>)>,
)
    requires
        has_ended(inputs),
    ensures
        delivered(inputs + later) == delivered(inputs),
    decreases later.len(),
{
    if later.len() == 0 {
        assert(inputs + later =~= inputs);
    } else {
        let before = later.drop_last();
        nothing_follows_the_end(inputs, before);
        assert((inputs + later).drop_last() =~= inputs + before);
        let i = choose|i: int|
            0 <= i < inputs.len() && step_for((#[trigger] inputs[i]).0, inputs[i].1) is End;
        assert((inputs + before)[i] == inputs[i]);
        assert(has_ended(inputs + before));
    }
}

/// An event is delivered exactly if someone is registered, to whoever that is and unchanged; the
/// loss of events is reported exactly if events were lost.
pub proof fn events_reach_whoever_is_registered<H, E>(received: Received<E>, handler: Option<H>)
    ensures
        step_for(received, handler) is Deliver <==> received is Event && handler is Some,
        step_for(received, handler) matches ForwardStep::Deliver(to, event) ==> received
            == Received::Event(event) && handler == Some(to),
        step_for(received, handler) is Warn <==> received is Lagged,
{
}

/// Forwarding ends with the event stream and with nothing else: not by losing events, nor for
/// want of a listener.
pub proof fn ends_with_the_stream<H, E>(received: Received<E>, handler: Option<H>)
    ensures
        step_for(received, handler) is End <==> received is Closed,
{
}

} // verus!
