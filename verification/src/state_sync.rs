//! Answers to requests for a state sync.
//!
//! Each request is answered by an event, for every client, that lists how far the active cues
//! have played. Whether anyone listens makes no difference; the service ends when no request
//! can come any more.
use vstd::prelude::*;

use crate::channel::Publisher;
use crate::show::{ActiveCue, Backend, BackendEvent, CueState, ShowState, SyncData};

verus! {

/// The number of requests that can wait.
pub const SYNC_REQUEST_CAPACITY: usize = 8;

/// What the service has done, and whether it goes on.
pub enum SyncStep<B: Backend> {
    /// It has published an event to so many listeners, and waits for the next request.
    Published(usize),
    /// It had an event that no one listens for, and waits for the next request.
    Unheard(BackendEvent<B>),
    /// It ends.
    End,
}

/// The cue states that stand for a list of active cues, in the same order.
pub open spec fn cue_states<B: Backend>(active: Seq<(B::CueId, ActiveCue<B>)>) -> Seq<CueState<B>> {
    active.map_values(
        |entry: (B::CueId, ActiveCue<B>)| CueState::<B> { id: entry.0, position: entry.1.position },
    )
}

/// `event` is the sync of `state`: no latency, and the state's active cues.
pub open spec fn is_sync_of<B: Backend>(event: BackendEvent<B>, state: ShowState<B>) -> bool {
    &&& event matches BackendEvent::SyncState(data)
    &&& data.latency_bits == 0
    &&& data.cues@ == cue_states(state.active_cues@)
}

/// What the service has done when sending its answer came to `r`.
pub open spec fn step_for<B: Backend>(r: Result<usize, BackendEvent<B>>) -> SyncStep<B> {
    match r {
        Ok(listeners) => SyncStep::Published(listeners),
        Err(event) => SyncStep::Unheard(event),
    }
}

/// What came of waiting for a request was handled: a request that found the show in a state was
/// answered by sending exactly one event, the sync of that state, and `step` is what came of
/// sending it; where no request can come any more, nothing was sent and the service ends.
pub open spec fn is_handled<B: Backend>(
    before: Publisher<BackendEvent<B>>,
    request: Option<&ShowState<B>>,
    after: Publisher<BackendEvent<B>>,
    step: SyncStep<B>,
) -> bool {
    &&& after.sender() == before.sender()
    &&& match request {
        Some(state) => exists|event: BackendEvent<B>, r: Result<usize, BackendEvent<B>>|
            is_sync_of(event, *state) && after.sent() == before.sent().push(event)
                && #[trigger] crate::channel::is_sent(before.sender(), event, r) && step
                == step_for(r),
        None => after.sent() == before.sent() && step is End,
    }
}

/// Lists how far the active cues have played.
pub fn sync_data<B: Backend>(state: &ShowState<B>) -> (data: SyncData<B>)
    ensures
        data.latency_bits == 0,
        data.cues@ == cue_states(state.active_cues@),
        data.cues@.len() == state.active_cues@.len(),
        forall|i: int|
            0 <= i < state.active_cues@.len() ==> (#[trigger] data.cues@[i]).id
                == state.active_cues@[i].0 && data.cues@[i].position
                == state.active_cues@[i].1.position,
{
    let mut cues: Vec<CueState<B>> = Vec::new();
    let mut i: usize = 0;
    while i < state.active_cues.len()
        invariant
            i <= state.active_cues@.len(),
            cues@ == cue_states(state.active_cues@).take(i as int),
        decreases state.active_cues@.len() - i,
    {
        let entry = &state.active_cues[i];
        cues.push(CueState { id: entry.0, position: entry.1.position });
        i += 1;
    }
    SyncData { latency_bits: 0, cues }
}

/// The event that tells how far the active cues have played.
pub fn sync_event<B: Backend>(state: &ShowState<B>) -> (event: BackendEvent<B>)
    ensures
        is_sync_of(event, *state),
        event matches BackendEvent::SyncState(data) && data.latency_bits == 0 && data.cues@.len()
            == state.active_cues@.len() && (forall|i: int|
            0 <= i < state.active_cues@.len() ==> (#[trigger] data.cues@[i]).id
                == state.active_cues@[i].0 && data.cues@[i].position
                == state.active_cues@[i].1.position),
{
    BackendEvent::SyncState(sync_data(state))
}

/// Handles what came of waiting for a request: the state of the show at a request, whose sync is
/// published, or `None` when no request can come any more.
pub fn handle_state_sync<B: Backend>(
    request: Option<&ShowState<B>>,
    events: &mut Publisher<BackendEvent<B>>,
) -> (step: SyncStep<B>)
    ensures
        is_handled(*old(events), request, *final(events), step),
        final(events).sender() == old(events).sender(),
        request is None ==> final(events).sent() == old(events).sent() && step is End,
        request matches Some(state) ==> final(events).sent().len() == old(events).sent().len() + 1
            && final(events).sent().drop_last() == old(events).sent()
            && (final(events).sent().last() matches BackendEvent::SyncState(data)
            && data.latency_bits == 0 && data.cues@.len() == state.active_cues@.len() && (forall|
            i: int,
        |
            0 <= i < state.active_cues@.len() ==> (#[trigger] data.cues@[i]).id
                == state.active_cues@[i].0 && data.cues@[i].position
                == state.active_cues@[i].1.position)),
        request is Some ==> (step matches SyncStep::Published(listeners)
            && crate::channel::is_sent(
            old(events).sender(),
            final(events).sent().last(),
            Ok(listeners),
        )) || (step matches SyncStep::Unheard(event) && crate::channel::is_sent(
            old(events).sender(),
            final(events).sent().last(),
            Err(event),
        )),
        step is End <==> request is None,
        step matches SyncStep::Published(listeners) ==> listeners > 0,
        step matches SyncStep::Unheard(event) ==> is_sync_of(event, *request->0),
{
    match request {
        Some(state) => {
            let r = events.publish(sync_event(state));
            assert(events.sent().drop_last() =~= old(events).sent());
            match r {
                Ok(listeners) => SyncStep::Published(listeners),
                Err(event) => SyncStep::Unheard(event),
            }
        },
        None => SyncStep::End,
    }
}

/// The service handled as many requests as there are `states`, one after another: `publishers`
/// holds its publisher before the first and after each.
pub open spec fn is_run<B: Backend>(
    publishers: Seq<Publisher<BackendEvent<B>>>,
    states: Seq<ShowState<B>>,
    steps: Seq<SyncStep<B>>,
) -> bool {
    &&& publishers.len() == states.len() + 1
    &&& steps.len() == states.len()
    &&& forall|i: int|
        0 <= i < states.len() ==> #[trigger] is_handled(
            publishers[i],
            Some(&states[i]),
            publishers[i + 1],
            steps[i],
        )
}

/// Handling requests sends as many events as there were requests and no others: each is the sync
/// of the state that the show was in when its request was handled. The service goes on after
/// each, whether or not anyone heard the answer.
pub proof fn one_sync_a_request<B: Backend>(
    publishers: Seq<Publisher<BackendEvent<B>>>,
    states: Seq<ShowState<B>>,
    steps: Seq<SyncStep<B>>,
)
    requires
        is_run(publishers, states, steps),
    ensures
        publishers.last().sender() == publishers[0].sender(),
        publishers.last().sent().len() == publishers[0].sent().len() + states.len(),
        publishers.last().sent().take(publishers[0].sent().len() as int) == publishers[0].sent(),
        forall|i: int|
            0 <= i < states.len() ==> is_sync_of(
                publishers.last().sent()[publishers[0].sent().len() + i],
                #[trigger] states[i],
            ),
        forall|i: int| 0 <= i < states.len() ==> !(#[trigger] steps[i] is End),
    decreases states.len(),
{
    let first = publishers[0].sent();
    assert forall|i: int| 0 <= i < states.len() implies !(#[trigger] steps[i] is End) by {
        assert(is_handled(publishers[i], Some(&states[i]), publishers[i + 1], steps[i]));
    }
    if states.len() > 0 {
        let last = states.len() - 1;
        let publishers_before = publishers.drop_last();
        let states_before = states.drop_last();
        let steps_before = steps.drop_last();
        assert forall|i: int| 0 <= i < states_before.len() implies #[trigger] is_handled(
            publishers_before[i],
            Some(&states_before[i]),
            publishers_before[i + 1],
            steps_before[i],
        ) by {
            assert(is_handled(publishers[i], Some(&states[i]), publishers[i + 1], steps[i]));
        }
        one_sync_a_request(publishers_before, states_before, steps_before);
        assert(is_handled(publishers[last], Some(&states[last]), publishers[last + 1], steps[last]));
        let before = publishers_before.last().sent();
        let after = publishers.last().sent();
        assert(after.drop_last() == before);
        assert(after.take(first.len() as int) =~= before.take(first.len() as int));
        assert forall|i: int| 0 <= i < states.len() implies is_sync_of(
            after[first.len() + i],
            #[trigger] states[i],
        ) by {
            if i < last {
                assert(is_sync_of(before[first.len() + i], states_before[i]));
            }
        }
    } else {
        assert(first.take(first.len() as int) =~= first);
    }
}

/// Without a request nothing is sent: when no request can come any more, the service ends with
/// what was sent so far, and it ends only then.
pub proof fn nothing_is_sent_without_a_request<B: Backend>(
    before: Publisher<BackendEvent<B>>,
    request: Option<&ShowState<B>>,
    after: Publisher<BackendEvent<B>>,
    step: SyncStep<B>,
)
    requires
        is_handled(before, request, after, step),
    ensures
        after.sent() == before.sent() <==> request is None,
        step is End <==> request is None,
{
    if request is Some {
        assert(after.sent().len() == before.sent().len() + 1);
    }
}

/// Every event that handling a request publishes, whatever the show's state and however many cues
/// are active, is a sync whose latency bits are all zero and which lists the active cues one for
/// one, in their order, each with its id and position. What was published before stays as it was.
pub proof fn published_syncs_tell_the_positions_now<B: Backend>(
    before: Publisher<BackendEvent<B>>,
    state: &ShowState<B>,
    after: Publisher<BackendEvent<B>>,
    step: SyncStep<B>,
    i: int,
)
    requires
        is_handled(before, Some(state), after, step),
    ensures
        after.sent().len() == before.sent().len() + 1,
        after.sent().drop_last() == before.sent(),
        after.sent().last() matches BackendEvent::SyncState(data) && data.latency_bits == 0
            && data.cues@.len() == state.active_cues@.len() && (0 <= i < state.active_cues@.len()
            ==> data.cues@[i].id == state.active_cues@[i].0 && data.cues@[i].position
            == state.active_cues@[i].1.position),
{
    assert(after.sent().drop_last() =~= before.sent());
}

/// A request counts as heard exactly if its sync went to someone: the step tells the number of
/// listeners that sending it gave, or holds the sync that came back.
pub proof fn steps_tell_what_came_of_sending<B: Backend>(
    before: Publisher<BackendEvent<B>>,
    state: &ShowState<B>,
    after: Publisher<BackendEvent<B>>,
    step: SyncStep<B>,
)
    requires
        is_handled(before, Some(state), after, step),
    ensures
        step matches SyncStep::Published(listeners) ==> crate::channel::is_sent(
            before.sender(),
            after.sent().last(),
            Ok(listeners),
        ),
        step matches SyncStep::Unheard(event) ==> crate::channel::is_sent(
            before.sender(),
            after.sent().last(),
            Err(event),
        ),
        !(step is End),
{
}

/// A sync is a sync event without latency, and says of the cue at each place in the list of active
/// cues what its id and position are.
pub proof fn syncs_have_no_latency<B: Backend>(event: BackendEvent<B>, state: ShowState<B>, i: int)
    requires
        is_sync_of(event, state),
    ensures
        event matches BackendEvent::SyncState(data) && data.latency_bits == 0 && data.cues@.len()
            == state.active_cues@.len() && (0 <= i < state.active_cues@.len() ==> data.cues@[i].id
            == state.active_cues@[i].0 && data.cues@[i].position
            == state.active_cues@[i].1.position),
{
}

/// A sync lists every active cue with its position, and nothing else.
pub proof fn sync_lists_the_active_cues<B: Backend>(
    event: BackendEvent<B>,
    state: ShowState<B>,
    id: B::CueId,
    position: B::Position,
)
    requires
        is_sync_of(event, state),
    ensures
        (exists|i: int|
            0 <= i < event->SyncState_0.cues@.len() && #[trigger] event->SyncState_0.cues@[i] == (
            CueState::<B> { id, position })) <==> (exists|i: int|
            0 <= i < state.active_cues@.len() && (#[trigger] state.active_cues@[i]).0 == id
                && state.active_cues@[i].1.position == position),
{
    let cues = event->SyncState_0.cues@;
    let active = state.active_cues@;
    if exists|i: int| 0 <= i < cues.len() && #[trigger] cues[i] == (CueState::<B> { id, position }) {
        let i = choose|i: int|
            0 <= i < cues.len() && #[trigger] cues[i] == (CueState::<B> { id, position });
        assert(active[i].0 == id);
    }
    if exists|i: int|
        0 <= i < active.len() && (#[trigger] active[i]).0 == id && active[i].1.position
            == position {
        let i = choose|i: int|
            0 <= i < active.len() && (#[trigger] active[i]).0 == id && active[i].1.position
                == position;
        assert(cues[i] == (CueState::<B> { id, position }));
    }
}

/// What a listener is handed is a clone of what was published, and what is read of the show state
/// can be a clone of it: neither makes a difference to a sync.
pub proof fn clones_sync_alike<B: Backend>(
    event: BackendEvent<B>,
    heard: BackendEvent<B>,
    state: ShowState<B>,
    read: ShowState<B>,
)
    requires
        heard.is_clone_of(event),
        read.is_clone_of(state),
        is_sync_of(event, read),
    ensures
        is_sync_of(heard, state),
{
    assert(cue_states(read.active_cues@) =~= cue_states(state.active_cues@));
}

/// A sync of a well-formed state lists no cue twice.
pub proof fn sync_lists_no_cue_twice<B: Backend>(
    event: BackendEvent<B>,
    state: ShowState<B>,
    i: int,
    j: int,
)
    requires
        state.well_formed(),
        is_sync_of(event, state),
        0 <= i < j < event->SyncState_0.cues@.len(),
    ensures
        event->SyncState_0.cues@[i].id != event->SyncState_0.cues@[j].id,
{
    assert(state.active_cues@[i].0 != state.active_cues@[j].0);
}

} // verus!
