//! Answers to requests for the full state.
//!
//! Requests are answered one after another, each with the state read for it. The service ends
//! when no request can come any more, and also when an answer finds its requester gone: no
//! later request is answered then.
use vstd::prelude::*;

use crate::channel::Reply;
use crate::show::{Backend, FullShowState, ShowState};

verus! {

/// The number of requests that can wait.
pub const FULL_STATE_REQUEST_CAPACITY: usize = 8;

/// What the service is waiting for.
#[derive(Clone, Copy, Debug, PartialEq, Eq, Structural)]
pub enum ServiceState {
    /// For a request.
    Request,
    /// For its answer to be handed over.
    Delivery,
    /// For nothing: it has ended.
    Ended,
}

/// What the service is told.
#[derive(Clone, Copy, Debug, PartialEq, Eq, Structural)]
pub enum ServiceEvent {
    /// A request has come.
    Requested,
    /// No request can come any more.
    Closed,
    /// The answer was handed over.
    Delivered,
    /// The requester had gone.
    Undelivered,
}

impl ServiceState {
    /// The service can be told `event` in this state.
    pub open spec fn awaits(self, event: ServiceEvent) -> bool {
        match event {
            ServiceEvent::Requested | ServiceEvent::Closed => self == ServiceState::Request,
            ServiceEvent::Delivered | ServiceEvent::Undelivered => self == ServiceState::Delivery,
        }
    }

    /// The state after an event.
    pub open spec fn after(event: ServiceEvent) -> ServiceState {
        match event {
            ServiceEvent::Requested => ServiceState::Delivery,
            ServiceEvent::Delivered => ServiceState::Request,
            ServiceEvent::Closed | ServiceEvent::Undelivered => ServiceState::Ended,
        }
    }

    /// Starts the service.
    pub fn start() -> (state: ServiceState)
        ensures
            state == ServiceState::Request,
    {
        ServiceState::Request
    }

    /// Whether [`ServiceState::step`] takes `event` in this state.
    pub fn accepts(self, event: ServiceEvent) -> (r: bool)
        ensures
            r == self.awaits(event),
            event == ServiceEvent::Requested || event == ServiceEvent::Closed ==> r == (self
                == ServiceState::Request),
            event == ServiceEvent::Delivered || event == ServiceEvent::Undelivered ==> r == (self
                == ServiceState::Delivery),
    {
        match event {
            ServiceEvent::Requested => self == ServiceState::Request,
            ServiceEvent::Closed => self == ServiceState::Request,
            ServiceEvent::Delivered => self == ServiceState::Delivery,
            ServiceEvent::Undelivered => self == ServiceState::Delivery,
        }
    }

    /// Takes an event that the service awaits.
    pub fn step(self, event: ServiceEvent) -> (state: ServiceState)
        requires
            self.awaits(event),
        ensures
            state == ServiceState::after(event),
            state == ServiceState::Delivery <==> event == ServiceEvent::Requested,
            state == ServiceState::Request <==> event == ServiceEvent::Delivered,
            state == ServiceState::Ended <==> event == ServiceEvent::Closed || event
                == ServiceEvent::Undelivered,
    {
        match event {
            ServiceEvent::Requested => ServiceState::Delivery,
            ServiceEvent::Delivered => ServiceState::Request,
            ServiceEvent::Closed => ServiceState::Ended,
            ServiceEvent::Undelivered => ServiceState::Ended,
        }
    }
}

/// The answer to a request, from what was read for it.
pub fn full_state<B: Backend>(
    project_status: B::ProjectStatus,
    show_model: B::ShowModel,
    show_state: ShowState<B>,
) -> (full: FullShowState<B>)
    ensures
        full == (FullShowState::<B> { project_status, show_model, show_state }),
{
    FullShowState { project_status, show_model, show_state }
}

/// Answers a request with what was read for it: the result is what sending that answer to the
/// requester gives. If the requester has gone, the answer comes back.
pub fn handle_full_state<B: Backend>(
    responder: tokio::sync::oneshot::Sender<FullShowState<B>>,
    project_status: B::ProjectStatus,
    show_model: B::ShowModel,
    show_state: ShowState<B>,
) -> (r: Result<(), FullShowState<B>>)
    ensures
        is_reply(responder, FullShowState::<B> { project_status, show_model, show_state }, r),
        call_ensures(
            tokio::sync::oneshot::Sender::<FullShowState<B>>::send,
            (responder, FullShowState::<B> { project_status, show_model, show_state }),
            r,
        ),
        r matches Err(returned) ==> returned.project_status == project_status && returned.show_model
            == show_model && returned.show_state == show_state,
        exists|reply: Reply<FullShowState<B>>| #[trigger]
            is_record(reply, responder, r) && reply.sent().project_status == project_status
                && reply.sent().show_model == show_model && reply.sent().show_state == show_state,
{
    let reply = Reply::send(responder, full_state(project_status, show_model, show_state));
    let ghost record = reply;
    let r = reply.into_outcome();
    assert(is_record(record, responder, r));
    r
}

/// `reply` is the record of answering `responder`, and `r` is what came of it.
pub open spec fn is_record<B: Backend>(
    reply: Reply<FullShowState<B>>,
    responder: tokio::sync::oneshot::Sender<FullShowState<B>>,
    r: Result<(), FullShowState<B>>,
) -> bool {
    reply.requester() == responder && reply.outcome() == r
}

/// A reply to `full` is what came of handing exactly `full` to the requester: the project's status,
/// the show model, and the show state with all of its active cues.
pub proof fn the_answer_is_sent_whole<B: Backend>(
    responder: tokio::sync::oneshot::Sender<FullShowState<B>>,
    full: FullShowState<B>,
    r: Result<(), FullShowState<B>>,
)
    requires
        is_reply(responder, full, r),
    ensures
        call_ensures(
            tokio::sync::oneshot::Sender::<FullShowState<B>>::send,
            (responder, full),
            r,
        ),
        r matches Err(returned) ==> returned.project_status == full.project_status
            && returned.show_model == full.show_model && returned.show_state.details
            == full.show_state.details && returned.show_state.active_cues@
            == full.show_state.active_cues@,
{
}

/// What a requester is given is the answer that was sent to it, and that is what was read for its
/// request: the same status and model, and as many active cues, each with the same id, position
/// and details. A requester is told that its request was not answered exactly if the answer came
/// back.
pub proof fn requester_is_given_what_was_sent<B: Backend>(
    reply: Reply<FullShowState<B>>,
    responder: tokio::sync::oneshot::Sender<FullShowState<B>>,
    read: FullShowState<B>,
    r: Result<(), FullShowState<B>>,
    i: int,
)
    requires
        is_record(reply, responder, r),
        reply.sent().project_status == read.project_status,
        reply.sent().show_model == read.show_model,
        reply.sent().show_state == read.show_state,
    ensures
        r is Ok <==> crate::backend::response(reply.received()) is Ok,
        r is Err <==> reply.received() is None,
        crate::backend::response(reply.received()) matches Ok(given) ==> given == reply.sent()
            && given.project_status == read.project_status && given.show_model == read.show_model
            && given.show_state.details == read.show_state.details
            && given.show_state.active_cues@.len() == read.show_state.active_cues@.len() && (0 <= i
            < read.show_state.active_cues@.len() ==> given.show_state.active_cues@[i].0
            == read.show_state.active_cues@[i].0 && given.show_state.active_cues@[i].1.position
            == read.show_state.active_cues@[i].1.position
            && given.show_state.active_cues@[i].1.details
            == read.show_state.active_cues@[i].1.details),
{
}

/// `r` is what came of answering a request with `full`.
pub open spec fn is_reply<B: Backend>(
    responder: tokio::sync::oneshot::Sender<FullShowState<B>>,
    full: FullShowState<B>,
    r: Result<(), FullShowState<B>>,
) -> bool {
    &&& call_ensures(
        tokio::sync::oneshot::Sender::<FullShowState<B>>::send,
        (responder, full),
        r,
    )
    &&& r matches Err(returned) ==> returned == full
}

/// What the service is told of an answer.
pub open spec fn delivery_of<B: Backend>(answered: Result<(), FullShowState<B>>) -> ServiceEvent {
    match answered {
        Ok(_) => ServiceEvent::Delivered,
        Err(_) => ServiceEvent::Undelivered,
    }
}

/// What the service is told of an answer.
pub fn delivery<B: Backend>(answered: &Result<(), FullShowState<B>>) -> (event: ServiceEvent)
    ensures
        event == delivery_of(*answered),
        answered is Ok ==> event == ServiceEvent::Delivered,
        answered is Err ==> event == ServiceEvent::Undelivered,
{
    match answered {
        Ok(_) => ServiceEvent::Delivered,
        Err(_) => ServiceEvent::Undelivered,
    }
}

/// Every request is taken up and brings the service to deliver an answer; what comes of sending
/// that answer, whatever it holds, is all that decides whether the service goes on.
pub proof fn only_delivery_decides<B: Backend>(answered: Result<(), FullShowState<B>>)
    ensures
        ServiceState::Request.awaits(ServiceEvent::Requested),
        ServiceState::Request.awaits(ServiceEvent::Closed),
        ServiceState::after(ServiceEvent::Requested).awaits(delivery_of(answered)),
        ServiceState::after(delivery_of(answered)) == ServiceState::Request <==> answered is Ok,
        ServiceState::after(delivery_of(answered)) == ServiceState::Ended <==> answered is Err,
{
}

/// The state of a service that has taken `events`.
pub open spec fn state_after(events: Seq<ServiceEvent>) -> ServiceState {
    if events.len() == 0 {
        ServiceState::Request
    } else {
        ServiceState::after(events.last())
    }
}

/// `events` is a run of the service: each event comes when the service awaits it.
pub open spec fn is_run(events: Seq<ServiceEvent>) -> bool {
    forall|i: int|
        0 <= i < events.len() ==> state_after(events.take(i)).awaits(#[trigger] events[i])
}

/// Requests are answered one after another: an answer is handed over, or found undeliverable,
/// right after its request, and the next request is taken up right after a delivered answer.
pub proof fn requests_are_answered_in_turn(events: Seq<ServiceEvent>, i: int)
    requires
        is_run(events),
        0 <= i < events.len(),
    ensures
        events[i] == ServiceEvent::Delivered || events[i] == ServiceEvent::Undelivered ==> i > 0
            && events[i - 1] == ServiceEvent::Requested,
        events[i] == ServiceEvent::Requested || events[i] == ServiceEvent::Closed ==> i == 0
            || events[i - 1] == ServiceEvent::Delivered,
{
    assert(state_after(events.take(i)).awaits(events[i]));
    if i > 0 {
        assert(events.take(i).last() == events[i - 1]);
    }
}

/// A requester that has gone when its answer comes ends the service: no request after it is
/// even looked at. Likewise nothing comes after the requests have closed.
pub proof fn nothing_follows_an_undelivered_answer(events: Seq<ServiceEvent>, i: int)
    requires
        is_run(events),
        0 <= i < events.len(),
        events[i] == ServiceEvent::Undelivered || events[i] == ServiceEvent::Closed,
    ensures
        i == events.len() - 1,
        state_after(events) == ServiceState::Ended,
{
    if i + 1 < events.len() {
        assert(state_after(events.take(i + 1)).awaits(events[i + 1]));
        assert(events.take(i + 1).last() == events[i]);
    }
}

/// As long as requests come and requesters wait for their answers, the service goes on.
pub proof fn serves_while_requesters_wait(events: Seq<ServiceEvent>)
    requires
        is_run(events),
        forall|i: int|
            0 <= i < events.len() ==> #[trigger] events[i] != ServiceEvent::Undelivered && events[i]
                != ServiceEvent::Closed,
    ensures
        state_after(events) != ServiceState::Ended,
{
}

/// What the service makes of requests that come one after another, where `waiting` says of each
/// requester whether it still waits when its answer comes: the service's state after them, and
/// of each requester whether an answer reached it.
pub open spec fn serve(waiting: Seq<bool>) -> (ServiceState, Seq<bool>)
    decreases waiting.len(),
{
    if waiting.len() == 0 {
        (ServiceState::Request, Seq::empty())
    } else {
        let (state, answered) = serve(waiting.drop_last());
        if state.awaits(ServiceEvent::Requested) {
            let outcome = if waiting.last() {
                ServiceEvent::Delivered
            } else {
                ServiceEvent::Undelivered
            };
            (ServiceState::after(outcome), answered.push(waiting.last()))
        } else {
            (state, answered.push(false))
        }
    }
}

/// A requester is answered exactly if it waits and everyone who asked before it did.
pub proof fn answered_while_everyone_waits(waiting: Seq<bool>, i: int)
    requires
        0 <= i < waiting.len(),
    ensures
        serve(waiting).1.len() == waiting.len(),
        serve(waiting).1[i] <==> (forall|j: int| 0 <= j <= i ==> #[trigger] waiting[j]),
{
    lemma_serve(waiting);
}

/// What reaches a requester that waits for its answer: `full`, if the service handed it over.
pub open spec fn reaches<B: Backend>(
    full: FullShowState<B>,
    answered: Result<(), FullShowState<B>>,
) -> Option<FullShowState<B>> {
    match answered {
        Ok(_) => Some(full),
        Err(_) => None,
    }
}

/// The service took up as many requests as there are `replies`, one after another. What was read
/// for each stands in `read`, and what came of answering it in `replies`.
pub open spec fn is_served<B: Backend>(
    responders: Seq<tokio::sync::oneshot::Sender<FullShowState<B>>>,
    read: Seq<FullShowState<B>>,
    replies: Seq<Result<(), FullShowState<B>>>,
) -> bool {
    &&& responders.len() == replies.len()
    &&& read.len() == replies.len()
    &&& forall|i: int|
        0 <= i < replies.len() ==> #[trigger] is_reply(responders[i], read[i], replies[i])
    &&& forall|i: int|
        0 <= i < replies.len() - 1 ==> ServiceState::after(delivery_of(#[trigger] replies[i]))
            != ServiceState::Ended
}

/// What a requester is given is what was read for its request, and every requester is given it
/// whose request was taken up, but for one that had gone: that one can only be the last.
pub proof fn requester_is_given_what_was_read<B: Backend>(
    responders: Seq<tokio::sync::oneshot::Sender<FullShowState<B>>>,
    read: Seq<FullShowState<B>>,
    replies: Seq<Result<(), FullShowState<B>>>,
    i: int,
)
    requires
        is_served(responders, read, replies),
        0 <= i < replies.len(),
    ensures
        crate::backend::response(reaches(read[i], replies[i])) matches Ok(full) ==> full == read[i],
        crate::backend::response(reaches(read[i], replies[i])) is Ok <==> i < replies.len() - 1
            || replies[i] is Ok,
        replies[i] matches Err(returned) ==> returned == read[i] && i == replies.len() - 1,
{
    assert(is_reply(responders[i], read[i], replies[i]));
}

/// The answers that reach requesters, of which `waiting` says whether they still wait when their
/// answers come, where `read` holds what was read for each.
pub open spec fn answers<B: Backend>(waiting: Seq<bool>, read: Seq<FullShowState<B>>) -> Seq<
    Option<FullShowState<B>>,
> {
    Seq::new(
        waiting.len(),
        |i: int|
            if serve(waiting).1[i] {
                Some(read[i])
            } else {
                None
            },
    )
}

/// Who waits and what comes of sending say the same: where a requester waits exactly if its answer
/// is handed over, what reaches it is the same by both.
pub proof fn waiting_is_being_answered<B: Backend>(
    waiting: Seq<bool>,
    responders: Seq<tokio::sync::oneshot::Sender<FullShowState<B>>>,
    read: Seq<FullShowState<B>>,
    replies: Seq<Result<(), FullShowState<B>>>,
    i: int,
)
    requires
        is_served(responders, read, replies),
        waiting.len() == replies.len(),
        forall|j: int| 0 <= j < replies.len() ==> (#[trigger] waiting[j] <==> replies[j] is Ok),
        0 <= i < replies.len(),
    ensures
        answers(waiting, read)[i] == reaches(read[i], replies[i]),
{
    lemma_serve(waiting);
    assert forall|j: int| 0 <= j < i implies #[trigger] waiting[j] by {
        assert(ServiceState::after(delivery_of(replies[j])) != ServiceState::Ended);
    }
}

/// A requester that waits, after others that all waited, is given exactly what was read for its
/// request: the project's status, the show model and the show state. Any other is told that its
/// request was not answered.
pub proof fn waiting_requesters_are_given_what_was_read<B: Backend>(
    waiting: Seq<bool>,
    read: Seq<FullShowState<B>>,
    i: int,
)
    requires
        read.len() == waiting.len(),
        0 <= i < waiting.len(),
    ensures
        (forall|j: int| 0 <= j <= i ==> #[trigger] waiting[j]) ==> crate::backend::response(
            answers(waiting, read)[i],
        ) == Ok::<FullShowState<B>, crate::backend::Unanswered>(read[i]),
        !(forall|j: int| 0 <= j <= i ==> #[trigger] waiting[j]) ==> crate::backend::response(
            answers(waiting, read)[i],
        ) == Err::<FullShowState<B>, crate::backend::Unanswered>(crate::backend::Unanswered),
{
    lemma_serve(waiting);
}

proof fn lemma_serve(waiting: Seq<bool>)
    ensures
        serve(waiting).1.len() == waiting.len(),
        serve(waiting).0 == ServiceState::Request <==> (forall|j: int|
            0 <= j < waiting.len() ==> #[trigger] waiting[j]),
        forall|i: int|
            0 <= i < waiting.len() ==> (#[trigger] serve(waiting).1[i] <==> (forall|j: int|
                0 <= j <= i ==> #[trigger] waiting[j])),
    decreases waiting.len(),
{
    if waiting.len() > 0 {
        let before = waiting.drop_last();
        lemma_serve(before);
        let n = before.len() as int;
        let (state, answered) = serve(before);
        assert(waiting[n] == waiting.last());
        assert((forall|j: int| 0 <= j < waiting.len() ==> #[trigger] waiting[j]) <==> waiting[n]
            && state == ServiceState::Request) by {
            if forall|j: int| 0 <= j < waiting.len() ==> #[trigger] waiting[j] {
                assert forall|j: int| 0 <= j < n implies #[trigger] before[j] by {
                    assert(waiting[j]);
                }
            }
            if waiting[n] && state == ServiceState::Request {
                assert forall|j: int| 0 <= j < waiting.len() implies #[trigger] waiting[j] by {
                    if j < n {
                        assert(before[j]);
                    }
                }
            }
        }
        assert forall|i: int| 0 <= i < waiting.len() implies (#[trigger] serve(waiting).1[i] <==> (
        forall|j: int| 0 <= j <= i ==> #[trigger] waiting[j])) by {
            if i < n {
                assert(serve(waiting).1[i] == answered[i]);
                if forall|j: int| 0 <= j <= i ==> #[trigger] waiting[j] {
                    assert forall|j: int| 0 <= j <= i implies #[trigger] before[j] by {
                        assert(waiting[j]);
                    }
                }
                if forall|j: int| 0 <= j <= i ==> #[trigger] before[j] {
                    assert forall|j: int| 0 <= j <= i implies #[trigger] waiting[j] by {
                        assert(before[j]);
                    }
                }
            }
        }
    }
}

} // verus!
