use sbsp::backend::{
    engine_kind, start_backend, BackendHandle, BackendParts, BackendTask, EngineKind, OpenedEngine,
    Unanswered, QUEUE_CAPACITY,
};
use sbsp::channel::Publisher;
use sbsp::forward::{forward_backend_event, ForwardStep, Received};
use sbsp::full_state::{
    delivery, full_state, handle_full_state, ServiceEvent, ServiceState, FULL_STATE_REQUEST_CAPACITY,
};
use sbsp::show::{ActiveCue, Backend, BackendEvent, FullShowState, ShowState};
use sbsp::state_sync::{handle_state_sync, sync_data, sync_event, SyncStep, SYNC_REQUEST_CAPACITY};
use tokio::sync::{broadcast, mpsc, oneshot};

struct Test;

impl Backend for Test {
    type ModelHandle = &'static str;
    type AssetProcessorHandle = &'static str;
    type ControllerHandle = &'static str;
    type SharedLevel = u32;
    type ProjectStatus = &'static str;
    type ShowModel = Vec<u8>;
    type CueId = u128;
    type Position = f64;
    type CueDetails = &'static str;
    type ShowDetails = u8;
    type OtherEvent = String;
}

fn state() -> ShowState<Test> {
    ShowState {
        active_cues: vec![
            (7, ActiveCue { position: 1.5, details: "playing" }),
            (3, ActiveCue { position: 0.25, details: "paused" }),
        ],
        details: 9,
    }
}

fn parts() -> BackendParts<Test> {
    BackendParts {
        model_handle: "model",
        asset_processor_handle: "assets",
        controller_handle: "controller",
        request_state_sync_tx: mpsc::channel(SYNC_REQUEST_CAPACITY).0,
        request_full_state_tx: mpsc::channel(FULL_STATE_REQUEST_CAPACITY).0,
    }
}

#[test]
fn queues_hold_what_they_always_held() {
    assert_eq!(QUEUE_CAPACITY, 32);
    assert_eq!(SYNC_REQUEST_CAPACITY, 8);
    assert_eq!(FULL_STATE_REQUEST_CAPACITY, 8);
}

#[test]
fn sync_lists_active_cues_in_order() {
    let data = sync_data(&state());
    assert_eq!(f64::from_bits(data.latency_bits), 0.0);
    let cues: Vec<(u128, f64)> = data.cues.iter().map(|cue| (cue.id, cue.position)).collect();
    assert_eq!(cues, vec![(7, 1.5), (3, 0.25)]);
}

#[test]
fn sync_of_an_idle_show_is_empty() {
    let idle: ShowState<Test> = ShowState { active_cues: vec![], details: 0 };
    match sync_event(&idle) {
        BackendEvent::SyncState(data) => assert!(data.cues.is_empty()),
        BackendEvent::Other(_) => panic!("no sync"),
    }
}

#[test]
fn sync_request_is_published() {
    let (tx, mut first) = broadcast::channel::<BackendEvent<Test>>(QUEUE_CAPACITY);
    let mut second = tx.subscribe();
    let step = handle_state_sync(Some(&state()), &mut Publisher::new(tx));
    assert!(matches!(step, SyncStep::Published(2)));
    for rx in [&mut first, &mut second] {
        match rx.try_recv() {
            Ok(BackendEvent::SyncState(data)) => {
                let cues: Vec<(u128, f64)> =
                    data.cues.iter().map(|cue| (cue.id, cue.position)).collect();
                assert_eq!(cues, vec![(7, 1.5), (3, 0.25)]);
                assert_eq!(data.latency_bits, 0);
            }
            _ => panic!("a sync was expected"),
        }
        assert!(rx.try_recv().is_err());
    }
}

#[test]
fn sync_without_listeners_goes_on() {
    let (tx, rx) = broadcast::channel::<BackendEvent<Test>>(QUEUE_CAPACITY);
    drop(rx);
    match handle_state_sync(Some(&state()), &mut Publisher::new(tx)) {
        SyncStep::Unheard(BackendEvent::SyncState(data)) => {
            assert_eq!(data.cues.len(), 2);
            assert_eq!(data.cues[0].id, 7);
            assert_eq!(data.cues[1].position, 0.25);
        }
        _ => panic!("an event that no one heard was expected"),
    }
}

#[test]
fn idle_show_answers_with_an_empty_sync() {
    let (tx, mut rx) = broadcast::channel::<BackendEvent<Test>>(QUEUE_CAPACITY);
    let idle: ShowState<Test> = ShowState { active_cues: vec![], details: 0 };
    assert!(matches!(handle_state_sync(Some(&idle), &mut Publisher::new(tx)), SyncStep::Published(1)));
    match rx.try_recv() {
        Ok(BackendEvent::SyncState(data)) => {
            assert_eq!(f64::from_bits(data.latency_bits), 0.0);
            assert!(data.cues.is_empty());
        }
        _ => panic!("a sync was expected"),
    }
}

#[test]
fn each_request_is_answered_with_the_state_it_found() {
    let (tx, rx) = broadcast::channel::<BackendEvent<Test>>(QUEUE_CAPACITY);
    drop(rx);
    let mut events = Publisher::new(tx.clone());
    assert!(matches!(handle_state_sync(Some(&state()), &mut events), SyncStep::Unheard(_)));
    let mut rx = tx.subscribe();
    let mut show = state();
    for position in [2.0, 3.0, 4.0] {
        show.active_cues[0].1.position = position;
        assert!(matches!(handle_state_sync(Some(&show), &mut events), SyncStep::Published(1)));
    }
    assert!(matches!(handle_state_sync(None, &mut events), SyncStep::End));
    let mut heard = vec![];
    while let Ok(BackendEvent::SyncState(data)) = rx.try_recv() {
        heard.push((data.cues[0].position, data.cues[1].position));
    }
    assert_eq!(heard, vec![(2.0, 0.25), (3.0, 0.25), (4.0, 0.25)]);
}

#[test]
fn sync_service_ends_with_its_requests() {
    let (tx, _rx) = broadcast::channel::<BackendEvent<Test>>(QUEUE_CAPACITY);
    assert!(matches!(handle_state_sync(None, &mut Publisher::new(tx)), SyncStep::End));
}

#[test]
fn publisher_reaches_every_receiver_or_gives_back() {
    let (tx, mut first) = broadcast::channel::<u8>(4);
    let mut second = tx.subscribe();
    let mut publisher = Publisher::new(tx);
    assert_eq!(publisher.publish(7), Ok(2));
    assert_eq!((first.try_recv(), second.try_recv()), (Ok(7), Ok(7)));
    drop(first);
    drop(second);
    assert_eq!(publisher.publish(8), Err(8));
}

#[test]
fn full_state_requests_reach_their_queue() {
    let (tx, mut rx) = mpsc::channel(FULL_STATE_REQUEST_CAPACITY);
    let parts = BackendParts { request_full_state_tx: tx, ..parts() };
    let started = start_backend::<Test, String>(Ok((OpenedEngine::Plain, parts))).ok().unwrap();
    let (responder, mut answer) = oneshot::channel::<FullShowState<Test>>();
    assert!(started.handle.full_state_requests().try_send(responder).is_ok());
    let taken = rx.try_recv().ok().unwrap();
    assert!(handle_full_state(taken, "saved", vec![1], state()).is_ok());
    assert_eq!(answer.try_recv().ok().unwrap().show_model, vec![1]);
}

#[test]
fn full_state_holds_what_was_read() {
    let full: FullShowState<Test> = full_state("saved", vec![1, 2], state());
    assert_eq!(full.project_status, "saved");
    assert_eq!(full.show_model, vec![1, 2]);
    assert_eq!(full.show_state.active_cues.len(), 2);
    assert_eq!(full.show_state.active_cues[1].1.details, "paused");
    assert_eq!(full.show_state.details, 9);
}

#[test]
fn clones_hold_the_same() {
    let full: FullShowState<Test> = full_state("saved", vec![1, 2], state());
    let copy = full.clone();
    assert_eq!(copy.project_status, "saved");
    assert_eq!(copy.show_model, vec![1, 2]);
    assert_eq!(copy.show_state.details, 9);
    let ids: Vec<u128> = copy.show_state.active_cues.iter().map(|entry| entry.0).collect();
    assert_eq!(ids, vec![7, 3]);
    assert_eq!(copy.show_state.active_cues[0].1.details, "playing");
    match (BackendEvent::<Test>::Other("saved".to_string())).clone() {
        BackendEvent::Other(event) => assert_eq!(event, "saved"),
        BackendEvent::SyncState(_) => panic!("another event was expected"),
    }
    let published = sync_data(&full.show_state);
    let read_from_copy = sync_data(&copy.show_state).clone();
    assert_eq!(published.cues.len(), read_from_copy.cues.len());
    assert_eq!(published.cues[1].id, read_from_copy.cues[1].id);
    assert_eq!(published.cues[1].position, read_from_copy.cues[1].position);
}

#[test]
fn waiting_requester_is_answered() {
    let (tx, mut rx) = oneshot::channel::<FullShowState<Test>>();
    let answered = handle_full_state(tx, "saved", vec![5], state());
    assert_eq!(delivery(&answered), ServiceEvent::Delivered);
    let full = BackendHandle::get_full_state(rx.try_recv().ok()).ok().unwrap();
    assert_eq!(full.project_status, "saved");
    assert_eq!(full.show_model, vec![5]);
    assert_eq!(full.show_state.active_cues[0].0, 7);
}

#[test]
fn requester_that_left_ends_the_service() {
    let (tx, rx) = oneshot::channel::<FullShowState<Test>>();
    drop(rx);
    let state_of_service = ServiceState::start().step(ServiceEvent::Requested);
    let answered = handle_full_state(tx, "saved", vec![6], state());
    let event = delivery(&answered);
    assert_eq!(event, ServiceEvent::Undelivered);
    let returned = answered.err().unwrap();
    assert_eq!((returned.project_status, returned.show_model), ("saved", vec![6]));
    assert!(state_of_service.accepts(event));
    let ended = state_of_service.step(event);
    assert_eq!(ended, ServiceState::Ended);
    assert!(!ended.accepts(ServiceEvent::Requested));
}

#[test]
fn full_state_service_goes_on_after_an_answer() {
    let service = ServiceState::start();
    assert_eq!(service, ServiceState::Request);
    let service = service.step(ServiceEvent::Requested);
    assert_eq!(service, ServiceState::Delivery);
    assert!(!service.accepts(ServiceEvent::Requested));
    assert!(!service.accepts(ServiceEvent::Closed));
    let service = service.step(ServiceEvent::Delivered);
    assert_eq!(service, ServiceState::Request);
    assert!(!service.accepts(ServiceEvent::Delivered));
    assert_eq!(service.step(ServiceEvent::Closed), ServiceState::Ended);
}

#[test]
fn request_without_an_answer_fails() {
    let (tx, mut rx) = oneshot::channel::<FullShowState<Test>>();
    drop(tx);
    let r = BackendHandle::get_full_state(rx.try_recv().ok());
    assert!(matches!(r, Err(Unanswered)));
}

#[test]
fn metering_chooses_the_engine() {
    assert_eq!(engine_kind(true), EngineKind::Metered);
    assert_eq!(engine_kind(false), EngineKind::Plain);
}

#[test]
fn started_backend_has_a_handle_and_eight_tasks() {
    let started = start_backend::<Test, String>(Ok((OpenedEngine::Metered(5), parts())))
        .ok()
        .unwrap();
    assert_eq!(started.handle.model_handle, "model");
    assert_eq!(started.handle.asset_processor_handle, "assets");
    assert_eq!(started.handle.controller_handle, "controller");
    assert_eq!(started.handle.level_meter, Some(5));
    assert_eq!(
        started.tasks,
        vec![
            BackendTask::ModelManager,
            BackendTask::Controller,
            BackendTask::Executor,
            BackendTask::AudioEngine,
            BackendTask::WaitEngine,
            BackendTask::AssetProcessor,
            BackendTask::StateSync,
            BackendTask::FullState,
        ]
    );
}

#[test]
fn plain_backend_has_no_level_meter() {
    let started = start_backend::<Test, String>(Ok((OpenedEngine::Plain, parts()))).ok().unwrap();
    assert_eq!(started.handle.level_meter, None);
}

#[test]
fn engine_failure_is_handed_on() {
    let r = start_backend::<Test, String>(Err("no device".to_string()));
    assert_eq!(r.err().as_deref(), Some("no device"));
}

#[test]
fn cloned_handle_reaches_the_same_backend() {
    let (tx, mut rx) = mpsc::channel::<()>(SYNC_REQUEST_CAPACITY);
    let parts = BackendParts { request_state_sync_tx: tx, ..parts() };
    let handle = start_backend::<Test, String>(Ok((OpenedEngine::Metered(5), parts)))
        .ok()
        .unwrap()
        .handle;
    let copy = handle.clone();
    assert_eq!(copy.model_handle, "model");
    assert_eq!(copy.level_meter, Some(5));
    copy.sync_requests().try_send(()).unwrap();
    assert_eq!(rx.try_recv(), Ok(()));
}

#[test]
fn events_go_to_the_registered_handler() {
    match forward_backend_event(Received::Event(4), Some("ui")) {
        ForwardStep::Deliver(handler, event) => assert_eq!((handler, event), ("ui", 4)),
        _ => panic!("a delivery was expected"),
    }
    assert!(matches!(
        forward_backend_event::<&str, i32>(Received::Event(4), None),
        ForwardStep::Ignore
    ));
}

#[test]
fn lost_events_do_not_end_forwarding() {
    let lagged = forward_backend_event::<&str, i32>(Received::Lagged, Some("ui"));
    assert!(matches!(lagged, ForwardStep::Warn));
    let closed = forward_backend_event::<&str, i32>(Received::Closed, Some("ui"));
    assert!(matches!(closed, ForwardStep::End));
}

#[test]
fn forwarding_delivers_what_is_heard_in_order() {
    let inputs = vec![
        (Received::Event(1), Some("a")),
        (Received::Event(2), None),
        (Received::Lagged, Some("a")),
        (Received::Event(3), Some("b")),
        (Received::Closed, Some("b")),
        (Received::Event(4), Some("b")),
    ];
    let mut delivered = vec![];
    for (received, handler) in inputs {
        match forward_backend_event(received, handler) {
            ForwardStep::Deliver(handler, event) => delivered.push((handler, event)),
            ForwardStep::Ignore | ForwardStep::Warn => {}
            ForwardStep::End => break,
        }
    }
    assert_eq!(delivered, vec![("a", 1), ("b", 3)]);
}

#[test]
fn requesters_after_one_that_left_are_not_answered() {
    let mut service = ServiceState::start();
    let mut answered = vec![];
    for waits in [true, true, false, true] {
        let (tx, mut rx) = oneshot::channel::<FullShowState<Test>>();
        if !waits {
            rx.close();
        }
        if service.accepts(ServiceEvent::Requested) {
            service = service.step(ServiceEvent::Requested);
            let outcome = handle_full_state(tx, "saved", vec![], state());
            service = service.step(delivery(&outcome));
        } else {
            drop(tx);
        }
        answered.push(BackendHandle::get_full_state(rx.try_recv().ok()).is_ok());
    }
    assert_eq!(answered, vec![true, true, false, false]);
    assert_eq!(service, ServiceState::Ended);
}
