//! Starting the backend, and the handle through which the rest of the program reaches it.
use vstd::prelude::*;

use crate::show::{Backend, FullShowState};

verus! {

/// The number of messages that can wait in each of the queues between the backend's tasks, and
/// of events that a slow listener can fall behind.
pub const QUEUE_CAPACITY: usize = 32;

/// Where requests for a state sync are sent.
pub type SyncRequests = tokio::sync::mpsc::Sender<()>;

/// Where requests for the full state are sent, each with the place for its answer.
pub type FullStateRequests<B> = tokio::sync::mpsc::Sender<
    tokio::sync::oneshot::Sender<FullShowState<B>>,
>;

/// Access to a running backend.
#[verifier::reject_recursive_types(B)]
pub struct BackendHandle<B: Backend> {
    pub model_handle: B::ModelHandle,
    pub asset_processor_handle: B::AssetProcessorHandle,
    pub controller_handle: B::ControllerHandle,
    /// The measured levels, where the backend measures them.
    pub level_meter: Option<B::SharedLevel>,
    request_state_sync_tx: SyncRequests,
    request_full_state_tx: FullStateRequests<B>,
}

/// A request for the full state was not answered.
#[derive(Clone, Copy, Debug, PartialEq, Eq, Structural)]
pub struct Unanswered;

/// `b` holds clones of what `a` holds, and sends its requests to the same queues.
pub open spec fn is_clone<B: Backend>(a: BackendHandle<B>, b: BackendHandle<B>) -> bool {
    &&& cloned(a.model(), b.model())
    &&& cloned(a.asset_processor(), b.asset_processor())
    &&& cloned(a.controller(), b.controller())
    &&& a.levels() is Some <==> b.levels() is Some
    &&& a.levels() is Some ==> cloned(a.levels()->0, b.levels()->0)
    &&& a.sync_queue() == b.sync_queue()
    &&& a.full_state_queue() == b.full_state_queue()
}

impl<B: Backend> Clone for BackendHandle<B> {
    fn clone(&self) -> (r: Self)
        ensures
            is_clone(*self, r),
            cloned(self.model(), r.model()),
            cloned(self.asset_processor(), r.asset_processor()),
            cloned(self.controller(), r.controller()),
            self.levels() is Some <==> r.levels() is Some,
            self.levels() is Some ==> cloned(self.levels()->0, r.levels()->0),
            r.sync_queue() == self.sync_queue(),
            r.full_state_queue() == self.full_state_queue(),
    {
        BackendHandle {
            model_handle: self.model_handle.clone(),
            asset_processor_handle: self.asset_processor_handle.clone(),
            controller_handle: self.controller_handle.clone(),
            level_meter: self.level_meter.clone(),
            request_state_sync_tx: self.request_state_sync_tx.clone(),
            request_full_state_tx: self.request_full_state_tx.clone(),
        }
    }
}

/// What a requester of the full state is given, from the answer that reached it.
pub open spec fn response<B: Backend>(answer: Option<FullShowState<B>>) -> Result<
    FullShowState<B>,
    Unanswered,
> {
    match answer {
        Some(full) => Ok(full),
        None => Err(Unanswered),
    }
}

impl<B: Backend> BackendHandle<B> {
    /// Access to the show model.
    pub closed spec fn model(&self) -> B::ModelHandle {
        self.model_handle
    }

    /// Access to the asset processor.
    pub closed spec fn asset_processor(&self) -> B::AssetProcessorHandle {
        self.asset_processor_handle
    }

    /// Access to the cue controller.
    pub closed spec fn controller(&self) -> B::ControllerHandle {
        self.controller_handle
    }

    /// The measured levels, where the backend measures them.
    pub closed spec fn levels(&self) -> Option<B::SharedLevel> {
        self.level_meter
    }

    /// Where requests for a state sync are sent.
    pub closed spec fn sync_queue(&self) -> SyncRequests {
        self.request_state_sync_tx
    }

    /// Where requests for the full state are sent.
    pub closed spec fn full_state_queue(&self) -> FullStateRequests<B> {
        self.request_full_state_tx
    }

    /// Where requests for a state sync are sent.
    pub fn sync_requests(&self) -> (tx: &SyncRequests)
        ensures
            *tx == self.sync_queue(),
    {
        &self.request_state_sync_tx
    }

    /// Where requests for the full state are sent.
    pub fn full_state_requests(&self) -> (tx: &FullStateRequests<B>)
        ensures
            *tx == self.full_state_queue(),
    {
        &self.request_full_state_tx
    }

    /// What a requester of the full state is given, from the answer that reached it. A request
    /// that could not even be sent is one that no answer reaches.
    pub fn get_full_state(answer: Option<FullShowState<B>>) -> (r: Result<
        FullShowState<B>,
        Unanswered,
    >)
        ensures
            r == response(answer),
            answer matches Some(full) ==> (r matches Ok(given) && given == full),
            answer is None ==> r is Err,
    {
        match answer {
            Some(full) => Ok(full),
            None => Err(Unanswered),
        }
    }
}

/// The tasks of a running backend.
#[derive(Clone, Copy, Debug, PartialEq, Eq, Structural)]
pub enum BackendTask {
    ModelManager,
    Controller,
    Executor,
    AudioEngine,
    WaitEngine,
    AssetProcessor,
    StateSync,
    FullState,
}

/// The audio engine to open.
#[derive(Clone, Copy, Debug, PartialEq, Eq, Structural)]
pub enum EngineKind {
    /// One that measures the levels of its output.
    Metered,
    /// One that does not.
    Plain,
}

/// An audio engine that was opened.
pub enum OpenedEngine<B: Backend> {
    /// One that measures levels, with access to them.
    Metered(B::SharedLevel),
    /// One that does not.
    Plain,
}

/// What the parts of a backend are reached through.
#[verifier::reject_recursive_types(B)]
pub struct BackendParts<B: Backend> {
    pub model_handle: B::ModelHandle,
    pub asset_processor_handle: B::AssetProcessorHandle,
    pub controller_handle: B::ControllerHandle,
    pub request_state_sync_tx: SyncRequests,
    pub request_full_state_tx: FullStateRequests<B>,
}

/// A backend that is ready to run.
#[verifier::reject_recursive_types(B)]
pub struct StartedBackend<B: Backend> {
    pub handle: BackendHandle<B>,
    /// The tasks to spawn, in this order.
    pub tasks: Vec<BackendTask>,
}

/// Every task of a backend, in the order in which they are spawned: first those that do its
/// work, then those that answer requests about it.
pub open spec fn spawn_order() -> Seq<BackendTask> {
    seq![
        BackendTask::ModelManager,
        BackendTask::Controller,
        BackendTask::Executor,
        BackendTask::AudioEngine,
        BackendTask::WaitEngine,
        BackendTask::AssetProcessor,
        BackendTask::StateSync,
        BackendTask::FullState,
    ]
}

/// The kind of an engine that was opened.
pub open spec fn kind_of<B: Backend>(engine: OpenedEngine<B>) -> EngineKind {
    match engine {
        OpenedEngine::Metered(_) => EngineKind::Metered,
        OpenedEngine::Plain => EngineKind::Plain,
    }
}

/// The kind of engine that a backend is started with.
pub open spec fn wanted_kind(enable_metering: bool) -> EngineKind {
    if enable_metering {
        EngineKind::Metered
    } else {
        EngineKind::Plain
    }
}

/// The levels that an opened engine measures.
pub open spec fn level_of<B: Backend>(engine: OpenedEngine<B>) -> Option<B::SharedLevel> {
    match engine {
        OpenedEngine::Metered(level) => Some(level),
        OpenedEngine::Plain => None,
    }
}

/// `handle` gives access to the parts of a backend and to the levels that its engine measures.
pub open spec fn is_access_to<B: Backend>(
    handle: BackendHandle<B>,
    engine: OpenedEngine<B>,
    parts: BackendParts<B>,
) -> bool {
    &&& handle.model() == parts.model_handle
    &&& handle.asset_processor() == parts.asset_processor_handle
    &&& handle.controller() == parts.controller_handle
    &&& handle.levels() == level_of(engine)
    &&& handle.sync_queue() == parts.request_state_sync_tx
    &&& handle.full_state_queue() == parts.request_full_state_tx
}

/// The audio engine to open for a backend.
pub fn engine_kind(enable_metering: bool) -> (kind: EngineKind)
    ensures
        kind == wanted_kind(enable_metering),
        kind == EngineKind::Metered <==> enable_metering,
        kind == EngineKind::Plain <==> !enable_metering,
{
    if enable_metering {
        EngineKind::Metered
    } else {
        EngineKind::Plain
    }
}

/// Starts a backend, once its audio engine was opened, and the parts around it made, or the engine
/// could not be opened. If it could not, the error is handed on and there is nothing to spawn.
pub fn start_backend<B: Backend, E>(
    prepared: Result<(OpenedEngine<B>, BackendParts<B>), E>,
) -> (r: Result<StartedBackend<B>, E>)
    ensures
        r is Ok <==> prepared is Ok,
        prepared matches Err(error) ==> r == Err::<StartedBackend<B>, E>(error),
        prepared matches Ok((engine, parts)) ==> (r matches Ok(started) && started.tasks@
            == spawn_order() && is_access_to(started.handle, engine, parts)),
        prepared matches Ok((engine, parts)) ==> (r matches Ok(started) && started.handle.model()
            == parts.model_handle && started.handle.asset_processor()
            == parts.asset_processor_handle && started.handle.controller()
            == parts.controller_handle && started.handle.sync_queue()
            == parts.request_state_sync_tx && started.handle.full_state_queue()
            == parts.request_full_state_tx && (engine matches OpenedEngine::Metered(level)
            ==> started.handle.levels() == Some(level)) && (engine is Plain
            ==> started.handle.levels() is None)),
        prepared is Ok ==> (r matches Ok(started) && started.tasks@ == seq![
            BackendTask::ModelManager,
            BackendTask::Controller,
            BackendTask::Executor,
            BackendTask::AudioEngine,
            BackendTask::WaitEngine,
            BackendTask::AssetProcessor,
            BackendTask::StateSync,
            BackendTask::FullState,
        ]),
{
    let (engine, parts) = match prepared {
        Ok(prepared) => prepared,
        Err(error) => return Err(error),
    };
    let level_meter = match engine {
        OpenedEngine::Metered(level) => Some(level),
        OpenedEngine::Plain => None,
    };
    let mut tasks: Vec<BackendTask> = Vec::new();
    tasks.push(BackendTask::ModelManager);
    tasks.push(BackendTask::Controller);
    tasks.push(BackendTask::Executor);
    tasks.push(BackendTask::AudioEngine);
    tasks.push(BackendTask::WaitEngine);
    tasks.push(BackendTask::AssetProcessor);
    tasks.push(BackendTask::StateSync);
    tasks.push(BackendTask::FullState);
    Ok(
        StartedBackend {
            handle: BackendHandle {
                model_handle: parts.model_handle,
                asset_processor_handle: parts.asset_processor_handle,
                controller_handle: parts.controller_handle,
                level_meter,
                request_state_sync_tx: parts.request_state_sync_tx,
                request_full_state_tx: parts.request_full_state_tx,
            },
            tasks,
        },
    )
}

/// A handle reaches the parts that its backend was started with, and offers levels exactly if its
/// engine measures them: those levels.
pub proof fn handles_reach_their_backend<B: Backend>(
    handle: BackendHandle<B>,
    engine: OpenedEngine<B>,
    parts: BackendParts<B>,
)
    requires
        is_access_to(handle, engine, parts),
    ensures
        handle.model() == parts.model_handle,
        handle.asset_processor() == parts.asset_processor_handle,
        handle.controller() == parts.controller_handle,
        handle.sync_queue() == parts.request_state_sync_tx,
        handle.full_state_queue() == parts.request_full_state_tx,
        handle.levels() is Some <==> engine is Metered,
        handle.levels() matches Some(level) ==> engine == OpenedEngine::<B>::Metered(level),
{
}

/// A clone of a handle reaches the same backend: it has clones of the three handles, the same two
/// queues, and levels exactly if the handle has them.
pub proof fn cloned_handles_reach_the_same_backend<B: Backend>(
    handle: BackendHandle<B>,
    copy: BackendHandle<B>,
)
    requires
        is_clone(handle, copy),
    ensures
        cloned(handle.model(), copy.model()),
        cloned(handle.asset_processor(), copy.asset_processor()),
        cloned(handle.controller(), copy.controller()),
        handle.levels() is Some <==> copy.levels() is Some,
        handle.levels() is Some ==> cloned(handle.levels()->0, copy.levels()->0),
        copy.sync_queue() == handle.sync_queue(),
        copy.full_state_queue() == handle.full_state_queue(),
{
}

/// A requester is given its answer, unchanged, exactly if one reached it.
pub proof fn answers_are_handed_on<B: Backend>(answer: Option<FullShowState<B>>)
    ensures
        response(answer) is Ok <==> answer is Some,
        response(answer) matches Ok(given) ==> answer == Some(given),
{
}

/// A backend offers levels exactly if it was started with metering.
pub proof fn metering_decides_the_level_meter<B: Backend>(
    enable_metering: bool,
    engine: OpenedEngine<B>,
)
    requires
        kind_of(engine) == wanted_kind(enable_metering),
    ensures
        level_of(engine) is Some <==> enable_metering,
{
}

/// Every task is spawned, and none twice.
pub proof fn every_task_is_spawned_once(task: BackendTask)
    ensures
        exists|i: int| 0 <= i < spawn_order().len() && #[trigger] spawn_order()[i] == task,
        spawn_order().no_duplicates(),
{
    let position = match task {
        BackendTask::ModelManager => 0int,
        BackendTask::Controller => 1,
        BackendTask::Executor => 2,
        BackendTask::AudioEngine => 3,
        BackendTask::WaitEngine => 4,
        BackendTask::AssetProcessor => 5,
        BackendTask::StateSync => 6,
        BackendTask::FullState => 7,
    };
    assert(spawn_order()[position] == task);
}

} // verus!
