//! The state of the desktop program: its backend, and the server that it can start and stop.
use vstd::prelude::*;

use crate::backend::BackendHandle;
use crate::channel::Publisher;
use crate::show::{Backend, BackendEvent, ShowState};

verus! {

/// The port that the server listens on unless another is set.
pub const DEFAULT_PORT: u16 = 5800;

/// The resource directory whose files the server offers.
pub const SERVER_RESOURCE: &'static str = "websocket";

/// The event that tells the user interface of a started or stopped server.
pub const SERVER_STATUS_EVENT: &'static str = "backend-server-status-changed";

/// The types of the desktop program around the state. Their values are carried, never looked
/// into.
pub trait Desktop: Backend {
    /// The settings of the program.
    type SettingsManager;

    /// A listener for the level meter.
    type MeterListener;

    /// A listener for backend events.
    type EventHandler;

    /// How the server can be discovered.
    type Discovery: Clone;

    /// One entry of the server's authorization map.
    type AuthEntry: Clone;

    /// The directory of the files that the server offers.
    type ServerDir;
}

/// What a running server is told to stop through, with a record of how often it was told.
pub type Shutdown = Publisher<()>;

/// Options of the server.
pub struct ApiServerOptions<D: Desktop> {
    pub port: u16,
    pub discoverry: Option<D::Discovery>,
    pub auth_map: Vec<D::AuthEntry>,
}

/// `b` holds clones of what `a` holds.
pub open spec fn is_clone<D: Desktop>(a: ApiServerOptions<D>, b: ApiServerOptions<D>) -> bool {
    &&& a.port == b.port
    &&& a.discoverry is Some <==> b.discoverry is Some
    &&& a.discoverry is Some ==> cloned(a.discoverry->0, b.discoverry->0)
    &&& a.auth_map@.len() == b.auth_map@.len()
    &&& forall|i: int|
        0 <= i < a.auth_map@.len() ==> cloned(#[trigger] a.auth_map@[i], b.auth_map@[i])
}

impl<D: Desktop> Clone for ApiServerOptions<D> {
    fn clone(&self) -> (r: Self)
        ensures
            is_clone(*self, r),
            r.port == self.port,
            r.discoverry is Some <==> self.discoverry is Some,
            self.discoverry is Some ==> cloned(self.discoverry->0, r.discoverry->0),
            r.auth_map@.len() == self.auth_map@.len(),
            forall|i: int|
                0 <= i < self.auth_map@.len() ==> cloned(
                    self.auth_map@[i],
                    #[trigger] r.auth_map@[i],
                ),
    {
        ApiServerOptions {
            port: self.port,
            discoverry: self.discoverry.clone(),
            auth_map: self.auth_map.clone(),
        }
    }
}

/// What the user interface is told of the server.
#[derive(Clone, Copy, Debug, PartialEq, Eq, Structural)]
pub enum ServerStatus {
    Started,
    Stopped,
}

impl ServerStatus {
    /// What the status event carries.
    pub fn payload(self) -> (r: &'static str)
        ensures
            r@ == match self {
                ServerStatus::Started => "started"@,
                ServerStatus::Stopped => "stopped"@,
            },
    {
        match self {
            ServerStatus::Started => "started",
            ServerStatus::Stopped => "stopped",
        }
    }
}

/// A server to be started: what it is to be given. Of the two channel ends it is to be given
/// clones.
#[verifier::reject_recursive_types(D)]
pub struct ServerLaunch<'a, D: Desktop> {
    pub backend_handle: BackendHandle<D>,
    pub state_rx: &'a tokio::sync::watch::Receiver<ShowState<D>>,
    pub event_tx: &'a tokio::sync::broadcast::Sender<BackendEvent<D>>,
    pub options: ApiServerOptions<D>,
    pub server_dir: D::ServerDir,
}

/// What came of starting a server.
pub struct ServerStart {
    /// The server that ran before, if one did. It was told nothing, and cannot be once this is
    /// dropped.
    pub replaced: Option<Shutdown>,
    /// What the user interface is told.
    pub status: ServerStatus,
}

/// What came of stopping the server.
pub struct ServerStop {
    /// The server that was running, if one was.
    pub stopped: Option<Shutdown>,
    /// Whether that server is still there to hear of it.
    pub heard: Option<bool>,
    /// What the user interface is told.
    pub status: ServerStatus,
}

/// Between `before` and `after`, the server behind them, if there is one, was told to stop exactly
/// as often as `signals` lists its sender, and no other is listed.
pub open spec fn is_told(
    before: Option<Shutdown>,
    after: Option<Shutdown>,
    signals: Seq<tokio::sync::broadcast::Sender<()>>,
) -> bool {
    match before {
        Some(server) => {
            &&& after matches Some(same) && same.sender() == server.sender() && same.sent().len()
                == server.sent().len() + signals.len()
            &&& forall|i: int| 0 <= i < signals.len() ==> #[trigger] signals[i] == server.sender()
        },
        None => after is None && signals.len() == 0,
    }
}

/// `heard` is what came of telling the server behind `shutdown` to stop, if there is one: whether it
/// was still there to hear it.
pub open spec fn is_heard(shutdown: Option<Shutdown>, heard: Option<bool>) -> bool {
    match shutdown {
        Some(server) => exists|r: Result<usize, ()>|
            #[trigger] crate::channel::is_sent(server.sender(), (), r) && heard == Some(r is Ok),
        None => heard is None,
    }
}

/// What the state knows of the server.
pub struct ServerView<D: Desktop> {
    pub options: ApiServerOptions<D>,
    pub shutdown: Option<Shutdown>,
}

/// What can happen to the server.
pub enum ServerOp<D: Desktop> {
    /// Its options were set.
    SetOptions(ApiServerOptions<D>),
    /// It was started.
    Started(Shutdown),
    /// It could not be started.
    StartFailed,
    /// It was stopped.
    Stopped,
}

impl<D: Desktop> ServerOp<D> {
    /// The operation decides whether a server is running.
    pub open spec fn switches(self) -> bool {
        self is Started || self is Stopped
    }

    /// What the user interface is told of the operation.
    pub open spec fn status(self) -> Option<ServerStatus> {
        match self {
            ServerOp::Started(_) => Some(ServerStatus::Started),
            ServerOp::Stopped => Some(ServerStatus::Stopped),
            _ => None,
        }
    }
}

impl<D: Desktop> ServerView<D> {
    /// The view after an operation.
    pub open spec fn after(self, op: ServerOp<D>) -> ServerView<D> {
        match op {
            ServerOp::SetOptions(options) => ServerView { options, ..self },
            ServerOp::Started(shutdown) => ServerView { shutdown: Some(shutdown), ..self },
            ServerOp::StartFailed => self,
            ServerOp::Stopped => ServerView { shutdown: None, ..self },
        }
    }

    /// The senders on which an operation sends the signal to stop.
    pub open spec fn signals_for(self, op: ServerOp<D>) -> Seq<tokio::sync::broadcast::Sender<()>> {
        match (op, self.shutdown) {
            (ServerOp::Stopped, Some(shutdown)) => seq![shutdown.sender()],
            _ => seq![],
        }
    }

    /// The senders on which a sequence of operations sends the signal to stop, in order.
    pub open spec fn signals(self, ops: Seq<ServerOp<D>>) -> Seq<
        tokio::sync::broadcast::Sender<()>,
    >
        decreases ops.len(),
    {
        if ops.len() == 0 {
            seq![]
        } else {
            self.signals(ops.drop_last()) + self.after_all(ops.drop_last()).signals_for(ops.last())
        }
    }

    /// The view after a sequence of operations.
    pub open spec fn after_all(self, ops: Seq<ServerOp<D>>) -> ServerView<D>
        decreases ops.len(),
    {
        if ops.len() == 0 {
            self
        } else {
            self.after_all(ops.drop_last()).after(ops.last())
        }
    }
}

/// The number of servers that were started during `ops`.
pub open spec fn starts<D: Desktop>(ops: Seq<ServerOp<D>>) -> nat
    decreases ops.len(),
{
    if ops.len() == 0 {
        0
    } else {
        starts(ops.drop_last()) + if ops.last() is Started {
            1nat
        } else {
            0nat
        }
    }
}

/// The state of the desktop program.
#[verifier::reject_recursive_types(D)]
pub struct AppState<D: Desktop> {
    backend_handle: BackendHandle<D>,
    state_rx: tokio::sync::watch::Receiver<ShowState<D>>,
    event_tx: tokio::sync::broadcast::Sender<BackendEvent<D>>,
    pub settings_manager: D::SettingsManager,
    server_option: ApiServerOptions<D>,
    /// What the running server is told to stop through, if one is running.
    shutdown_tx: Option<Shutdown>,
    level_meter_tx: tokio::sync::watch::Sender<Option<D::MeterListener>>,
    /// The listener for backend events, if one is registered.
    event_handler: Option<D::EventHandler>,
}

impl<D: Desktop> AppState<D> {
    /// Access to the backend.
    pub closed spec fn backend(&self) -> BackendHandle<D> {
        self.backend_handle
    }

    /// Where the show state is read.
    pub closed spec fn states(&self) -> tokio::sync::watch::Receiver<ShowState<D>> {
        self.state_rx
    }

    /// Where backend events are sent.
    pub closed spec fn events(&self) -> tokio::sync::broadcast::Sender<BackendEvent<D>> {
        self.event_tx
    }

    /// The settings of the program.
    pub closed spec fn settings(&self) -> D::SettingsManager {
        self.settings_manager
    }

    /// What the state knows of the server.
    pub closed spec fn server(&self) -> ServerView<D> {
        ServerView { options: self.server_option, shutdown: self.shutdown_tx }
    }

    /// Where the listener for the level meter is set.
    pub closed spec fn meter(&self) -> tokio::sync::watch::Sender<Option<D::MeterListener>> {
        self.level_meter_tx
    }

    /// The listener for backend events, if one is registered.
    pub closed spec fn handler(&self) -> Option<D::EventHandler> {
        self.event_handler
    }

    /// Nothing differs but the server and the listener for backend events.
    pub open spec fn is_around_the_same(&self, other: &Self) -> bool {
        &&& self.backend() == other.backend()
        &&& self.states() == other.states()
        &&& self.events() == other.events()
        &&& self.settings() == other.settings()
        &&& self.meter() == other.meter()
    }

    /// Only the server differs.
    pub open spec fn differs_in_server_only(&self, other: &Self) -> bool {
        self.is_around_the_same(other) && self.handler() == other.handler()
    }

    /// The state at start: no server is running, its options are the default port, no discovery
    /// and an empty authorization map, and no one listens for events.
    pub fn new(
        backend_handle: BackendHandle<D>,
        state_rx: tokio::sync::watch::Receiver<ShowState<D>>,
        event_tx: tokio::sync::broadcast::Sender<BackendEvent<D>>,
        settings_manager: D::SettingsManager,
        level_meter_tx: tokio::sync::watch::Sender<Option<D::MeterListener>>,
    ) -> (state: Self)
        ensures
            state.backend() == backend_handle,
            state.states() == state_rx,
            state.events() == event_tx,
            state.settings() == settings_manager,
            state.meter() == level_meter_tx,
            state.server().options.port == 5800,
            state.server().options.discoverry is None,
            state.server().options.auth_map@.len() == 0,
            state.server().shutdown is None,
            state.handler() is None,
    {
        AppState {
            backend_handle,
            state_rx,
            event_tx,
            settings_manager,
            server_option: ApiServerOptions {
                port: DEFAULT_PORT,
                discoverry: None,
                auth_map: Vec::new(),
            },
            shutdown_tx: None,
            level_meter_tx,
            event_handler: None,
        }
    }

    /// Access to the backend.
    pub fn get_handle(&self) -> (handle: BackendHandle<D>)
        ensures
            crate::backend::is_clone(self.backend(), handle),
            cloned(self.backend().model(), handle.model()),
            cloned(self.backend().asset_processor(), handle.asset_processor()),
            cloned(self.backend().controller(), handle.controller()),
            self.backend().levels() is Some <==> handle.levels() is Some,
            self.backend().levels() is Some ==> cloned(
                self.backend().levels()->0,
                handle.levels()->0,
            ),
            handle.sync_queue() == self.backend().sync_queue(),
            handle.full_state_queue() == self.backend().full_state_queue(),
    {
        self.backend_handle.clone()
    }

    /// Whether a server is running.
    pub fn is_running(&self) -> (r: bool)
        ensures
            r == self.server().shutdown is Some,
    {
        self.shutdown_tx.is_some()
    }

    /// Sets the options for the next start. A running server keeps its own and is told nothing.
    pub fn set_server_options(&mut self, options: ApiServerOptions<D>)
        ensures
            final(self).server() == old(self).server().after(ServerOp::SetOptions(options)),
            is_told(
                old(self).server().shutdown,
                final(self).server().shutdown,
                old(self).server().signals_for(ServerOp::SetOptions(options)),
            ),
            final(self).server().options == options,
            final(self).server().shutdown == old(self).server().shutdown,
            final(self).differs_in_server_only(old(self)),
            final(self).backend() == old(self).backend(),
            final(self).states() == old(self).states(),
            final(self).events() == old(self).events(),
            final(self).settings() == old(self).settings(),
            final(self).meter() == old(self).meter(),
            final(self).handler() == old(self).handler(),
    {
        self.server_option = options;
    }

    /// The options that were set last.
    pub fn get_server_options(&self) -> (options: ApiServerOptions<D>)
        ensures
            is_clone(self.server().options, options),
            options.port == self.server().options.port,
            options.discoverry is Some <==> self.server().options.discoverry is Some,
            options.discoverry is Some ==> cloned(
                self.server().options.discoverry->0,
                options.discoverry->0,
            ),
            options.auth_map@.len() == self.server().options.auth_map@.len(),
            forall|i: int|
                0 <= i < options.auth_map@.len() ==> cloned(
                    self.server().options.auth_map@[i],
                    #[trigger] options.auth_map@[i],
                ),
    {
        self.server_option.clone()
    }

    /// Begins to start a server that offers the files in `server_dir`, if that was found: the
    /// server is to be launched on this state's backend, show state and events, with the current
    /// options.
    pub fn start<E>(&self, server_dir: Result<D::ServerDir, E>) -> (r: Result<
        ServerLaunch<'_, D>,
        E,
    >)
        ensures
            r is Ok <==> server_dir is Ok,
            server_dir matches Err(error) ==> r == Err::<ServerLaunch<'_, D>, E>(error),
            server_dir matches Ok(dir) ==> (r matches Ok(launch) && launch.server_dir == dir
                && is_clone(self.server().options, launch.options) && crate::backend::is_clone(
                self.backend(),
                launch.backend_handle,
            ) && *launch.state_rx == self.states() && *launch.event_tx == self.events()),
            r matches Ok(launch) ==> launch.options.port == self.server().options.port && (
            launch.options.discoverry is Some <==> self.server().options.discoverry is Some) && (
            launch.options.discoverry is Some ==> cloned(
                self.server().options.discoverry->0,
                launch.options.discoverry->0,
            )) && launch.options.auth_map@.len() == self.server().options.auth_map@.len() && (
            forall|i: int|
                0 <= i < launch.options.auth_map@.len() ==> cloned(
                    self.server().options.auth_map@[i],
                    #[trigger] launch.options.auth_map@[i],
                )),
            r matches Ok(launch) ==> cloned(self.backend().model(), launch.backend_handle.model())
                && cloned(
                self.backend().asset_processor(),
                launch.backend_handle.asset_processor(),
            ) && cloned(self.backend().controller(), launch.backend_handle.controller()) && (
            self.backend().levels() is Some <==> launch.backend_handle.levels() is Some) && (
            self.backend().levels() is Some ==> cloned(
                self.backend().levels()->0,
                launch.backend_handle.levels()->0,
            )) && launch.backend_handle.sync_queue() == self.backend().sync_queue()
                && launch.backend_handle.full_state_queue() == self.backend().full_state_queue(),
    {
        match server_dir {
            Ok(server_dir) => Ok(
                ServerLaunch {
                    backend_handle: self.backend_handle.clone(),
                    state_rx: &self.state_rx,
                    event_tx: &self.event_tx,
                    options: self.server_option.clone(),
                    server_dir,
                },
            ),
            Err(error) => Err(error),
        }
    }

    /// Finishes a start with what came of the launch. A server that was launched is the running
    /// one from then on, and the user interface is told; one that ran before is replaced and told
    /// nothing. If the launch failed, nothing changes.
    pub fn finish_start<E>(&mut self, launched: Result<Shutdown, E>) -> (r: Result<ServerStart, E>)
        ensures
            launched matches Ok(shutdown) ==> (r matches Ok(start) && Some(start.status)
                == ServerOp::<D>::Started(shutdown).status()
                && start.replaced == old(self).server().shutdown && is_told(
                old(self).server().shutdown,
                start.replaced,
                old(self).server().signals_for(ServerOp::Started(shutdown)),
            ) && final(self).server() == old(self).server().after(ServerOp::Started(shutdown))),
            launched matches Err(error) ==> r == Err::<ServerStart, E>(error)
                && final(self).server() == old(self).server().after(ServerOp::StartFailed)
                && is_told(
                old(self).server().shutdown,
                final(self).server().shutdown,
                old(self).server().signals_for(ServerOp::StartFailed),
            ),
            r is Ok <==> launched is Ok,
            launched matches Ok(shutdown) ==> final(self).server().shutdown == Some(shutdown),
            r matches Ok(start) ==> start.status == ServerStatus::Started,
            launched is Err ==> final(self).server().shutdown == old(self).server().shutdown,
            final(self).server().options == old(self).server().options,
            final(self).differs_in_server_only(old(self)),
            final(self).backend() == old(self).backend(),
            final(self).states() == old(self).states(),
            final(self).events() == old(self).events(),
            final(self).settings() == old(self).settings(),
            final(self).meter() == old(self).meter(),
            final(self).handler() == old(self).handler(),
    {
        match launched {
            Ok(shutdown) => {
                let replaced = self.shutdown_tx.take();
                self.shutdown_tx = Some(shutdown);
                Ok(ServerStart { replaced, status: ServerStatus::Started })
            },
            Err(error) => Err(error),
        }
    }

    /// Stops the server: whichever is running is sent the signal, once, and the user interface is
    /// told in any case.
    pub fn stop(&mut self) -> (r: ServerStop)
        ensures
            is_told(
                old(self).server().shutdown,
                r.stopped,
                old(self).server().signals_for(ServerOp::Stopped),
            ),
            is_heard(old(self).server().shutdown, r.heard),
            Some(r.status) == ServerOp::<D>::Stopped.status(),
            final(self).server() == old(self).server().after(ServerOp::Stopped),
            old(self).server().shutdown matches Some(server) ==> (r.stopped matches Some(stopped)
                && stopped.sender() == server.sender() && stopped.sent() == server.sent().push(())
                && (exists|sent: Result<usize, ()>|
                #[trigger] crate::channel::is_sent(server.sender(), (), sent) && r.heard == Some(
                    sent is Ok,
                ))),
            old(self).server().shutdown is None ==> r.stopped is None && r.heard is None,
            r.status == ServerStatus::Stopped,
            final(self).server().shutdown is None,
            final(self).server().options == old(self).server().options,
            final(self).differs_in_server_only(old(self)),
            final(self).backend() == old(self).backend(),
            final(self).states() == old(self).states(),
            final(self).events() == old(self).events(),
            final(self).settings() == old(self).settings(),
            final(self).meter() == old(self).meter(),
            final(self).handler() == old(self).handler(),
    {
        match self.shutdown_tx.take() {
            Some(mut shutdown) => {
                let heard = match shutdown.publish(()) {
                    Ok(_) => true,
                    Err(_) => false,
                };
                ServerStop {
                    stopped: Some(shutdown),
                    heard: Some(heard),
                    status: ServerStatus::Stopped,
                }
            },
            None => ServerStop { stopped: None, heard: None, status: ServerStatus::Stopped },
        }
    }

    /// The listener for backend events, if one is registered.
    pub fn event_handler(&self) -> (handler: Option<&D::EventHandler>)
        ensures
            handler is Some <==> self.handler() is Some,
            handler matches Some(registered) ==> self.handler() == Some(*registered),
    {
        self.event_handler.as_ref()
    }

    /// Registers a listener for backend events in place of the one before, or none.
    pub fn set_event_handler(&mut self, handler: Option<D::EventHandler>)
        ensures
            final(self).handler() == handler,
            final(self).server() == old(self).server(),
            final(self).is_around_the_same(old(self)),
            final(self).backend() == old(self).backend(),
            final(self).states() == old(self).states(),
            final(self).events() == old(self).events(),
            final(self).settings() == old(self).settings(),
            final(self).meter() == old(self).meter(),
    {
        self.event_handler = handler;
    }

    /// Where the listener for the level meter is set.
    pub fn level_meter_tx(&self) -> (tx: &tokio::sync::watch::Sender<Option<D::MeterListener>>)
        ensures
            *tx == self.meter(),
    {
        &self.level_meter_tx
    }
}

/// The server that runs after a sequence of operations is the one started last, unless it was
/// stopped since; operations in between that start or stop nothing do not matter.
pub proof fn last_switch_decides<D: Desktop>(
    server: ServerView<D>,
    ops: Seq<ServerOp<D>>,
    last: int,
)
    requires
        0 <= last < ops.len(),
        ops[last].switches(),
        forall|i: int| last < i < ops.len() ==> !(#[trigger] ops[i]).switches(),
    ensures
        server.after_all(ops).shutdown == match ops[last] {
            ServerOp::Started(shutdown) => Some(shutdown),
            _ => None,
        },
    decreases ops.len(),
{
    if last < ops.len() - 1 {
        assert(!ops[ops.len() - 1].switches());
        last_switch_decides(server, ops.drop_last(), last);
    }
}

/// What the user interface was told last is right: it was told of a started server exactly if one
/// is running.
pub proof fn interface_knows_what_runs<D: Desktop>(
    server: ServerView<D>,
    ops: Seq<ServerOp<D>>,
    last: int,
)
    requires
        0 <= last < ops.len(),
        ops[last].status() is Some,
        forall|i: int| last < i < ops.len() ==> (#[trigger] ops[i]).status() is None,
    ensures
        server.after_all(ops).shutdown is Some <==> ops[last].status() == Some(
            ServerStatus::Started,
        ),
{
    assert forall|i: int| last < i < ops.len() implies !(#[trigger] ops[i]).switches() by {
        assert(ops[i].status() is None);
    }
    last_switch_decides(server, ops, last);
}

/// Setting options and failing to start leave the server running or not, as it was.
pub proof fn other_operations_switch_nothing<D: Desktop>(
    server: ServerView<D>,
    ops: Seq<ServerOp<D>>,
)
    requires
        forall|i: int| 0 <= i < ops.len() ==> !(#[trigger] ops[i]).switches(),
    ensures
        server.after_all(ops).shutdown == server.shutdown,
    decreases ops.len(),
{
    if ops.len() > 0 {
        assert(!ops[ops.len() - 1].switches());
        other_operations_switch_nothing(server, ops.drop_last());
    }
}

/// The options after a sequence of operations are those set last.
pub proof fn options_set_last_hold<D: Desktop>(
    server: ServerView<D>,
    ops: Seq<ServerOp<D>>,
    last: int,
)
    requires
        0 <= last < ops.len(),
        ops[last] is SetOptions,
        forall|i: int| last < i < ops.len() ==> !((#[trigger] ops[i]) is SetOptions),
    ensures
        server.after_all(ops).options == ops[last]->SetOptions_0,
    decreases ops.len(),
{
    if last < ops.len() - 1 {
        assert(!(ops[ops.len() - 1] is SetOptions));
        options_set_last_hold(server, ops.drop_last(), last);
    }
}

/// Options that are read back, and those that a server is launched with, are those set last,
/// whatever happened to the server since: the same port, a discovery exactly if one was set, and
/// an authorization map of the same length with a clone of each entry in its place.
pub proof fn options_set_last_are_read_back<D: Desktop>(
    server: ServerView<D>,
    ops: Seq<ServerOp<D>>,
    last: int,
    read: ApiServerOptions<D>,
    i: int,
)
    requires
        0 <= last < ops.len(),
        ops[last] is SetOptions,
        forall|j: int| last < j < ops.len() ==> !((#[trigger] ops[j]) is SetOptions),
        is_clone(server.after_all(ops).options, read),
    ensures
        read.port == ops[last]->SetOptions_0.port,
        read.discoverry is Some <==> ops[last]->SetOptions_0.discoverry is Some,
        read.discoverry is Some ==> cloned(
            ops[last]->SetOptions_0.discoverry->0,
            read.discoverry->0,
        ),
        read.auth_map@.len() == ops[last]->SetOptions_0.auth_map@.len(),
        0 <= i < read.auth_map@.len() ==> cloned(
            ops[last]->SetOptions_0.auth_map@[i],
            read.auth_map@[i],
        ),
{
    options_set_last_hold(server, ops, last);
}

/// Options that are set hold at once and are read back whole, and setting them makes no
/// difference to what runs.
pub proof fn set_options_are_read_back_whole<D: Desktop>(
    server: ServerView<D>,
    options: ApiServerOptions<D>,
    read: ApiServerOptions<D>,
    i: int,
)
    requires
        is_clone(server.after(ServerOp::SetOptions(options)).options, read),
    ensures
        read.port == options.port,
        read.discoverry is Some <==> options.discoverry is Some,
        read.discoverry is Some ==> cloned(options.discoverry->0, read.discoverry->0),
        read.auth_map@.len() == options.auth_map@.len(),
        0 <= i < options.auth_map@.len() ==> cloned(options.auth_map@[i], read.auth_map@[i]),
        server.after(ServerOp::SetOptions(options)).shutdown == server.shutdown,
        server.signals_for(ServerOp::SetOptions(options)).len() == 0,
{
}

/// What a stop sends and leaves behind: one signal, to the server that was running, if one was,
/// and no running server. What a start leaves behind: the server that was launched, with nothing
/// sent to anyone.
pub proof fn stops_signal_and_starts_do_not<D: Desktop>(server: ServerView<D>, shutdown: Shutdown)
    ensures
        server.after(ServerOp::Stopped).shutdown is None,
        server.signals_for(ServerOp::Stopped).len() == if server.shutdown is Some {
            1nat
        } else {
            0nat
        },
        server.shutdown matches Some(running) ==> server.signals_for(ServerOp::Stopped)[0]
            == running.sender(),
        server.after(ServerOp::Started(shutdown)).shutdown == Some(shutdown),
        server.signals_for(ServerOp::Started(shutdown)).len() == 0,
        server.after(ServerOp::StartFailed).shutdown == server.shutdown,
        server.signals_for(ServerOp::StartFailed).len() == 0,
{
}

/// A server that is told as often as `signals` lists is told exactly so often: its record grows by
/// that number, and only the sender that it was started with is on the list.
pub proof fn telling_is_recorded(
    before: Option<Shutdown>,
    after: Option<Shutdown>,
    signals: Seq<tokio::sync::broadcast::Sender<()>>,
    i: int,
)
    requires
        is_told(before, after, signals),
    ensures
        before is Some <==> after is Some,
        before is None ==> signals.len() == 0,
        before is Some ==> after->0.sender() == before->0.sender() && after->0.sent().len()
            - before->0.sent().len() == signals.len(),
        before is Some && 0 <= i < signals.len() ==> signals[i] == before->0.sender(),
{
}

/// Starting and stopping leave the options alone.
pub proof fn switching_keeps_the_options<D: Desktop>(server: ServerView<D>, ops: Seq<ServerOp<D>>)
    requires
        forall|i: int| 0 <= i < ops.len() ==> !((#[trigger] ops[i]) is SetOptions),
    ensures
        server.after_all(ops).options == server.options,
    decreases ops.len(),
{
    if ops.len() > 0 {
        assert(!(ops[ops.len() - 1] is SetOptions));
        switching_keeps_the_options(server, ops.drop_last());
    }
}

/// A stop undoes a start, and a second stop changes nothing.
pub proof fn stop_undoes_start<D: Desktop>(server: ServerView<D>, shutdown: Shutdown)
    ensures
        server.shutdown is None ==> server.after(ServerOp::Started(shutdown)).after(
            ServerOp::Stopped,
        ) == server,
        server.after(ServerOp::Started(shutdown)).shutdown == Some(shutdown),
        server.after(ServerOp::Stopped).after(ServerOp::Stopped) == server.after(ServerOp::Stopped),
{
}

/// Servers are told to stop by stops only: setting options, starting a server over a running one
/// and failing to start tell none.
pub proof fn only_stops_signal<D: Desktop>(server: ServerView<D>, ops: Seq<ServerOp<D>>)
    requires
        forall|i: int| 0 <= i < ops.len() ==> !((#[trigger] ops[i]) is Stopped),
    ensures
        server.signals(ops).len() == 0,
    decreases ops.len(),
{
    if ops.len() > 0 {
        assert(!(ops[ops.len() - 1] is Stopped));
        only_stops_signal(server, ops.drop_last());
    }
}

/// As long as no server is started, any number of stops tells at most one server to stop: the one
/// that was running, if any.
pub proof fn repeated_stops_signal_once<D: Desktop>(server: ServerView<D>, ops: Seq<ServerOp<D>>)
    requires
        forall|i: int| 0 <= i < ops.len() ==> !((#[trigger] ops[i]) is Started),
    ensures
        server.signals(ops).len() <= 1,
        server.shutdown is None ==> server.signals(ops).len() == 0,
        server.shutdown matches Some(shutdown) ==> (server.signals(ops).len() == 1 ==> server.signals(
            ops,
        )[0] == shutdown.sender()),
        server.after_all(ops).shutdown is Some ==> server.signals(ops).len() == 0
            && server.after_all(ops).shutdown == server.shutdown,
    decreases ops.len(),
{
    if ops.len() > 0 {
        assert(!(ops[ops.len() - 1] is Started));
        repeated_stops_signal_once(server, ops.drop_last());
    }
}

/// No more signals to stop are sent than there were servers to stop: those that were started, and
/// the one that was running before. A server that is still running accounts for none.
pub proof fn no_more_signals_than_servers<D: Desktop>(server: ServerView<D>, ops: Seq<ServerOp<D>>)
    ensures
        server.signals(ops).len() + (if server.after_all(ops).shutdown is Some {
            1nat
        } else {
            0nat
        }) <= starts(ops) + (if server.shutdown is Some {
            1nat
        } else {
            0nat
        }),
    decreases ops.len(),
{
    if ops.len() > 0 {
        no_more_signals_than_servers(server, ops.drop_last());
    }
}

} // verus!
