use sbsp::app_state::{
    ApiServerOptions, AppState, Desktop, ServerStatus, DEFAULT_PORT, SERVER_RESOURCE,
    SERVER_STATUS_EVENT,
};
use sbsp::backend::{start_backend, BackendHandle, BackendParts, OpenedEngine};
use sbsp::channel::Publisher;
use sbsp::setup::{
    Build, SetupEvent, SetupStep, BACKEND_FAILURE_TITLE, LICENSE_FILE, MAIN_WINDOW, PUBLIC_KEY_PEM,
    SETTINGS_FILE,
};
use sbsp::show::{Backend, BackendEvent, ShowState};
use tokio::sync::{broadcast, mpsc, watch};

struct Test;

impl Backend for Test {
    type ModelHandle = u8;
    type AssetProcessorHandle = u8;
    type ControllerHandle = u8;
    type SharedLevel = u8;
    type ProjectStatus = u8;
    type ShowModel = u8;
    type CueId = u8;
    type Position = u8;
    type CueDetails = ();
    type ShowDetails = ();
    type OtherEvent = ();
}

impl Desktop for Test {
    type SettingsManager = &'static str;
    type MeterListener = ();
    type EventHandler = &'static str;
    type Discovery = String;
    type AuthEntry = (String, String);
    type ServerDir = &'static str;
}

fn handle() -> BackendHandle<Test> {
    let parts = BackendParts {
        model_handle: 1,
        asset_processor_handle: 2,
        controller_handle: 3,
        request_state_sync_tx: mpsc::channel(1).0,
        request_full_state_tx: mpsc::channel(1).0,
    };
    let prepared = Ok((OpenedEngine::Metered(4), parts));
    start_backend::<Test, String>(prepared).ok().unwrap().handle
}

fn app_state() -> AppState<Test> {
    let (_, state_rx) = watch::channel(ShowState { active_cues: vec![], details: () });
    let (event_tx, _) = broadcast::channel::<BackendEvent<Test>>(4);
    let (level_meter_tx, _) = watch::channel(None);
    AppState::new(
        handle(),
        state_rx,
        event_tx,
        "settings",
        level_meter_tx,
    )
}

fn options(port: u16) -> ApiServerOptions<Test> {
    ApiServerOptions {
        port,
        discoverry: Some("stage".to_string()),
        auth_map: vec![("user".to_string(), "word".to_string())],
    }
}

#[test]
fn new_state_runs_no_server() {
    let state = app_state();
    assert!(!state.is_running());
    assert!(state.event_handler().is_none());
    assert_eq!(state.settings_manager, "settings");
    let options = state.get_server_options();
    assert_eq!(options.port, 5800);
    assert_eq!(options.port, DEFAULT_PORT);
    assert!(options.discoverry.is_none());
    assert!(options.auth_map.is_empty());
}

#[test]
fn handle_is_that_of_the_backend() {
    let handle = app_state().get_handle();
    assert_eq!((handle.model_handle, handle.asset_processor_handle), (1, 2));
    assert_eq!((handle.controller_handle, handle.level_meter), (3, Some(4)));
}

#[test]
fn options_that_were_set_are_read_back() {
    let mut state = app_state();
    state.set_server_options(options(80));
    state.set_server_options(options(8080));
    let read = state.get_server_options();
    assert_eq!(read.port, 8080);
    assert_eq!(read.discoverry.as_deref(), Some("stage"));
    assert_eq!(read.auth_map, options(0).auth_map);
    assert!(!state.is_running());
}

#[test]
fn start_launches_with_the_current_options() {
    let mut state = app_state();
    state.set_server_options(options(9000));
    let launch = state.start::<String>(Ok("/resources/websocket")).ok().unwrap();
    assert_eq!(launch.server_dir, "/resources/websocket");
    assert_eq!(launch.options.port, 9000);
    assert_eq!(launch.options.auth_map.len(), 1);
    assert!(!state.is_running());
}

#[test]
fn server_is_launched_on_the_backend_of_the_state() {
    let (state_tx, state_rx) = watch::channel(ShowState { active_cues: vec![], details: () });
    let (event_tx, mut events) = broadcast::channel::<BackendEvent<Test>>(4);
    let (level_meter_tx, _) = watch::channel(None);
    let state = AppState::new(handle(), state_rx, event_tx, "settings", level_meter_tx);
    let launch = state.start::<String>(Ok("/resources/websocket")).ok().unwrap();
    assert_eq!(launch.backend_handle.model_handle, 1);
    assert_eq!(launch.backend_handle.level_meter, Some(4));
    assert!(launch.event_tx.send(BackendEvent::Other(())).is_ok());
    assert!(matches!(events.try_recv(), Ok(BackendEvent::Other(()))));
    let state_rx = launch.state_rx.clone();
    state_tx.send_replace(ShowState { active_cues: vec![], details: () });
    assert!(state_rx.has_changed().unwrap());
}

#[test]
fn event_handler_is_the_one_registered_last() {
    let mut state = app_state();
    state.set_event_handler(Some("first"));
    state.set_event_handler(Some("second"));
    assert_eq!(state.event_handler(), Some(&"second"));
    state.set_event_handler(None);
    assert_eq!(state.event_handler(), None);
    assert_eq!(state.settings_manager, "settings");
    assert!(!state.is_running());
}

#[test]
fn meter_listener_is_set_through_the_state() {
    let (_, state_rx) = watch::channel(ShowState { active_cues: vec![], details: () });
    let (event_tx, _) = broadcast::channel::<BackendEvent<Test>>(4);
    let (level_meter_tx, listeners) = watch::channel(None);
    let state = AppState::new(handle(), state_rx, event_tx, "settings", level_meter_tx);
    assert!(state.level_meter_tx().send(Some(())).is_ok());
    assert_eq!(*listeners.borrow(), Some(()));
}

#[test]
fn start_without_a_directory_fails() {
    let state = app_state();
    let r = state.start(Err("not found"));
    assert_eq!(r.err(), Some("not found"));
}

#[test]
fn started_server_runs_until_it_is_stopped() {
    let mut state = app_state();
    state.set_server_options(options(9000));
    let (shutdown, mut server) = broadcast::channel::<()>(1);
    let started = state.finish_start::<String>(Ok(Publisher::new(shutdown))).ok().unwrap();
    assert_eq!(started.status, ServerStatus::Started);
    assert!(started.replaced.is_none());
    assert!(state.is_running());
    assert!(server.try_recv().is_err());
    let stop = state.stop();
    assert!(!state.is_running());
    assert_eq!(stop.status, ServerStatus::Stopped);
    assert_eq!(stop.heard, Some(true));
    assert!(server.try_recv().is_ok());
    assert!(server.try_recv().is_err());
    assert_eq!(state.get_server_options().port, 9000);
}

#[test]
fn failed_launch_changes_nothing() {
    let mut state = app_state();
    assert_eq!(state.finish_start(Err("port in use")).err(), Some("port in use"));
    assert!(!state.is_running());
    let (shutdown, _server) = broadcast::channel::<()>(1);
    assert!(state.finish_start::<&str>(Ok(Publisher::new(shutdown))).is_ok());
    assert_eq!(state.finish_start(Err("port in use")).err(), Some("port in use"));
    assert!(state.is_running());
}

#[test]
fn stop_without_a_server_tells_no_one_but_the_interface() {
    let mut state = app_state();
    let stop = state.stop();
    assert_eq!(stop.heard, None);
    assert_eq!(stop.status, ServerStatus::Stopped);
    assert!(!state.is_running());
}

#[test]
fn second_start_replaces_the_first_server() {
    let mut state = app_state();
    let (first, mut first_server) = broadcast::channel::<()>(1);
    let (second, mut second_server) = broadcast::channel::<()>(1);
    assert!(state.finish_start::<String>(Ok(Publisher::new(first))).is_ok());
    let started = state.finish_start::<String>(Ok(Publisher::new(second))).ok().unwrap();
    assert_eq!(started.status, ServerStatus::Started);
    assert!(started.replaced.is_some());
    assert_eq!(first_server.try_recv(), Err(broadcast::error::TryRecvError::Empty));
    drop(started);
    assert_eq!(state.stop().heard, Some(true));
    assert!(second_server.try_recv().is_ok());
    assert_eq!(first_server.try_recv(), Err(broadcast::error::TryRecvError::Closed));
}

#[test]
fn stop_of_a_server_that_has_gone_is_not_heard() {
    let mut state = app_state();
    let (shutdown, server) = broadcast::channel::<()>(1);
    drop(server);
    assert!(state.finish_start::<String>(Ok(Publisher::new(shutdown))).is_ok());
    assert_eq!(state.stop().heard, Some(false));
    assert!(!state.is_running());
}

#[test]
fn setting_options_tells_a_running_server_nothing() {
    let mut state = app_state();
    let (shutdown, mut server) = broadcast::channel::<()>(1);
    assert!(state.finish_start::<String>(Ok(Publisher::new(shutdown))).is_ok());
    state.set_server_options(options(81));
    assert!(state.is_running());
    assert_eq!(server.try_recv(), Err(broadcast::error::TryRecvError::Empty));
}

#[test]
fn two_stops_send_one_signal() {
    let mut state = app_state();
    let (shutdown, mut server) = broadcast::channel::<()>(4);
    assert!(state.finish_start::<String>(Ok(Publisher::new(shutdown))).is_ok());
    let first = state.stop();
    let second = state.stop();
    assert_eq!((first.heard, second.heard), (Some(true), None));
    assert_eq!((first.status, second.status), (ServerStatus::Stopped, ServerStatus::Stopped));
    assert!(first.stopped.is_some() && second.stopped.is_none());
    assert!(server.try_recv().is_ok());
    assert_eq!(server.try_recv(), Err(broadcast::error::TryRecvError::Empty));
}

#[test]
fn steps_name_their_files() {
    assert_eq!(Step::OpenSettings(Some("dir")).file(), Some("config.json"));
    assert_eq!(Step::OpenSettings(None).file(), Some(SETTINGS_FILE));
    assert_eq!(Step::FindLicense("dir").file(), Some("license.json"));
    assert_eq!(Step::ActivateLicense("dir").file(), Some(LICENSE_FILE));
    assert_eq!(Step::FindSettingsDir.file(), None);
    assert_eq!(Step::SpawnMeter.file(), None);
}

#[test]
fn status_event_is_named_and_worded() {
    assert_eq!(SERVER_STATUS_EVENT, "backend-server-status-changed");
    assert_eq!(ServerStatus::Started.payload(), "started");
    assert_eq!(ServerStatus::Stopped.payload(), "stopped");
    assert_eq!(SERVER_RESOURCE, "websocket");
}

type Step = SetupStep<&'static str, &'static str>;

/// Runs the setup and names its steps.
fn run(
    build: Build,
    dir: Option<&'static str>,
    backend: Result<(), &'static str>,
    license: bool,
) -> Vec<String> {
    let mut step: Step = SetupStep::start(build);
    let mut names = vec![format!("{:?}", step)];
    while !matches!(step, SetupStep::Ready | SetupStep::Failed(_)) {
        let event = match &step {
            SetupStep::FindSettingsDir | SetupStep::FindLicenseDir => SetupEvent::Directory(dir),
            SetupStep::StartBackend { metering } => {
                assert!(*metering);
                SetupEvent::Backend(backend)
            }
            SetupStep::FindLicense(_) => SetupEvent::File(license),
            _ => SetupEvent::Done,
        };
        assert!(step.accepts(&event));
        step = step.next(event, build);
        names.push(format!("{:?}", step));
    }
    assert!(!step.accepts(&SetupEvent::Done));
    names
}

#[test]
fn full_setup_takes_every_step() {
    let build = Build { desktop: true, debug: true };
    assert_eq!(
        run(build, Some("/cfg"), Ok(()), true),
        vec![
            "InstallUpdater",
            "FindSettingsDir",
            "OpenSettings(Some(\"/cfg\"))",
            "StartBackend { metering: true }",
            "SpawnForwarding",
            "ManageState",
            "ManageLicense",
            "SpawnSettingsLoad",
            "FindLicenseDir",
            "FindLicense(\"/cfg\")",
            "ActivateLicense(\"/cfg\")",
            "SpawnMeter",
            "OpenDevtools",
            "Ready",
        ]
    );
}

#[test]
fn bare_setup_skips_what_is_not_there() {
    let build = Build { desktop: false, debug: false };
    assert_eq!(
        run(build, None, Ok(()), true),
        vec![
            "FindSettingsDir",
            "OpenSettings(None)",
            "StartBackend { metering: true }",
            "SpawnForwarding",
            "ManageState",
            "ManageLicense",
            "SpawnSettingsLoad",
            "FindLicenseDir",
            "SpawnMeter",
            "Ready",
        ]
    );
}

#[test]
fn setup_without_a_license_file_activates_none() {
    let build = Build { desktop: true, debug: false };
    let steps = run(build, Some("/cfg"), Ok(()), false);
    assert!(steps.contains(&"FindLicense(\"/cfg\")".to_string()));
    assert!(!steps.contains(&"ActivateLicense(\"/cfg\")".to_string()));
    assert_eq!(steps.last().unwrap(), "Ready");
}

#[test]
fn backend_failure_is_shown_and_ends_the_setup() {
    let build = Build { desktop: false, debug: true };
    assert_eq!(
        run(build, Some("/cfg"), Err("no audio"), true),
        vec![
            "FindSettingsDir",
            "OpenSettings(Some(\"/cfg\"))",
            "StartBackend { metering: true }",
            "ShowError(\"no audio\")",
            "Failed(\"no audio\")",
        ]
    );
}

#[test]
fn setup_steps_refuse_foreign_outcomes() {
    let step: Step = SetupStep::FindSettingsDir;
    assert!(!step.accepts(&SetupEvent::Done));
    assert!(!step.accepts(&SetupEvent::File(true)));
    let step: Step = SetupStep::StartBackend { metering: true };
    assert!(!step.accepts(&SetupEvent::Directory(None)));
}

#[test]
fn setup_names_its_files() {
    assert_eq!(SETTINGS_FILE, "config.json");
    assert_eq!(LICENSE_FILE, "license.json");
    assert_eq!(BACKEND_FAILURE_TITLE, "Failed to start backend");
    assert_eq!(MAIN_WINDOW, "main");
    let lines: Vec<&str> = PUBLIC_KEY_PEM.lines().collect();
    assert_eq!(lines[0], "-----BEGIN PUBLIC KEY-----");
    assert_eq!(lines[1], "MCowBQYDK2VwAyEAdlqW6bS6NMn2cdf2b4Ot1DNyjoytP2uFqoH+WlG+NeI=");
    assert_eq!(lines[2], "-----END PUBLIC KEY-----");
    assert_eq!(lines.len(), 3);
}
