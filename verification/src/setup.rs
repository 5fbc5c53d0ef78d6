//! What the desktop program does when it starts, step by step.
//!
//! A step is something to be done; when it has been done, what came of it decides the next one.
use vstd::prelude::*;

verus! {

/// The settings file in the configuration directory.
pub const SETTINGS_FILE: &'static str = "config.json";

/// The license file in the configuration directory.
pub const LICENSE_FILE: &'static str = "license.json";

/// The title of the message that says that the backend could not be started.
pub const BACKEND_FAILURE_TITLE: &'static str = "Failed to start backend";

/// The window whose developer tools are opened in debug builds.
pub const MAIN_WINDOW: &'static str = "main";

/// The key that licenses are checked against.
pub const PUBLIC_KEY_PEM: &'static str =
    "-----BEGIN PUBLIC KEY-----\nMCowBQYDK2VwAyEAdlqW6bS6NMn2cdf2b4Ot1DNyjoytP2uFqoH+WlG+NeI=\n-----END PUBLIC KEY-----";

/// How the program was built.
#[derive(Clone, Copy, Debug, PartialEq, Eq, Structural)]
pub struct Build {
    /// For a desktop system rather than a mobile one.
    pub desktop: bool,
    /// For debugging.
    pub debug: bool,
}

/// A step of the setup. `P` is a directory and `E` an error of the backend.
#[derive(Debug)]
pub enum SetupStep<P, E> {
    /// Install the updater.
    InstallUpdater,
    /// Find the configuration directory, for the settings.
    FindSettingsDir,
    /// Make a settings manager for [`SETTINGS_FILE`] in that directory, if there is one.
    OpenSettings(Option<P>),
    /// Start the backend.
    StartBackend { metering: bool },
    /// Show an error, under [`BACKEND_FAILURE_TITLE`].
    ShowError(E),
    /// Spawn the forwarding of backend events.
    SpawnForwarding,
    /// Make the program's state available.
    ManageState,
    /// Make the license manager, for [`PUBLIC_KEY_PEM`], available.
    ManageLicense,
    /// Spawn the loading of the settings.
    SpawnSettingsLoad,
    /// Find the configuration directory, for the license.
    FindLicenseDir,
    /// See whether [`LICENSE_FILE`] is in that directory.
    FindLicense(P),
    /// Activate the license there.
    ActivateLicense(P),
    /// Spawn the level meter.
    SpawnMeter,
    /// Open the developer tools of [`MAIN_WINDOW`].
    OpenDevtools,
    /// Nothing: the program is ready.
    Ready,
    /// Nothing: the program cannot run.
    Failed(E),
}

/// What came of a step.
#[derive(Debug)]
pub enum SetupEvent<P, E> {
    /// It was done.
    Done,
    /// The directory was found, or there is none.
    Directory(Option<P>),
    /// The backend was started, or could not be.
    Backend(Result<(), E>),
    /// The file exists, or does not.
    File(bool),
}

impl<P, E> SetupStep<P, E> {
    /// `event` is something that can come of this step.
    pub open spec fn awaits(self, event: SetupEvent<P, E>) -> bool {
        match self {
            SetupStep::FindSettingsDir | SetupStep::FindLicenseDir => event is Directory,
            SetupStep::StartBackend { .. } => event is Backend,
            SetupStep::FindLicense(_) => event is File,
            SetupStep::Ready | SetupStep::Failed(_) => false,
            _ => event is Done,
        }
    }

    /// The first step.
    pub open spec fn initial(build: Build) -> SetupStep<P, E> {
        if build.desktop {
            SetupStep::InstallUpdater
        } else {
            SetupStep::FindSettingsDir
        }
    }

    /// The step after this one, when `event` came of it.
    pub open spec fn after(self, event: SetupEvent<P, E>, build: Build) -> SetupStep<P, E> {
        match (self, event) {
            (SetupStep::InstallUpdater, _) => SetupStep::FindSettingsDir,
            (SetupStep::FindSettingsDir, SetupEvent::Directory(dir)) => SetupStep::OpenSettings(dir),
            (SetupStep::OpenSettings(_), _) => SetupStep::StartBackend { metering: true },
            (SetupStep::StartBackend { .. }, SetupEvent::Backend(Ok(_))) => SetupStep::SpawnForwarding,
            (SetupStep::StartBackend { .. }, SetupEvent::Backend(Err(error))) => SetupStep::ShowError(
                error,
            ),
            (SetupStep::ShowError(error), _) => SetupStep::Failed(error),
            (SetupStep::SpawnForwarding, _) => SetupStep::ManageState,
            (SetupStep::ManageState, _) => SetupStep::ManageLicense,
            (SetupStep::ManageLicense, _) => SetupStep::SpawnSettingsLoad,
            (SetupStep::SpawnSettingsLoad, _) => SetupStep::FindLicenseDir,
            (SetupStep::FindLicenseDir, SetupEvent::Directory(Some(dir))) => SetupStep::FindLicense(
                dir,
            ),
            (SetupStep::FindLicenseDir, SetupEvent::Directory(None)) => SetupStep::SpawnMeter,
            (SetupStep::FindLicense(dir), SetupEvent::File(true)) => SetupStep::ActivateLicense(dir),
            (SetupStep::FindLicense(_), SetupEvent::File(false)) => SetupStep::SpawnMeter,
            (SetupStep::ActivateLicense(_), _) => SetupStep::SpawnMeter,
            (SetupStep::SpawnMeter, _) => if build.debug {
                SetupStep::OpenDevtools
            } else {
                SetupStep::Ready
            },
            (SetupStep::OpenDevtools, _) => SetupStep::Ready,
            (step, _) => step,
        }
    }

    /// The file in the configuration directory that the step is about, if it is about one.
    pub open spec fn file_of(self) -> Option<Seq<char>> {
        match self {
            SetupStep::OpenSettings(_) => Some("config.json"@),
            SetupStep::FindLicense(_) | SetupStep::ActivateLicense(_) => Some("license.json"@),
            _ => None,
        }
    }

    /// How many steps can still come.
    pub open spec fn rank(self) -> nat {
        match self {
            SetupStep::InstallUpdater => 13,
            SetupStep::FindSettingsDir => 12,
            SetupStep::OpenSettings(_) => 11,
            SetupStep::StartBackend { .. } => 10,
            SetupStep::ShowError(_) => 1,
            SetupStep::SpawnForwarding => 9,
            SetupStep::ManageState => 8,
            SetupStep::ManageLicense => 7,
            SetupStep::SpawnSettingsLoad => 6,
            SetupStep::FindLicenseDir => 5,
            SetupStep::FindLicense(_) => 4,
            SetupStep::ActivateLicense(_) => 3,
            SetupStep::SpawnMeter => 2,
            SetupStep::OpenDevtools => 1,
            SetupStep::Ready => 0,
            SetupStep::Failed(_) => 0,
        }
    }

    /// The first step.
    pub fn start(build: Build) -> (step: SetupStep<P, E>)
        ensures
            step == SetupStep::<P, E>::initial(build),
            step is InstallUpdater <==> build.desktop,
            step is FindSettingsDir <==> !build.desktop,
    {
        if build.desktop {
            SetupStep::InstallUpdater
        } else {
            SetupStep::FindSettingsDir
        }
    }

    /// The file in the configuration directory that the step is about, if it is about one.
    pub fn file(&self) -> (name: Option<&'static str>)
        ensures
            name is Some <==> self.file_of() is Some,
            name matches Some(text) ==> Some(text@) == self.file_of(),
            self is OpenSettings ==> (name matches Some(text) && text@ == "config.json"@),
            self is FindLicense || self is ActivateLicense ==> (name matches Some(text) && text@
                == "license.json"@),
            !(self is OpenSettings || self is FindLicense || self is ActivateLicense) ==> name is None,
    {
        match self {
            SetupStep::OpenSettings(_) => Some(SETTINGS_FILE),
            SetupStep::FindLicense(_) => Some(LICENSE_FILE),
            SetupStep::ActivateLicense(_) => Some(LICENSE_FILE),
            _ => None,
        }
    }

    /// Whether [`SetupStep::next`] takes `event` after this step.
    pub fn accepts(&self, event: &SetupEvent<P, E>) -> (r: bool)
        ensures
            r == self.awaits(*event),
            r <==> (event is Directory && (self is FindSettingsDir || self is FindLicenseDir)) || (
            event is Backend && self is StartBackend) || (event is File && self is FindLicense) || (
            event is Done && !(self is FindSettingsDir || self is FindLicenseDir
                || self is StartBackend || self is FindLicense || self is Ready || self is Failed)),
    {
        match self {
            SetupStep::FindSettingsDir | SetupStep::FindLicenseDir => matches!(
                event,
                SetupEvent::Directory(_)
            ),
            SetupStep::StartBackend { .. } => matches!(event, SetupEvent::Backend(_)),
            SetupStep::FindLicense(_) => matches!(event, SetupEvent::File(_)),
            SetupStep::Ready | SetupStep::Failed(_) => false,
            _ => matches!(event, SetupEvent::Done),
        }
    }

    /// The next step, when `event` came of this one.
    pub fn next(self, event: SetupEvent<P, E>, build: Build) -> (step: SetupStep<P, E>)
        requires
            self.awaits(event),
        ensures
            step == self.after(event, build),
            step is FindSettingsDir <==> self is InstallUpdater,
            self is FindSettingsDir ==> step == SetupStep::<P, E>::OpenSettings(event->Directory_0),
            self is OpenSettings ==> step == (SetupStep::<P, E>::StartBackend { metering: true }),
            self is StartBackend ==> (event->Backend_0 is Ok ==> step is SpawnForwarding) && (
            event->Backend_0 matches Err(error) ==> step == SetupStep::<P, E>::ShowError(error)),
            self matches SetupStep::ShowError(error) ==> step == SetupStep::<P, E>::Failed(error),
            step is ManageState <==> self is SpawnForwarding,
            step is ManageLicense <==> self is ManageState,
            step is SpawnSettingsLoad <==> self is ManageLicense,
            step is FindLicenseDir <==> self is SpawnSettingsLoad,
            self is FindLicenseDir ==> match event->Directory_0 {
                Some(dir) => step == SetupStep::<P, E>::FindLicense(dir),
                None => step is SpawnMeter,
            },
            self matches SetupStep::FindLicense(dir) ==> if event->File_0 {
                step == SetupStep::<P, E>::ActivateLicense(dir)
            } else {
                step is SpawnMeter
            },
            self is ActivateLicense ==> step is SpawnMeter,
            self is SpawnMeter ==> if build.debug {
                step is OpenDevtools
            } else {
                step is Ready
            },
            self is OpenDevtools ==> step is Ready,
    {
        match self {
            SetupStep::InstallUpdater => SetupStep::FindSettingsDir,
            SetupStep::FindSettingsDir => match event {
                SetupEvent::Directory(dir) => SetupStep::OpenSettings(dir),
                _ => SetupStep::FindSettingsDir,
            },
            SetupStep::OpenSettings(_) => SetupStep::StartBackend { metering: true },
            SetupStep::StartBackend { metering } => match event {
                SetupEvent::Backend(Ok(_)) => SetupStep::SpawnForwarding,
                SetupEvent::Backend(Err(error)) => SetupStep::ShowError(error),
                _ => SetupStep::StartBackend { metering },
            },
            SetupStep::ShowError(error) => SetupStep::Failed(error),
            SetupStep::SpawnForwarding => SetupStep::ManageState,
            SetupStep::ManageState => SetupStep::ManageLicense,
            SetupStep::ManageLicense => SetupStep::SpawnSettingsLoad,
            SetupStep::SpawnSettingsLoad => SetupStep::FindLicenseDir,
            SetupStep::FindLicenseDir => match event {
                SetupEvent::Directory(Some(dir)) => SetupStep::FindLicense(dir),
                SetupEvent::Directory(None) => SetupStep::SpawnMeter,
                _ => SetupStep::FindLicenseDir,
            },
            SetupStep::FindLicense(dir) => match event {
                SetupEvent::File(true) => SetupStep::ActivateLicense(dir),
                SetupEvent::File(false) => SetupStep::SpawnMeter,
                _ => SetupStep::FindLicense(dir),
            },
            SetupStep::ActivateLicense(_) => SetupStep::SpawnMeter,
            SetupStep::SpawnMeter => if build.debug {
                SetupStep::OpenDevtools
            } else {
                SetupStep::Ready
            },
            SetupStep::OpenDevtools => SetupStep::Ready,
            SetupStep::Ready => SetupStep::Ready,
            SetupStep::Failed(error) => SetupStep::Failed(error),
        }
    }
}

/// What the setup finds when it looks.
pub struct Surroundings<P, E> {
    /// The configuration directory when it is looked up for the settings.
    pub settings_dir: Option<P>,
    /// The configuration directory when it is looked up for the license.
    pub license_dir: Option<P>,
    /// Whether a license is there.
    pub has_license: bool,
    /// What comes of starting the backend.
    pub backend: Result<(), E>,
}

impl<P, E> Surroundings<P, E> {
    /// What comes of a step.
    pub open spec fn outcome(self, step: SetupStep<P, E>) -> SetupEvent<P, E> {
        match step {
            SetupStep::FindSettingsDir => SetupEvent::Directory(self.settings_dir),
            SetupStep::FindLicenseDir => SetupEvent::Directory(self.license_dir),
            SetupStep::StartBackend { .. } => SetupEvent::Backend(self.backend),
            SetupStep::FindLicense(_) => SetupEvent::File(self.has_license),
            _ => SetupEvent::Done,
        }
    }

    /// The steps from `step` to the last.
    pub open spec fn steps_from(self, step: SetupStep<P, E>, build: Build) -> Seq<SetupStep<P, E>>
        decreases step.rank(),
    {
        if step is Ready || step is Failed {
            seq![step]
        } else {
            seq![step] + self.steps_from(step.after(self.outcome(step), build), build)
        }
    }

    /// The steps that lead to a started or failed backend.
    pub open spec fn backend_steps(self, build: Build) -> Seq<SetupStep<P, E>> {
        (if build.desktop {
            seq![SetupStep::InstallUpdater]
        } else {
            seq![]
        }) + seq![
            SetupStep::FindSettingsDir,
            SetupStep::OpenSettings(self.settings_dir),
            SetupStep::StartBackend { metering: true },
        ]
    }

    /// The steps about the license: it is activated if there is one.
    pub open spec fn license_steps(self) -> Seq<SetupStep<P, E>> {
        seq![SetupStep::FindLicenseDir] + match self.license_dir {
            Some(dir) => seq![SetupStep::FindLicense(dir)] + if self.has_license {
                seq![SetupStep::ActivateLicense(dir)]
            } else {
                seq![]
            },
            None => seq![],
        }
    }

    /// The steps that end a setup that succeeds.
    pub open spec fn last_steps(self, build: Build) -> Seq<SetupStep<P, E>> {
        seq![SetupStep::SpawnMeter] + (if build.debug {
            seq![SetupStep::OpenDevtools]
        } else {
            seq![]
        }) + seq![SetupStep::Ready]
    }

    /// All steps of the setup.
    pub open spec fn plan(self, build: Build) -> Seq<SetupStep<P, E>> {
        self.backend_steps(build) + match self.backend {
            Err(error) => seq![SetupStep::ShowError(error), SetupStep::Failed(error)],
            Ok(_) => seq![
                SetupStep::SpawnForwarding,
                SetupStep::ManageState,
                SetupStep::ManageLicense,
                SetupStep::SpawnSettingsLoad,
            ] + self.license_steps() + self.last_steps(build),
        }
    }
}

/// Each step can be followed by what comes of it, unless it is the last, and every next step has
/// fewer to come: the setup ends.
pub proof fn setup_ends<P, E>(step: SetupStep<P, E>, event: SetupEvent<P, E>, build: Build)
    requires
        step.awaits(event),
    ensures
        step.after(event, build).rank() < step.rank(),
{
}

proof fn lemma_last_steps<P, E>(found: Surroundings<P, E>, build: Build)
    ensures
        found.steps_from(SetupStep::SpawnMeter, build) == found.last_steps(build),
{
    reveal_with_fuel(Surroundings::steps_from, 3);
    assert(found.steps_from(SetupStep::SpawnMeter, build) =~= found.last_steps(build));
}

proof fn lemma_license_steps<P, E>(found: Surroundings<P, E>, build: Build)
    ensures
        found.steps_from(SetupStep::FindLicenseDir, build) == found.license_steps()
            + found.last_steps(build),
{
    lemma_last_steps(found, build);
    if let Some(dir) = found.license_dir {
        if found.has_license {
            assert(found.steps_from(SetupStep::ActivateLicense(dir), build)
                =~= seq![SetupStep::ActivateLicense(dir)] + found.last_steps(build));
            assert(found.steps_from(SetupStep::FindLicense(dir), build)
                =~= seq![SetupStep::FindLicense(dir), SetupStep::ActivateLicense(dir)]
                + found.last_steps(build));
        } else {
            assert(found.steps_from(SetupStep::FindLicense(dir), build)
                =~= seq![SetupStep::FindLicense(dir)] + found.last_steps(build));
        }
    }
    assert(found.steps_from(SetupStep::FindLicenseDir, build) =~= found.license_steps()
        + found.last_steps(build));
}

/// The steps once the backend was started or could not be.
proof fn lemma_steps_after_backend<P, E>(found: Surroundings<P, E>, build: Build)
    ensures
        found.backend is Err ==> found.steps_from(
            SetupStep::ShowError(found.backend->Err_0),
            build,
        ) == seq![
            SetupStep::<P, E>::ShowError(found.backend->Err_0),
            SetupStep::Failed(found.backend->Err_0),
        ],
        found.backend is Ok ==> found.steps_from(SetupStep::SpawnForwarding, build) == seq![
            SetupStep::SpawnForwarding,
            SetupStep::ManageState,
            SetupStep::ManageLicense,
            SetupStep::SpawnSettingsLoad,
        ] + found.license_steps() + found.last_steps(build),
{
    if let Err(error) = found.backend {
        assert(found.steps_from(SetupStep::Failed(error), build) =~= seq![
            SetupStep::Failed(error),
        ]);
        assert(found.steps_from(SetupStep::ShowError(error), build) =~= seq![
            SetupStep::ShowError(error),
            SetupStep::Failed(error),
        ]);
    } else {
        lemma_license_steps(found, build);
        let rest = found.license_steps() + found.last_steps(build);
        assert(found.steps_from(SetupStep::SpawnSettingsLoad, build)
            =~= seq![SetupStep::SpawnSettingsLoad] + rest);
        assert(found.steps_from(SetupStep::ManageLicense, build)
            =~= seq![SetupStep::ManageLicense, SetupStep::SpawnSettingsLoad] + rest);
        assert(found.steps_from(SetupStep::ManageState, build) =~= seq![
            SetupStep::ManageState,
            SetupStep::ManageLicense,
            SetupStep::SpawnSettingsLoad,
        ] + rest);
        assert(found.steps_from(SetupStep::SpawnForwarding, build) =~= seq![
            SetupStep::SpawnForwarding,
            SetupStep::ManageState,
            SetupStep::ManageLicense,
            SetupStep::SpawnSettingsLoad,
        ] + found.license_steps() + found.last_steps(build));
    }
}

/// The setup takes exactly the planned steps, whatever it finds.
pub proof fn setup_follows_the_plan<P, E>(found: Surroundings<P, E>, build: Build)
    ensures
        found.steps_from(SetupStep::initial(build), build) == found.plan(build),
{
    lemma_steps_after_backend(found, build);
    let rest = match found.backend {
        Err(error) => found.steps_from(SetupStep::ShowError(error), build),
        Ok(_) => found.steps_from(SetupStep::SpawnForwarding, build),
    };
    let start = SetupStep::<P, E>::StartBackend { metering: true };
    let open = SetupStep::<P, E>::OpenSettings(found.settings_dir);
    assert(found.steps_from(start, build) =~= seq![start] + rest);
    assert(found.steps_from(open, build) =~= seq![open, start] + rest);
    assert(found.steps_from(SetupStep::FindSettingsDir, build)
        =~= seq![SetupStep::FindSettingsDir, open, start] + rest);
    assert(found.steps_from(SetupStep::initial(build), build) =~= found.plan(build));
}

/// `steps` is a run of the setup, with what came of each step but the last in `events`.
pub open spec fn is_run<P, E>(
    steps: Seq<SetupStep<P, E>>,
    events: Seq<SetupEvent<P, E>>,
    build: Build,
) -> bool {
    &&& steps.len() == events.len() + 1
    &&& steps[0] == SetupStep::<P, E>::initial(build)
    &&& forall|i: int|
        0 <= i < events.len() ==> steps[i].awaits(#[trigger] events[i]) && steps[i + 1]
            == steps[i].after(events[i], build)
}

/// The updater is installed exactly if the build is for a desktop system, and then as the very
/// first step: whether or not it is a debug build, and whatever comes of the steps.
pub proof fn updater_comes_first_on_desktops<P, E>(
    steps: Seq<SetupStep<P, E>>,
    events: Seq<SetupEvent<P, E>>,
    build: Build,
    i: int,
)
    requires
        is_run(steps, events, build),
        0 <= i < steps.len(),
    ensures
        steps[i] is InstallUpdater <==> build.desktop && i == 0,
{
    if i > 0 {
        let event = events[i - 1];
        assert(steps[i - 1].awaits(event));
    }
}

/// The same of the steps that the setup takes with what it finds: those of a desktop build are
/// those of any other, after the updater.
pub proof fn desktops_differ_by_the_updater<P, E>(
    found: Surroundings<P, E>,
    desktop: Build,
    mobile: Build,
    i: int,
)
    requires
        desktop.desktop,
        !mobile.desktop,
        desktop.debug == mobile.debug,
    ensures
        found.steps_from(SetupStep::initial(desktop), desktop) == seq![
            SetupStep::<P, E>::InstallUpdater,
        ] + found.steps_from(SetupStep::initial(mobile), mobile),
        0 <= i < found.steps_from(SetupStep::initial(mobile), mobile).len() ==> !(found.steps_from(
            SetupStep::initial(mobile),
            mobile,
        )[i] is InstallUpdater),
{
    setup_follows_the_plan(found, desktop);
    setup_follows_the_plan(found, mobile);
    assert(found.plan(desktop) =~= seq![SetupStep::<P, E>::InstallUpdater] + found.plan(mobile));
}

/// The developer tools are opened in debug builds that come up and in no others, as the last thing
/// before the program is ready; apart from that a debug build takes the steps of any other.
pub proof fn debug_builds_differ_by_the_devtools<P, E>(
    found: Surroundings<P, E>,
    debug: Build,
    release: Build,
    i: int,
)
    requires
        debug.debug,
        !release.debug,
        debug.desktop == release.desktop,
    ensures
        found.backend is Err ==> found.steps_from(SetupStep::initial(debug), debug)
            == found.steps_from(SetupStep::initial(release), release),
        found.backend is Ok ==> found.steps_from(SetupStep::initial(debug), debug)
            == found.steps_from(SetupStep::initial(release), release).drop_last().push(
            SetupStep::OpenDevtools,
        ).push(SetupStep::Ready),
        0 <= i < found.steps_from(SetupStep::initial(release), release).len() ==> !(
        found.steps_from(SetupStep::initial(release), release)[i] is OpenDevtools),
{
    setup_follows_the_plan(found, debug);
    setup_follows_the_plan(found, release);
    assert(found.backend_steps(debug) =~= found.backend_steps(release));
    if found.backend is Ok {
        assert(found.plan(debug) =~= found.plan(release).drop_last().push(
            SetupStep::OpenDevtools,
        ).push(SetupStep::Ready));
    } else {
        assert(found.plan(debug) =~= found.plan(release));
    }
}

/// Where everything stands in a setup: the settings are opened from the directory that was found
/// for them and the backend is started, with metering, right at the beginning; if it comes up,
/// forwarding, the state, the license manager, the loading of the settings and the search for a
/// license follow at once, in this order, and the level meter starts before the program is ready.
pub proof fn setup_steps_have_their_places<P, E>(found: Surroundings<P, E>, build: Build, first: int)
    requires
        first == if build.desktop {
            1int
        } else {
            0int
        },
    ensures
        found.steps_from(SetupStep::initial(build), build).len() >= first + 5,
        found.steps_from(SetupStep::initial(build), build)[first] is FindSettingsDir,
        found.steps_from(SetupStep::initial(build), build)[first + 1] == SetupStep::<
            P,
            E,
        >::OpenSettings(found.settings_dir),
        found.steps_from(SetupStep::initial(build), build)[first + 2] == (SetupStep::<
            P,
            E,
        >::StartBackend { metering: true }),
        found.backend matches Err(error) ==> found.steps_from(SetupStep::initial(build), build).len()
            == first + 5 && found.steps_from(SetupStep::initial(build), build)[first + 3]
            == SetupStep::<P, E>::ShowError(error) && found.steps_from(
            SetupStep::initial(build),
            build,
        )[first + 4] == SetupStep::<P, E>::Failed(error),
        found.backend is Ok ==> found.steps_from(SetupStep::initial(build), build)[first
            + 3] is SpawnForwarding && found.steps_from(SetupStep::initial(build), build)[first
            + 4] is ManageState && found.steps_from(SetupStep::initial(build), build)[first
            + 5] is ManageLicense && found.steps_from(SetupStep::initial(build), build)[first
            + 6] is SpawnSettingsLoad && found.steps_from(SetupStep::initial(build), build)[first
            + 7] is FindLicenseDir,
        found.backend is Ok && found.license_dir is None ==> found.steps_from(
            SetupStep::initial(build),
            build,
        )[first + 8] is SpawnMeter,
        found.backend is Ok ==> (found.license_dir matches Some(dir) ==> found.steps_from(
            SetupStep::initial(build),
            build,
        )[first + 8] == SetupStep::<P, E>::FindLicense(dir) && (found.has_license
            ==> found.steps_from(SetupStep::initial(build), build)[first + 9] == SetupStep::<
            P,
            E,
        >::ActivateLicense(dir) && found.steps_from(SetupStep::initial(build), build)[first
            + 10] is SpawnMeter) && (!found.has_license ==> found.steps_from(
            SetupStep::initial(build),
            build,
        )[first + 9] is SpawnMeter)),
        found.backend is Ok ==> found.steps_from(SetupStep::initial(build), build).last() is Ready,
{
    setup_follows_the_plan(found, build);
}

/// If the backend cannot be started, the error is shown and the setup fails with it; nothing is
/// spawned or made available.
pub proof fn failed_backend_leaves_nothing_behind<P, E>(
    found: Surroundings<P, E>,
    build: Build,
    i: int,
)
    requires
        found.backend is Err,
        0 <= i < found.plan(build).len(),
    ensures
        found.plan(build).last() == SetupStep::<P, E>::Failed(found.backend->Err_0),
        found.plan(build)[found.plan(build).len() - 2] == SetupStep::<P, E>::ShowError(
            found.backend->Err_0,
        ),
        !(found.plan(build)[i] is SpawnForwarding),
        !(found.plan(build)[i] is ManageState),
        !(found.plan(build)[i] is ManageLicense),
        !(found.plan(build)[i] is SpawnSettingsLoad),
        !(found.plan(build)[i] is ActivateLicense),
        !(found.plan(build)[i] is SpawnMeter),
        !(found.plan(build)[i] is Ready),
{
}

/// The loading of the settings and the level meter look the program's state up: it is made
/// available before they are spawned.
pub proof fn state_is_there_for_its_tasks<P, E>(found: Surroundings<P, E>, build: Build, i: int)
    requires
        0 <= i < found.plan(build).len(),
        found.plan(build)[i] is SpawnSettingsLoad || found.plan(build)[i] is SpawnMeter,
    ensures
        exists|j: int| 0 <= j < i && #[trigger] found.plan(build)[j] is ManageState,
{
    let j = found.backend_steps(build).len() as int + 1;
    assert(found.plan(build)[j] is ManageState);
}

/// A license is activated exactly if the backend runs and the license is there.
pub proof fn license_is_activated_if_present<P, E>(
    found: Surroundings<P, E>,
    build: Build,
    dir: P,
)
    ensures
        found.plan(build).contains(SetupStep::ActivateLicense(dir)) <==> found.backend is Ok
            && found.license_dir == Some(dir) && found.has_license,
{
    if found.backend is Ok && found.license_dir == Some(dir) && found.has_license {
        let i = found.backend_steps(build).len() as int + 6;
        assert(found.plan(build)[i] == SetupStep::<P, E>::ActivateLicense(dir));
    }
}

} // verus!
