//! The steps from the first splash to the open main window.
//!
//! The splash is shown, the repository is prepared, the backend is started, and
//! the main window opens on it. Each outcome of a step is an event; `Startup`
//! answers it with the actions to take next.
use crate::args::LaunchOptions;
use vstd::prelude::*;

verus! {

/// What the splash page tells the user.
#[derive(Debug, Clone, Copy, PartialEq, Eq, Structural)]
pub enum StartupStatus {
    /// The launcher is starting.
    Starting,
    /// The artificial error of a preview.
    PreviewCrash,
    /// The repository could not be prepared.
    RepoFailed,
    /// The backend is starting.
    StartingBackend,
    /// The backend could not be started.
    BackendFailed,
    /// The main window opens.
    Opening,
}

impl StartupStatus {
    /// Whether the status is an error.
    pub open spec fn spec_is_error(self) -> bool {
        self == StartupStatus::PreviewCrash || self == StartupStatus::RepoFailed || self
            == StartupStatus::BackendFailed
    }

    /// The progress that the status stands for, in percent.
    pub open spec fn spec_progress(self) -> u8 {
        match self {
            StartupStatus::Starting => 4,
            StartupStatus::PreviewCrash => 42,
            StartupStatus::RepoFailed => 8,
            StartupStatus::StartingBackend => 97,
            StartupStatus::BackendFailed => 97,
            StartupStatus::Opening => 100,
        }
    }

    /// Tells whether the status is an error.
    pub fn is_error(self) -> (error: bool)
        ensures
            error == self.spec_is_error(),
    {
        match self {
            StartupStatus::PreviewCrash => true,
            StartupStatus::RepoFailed => true,
            StartupStatus::BackendFailed => true,
            _ => false,
        }
    }

    /// The progress that the status stands for, in percent.
    pub fn progress(self) -> (progress: u8)
        ensures
            progress == self.spec_progress(),
    {
        match self {
            StartupStatus::Starting => 4,
            StartupStatus::PreviewCrash => 42,
            StartupStatus::RepoFailed => 8,
            StartupStatus::StartingBackend => 97,
            StartupStatus::BackendFailed => 97,
            StartupStatus::Opening => 100,
        }
    }
}

/// Where the startup stands.
#[derive(Debug, Clone, Copy, PartialEq, Eq, Structural)]
pub enum StartupPhase {
    /// Nothing was done yet.
    Waiting,
    /// The repository is being prepared.
    PreparingRepo,
    /// The backend is being started.
    LaunchingBackend,
    /// There is nothing left to do.
    Done,
}

/// What happened.
#[derive(Debug, Clone, Copy, PartialEq, Eq, Structural)]
pub enum StartupEvent {
    /// The windows are there.
    Ready,
    /// Preparing the repository got as far as this many percent.
    RepoProgress(u8),
    /// The repository is prepared.
    RepoReady,
    /// The repository could not be prepared; `cancelled` tells whether the setup
    /// was told to stop.
    RepoFailed { cancelled: bool },
    /// The backend runs.
    BackendReady,
    /// The backend could not be started; `cancelled` tells whether the setup was
    /// told to stop.
    BackendFailed { cancelled: bool },
}

/// What is to be done.
#[derive(Debug, Clone, Copy, PartialEq, Eq, Structural)]
pub enum StartupAction {
    /// Load the splash page, and show its window if `visible`.
    LoadSplash { visible: bool },
    /// Bring the splash window to the front.
    RevealSplash,
    /// Show a status on the splash page.
    ShowStatus { status: StartupStatus, progress: u8 },
    /// Show an update of the preparation on the splash page, at this progress.
    ShowRepoUpdate { progress: u8 },
    /// Prepare the repository, without updating it if `skip_update`.
    PrepareRepo { skip_update: bool },
    /// Start the backend.
    LaunchBackend,
    /// Keep the backend so that it can be stopped later.
    KeepBackend,
    /// Listen for the backend's notifications and commands.
    WatchBackend,
    /// Destroy the splash window.
    DestroySplash,
    /// Open the backend, or the error page, in the main window.
    OpenMainWindow,
    /// Keep the main window in the tray.
    HideMainWindow,
    /// Bring the main window to the front.
    RevealMainWindow,
    /// The setup came to its end.
    CompleteSetup,
}

/// The startup, between two events.
#[derive(Debug, Clone, Copy, PartialEq, Eq, Structural)]
pub struct Startup {
    pub options: LaunchOptions,
    pub phase: StartupPhase,
    /// The progress that the splash page shows.
    pub last_progress: u8,
}

/// The larger of two progress values.
pub open spec fn furthest(a: u8, b: u8) -> u8 {
    if a >= b {
        a
    } else {
        b
    }
}

/// Shows a status; the progress never falls behind what was shown before.
pub open spec fn status_action(last_progress: u8, status: StartupStatus) -> StartupAction {
    StartupAction::ShowStatus {
        status,
        progress: furthest(last_progress, status.spec_progress()),
    }
}

/// What a failure leads to: nothing where the setup was told to stop, else the
/// error, on a splash window that the user sees.
pub open spec fn failure_actions(
    startup: Startup,
    status: StartupStatus,
    cancelled: bool,
) -> Seq<StartupAction> {
    if cancelled {
        seq![]
    } else if startup.options.start_minimized {
        seq![StartupAction::RevealSplash, status_action(startup.last_progress, status)]
    } else {
        seq![status_action(startup.last_progress, status)]
    }
}

/// What an event leads to. An event that does not belong to the phase leads to
/// nothing.
pub open spec fn startup_actions(startup: Startup, event: StartupEvent) -> Seq<StartupAction> {
    let options = startup.options;
    let last = startup.last_progress;
    match (startup.phase, event) {
        (StartupPhase::Waiting, StartupEvent::Ready) => {
            let first = seq![
                StartupAction::LoadSplash { visible: !options.start_minimized },
                status_action(last, StartupStatus::Starting),
            ];
            if options.preview_crash {
                first + failure_actions(
                    Startup {
                        last_progress: furthest(last, StartupStatus::Starting.spec_progress()),
                        ..startup
                    },
                    StartupStatus::PreviewCrash,
                    false,
                ) + seq![StartupAction::CompleteSetup]
            } else {
                first + seq![
                    StartupAction::PrepareRepo { skip_update: options.preview_no_update },
                ]
            }
        },
        (StartupPhase::PreparingRepo, StartupEvent::RepoProgress(progress)) => seq![
            StartupAction::ShowRepoUpdate { progress: furthest(last, progress) },
        ],
        (StartupPhase::PreparingRepo, StartupEvent::RepoReady) => seq![
            status_action(last, StartupStatus::StartingBackend),
            StartupAction::LaunchBackend,
        ],
        (StartupPhase::PreparingRepo, StartupEvent::RepoFailed { cancelled }) => failure_actions(
            startup,
            StartupStatus::RepoFailed,
            cancelled,
        ),
        (StartupPhase::LaunchingBackend, StartupEvent::BackendReady) => seq![
            StartupAction::KeepBackend,
            StartupAction::WatchBackend,
            status_action(last, StartupStatus::Opening),
            StartupAction::DestroySplash,
            StartupAction::OpenMainWindow,
            if options.start_minimized {
                StartupAction::HideMainWindow
            } else {
                StartupAction::RevealMainWindow
            },
            StartupAction::CompleteSetup,
        ],
        (StartupPhase::LaunchingBackend, StartupEvent::BackendFailed { cancelled }) =>
            failure_actions(startup, StartupStatus::BackendFailed, cancelled),
        _ => seq![],
    }
}

/// The phase after an event.
pub open spec fn phase_after(startup: Startup, event: StartupEvent) -> StartupPhase {
    match (startup.phase, event) {
        (StartupPhase::Waiting, StartupEvent::Ready) => if startup.options.preview_crash {
            StartupPhase::Done
        } else {
            StartupPhase::PreparingRepo
        },
        (StartupPhase::PreparingRepo, StartupEvent::RepoReady) => StartupPhase::LaunchingBackend,
        (StartupPhase::PreparingRepo, StartupEvent::RepoFailed { .. }) => StartupPhase::Done,
        (StartupPhase::LaunchingBackend, StartupEvent::BackendReady) => StartupPhase::Done,
        (StartupPhase::LaunchingBackend, StartupEvent::BackendFailed { .. }) => StartupPhase::Done,
        (phase, _) => phase,
    }
}

/// The progress that an action shows, if it shows any.
pub open spec fn shown_progress(action: StartupAction) -> Option<u8> {
    match action {
        StartupAction::ShowStatus { progress, .. } => Some(progress),
        StartupAction::ShowRepoUpdate { progress } => Some(progress),
        _ => None,
    }
}

/// The progress on the page after some actions.
pub open spec fn progress_after(last_progress: u8, actions: Seq<StartupAction>) -> u8
    decreases actions.len(),
{
    if actions.len() == 0 {
        last_progress
    } else {
        match shown_progress(actions.last()) {
            Some(progress) => progress,
            None => progress_after(last_progress, actions.drop_last()),
        }
    }
}

/// The startup after an event.
pub open spec fn startup_after(startup: Startup, event: StartupEvent) -> Startup {
    Startup {
        options: startup.options,
        phase: phase_after(startup, event),
        last_progress: progress_after(startup.last_progress, startup_actions(startup, event)),
    }
}

impl Startup {
    /// The startup with the options of the command line, before anything was done.
    pub fn new(options: LaunchOptions) -> (startup: Startup)
        ensures
            startup.options == options,
            startup.phase == StartupPhase::Waiting,
            startup.last_progress == 0,
    {
        Startup { options, phase: StartupPhase::Waiting, last_progress: 0 }
    }

    /// Moves the progress forward, never back, and tells where it stands.
    pub fn advance(&mut self, progress: u8) -> (shown: u8)
        ensures
            shown == furthest(old(self).last_progress, progress),
            final(self).last_progress == shown,
            final(self).options == old(self).options,
            final(self).phase == old(self).phase,
    {
        if progress > self.last_progress {
            self.last_progress = progress;
        }
        self.last_progress
    }

    /// Shows a status on the splash page.
    fn show(&mut self, status: StartupStatus) -> (action: StartupAction)
        ensures
            action == status_action(old(self).last_progress, status),
            final(self).last_progress == furthest(
                old(self).last_progress,
                status.spec_progress(),
            ),
            final(self).options == old(self).options,
            final(self).phase == old(self).phase,
    {
        let progress = self.advance(status.progress());
        StartupAction::ShowStatus { status, progress }
    }

    /// Shows an error on a splash window that the user sees.
    fn fail(&mut self, actions: &mut Vec<StartupAction>, status: StartupStatus, cancelled: bool)
        ensures
            final(actions)@ == old(actions)@ + failure_actions(*old(self), status, cancelled),
            final(self).options == old(self).options,
            final(self).phase == StartupPhase::Done,
            final(self).last_progress == (if cancelled {
                old(self).last_progress
            } else {
                furthest(old(self).last_progress, status.spec_progress())
            }),
    {
        if !cancelled {
            if self.options.start_minimized {
                actions.push(StartupAction::RevealSplash);
            }
            let action = self.show(status);
            actions.push(action);
        }
        self.phase = StartupPhase::Done;
        assert(actions@ =~= old(actions)@ + failure_actions(*old(self), status, cancelled));
    }

    /// Answers an event with the actions to take, in order.
    pub fn on_event(&mut self, event: StartupEvent) -> (actions: Vec<StartupAction>)
        ensures
            actions@ == startup_actions(*old(self), event),
            *final(self) == startup_after(*old(self), event),
    {
        let mut actions: Vec<StartupAction> = Vec::new();
        match (self.phase, event) {
            (StartupPhase::Waiting, StartupEvent::Ready) => {
                actions.push(
                    StartupAction::LoadSplash { visible: !self.options.start_minimized },
                );
                let status = self.show(StartupStatus::Starting);
                actions.push(status);
                if self.options.preview_crash {
                    self.fail(&mut actions, StartupStatus::PreviewCrash, false);
                    actions.push(StartupAction::CompleteSetup);
                } else {
                    actions.push(
                        StartupAction::PrepareRepo { skip_update: self.options.preview_no_update },
                    );
                    self.phase = StartupPhase::PreparingRepo;
                }
            },
            (StartupPhase::PreparingRepo, StartupEvent::RepoProgress(progress)) => {
                let shown = self.advance(progress);
                actions.push(StartupAction::ShowRepoUpdate { progress: shown });
            },
            (StartupPhase::PreparingRepo, StartupEvent::RepoReady) => {
                let status = self.show(StartupStatus::StartingBackend);
                actions.push(status);
                actions.push(StartupAction::LaunchBackend);
                self.phase = StartupPhase::LaunchingBackend;
            },
            (StartupPhase::PreparingRepo, StartupEvent::RepoFailed { cancelled }) => {
                self.fail(&mut actions, StartupStatus::RepoFailed, cancelled);
            },
            (StartupPhase::LaunchingBackend, StartupEvent::BackendReady) => {
                actions.push(StartupAction::KeepBackend);
                actions.push(StartupAction::WatchBackend);
                let status = self.show(StartupStatus::Opening);
                actions.push(status);
                actions.push(StartupAction::DestroySplash);
                actions.push(StartupAction::OpenMainWindow);
                if self.options.start_minimized {
                    actions.push(StartupAction::HideMainWindow);
                } else {
                    actions.push(StartupAction::RevealMainWindow);
                }
                actions.push(StartupAction::CompleteSetup);
                self.phase = StartupPhase::Done;
            },
            (StartupPhase::LaunchingBackend, StartupEvent::BackendFailed { cancelled }) => {
                self.fail(&mut actions, StartupStatus::BackendFailed, cancelled);
            },
            _ => {},
        }
        proof {
            lemma_progress_after(*old(self), event);
            assert(actions@ =~= startup_actions(*old(self), event));
        }
        actions
    }
}

/// Where the progress stands after each event.
proof fn lemma_progress_after(startup: Startup, event: StartupEvent)
    ensures
        progress_after(startup.last_progress, startup_actions(startup, event)) == ({
            let last = startup.last_progress;
            match (startup.phase, event) {
                (StartupPhase::Waiting, StartupEvent::Ready) => if startup.options.preview_crash {
                    furthest(last, 42)
                } else {
                    furthest(last, 4)
                },
                (StartupPhase::PreparingRepo, StartupEvent::RepoProgress(progress)) => furthest(
                    last,
                    progress,
                ),
                (StartupPhase::PreparingRepo, StartupEvent::RepoReady) => furthest(last, 97),
                (StartupPhase::PreparingRepo, StartupEvent::RepoFailed { cancelled }) =>
                    if cancelled {
                        last
                    } else {
                        furthest(last, 8)
                    },
                (StartupPhase::LaunchingBackend, StartupEvent::BackendReady) => furthest(last, 100),
                (StartupPhase::LaunchingBackend, StartupEvent::BackendFailed { cancelled }) =>
                    if cancelled {
                        last
                    } else {
                        furthest(last, 97)
                    },
                _ => last,
            }
        }),
{
    reveal_with_fuel(progress_after, 6);
    let actions = startup_actions(startup, event);
    if actions.len() > 0 {
        assert(actions.drop_last().len() == actions.len() - 1);
    }
}

/// The progress on the splash page never falls: no action of a step shows less
/// than was shown before it, or less than an earlier action of the step.
pub proof fn law_progress_never_falls(startup: Startup, event: StartupEvent, i: int, j: int)
    requires
        0 <= i <= j < startup_actions(startup, event).len(),
        shown_progress(startup_actions(startup, event)[i]) is Some,
        shown_progress(startup_actions(startup, event)[j]) is Some,
    ensures
        startup.last_progress <= shown_progress(startup_actions(startup, event)[i])->0,
        shown_progress(startup_actions(startup, event)[i])->0 <= shown_progress(
            startup_actions(startup, event)[j],
        )->0,
        shown_progress(startup_actions(startup, event)[j])->0 <= startup_after(
            startup,
            event,
        ).last_progress,
{
    lemma_progress_after(startup, event);
}

/// The startup after the first `n` of some events.
pub open spec fn startup_after_events(
    startup: Startup,
    events: Seq<StartupEvent>,
    n: nat,
) -> Startup
    decreases n,
{
    if n == 0 {
        startup
    } else {
        startup_after(startup_after_events(startup, events, (n - 1) as nat), events[n - 1])
    }
}

/// Over any number of events the progress never falls, and the options never
/// change.
pub proof fn law_progress_never_falls_back(
    startup: Startup,
    events: Seq<StartupEvent>,
    i: nat,
    j: nat,
)
    requires
        i <= j <= events.len(),
    ensures
        startup_after_events(startup, events, i).last_progress <= startup_after_events(
            startup,
            events,
            j,
        ).last_progress,
        startup_after_events(startup, events, j).options == startup.options,
    decreases j,
{
    if j > 0 {
        let before = startup_after_events(startup, events, (j - 1) as nat);
        lemma_progress_after(before, events[j - 1]);
        if i < j {
            law_progress_never_falls_back(startup, events, i, (j - 1) as nat);
        } else {
            law_progress_never_falls_back(startup, events, (j - 1) as nat, (j - 1) as nat);
        }
    }
}

/// A startup that came to its end does nothing more, whatever happens.
pub proof fn law_done_is_final(startup: Startup, event: StartupEvent)
    requires
        startup.phase == StartupPhase::Done,
    ensures
        startup_actions(startup, event) == Seq::<StartupAction>::empty(),
        startup_after(startup, event) == startup,
{
    assert(startup_actions(startup, event) =~= Seq::<StartupAction>::empty());
}

/// A failure after the setup was told to stop is not shown.
pub proof fn law_cancelled_setup_is_silent(startup: Startup, event: StartupEvent)
    requires
        event == (StartupEvent::RepoFailed { cancelled: true }) || event == (
        StartupEvent::BackendFailed { cancelled: true }),
    ensures
        startup_actions(startup, event) == Seq::<StartupAction>::empty(),
{
    assert(startup_actions(startup, event) =~= Seq::<StartupAction>::empty());
}

/// An error is always seen: where the splash window was not shown, it is
/// revealed right before the error.
pub proof fn law_errors_are_seen(startup: Startup, event: StartupEvent, i: int)
    requires
        0 <= i < startup_actions(startup, event).len(),
        startup_actions(startup, event)[i] matches StartupAction::ShowStatus { status, .. }
            && status.spec_is_error(),
        startup.options.start_minimized,
    ensures
        i > 0,
        startup_actions(startup, event)[i - 1] == StartupAction::RevealSplash,
{
}

/// The setup comes to its end in two ways only: after the artificial error of a
/// preview, or with the main window open on a running backend.
pub proof fn law_setup_completes_last(startup: Startup, event: StartupEvent, i: int)
    requires
        0 <= i < startup_actions(startup, event).len(),
        startup_actions(startup, event)[i] == StartupAction::CompleteSetup,
    ensures
        i == startup_actions(startup, event).len() - 1,
        startup_after(startup, event).phase == StartupPhase::Done,
        startup.options.preview_crash || startup_actions(startup, event).contains(
            StartupAction::OpenMainWindow,
        ),
{
    let actions = startup_actions(startup, event);
    if startup.phase == StartupPhase::LaunchingBackend {
        assert(actions[4] == StartupAction::OpenMainWindow);
    }
}

/// The repository is updated only if the command line allows it.
pub proof fn law_update_follows_the_options(startup: Startup, event: StartupEvent, i: int)
    requires
        0 <= i < startup_actions(startup, event).len(),
    ensures
        startup_actions(startup, event)[i] matches StartupAction::PrepareRepo { skip_update } ==> (
        skip_update == startup.options.preview_no_update),
{
}

/// A preview of the error state neither touches the repository nor starts the
/// backend, whatever happens.
pub proof fn law_preview_starts_nothing(
    options: LaunchOptions,
    events: Seq<StartupEvent>,
    n: nat,
    i: int,
)
    requires
        options.preview_crash,
        n < events.len(),
        ({
            let startup = Startup { options, phase: StartupPhase::Waiting, last_progress: 0 };
            let before = startup_after_events(startup, events, n);
            0 <= i < startup_actions(before, events[n as int]).len()
        }),
    ensures
        ({
            let startup = Startup { options, phase: StartupPhase::Waiting, last_progress: 0 };
            let before = startup_after_events(startup, events, n);
            let action = startup_actions(before, events[n as int])[i];
            &&& !(action is PrepareRepo)
            &&& action != StartupAction::LaunchBackend
            &&& action != StartupAction::OpenMainWindow
        }),
{
    let startup = Startup { options, phase: StartupPhase::Waiting, last_progress: 0 };
    lemma_preview_phase(startup, events, n);
}

proof fn lemma_preview_phase(startup: Startup, events: Seq<StartupEvent>, n: nat)
    requires
        startup.options.preview_crash,
        startup.phase == StartupPhase::Waiting,
        n <= events.len(),
    ensures
        startup_after_events(startup, events, n).phase == StartupPhase::Waiting
            || startup_after_events(startup, events, n).phase == StartupPhase::Done,
        startup_after_events(startup, events, n).options == startup.options,
    decreases n,
{
    if n > 0 {
        lemma_preview_phase(startup, events, (n - 1) as nat);
    }
}

/// A value that does not fall below another.
pub open spec fn at_least(floor: u8, value: u8) -> u8 {
    if value < floor {
        floor
    } else {
        value
    }
}

/// Whether `b` is done after `a`.
pub open spec fn in_order(actions: Seq<StartupAction>, a: StartupAction, b: StartupAction) -> bool {
    exists|i: int, j: int|
        0 <= i < j < actions.len() && #[trigger] actions[i] == a && #[trigger] actions[j] == b
}

/// Once the backend runs, the main window opens, and the user sees it exactly if the
/// command line did not ask to stay in the tray. The backend is kept before it is
/// watched, the splash goes before the main window opens, and the setup ends last.
/// Each step is taken once, and nothing else is done.
pub proof fn law_running_backend_opens_the_main_window(startup: Startup)
    requires
        startup.phase == StartupPhase::LaunchingBackend,
    ensures
        ({
            let actions = startup_actions(startup, StartupEvent::BackendReady);
            let seen = if startup.options.start_minimized {
                StartupAction::HideMainWindow
            } else {
                StartupAction::RevealMainWindow
            };
            &&& actions.contains(StartupAction::RevealMainWindow)
                <==> !startup.options.start_minimized
            &&& actions.contains(StartupAction::HideMainWindow) <==> startup.options.start_minimized
            &&& in_order(actions, StartupAction::KeepBackend, StartupAction::WatchBackend)
            &&& in_order(actions, StartupAction::WatchBackend, StartupAction::DestroySplash)
            &&& in_order(actions, StartupAction::DestroySplash, StartupAction::OpenMainWindow)
            &&& in_order(actions, StartupAction::OpenMainWindow, seen)
            &&& in_order(actions, seen, StartupAction::CompleteSetup)
            &&& actions.len() == 7
            &&& actions.no_duplicates()
        }),
        startup_after(startup, StartupEvent::BackendReady).phase == StartupPhase::Done,
{
    let actions = startup_actions(startup, StartupEvent::BackendReady);
    assert(actions[0] == StartupAction::KeepBackend);
    assert(actions[1] == StartupAction::WatchBackend);
    assert(actions[2] is ShowStatus);
    assert(actions[3] == StartupAction::DestroySplash);
    assert(actions[4] == StartupAction::OpenMainWindow);
    assert(actions[5] == StartupAction::HideMainWindow || actions[5]
        == StartupAction::RevealMainWindow);
    assert(actions[6] == StartupAction::CompleteSetup);
}

/// Once the backend runs, the splash page says that the main window opens, at full
/// progress, while the splash is still there.
pub proof fn law_opening_is_announced(startup: Startup)
    requires
        startup.phase == StartupPhase::LaunchingBackend,
        startup.last_progress <= 100,
    ensures
        in_order(
            startup_actions(startup, StartupEvent::BackendReady),
            StartupAction::ShowStatus { status: StartupStatus::Opening, progress: 100 },
            StartupAction::DestroySplash,
        ),
        startup_after(startup, StartupEvent::BackendReady).last_progress == 100,
{
    let actions = startup_actions(startup, StartupEvent::BackendReady);
    lemma_progress_after(startup, StartupEvent::BackendReady);
    assert(actions[2] == (StartupAction::ShowStatus {
        status: StartupStatus::Opening,
        progress: 100,
    }));
    assert(actions[3] == StartupAction::DestroySplash);
}

/// The launcher begins with the splash page, which the user sees exactly if the
/// command line did not ask to stay in the tray, and says so on it. Then it prepares
/// the repository, as the command line asks, unless it only previews the error
/// state, which ends the setup.
pub proof fn law_launcher_begins_with_the_splash(startup: Startup)
    requires
        startup.phase == StartupPhase::Waiting,
    ensures
        ({
            let actions = startup_actions(startup, StartupEvent::Ready);
            let after = startup_after(startup, StartupEvent::Ready);
            let preview = startup.options.preview_crash;
            let hidden = startup.options.start_minimized;
            &&& actions[0] == StartupAction::LoadSplash { visible: !hidden }
            &&& !actions.contains(StartupAction::LoadSplash { visible: hidden })
            &&& actions[1] matches StartupAction::ShowStatus { status, progress } && status
                == StartupStatus::Starting && progress == at_least(startup.last_progress, 4)
            &&& forall|skip_update: bool| #[trigger]
                actions.contains(StartupAction::PrepareRepo { skip_update }) <==> !preview
                    && skip_update == startup.options.preview_no_update
            &&& actions.contains(StartupAction::CompleteSetup) <==> preview
            &&& actions.contains(StartupAction::RevealSplash) <==> preview && hidden
            &&& forall|progress: u8| #[trigger]
                actions.contains(
                    StartupAction::ShowStatus { status: StartupStatus::PreviewCrash, progress },
                ) <==> preview && progress == at_least(startup.last_progress, 42)
            &&& actions.len() == (if !preview {
                3int
            } else if hidden {
                5int
            } else {
                4int
            })
            &&& after.phase == StartupPhase::PreparingRepo <==> !preview
            &&& after.phase == StartupPhase::Done <==> preview
        }),
{
    let actions = startup_actions(startup, StartupEvent::Ready);
    let preview = startup.options.preview_crash;
    let hidden = startup.options.start_minimized;
    assert(actions[0] == (StartupAction::LoadSplash { visible: !hidden }));
    assert(actions[1] is ShowStatus);
    if !preview {
        assert(actions[2] == (StartupAction::PrepareRepo {
            skip_update: startup.options.preview_no_update,
        }));
    } else if hidden {
        assert(actions[2] == StartupAction::RevealSplash);
        assert(actions[3] is ShowStatus);
        let shown = shown_progress(actions[3])->0;
        assert(actions[3] == (StartupAction::ShowStatus {
            status: StartupStatus::PreviewCrash,
            progress: shown,
        }));
        assert(actions.contains(
            StartupAction::ShowStatus { status: StartupStatus::PreviewCrash, progress: shown },
        ));
        assert(actions[4] == StartupAction::CompleteSetup);
    } else {
        assert(actions[2] is ShowStatus);
        let shown = shown_progress(actions[2])->0;
        assert(actions[2] == (StartupAction::ShowStatus {
            status: StartupStatus::PreviewCrash,
            progress: shown,
        }));
        assert(actions.contains(
            StartupAction::ShowStatus { status: StartupStatus::PreviewCrash, progress: shown },
        ));
        assert(actions[3] == StartupAction::CompleteSetup);
    }
}

/// While the repository is prepared, each of its updates is shown, at its own
/// progress unless more was shown before.
pub proof fn law_preparation_is_shown(startup: Startup, progress: u8)
    requires
        startup.phase == StartupPhase::PreparingRepo,
    ensures
        ({
            let event = StartupEvent::RepoProgress(progress);
            let actions = startup_actions(startup, event);
            &&& actions.len() == 1
            &&& actions[0] matches StartupAction::ShowRepoUpdate { progress: shown } && (if progress
                >= startup.last_progress {
                shown == progress
            } else {
                shown == startup.last_progress
            })
            &&& startup_after(startup, event).phase == StartupPhase::PreparingRepo
            &&& startup_after(startup, event).options == startup.options
        }),
{
}

/// Once the repository is prepared, the splash page says that the backend starts,
/// and then it is started.
pub proof fn law_prepared_repository_starts_the_backend(startup: Startup)
    requires
        startup.phase == StartupPhase::PreparingRepo,
    ensures
        ({
            let actions = startup_actions(startup, StartupEvent::RepoReady);
            &&& actions.len() == 2
            &&& actions[0] matches StartupAction::ShowStatus { status, progress } && status
                == StartupStatus::StartingBackend && progress == at_least(startup.last_progress, 97)
            &&& actions[1] == StartupAction::LaunchBackend
            &&& startup_after(startup, StartupEvent::RepoReady).phase
                == StartupPhase::LaunchingBackend
            &&& startup_after(startup, StartupEvent::RepoReady).options == startup.options
        }),
{
}

/// A failed step ends the startup and is told as what it is, on a splash window that
/// the user sees, unless the setup was told to stop. The setup does not count as
/// complete.
pub proof fn law_failures_end_the_startup(startup: Startup, cancelled: bool, of_repo: bool)
    requires
        startup.phase == (if of_repo {
            StartupPhase::PreparingRepo
        } else {
            StartupPhase::LaunchingBackend
        }),
    ensures
        ({
            let event = if of_repo {
                StartupEvent::RepoFailed { cancelled }
            } else {
                StartupEvent::BackendFailed { cancelled }
            };
            let told = if of_repo {
                StartupStatus::RepoFailed
            } else {
                StartupStatus::BackendFailed
            };
            let actions = startup_actions(startup, event);
            &&& startup_after(startup, event).phase == StartupPhase::Done
            &&& actions.len() == 0 <==> cancelled
            &&& !cancelled ==> (actions.last() matches StartupAction::ShowStatus {
                status,
                progress,
            } && status == told && progress == at_least(
                startup.last_progress,
                if of_repo {
                    8
                } else {
                    97
                },
            ))
            &&& !cancelled ==> actions.len() == (if startup.options.start_minimized {
                2int
            } else {
                1int
            })
            &&& !cancelled && startup.options.start_minimized ==> actions[0]
                == StartupAction::RevealSplash
        }),
{
}

/// What does not belong to the step at hand changes nothing: nothing is done and the
/// startup stays where it is.
pub proof fn law_other_events_change_nothing(startup: Startup, event: StartupEvent)
    requires
        match event {
            StartupEvent::Ready => startup.phase != StartupPhase::Waiting,
            StartupEvent::RepoProgress(_) => startup.phase != StartupPhase::PreparingRepo,
            StartupEvent::RepoReady => startup.phase != StartupPhase::PreparingRepo,
            StartupEvent::RepoFailed { .. } => startup.phase != StartupPhase::PreparingRepo,
            StartupEvent::BackendReady => startup.phase != StartupPhase::LaunchingBackend,
            StartupEvent::BackendFailed { .. } => startup.phase != StartupPhase::LaunchingBackend,
        },
    ensures
        startup_actions(startup, event).len() == 0,
        startup_after(startup, event) == startup,
{
    assert(startup_actions(startup, event) =~= Seq::<StartupAction>::empty());
}

/// A launch that goes well ends with the main window as the command line asks for
/// it, whatever progress the preparation reports on the way.
pub proof fn law_launch_ends_as_the_command_line_asks(
    options: LaunchOptions,
    begun: Startup,
    reports: Seq<u8>,
)
    requires
        !options.preview_crash,
        call_ensures(Startup::new, (options,), begun),
    ensures
        ({
            let events = Seq::new(reports.len(), |i: int| StartupEvent::RepoProgress(reports[i]));
            let ready = startup_after(begun, StartupEvent::Ready);
            let reported = startup_after_events(ready, events, events.len());
            let launching = startup_after(reported, StartupEvent::RepoReady);
            let last = startup_actions(launching, StartupEvent::BackendReady);
            &&& startup_actions(reported, StartupEvent::RepoReady).contains(
                StartupAction::LaunchBackend,
            )
            &&& last.contains(StartupAction::OpenMainWindow)
            &&& last.contains(StartupAction::RevealMainWindow) <==> !options.start_minimized
            &&& last.contains(StartupAction::HideMainWindow) <==> options.start_minimized
            &&& last.contains(StartupAction::CompleteSetup)
            &&& startup_after(launching, StartupEvent::BackendReady).phase == StartupPhase::Done
        }),
{
    let events = Seq::new(reports.len(), |i: int| StartupEvent::RepoProgress(reports[i]));
    let ready = startup_after(begun, StartupEvent::Ready);
    lemma_reports_keep_the_phase(ready, events, events.len());
    let reported = startup_after_events(ready, events, events.len());
    let launching = startup_after(reported, StartupEvent::RepoReady);
    assert(startup_actions(reported, StartupEvent::RepoReady)[1] == StartupAction::LaunchBackend);
    law_running_backend_opens_the_main_window(launching);
    let last = startup_actions(launching, StartupEvent::BackendReady);
    assert(last[4] == StartupAction::OpenMainWindow);
    assert(last[6] == StartupAction::CompleteSetup);
}

proof fn lemma_reports_keep_the_phase(startup: Startup, events: Seq<StartupEvent>, n: nat)
    requires
        startup.phase == StartupPhase::PreparingRepo,
        n <= events.len(),
        forall|i: int| 0 <= i < events.len() ==> #[trigger] events[i] is RepoProgress,
    ensures
        startup_after_events(startup, events, n).phase == StartupPhase::PreparingRepo,
        startup_after_events(startup, events, n).options == startup.options,
    decreases n,
{
    if n > 0 {
        lemma_reports_keep_the_phase(startup, events, (n - 1) as nat);
        assert(events[n - 1] is RepoProgress);
    }
}

/// The progress only moves forward, to the furthest value seen so far.
pub proof fn law_progress_is_the_furthest(a: u8, b: u8)
    ensures
        furthest(a, b) >= a,
        furthest(a, b) >= b,
        furthest(a, b) == a || furthest(a, b) == b,
{
}

/// The progress that the page shows is remembered, no more and no less: it is that of the
/// last action that shows one, and stays as it was where none does.
pub proof fn law_shown_progress_is_remembered(startup: Startup, event: StartupEvent, i: int)
    ensures
        ({
            let actions = startup_actions(startup, event);
            let after = startup_after(startup, event).last_progress;
            &&& (forall|k: int|
                0 <= k < actions.len() ==> shown_progress(#[trigger] actions[k]) is None) ==> after
                == startup.last_progress
            &&& 0 <= i < actions.len() && shown_progress(actions[i]) is Some && (forall|k: int|
                i < k < actions.len() ==> shown_progress(#[trigger] actions[k]) is None) ==> after
                == shown_progress(actions[i])->0
        }),
{
    lemma_remembered(startup.last_progress, startup_actions(startup, event), i);
}

proof fn lemma_remembered(last_progress: u8, actions: Seq<StartupAction>, i: int)
    ensures
        (forall|k: int|
            0 <= k < actions.len() ==> shown_progress(#[trigger] actions[k]) is None)
            ==> progress_after(last_progress, actions) == last_progress,
        0 <= i < actions.len() && shown_progress(actions[i]) is Some && (forall|k: int|
            i < k < actions.len() ==> shown_progress(#[trigger] actions[k]) is None)
            ==> progress_after(last_progress, actions) == shown_progress(actions[i])->0,
    decreases actions.len(),
{
    if actions.len() > 0 {
        let shorter = actions.drop_last();
        lemma_remembered(last_progress, shorter, i);
        assert(actions.last() == actions[actions.len() - 1]);
        assert forall|k: int| 0 <= k < shorter.len() implies shorter[k] == #[trigger] actions[k] by {
        }
        if forall|k: int| 0 <= k < actions.len() ==> shown_progress(#[trigger] actions[k]) is None {
            assert forall|k: int| 0 <= k < shorter.len() implies shown_progress(
                #[trigger] shorter[k],
            ) is None by {
                assert(shown_progress(actions[k]) is None);
            }
        }
        if 0 <= i < actions.len() && shown_progress(actions[i]) is Some && (forall|k: int|
            i < k < actions.len() ==> shown_progress(#[trigger] actions[k]) is None) {
            if i < shorter.len() {
                assert(shown_progress(actions[actions.len() - 1]) is None);
                assert forall|k: int| i < k < shorter.len() implies shown_progress(
                    #[trigger] shorter[k],
                ) is None by {
                    assert(shown_progress(actions[k]) is None);
                }
            }
        }
    }
}

/// What each status stands for: three of them are errors, and the progress of the
/// others rises with the startup.
pub proof fn law_statuses_tell_the_progress(status: StartupStatus, error: bool, progress: u8)
    requires
        call_ensures(StartupStatus::is_error, (status,), error),
        call_ensures(StartupStatus::progress, (status,), progress),
    ensures
        error <==> (status == StartupStatus::PreviewCrash || status == StartupStatus::RepoFailed
            || status == StartupStatus::BackendFailed),
        progress == 4 <==> status == StartupStatus::Starting,
        progress == 8 <==> status == StartupStatus::RepoFailed,
        progress == 42 <==> status == StartupStatus::PreviewCrash,
        progress == 97 <==> (status == StartupStatus::StartingBackend || status
            == StartupStatus::BackendFailed),
        progress == 100 <==> status == StartupStatus::Opening,
{
}

} // verus!
