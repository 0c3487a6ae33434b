//! When the launcher may end.
//!
//! Closing the main window or asking the launcher to exit puts it into the
//! tray. It ends only when it was told to: from the tray, by an interrupt, from
//! the page, or while it is still being set up.
use crate::platform::Platform;
use crate::text::same_text;
use crate::window::TrayMinimizeMode;
use vstd::prelude::*;

verus! {

/// The label of the splash window.
pub const SPLASH_LABEL: &'static str = "splash";

/// The label of the main window.
pub const MAIN_LABEL: &'static str = "main";

/// The tray menu item that shows or hides the main window.
pub const TOGGLE_ITEM: &'static str = "toggle_visibility";

/// The tray menu item that ends the launcher.
pub const QUIT_ITEM: &'static str = "quit";

/// How far the launcher is and whether it may end.
#[derive(Debug, Clone, Copy, PartialEq, Eq, Structural)]
pub struct Lifecycle {
    /// The launcher was told to end.
    pub allow_exit: bool,
    /// The setup is to stop where it is.
    pub setup_cancel_requested: bool,
    /// The setup came to its end.
    pub setup_completed: bool,
}

/// What a request to exit leads to.
#[derive(Debug, Clone, Copy, PartialEq, Eq, Structural)]
pub enum ExitDecision {
    /// The setup is abandoned: the backend is stopped and the launcher ends.
    AbandonSetup,
    /// The exit is refused and the main window goes into the tray.
    StayInTray(TrayMinimizeMode),
    /// The backend is stopped and the launcher ends.
    ShutDown,
}

/// What a request to close a window leads to.
#[derive(Debug, Clone, Copy, PartialEq, Eq, Structural)]
pub enum CloseDecision {
    /// The window closes and the launcher is asked to exit.
    CloseAndExit,
    /// The window stays and the launcher is asked to exit.
    KeepAndExit,
    /// The window stays and the main window goes into the tray.
    KeepAndMinimize(TrayMinimizeMode),
    /// The window closes.
    Close,
}

/// What an item of the tray menu leads to.
#[derive(Debug, Clone, Copy, PartialEq, Eq, Structural)]
pub enum TrayDecision {
    /// The main window is shown or hidden.
    ToggleVisibility,
    /// The launcher is asked to exit.
    Exit,
    /// Nothing happens.
    Ignore,
}

/// What happens to the launcher.
pub enum LifecycleEvent {
    /// The launcher is asked to exit.
    ExitRequested,
    /// A window with this label is asked to close.
    CloseRequested(Seq<char>),
    /// The tray menu item with this name was chosen.
    TrayItem(Seq<char>),
    /// The user told the launcher to end.
    ExitCommanded,
    /// The setup came to its end.
    SetupCompleted,
}

/// The state after an event.
pub open spec fn state_after(state: Lifecycle, event: LifecycleEvent) -> Lifecycle {
    match event {
        LifecycleEvent::ExitRequested => if state.setup_completed {
            state
        } else {
            Lifecycle { allow_exit: true, setup_cancel_requested: true, ..state }
        },
        LifecycleEvent::CloseRequested(label) => if label == SPLASH_LABEL@
            && !state.setup_completed {
            Lifecycle { allow_exit: true, setup_cancel_requested: true, ..state }
        } else if label == SPLASH_LABEL@ {
            Lifecycle { allow_exit: true, ..state }
        } else {
            state
        },
        LifecycleEvent::TrayItem(item) => if item == QUIT_ITEM@ {
            Lifecycle { allow_exit: true, ..state }
        } else {
            state
        },
        LifecycleEvent::ExitCommanded => Lifecycle { allow_exit: true, ..state },
        LifecycleEvent::SetupCompleted => Lifecycle { setup_completed: true, ..state },
    }
}

/// What a request to exit leads to.
pub open spec fn exit_decision(state: Lifecycle) -> ExitDecision {
    if !state.setup_completed {
        ExitDecision::AbandonSetup
    } else if !state.allow_exit {
        ExitDecision::StayInTray(TrayMinimizeMode::Hide)
    } else {
        ExitDecision::ShutDown
    }
}

/// What a request to close a window leads to. Windows gives up the page of the
/// main window, macOS and Linux keep it; elsewhere the window simply closes.
pub open spec fn close_decision(
    state: Lifecycle,
    platform: Platform,
    label: Seq<char>,
) -> CloseDecision {
    if label == SPLASH_LABEL@ && !state.setup_completed {
        CloseDecision::CloseAndExit
    } else if state.allow_exit {
        CloseDecision::Close
    } else if label == SPLASH_LABEL@ {
        CloseDecision::KeepAndExit
    } else if label == MAIN_LABEL@ && platform == Platform::Windows {
        CloseDecision::KeepAndMinimize(TrayMinimizeMode::Destroy)
    } else if label == MAIN_LABEL@ && (platform == Platform::MacOs || platform
        == Platform::Linux) {
        CloseDecision::KeepAndMinimize(TrayMinimizeMode::Hide)
    } else {
        CloseDecision::Close
    }
}

/// What an item of the tray menu leads to.
pub open spec fn tray_decision(item: Seq<char>) -> TrayDecision {
    if item == TOGGLE_ITEM@ {
        TrayDecision::ToggleVisibility
    } else if item == QUIT_ITEM@ {
        TrayDecision::Exit
    } else {
        TrayDecision::Ignore
    }
}

proof fn lemma_labels_differ()
    ensures
        SPLASH_LABEL@ != MAIN_LABEL@,
        TOGGLE_ITEM@ != QUIT_ITEM@,
{
    reveal_strlit("splash");
    reveal_strlit("main");
    reveal_strlit("toggle_visibility");
    reveal_strlit("quit");
    assert("splash"@.len() != "main"@.len());
    assert("toggle_visibility"@.len() != "quit"@.len());
}

impl Lifecycle {
    /// The launcher has just started.
    pub fn new() -> (state: Lifecycle)
        ensures
            !state.allow_exit,
            !state.setup_cancel_requested,
            !state.setup_completed,
    {
        Lifecycle { allow_exit: false, setup_cancel_requested: false, setup_completed: false }
    }

    /// A setup that was told to stop belongs to a launcher that was told to end.
    pub open spec fn consistent(self) -> bool {
        self.setup_cancel_requested ==> self.allow_exit
    }

    /// Decides what a request to exit leads to.
    pub fn on_exit_requested(&mut self) -> (decision: ExitDecision)
        ensures
            decision == exit_decision(*old(self)),
            *final(self) == state_after(*old(self), LifecycleEvent::ExitRequested),
    {
        if !self.setup_completed {
            self.setup_cancel_requested = true;
            self.allow_exit = true;
            return ExitDecision::AbandonSetup;
        }
        if !self.allow_exit {
            return ExitDecision::StayInTray(TrayMinimizeMode::Hide);
        }
        ExitDecision::ShutDown
    }

    /// Decides what a request to close a window leads to.
    pub fn on_close_requested(&mut self, platform: Platform, label: &str) -> (decision:
        CloseDecision)
        ensures
            decision == close_decision(*old(self), platform, label@),
            *final(self) == state_after(*old(self), LifecycleEvent::CloseRequested(label@)),
    {
        proof {
            lemma_labels_differ();
        }
        let is_splash = same_text(label, SPLASH_LABEL);
        if is_splash && !self.setup_completed {
            self.setup_cancel_requested = true;
            self.allow_exit = true;
            return CloseDecision::CloseAndExit;
        }
        if is_splash && !self.allow_exit {
            self.allow_exit = true;
            return CloseDecision::KeepAndExit;
        }
        if same_text(label, MAIN_LABEL) && !self.allow_exit {
            return match platform {
                Platform::Windows => CloseDecision::KeepAndMinimize(TrayMinimizeMode::Destroy),
                Platform::MacOs => CloseDecision::KeepAndMinimize(TrayMinimizeMode::Hide),
                Platform::Linux => CloseDecision::KeepAndMinimize(TrayMinimizeMode::Hide),
                _ => CloseDecision::Close,
            };
        }
        CloseDecision::Close
    }

    /// Decides what an item of the tray menu leads to.
    pub fn on_tray_item(&mut self, item: &str) -> (decision: TrayDecision)
        ensures
            decision == tray_decision(item@),
            *final(self) == state_after(*old(self), LifecycleEvent::TrayItem(item@)),
    {
        proof {
            lemma_labels_differ();
        }
        if same_text(item, TOGGLE_ITEM) {
            return TrayDecision::ToggleVisibility;
        }
        if same_text(item, QUIT_ITEM) {
            self.allow_exit = true;
            return TrayDecision::Exit;
        }
        TrayDecision::Ignore
    }

    /// The user told the launcher to end, by an interrupt or from the page; it is
    /// then asked to exit.
    pub fn on_exit_commanded(&mut self)
        ensures
            *final(self) == state_after(*old(self), LifecycleEvent::ExitCommanded),
    {
        self.allow_exit = true;
    }

    /// The setup came to its end.
    pub fn on_setup_completed(&mut self)
        ensures
            *final(self) == state_after(*old(self), LifecycleEvent::SetupCompleted),
    {
        self.setup_completed = true;
    }
}

/// The state after the first `n` of some events.
pub open spec fn state_after_events(
    state: Lifecycle,
    events: Seq<LifecycleEvent>,
    n: nat,
) -> Lifecycle
    decreases n,
{
    if n == 0 {
        state
    } else {
        state_after(state_after_events(state, events, (n - 1) as nat), events[n - 1])
    }
}

/// Nothing is taken back: once the launcher was told to end, once the setup was
/// told to stop, once the setup came to its end, it stays so whatever happens.
/// And the setup is never told to stop without the launcher being told to end.
pub proof fn law_nothing_is_taken_back(
    state: Lifecycle,
    events: Seq<LifecycleEvent>,
    i: nat,
    j: nat,
)
    requires
        i <= j <= events.len(),
        state.consistent(),
    ensures
        ({
            let before = state_after_events(state, events, i);
            let after = state_after_events(state, events, j);
            &&& before.allow_exit ==> after.allow_exit
            &&& before.setup_cancel_requested ==> after.setup_cancel_requested
            &&& before.setup_completed ==> after.setup_completed
            &&& before.consistent() && after.consistent()
        }),
    decreases j,
{
    if j > 0 {
        if i < j {
            law_nothing_is_taken_back(state, events, i, (j - 1) as nat);
        } else {
            law_nothing_is_taken_back(state, events, (i - 1) as nat, (j - 1) as nat);
        }
    }
}

/// The user can always end the launcher: after choosing to quit, an interrupt,
/// or closing the splash, no request to exit is refused, whatever happens in
/// between.
pub proof fn law_quitting_ends_the_launcher(
    state: Lifecycle,
    command: LifecycleEvent,
    events: Seq<LifecycleEvent>,
)
    requires
        command == LifecycleEvent::ExitCommanded || command == LifecycleEvent::TrayItem(QUIT_ITEM@)
            || command == LifecycleEvent::CloseRequested(SPLASH_LABEL@),
    ensures
        !(exit_decision(
            state_after_events(state_after(state, command), events, events.len()),
        ) is StayInTray),
{
    lemma_exit_stays_allowed(state_after(state, command), events, events.len());
}

proof fn lemma_exit_stays_allowed(state: Lifecycle, events: Seq<LifecycleEvent>, n: nat)
    requires
        state.allow_exit,
        n <= events.len(),
    ensures
        state_after_events(state, events, n).allow_exit,
    decreases n,
{
    if n > 0 {
        lemma_exit_stays_allowed(state, events, (n - 1) as nat);
    }
}

/// The launcher does not end by accident: after the setup, closing the main
/// window and asking to exit, in any order and number, neither close the main
/// window on a desktop nor end the launcher.
pub proof fn law_launcher_does_not_end_by_accident(
    state: Lifecycle,
    platform: Platform,
    events: Seq<LifecycleEvent>,
)
    requires
        state.setup_completed,
        !state.allow_exit,
        platform == Platform::Windows || platform == Platform::MacOs || platform
            == Platform::Linux,
        forall|i: int|
            0 <= i < events.len() ==> #[trigger] events[i] == LifecycleEvent::ExitRequested
                || events[i] == LifecycleEvent::CloseRequested(MAIN_LABEL@),
    ensures
        ({
            let after = state_after_events(state, events, events.len());
            &&& exit_decision(after) is StayInTray
            &&& close_decision(after, platform, MAIN_LABEL@) is KeepAndMinimize
        }),
{
    lemma_labels_differ();
    lemma_state_unchanged(state, events, events.len());
}

proof fn lemma_state_unchanged(state: Lifecycle, events: Seq<LifecycleEvent>, n: nat)
    requires
        state.setup_completed,
        n <= events.len(),
        forall|i: int|
            0 <= i < events.len() ==> #[trigger] events[i] == LifecycleEvent::ExitRequested
                || events[i] == LifecycleEvent::CloseRequested(MAIN_LABEL@),
    ensures
        state_after_events(state, events, n) == state,
    decreases n,
{
    if n > 0 {
        lemma_labels_differ();
        lemma_state_unchanged(state, events, (n - 1) as nat);
        assert(events[n - 1] == LifecycleEvent::ExitRequested || events[n - 1]
            == LifecycleEvent::CloseRequested(MAIN_LABEL@));
    }
}

/// A request to exit: while the launcher is set up it ends and the setup stops; after
/// that it ends exactly if it was told to, and otherwise stays in the tray with the
/// page of its window kept.
pub proof fn law_exit_is_granted_when_told(state: Lifecycle)
    ensures
        exit_decision(state) == ExitDecision::AbandonSetup <==> !state.setup_completed,
        exit_decision(state) == ExitDecision::ShutDown <==> state.setup_completed
            && state.allow_exit,
        exit_decision(state) == ExitDecision::StayInTray(TrayMinimizeMode::Hide)
            <==> state.setup_completed && !state.allow_exit,
        !state.setup_completed ==> state_after(
            state,
            LifecycleEvent::ExitRequested,
        ).setup_cancel_requested,
{
}

/// Closing the splash ends the launcher: at once while it is set up, and by a request
/// to exit afterwards.
pub proof fn law_closing_the_splash_ends_the_launcher(state: Lifecycle, platform: Platform)
    ensures
        !state.setup_completed ==> close_decision(state, platform, "splash"@)
            == CloseDecision::CloseAndExit,
        state.setup_completed && !state.allow_exit ==> close_decision(state, platform, "splash"@)
            == CloseDecision::KeepAndExit,
        state.setup_completed && state.allow_exit ==> close_decision(state, platform, "splash"@)
            == CloseDecision::Close,
        !(exit_decision(
            state_after(state, LifecycleEvent::CloseRequested("splash"@)),
        ) is StayInTray),
{
    lemma_labels_differ();
}

/// Closing the main window puts it into the tray, without its page on Windows and with
/// it on macOS and Linux. It closes where there is no such system, and where the
/// launcher was told to end.
pub proof fn law_closing_the_main_window_minimizes_it(state: Lifecycle, platform: Platform)
    ensures
        state.allow_exit ==> close_decision(state, platform, "main"@) == CloseDecision::Close,
        !state.allow_exit ==> close_decision(state, platform, "main"@) == (match platform {
            Platform::Windows => CloseDecision::KeepAndMinimize(TrayMinimizeMode::Destroy),
            Platform::MacOs => CloseDecision::KeepAndMinimize(TrayMinimizeMode::Hide),
            Platform::Linux => CloseDecision::KeepAndMinimize(TrayMinimizeMode::Hide),
            Platform::Android => CloseDecision::Close,
            Platform::Other => CloseDecision::Close,
        }),
        state_after(state, LifecycleEvent::CloseRequested("main"@)) == state,
{
    lemma_labels_differ();
}

/// Any other window just closes, and that changes nothing.
pub proof fn law_other_windows_just_close(state: Lifecycle, platform: Platform, label: Seq<char>)
    requires
        label != "splash"@,
        label != "main"@,
    ensures
        close_decision(state, platform, label) == CloseDecision::Close,
        state_after(state, LifecycleEvent::CloseRequested(label)) == state,
{
}

/// The tray menu has two items: one toggles the window and changes nothing else, the
/// other ends the launcher. Anything else does nothing.
pub proof fn law_tray_menu_has_two_items(state: Lifecycle, item: Seq<char>)
    ensures
        tray_decision(item) == TrayDecision::ToggleVisibility <==> item == "toggle_visibility"@,
        tray_decision(item) == TrayDecision::Exit <==> item == "quit"@,
        tray_decision(item) == TrayDecision::Ignore <==> item != "toggle_visibility"@ && item
            != "quit"@,
        state_after(state, LifecycleEvent::TrayItem(item)).allow_exit <==> state.allow_exit || item
            == "quit"@,
{
    lemma_labels_differ();
}

/// What each event changes, and that it changes nothing else: the launcher is told to
/// end by the user or by leaving the setup, the setup is told to stop only by leaving
/// it, and it is complete only once it says so.
pub proof fn law_each_event_changes_its_own(state: Lifecycle, event: LifecycleEvent)
    ensures
        ({
            let after = state_after(state, event);
            let leaves_setup = !state.setup_completed && (event == LifecycleEvent::ExitRequested
                || event == LifecycleEvent::CloseRequested("splash"@));
            let tells_to_end = event == LifecycleEvent::ExitCommanded || event
                == LifecycleEvent::TrayItem("quit"@) || event == LifecycleEvent::CloseRequested(
                "splash"@,
            );
            &&& after.allow_exit <==> state.allow_exit || leaves_setup || tells_to_end
            &&& after.setup_cancel_requested <==> state.setup_cancel_requested || leaves_setup
            &&& after.setup_completed <==> state.setup_completed || event
                == LifecycleEvent::SetupCompleted
        }),
{
    lemma_labels_differ();
}

/// The launcher starts neither told to end nor told to stop, with its setup ahead.
pub proof fn law_launcher_starts_with_its_setup_ahead(state: Lifecycle)
    requires
        call_ensures(Lifecycle::new, (), state),
    ensures
        !state.allow_exit && !state.setup_cancel_requested && !state.setup_completed,
        exit_decision(state) == ExitDecision::AbandonSetup,
{
}

} // verus!
