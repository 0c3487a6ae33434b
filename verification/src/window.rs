//! What happens to the main window: hiding, restoring, maximizing.
use crate::platform::Platform;
use vstd::prelude::*;

verus! {

/// How the main window goes into the tray.
#[derive(Debug, Clone, Copy, PartialEq, Eq, Structural)]
pub enum TrayMinimizeMode {
    /// It is hidden and keeps its page.
    Hide,
    /// It is destroyed to release what its page holds.
    Destroy,
}

/// Something that is done to a window.
#[derive(Debug, Clone, Copy, PartialEq, Eq, Structural)]
pub enum WindowCall {
    Hide,
    Destroy,
    Show,
    Focus,
    Maximize,
    Unmaximize,
    Unminimize,
}

/// How the main window goes into the tray.
#[derive(Debug, Clone, Copy, PartialEq, Eq, Structural)]
pub struct MinimizePlan {
    /// What is done to the window, if there is one.
    pub window: Option<WindowCall>,
    /// Whether the launcher then leaves the dock.
    pub leave_dock: bool,
}

/// Plans how the main window goes into the tray. Only Windows destroys it, and
/// only macOS has a dock to leave.
pub fn minimize_main_window_to_tray(
    platform: Platform,
    window_exists: bool,
    mode: TrayMinimizeMode,
) -> (plan: MinimizePlan)
    ensures
        plan.window is Some <==> window_exists,
        plan.window matches Some(call) ==> call == (if platform == Platform::Windows && mode
            == TrayMinimizeMode::Destroy {
            WindowCall::Destroy
        } else {
            WindowCall::Hide
        }),
        plan.leave_dock == (platform == Platform::MacOs),
{
    let call = match (platform, mode) {
        (Platform::Windows, TrayMinimizeMode::Destroy) => WindowCall::Destroy,
        _ => WindowCall::Hide,
    };
    let window = if window_exists {
        Some(call)
    } else {
        None
    };
    let leave_dock = match platform {
        Platform::MacOs => true,
        _ => false,
    };
    MinimizePlan { window, leave_dock }
}

/// What is done to a window so that the user sees it, in order. Each step is
/// taken only if the one before it succeeded.
pub fn reveal_window(is_minimized: bool) -> (steps: Vec<WindowCall>)
    ensures
        steps@ == (if is_minimized {
            seq![WindowCall::Unminimize, WindowCall::Show, WindowCall::Focus]
        } else {
            seq![WindowCall::Show, WindowCall::Focus]
        }),
{
    let mut steps: Vec<WindowCall> = Vec::new();
    if is_minimized {
        steps.push(WindowCall::Unminimize);
    }
    steps.push(WindowCall::Show);
    steps.push(WindowCall::Focus);
    steps
}

/// Turns a window between maximized and not: what is done to it, and whether it
/// is maximized afterwards.
pub fn window_toggle_maximize(is_maximized: bool) -> (result: (WindowCall, bool))
    ensures
        result == (if is_maximized {
            (WindowCall::Unmaximize, false)
        } else {
            (WindowCall::Maximize, true)
        }),
{
    if is_maximized {
        (WindowCall::Unmaximize, false)
    } else {
        (WindowCall::Maximize, true)
    }
}

/// The state of the main window, if there is one.
#[derive(Debug, Clone, Copy, PartialEq, Eq, Structural)]
pub struct WindowState {
    pub is_visible: bool,
    pub is_minimized: bool,
}

/// What toggling the visibility of the main window leads to.
#[derive(Debug, Clone, Copy, PartialEq, Eq, Structural)]
pub enum ToggleDecision {
    /// It goes into the tray.
    Minimize(TrayMinimizeMode),
    /// It is brought back.
    Restore,
}

/// Decides what toggling the visibility of the main window leads to: a window
/// that the user sees is hidden, anything else is brought back.
pub fn toggle_main_window_visibility(window: Option<WindowState>) -> (decision: ToggleDecision)
    ensures
        decision == (if window is Some && window->0.is_visible && !window->0.is_minimized {
            ToggleDecision::Minimize(TrayMinimizeMode::Hide)
        } else {
            ToggleDecision::Restore
        }),
{
    match window {
        Some(state) => if state.is_visible && !state.is_minimized {
            ToggleDecision::Minimize(TrayMinimizeMode::Hide)
        } else {
            ToggleDecision::Restore
        },
        None => ToggleDecision::Restore,
    }
}

/// How the main window is brought back.
#[derive(Debug, Clone, Copy, PartialEq, Eq, Structural)]
pub enum RestorePlan {
    /// The window is there and is revealed.
    Reveal { enter_dock: bool },
    /// The window is gone and is built again, opened on the backend and revealed.
    Recreate { enter_dock: bool },
    /// The window is being built again already.
    AlreadyRecreating,
}

/// How the main window is brought back, given whether it is there and whether
/// it is being built again. Only macOS has a dock to enter.
pub open spec fn restore_plan(
    recreating: bool,
    platform: Platform,
    window_exists: bool,
) -> RestorePlan {
    if window_exists {
        RestorePlan::Reveal { enter_dock: platform == Platform::MacOs }
    } else if recreating {
        RestorePlan::AlreadyRecreating
    } else {
        RestorePlan::Recreate { enter_dock: platform == Platform::MacOs }
    }
}

/// Whether the window is being built after an attempt to bring it back.
pub open spec fn recreating_next(recreating: bool, window_exists: bool) -> bool {
    recreating || !window_exists
}

/// Whether the main window is being built again.
#[derive(Debug, Clone, Copy, PartialEq, Eq, Structural)]
pub struct RestoreLock {
    pub recreating: bool,
}

impl RestoreLock {
    /// Nothing is being built yet.
    pub fn new() -> (lock: RestoreLock)
        ensures
            !lock.recreating,
    {
        RestoreLock { recreating: false }
    }

    /// Plans how the main window is brought back. Whoever is told to build the
    /// window again holds the lock until `recreation_finished`.
    pub fn restore_main_window_from_tray(
        &mut self,
        platform: Platform,
        window_exists: bool,
    ) -> (plan: RestorePlan)
        ensures
            plan == restore_plan(old(self).recreating, platform, window_exists),
            final(self).recreating == recreating_next(old(self).recreating, window_exists),
    {
        let enter_dock = match platform {
            Platform::MacOs => true,
            _ => false,
        };
        if window_exists {
            return RestorePlan::Reveal { enter_dock };
        }
        if self.recreating {
            return RestorePlan::AlreadyRecreating;
        }
        self.recreating = true;
        RestorePlan::Recreate { enter_dock }
    }

    /// The window was built again, or building it failed.
    pub fn recreation_finished(&mut self)
        ensures
            !final(self).recreating,
    {
        self.recreating = false;
    }
}

/// Whether the window is being built after the first `n` of some attempts to
/// bring it back; `exists_at[i]` tells whether attempt `i` finds the window.
pub open spec fn recreating_after(recreating: bool, exists_at: Seq<bool>, n: nat) -> bool
    decreases n,
{
    if n == 0 {
        recreating
    } else {
        recreating_next(recreating_after(recreating, exists_at, (n - 1) as nat), exists_at[n - 1])
    }
}

/// At most one window is built at a time: among any attempts to bring the
/// window back before `recreation_finished`, only one is told to build it.
pub proof fn law_one_window_at_a_time(
    recreating: bool,
    platform: Platform,
    exists_at: Seq<bool>,
    i: nat,
    j: nat,
)
    requires
        i < j < exists_at.len(),
        restore_plan(
            recreating_after(recreating, exists_at, i),
            platform,
            exists_at[i as int],
        ) is Recreate,
    ensures
        !(restore_plan(
            recreating_after(recreating, exists_at, j),
            platform,
            exists_at[j as int],
        ) is Recreate),
    decreases j,
{
    lemma_stays_recreating(recreating, exists_at, i + 1, j);
}

proof fn lemma_stays_recreating(recreating: bool, exists_at: Seq<bool>, i: nat, j: nat)
    requires
        i <= j,
        recreating_after(recreating, exists_at, i),
    ensures
        recreating_after(recreating, exists_at, j),
    decreases j,
{
    if i < j {
        lemma_stays_recreating(recreating, exists_at, i, (j - 1) as nat);
    }
}

/// A window that is there is always revealed, on every system and whatever is being
/// built. One that is not there is built, unless it is being built already. Only on
/// macOS does the launcher enter the dock with it.
pub proof fn law_window_comes_back(recreating: bool, platform: Platform, window_exists: bool)
    ensures
        restore_plan(recreating, platform, window_exists) is Reveal <==> window_exists,
        restore_plan(recreating, platform, window_exists) is AlreadyRecreating
            <==> !window_exists && recreating,
        restore_plan(recreating, platform, window_exists) is Recreate <==> !window_exists
            && !recreating,
        match restore_plan(recreating, platform, window_exists) {
            RestorePlan::Reveal { enter_dock } => enter_dock <==> platform == Platform::MacOs,
            RestorePlan::Recreate { enter_dock } => enter_dock <==> platform == Platform::MacOs,
            RestorePlan::AlreadyRecreating => true,
        },
{
}

/// The lock is taken exactly by whoever is told to build the window, and stays with
/// them: no attempt to bring the window back frees it.
pub proof fn law_lock_goes_to_the_builder(
    recreating: bool,
    platform: Platform,
    window_exists: bool,
)
    ensures
        restore_plan(recreating, platform, window_exists) is Recreate
            <==> !recreating && recreating_next(recreating, window_exists),
        recreating ==> recreating_next(recreating, window_exists),
{
}

/// The user gets back a window from the tray: once it was hidden or destroyed,
/// toggling its visibility leads to bringing it back, and bringing it back does not
/// end in nothing unless it is being built.
pub proof fn law_toggling_undoes_hiding(
    platform: Platform,
    mode: TrayMinimizeMode,
    plan: MinimizePlan,
    state: WindowState,
    decision: ToggleDecision,
)
    requires
        call_ensures(minimize_main_window_to_tray, (platform, true, mode), plan),
        plan.window == Some(WindowCall::Hide) ==> !state.is_visible,
        call_ensures(
            toggle_main_window_visibility,
            (if plan.window == Some(WindowCall::Hide) {
                Some(state)
            } else {
                None
            },),
            decision,
        ),
    ensures
        decision is Restore,
        restore_plan(false, platform, plan.window == Some(WindowCall::Hide)) is Reveal
            || restore_plan(false, platform, plan.window == Some(WindowCall::Hide)) is Recreate,
{
}

/// A window in the tray keeps its page unless it is on Windows and was to be
/// destroyed; where there is no window nothing is done to one. The launcher leaves
/// the dock on macOS only.
pub proof fn law_hiding_keeps_the_page(
    platform: Platform,
    window_exists: bool,
    mode: TrayMinimizeMode,
    plan: MinimizePlan,
)
    requires
        call_ensures(minimize_main_window_to_tray, (platform, window_exists, mode), plan),
    ensures
        !window_exists ==> plan.window is None,
        window_exists && platform != Platform::Windows ==> plan.window == Some(WindowCall::Hide),
        window_exists && mode == TrayMinimizeMode::Hide ==> plan.window == Some(WindowCall::Hide),
        window_exists && platform == Platform::Windows && mode == TrayMinimizeMode::Destroy
            ==> plan.window == Some(WindowCall::Destroy),
        plan.leave_dock <==> platform == Platform::MacOs,
{
}

/// A window that the user sees is hidden with its page kept; one that is hidden,
/// minimized or gone is brought back.
pub proof fn law_toggling_follows_what_the_user_sees(
    window: Option<WindowState>,
    decision: ToggleDecision,
)
    requires
        call_ensures(toggle_main_window_visibility, (window,), decision),
    ensures
        window is None ==> decision == ToggleDecision::Restore,
        window is Some && window->0.is_minimized ==> decision == ToggleDecision::Restore,
        window is Some && !window->0.is_visible ==> decision == ToggleDecision::Restore,
        window is Some && window->0.is_visible && !window->0.is_minimized ==> decision
            == ToggleDecision::Minimize(TrayMinimizeMode::Hide),
{
}

/// Revealing a window shows it and then focuses it, and first undoes that it is
/// minimized if it is; nothing else is done to it.
pub proof fn law_revealing_shows_and_focuses(is_minimized: bool, steps: Vec<WindowCall>)
    requires
        call_ensures(reveal_window, (is_minimized,), steps),
    ensures
        steps@.len() == (if is_minimized {
            3int
        } else {
            2int
        }),
        is_minimized ==> steps@[0] == WindowCall::Unminimize,
        steps@[steps@.len() - 2] == WindowCall::Show,
        steps@[steps@.len() - 1] == WindowCall::Focus,
{
}

/// Toggling twice undoes itself: the second call does the opposite of the first and
/// ends where the first began. The result tells whether the window was maximized.
pub proof fn law_maximizing_twice_undoes_itself(
    is_maximized: bool,
    first: (WindowCall, bool),
    second: (WindowCall, bool),
)
    requires
        call_ensures(window_toggle_maximize, (is_maximized,), first),
        call_ensures(window_toggle_maximize, (first.1,), second),
    ensures
        second.1 == is_maximized,
        first.1 == !is_maximized,
        first.0 == (if first.1 {
            WindowCall::Maximize
        } else {
            WindowCall::Unmaximize
        }),
        second.0 == (if second.1 {
            WindowCall::Maximize
        } else {
            WindowCall::Unmaximize
        }),
{
}

} // verus!
