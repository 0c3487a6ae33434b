//! The systems that the launcher runs on.
use vstd::prelude::*;

verus! {

/// The system that the launcher runs on, as far as it behaves differently.
#[derive(Debug, Clone, Copy, PartialEq, Eq, Structural)]
pub enum Platform {
    Windows,
    MacOs,
    Linux,
    Android,
    /// Any other system.
    Other,
}

impl Platform {
    /// Whether custom URI schemes are served as subdomains of `localhost` over
    /// plain HTTP.
    pub open spec fn spec_serves_schemes_over_http(self) -> bool {
        self == Platform::Windows || self == Platform::Android
    }

    /// Tells whether custom URI schemes are served over plain HTTP.
    pub fn serves_schemes_over_http(self) -> (over_http: bool)
        ensures
            over_http == self.spec_serves_schemes_over_http(),
    {
        match self {
            Platform::Windows => true,
            Platform::Android => true,
            _ => false,
        }
    }

    /// Whether the system draws the title bar of a window.
    pub open spec fn spec_draws_title_bars(self) -> bool {
        self == Platform::MacOs
    }

    /// Tells whether the system draws the title bar of a window. Where it does
    /// not, windows have no decorations and the launcher draws the bar itself.
    pub fn draws_title_bars(self) -> (draws: bool)
        ensures
            draws == self.spec_draws_title_bars(),
    {
        match self {
            Platform::MacOs => true,
            _ => false,
        }
    }

    /// How the launcher appears in the tray: only on Windows, where the menu
    /// opens by the right button, and on macOS, where it opens by the left one.
    pub fn tray_icon(self) -> (icon: Option<TrayIcon>)
        ensures
            icon is Some <==> self == Platform::Windows || self == Platform::MacOs,
            icon matches Some(icon) ==> icon.menu_on_left_click == (self == Platform::MacOs),
            icon matches Some(icon) ==> icon.toggle_on_left_click == (self == Platform::Windows),
    {
        match self {
            Platform::Windows => Some(
                TrayIcon { menu_on_left_click: false, toggle_on_left_click: true },
            ),
            Platform::MacOs => Some(
                TrayIcon { menu_on_left_click: true, toggle_on_left_click: false },
            ),
            _ => None,
        }
    }
}

/// How the icon in the tray answers the left mouse button.
#[derive(Debug, Clone, Copy, PartialEq, Eq, Structural)]
pub struct TrayIcon {
    /// It opens the menu.
    pub menu_on_left_click: bool,
    /// It shows or hides the main window, when the button is released.
    pub toggle_on_left_click: bool,
}

/// Where the systems differ: Windows and Android serve custom schemes over plain
/// HTTP, macOS alone draws title bars.
pub proof fn law_systems_differ(platform: Platform, over_http: bool, draws: bool)
    requires
        call_ensures(Platform::serves_schemes_over_http, (platform,), over_http),
        call_ensures(Platform::draws_title_bars, (platform,), draws),
    ensures
        over_http <==> platform == Platform::Windows || platform == Platform::Android,
        draws <==> platform == Platform::MacOs,
{
}

/// There is an icon in the tray on Windows and macOS only, and its left button does
/// one thing: it opens the menu on macOS and toggles the window on Windows.
pub proof fn law_tray_icon_does_one_thing(platform: Platform, icon: Option<TrayIcon>)
    requires
        call_ensures(Platform::tray_icon, (platform,), icon),
    ensures
        icon is Some <==> platform == Platform::Windows || platform == Platform::MacOs,
        icon is Some ==> icon->0.menu_on_left_click != icon->0.toggle_on_left_click,
        icon is Some ==> (icon->0.menu_on_left_click <==> platform == Platform::MacOs),
{
}

} // verus!
