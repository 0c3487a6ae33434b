use alas_launcher::address::parse_url;
use alas_launcher::args::{
    launcher_arg_present, preview_crash_arg_present, preview_no_update_arg_present,
    start_minimized_arg_present, LaunchOptions,
};
use alas_launcher::connection::{
    check_navigation, connection_error, handle_backend_navigation, navigate_backend_or_error,
    retry_backend_connection, NavigationCheck, NavigationVerdict, Reached, Wait, WaitStep,
};
use alas_launcher::encoding::{decode_saved_file, SaveError};
use alas_launcher::lifecycle::{CloseDecision, ExitDecision, Lifecycle, TrayDecision};
use alas_launcher::logs::{today_gui_log_filename, today_launcher_log_filename, LogKind};
use alas_launcher::platform::Platform;
use alas_launcher::splash_update::{status_update, SplashUpdate, StartupText, UvProgress};
use alas_launcher::startup::{
    Startup, StartupAction, StartupEvent, StartupPhase, StartupStatus,
};
use alas_launcher::trust::TrustReply;
use alas_launcher::window::{
    minimize_main_window_to_tray, reveal_window, toggle_main_window_visibility,
    window_toggle_maximize, RestoreLock, RestorePlan, ToggleDecision, TrayMinimizeMode, WindowCall,
    WindowState,
};

fn args(list: &[&str]) -> Vec<String> {
    list.iter().map(|arg| arg.to_string()).collect()
}

fn options(preview_crash: bool, preview_no_update: bool, start_minimized: bool) -> LaunchOptions {
    LaunchOptions { preview_crash, preview_no_update, start_minimized }
}

#[test]
fn flags_are_found_whatever_their_case() {
    for flag in [
        "--preview-no-update",
        "--skip-update",
        "--no-update",
        "--disable-update",
        "/preview-no-update",
        "/skip-update",
        "/no-update",
    ] {
        assert!(preview_no_update_arg_present(&args(&["launcher", flag])));
        assert!(preview_no_update_arg_present(&args(&["launcher", "x", &flag.to_uppercase()])));
    }
    for flag in [
        "--preview-crash",
        "--preview-error",
        "--crash-preview",
        "--error-preview",
        "/preview-crash",
        "/preview-error",
    ] {
        assert!(preview_crash_arg_present(&args(&["launcher", flag])));
    }
    for flag in ["--start-minimized", "/start-minimized"] {
        assert!(start_minimized_arg_present(&args(&["launcher", flag])));
    }
    assert!(!preview_no_update_arg_present(&args(&["--no-update"])));
    assert!(!preview_no_update_arg_present(&args(&[])));
    assert!(!preview_no_update_arg_present(&args(&["launcher", "--no-update=1", "/disable-update"])));
    assert!(launcher_arg_present(&args(&["a", "b", "É"]), &vec!["É"]));
    assert!(!launcher_arg_present(&args(&["a", "b", "É"]), &vec!["é"]));
}

#[test]
fn a_preview_of_the_error_state_does_not_update() {
    assert_eq!(
        LaunchOptions::from_args(&args(&["launcher", "--Preview-Crash"])),
        options(true, true, false)
    );
    assert_eq!(
        LaunchOptions::from_args(&args(&["launcher", "/no-update", "/start-minimized"])),
        options(false, true, true)
    );
    assert_eq!(LaunchOptions::from_args(&args(&["launcher"])), options(false, false, false));
}

#[test]
fn saved_files_are_decoded_strictly() {
    assert_eq!(decode_saved_file("aGVsbG8="), Ok(b"hello".to_vec()));
    assert_eq!(decode_saved_file(""), Ok(vec![]));
    assert_eq!(decode_saved_file("+/8="), Ok(vec![251, 255]));
    for data in ["aGVsbG8", "aGVsbG9=", "aGVs bG8=", "a", "====", "é", "aGVsbG8=\n", "-_8="] {
        assert_eq!(decode_saved_file(data), Err(SaveError::NotBase64), "{}", data);
    }
}

#[test]
fn log_files_are_named_by_day() {
    assert_eq!(LogKind::Gui.filename("2024-02-29"), "2024-02-29_gui.txt");
    assert_eq!(LogKind::Launcher.filename("2024-02-29"), "2024-02-29_launcher.txt");
    assert_eq!(LogKind::Gui.display_name(), "GUI");
    assert_eq!(LogKind::Launcher.display_name(), "launcher");
    for (name, suffix) in [
        (today_gui_log_filename(), "_gui.txt"),
        (today_launcher_log_filename(), "_launcher.txt"),
    ] {
        assert!(name.ends_with(suffix));
        let date: Vec<char> = name[..name.len() - suffix.len()].chars().collect();
        assert_eq!(date.len(), 10);
        for (i, c) in date.iter().enumerate() {
            if i == 4 || i == 7 {
                assert_eq!(*c, '-');
            } else {
                assert!(c.is_ascii_digit());
            }
        }
        let month: u8 = name[5..7].parse().unwrap();
        let day: u8 = name[8..10].parse().unwrap();
        assert!((1..=12).contains(&month) && (1..=31).contains(&day));
        assert!(!name.contains('/') && !name.contains('\\') && !name.contains(':'));
    }
}

#[test]
fn waiting_ends_with_the_last_failure() {
    let mut wait = Wait::for_backend(10000);
    assert_eq!(wait.step(0), WaitStep::Try);
    assert_eq!(wait.attempt_failed("first".to_owned()), 200);
    assert_eq!(wait.step(9999), WaitStep::Try);
    assert_eq!(wait.attempt_failed("second".to_owned()), 200);
    assert_eq!(wait.step(10000), WaitStep::GiveUp);
    assert_eq!(wait.failure("timeout"), "second");
    assert_eq!(Wait::for_backend(0).step(0), WaitStep::GiveUp);
    assert_eq!(Wait::for_backend(0).failure("timeout"), "timeout");
    let mut splash = Wait::for_splash();
    assert_eq!(splash.step(1999), WaitStep::Try);
    assert_eq!(splash.step(2000), WaitStep::GiveUp);
    assert_eq!(splash.attempt_failed(String::new()), 25);
    assert_eq!(
        connection_error(22267, "refused"),
        "Unable to connect to local backend at 127.0.0.1:22267: refused"
    );
}

#[test]
fn the_main_window_goes_to_the_backend_or_to_the_error_page() {
    let reached = Reached::Yes(TrustReply::Answered {
        status: 200,
        body: Some("{\"token\":\"t\"}".to_owned()),
    });
    let navigation = navigate_backend_or_error(Platform::Linux, 1234, reached).unwrap();
    assert!(navigation.to_backend);
    assert_eq!(navigation.url, "http://127.0.0.1:1234/launcher-login?token=t");

    let missed = Reached::No("no".to_owned());
    let navigation = navigate_backend_or_error(Platform::Linux, 1234, missed).unwrap();
    assert!(!navigation.to_backend);
    assert_eq!(navigation.url, "alas-error://localhost/backend?port=1234&detail=no");

    assert_eq!(
        retry_backend_connection(1234, Reached::Yes(TrustReply::Unanswered)).as_deref(),
        Some("http://127.0.0.1:1234/")
    );
    assert_eq!(retry_backend_connection(1234, Reached::No("no".to_owned())), None);
}

#[test]
fn only_navigation_to_an_unreachable_backend_is_blocked() {
    let backend = parse_url("http://localhost:1234/page?token=x").unwrap();
    let elsewhere = parse_url("https://example.com/").unwrap();
    assert_eq!(check_navigation(1234, &backend), NavigationCheck::Connect);
    assert_eq!(check_navigation(1234, &elsewhere), NavigationCheck::Allow);
    let failure = || Some("down".to_owned());
    assert!(matches!(
        handle_backend_navigation(Platform::Windows, 1234, &backend, None),
        Ok(NavigationVerdict::Allow)
    ));
    assert!(matches!(
        handle_backend_navigation(Platform::Windows, 1234, &elsewhere, failure()),
        Ok(NavigationVerdict::Allow)
    ));
    match handle_backend_navigation(Platform::Windows, 1234, &backend, failure()) {
        Ok(NavigationVerdict::Block { blocked_url, error_url }) => {
            assert_eq!(blocked_url, "http://localhost:1234/page");
            assert_eq!(error_url, "http://alas-error.localhost/backend?port=1234&detail=down");
            let error_page = parse_url(&error_url).unwrap();
            assert!(matches!(
                handle_backend_navigation(Platform::Windows, 1234, &error_page, failure()),
                Ok(NavigationVerdict::Allow)
            ));
        }
        other => panic!("{:?}", other),
    }
}

#[test]
fn exit_during_setup_abandons_it() {
    let mut state = Lifecycle::new();
    assert_eq!(state.on_exit_requested(), ExitDecision::AbandonSetup);
    assert!(state.allow_exit && state.setup_cancel_requested && !state.setup_completed);

    let mut state = Lifecycle::new();
    assert_eq!(state.on_close_requested(Platform::Linux, "splash"), CloseDecision::CloseAndExit);
    assert!(state.allow_exit && state.setup_cancel_requested);
}

#[test]
fn after_setup_the_launcher_ends_only_when_told_to() {
    let mut state = Lifecycle::new();
    state.on_setup_completed();
    assert_eq!(
        state.on_exit_requested(),
        ExitDecision::StayInTray(TrayMinimizeMode::Hide)
    );
    assert_eq!(
        state.on_close_requested(Platform::Windows, "main"),
        CloseDecision::KeepAndMinimize(TrayMinimizeMode::Destroy)
    );
    for platform in [Platform::MacOs, Platform::Linux] {
        assert_eq!(
            state.on_close_requested(platform, "main"),
            CloseDecision::KeepAndMinimize(TrayMinimizeMode::Hide)
        );
    }
    assert_eq!(state.on_close_requested(Platform::Other, "main"), CloseDecision::Close);
    assert_eq!(state.on_close_requested(Platform::Windows, "other"), CloseDecision::Close);
    assert_eq!(state.on_tray_item("toggle_visibility"), TrayDecision::ToggleVisibility);
    assert_eq!(state.on_tray_item("nothing"), TrayDecision::Ignore);
    assert!(!state.allow_exit);

    let mut quit = state;
    assert_eq!(quit.on_tray_item("quit"), TrayDecision::Exit);
    assert_eq!(quit.on_exit_requested(), ExitDecision::ShutDown);
    assert_eq!(quit.on_close_requested(Platform::Windows, "main"), CloseDecision::Close);

    let mut interrupted = state;
    interrupted.on_exit_commanded();
    assert_eq!(interrupted.on_exit_requested(), ExitDecision::ShutDown);

    let mut closed = state;
    assert_eq!(closed.on_close_requested(Platform::Windows, "splash"), CloseDecision::KeepAndExit);
    assert_eq!(closed.on_close_requested(Platform::Windows, "splash"), CloseDecision::Close);
    assert_eq!(closed.on_exit_requested(), ExitDecision::ShutDown);
    assert!(!closed.setup_cancel_requested);
}

#[test]
fn windows_are_hidden_and_restored() {
    let plan = minimize_main_window_to_tray(Platform::Windows, true, TrayMinimizeMode::Destroy);
    assert_eq!(plan.window, Some(WindowCall::Destroy));
    assert!(!plan.leave_dock);
    let plan = minimize_main_window_to_tray(Platform::Windows, true, TrayMinimizeMode::Hide);
    assert_eq!(plan.window, Some(WindowCall::Hide));
    let plan = minimize_main_window_to_tray(Platform::MacOs, false, TrayMinimizeMode::Destroy);
    assert_eq!(plan.window, None);
    assert!(plan.leave_dock);
    let plan = minimize_main_window_to_tray(Platform::Linux, true, TrayMinimizeMode::Destroy);
    assert_eq!(plan.window, Some(WindowCall::Hide));

    assert_eq!(
        reveal_window(true),
        vec![WindowCall::Unminimize, WindowCall::Show, WindowCall::Focus]
    );
    assert_eq!(reveal_window(false), vec![WindowCall::Show, WindowCall::Focus]);
    assert_eq!(window_toggle_maximize(true), (WindowCall::Unmaximize, false));
    assert_eq!(window_toggle_maximize(false), (WindowCall::Maximize, true));

    let state = |is_visible, is_minimized| Some(WindowState { is_visible, is_minimized });
    assert_eq!(
        toggle_main_window_visibility(state(true, false)),
        ToggleDecision::Minimize(TrayMinimizeMode::Hide)
    );
    assert_eq!(toggle_main_window_visibility(state(true, true)), ToggleDecision::Restore);
    assert_eq!(toggle_main_window_visibility(state(false, false)), ToggleDecision::Restore);
    assert_eq!(toggle_main_window_visibility(None), ToggleDecision::Restore);
}

#[test]
fn only_one_window_is_built_at_a_time() {
    let mut lock = RestoreLock::new();
    assert_eq!(
        lock.restore_main_window_from_tray(Platform::MacOs, true),
        RestorePlan::Reveal { enter_dock: true }
    );
    assert_eq!(
        lock.restore_main_window_from_tray(Platform::Windows, false),
        RestorePlan::Recreate { enter_dock: false }
    );
    assert_eq!(
        lock.restore_main_window_from_tray(Platform::Windows, false),
        RestorePlan::AlreadyRecreating
    );
    assert_eq!(
        lock.restore_main_window_from_tray(Platform::Windows, true),
        RestorePlan::Reveal { enter_dock: false }
    );
    lock.recreation_finished();
    assert_eq!(
        lock.restore_main_window_from_tray(Platform::Windows, false),
        RestorePlan::Recreate { enter_dock: false }
    );
}

#[test]
fn tray_icons_exist_on_windows_and_macos() {
    let windows = Platform::Windows.tray_icon().unwrap();
    assert!(!windows.menu_on_left_click && windows.toggle_on_left_click);
    let macos = Platform::MacOs.tray_icon().unwrap();
    assert!(macos.menu_on_left_click && !macos.toggle_on_left_click);
    assert!(Platform::Linux.tray_icon().is_none());
    assert!(Platform::MacOs.draws_title_bars());
    assert!(!Platform::Windows.draws_title_bars());
}

#[test]
fn an_ordinary_startup() {
    let mut startup = Startup::new(options(false, true, false));
    assert_eq!(
        startup.on_event(StartupEvent::Ready),
        vec![
            StartupAction::LoadSplash { visible: true },
            StartupAction::ShowStatus { status: StartupStatus::Starting, progress: 4 },
            StartupAction::PrepareRepo { skip_update: true },
        ]
    );
    assert_eq!(
        startup.on_event(StartupEvent::RepoProgress(50)),
        vec![StartupAction::ShowRepoUpdate { progress: 50 }]
    );
    assert_eq!(
        startup.on_event(StartupEvent::RepoProgress(20)),
        vec![StartupAction::ShowRepoUpdate { progress: 50 }]
    );
    assert_eq!(startup.on_event(StartupEvent::BackendReady), vec![]);
    assert_eq!(
        startup.on_event(StartupEvent::RepoReady),
        vec![
            StartupAction::ShowStatus { status: StartupStatus::StartingBackend, progress: 97 },
            StartupAction::LaunchBackend,
        ]
    );
    assert_eq!(
        startup.on_event(StartupEvent::BackendReady),
        vec![
            StartupAction::KeepBackend,
            StartupAction::WatchBackend,
            StartupAction::ShowStatus { status: StartupStatus::Opening, progress: 100 },
            StartupAction::DestroySplash,
            StartupAction::OpenMainWindow,
            StartupAction::RevealMainWindow,
            StartupAction::CompleteSetup,
        ]
    );
    assert_eq!(startup.phase, StartupPhase::Done);
    assert_eq!(startup.on_event(StartupEvent::Ready), vec![]);
}

#[test]
fn a_startup_into_the_tray_shows_its_errors() {
    let mut startup = Startup::new(options(false, false, true));
    assert_eq!(
        startup.on_event(StartupEvent::Ready)[0],
        StartupAction::LoadSplash { visible: false }
    );
    let mut failing = startup;
    assert_eq!(
        failing.on_event(StartupEvent::RepoFailed { cancelled: false }),
        vec![
            StartupAction::RevealSplash,
            StartupAction::ShowStatus { status: StartupStatus::RepoFailed, progress: 8 },
        ]
    );
    assert_eq!(failing.phase, StartupPhase::Done);
    let mut cancelled = startup;
    assert_eq!(cancelled.on_event(StartupEvent::RepoFailed { cancelled: true }), vec![]);
    assert_eq!(cancelled.phase, StartupPhase::Done);

    startup.on_event(StartupEvent::RepoReady);
    let mut failing = startup;
    assert_eq!(
        failing.on_event(StartupEvent::BackendFailed { cancelled: false }),
        vec![
            StartupAction::RevealSplash,
            StartupAction::ShowStatus { status: StartupStatus::BackendFailed, progress: 97 },
        ]
    );
    let mut cancelled = startup;
    assert_eq!(cancelled.on_event(StartupEvent::BackendFailed { cancelled: true }), vec![]);
    let actions = startup.on_event(StartupEvent::BackendReady);
    assert_eq!(actions[5], StartupAction::HideMainWindow);
}

#[test]
fn a_preview_starts_nothing() {
    let mut startup = Startup::new(options(true, true, false));
    assert_eq!(
        startup.on_event(StartupEvent::Ready),
        vec![
            StartupAction::LoadSplash { visible: true },
            StartupAction::ShowStatus { status: StartupStatus::Starting, progress: 4 },
            StartupAction::ShowStatus { status: StartupStatus::PreviewCrash, progress: 42 },
            StartupAction::CompleteSetup,
        ]
    );
    for event in [StartupEvent::RepoReady, StartupEvent::BackendReady, StartupEvent::Ready] {
        assert_eq!(startup.on_event(event), vec![]);
    }
    assert_eq!(startup.last_progress, 42);
    assert_eq!(startup.advance(41), 42);
    assert_eq!(startup.advance(43), 43);
}

#[test]
fn statuses_are_told_in_words() {
    let text = StartupText {
        starting: "starting".to_owned(),
        webui_init: "init".to_owned(),
        initializing: "initializing".to_owned(),
        startup_failed: "failed".to_owned(),
        preview_crash_detail: "preview".to_owned(),
        preview_crash_mode: "mode".to_owned(),
        webui_init_slow: "slow".to_owned(),
        starting_backend: "backend".to_owned(),
        opening: "opening".to_owned(),
        ready: "ready".to_owned(),
        startup_complete: "complete".to_owned(),
    };
    for (status, title, detail, subtitle, error) in [
        (StartupStatus::Starting, "starting", "init", Some("initializing | Tips:t"), false),
        (StartupStatus::PreviewCrash, "failed", "preview", Some("mode | Tips：t"), true),
        (StartupStatus::RepoFailed, "failed", "why", None, true),
        (StartupStatus::StartingBackend, "starting", "slow", Some("backend | Tips:t"), false),
        (StartupStatus::BackendFailed, "failed", "why", None, true),
        (StartupStatus::Opening, "opening", "ready", Some("complete | Tips:t"), false),
    ] {
        let update = status_update(status, 12, &text, "t", "why");
        assert_eq!(update.title, title);
        assert_eq!(update.detail, detail);
        assert_eq!(update.subtitle.as_deref(), subtitle);
        assert_eq!(update.progress, 12);
        assert_eq!(update.is_error, error);
        assert_eq!(status.is_error(), error);
        assert!(update.uv_progress.is_none());
    }
    let mut update = SplashUpdate::loading("a".to_owned(), "b".to_owned(), 3);
    update.uv_progress = Some(UvProgress { progress: 5, detail: "c".to_owned() });
    let update = update.at_progress(9);
    assert_eq!(update.progress, 9);
    assert_eq!(update.uv_progress.unwrap().progress, 5);
}
