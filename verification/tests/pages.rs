use alas_launcher::address::{backend_error_url, parse_url};
use alas_launcher::error_page::{backend_error_html, backend_error_response, ErrorPageText};
use alas_launcher::html::escape_html;
use alas_launcher::injection::{page_load_injector, splash_update_script, PageLoad};
use alas_launcher::page::PageAssets;
use alas_launcher::platform::Platform;
use alas_launcher::splash_page::{splash_redesigned_shell_html, splash_response, SplashText};
use alas_launcher::template::{fill_in_turn, template_text, TemplatePiece};
use alas_launcher::titlebar::{main_window_titlebar_injection_script, TitlebarText};

fn text(value: &str) -> String {
    value.to_owned()
}

fn splash_text() -> SplashText {
    SplashText {
        default_tip: text("Sakura Empire's cherry blossoms never fade."),
        loading_badge: text("Loading"),
        webui_init: text("Preparing <WebUI>"),
        starting: text("Starting"),
        error_badge: text("Error"),
        init_stopped: text("Stopped"),
        progress_meta_ready: text("Ready & waiting"),
        preparing_log: text("Preparing log"),
        log_saved_prefix: text("Saved: "),
        log_failed: text("Failed: "),
        initializing: text("Initializing"),
        minimize: text("Minimize"),
        close: text("Close"),
        download_log: text("Download \"log\""),
    }
}

fn titlebar_text() -> TitlebarText {
    TitlebarText {
        minimize_to_tray: text("To tray"),
        minimize_window: text("Minimize window"),
        minimize: text("Minimize"),
        maximize_restore_window: text("Maximize or restore"),
        maximize: text("Maximize"),
        close_window: text("Close window"),
        close: text("Close"),
        restore: text("Restore"),
        maximize_action: text("Maximize it"),
        restore_window: text("Restore window"),
        maximize_window: text("Maximize window"),
    }
}

fn error_text() -> ErrorPageText {
    ErrorPageText {
        title: text("No connection"),
        heading: text("The backend is away"),
        description: text("It will be back."),
        address: text("Address"),
        error_label: text("Error"),
        retry: text("Retry"),
        download_gui_log: text("GUI log"),
        download_launcher_log: text("Launcher log"),
        connection_info: text("Connection"),
        reconnecting: text("Reconnecting"),
        still_failed: text("Still away"),
        retry_failed: text("Retry failed: "),
        preparing: text("Preparing %{label}"),
        saved: text("Saved %{filename}"),
        download_failed: text("Failed %{label}: "),
        unable_connect: text("Unable to connect"),
    }
}

fn splash(video: &str, font: &str) -> String {
    splash_redesigned_shell_html(video, font, Platform::Linux, "1.2.3", &splash_text())
}

#[test]
fn test_english_splash_i18n_uses_json_literals() {
    let html = splash("video", "font");

    assert!(html.contains(r#""defaultTip":"Sakura Empire's cherry blossoms"#));
    assert!(!html.contains("const defaultTip = '"));
    assert!(html.contains("window.__ALAS_SPLASH_READY = true;"));
    assert!(html.contains("data:video/mp4;base64,video"));
    assert!(html.contains("font-family: \"MiSans\""));
    assert!(html.contains("data:font/ttf;base64,font"));
    assert!(!html.contains("text-transform: uppercase;"));
}

#[test]
fn test_splash_includes_optional_uv_progress() {
    let html = splash("video", "font");

    assert!(html.contains("data:video/mp4;base64,video"));
    assert!(html.contains("id=\"uv-progress-container\""));
    assert!(html.contains("payload.uv_progress"));
    assert!(html.contains("id=\"uv-progress-detail\""));
    assert!(html.contains("grid-template-columns: minmax(0, 1fr) auto"));
    assert!(html.contains("background: rgba(250, 250, 247, 0.78)"));
    assert!(html.contains("content: \"✦\""));
    assert!(!html.contains("'Tips: ' + subtitle.tip"));
    assert!(!html.contains("animation: sweep"));
}

#[test]
fn test_titlebars_use_webview_draggable_regions_for_touch_dragging() {
    let splash_html =
        splash_redesigned_shell_html("video", "font", Platform::Windows, "1.2.3", &splash_text());

    assert!(splash_html.contains("touch-action: none;"));
    assert!(splash_html.contains("addEventListener('pointerdown'"));
    assert!(splash_html.contains("-webkit-app-region: drag;"));
    assert!(splash_html.contains("-webkit-app-region: no-drag;"));
    assert!(splash_html.contains("webviewDraggableRegionsEnabled"));
    assert!(splash_html.contains("if (webviewDraggableRegionsEnabled) {"));
    assert!(!splash_html.contains("$NATIVE_TOUCH_DRAG"));
    assert!(splash_html.contains("const webviewDraggableRegionsEnabled = true;"));

    let titlebar_script =
        main_window_titlebar_injection_script(Platform::Windows, &titlebar_text());

    assert!(titlebar_script.contains("touch-action:none"));
    assert!(titlebar_script.contains("addEventListener('pointerdown'"));
    assert!(titlebar_script.contains("-webkit-app-region:drag"));
    assert!(titlebar_script.contains("-webkit-app-region:no-drag"));
    assert!(titlebar_script.contains("webviewDraggableRegionsEnabled"));
    assert!(titlebar_script.contains("if (webviewDraggableRegionsEnabled)"));
    assert!(titlebar_script.contains(
        ".alas-titlebar-drag-zone{position:absolute;inset:0 148px 0 0;height:100%;pointer-events:none"
    ));
    assert!(titlebar_script.contains(".alas-titlebar-drag-segment{"));
    assert!(titlebar_script.contains("const rebuildDragSegments = () =>"));
    assert!(titlebar_script.contains("getComputedStyle(element).cursor !== 'pointer'"));
    assert!(titlebar_script.contains("dragZone.replaceChildren(fragment)"));
    assert!(titlebar_script.contains("min-height:28px"));
    assert!(titlebar_script.contains("background:rgba(250,250,247,.78)"));
    assert!(titlebar_script.contains(".icon-close{color:#e64f58}"));
    assert!(titlebar_script.contains("--alas-titlebar-height:56px"));
    assert!(titlebar_script.contains("transform:translateY(-6px) scale(.96)"));
    assert!(!titlebar_script.contains("scale(.72)"));
    assert!(titlebar_script.contains("alas-close-menu"));
    assert!(!titlebar_script.contains("alas-close-optics"));
    assert!(!titlebar_script.contains("alas-island-open"));
    assert!(titlebar_script.contains("__ALAS_OPEN_CLOSE_PROMPT"));
    assert!(titlebar_script.contains("window_exit_application"));
    assert!(titlebar_script.contains("const webviewDraggableRegionsEnabled = true;"));
}

#[test]
fn splash_page_is_filled_and_escaped() {
    let html = splash("dmlkZW8=", "Zm9udA==");
    for name in [
        "$VIDEO_BG",
        "$MI_SANS_FONT",
        "$LAUNCHER_VERSION",
        "$I18N_JSON",
        "$NATIVE_TOUCH_DRAG",
        "$I18N_INITIALIZING",
        "$I18N_MINIMIZE",
        "$I18N_CLOSE",
        "$I18N_STARTING",
        "$I18N_WEBUI_INIT",
        "$I18N_DEFAULT_TIP",
        "$I18N_PROGRESS_META",
        "$I18N_DOWNLOAD_LOG",
    ] {
        assert!(!html.contains(name), "{}", name);
    }
    assert!(html.contains("<span class=\"app-version\">v1.2.3</span>"));
    assert!(html.contains("const webviewDraggableRegionsEnabled = false;"));
    assert!(html.contains("class=\"sub-action-text\">Preparing &lt;WebUI&gt;</p>"));
    assert!(html.contains("class=\"tip-text\">Sakura Empire&#39;s cherry blossoms never fade.</div>"));
    assert!(html.contains("class=\"notice-text\">Ready &amp; waiting</div>"));
    assert!(html.contains("type=\"button\">Download &quot;log&quot;</button>"));
    assert!(html.contains("aria-label=\"Minimize\" title=\"Minimize\""));
    assert!(html.contains("aria-label=\"Close\" title=\"Close\""));
    assert!(html.contains(
        "const i18n = {\"defaultTip\":\"Sakura Empire's cherry blossoms never fade.\",\"errorBadge\":\"Error\",\"initStopped\":\"Stopped\",\"loading\":\"Loading\",\"logFailed\":\"Failed: \",\"logSavedPrefix\":\"Saved: \",\"preparingLog\":\"Preparing log\",\"progressMetaReady\":\"Ready & waiting\",\"starting\":\"Starting\",\"webuiInit\":\"Preparing <WebUI>\"};"
    ));
    assert!(html.starts_with("<!doctype html>\n<html lang=\"zh-CN\">"));
    assert!(html.ends_with("</html>"));
}

#[test]
fn a_value_with_a_slot_name_is_filled_by_later_slots_only() {
    let mut texts = splash_text();
    texts.starting = text("$I18N_DOWNLOAD_LOG");
    texts.download_log = text("$I18N_STARTING");
    let html = splash_redesigned_shell_html("", "", Platform::Linux, "", &texts);
    assert!(html.contains("class=\"main-action-text\">$I18N_STARTING</h1>"));
}

#[test]
fn splash_response_embeds_the_files_as_base64() {
    let assets = PageAssets { font: vec![1, 2, 3, 4], video: vec![255, 254] };
    let response = splash_response(&assets, Platform::MacOs, "9", &splash_text());
    assert_eq!(response.content_type, "text/html; charset=utf-8");
    assert!(response.body.contains("data:font/ttf;base64,AQIDBA==)"));
    assert!(response.body.contains("data:video/mp4;base64,//4=\""));
}

#[test]
fn templates_are_filled_in_turn() {
    let names = vec!["$A", "$B"];
    let pieces = vec![
        TemplatePiece::Text("1 "),
        TemplatePiece::Slot(1),
        TemplatePiece::Text(" 2 "),
        TemplatePiece::Slot(0),
        TemplatePiece::Slot(1),
    ];
    let template = template_text(&pieces, &names);
    assert_eq!(template, "1 $B 2 $A$B");
    let values = vec![text("x"), text("y")];
    assert_eq!(fill_in_turn(template, &names, &values), "1 y 2 xy");
}

#[test]
fn escaping_covers_the_five_characters() {
    assert_eq!(escape_html("<a href=\"x\">'&amp;'</a>"), "&lt;a href=&quot;x&quot;&gt;&#39;&amp;amp;&#39;&lt;/a&gt;");
    assert_eq!(escape_html(""), "");
    assert_eq!(escape_html("plain ✦"), "plain ✦");
}

#[test]
fn titlebar_is_left_to_macos() {
    assert_eq!(main_window_titlebar_injection_script(Platform::MacOs, &titlebar_text()), "");
    let script = main_window_titlebar_injection_script(Platform::Linux, &titlebar_text());
    for rule in [
        ".icon-hide{color:#a855f7}",
        ".icon-hide:hover{color:#7e22ce;filter:drop-shadow(0 0 5px #a855f7)}",
        ".icon-minimize{color:#0284c7}",
        ".icon-maximize{color:#10b981}",
        ".icon:active{transform:scale(.92)}",
    ] {
        assert!(script.contains(rule), "{}", rule);
    }
    assert!(script.starts_with("const i18n = {\"closeLabel\":\"Close window\",\"closeTitle\":\"Close\",\"hideLabel\":\"To tray\",\"maximizeActionTitle\":\"Maximize it\",\"maximizeLabel\":\"Maximize or restore\",\"maximizeLabelText\":\"Maximize window\",\"maximizeTitle\":\"Maximize\",\"minimizeLabel\":\"Minimize window\",\"minimizeTitle\":\"Minimize\",\"restoreLabel\":\"Restore window\",\"restoreTitle\":\"Restore\"};\n        const webviewDraggableRegionsEnabled = false;"));
}

#[test]
fn page_script_holds_the_titlebar() {
    assert!(page_load_injector(PageLoad::Started, Platform::Linux, &titlebar_text()).is_none());
    let titlebar = main_window_titlebar_injection_script(Platform::Linux, &titlebar_text());
    let script = page_load_injector(PageLoad::Finished, Platform::Linux, &titlebar_text()).unwrap();
    assert!(script.contains(&titlebar));
    assert!(script.starts_with("\nif (!window.alas_launcher_injected) {"));
    assert!(script.contains("tauriInvoke('save_as', { filename, data });"));
    assert!(script.ends_with("    })();\n}\n"));
    assert!(!script.contains("__ALAS_TITLEBAR_SCRIPT__"));
}

#[test]
fn splash_updates_are_wrapped_in_a_call() {
    assert_eq!(
        splash_update_script("{\"progress\":4}"),
        "window.__ALAS_SPLASH_UPDATE && window.__ALAS_SPLASH_UPDATE({\"progress\":4});"
    );
}

#[test]
fn error_page_shows_port_and_detail() {
    let assets = PageAssets { font: vec![102, 111, 110, 116], video: vec![118] };
    let html = backend_error_html(
        Platform::Windows,
        8080,
        "say \"no\"\n\u{1}",
        &assets,
        &error_text(),
        &titlebar_text(),
    );
    assert!(html.contains("<title>No connection</title>"));
    assert!(html.contains("const backendUrl = \"http://127.0.0.1:8080/\";"));
    assert!(html.contains("const errorDetail = \"say \\\"no\\\"\\n\\u0001\";"));
    assert!(html.contains("const port = 8080;"));
    assert!(html.contains("data:font/ttf;base64,Zm9udA==)"));
    assert!(html.contains("data:video/mp4;base64,dg==\""));
    assert!(html.contains("const i18n = {\"address\":\"Address\",\"description\":\"It will be back.\",\"downloadFailed\":\"Failed %{label}: \",\"downloadGuiLog\":\"GUI log\",\"downloadLauncherLog\":\"Launcher log\",\"errorLabel\":\"Error\",\"heading\":\"The backend is away\",\"preparing\":\"Preparing %{label}\",\"reconnecting\":\"Reconnecting\",\"retry\":\"Retry\",\"retryFailed\":\"Retry failed: \",\"saved\":\"Saved %{filename}\",\"stillFailed\":\"Still away\",\"title\":\"No connection\"};"));
    assert!(html.contains("downloadLog(guiLogButton, 'download_today_gui_log', 'GUI log');"));
    assert!(html.contains("<div class=\"footer\">AzurPilot · Connection</div>"));
    assert!(html.contains(&main_window_titlebar_injection_script(Platform::Windows, &titlebar_text())));
    assert!(html.contains("await invoke('retry_backend_connection', { port });"));
    assert!(html.ends_with("</html>"));
}

#[test]
fn error_address_leads_to_the_page_for_that_failure() {
    let assets = PageAssets { font: vec![], video: vec![] };
    for platform in [Platform::Windows, Platform::Linux] {
        let detail = "refused: a=1&b=2 #? 100% 连接 + \u{1F600}";
        let url = backend_error_url(platform, 22268, detail).unwrap();
        let response =
            backend_error_response(platform, &url, &assets, &error_text(), &titlebar_text());
        let expected =
            backend_error_html(platform, 22268, detail, &assets, &error_text(), &titlebar_text());
        assert_eq!(response.body, expected);
        assert_eq!(response.content_type, "text/html; charset=utf-8");
        assert!(parse_url(&url).is_ok());
    }
}

#[test]
fn error_page_falls_back_to_defaults() {
    let assets = PageAssets { font: vec![], video: vec![] };
    let response = backend_error_response(
        Platform::Linux,
        "not a url",
        &assets,
        &error_text(),
        &titlebar_text(),
    );
    assert!(response.body.contains("const port = 22267;"));
    assert!(response.body.contains("const errorDetail = \"Unable to connect\";"));
}
