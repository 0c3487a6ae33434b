//! The page that is shown while the backend cannot be reached.
use crate::address::{
    backend_error_request_params, backend_error_url, backend_url, is_countable, loopback, query_of,
    shown_detail, shown_port, UrlError,
};
use crate::encoding::{base64_encode, base64_text};
use crate::json::{
    json_object, json_object_text, json_string, json_string_text, keys_ascend,
    law_object_holds_its_members, pairs_view, parts_before,
};
use crate::page::{PageAssets, PageResponse, CONTENT_TYPE};
use crate::platform::Platform;
use crate::text::{
    decimal, decimal_text, join, joined, lemma_neighbours_occur, lemma_occurs_within_part,
    lemma_part_occurs, lemma_parts_stand_in_order, occurs_in, slices_view, stands_before,
};
use crate::titlebar::{main_window_titlebar_injection_script, titlebar_script, TitlebarText};
use vstd::prelude::*;

verus! {

/// The texts of the error page.
#[derive(Debug)]
pub struct ErrorPageText {
    pub title: String,
    pub heading: String,
    pub description: String,
    pub address: String,
    pub error_label: String,
    pub retry: String,
    pub download_gui_log: String,
    pub download_launcher_log: String,
    pub connection_info: String,
    pub reconnecting: String,
    pub still_failed: String,
    pub retry_failed: String,
    pub preparing: String,
    pub saved: String,
    pub download_failed: String,
    /// The detail of the error where the address of the page gives none.
    pub unable_connect: String,
}

/// The beginning of the page.
pub const HTML_HEAD: &'static str = r#"<!doctype html>
<html>
<head>
<meta charset="utf-8">
<meta name="viewport" content="width=device-width, initial-scale=1">
"#;

/// Opens the title.
pub const TITLE_OPEN: &'static str = "<title>";

/// Closes the title.
pub const TITLE_CLOSE: &'static str = "</title>";

/// The beginning of the style.
pub const STYLE_START: &'static str = r#"
<style>
  @font-face {
    font-family: "MiSans";
    "#;

/// Opens the font.
pub const FONT_OPEN: &'static str = "src: url(data:font/ttf;base64,";

/// Closes the font.
pub const FONT_CLOSE: &'static str = r#") format("truetype");"#;

/// The rest of the style.
pub const STYLE_REST: &'static str = r#"
    font-weight: 100 900;
    font-style: normal;
    font-display: swap;
  }
  :root {
    color-scheme: light;
    --bg: #f4f6f8;
    --surface: #ffffff;
    --surface-soft: #f8fafb;
    --line: #e5e9ee;
    --text: #17212b;
    --muted: #687582;
    --accent: #176b67;
    --accent-hover: #105854;
    --accent-soft: #e8f4f2;
    --danger: #b64545;
    --danger-soft: #fff1f0;
  }
  * {
    box-sizing: border-box;
  }
  html, body {
    width: 100%;
    min-height: 100%;
    margin: 0;
    font-family: "MiSans", sans-serif;
    font-weight: 420;
    font-synthesis: none;
    color: var(--text);
    background: #dfe7ea;
  }
  body {
    min-height: 100vh;
    display: flex;
    align-items: center;
    justify-content: center;
    padding: 72px 44px 44px;
    position: relative;
    isolation: isolate;
    overflow: hidden;
    background: transparent;
    animation: page-in 420ms cubic-bezier(0.22, 1, 0.36, 1) both;
  }
  .error-background-video {
    position: fixed;
    inset: 0;
    z-index: 0;
    width: 100%;
    height: 100%;
    object-fit: cover;
    opacity: 0.9;
    pointer-events: none;
  }
  .error-background-scrim {
    position: fixed;
    inset: 0;
    z-index: 1;
    background: rgba(244, 247, 248, 0.36);
    pointer-events: none;
  }
  .panel {
    position: relative;
    z-index: 2;
    display: grid;
    grid-template-columns: 190px minmax(0, 1fr);
    width: min(820px, 100%);
    min-height: 390px;
    overflow: hidden;
    border: 1px solid var(--line);
    border-radius: 14px;
    background: rgba(255, 255, 255, 0.76);
    backdrop-filter: blur(22px) saturate(1.08);
    box-shadow: 0 20px 48px rgba(23, 33, 43, 0.11), 0 2px 6px rgba(23, 33, 43, 0.04);
    animation: panel-in 520ms cubic-bezier(0.22, 1, 0.36, 1) 70ms both;
  }
  .signal {
    position: relative;
    display: flex;
    align-items: center;
    justify-content: center;
    background: var(--accent);
    color: #fff;
  }
  .signal::before, .signal::after {
    content: "";
    position: absolute;
    border: 1px solid rgba(255, 255, 255, 0.17);
    border-radius: 50%;
    opacity: 0;
    animation: signal-expand 3.2s ease-out infinite;
  }
  .signal::before { width: 76px; height: 76px; }
  .signal::after { width: 76px; height: 76px; animation-delay: 1.6s; }
  .signal-core {
    position: relative;
    z-index: 1;
    width: 76px;
    height: 76px;
    display: grid;
    place-items: center;
    border: 1px solid rgba(255, 255, 255, 0.45);
    border-radius: 50%;
    background: rgba(255, 255, 255, 0.12);
    animation: core-breathe 2.8s ease-in-out infinite;
  }
  .signal-core svg {
    width: 36px;
    height: 36px;
    fill: none;
    stroke: currentColor;
    stroke-linecap: round;
    stroke-linejoin: round;
    stroke-width: 1.7;
  }
  .content {
    display: flex;
    flex-direction: column;
    min-width: 0;
    padding: 38px 42px 32px;
    animation: content-in 500ms cubic-bezier(0.22, 1, 0.36, 1) 140ms both;
  }
  .eyebrow {
    display: flex;
    align-items: center;
    gap: 8px;
    color: var(--muted);
    font-size: 11px;
    font-weight: 620;
    letter-spacing: 1.2px;
    text-transform: uppercase;
  }
  .eyebrow::before {
    content: "";
    width: 7px;
    height: 7px;
    border-radius: 50%;
    background: var(--danger);
    box-shadow: 0 0 0 4px var(--danger-soft);
    animation: status-pulse 2s ease-in-out infinite;
  }
  h1 {
    max-width: 470px;
    margin: 16px 0 0;
    font-size: 30px;
    font-weight: 680;
    letter-spacing: -0.3px;
    line-height: 1.18;
  }
  .lead {
    max-width: 510px;
    margin: 12px 0 0;
    color: var(--muted);
    font-size: 14px;
    font-weight: 430;
    line-height: 1.65;
  }
  .details {
    margin: 24px 0 0;
    border: 1px solid var(--line);
    border-radius: 8px;
    overflow: hidden;
    background: var(--surface-soft);
  }
  .row {
    display: grid;
    grid-template-columns: 70px minmax(0, 1fr);
    gap: 14px;
    padding: 10px 13px;
    border-top: 1px solid var(--line);
    font-size: 12px;
    font-weight: 460;
    line-height: 1.5;
  }
  .row:first-child { border-top: 0; }
  .label { color: var(--muted); }
  .value {
    min-width: 0;
    overflow-wrap: anywhere;
    color: var(--text);
    font-family: inherit;
    font-weight: 500;
    font-variant-numeric: tabular-nums;
  }
  .actions {
    display: flex;
    align-items: center;
    gap: 9px;
    flex-wrap: wrap;
    margin-top: auto;
    padding-top: 24px;
  }
  button {
    min-height: 36px;
    border: 1px solid transparent;
    border-radius: 7px;
    padding: 0 13px;
    font: inherit;
    font-size: 12px;
    font-weight: 600;
    cursor: pointer;
    transition: background 140ms ease, border-color 140ms ease, color 140ms ease, opacity 140ms ease;
    will-change: transform;
  }
  button:hover { transform: translateY(-1px); }
  button:active { transform: translateY(0); }
  .action-button {
    color: #fff;
    background: var(--accent);
  }
  .action-button:hover { background: var(--accent-hover); }
  .secondary-button {
    color: var(--accent);
    border-color: #c5dfdc;
    background: var(--accent-soft);
  }
  .secondary-button:hover { background: #dcefeb; border-color: #a8d2cd; }
  button:disabled { cursor: default; opacity: 0.55; }
  button:disabled:hover { transform: none; }
  .status {
    flex: 1 1 100%;
    min-height: 18px;
    color: var(--muted);
    font-size: 12px;
    font-weight: 460;
  }
  .footer {
    margin-top: 16px;
    color: #9aa5ae;
    font-size: 11px;
    font-weight: 430;
  }
  @media (max-width: 680px) {
    body { padding: 62px 18px 24px; align-items: flex-start; }
    .panel { grid-template-columns: 1fr; min-height: 0; }
    .signal { min-height: 120px; }
    .signal::before { width: 76px; height: 76px; }
    .signal::after { width: 76px; height: 76px; }
    .content { padding: 28px 24px 24px; }
    h1 { font-size: 25px; }
    .actions { margin-top: 22px; }
    button { flex: 1 1 auto; }
  }
  @media (max-width: 420px) {
    .row { grid-template-columns: 1fr; gap: 3px; }
    button { width: 100%; }
  }
  @keyframes page-in { from { opacity: 0; } to { opacity: 1; } }
  @keyframes panel-in { from { opacity: 0; transform: translateY(12px) scale(0.985); } to { opacity: 1; transform: translateY(0) scale(1); } }
  @keyframes content-in { from { opacity: 0; transform: translateX(10px); } to { opacity: 1; transform: translateX(0); } }
  @keyframes signal-expand { 0% { opacity: 0.72; transform: scale(0.72); } 68% { opacity: 0.12; } 100% { opacity: 0; transform: scale(2.8); } }
  @keyframes core-breathe { 0%, 100% { transform: scale(1); } 50% { transform: scale(1.045); } }
  @keyframes status-pulse { 0%, 100% { opacity: 0.62; } 50% { opacity: 1; } }
  @media (prefers-reduced-motion: reduce) {
    *, *::before, *::after { animation-duration: 0.01ms !important; animation-iteration-count: 1 !important; transition-duration: 0.01ms !important; }
  }
</style>
</head>
<body>
  <video class="error-background-video" autoplay muted loop playsinline preload="auto" aria-hidden="true">
    "#;

/// Opens the background video.
pub const VIDEO_OPEN: &'static str = r#"<source src="data:video/mp4;base64,"#;

/// Closes the background video.
pub const VIDEO_CLOSE: &'static str = r#"" type="video/mp4">"#;

/// The beginning of the panel.
pub const PANEL_START: &'static str = r#"
  </video>
  <div class="error-background-scrim" aria-hidden="true"></div>
  <main class="panel">
    <div class="signal" aria-hidden="true">
      <div class="signal-core">
        <svg viewBox="0 0 24 24"><path d="M12 8v4m0 4h.01"/><path d="M10.3 3.9 2.8 17a2 2 0 0 0 1.7 3h15a2 2 0 0 0 1.7-3L13.7 3.9a2 2 0 0 0-3.4 0Z"/></svg>
      </div>
    </div>
    <div class="content">
      "#;

/// Opens the line above the heading.
pub const EYEBROW_OPEN: &'static str = r#"<div class="eyebrow">"#;

/// Closes a block.
pub const DIV_CLOSE: &'static str = "</div>";

/// Between the lines of the panel.
pub const LINE: &'static str = r#"
      "#;

/// Opens the heading.
pub const HEADING_OPEN: &'static str = "<h1>";

/// Closes the heading.
pub const HEADING_CLOSE: &'static str = "</h1>";

/// Opens the description.
pub const LEAD_OPEN: &'static str = r#"<p class="lead">"#;

/// Closes the description.
pub const LEAD_CLOSE: &'static str = "</p>";

/// Opens the connection details, which have a name.
pub const DETAILS_OPEN: &'static str = r#"<section class="details" aria-label=""#;

/// Ends the name of the connection details.
pub const DETAILS_NAMED: &'static str = r#"">"#;

/// The row of the address.
pub const ADDRESS_ROW: &'static str = r#"
        <div class="row">
          "#;

/// Opens the label of a row.
pub const LABEL_OPEN: &'static str = r#"<div class="label">"#;

/// Closes a label and holds the address.
pub const ADDRESS_VALUE: &'static str = r#"</div>
          <div id="backend-url" class="value"></div>"#;

/// The row of the error.
pub const ERROR_ROW: &'static str = r#"
        </div>
        <div class="row">
          "#;

/// Closes a label and holds the detail of the error.
pub const ERROR_VALUE: &'static str = r#"</div>
          <div id="error-detail" class="value"></div>"#;

/// The beginning of the buttons.
pub const ACTIONS_START: &'static str = r#"
        </div>
      </section>
      <div class="actions">
        "#;

/// Opens the retry button.
pub const RETRY_OPEN: &'static str = r#"<button id="retry-button" class="action-button" type="button">"#;

/// Closes a button.
pub const BUTTON_CLOSE: &'static str = "</button>";

/// Between the buttons.
pub const BUTTON_LINE: &'static str = r#"
        "#;

/// Opens the button for the log of the web interface.
pub const GUI_LOG_OPEN: &'static str = r#"<button id="gui-log-button" class="secondary-button" type="button">"#;

/// Opens the button for the log of the launcher.
pub const LAUNCHER_LOG_OPEN: &'static str = r#"<button id="launcher-log-button" class="secondary-button" type="button">"#;

/// The status of a retry.
pub const STATUS_LINE: &'static str = r#"
        <span id="retry-status" class="status"></span>
      </div>
      "#;

/// Opens the footer.
pub const FOOTER_OPEN: &'static str = r#"<div class="footer">AzurPilot · "#;

/// The end of the panel and the beginning of the script.
pub const SCRIPT_START: &'static str = r#"
    </div>
  </main>
  <script>
    "#;

/// Opens the title bar script.
pub const TITLEBAR_OPEN: &'static str = r#"(function () {
"#;

/// Closes the title bar script.
pub const TITLEBAR_CLOSE: &'static str = r#"
    })();"#;

/// Before the texts that the script reads.
pub const BEFORE_TEXTS: &'static str = r#"

    "#;

/// Opens the texts that the script reads.
pub const TEXTS_OPEN: &'static str = "const i18n = ";

/// Ends a statement.
pub const STATEMENT_END: &'static str = ";";

/// Between two statements.
pub const NEXT_STATEMENT: &'static str = r#"
    "#;

/// Opens the address of the backend.
pub const BACKEND_URL_OPEN: &'static str = "const backendUrl = ";

/// Opens the detail of the error.
pub const DETAIL_OPEN: &'static str = "const errorDetail = ";

/// Opens the port.
pub const PORT_OPEN: &'static str = "const port = ";

/// Finds the retry button.
pub const RETRY_BUTTON: &'static str = "const retryButton = document.getElementById('retry-button');";

/// Finds the button for the log of the web interface.
pub const GUI_LOG_BUTTON: &'static str = "const guiLogButton = document.getElementById('gui-log-button');";

/// Finds the button for the log of the launcher.
pub const LAUNCHER_LOG_BUTTON: &'static str = "const launcherLogButton = document.getElementById('launcher-log-button');";

/// Finds the status of a retry.
pub const RETRY_STATUS: &'static str = "const retryStatus = document.getElementById('retry-status');";

/// Finds the way to call the launcher.
pub const FIND_INVOKE: &'static str = r#"
    const invoke =
      (window.__TAURI__ && window.__TAURI__.core && window.__TAURI__.core.invoke)
      || (window.__TAURI_INTERNALS__ && window.__TAURI_INTERNALS__.invoke);

    "#;

/// Shows the address.
pub const SHOW_ADDRESS: &'static str = "document.getElementById('backend-url').textContent = backendUrl;";

/// Shows the detail of the error.
pub const SHOW_DETAIL: &'static str = "document.getElementById('error-detail').textContent = errorDetail;";

/// Between two blocks of the script.
pub const BETWEEN_BLOCKS: &'static str = r#"

    "#;

/// Listens to the retry button.
pub const RETRY_ON_CLICK: &'static str = "retryButton.addEventListener('click', async () => {";

/// What a retry does first.
pub const RETRY_BEGINS: &'static str = r#"
      retryButton.disabled = true;
      retryStatus.textContent = i18n.reconnecting;
      try {
        if (typeof invoke !== 'function') {
          throw new Error('Tauri invoke is unavailable');
        }
        "#;

/// Retries the connection.
pub const RETRY_COMMAND: &'static str = "const connected = await invoke('retry_backend_connection', { port });";

/// Before what a failed retry leads to.
pub const RETRY_ANSWERED: &'static str = r#"
        "#;

/// What a failed retry leads to.
pub const RETRY_FAILED: &'static str = r#"if (!connected) {
          retryStatus.textContent = i18n.stillFailed;
          retryButton.disabled = false;
        }"#;

/// What a broken retry leads to.
pub const RETRY_ENDS: &'static str = r#"
      } catch (error) {
        retryStatus.textContent = i18n.retryFailed + (error && error.message ? error.message : error);
        retryButton.disabled = false;
      }
    });

    "#;

/// Downloads a log.
pub const DOWNLOAD_LOG: &'static str = "async function downloadLog(button, command, label) {";

/// What a download does first.
pub const DOWNLOAD_BEGINS: &'static str = r#"
      button.disabled = true;
      retryStatus.textContent = i18n.preparing.replace('%{label}', label);
      try {
        if (typeof invoke !== 'function') {
          throw new Error('Tauri invoke is unavailable');
        }
        "#;

/// Asks the launcher for a log and tells its name.
pub const DOWNLOAD_COMMAND: &'static str = r#"const filename = await invoke(command);
        retryStatus.textContent = i18n.saved.replace('%{filename}', filename);"#;

/// What a broken download leads to.
pub const DOWNLOAD_ENDS: &'static str = r#"
      } catch (error) {
        retryStatus.textContent = i18n.downloadFailed.replace('%{label}', label) + (error && error.message ? error.message : error);
      } finally {
        button.disabled = false;
      }
    }

    "#;

/// Listens to the button for the log of the web interface.
pub const GUI_LOG_ON_CLICK: &'static str = r#"guiLogButton.addEventListener('click', () => {
      downloadLog(guiLogButton, 'download_today_gui_log', '"#;

/// Ends the listening to a log button.
pub const LOG_ON_CLICK_END: &'static str = r#"');
    });"#;

/// Listens to the button for the log of the launcher.
pub const LAUNCHER_LOG_ON_CLICK: &'static str = r#"launcherLogButton.addEventListener('click', () => {
      downloadLog(launcherLogButton, 'download_today_launcher_log', '"#;

/// Before the retry by itself.
pub const BEFORE_AUTO_RETRY: &'static str = r#"

    // 每秒尝试自动刷新（重试连接）
    "#;

/// Retries every second.
pub const AUTO_RETRY: &'static str = r#"setInterval(() => {
      if (!retryButton.disabled) {
        retryButton.click();
      }
    }, 1000);"#;

/// The end of the page.
pub const HTML_END: &'static str = r#"
  </script>
</body>
</html>"#;

/// The texts under the names that the script of the page reads them by.
pub open spec fn error_page_members(text: ErrorPageText) -> Seq<(Seq<char>, Seq<char>)> {
    seq![
        ("address"@, text.address@),
        ("description"@, text.description@),
        ("downloadFailed"@, text.download_failed@),
        ("downloadGuiLog"@, text.download_gui_log@),
        ("downloadLauncherLog"@, text.download_launcher_log@),
        ("errorLabel"@, text.error_label@),
        ("heading"@, text.heading@),
        ("preparing"@, text.preparing@),
        ("reconnecting"@, text.reconnecting@),
        ("retry"@, text.retry@),
        ("retryFailed"@, text.retry_failed@),
        ("saved"@, text.saved@),
        ("stillFailed"@, text.still_failed@),
        ("title"@, text.title@),
    ]
}

/// The parts of the error page for a backend at `port` that cannot be reached
/// because of `error_detail`.
pub open spec fn error_page_parts(
    platform: Platform,
    port: u16,
    error_detail: Seq<char>,
    assets: &PageAssets,
    text: &ErrorPageText,
    titlebar: &TitlebarText,
) -> Seq<Seq<char>> {
    seq![
        HTML_HEAD@,
        TITLE_OPEN@,
        text.title@,
        TITLE_CLOSE@,
        STYLE_START@,
        FONT_OPEN@,
        base64_text(assets.font@),
        FONT_CLOSE@,
        STYLE_REST@,
        VIDEO_OPEN@,
        base64_text(assets.video@),
        VIDEO_CLOSE@,
        PANEL_START@,
        EYEBROW_OPEN@,
        text.error_label@,
        DIV_CLOSE@,
        LINE@,
        HEADING_OPEN@,
        text.heading@,
        HEADING_CLOSE@,
        LINE@,
        LEAD_OPEN@,
        text.description@,
        LEAD_CLOSE@,
        LINE@,
        DETAILS_OPEN@,
        text.connection_info@,
        DETAILS_NAMED@,
        ADDRESS_ROW@,
        LABEL_OPEN@,
        text.address@,
        ADDRESS_VALUE@,
        ERROR_ROW@,
        LABEL_OPEN@,
        text.error_label@,
        ERROR_VALUE@,
        ACTIONS_START@,
        RETRY_OPEN@,
        text.retry@,
        BUTTON_CLOSE@,
        BUTTON_LINE@,
        GUI_LOG_OPEN@,
        text.download_gui_log@,
        BUTTON_CLOSE@,
        BUTTON_LINE@,
        LAUNCHER_LOG_OPEN@,
        text.download_launcher_log@,
        BUTTON_CLOSE@,
        STATUS_LINE@,
        FOOTER_OPEN@,
        text.connection_info@,
        DIV_CLOSE@,
        SCRIPT_START@,
        TITLEBAR_OPEN@,
        titlebar_script(platform, *titlebar),
        TITLEBAR_CLOSE@,
        BEFORE_TEXTS@,
        TEXTS_OPEN@,
        json_object(error_page_members(*text)),
        STATEMENT_END@,
        NEXT_STATEMENT@,
        BACKEND_URL_OPEN@,
        json_string(loopback(port)),
        STATEMENT_END@,
        NEXT_STATEMENT@,
        DETAIL_OPEN@,
        json_string(error_detail),
        STATEMENT_END@,
        NEXT_STATEMENT@,
        PORT_OPEN@,
        decimal(port as nat),
        STATEMENT_END@,
        NEXT_STATEMENT@,
        RETRY_BUTTON@,
        NEXT_STATEMENT@,
        GUI_LOG_BUTTON@,
        NEXT_STATEMENT@,
        LAUNCHER_LOG_BUTTON@,
        NEXT_STATEMENT@,
        RETRY_STATUS@,
        FIND_INVOKE@,
        SHOW_ADDRESS@,
        NEXT_STATEMENT@,
        SHOW_DETAIL@,
        BETWEEN_BLOCKS@,
        RETRY_ON_CLICK@,
        RETRY_BEGINS@,
        RETRY_COMMAND@,
        RETRY_ANSWERED@,
        RETRY_FAILED@,
        RETRY_ENDS@,
        DOWNLOAD_LOG@,
        DOWNLOAD_BEGINS@,
        DOWNLOAD_COMMAND@,
        DOWNLOAD_ENDS@,
        GUI_LOG_ON_CLICK@,
        text.download_gui_log@,
        LOG_ON_CLICK_END@,
        BETWEEN_BLOCKS@,
        LAUNCHER_LOG_ON_CLICK@,
        text.download_launcher_log@,
        LOG_ON_CLICK_END@,
        BEFORE_AUTO_RETRY@,
        AUTO_RETRY@,
        HTML_END@,
    ]
}

/// The error page for a backend at `port` that cannot be reached because of
/// `error_detail`.
pub open spec fn error_page(
    platform: Platform,
    port: u16,
    error_detail: Seq<char>,
    assets: &PageAssets,
    text: &ErrorPageText,
    titlebar: &TitlebarText,
) -> Seq<char> {
    joined(error_page_parts(platform, port, error_detail, assets, text, titlebar))
}

proof fn lemma_error_page_members_ascend(text: ErrorPageText)
    ensures
        keys_ascend(error_page_members(text)),
{
    reveal_strlit("address");
    reveal_strlit("description");
    reveal_strlit("downloadFailed");
    reveal_strlit("downloadGuiLog");
    reveal_strlit("downloadLauncherLog");
    reveal_strlit("errorLabel");
    reveal_strlit("heading");
    reveal_strlit("preparing");
    reveal_strlit("reconnecting");
    reveal_strlit("retry");
    reveal_strlit("retryFailed");
    reveal_strlit("saved");
    reveal_strlit("stillFailed");
    reveal_strlit("title");
    let members = error_page_members(text);
    assert forall|i: int| 0 <= i < members.len() - 1 implies exists|at: int| #[trigger]
        parts_before((#[trigger] members[i]).0, members[i + 1].0, at) by {
        if i == 0 {
            assert("address"@.take(0) =~= "description"@.take(0));
            assert(parts_before(members[i].0, members[i + 1].0, 0));
        } else if i == 1 {
            assert("description"@.take(1) =~= "downloadFailed"@.take(1));
            assert(parts_before(members[i].0, members[i + 1].0, 1));
        } else if i == 2 {
            assert("downloadFailed"@.take(8) =~= "downloadGuiLog"@.take(8));
            assert(parts_before(members[i].0, members[i + 1].0, 8));
        } else if i == 3 {
            assert("downloadGuiLog"@.take(8) =~= "downloadLauncherLog"@.take(8));
            assert(parts_before(members[i].0, members[i + 1].0, 8));
        } else if i == 4 {
            assert("downloadLauncherLog"@.take(0) =~= "errorLabel"@.take(0));
            assert(parts_before(members[i].0, members[i + 1].0, 0));
        } else if i == 5 {
            assert("errorLabel"@.take(0) =~= "heading"@.take(0));
            assert(parts_before(members[i].0, members[i + 1].0, 0));
        } else if i == 6 {
            assert("heading"@.take(0) =~= "preparing"@.take(0));
            assert(parts_before(members[i].0, members[i + 1].0, 0));
        } else if i == 7 {
            assert("preparing"@.take(0) =~= "reconnecting"@.take(0));
            assert(parts_before(members[i].0, members[i + 1].0, 0));
        } else if i == 8 {
            assert("reconnecting"@.take(2) =~= "retry"@.take(2));
            assert(parts_before(members[i].0, members[i + 1].0, 2));
        } else if i == 9 {
            assert("retry"@.take(5) =~= "retryFailed"@.take(5));
            assert(parts_before(members[i].0, members[i + 1].0, 5));
        } else if i == 10 {
            assert("retryFailed"@.take(0) =~= "saved"@.take(0));
            assert(parts_before(members[i].0, members[i + 1].0, 0));
        } else if i == 11 {
            assert("saved"@.take(1) =~= "stillFailed"@.take(1));
            assert(parts_before(members[i].0, members[i + 1].0, 1));
        } else {
            assert("stillFailed"@.take(0) =~= "title"@.take(0));
            assert(parts_before(members[i].0, members[i + 1].0, 0));
        }
    }
}

/// Writes the error page for a backend that cannot be reached.
pub fn backend_error_html(
    platform: Platform,
    port: u16,
    error_detail: &str,
    assets: &PageAssets,
    text: &ErrorPageText,
    titlebar: &TitlebarText,
) -> (page: String)
    requires
        assets.encodable(),
    ensures
        page@ == error_page(platform, port, error_detail@, assets, text, titlebar),
{
    let address = json_string_text(backend_url(port).as_str());
    let detail = json_string_text(error_detail);
    let font = base64_encode(assets.font.as_slice());
    let video = base64_encode(assets.video.as_slice());
    let script = main_window_titlebar_injection_script(platform, titlebar);
    let mut members: Vec<(String, String)> = Vec::new();
    members.push(("address".to_owned(), text.address.clone()));
    members.push(("description".to_owned(), text.description.clone()));
    members.push(("downloadFailed".to_owned(), text.download_failed.clone()));
    members.push(("downloadGuiLog".to_owned(), text.download_gui_log.clone()));
    members.push(("downloadLauncherLog".to_owned(), text.download_launcher_log.clone()));
    members.push(("errorLabel".to_owned(), text.error_label.clone()));
    members.push(("heading".to_owned(), text.heading.clone()));
    members.push(("preparing".to_owned(), text.preparing.clone()));
    members.push(("reconnecting".to_owned(), text.reconnecting.clone()));
    members.push(("retry".to_owned(), text.retry.clone()));
    members.push(("retryFailed".to_owned(), text.retry_failed.clone()));
    members.push(("saved".to_owned(), text.saved.clone()));
    members.push(("stillFailed".to_owned(), text.still_failed.clone()));
    members.push(("title".to_owned(), text.title.clone()));
    proof {
        assert(pairs_view(members@) =~= error_page_members(*text));
        lemma_error_page_members_ascend(*text);
    }
    let texts = json_object_text(&members);
    let number = decimal_text(port);
    let parts: Vec<&str> = vec![
        HTML_HEAD,
        TITLE_OPEN,
        text.title.as_str(),
        TITLE_CLOSE,
        STYLE_START,
        FONT_OPEN,
        font.as_str(),
        FONT_CLOSE,
        STYLE_REST,
        VIDEO_OPEN,
        video.as_str(),
        VIDEO_CLOSE,
        PANEL_START,
        EYEBROW_OPEN,
        text.error_label.as_str(),
        DIV_CLOSE,
        LINE,
        HEADING_OPEN,
        text.heading.as_str(),
        HEADING_CLOSE,
        LINE,
        LEAD_OPEN,
        text.description.as_str(),
        LEAD_CLOSE,
        LINE,
        DETAILS_OPEN,
        text.connection_info.as_str(),
        DETAILS_NAMED,
        ADDRESS_ROW,
        LABEL_OPEN,
        text.address.as_str(),
        ADDRESS_VALUE,
        ERROR_ROW,
        LABEL_OPEN,
        text.error_label.as_str(),
        ERROR_VALUE,
        ACTIONS_START,
        RETRY_OPEN,
        text.retry.as_str(),
        BUTTON_CLOSE,
        BUTTON_LINE,
        GUI_LOG_OPEN,
        text.download_gui_log.as_str(),
        BUTTON_CLOSE,
        BUTTON_LINE,
        LAUNCHER_LOG_OPEN,
        text.download_launcher_log.as_str(),
        BUTTON_CLOSE,
        STATUS_LINE,
        FOOTER_OPEN,
        text.connection_info.as_str(),
        DIV_CLOSE,
        SCRIPT_START,
        TITLEBAR_OPEN,
        script.as_str(),
        TITLEBAR_CLOSE,
        BEFORE_TEXTS,
        TEXTS_OPEN,
        texts.as_str(),
        STATEMENT_END,
        NEXT_STATEMENT,
        BACKEND_URL_OPEN,
        address.as_str(),
        STATEMENT_END,
        NEXT_STATEMENT,
        DETAIL_OPEN,
        detail.as_str(),
        STATEMENT_END,
        NEXT_STATEMENT,
        PORT_OPEN,
        number.as_str(),
        STATEMENT_END,
        NEXT_STATEMENT,
        RETRY_BUTTON,
        NEXT_STATEMENT,
        GUI_LOG_BUTTON,
        NEXT_STATEMENT,
        LAUNCHER_LOG_BUTTON,
        NEXT_STATEMENT,
        RETRY_STATUS,
        FIND_INVOKE,
        SHOW_ADDRESS,
        NEXT_STATEMENT,
        SHOW_DETAIL,
        BETWEEN_BLOCKS,
        RETRY_ON_CLICK,
        RETRY_BEGINS,
        RETRY_COMMAND,
        RETRY_ANSWERED,
        RETRY_FAILED,
        RETRY_ENDS,
        DOWNLOAD_LOG,
        DOWNLOAD_BEGINS,
        DOWNLOAD_COMMAND,
        DOWNLOAD_ENDS,
        GUI_LOG_ON_CLICK,
        text.download_gui_log.as_str(),
        LOG_ON_CLICK_END,
        BETWEEN_BLOCKS,
        LAUNCHER_LOG_ON_CLICK,
        text.download_launcher_log.as_str(),
        LOG_ON_CLICK_END,
        BEFORE_AUTO_RETRY,
        AUTO_RETRY,
        HTML_END,
    ];
    proof {
        assert(slices_view(parts@) =~= error_page_parts(
            platform,
            port,
            error_detail@,
            assets,
            text,
            titlebar,
        ));
    }
    join(&parts)
}

/// Answers a request for the error page: the page for the port and the detail
/// that the address of the request gives.
pub fn backend_error_response(
    platform: Platform,
    uri: &str,
    assets: &PageAssets,
    text: &ErrorPageText,
    titlebar: &TitlebarText,
) -> (response: PageResponse)
    requires
        is_countable(uri@),
        assets.encodable(),
    ensures
        response.content_type@ == CONTENT_TYPE@,
        response.body@ == error_page(
            platform,
            shown_port(query_of(uri@)),
            shown_detail(query_of(uri@), text.unable_connect@),
            assets,
            text,
            titlebar,
        ),
{
    let (port, detail) = backend_error_request_params(uri, text.unable_connect.as_str());
    let body = backend_error_html(platform, port, detail.as_str(), assets, text, titlebar);
    PageResponse { content_type: CONTENT_TYPE, body }
}

/// Opening the address that `backend_error_url` makes for a port and a detail
/// shows the error page for that port and that detail.
pub proof fn law_error_address_shows_the_failure(
    platform: Platform,
    port: u16,
    error_detail: &str,
    url: Result<String, UrlError>,
    uri: &str,
    assets: &PageAssets,
    text: &ErrorPageText,
    titlebar: &TitlebarText,
    response: PageResponse,
)
    requires
        call_ensures(backend_error_url, (platform, port, error_detail), url),
        url matches Ok(address) && uri@ == address@,
        call_ensures(
            backend_error_response,
            (platform, uri, assets, text, titlebar),
            response,
        ),
    ensures
        response.body@ == error_page(platform, port, error_detail@, assets, text, titlebar),
{
}

/// Every text of the error page stands where it is meant to be read: in the title, the
/// heading, the description, the rows and the footer, and each button bears its own
/// label.
pub proof fn law_error_page_shows_its_texts(
    platform: Platform,
    port: u16,
    error_detail: &str,
    assets: &PageAssets,
    text: &ErrorPageText,
    titlebar: &TitlebarText,
    page: String,
)
    requires
        call_ensures(
            backend_error_html,
            (platform, port, error_detail, assets, text, titlebar),
            page,
        ),
    ensures
        occurs_in(page@, "<title>"@ + text.title@ + "</title>"@),
        occurs_in(page@, r#"<div class="eyebrow">"#@ + text.error_label@ + "</div>"@),
        occurs_in(page@, "<h1>"@ + text.heading@ + "</h1>"@),
        occurs_in(page@, r#"<p class="lead">"#@ + text.description@ + "</p>"@),
        occurs_in(page@, r#"<section class="details" aria-label=""#@ + text.connection_info@ + r#"">"#@),
        occurs_in(page@, r#"<div class="label">"#@ + text.address@ + r#"</div>
          <div id="backend-url" class="value"></div>"#@),
        occurs_in(page@, r#"<div class="label">"#@ + text.error_label@ + r#"</div>
          <div id="error-detail" class="value"></div>"#@),
        occurs_in(page@, r#"<button id="retry-button" class="action-button" type="button">"#@ + text.retry@ + "</button>"@),
        occurs_in(page@, r#"<button id="gui-log-button" class="secondary-button" type="button">"#@ + text.download_gui_log@ + "</button>"@),
        occurs_in(page@, r#"<button id="launcher-log-button" class="secondary-button" type="button">"#@ + text.download_launcher_log@ + "</button>"@),
        occurs_in(page@, r#"<div class="footer">AzurPilot · "#@ + text.connection_info@ + "</div>"@),
{
    let parts = error_page_parts(platform, port, error_detail@, assets, text, titlebar);
    lemma_neighbours_occur(parts, 1, TITLE_OPEN@, text.title@, TITLE_CLOSE@);
    lemma_neighbours_occur(parts, 13, EYEBROW_OPEN@, text.error_label@, DIV_CLOSE@);
    lemma_neighbours_occur(parts, 17, HEADING_OPEN@, text.heading@, HEADING_CLOSE@);
    lemma_neighbours_occur(parts, 21, LEAD_OPEN@, text.description@, LEAD_CLOSE@);
    lemma_neighbours_occur(parts, 25, DETAILS_OPEN@, text.connection_info@, DETAILS_NAMED@);
    lemma_neighbours_occur(parts, 29, LABEL_OPEN@, text.address@, ADDRESS_VALUE@);
    lemma_neighbours_occur(parts, 33, LABEL_OPEN@, text.error_label@, ERROR_VALUE@);
    lemma_neighbours_occur(parts, 37, RETRY_OPEN@, text.retry@, BUTTON_CLOSE@);
    lemma_neighbours_occur(parts, 41, GUI_LOG_OPEN@, text.download_gui_log@, BUTTON_CLOSE@);
    lemma_neighbours_occur(parts, 45, LAUNCHER_LOG_OPEN@, text.download_launcher_log@, BUTTON_CLOSE@);
    lemma_neighbours_occur(parts, 49, FOOTER_OPEN@, text.connection_info@, DIV_CLOSE@);
}

/// The script of the error page knows the port, the address and the whole detail of the
/// error, shows the last two in their rows, and has the font, the video and the title
/// bar.
pub proof fn law_error_page_tells_the_failure(
    platform: Platform,
    port: u16,
    error_detail: &str,
    assets: &PageAssets,
    text: &ErrorPageText,
    titlebar: &TitlebarText,
    page: String,
)
    requires
        call_ensures(
            backend_error_html,
            (platform, port, error_detail, assets, text, titlebar),
            page,
        ),
    ensures
        occurs_in(page@, "src: url(data:font/ttf;base64,"@ + base64_text(assets.font@) + r#") format("truetype");"#@),
        occurs_in(page@, r#"<source src="data:video/mp4;base64,"#@ + base64_text(assets.video@) + r#"" type="video/mp4">"#@),
        occurs_in(page@, r#"(function () {
"#@ + titlebar_script(platform, *titlebar) + r#"
    })();"#@),
        occurs_in(page@, "const i18n = "@ + json_object(error_page_members(*text)) + ";"@),
        occurs_in(page@, "const backendUrl = "@ + json_string(loopback(port)) + ";"@),
        occurs_in(page@, "const errorDetail = "@ + json_string(error_detail@) + ";"@),
        occurs_in(page@, "const port = "@ + decimal(port as nat) + ";"@),
        occurs_in(page@, "document.getElementById('backend-url').textContent = backendUrl;"@),
        occurs_in(page@, "document.getElementById('error-detail').textContent = errorDetail;"@),
{
    let parts = error_page_parts(platform, port, error_detail@, assets, text, titlebar);
    lemma_neighbours_occur(parts, 5, FONT_OPEN@, base64_text(assets.font@), FONT_CLOSE@);
    lemma_neighbours_occur(parts, 9, VIDEO_OPEN@, base64_text(assets.video@), VIDEO_CLOSE@);
    lemma_neighbours_occur(parts, 53, TITLEBAR_OPEN@, titlebar_script(platform, *titlebar), TITLEBAR_CLOSE@);
    lemma_neighbours_occur(parts, 57, TEXTS_OPEN@, json_object(error_page_members(*text)), STATEMENT_END@);
    lemma_neighbours_occur(parts, 61, BACKEND_URL_OPEN@, json_string(loopback(port)), STATEMENT_END@);
    lemma_neighbours_occur(parts, 65, DETAIL_OPEN@, json_string(error_detail@), STATEMENT_END@);
    lemma_neighbours_occur(parts, 69, PORT_OPEN@, decimal(port as nat), STATEMENT_END@);
    lemma_part_occurs(parts, 81, SHOW_ADDRESS@);
    lemma_part_occurs(parts, 83, SHOW_DETAIL@);
}

/// Each button of the error page does what its label says: one retries the connection at
/// the port, the others download the log that they name. The page also retries by
/// itself.
pub proof fn law_error_page_buttons_do_what_they_say(
    platform: Platform,
    port: u16,
    error_detail: &str,
    assets: &PageAssets,
    text: &ErrorPageText,
    titlebar: &TitlebarText,
    page: String,
)
    requires
        call_ensures(
            backend_error_html,
            (platform, port, error_detail, assets, text, titlebar),
            page,
        ),
    ensures
        occurs_in(page@, r#"guiLogButton.addEventListener('click', () => {
      downloadLog(guiLogButton, 'download_today_gui_log', '"#@ + text.download_gui_log@ + r#"');
    });"#@),
        occurs_in(page@, r#"launcherLogButton.addEventListener('click', () => {
      downloadLog(launcherLogButton, 'download_today_launcher_log', '"#@ + text.download_launcher_log@ + r#"');
    });"#@),
        occurs_in(page@, "const retryButton = document.getElementById('retry-button');"@),
        occurs_in(page@, "const guiLogButton = document.getElementById('gui-log-button');"@),
        occurs_in(page@, "const launcherLogButton = document.getElementById('launcher-log-button');"@),
        occurs_in(page@, "const retryStatus = document.getElementById('retry-status');"@),
        occurs_in(page@, "retryButton.addEventListener('click', async () => {"@),
        occurs_in(page@, "const connected = await invoke('retry_backend_connection', { port });"@),
        occurs_in(page@, r#"if (!connected) {
          retryStatus.textContent = i18n.stillFailed;
          retryButton.disabled = false;
        }"#@),
        occurs_in(page@, "async function downloadLog(button, command, label) {"@),
        occurs_in(page@, r#"const filename = await invoke(command);
        retryStatus.textContent = i18n.saved.replace('%{filename}', filename);"#@),
        occurs_in(page@, r#"setInterval(() => {
      if (!retryButton.disabled) {
        retryButton.click();
      }
    }, 1000);"#@),
{
    let parts = error_page_parts(platform, port, error_detail@, assets, text, titlebar);
    lemma_neighbours_occur(parts, 95, GUI_LOG_ON_CLICK@, text.download_gui_log@, LOG_ON_CLICK_END@);
    lemma_neighbours_occur(parts, 99, LAUNCHER_LOG_ON_CLICK@, text.download_launcher_log@, LOG_ON_CLICK_END@);
    lemma_part_occurs(parts, 73, RETRY_BUTTON@);
    lemma_part_occurs(parts, 75, GUI_LOG_BUTTON@);
    lemma_part_occurs(parts, 77, LAUNCHER_LOG_BUTTON@);
    lemma_part_occurs(parts, 79, RETRY_STATUS@);
    lemma_part_occurs(parts, 85, RETRY_ON_CLICK@);
    lemma_part_occurs(parts, 87, RETRY_COMMAND@);
    lemma_part_occurs(parts, 89, RETRY_FAILED@);
    lemma_part_occurs(parts, 91, DOWNLOAD_LOG@);
    lemma_part_occurs(parts, 93, DOWNLOAD_COMMAND@);
    lemma_part_occurs(parts, 103, AUTO_RETRY@);
}

/// The script of the error page reads each of its texts by the name that is meant for it.
pub proof fn law_error_page_names_its_texts(
    platform: Platform,
    port: u16,
    error_detail: &str,
    assets: &PageAssets,
    text: &ErrorPageText,
    titlebar: &TitlebarText,
    page: String,
)
    requires
        call_ensures(
            backend_error_html,
            (platform, port, error_detail, assets, text, titlebar),
            page,
        ),
    ensures
        occurs_in(page@, json_string("address"@) + seq![':'] + json_string(text.address@)),
        occurs_in(page@, json_string("description"@) + seq![':'] + json_string(text.description@)),
        occurs_in(page@, json_string("downloadFailed"@) + seq![':'] + json_string(text.download_failed@)),
        occurs_in(page@, json_string("downloadGuiLog"@) + seq![':'] + json_string(text.download_gui_log@)),
        occurs_in(page@, json_string("downloadLauncherLog"@) + seq![':'] + json_string(text.download_launcher_log@)),
        occurs_in(page@, json_string("errorLabel"@) + seq![':'] + json_string(text.error_label@)),
        occurs_in(page@, json_string("heading"@) + seq![':'] + json_string(text.heading@)),
        occurs_in(page@, json_string("preparing"@) + seq![':'] + json_string(text.preparing@)),
        occurs_in(page@, json_string("reconnecting"@) + seq![':'] + json_string(text.reconnecting@)),
        occurs_in(page@, json_string("retry"@) + seq![':'] + json_string(text.retry@)),
        occurs_in(page@, json_string("retryFailed"@) + seq![':'] + json_string(text.retry_failed@)),
        occurs_in(page@, json_string("saved"@) + seq![':'] + json_string(text.saved@)),
        occurs_in(page@, json_string("stillFailed"@) + seq![':'] + json_string(text.still_failed@)),
        occurs_in(page@, json_string("title"@) + seq![':'] + json_string(text.title@)),
{
    let parts = error_page_parts(platform, port, error_detail@, assets, text, titlebar);
    let members = error_page_members(*text);
    assert(parts[58] == json_object(members));
    assert forall|i: int| 0 <= i < members.len() implies occurs_in(
        page@,
        json_string((#[trigger] members[i]).0) + seq![':'] + json_string(members[i].1),
    ) by {
        law_object_holds_its_members(members, i);
        lemma_occurs_within_part(
            parts,
            58,
            json_string(members[i].0) + seq![':'] + json_string(members[i].1),
        );
    }
    assert(members[0] == ("address"@, text.address@));
    assert(members[1] == ("description"@, text.description@));
    assert(members[2] == ("downloadFailed"@, text.download_failed@));
    assert(members[3] == ("downloadGuiLog"@, text.download_gui_log@));
    assert(members[4] == ("downloadLauncherLog"@, text.download_launcher_log@));
    assert(members[5] == ("errorLabel"@, text.error_label@));
    assert(members[6] == ("heading"@, text.heading@));
    assert(members[7] == ("preparing"@, text.preparing@));
    assert(members[8] == ("reconnecting"@, text.reconnecting@));
    assert(members[9] == ("retry"@, text.retry@));
    assert(members[10] == ("retryFailed"@, text.retry_failed@));
    assert(members[11] == ("saved"@, text.saved@));
    assert(members[12] == ("stillFailed"@, text.still_failed@));
    assert(members[13] == ("title"@, text.title@));
}

/// A request for the error page is answered with the page for the port and the detail
/// that its address asks for, as HTML.
pub proof fn law_request_is_answered_with_its_page(
    platform: Platform,
    uri: &str,
    assets: &PageAssets,
    text: &ErrorPageText,
    titlebar: &TitlebarText,
    response: PageResponse,
    usual_detail: &str,
    params: (u16, String),
    detail: &str,
    page: String,
)
    requires
        call_ensures(backend_error_response, (platform, uri, assets, text, titlebar), response),
        usual_detail@ == text.unable_connect@,
        call_ensures(backend_error_request_params, (uri, usual_detail), params),
        detail@ == params.1@,
        call_ensures(
            backend_error_html,
            (platform, params.0, detail, assets, text, titlebar),
            page,
        ),
    ensures
        response.body@ == page@,
        response.content_type@ == "text/html; charset=utf-8"@,
{
}

/// The error page is in order: the elements stand before the script that finds them, and
/// what the script uses stands before its use.
pub proof fn law_error_page_is_in_order(
    platform: Platform,
    port: u16,
    error_detail: &str,
    assets: &PageAssets,
    text: &ErrorPageText,
    titlebar: &TitlebarText,
    page: String,
)
    requires
        call_ensures(
            backend_error_html,
            (platform, port, error_detail, assets, text, titlebar),
            page,
        ),
    ensures
        stands_before(
            page@,
            r#"<button id="retry-button" class="action-button" type="button">"#@,
            "const retryButton = document.getElementById('retry-button');"@,
        ),
        stands_before(
            page@,
            r#"<button id="gui-log-button" class="secondary-button" type="button">"#@,
            "const guiLogButton = document.getElementById('gui-log-button');"@,
        ),
        stands_before(
            page@,
            r#"<button id="launcher-log-button" class="secondary-button" type="button">"#@,
            "const launcherLogButton = document.getElementById('launcher-log-button');"@,
        ),
        stands_before(
            page@,
            r#"</div>
          <div id="backend-url" class="value"></div>"#@,
            "document.getElementById('backend-url').textContent = backendUrl;"@,
        ),
        stands_before(
            page@,
            r#"</div>
          <div id="error-detail" class="value"></div>"#@,
            "document.getElementById('error-detail').textContent = errorDetail;"@,
        ),
        stands_before(
            page@,
            "const i18n = "@,
            "retryButton.addEventListener('click', async () => {"@,
        ),
        stands_before(
            page@,
            "const backendUrl = "@,
            "document.getElementById('backend-url').textContent = backendUrl;"@,
        ),
        stands_before(
            page@,
            "const errorDetail = "@,
            "document.getElementById('error-detail').textContent = errorDetail;"@,
        ),
        stands_before(
            page@,
            "const port = "@,
            "const connected = await invoke('retry_backend_connection', { port });"@,
        ),
        stands_before(
            page@,
            "const retryButton = document.getElementById('retry-button');"@,
            "retryButton.addEventListener('click', async () => {"@,
        ),
        stands_before(
            page@,
            "retryButton.addEventListener('click', async () => {"@,
            "const connected = await invoke('retry_backend_connection', { port });"@,
        ),
        stands_before(
            page@,
            "const connected = await invoke('retry_backend_connection', { port });"@,
            r#"if (!connected) {
          retryStatus.textContent = i18n.stillFailed;
          retryButton.disabled = false;
        }"#@,
        ),
        stands_before(
            page@,
            r#"if (!connected) {
          retryStatus.textContent = i18n.stillFailed;
          retryButton.disabled = false;
        }"#@,
            "async function downloadLog(button, command, label) {"@,
        ),
        stands_before(
            page@,
            "async function downloadLog(button, command, label) {"@,
            r#"const filename = await invoke(command);
        retryStatus.textContent = i18n.saved.replace('%{filename}', filename);"#@,
        ),
        stands_before(
            page@,
            r#"const filename = await invoke(command);
        retryStatus.textContent = i18n.saved.replace('%{filename}', filename);"#@,
            r#"guiLogButton.addEventListener('click', () => {
      downloadLog(guiLogButton, 'download_today_gui_log', '"#@,
        ),
        stands_before(
            page@,
            r#"guiLogButton.addEventListener('click', () => {
      downloadLog(guiLogButton, 'download_today_gui_log', '"#@,
            r#"launcherLogButton.addEventListener('click', () => {
      downloadLog(launcherLogButton, 'download_today_launcher_log', '"#@,
        ),
        stands_before(
            page@,
            r#"launcherLogButton.addEventListener('click', () => {
      downloadLog(launcherLogButton, 'download_today_launcher_log', '"#@,
            r#"setInterval(() => {
      if (!retryButton.disabled) {
        retryButton.click();
      }
    }, 1000);"#@,
        ),
{
    let parts = error_page_parts(platform, port, error_detail@, assets, text, titlebar);
    lemma_parts_stand_in_order(parts, 37, 73, RETRY_OPEN@, RETRY_BUTTON@);
    lemma_parts_stand_in_order(parts, 41, 75, GUI_LOG_OPEN@, GUI_LOG_BUTTON@);
    lemma_parts_stand_in_order(parts, 45, 77, LAUNCHER_LOG_OPEN@, LAUNCHER_LOG_BUTTON@);
    lemma_parts_stand_in_order(parts, 31, 81, ADDRESS_VALUE@, SHOW_ADDRESS@);
    lemma_parts_stand_in_order(parts, 35, 83, ERROR_VALUE@, SHOW_DETAIL@);
    lemma_parts_stand_in_order(parts, 57, 85, TEXTS_OPEN@, RETRY_ON_CLICK@);
    lemma_parts_stand_in_order(parts, 61, 81, BACKEND_URL_OPEN@, SHOW_ADDRESS@);
    lemma_parts_stand_in_order(parts, 65, 83, DETAIL_OPEN@, SHOW_DETAIL@);
    lemma_parts_stand_in_order(parts, 69, 87, PORT_OPEN@, RETRY_COMMAND@);
    lemma_parts_stand_in_order(parts, 73, 85, RETRY_BUTTON@, RETRY_ON_CLICK@);
    lemma_parts_stand_in_order(parts, 85, 87, RETRY_ON_CLICK@, RETRY_COMMAND@);
    lemma_parts_stand_in_order(parts, 87, 89, RETRY_COMMAND@, RETRY_FAILED@);
    lemma_parts_stand_in_order(parts, 89, 91, RETRY_FAILED@, DOWNLOAD_LOG@);
    lemma_parts_stand_in_order(parts, 91, 93, DOWNLOAD_LOG@, DOWNLOAD_COMMAND@);
    lemma_parts_stand_in_order(parts, 93, 95, DOWNLOAD_COMMAND@, GUI_LOG_ON_CLICK@);
    lemma_parts_stand_in_order(parts, 95, 99, GUI_LOG_ON_CLICK@, LAUNCHER_LOG_ON_CLICK@);
    lemma_parts_stand_in_order(parts, 99, 103, LAUNCHER_LOG_ON_CLICK@, AUTO_RETRY@);
}

/// The error page has its frame, and its script tells the user what goes on and lets a
/// button be used again once its work is done.
pub proof fn law_error_page_script_is_whole(
    platform: Platform,
    port: u16,
    error_detail: &str,
    assets: &PageAssets,
    text: &ErrorPageText,
    titlebar: &TitlebarText,
    page: String,
)
    requires
        call_ensures(
            backend_error_html,
            (platform, port, error_detail, assets, text, titlebar),
            page,
        ),
    ensures
        occurs_in(page@, r#"<!doctype html>
<html>
<head>
<meta charset="utf-8">
<meta name="viewport" content="width=device-width, initial-scale=1">
"#@),
        occurs_in(page@, r#"
  </video>
  <div class="error-background-scrim" aria-hidden="true"></div>
  <main class="panel">
    <div class="signal" aria-hidden="true">
      <div class="signal-core">
        <svg viewBox="0 0 24 24"><path d="M12 8v4m0 4h.01"/><path d="M10.3 3.9 2.8 17a2 2 0 0 0 1.7 3h15a2 2 0 0 0 1.7-3L13.7 3.9a2 2 0 0 0-3.4 0Z"/></svg>
      </div>
    </div>
    <div class="content">
      "#@),
        occurs_in(page@, r#"
        </div>
      </section>
      <div class="actions">
        "#@),
        occurs_in(page@, r#"
        <span id="retry-status" class="status"></span>
      </div>
      "#@),
        occurs_in(page@, r#"
    </div>
  </main>
  <script>
    "#@),
        occurs_in(page@, r#"
    const invoke =
      (window.__TAURI__ && window.__TAURI__.core && window.__TAURI__.core.invoke)
      || (window.__TAURI_INTERNALS__ && window.__TAURI_INTERNALS__.invoke);

    "#@),
        occurs_in(page@, r#"
      retryButton.disabled = true;
      retryStatus.textContent = i18n.reconnecting;
      try {
        if (typeof invoke !== 'function') {
          throw new Error('Tauri invoke is unavailable');
        }
        "#@),
        occurs_in(page@, r#"
      } catch (error) {
        retryStatus.textContent = i18n.retryFailed + (error && error.message ? error.message : error);
        retryButton.disabled = false;
      }
    });

    "#@),
        occurs_in(page@, r#"
      button.disabled = true;
      retryStatus.textContent = i18n.preparing.replace('%{label}', label);
      try {
        if (typeof invoke !== 'function') {
          throw new Error('Tauri invoke is unavailable');
        }
        "#@),
        occurs_in(page@, r#"
      } catch (error) {
        retryStatus.textContent = i18n.downloadFailed.replace('%{label}', label) + (error && error.message ? error.message : error);
      } finally {
        button.disabled = false;
      }
    }

    "#@),
        occurs_in(page@, r#"
  </script>
</body>
</html>"#@),
{
    let parts = error_page_parts(platform, port, error_detail@, assets, text, titlebar);
    lemma_part_occurs(parts, 0, HTML_HEAD@);
    lemma_part_occurs(parts, 12, PANEL_START@);
    lemma_part_occurs(parts, 36, ACTIONS_START@);
    lemma_part_occurs(parts, 48, STATUS_LINE@);
    lemma_part_occurs(parts, 52, SCRIPT_START@);
    lemma_part_occurs(parts, 80, FIND_INVOKE@);
    lemma_part_occurs(parts, 86, RETRY_BEGINS@);
    lemma_part_occurs(parts, 90, RETRY_ENDS@);
    lemma_part_occurs(parts, 92, DOWNLOAD_BEGINS@);
    lemma_part_occurs(parts, 94, DOWNLOAD_ENDS@);
    lemma_part_occurs(parts, 104, HTML_END@);
}

} // verus!
