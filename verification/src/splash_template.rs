//! The fixed text of the splash page and the slots between it.
//!
//! The proofs that no slot begins inside the fixed text repeat each text,
//! because only a literal can be looked into.
use crate::template::{
    are_names, inert, is_name, is_upper, names_view, pieces_view, slots_below, texts_inert, Piece,
    TemplatePiece,
};
use vstd::prelude::*;

verus! {

/// The page, up to the font.
pub const SPLASH_HTML_HEAD: &'static str = r#"<!doctype html>
<html lang="zh-CN">
<head>
<meta charset="utf-8">
<meta name="viewport" content="width=device-width, initial-scale=1">
<style>
  @font-face {
    font-family: "MiSans";
    "#;

/// Opens the font.
pub const SPLASH_FONT_OPEN: &'static str = "src: url(data:font/ttf;base64,";

/// Closes the font.
pub const SPLASH_FONT_CLOSE: &'static str = r#") format("truetype");"#;

/// The general style.
pub const SPLASH_STYLE_BASE: &'static str = r#"
    font-weight: 100 900;
    font-style: normal;
    font-display: swap;
  }
  :root {
    --primary-color: #4facfe;
    --secondary-color: #00f2fe;
    --text-main: #ffffff;
    --text-sub: rgba(255, 255, 255, 0.76);
    --text-muted: rgba(255, 255, 255, 0.52);
    --surface-soft: rgba(255, 255, 255, 0.16);
    --surface-border: rgba(255, 255, 255, 0.15);
    --danger: #ff5f57;
    --warning: #ffbd2e;
  }
  * {
    box-sizing: border-box;
    margin: 0;
    padding: 0;
    user-select: none;
  }
  html,
  body {
    width: 100%;
    height: 100%;
    overflow: hidden;
    background: #111827;
  }
  body {
    font-family: "MiSans", sans-serif;
    font-weight: 420;
    font-synthesis: none;
    color: var(--text-main);
  }
  button {
    font: inherit;
  }
  .launcher-window {
    position: relative;
    width: 100%;
    height: 100%;
    overflow: hidden;
    border-radius: 0;
    background: #111827;
    box-shadow: none;
    display: flex;
    flex-direction: column;
    justify-content: space-between;
  }
  .splash-background-video {
    position: absolute;
    inset: 0;
    z-index: 0;
    width: 100%;
    height: 100%;
    object-fit: cover;
    pointer-events: none;
  }
  .launcher-window::before {
    content: "";
    position: absolute;
    inset: 0;
    z-index: 1;
    background:
      linear-gradient(to bottom, rgba(0, 0, 0, 0.05) 0%, rgba(0, 0, 0, 0.03) 42%, rgba(0, 0, 0, 0.28) 100%),
      linear-gradient(115deg, rgba(12, 30, 72, 0.10), rgba(255, 126, 117, 0.05));
    pointer-events: none;
  }
"#;

/// The style of the top bar.
pub const SPLASH_STYLE_TOP_BAR: &'static str = r#"  .top-bar {
    position: relative;
    z-index: 2;
    display: flex;
    justify-content: space-between;
    align-items: center;
    min-height: 56px;
    padding: 10px 18px;
    touch-action: none;
    app-region: drag;
    -webkit-app-region: drag;
  }
  .brand-zone {
    display: flex;
    align-items: center;
    min-width: 0;
    gap: 10px;
  }
  .app-title {
    color: var(--text-main);
    font-size: 18px;
    font-weight: 610;
    letter-spacing: 0;
    text-shadow: 0 2px 6px rgba(0, 0, 0, 0.22);
  }
  .app-version {
    color: var(--text-sub);
    font-size: 12px;
    font-weight: 460;
    line-height: 1;
    background: rgba(255, 255, 255, 0.14);
    border: 1px solid rgba(255, 255, 255, 0.11);
    padding: 4px 9px;
    border-radius: 999px;
    backdrop-filter: blur(8px);
  }
  .top-right {
    display: flex;
    align-items: center;
    gap: 8px;
    min-width: 0;
  }
  .status-badge {
    max-width: 260px;
    min-height: 32px;
    display: inline-flex;
    align-items: center;
    gap: 7px;
    border-radius: 999px;
    padding: 6px 13px;
    color: #394451;
    background: rgba(250, 250, 247, 0.78);
    border: 1px solid rgba(255, 255, 255, 0.92);
    backdrop-filter: blur(16px) saturate(1.2);
    box-shadow: 0 4px 14px rgba(61, 79, 97, 0.1), inset 0 1px 0 rgba(255, 255, 255, 0.36);
    font-size: 12px;
    font-weight: 460;
    white-space: nowrap;
    overflow: hidden;
    text-overflow: ellipsis;
  }
  .status-badge::before {
    content: "";
    width: 6px;
    height: 6px;
    border-radius: 50%;
    background: var(--secondary-color);
    box-shadow: 0 0 12px rgba(0, 242, 254, 0.7);
    flex: 0 0 auto;
  }
  .window-controls {
    display: flex;
    align-items: center;
    gap: 2px;
    min-height: 36px;
    padding: 3px 4px;
    border: 1px solid rgba(255, 255, 255, 0.92);
    border-radius: 18px;
    background: rgba(250, 250, 247, 0.78);
    box-shadow: 0 4px 14px rgba(61, 79, 97, 0.1), inset 0 1px 0 rgba(255, 255, 255, 0.36);
    backdrop-filter: blur(16px) saturate(1.2);
    flex: 0 0 auto;
    app-region: no-drag;
    -webkit-app-region: no-drag;
  }
  .window-controls * {
    app-region: no-drag;
    -webkit-app-region: no-drag;
  }
"#;

/// The style of the window buttons and the headline.
pub const SPLASH_STYLE_BUTTONS: &'static str = r#"  .win-btn {
    width: 28px;
    height: 28px;
    border: 0;
    border-radius: 12px;
    display: inline-flex;
    align-items: center;
    justify-content: center;
    cursor: pointer;
    padding: 0;
    color: #727b86;
    background: transparent;
    transition: transform 140ms cubic-bezier(.23, 1, .32, 1), background-color 140ms ease, color 140ms ease;
  }
  .win-btn:hover {
    color: #202832;
    background: rgba(255, 255, 255, 0.72);
  }
  .win-btn:active {
    transform: scale(0.96);
  }
  .win-btn svg {
    width: 11px;
    height: 11px;
    stroke: currentColor;
    stroke-width: 1.35;
    stroke-linecap: round;
    opacity: 1;
  }
  .win-btn.minimize {
    color: #727b86;
  }
  .win-btn.close {
    color: #e64f58;
  }
  .win-btn.close:hover {
    color: #b5202e;
    background: rgba(244, 91, 91, 0.15);
  }
  .main-content {
    position: relative;
    z-index: 2;
    padding: 0 40px 35px;
  }
  .update-status {
    margin-bottom: 25px;
    max-width: min(650px, 100%);
  }
  .title-group {
    display: flex;
    align-items: center;
    gap: 12px;
    margin-bottom: 8px;
  }
  .spinner {
    width: 22px;
    height: 22px;
    border: 2.5px solid rgba(255, 255, 255, 0.24);
    border-top-color: var(--text-main);
    border-radius: 50%;
    animation: spin 0.9s linear infinite;
    flex: 0 0 auto;
  }
  .err-dot {
    width: 22px;
    height: 22px;
    border-radius: 50%;
    background: #ffffff;
    color: #c73532;
    align-items: center;
    justify-content: center;
    font-size: 14px;
    font-weight: 800;
    box-shadow: 0 5px 16px rgba(0, 0, 0, 0.2);
    flex: 0 0 auto;
  }
  .main-action-text {
    min-width: 0;
    color: var(--text-main);
    font-size: 24px;
    line-height: 1.2;
    font-weight: 620;
    letter-spacing: 0;
    text-shadow: 0 2px 10px rgba(0, 0, 0, 0.32);
  }
  .sub-action-text {
    color: var(--text-sub);
    font-size: 12px;
    font-weight: 480;
    letter-spacing: 1.2px;
    line-height: 1.45;
    margin: 0;
    max-width: min(650px, 100%);
    max-height: 54px;
    overflow: hidden;
    text-shadow: 0 1px 5px rgba(0, 0, 0, 0.28);
    white-space: pre-line;
  }
"#;

/// The style of the progress bars.
pub const SPLASH_STYLE_PROGRESS: &'static str = r#"  .progress-container {
    display: grid;
    grid-template-columns: minmax(0, 1fr) auto;
    align-items: center;
    gap: 12px;
    margin-bottom: 15px;
  }
  .progress-bar-bg {
    grid-column: 1;
    grid-row: 1;
    width: 100%;
    height: 5px;
    border-radius: 999px;
    background: rgba(255, 255, 255, 0.2);
    overflow: hidden;
    box-shadow: inset 0 1px 1px rgba(0, 0, 0, 0.12);
    backdrop-filter: blur(8px);
  }
  .progress-bar-fill {
    width: 4%;
    height: 100%;
    border-radius: inherit;
    background: linear-gradient(90deg, #4facfe, #43d7f5);
    box-shadow: 0 0 10px rgba(67, 215, 245, 0.38);
    position: relative;
    overflow: hidden;
    transition: width 0.35s cubic-bezier(.23, 1, .32, 1), background-color 0.2s ease;
  }
  .progress-bar-fill::after {
    display: none;
  }
  .progress-bar-fill-error {
    background: linear-gradient(90deg, #ff5f57, #ffbd2e);
    box-shadow: 0 0 14px rgba(255, 95, 87, 0.46);
  }
  .progress-bar-fill-error::after {
    display: none;
  }
  .progress-percentage {
    grid-column: 2;
    grid-row: 1;
    min-width: 34px;
    color: var(--text-main);
    font-size: 12px;
    font-weight: 560;
    text-align: right;
    font-variant-numeric: tabular-nums;
    text-shadow: 0 1px 5px rgba(0, 0, 0, 0.28);
  }
  .uv-progress-container {
    display: none;
    margin-top: -3px;
    margin-bottom: 15px;
  }
  .uv-progress-container.is-visible {
    display: block;
  }
  .uv-progress-header {
    display: flex;
    align-items: baseline;
    justify-content: space-between;
    gap: 12px;
    margin-bottom: 6px;
    color: var(--text-sub);
    font-size: 11px;
    font-variant-numeric: tabular-nums;
  }
  .uv-progress-detail {
    flex: 1 1 auto;
    min-width: 0;
    overflow: hidden;
    text-align: right;
    text-overflow: ellipsis;
    white-space: nowrap;
  }
  .uv-progress-bar-bg {
    width: 100%;
    height: 4px;
    overflow: hidden;
    border-radius: 999px;
    background: rgba(255, 255, 255, 0.14);
  }
  .uv-progress-bar-fill {
    position: relative;
    width: 2%;
    height: 100%;
    overflow: hidden;
    border-radius: inherit;
    background: #55cda0;
    box-shadow: 0 0 8px rgba(85, 205, 160, 0.34);
    transition: width 0.4s cubic-bezier(.23, 1, .32, 1);
  }
  .uv-progress-bar-fill::after {
    display: none;
  }
"#;

/// The style of the footer.
pub const SPLASH_STYLE_FOOTER: &'static str = r#"  .footer-info {
    display: flex;
    justify-content: space-between;
    align-items: center;
    gap: 16px;
    min-height: 28px;
    font-size: 12px;
  }
  .tip-text {
    display: inline-flex;
    align-items: center;
    gap: 8px;
    min-width: 0;
    max-width: 520px;
    color: var(--text-sub);
    background: rgba(15, 23, 42, 0.26);
    border: 1px solid rgba(255, 255, 255, 0.16);
    border-radius: 12px;
    padding: 7px 12px;
    overflow: hidden;
    text-overflow: ellipsis;
    white-space: nowrap;
    font-weight: 460;
    backdrop-filter: blur(12px) saturate(1.1);
  }
  .tip-text::before {
    content: "✦";
    color: var(--primary-color);
    font-size: 12px;
    line-height: 1;
    text-shadow: 0 0 10px rgba(79, 172, 254, 0.55);
    flex: 0 0 auto;
  }
  .footer-right {
    display: flex;
    align-items: center;
    justify-content: flex-end;
    gap: 10px;
    flex: 0 0 auto;
  }
  .notice-text {
    color: var(--text-muted);
    white-space: nowrap;
    font-weight: 450;
  }
  .splash-actions {
    display: none;
  }
  .splash-actions-err {
    display: block;
  }
  .splash-log-button {
    min-height: 34px;
    border: 1px solid rgba(255, 255, 255, 0.78);
    border-radius: 12px;
    padding: 0 14px;
    color: #394451;
    background: rgba(250, 250, 247, 0.78);
    box-shadow: 0 4px 14px rgba(61, 79, 97, 0.1), inset 0 1px 0 rgba(255, 255, 255, 0.36);
    backdrop-filter: blur(14px) saturate(1.15);
    cursor: pointer;
    font-size: 12px;
    font-weight: 560;
    transition: transform 140ms cubic-bezier(.23, 1, .32, 1), background-color 140ms ease;
  }
  .splash-log-button:hover {
    background: rgba(255, 255, 255, 0.9);
  }
  .splash-log-button:active {
    transform: scale(0.97);
  }
  .splash-log-button:disabled {
    cursor: default;
    opacity: 0.65;
  }
"#;

/// The style of the error state and of small windows, up to the video.
pub const SPLASH_STYLE_STATES: &'static str = r#"  body.error-state .status-badge {
    background: rgba(255, 255, 255, 0.18);
    animation: none;
  }
  body.error-state .status-badge::before {
    background: #ff5f57;
    box-shadow: 0 0 12px rgba(255, 95, 87, 0.76);
  }
  body.error-state .tip-text {
    border-color: rgba(255, 189, 46, 0.42);
  }
  body.error-state .tip-text::before {
    color: #ffbd2e;
  }
  @media (max-width: 720px) {
    .top-bar {
      padding: 10px 16px;
    }
    .status-badge {
      max-width: 180px;
    }
    .main-content {
      padding: 0 28px 28px;
    }
    .main-action-text {
      font-size: 22px;
    }
  }
  @media (max-width: 560px), (max-height: 340px) {
    .top-right {
      gap: 12px;
    }
    .status-badge {
      display: none;
    }
    .footer-info {
      flex-direction: column;
      align-items: flex-start;
      gap: 8px;
    }
    .footer-right {
      width: 100%;
      justify-content: space-between;
    }
    .tip-text {
      max-width: 100%;
    }
  }
  @media (max-height: 340px) {
    .main-content {
      padding-bottom: 24px;
    }
    .update-status {
      margin-bottom: 18px;
    }
    .sub-action-text {
      max-height: 36px;
    }
  }
  @keyframes spin {
    to { transform: rotate(360deg); }
  }
</style>
</head>
<body>
  <div class="launcher-window">
    <video class="splash-background-video" autoplay muted loop playsinline preload="auto" aria-hidden="true">
      "#;

/// Opens the background video.
pub const SPLASH_VIDEO_OPEN: &'static str = r#"<source src="data:video/mp4;base64,"#;

/// Closes the background video.
pub const SPLASH_VIDEO_CLOSE: &'static str = r#"" type="video/mp4">"#;

/// The brand, up to the version.
pub const SPLASH_HTML_BRAND: &'static str = r#"
    </video>
    <div id="splash-drag-region" class="top-bar" data-tauri-drag-region>
      <div class="brand-zone">
        <span class="app-title">AzurPilot</span>
        "#;

/// Opens the version.
pub const SPLASH_VERSION_OPEN: &'static str = r#"<span class="app-version">v"#;

/// Closes a span.
pub const SPLASH_SPAN_CLOSE: &'static str = "</span>";

/// Up to the text of the badge.
pub const SPLASH_HTML_BADGE: &'static str = r#"
      </div>
      <div class="top-right">
        <div id="badge" class="status-badge">
          "#;

/// Opens the text of the badge.
pub const SPLASH_BADGE_OPEN: &'static str = r#"<span id="badge-text">"#;

/// Up to the label of the minimize button.
pub const SPLASH_HTML_MINIMIZE: &'static str = r#"
        </div>
        <div class="window-controls">
          "#;

/// Opens the minimize button, up to its label.
pub const SPLASH_MINIMIZE_OPEN: &'static str = r#"<button id="window-minimize" class="win-btn minimize" type="button" aria-label=""#;

/// Ends the label of a button and begins its tooltip.
pub const SPLASH_LABEL_TO_TITLE: &'static str = r#"" title=""#;

/// Ends the tooltip of a button.
pub const SPLASH_TITLE_END: &'static str = r#"">"#;

/// Up to the label of the close button.
pub const SPLASH_HTML_CLOSE: &'static str = r#"
            <svg viewBox="0 0 8 8" aria-hidden="true"><line x1="2" y1="4" x2="6" y2="4"></line></svg>
          </button>
          "#;

/// Opens the close button, up to its label.
pub const SPLASH_CLOSE_OPEN: &'static str = r#"<button id="window-close" class="win-btn close" type="button" aria-label=""#;

/// Up to the headline.
pub const SPLASH_HTML_TITLE: &'static str = r#"
            <svg viewBox="0 0 8 8" aria-hidden="true"><line x1="2" y1="2" x2="6" y2="6"></line><line x1="6" y1="2" x2="2" y2="6"></line></svg>
          </button>
        </div>
      </div>
    </div>

    <div class="main-content">
      <div class="update-status">
        <div class="title-group">
          <div id="spinner" class="spinner"></div>
          <div id="error-dot" class="err-dot" style="display:none;">!</div>
          "#;

/// Opens the headline.
pub const SPLASH_HEADLINE_OPEN: &'static str = r#"<h1 id="title" class="main-action-text">"#;

/// Closes the headline.
pub const SPLASH_HEADLINE_CLOSE: &'static str = "</h1>";

/// Up to the detail.
pub const SPLASH_HTML_DETAIL: &'static str = r#"
        </div>
        "#;

/// Opens the detail.
pub const SPLASH_DETAIL_OPEN: &'static str = r#"<p id="detail" class="sub-action-text">"#;

/// Closes the detail.
pub const SPLASH_DETAIL_CLOSE: &'static str = "</p>";

/// The progress bars, up to the tip.
pub const SPLASH_HTML_PROGRESS: &'static str = r#"
      </div>

      <div class="progress-container">
        <div id="progress-pct" class="progress-percentage">4%</div>
        <div class="progress-bar-bg">
          <div id="progress-fill" class="progress-bar-fill" style="width: 4%;"></div>
        </div>
      </div>

      <div id="uv-progress-container" class="uv-progress-container" aria-hidden="true">
        <div class="uv-progress-header">
          <span id="uv-progress-detail" class="uv-progress-detail"></span>
          <span id="uv-progress-pct">0%</span>
        </div>
        <div class="uv-progress-bar-bg">
          <div id="uv-progress-fill" class="uv-progress-bar-fill" style="width: 2%;"></div>
        </div>
      </div>

      <div class="footer-info">
        "#;

/// Opens the tip.
pub const SPLASH_TIP_OPEN: &'static str = r#"<div id="tip-text" class="tip-text">"#;

/// Closes a block.
pub const SPLASH_DIV_CLOSE: &'static str = "</div>";

/// Up to the note on the progress.
pub const SPLASH_HTML_META: &'static str = r#"
        <div class="footer-right">
          "#;

/// Opens the note on the progress.
pub const SPLASH_META_OPEN: &'static str = r#"<div id="progress-meta" class="notice-text">"#;

/// Up to the label of the log button.
pub const SPLASH_HTML_LOG_BUTTON: &'static str = r#"
          <div id="splash-actions" class="splash-actions">
            "#;

/// Opens the log button.
pub const SPLASH_LOG_BUTTON_OPEN: &'static str = r#"<button id="splash-log-button" class="splash-log-button" type="button">"#;

/// Closes the log button.
pub const SPLASH_LOG_BUTTON_CLOSE: &'static str = "</button>";

/// The script, up to its texts.
pub const SPLASH_SCRIPT_START: &'static str = r#"
          </div>
        </div>
      </div>
    </div>
  </div>

  <script>
    "#;

/// Opens the texts that the script reads.
pub const SPLASH_TEXTS_OPEN: &'static str = "const i18n = ";

/// Ends a statement.
pub const SPLASH_STATEMENT_END: &'static str = ";";

/// What stands before `SPLASH_DEFAULT_TIP`.
pub const SPLASH_TO_DEFAULT_TIP: &'static str = r#"
    "#;

/// The tip that stands in for others.
pub const SPLASH_DEFAULT_TIP: &'static str = "const defaultTip = i18n.defaultTip;";

/// What stands before `SPLASH_DRAG_FLAG_OPEN`.
pub const SPLASH_TO_DRAG_FLAG_OPEN: &'static str = r#"
    const invoke =
      (window.__TAURI__ && window.__TAURI__.core && window.__TAURI__.core.invoke)
      || (window.__TAURI_INTERNALS__ && window.__TAURI_INTERNALS__.invoke);
    "#;

/// Opens whether the webview drags by itself.
pub const SPLASH_DRAG_FLAG_OPEN: &'static str = "const webviewDraggableRegionsEnabled = ";

/// What stands before `SPLASH_NO_CONTEXT_MENU`.
pub const SPLASH_TO_NO_CONTEXT_MENU: &'static str = r#"

    "#;

/// Hides the context menu.
pub const SPLASH_NO_CONTEXT_MENU: &'static str = r#"window.addEventListener('contextmenu', event => {
      event.preventDefault();
    }, { capture: true });"#;

/// The rest: the beginning of the script.
pub const SPLASH_SCRIPT_HELPERS_END: &'static str = r#"

"#;

/// What stands before `SPLASH_NO_SUBTITLE`.
pub const SPLASH_TO_NO_SUBTITLE: &'static str = r#"    function splitSubtitle(value) {
      const text = String(value || '').trim();
      "#;

/// What an empty subtitle stands for.
pub const SPLASH_NO_SUBTITLE: &'static str = r#"if (!text) {
        return { status: i18n.loading, tip: defaultTip };
      }"#;

/// What stands before `SPLASH_SUBTITLE_PATTERN`.
pub const SPLASH_TO_SUBTITLE_PATTERN: &'static str = r#"
      "#;

/// Takes a subtitle apart.
pub const SPLASH_SUBTITLE_PATTERN: &'static str = r#"const match = text.match(/^(.*?)\s*\|\s*Tips[:：]\s*(.*)$/);"#;

/// What stands before `SPLASH_SUBTITLE_PARTS`.
pub const SPLASH_TO_SUBTITLE_PARTS: &'static str = r#"
      if (!match) {
        return { status: text, tip: defaultTip };
      }
      return {
        "#;

/// The parts of a subtitle.
pub const SPLASH_SUBTITLE_PARTS: &'static str = r#"status: match[1].trim() || i18n.loading,
        tip: match[2].trim() || defaultTip,"#;

/// What stands before `SPLASH_NO_DETAIL`.
pub const SPLASH_TO_NO_DETAIL: &'static str = r#"
      };
    }

    function normalizeDetail(value) {
      const text = String(value || '').trim();
      "#;

/// What an empty detail stands for.
pub const SPLASH_NO_DETAIL: &'static str = "return text || i18n.webuiInit;";

/// What stands before `SPLASH_UPDATE_FUNCTION`.
pub const SPLASH_TO_UPDATE_FUNCTION: &'static str = r#"
    }

    "#;

/// Shows an update.
pub const SPLASH_UPDATE_FUNCTION: &'static str = "window.__ALAS_SPLASH_UPDATE = function (payload) {";

/// What stands before `SPLASH_SHOW_TEXTS`.
pub const SPLASH_TO_SHOW_TEXTS: &'static str = r#"
      const badge = document.getElementById('badge');
      const badgeText = document.getElementById('badge-text');
      const spinner = document.getElementById('spinner');
      const errorDot = document.getElementById('error-dot');
      const progressFill = document.getElementById('progress-fill');
      const progressPct = document.getElementById('progress-pct');
      const uvProgressContainer = document.getElementById('uv-progress-container');
      const uvProgressFill = document.getElementById('uv-progress-fill');
      const uvProgressPct = document.getElementById('uv-progress-pct');
      const uvProgressDetail = document.getElementById('uv-progress-detail');
      const progressMeta = document.getElementById('progress-meta');
      const splashActions = document.getElementById('splash-actions');
      const subtitle = splitSubtitle(payload.subtitle);

      "#;

/// Shows the texts of an update.
pub const SPLASH_SHOW_TEXTS: &'static str = r#"badgeText.textContent = payload.is_error ? i18n.errorBadge : subtitle.status;
      document.getElementById('tip-text').textContent = subtitle.tip;
      document.getElementById('title').textContent = payload.title || i18n.starting;
      document.getElementById('detail').textContent = normalizeDetail(payload.detail);
      progressMeta.textContent = payload.is_error
        ? i18n.initStopped
        : i18n.progressMetaReady;"#;

/// What stands before `SPLASH_SHOW_PROGRESS`.
pub const SPLASH_TO_SHOW_PROGRESS: &'static str = r#"

      "#;

/// Shows the progress of an update.
pub const SPLASH_SHOW_PROGRESS: &'static str = r#"const progress = Math.max(0, Math.min(100, Number(payload.progress || 0)));
      progressFill.style.width = progress + '%';
      progressPct.textContent = progress + '%';"#;

/// What stands before `SPLASH_SHOW_INSTALLER`.
pub const SPLASH_TO_SHOW_INSTALLER: &'static str = r#"

      const uvState = payload.uv_progress;
      const hasUvProgress = !payload.is_error
        && uvState
        && Number.isFinite(Number(uvState.progress));
      uvProgressContainer.classList.toggle('is-visible', Boolean(hasUvProgress));
      uvProgressContainer.setAttribute('aria-hidden', String(!hasUvProgress));
      if (hasUvProgress) {
        "#;

/// Shows the progress of the installer.
pub const SPLASH_SHOW_INSTALLER: &'static str = r#"const uvProgress = Math.max(0, Math.min(99, Number(uvState.progress)));
        uvProgressFill.style.width = uvProgress + '%';
        uvProgressPct.textContent = uvProgress + '%';
        uvProgressDetail.textContent = String(uvState.detail || '');"#;

/// What stands before `SPLASH_SHOW_ERROR`.
pub const SPLASH_TO_SHOW_ERROR: &'static str = r#"
      }

      "#;

/// Shows that something failed.
pub const SPLASH_SHOW_ERROR: &'static str = r#"if (payload.is_error) {
        document.body.classList.add('error-state');"#;

/// The rest: how the page shows an update.
pub const SPLASH_SCRIPT_UPDATE_END: &'static str = r#"
        badge.className = 'status-badge status-badge-err';
        spinner.style.display = 'none';
        errorDot.style.display = 'flex';
        progressFill.className = 'progress-bar-fill progress-bar-fill-error';
        splashActions.className = 'splash-actions splash-actions-err';
      } else {
        document.body.classList.remove('error-state');
        badge.className = 'status-badge';
        spinner.style.display = 'block';
        errorDot.style.display = 'none';
        progressFill.className = 'progress-bar-fill';
        splashActions.className = 'splash-actions';
      }
    };

"#;

/// What stands before `SPLASH_ON_MINIMIZE`.
pub const SPLASH_TO_ON_MINIMIZE: &'static str = r#"    document.getElementById('splash-drag-region').addEventListener('pointerdown', event => {
      if (webviewDraggableRegionsEnabled) {
        return;
      }
      if (event.pointerType !== 'touch' || event.target.closest('.window-controls')) {
        return;
      }
      event.preventDefault();
      if (typeof invoke === 'function') {
        invoke('plugin:window|start_dragging').catch(error => {
          console.error('Failed to drag splash window', error);
        });
      }
    });

    "#;

/// Listens to the minimize button.
pub const SPLASH_ON_MINIMIZE: &'static str = r#"document.getElementById('window-minimize').addEventListener('click', event => {
      event.stopPropagation();
      if (typeof invoke === 'function') {
        invoke('window_minimize')"#;

/// What stands before `SPLASH_ON_CLOSE`.
pub const SPLASH_TO_ON_CLOSE: &'static str = r#".catch(error => {
          console.error('Failed to minimize splash window', error);
        });
      }
    });

    "#;

/// Listens to the close button.
pub const SPLASH_ON_CLOSE: &'static str = r#"document.getElementById('window-close').addEventListener('click', event => {
      event.stopPropagation();
      if (typeof invoke === 'function') {
        invoke('window_close')"#;

/// What stands before `SPLASH_ON_LOG_BUTTON`.
pub const SPLASH_TO_ON_LOG_BUTTON: &'static str = r#".catch(error => {
          console.error('Failed to close splash window', error);
        });
      }
    });

    "#;

/// Listens to the log button.
pub const SPLASH_ON_LOG_BUTTON: &'static str = "document.getElementById('splash-log-button').addEventListener('click', async () => {";

/// What stands before `SPLASH_LOG_COMMAND`.
pub const SPLASH_TO_LOG_COMMAND: &'static str = r#"
      const button = document.getElementById('splash-log-button');
      const progressMeta = document.getElementById('progress-meta');
      button.disabled = true;
      progressMeta.textContent = i18n.preparingLog;
      try {
        if (typeof invoke !== 'function') {
          throw new Error('Tauri invoke is unavailable');
        }
        "#;

/// Asks the launcher for its log and tells its name.
pub const SPLASH_LOG_COMMAND: &'static str = r#"const filename = await invoke('download_today_launcher_log');
        progressMeta.textContent = i18n.logSavedPrefix + filename;"#;

/// What stands before `SPLASH_LOG_FAILED`.
pub const SPLASH_TO_LOG_FAILED: &'static str = r#"
      } catch (error) {
        "#;

/// Tells that the log cannot be had.
pub const SPLASH_LOG_FAILED: &'static str = "progressMeta.textContent = i18n.logFailed + (error && error.message ? error.message : error);";

/// What stands before `SPLASH_PAGE_READY`.
pub const SPLASH_TO_PAGE_READY: &'static str = r#"
      } finally {
        button.disabled = false;
      }
    });

    "#;

/// Tells that the page is ready.
pub const SPLASH_PAGE_READY: &'static str = "window.__ALAS_SPLASH_READY = true;";

/// The rest: the controls of the window and the end of the page.
pub const SPLASH_SCRIPT_CONTROLS_END: &'static str = r#"
  </script>
</body>
</html>"#;

/// The names of the slots, in the order in which they are filled.
pub open spec fn splash_names() -> Seq<Seq<char>> {
    seq![
        "$VIDEO_BG"@,
        "$MI_SANS_FONT"@,
        "$LAUNCHER_VERSION"@,
        "$I18N_JSON"@,
        "$NATIVE_TOUCH_DRAG"@,
        "$I18N_INITIALIZING"@,
        "$I18N_MINIMIZE"@,
        "$I18N_CLOSE"@,
        "$I18N_STARTING"@,
        "$I18N_WEBUI_INIT"@,
        "$I18N_DEFAULT_TIP"@,
        "$I18N_PROGRESS_META"@,
        "$I18N_DOWNLOAD_LOG"@,
    ]
}

/// The template of the page: fixed text and numbered slots.
pub open spec fn splash_pieces() -> Seq<Piece> {
    seq![
        Piece::Text(SPLASH_HTML_HEAD@),
        Piece::Text(SPLASH_FONT_OPEN@),
        Piece::Slot(1),
        Piece::Text(SPLASH_FONT_CLOSE@),
        Piece::Text(SPLASH_STYLE_BASE@),
        Piece::Text(SPLASH_STYLE_TOP_BAR@),
        Piece::Text(SPLASH_STYLE_BUTTONS@),
        Piece::Text(SPLASH_STYLE_PROGRESS@),
        Piece::Text(SPLASH_STYLE_FOOTER@),
        Piece::Text(SPLASH_STYLE_STATES@),
        Piece::Text(SPLASH_VIDEO_OPEN@),
        Piece::Slot(0),
        Piece::Text(SPLASH_VIDEO_CLOSE@),
        Piece::Text(SPLASH_HTML_BRAND@),
        Piece::Text(SPLASH_VERSION_OPEN@),
        Piece::Slot(2),
        Piece::Text(SPLASH_SPAN_CLOSE@),
        Piece::Text(SPLASH_HTML_BADGE@),
        Piece::Text(SPLASH_BADGE_OPEN@),
        Piece::Slot(5),
        Piece::Text(SPLASH_SPAN_CLOSE@),
        Piece::Text(SPLASH_HTML_MINIMIZE@),
        Piece::Text(SPLASH_MINIMIZE_OPEN@),
        Piece::Slot(6),
        Piece::Text(SPLASH_LABEL_TO_TITLE@),
        Piece::Slot(6),
        Piece::Text(SPLASH_TITLE_END@),
        Piece::Text(SPLASH_HTML_CLOSE@),
        Piece::Text(SPLASH_CLOSE_OPEN@),
        Piece::Slot(7),
        Piece::Text(SPLASH_LABEL_TO_TITLE@),
        Piece::Slot(7),
        Piece::Text(SPLASH_TITLE_END@),
        Piece::Text(SPLASH_HTML_TITLE@),
        Piece::Text(SPLASH_HEADLINE_OPEN@),
        Piece::Slot(8),
        Piece::Text(SPLASH_HEADLINE_CLOSE@),
        Piece::Text(SPLASH_HTML_DETAIL@),
        Piece::Text(SPLASH_DETAIL_OPEN@),
        Piece::Slot(9),
        Piece::Text(SPLASH_DETAIL_CLOSE@),
        Piece::Text(SPLASH_HTML_PROGRESS@),
        Piece::Text(SPLASH_TIP_OPEN@),
        Piece::Slot(10),
        Piece::Text(SPLASH_DIV_CLOSE@),
        Piece::Text(SPLASH_HTML_META@),
        Piece::Text(SPLASH_META_OPEN@),
        Piece::Slot(11),
        Piece::Text(SPLASH_DIV_CLOSE@),
        Piece::Text(SPLASH_HTML_LOG_BUTTON@),
        Piece::Text(SPLASH_LOG_BUTTON_OPEN@),
        Piece::Slot(12),
        Piece::Text(SPLASH_LOG_BUTTON_CLOSE@),
        Piece::Text(SPLASH_SCRIPT_START@),
        Piece::Text(SPLASH_TEXTS_OPEN@),
        Piece::Slot(3),
        Piece::Text(SPLASH_STATEMENT_END@),
        Piece::Text(SPLASH_TO_DEFAULT_TIP@),
        Piece::Text(SPLASH_DEFAULT_TIP@),
        Piece::Text(SPLASH_TO_DRAG_FLAG_OPEN@),
        Piece::Text(SPLASH_DRAG_FLAG_OPEN@),
        Piece::Slot(4),
        Piece::Text(SPLASH_STATEMENT_END@),
        Piece::Text(SPLASH_TO_NO_CONTEXT_MENU@),
        Piece::Text(SPLASH_NO_CONTEXT_MENU@),
        Piece::Text(SPLASH_SCRIPT_HELPERS_END@),
        Piece::Text(SPLASH_TO_NO_SUBTITLE@),
        Piece::Text(SPLASH_NO_SUBTITLE@),
        Piece::Text(SPLASH_TO_SUBTITLE_PATTERN@),
        Piece::Text(SPLASH_SUBTITLE_PATTERN@),
        Piece::Text(SPLASH_TO_SUBTITLE_PARTS@),
        Piece::Text(SPLASH_SUBTITLE_PARTS@),
        Piece::Text(SPLASH_TO_NO_DETAIL@),
        Piece::Text(SPLASH_NO_DETAIL@),
        Piece::Text(SPLASH_TO_UPDATE_FUNCTION@),
        Piece::Text(SPLASH_UPDATE_FUNCTION@),
        Piece::Text(SPLASH_TO_SHOW_TEXTS@),
        Piece::Text(SPLASH_SHOW_TEXTS@),
        Piece::Text(SPLASH_TO_SHOW_PROGRESS@),
        Piece::Text(SPLASH_SHOW_PROGRESS@),
        Piece::Text(SPLASH_TO_SHOW_INSTALLER@),
        Piece::Text(SPLASH_SHOW_INSTALLER@),
        Piece::Text(SPLASH_TO_SHOW_ERROR@),
        Piece::Text(SPLASH_SHOW_ERROR@),
        Piece::Text(SPLASH_SCRIPT_UPDATE_END@),
        Piece::Text(SPLASH_TO_ON_MINIMIZE@),
        Piece::Text(SPLASH_ON_MINIMIZE@),
        Piece::Text(SPLASH_TO_ON_CLOSE@),
        Piece::Text(SPLASH_ON_CLOSE@),
        Piece::Text(SPLASH_TO_ON_LOG_BUTTON@),
        Piece::Text(SPLASH_ON_LOG_BUTTON@),
        Piece::Text(SPLASH_TO_LOG_COMMAND@),
        Piece::Text(SPLASH_LOG_COMMAND@),
        Piece::Text(SPLASH_TO_LOG_FAILED@),
        Piece::Text(SPLASH_LOG_FAILED@),
        Piece::Text(SPLASH_TO_PAGE_READY@),
        Piece::Text(SPLASH_PAGE_READY@),
        Piece::Text(SPLASH_SCRIPT_CONTROLS_END@),
    ]
}

/// The names of the slots; see `splash_names`.
pub fn template_names() -> (names: Vec<&'static str>)
    ensures
        names_view(names@) == splash_names(),
{
    let names: Vec<&'static str> = vec![
        "$VIDEO_BG",
        "$MI_SANS_FONT",
        "$LAUNCHER_VERSION",
        "$I18N_JSON",
        "$NATIVE_TOUCH_DRAG",
        "$I18N_INITIALIZING",
        "$I18N_MINIMIZE",
        "$I18N_CLOSE",
        "$I18N_STARTING",
        "$I18N_WEBUI_INIT",
        "$I18N_DEFAULT_TIP",
        "$I18N_PROGRESS_META",
        "$I18N_DOWNLOAD_LOG",
    ];
    assert(names_view(names@) =~= splash_names());
    names
}

/// The template of the page; see `splash_pieces`.
pub fn template_pieces() -> (pieces: Vec<TemplatePiece>)
    ensures
        pieces_view(pieces@) == splash_pieces(),
{
    let pieces: Vec<TemplatePiece> = vec![
        TemplatePiece::Text(SPLASH_HTML_HEAD),
        TemplatePiece::Text(SPLASH_FONT_OPEN),
        TemplatePiece::Slot(1),
        TemplatePiece::Text(SPLASH_FONT_CLOSE),
        TemplatePiece::Text(SPLASH_STYLE_BASE),
        TemplatePiece::Text(SPLASH_STYLE_TOP_BAR),
        TemplatePiece::Text(SPLASH_STYLE_BUTTONS),
        TemplatePiece::Text(SPLASH_STYLE_PROGRESS),
        TemplatePiece::Text(SPLASH_STYLE_FOOTER),
        TemplatePiece::Text(SPLASH_STYLE_STATES),
        TemplatePiece::Text(SPLASH_VIDEO_OPEN),
        TemplatePiece::Slot(0),
        TemplatePiece::Text(SPLASH_VIDEO_CLOSE),
        TemplatePiece::Text(SPLASH_HTML_BRAND),
        TemplatePiece::Text(SPLASH_VERSION_OPEN),
        TemplatePiece::Slot(2),
        TemplatePiece::Text(SPLASH_SPAN_CLOSE),
        TemplatePiece::Text(SPLASH_HTML_BADGE),
        TemplatePiece::Text(SPLASH_BADGE_OPEN),
        TemplatePiece::Slot(5),
        TemplatePiece::Text(SPLASH_SPAN_CLOSE),
        TemplatePiece::Text(SPLASH_HTML_MINIMIZE),
        TemplatePiece::Text(SPLASH_MINIMIZE_OPEN),
        TemplatePiece::Slot(6),
        TemplatePiece::Text(SPLASH_LABEL_TO_TITLE),
        TemplatePiece::Slot(6),
        TemplatePiece::Text(SPLASH_TITLE_END),
        TemplatePiece::Text(SPLASH_HTML_CLOSE),
        TemplatePiece::Text(SPLASH_CLOSE_OPEN),
        TemplatePiece::Slot(7),
        TemplatePiece::Text(SPLASH_LABEL_TO_TITLE),
        TemplatePiece::Slot(7),
        TemplatePiece::Text(SPLASH_TITLE_END),
        TemplatePiece::Text(SPLASH_HTML_TITLE),
        TemplatePiece::Text(SPLASH_HEADLINE_OPEN),
        TemplatePiece::Slot(8),
        TemplatePiece::Text(SPLASH_HEADLINE_CLOSE),
        TemplatePiece::Text(SPLASH_HTML_DETAIL),
        TemplatePiece::Text(SPLASH_DETAIL_OPEN),
        TemplatePiece::Slot(9),
        TemplatePiece::Text(SPLASH_DETAIL_CLOSE),
        TemplatePiece::Text(SPLASH_HTML_PROGRESS),
        TemplatePiece::Text(SPLASH_TIP_OPEN),
        TemplatePiece::Slot(10),
        TemplatePiece::Text(SPLASH_DIV_CLOSE),
        TemplatePiece::Text(SPLASH_HTML_META),
        TemplatePiece::Text(SPLASH_META_OPEN),
        TemplatePiece::Slot(11),
        TemplatePiece::Text(SPLASH_DIV_CLOSE),
        TemplatePiece::Text(SPLASH_HTML_LOG_BUTTON),
        TemplatePiece::Text(SPLASH_LOG_BUTTON_OPEN),
        TemplatePiece::Slot(12),
        TemplatePiece::Text(SPLASH_LOG_BUTTON_CLOSE),
        TemplatePiece::Text(SPLASH_SCRIPT_START),
        TemplatePiece::Text(SPLASH_TEXTS_OPEN),
        TemplatePiece::Slot(3),
        TemplatePiece::Text(SPLASH_STATEMENT_END),
        TemplatePiece::Text(SPLASH_TO_DEFAULT_TIP),
        TemplatePiece::Text(SPLASH_DEFAULT_TIP),
        TemplatePiece::Text(SPLASH_TO_DRAG_FLAG_OPEN),
        TemplatePiece::Text(SPLASH_DRAG_FLAG_OPEN),
        TemplatePiece::Slot(4),
        TemplatePiece::Text(SPLASH_STATEMENT_END),
        TemplatePiece::Text(SPLASH_TO_NO_CONTEXT_MENU),
        TemplatePiece::Text(SPLASH_NO_CONTEXT_MENU),
        TemplatePiece::Text(SPLASH_SCRIPT_HELPERS_END),
        TemplatePiece::Text(SPLASH_TO_NO_SUBTITLE),
        TemplatePiece::Text(SPLASH_NO_SUBTITLE),
        TemplatePiece::Text(SPLASH_TO_SUBTITLE_PATTERN),
        TemplatePiece::Text(SPLASH_SUBTITLE_PATTERN),
        TemplatePiece::Text(SPLASH_TO_SUBTITLE_PARTS),
        TemplatePiece::Text(SPLASH_SUBTITLE_PARTS),
        TemplatePiece::Text(SPLASH_TO_NO_DETAIL),
        TemplatePiece::Text(SPLASH_NO_DETAIL),
        TemplatePiece::Text(SPLASH_TO_UPDATE_FUNCTION),
        TemplatePiece::Text(SPLASH_UPDATE_FUNCTION),
        TemplatePiece::Text(SPLASH_TO_SHOW_TEXTS),
        TemplatePiece::Text(SPLASH_SHOW_TEXTS),
        TemplatePiece::Text(SPLASH_TO_SHOW_PROGRESS),
        TemplatePiece::Text(SPLASH_SHOW_PROGRESS),
        TemplatePiece::Text(SPLASH_TO_SHOW_INSTALLER),
        TemplatePiece::Text(SPLASH_SHOW_INSTALLER),
        TemplatePiece::Text(SPLASH_TO_SHOW_ERROR),
        TemplatePiece::Text(SPLASH_SHOW_ERROR),
        TemplatePiece::Text(SPLASH_SCRIPT_UPDATE_END),
        TemplatePiece::Text(SPLASH_TO_ON_MINIMIZE),
        TemplatePiece::Text(SPLASH_ON_MINIMIZE),
        TemplatePiece::Text(SPLASH_TO_ON_CLOSE),
        TemplatePiece::Text(SPLASH_ON_CLOSE),
        TemplatePiece::Text(SPLASH_TO_ON_LOG_BUTTON),
        TemplatePiece::Text(SPLASH_ON_LOG_BUTTON),
        TemplatePiece::Text(SPLASH_TO_LOG_COMMAND),
        TemplatePiece::Text(SPLASH_LOG_COMMAND),
        TemplatePiece::Text(SPLASH_TO_LOG_FAILED),
        TemplatePiece::Text(SPLASH_LOG_FAILED),
        TemplatePiece::Text(SPLASH_TO_PAGE_READY),
        TemplatePiece::Text(SPLASH_PAGE_READY),
        TemplatePiece::Text(SPLASH_SCRIPT_CONTROLS_END),
    ];
    assert(pieces_view(pieces@) =~= splash_pieces());
    pieces
}

/// Every slot of the template has a name.
pub proof fn lemma_splash_slots()
    ensures
        slots_below(splash_pieces(), splash_names().len()),
{
}

/// The names are such that none can be mistaken for another.
pub proof fn lemma_splash_names()
    ensures
        are_names(splash_names()),
{
    reveal_strlit("$VIDEO_BG");
    reveal_strlit("$MI_SANS_FONT");
    reveal_strlit("$LAUNCHER_VERSION");
    reveal_strlit("$I18N_JSON");
    reveal_strlit("$NATIVE_TOUCH_DRAG");
    reveal_strlit("$I18N_INITIALIZING");
    reveal_strlit("$I18N_MINIMIZE");
    reveal_strlit("$I18N_CLOSE");
    reveal_strlit("$I18N_STARTING");
    reveal_strlit("$I18N_WEBUI_INIT");
    reveal_strlit("$I18N_DEFAULT_TIP");
    reveal_strlit("$I18N_PROGRESS_META");
    reveal_strlit("$I18N_DOWNLOAD_LOG");
    let names = splash_names();
    assert(names[0].len() == 9 && names[0][1] == 'V' && names[0][6] == '_' && names[0][7] == 'B');
    assert(names[1].len() == 13 && names[1][1] == 'M' && names[1][6] == 'N' && names[1][7] == 'S');
    assert(names[2].len() == 17 && names[2][1] == 'L' && names[2][6] == 'H' && names[2][7] == 'E');
    assert(names[3].len() == 10 && names[3][1] == 'I' && names[3][6] == 'J' && names[3][7] == 'S');
    assert(names[4].len() == 18 && names[4][1] == 'N' && names[4][6] == 'E' && names[4][7] == '_');
    assert(names[5].len() == 18 && names[5][1] == 'I' && names[5][6] == 'I' && names[5][7] == 'N');
    assert(names[6].len() == 14 && names[6][1] == 'I' && names[6][6] == 'M' && names[6][7] == 'I');
    assert(names[7].len() == 11 && names[7][1] == 'I' && names[7][6] == 'C' && names[7][7] == 'L');
    assert(names[8].len() == 14 && names[8][1] == 'I' && names[8][6] == 'S' && names[8][7] == 'T');
    assert(names[9].len() == 16 && names[9][1] == 'I' && names[9][6] == 'W' && names[9][7] == 'E');
    assert(names[10].len() == 17 && names[10][1] == 'I' && names[10][6] == 'D' && names[10][7] == 'E');
    assert(names[11].len() == 19 && names[11][1] == 'I' && names[11][6] == 'P' && names[11][7] == 'R');
    assert(names[12].len() == 18 && names[12][1] == 'I' && names[12][6] == 'D' && names[12][7] == 'O');
    assert forall|k: int| 0 <= k < names.len() implies is_name(#[trigger] names[k]) by {
        assert(names[k].len() >= 9 && names[k][0] == '$' && is_upper(names[k][1]));
        assert forall|i: int| 0 <= i < names[k].skip(1).len() implies #[trigger] names[k].skip(1)[i]
            != '$' by {
            assert(names[k].skip(1)[i] == names[k][i + 1]);
        }
    }
    assert forall|j: int, k: int|
        0 <= j < names.len() && 0 <= k < names.len() && j != k implies !(#[trigger] names[j])
            .is_prefix_of(#[trigger] names[k]) by {
        if names[j].is_prefix_of(names[k]) {
            assert(names[j].len() >= 9);
            assert(names[j][1] == names[k][1]);
            assert(names[j][6] == names[k][6]);
            assert(names[j][7] == names[k][7]);
        }
    }
}

proof fn lemma_splash_html_head_inert()
    ensures
        inert(SPLASH_HTML_HEAD@),
{
    reveal_strlit(r#"<!doctype html>
<html lang="zh-CN">
<head>
<meta charset="utf-8">
<meta name="viewport" content="width=device-width, initial-scale=1">
<style>
  @font-face {
    font-family: "MiSans";
    "#);
}

proof fn lemma_splash_font_open_inert()
    ensures
        inert(SPLASH_FONT_OPEN@),
{
    reveal_strlit("src: url(data:font/ttf;base64,");
}

proof fn lemma_splash_font_close_inert()
    ensures
        inert(SPLASH_FONT_CLOSE@),
{
    reveal_strlit(r#") format("truetype");"#);
}

#[verifier::rlimit(60)]
proof fn lemma_splash_style_base_inert()
    ensures
        inert(SPLASH_STYLE_BASE@),
{
    reveal_strlit(r#"
    font-weight: 100 900;
    font-style: normal;
    font-display: swap;
  }
  :root {
    --primary-color: #4facfe;
    --secondary-color: #00f2fe;
    --text-main: #ffffff;
    --text-sub: rgba(255, 255, 255, 0.76);
    --text-muted: rgba(255, 255, 255, 0.52);
    --surface-soft: rgba(255, 255, 255, 0.16);
    --surface-border: rgba(255, 255, 255, 0.15);
    --danger: #ff5f57;
    --warning: #ffbd2e;
  }
  * {
    box-sizing: border-box;
    margin: 0;
    padding: 0;
    user-select: none;
  }
  html,
  body {
    width: 100%;
    height: 100%;
    overflow: hidden;
    background: #111827;
  }
  body {
    font-family: "MiSans", sans-serif;
    font-weight: 420;
    font-synthesis: none;
    color: var(--text-main);
  }
  button {
    font: inherit;
  }
  .launcher-window {
    position: relative;
    width: 100%;
    height: 100%;
    overflow: hidden;
    border-radius: 0;
    background: #111827;
    box-shadow: none;
    display: flex;
    flex-direction: column;
    justify-content: space-between;
  }
  .splash-background-video {
    position: absolute;
    inset: 0;
    z-index: 0;
    width: 100%;
    height: 100%;
    object-fit: cover;
    pointer-events: none;
  }
  .launcher-window::before {
    content: "";
    position: absolute;
    inset: 0;
    z-index: 1;
    background:
      linear-gradient(to bottom, rgba(0, 0, 0, 0.05) 0%, rgba(0, 0, 0, 0.03) 42%, rgba(0, 0, 0, 0.28) 100%),
      linear-gradient(115deg, rgba(12, 30, 72, 0.10), rgba(255, 126, 117, 0.05));
    pointer-events: none;
  }
"#);
}

#[verifier::rlimit(60)]
proof fn lemma_splash_style_top_bar_inert()
    ensures
        inert(SPLASH_STYLE_TOP_BAR@),
{
    reveal_strlit(r#"  .top-bar {
    position: relative;
    z-index: 2;
    display: flex;
    justify-content: space-between;
    align-items: center;
    min-height: 56px;
    padding: 10px 18px;
    touch-action: none;
    app-region: drag;
    -webkit-app-region: drag;
  }
  .brand-zone {
    display: flex;
    align-items: center;
    min-width: 0;
    gap: 10px;
  }
  .app-title {
    color: var(--text-main);
    font-size: 18px;
    font-weight: 610;
    letter-spacing: 0;
    text-shadow: 0 2px 6px rgba(0, 0, 0, 0.22);
  }
  .app-version {
    color: var(--text-sub);
    font-size: 12px;
    font-weight: 460;
    line-height: 1;
    background: rgba(255, 255, 255, 0.14);
    border: 1px solid rgba(255, 255, 255, 0.11);
    padding: 4px 9px;
    border-radius: 999px;
    backdrop-filter: blur(8px);
  }
  .top-right {
    display: flex;
    align-items: center;
    gap: 8px;
    min-width: 0;
  }
  .status-badge {
    max-width: 260px;
    min-height: 32px;
    display: inline-flex;
    align-items: center;
    gap: 7px;
    border-radius: 999px;
    padding: 6px 13px;
    color: #394451;
    background: rgba(250, 250, 247, 0.78);
    border: 1px solid rgba(255, 255, 255, 0.92);
    backdrop-filter: blur(16px) saturate(1.2);
    box-shadow: 0 4px 14px rgba(61, 79, 97, 0.1), inset 0 1px 0 rgba(255, 255, 255, 0.36);
    font-size: 12px;
    font-weight: 460;
    white-space: nowrap;
    overflow: hidden;
    text-overflow: ellipsis;
  }
  .status-badge::before {
    content: "";
    width: 6px;
    height: 6px;
    border-radius: 50%;
    background: var(--secondary-color);
    box-shadow: 0 0 12px rgba(0, 242, 254, 0.7);
    flex: 0 0 auto;
  }
  .window-controls {
    display: flex;
    align-items: center;
    gap: 2px;
    min-height: 36px;
    padding: 3px 4px;
    border: 1px solid rgba(255, 255, 255, 0.92);
    border-radius: 18px;
    background: rgba(250, 250, 247, 0.78);
    box-shadow: 0 4px 14px rgba(61, 79, 97, 0.1), inset 0 1px 0 rgba(255, 255, 255, 0.36);
    backdrop-filter: blur(16px) saturate(1.2);
    flex: 0 0 auto;
    app-region: no-drag;
    -webkit-app-region: no-drag;
  }
  .window-controls * {
    app-region: no-drag;
    -webkit-app-region: no-drag;
  }
"#);
}

#[verifier::rlimit(60)]
proof fn lemma_splash_style_buttons_inert()
    ensures
        inert(SPLASH_STYLE_BUTTONS@),
{
    reveal_strlit(r#"  .win-btn {
    width: 28px;
    height: 28px;
    border: 0;
    border-radius: 12px;
    display: inline-flex;
    align-items: center;
    justify-content: center;
    cursor: pointer;
    padding: 0;
    color: #727b86;
    background: transparent;
    transition: transform 140ms cubic-bezier(.23, 1, .32, 1), background-color 140ms ease, color 140ms ease;
  }
  .win-btn:hover {
    color: #202832;
    background: rgba(255, 255, 255, 0.72);
  }
  .win-btn:active {
    transform: scale(0.96);
  }
  .win-btn svg {
    width: 11px;
    height: 11px;
    stroke: currentColor;
    stroke-width: 1.35;
    stroke-linecap: round;
    opacity: 1;
  }
  .win-btn.minimize {
    color: #727b86;
  }
  .win-btn.close {
    color: #e64f58;
  }
  .win-btn.close:hover {
    color: #b5202e;
    background: rgba(244, 91, 91, 0.15);
  }
  .main-content {
    position: relative;
    z-index: 2;
    padding: 0 40px 35px;
  }
  .update-status {
    margin-bottom: 25px;
    max-width: min(650px, 100%);
  }
  .title-group {
    display: flex;
    align-items: center;
    gap: 12px;
    margin-bottom: 8px;
  }
  .spinner {
    width: 22px;
    height: 22px;
    border: 2.5px solid rgba(255, 255, 255, 0.24);
    border-top-color: var(--text-main);
    border-radius: 50%;
    animation: spin 0.9s linear infinite;
    flex: 0 0 auto;
  }
  .err-dot {
    width: 22px;
    height: 22px;
    border-radius: 50%;
    background: #ffffff;
    color: #c73532;
    align-items: center;
    justify-content: center;
    font-size: 14px;
    font-weight: 800;
    box-shadow: 0 5px 16px rgba(0, 0, 0, 0.2);
    flex: 0 0 auto;
  }
  .main-action-text {
    min-width: 0;
    color: var(--text-main);
    font-size: 24px;
    line-height: 1.2;
    font-weight: 620;
    letter-spacing: 0;
    text-shadow: 0 2px 10px rgba(0, 0, 0, 0.32);
  }
  .sub-action-text {
    color: var(--text-sub);
    font-size: 12px;
    font-weight: 480;
    letter-spacing: 1.2px;
    line-height: 1.45;
    margin: 0;
    max-width: min(650px, 100%);
    max-height: 54px;
    overflow: hidden;
    text-shadow: 0 1px 5px rgba(0, 0, 0, 0.28);
    white-space: pre-line;
  }
"#);
}

#[verifier::rlimit(60)]
proof fn lemma_splash_style_progress_inert()
    ensures
        inert(SPLASH_STYLE_PROGRESS@),
{
    reveal_strlit(r#"  .progress-container {
    display: grid;
    grid-template-columns: minmax(0, 1fr) auto;
    align-items: center;
    gap: 12px;
    margin-bottom: 15px;
  }
  .progress-bar-bg {
    grid-column: 1;
    grid-row: 1;
    width: 100%;
    height: 5px;
    border-radius: 999px;
    background: rgba(255, 255, 255, 0.2);
    overflow: hidden;
    box-shadow: inset 0 1px 1px rgba(0, 0, 0, 0.12);
    backdrop-filter: blur(8px);
  }
  .progress-bar-fill {
    width: 4%;
    height: 100%;
    border-radius: inherit;
    background: linear-gradient(90deg, #4facfe, #43d7f5);
    box-shadow: 0 0 10px rgba(67, 215, 245, 0.38);
    position: relative;
    overflow: hidden;
    transition: width 0.35s cubic-bezier(.23, 1, .32, 1), background-color 0.2s ease;
  }
  .progress-bar-fill::after {
    display: none;
  }
  .progress-bar-fill-error {
    background: linear-gradient(90deg, #ff5f57, #ffbd2e);
    box-shadow: 0 0 14px rgba(255, 95, 87, 0.46);
  }
  .progress-bar-fill-error::after {
    display: none;
  }
  .progress-percentage {
    grid-column: 2;
    grid-row: 1;
    min-width: 34px;
    color: var(--text-main);
    font-size: 12px;
    font-weight: 560;
    text-align: right;
    font-variant-numeric: tabular-nums;
    text-shadow: 0 1px 5px rgba(0, 0, 0, 0.28);
  }
  .uv-progress-container {
    display: none;
    margin-top: -3px;
    margin-bottom: 15px;
  }
  .uv-progress-container.is-visible {
    display: block;
  }
  .uv-progress-header {
    display: flex;
    align-items: baseline;
    justify-content: space-between;
    gap: 12px;
    margin-bottom: 6px;
    color: var(--text-sub);
    font-size: 11px;
    font-variant-numeric: tabular-nums;
  }
  .uv-progress-detail {
    flex: 1 1 auto;
    min-width: 0;
    overflow: hidden;
    text-align: right;
    text-overflow: ellipsis;
    white-space: nowrap;
  }
  .uv-progress-bar-bg {
    width: 100%;
    height: 4px;
    overflow: hidden;
    border-radius: 999px;
    background: rgba(255, 255, 255, 0.14);
  }
  .uv-progress-bar-fill {
    position: relative;
    width: 2%;
    height: 100%;
    overflow: hidden;
    border-radius: inherit;
    background: #55cda0;
    box-shadow: 0 0 8px rgba(85, 205, 160, 0.34);
    transition: width 0.4s cubic-bezier(.23, 1, .32, 1);
  }
  .uv-progress-bar-fill::after {
    display: none;
  }
"#);
}

#[verifier::rlimit(60)]
proof fn lemma_splash_style_footer_inert()
    ensures
        inert(SPLASH_STYLE_FOOTER@),
{
    reveal_strlit(r#"  .footer-info {
    display: flex;
    justify-content: space-between;
    align-items: center;
    gap: 16px;
    min-height: 28px;
    font-size: 12px;
  }
  .tip-text {
    display: inline-flex;
    align-items: center;
    gap: 8px;
    min-width: 0;
    max-width: 520px;
    color: var(--text-sub);
    background: rgba(15, 23, 42, 0.26);
    border: 1px solid rgba(255, 255, 255, 0.16);
    border-radius: 12px;
    padding: 7px 12px;
    overflow: hidden;
    text-overflow: ellipsis;
    white-space: nowrap;
    font-weight: 460;
    backdrop-filter: blur(12px) saturate(1.1);
  }
  .tip-text::before {
    content: "✦";
    color: var(--primary-color);
    font-size: 12px;
    line-height: 1;
    text-shadow: 0 0 10px rgba(79, 172, 254, 0.55);
    flex: 0 0 auto;
  }
  .footer-right {
    display: flex;
    align-items: center;
    justify-content: flex-end;
    gap: 10px;
    flex: 0 0 auto;
  }
  .notice-text {
    color: var(--text-muted);
    white-space: nowrap;
    font-weight: 450;
  }
  .splash-actions {
    display: none;
  }
  .splash-actions-err {
    display: block;
  }
  .splash-log-button {
    min-height: 34px;
    border: 1px solid rgba(255, 255, 255, 0.78);
    border-radius: 12px;
    padding: 0 14px;
    color: #394451;
    background: rgba(250, 250, 247, 0.78);
    box-shadow: 0 4px 14px rgba(61, 79, 97, 0.1), inset 0 1px 0 rgba(255, 255, 255, 0.36);
    backdrop-filter: blur(14px) saturate(1.15);
    cursor: pointer;
    font-size: 12px;
    font-weight: 560;
    transition: transform 140ms cubic-bezier(.23, 1, .32, 1), background-color 140ms ease;
  }
  .splash-log-button:hover {
    background: rgba(255, 255, 255, 0.9);
  }
  .splash-log-button:active {
    transform: scale(0.97);
  }
  .splash-log-button:disabled {
    cursor: default;
    opacity: 0.65;
  }
"#);
}

#[verifier::rlimit(60)]
proof fn lemma_splash_style_states_inert()
    ensures
        inert(SPLASH_STYLE_STATES@),
{
    reveal_strlit(r#"  body.error-state .status-badge {
    background: rgba(255, 255, 255, 0.18);
    animation: none;
  }
  body.error-state .status-badge::before {
    background: #ff5f57;
    box-shadow: 0 0 12px rgba(255, 95, 87, 0.76);
  }
  body.error-state .tip-text {
    border-color: rgba(255, 189, 46, 0.42);
  }
  body.error-state .tip-text::before {
    color: #ffbd2e;
  }
  @media (max-width: 720px) {
    .top-bar {
      padding: 10px 16px;
    }
    .status-badge {
      max-width: 180px;
    }
    .main-content {
      padding: 0 28px 28px;
    }
    .main-action-text {
      font-size: 22px;
    }
  }
  @media (max-width: 560px), (max-height: 340px) {
    .top-right {
      gap: 12px;
    }
    .status-badge {
      display: none;
    }
    .footer-info {
      flex-direction: column;
      align-items: flex-start;
      gap: 8px;
    }
    .footer-right {
      width: 100%;
      justify-content: space-between;
    }
    .tip-text {
      max-width: 100%;
    }
  }
  @media (max-height: 340px) {
    .main-content {
      padding-bottom: 24px;
    }
    .update-status {
      margin-bottom: 18px;
    }
    .sub-action-text {
      max-height: 36px;
    }
  }
  @keyframes spin {
    to { transform: rotate(360deg); }
  }
</style>
</head>
<body>
  <div class="launcher-window">
    <video class="splash-background-video" autoplay muted loop playsinline preload="auto" aria-hidden="true">
      "#);
}

proof fn lemma_splash_video_open_inert()
    ensures
        inert(SPLASH_VIDEO_OPEN@),
{
    reveal_strlit(r#"<source src="data:video/mp4;base64,"#);
}

proof fn lemma_splash_video_close_inert()
    ensures
        inert(SPLASH_VIDEO_CLOSE@),
{
    reveal_strlit(r#"" type="video/mp4">"#);
}

proof fn lemma_splash_html_brand_inert()
    ensures
        inert(SPLASH_HTML_BRAND@),
{
    reveal_strlit(r#"
    </video>
    <div id="splash-drag-region" class="top-bar" data-tauri-drag-region>
      <div class="brand-zone">
        <span class="app-title">AzurPilot</span>
        "#);
}

proof fn lemma_splash_version_open_inert()
    ensures
        inert(SPLASH_VERSION_OPEN@),
{
    reveal_strlit(r#"<span class="app-version">v"#);
}

proof fn lemma_splash_span_close_inert()
    ensures
        inert(SPLASH_SPAN_CLOSE@),
{
    reveal_strlit("</span>");
}

proof fn lemma_splash_html_badge_inert()
    ensures
        inert(SPLASH_HTML_BADGE@),
{
    reveal_strlit(r#"
      </div>
      <div class="top-right">
        <div id="badge" class="status-badge">
          "#);
}

proof fn lemma_splash_badge_open_inert()
    ensures
        inert(SPLASH_BADGE_OPEN@),
{
    reveal_strlit(r#"<span id="badge-text">"#);
}

proof fn lemma_splash_html_minimize_inert()
    ensures
        inert(SPLASH_HTML_MINIMIZE@),
{
    reveal_strlit(r#"
        </div>
        <div class="window-controls">
          "#);
}

proof fn lemma_splash_minimize_open_inert()
    ensures
        inert(SPLASH_MINIMIZE_OPEN@),
{
    reveal_strlit(r#"<button id="window-minimize" class="win-btn minimize" type="button" aria-label=""#);
}

proof fn lemma_splash_label_to_title_inert()
    ensures
        inert(SPLASH_LABEL_TO_TITLE@),
{
    reveal_strlit(r#"" title=""#);
}

proof fn lemma_splash_title_end_inert()
    ensures
        inert(SPLASH_TITLE_END@),
{
    reveal_strlit(r#"">"#);
}

proof fn lemma_splash_html_close_inert()
    ensures
        inert(SPLASH_HTML_CLOSE@),
{
    reveal_strlit(r#"
            <svg viewBox="0 0 8 8" aria-hidden="true"><line x1="2" y1="4" x2="6" y2="4"></line></svg>
          </button>
          "#);
}

proof fn lemma_splash_close_open_inert()
    ensures
        inert(SPLASH_CLOSE_OPEN@),
{
    reveal_strlit(r#"<button id="window-close" class="win-btn close" type="button" aria-label=""#);
}

proof fn lemma_splash_html_title_inert()
    ensures
        inert(SPLASH_HTML_TITLE@),
{
    reveal_strlit(r#"
            <svg viewBox="0 0 8 8" aria-hidden="true"><line x1="2" y1="2" x2="6" y2="6"></line><line x1="6" y1="2" x2="2" y2="6"></line></svg>
          </button>
        </div>
      </div>
    </div>

    <div class="main-content">
      <div class="update-status">
        <div class="title-group">
          <div id="spinner" class="spinner"></div>
          <div id="error-dot" class="err-dot" style="display:none;">!</div>
          "#);
}

proof fn lemma_splash_headline_open_inert()
    ensures
        inert(SPLASH_HEADLINE_OPEN@),
{
    reveal_strlit(r#"<h1 id="title" class="main-action-text">"#);
}

proof fn lemma_splash_headline_close_inert()
    ensures
        inert(SPLASH_HEADLINE_CLOSE@),
{
    reveal_strlit("</h1>");
}

proof fn lemma_splash_html_detail_inert()
    ensures
        inert(SPLASH_HTML_DETAIL@),
{
    reveal_strlit(r#"
        </div>
        "#);
}

proof fn lemma_splash_detail_open_inert()
    ensures
        inert(SPLASH_DETAIL_OPEN@),
{
    reveal_strlit(r#"<p id="detail" class="sub-action-text">"#);
}

proof fn lemma_splash_detail_close_inert()
    ensures
        inert(SPLASH_DETAIL_CLOSE@),
{
    reveal_strlit("</p>");
}

proof fn lemma_splash_html_progress_inert()
    ensures
        inert(SPLASH_HTML_PROGRESS@),
{
    reveal_strlit(r#"
      </div>

      <div class="progress-container">
        <div id="progress-pct" class="progress-percentage">4%</div>
        <div class="progress-bar-bg">
          <div id="progress-fill" class="progress-bar-fill" style="width: 4%;"></div>
        </div>
      </div>

      <div id="uv-progress-container" class="uv-progress-container" aria-hidden="true">
        <div class="uv-progress-header">
          <span id="uv-progress-detail" class="uv-progress-detail"></span>
          <span id="uv-progress-pct">0%</span>
        </div>
        <div class="uv-progress-bar-bg">
          <div id="uv-progress-fill" class="uv-progress-bar-fill" style="width: 2%;"></div>
        </div>
      </div>

      <div class="footer-info">
        "#);
}

proof fn lemma_splash_tip_open_inert()
    ensures
        inert(SPLASH_TIP_OPEN@),
{
    reveal_strlit(r#"<div id="tip-text" class="tip-text">"#);
}

proof fn lemma_splash_div_close_inert()
    ensures
        inert(SPLASH_DIV_CLOSE@),
{
    reveal_strlit("</div>");
}

proof fn lemma_splash_html_meta_inert()
    ensures
        inert(SPLASH_HTML_META@),
{
    reveal_strlit(r#"
        <div class="footer-right">
          "#);
}

proof fn lemma_splash_meta_open_inert()
    ensures
        inert(SPLASH_META_OPEN@),
{
    reveal_strlit(r#"<div id="progress-meta" class="notice-text">"#);
}

proof fn lemma_splash_html_log_button_inert()
    ensures
        inert(SPLASH_HTML_LOG_BUTTON@),
{
    reveal_strlit(r#"
          <div id="splash-actions" class="splash-actions">
            "#);
}

proof fn lemma_splash_log_button_open_inert()
    ensures
        inert(SPLASH_LOG_BUTTON_OPEN@),
{
    reveal_strlit(r#"<button id="splash-log-button" class="splash-log-button" type="button">"#);
}

proof fn lemma_splash_log_button_close_inert()
    ensures
        inert(SPLASH_LOG_BUTTON_CLOSE@),
{
    reveal_strlit("</button>");
}

proof fn lemma_splash_script_start_inert()
    ensures
        inert(SPLASH_SCRIPT_START@),
{
    reveal_strlit(r#"
          </div>
        </div>
      </div>
    </div>
  </div>

  <script>
    "#);
}

proof fn lemma_splash_texts_open_inert()
    ensures
        inert(SPLASH_TEXTS_OPEN@),
{
    reveal_strlit("const i18n = ");
}

proof fn lemma_splash_statement_end_inert()
    ensures
        inert(SPLASH_STATEMENT_END@),
{
    reveal_strlit(";");
}

proof fn lemma_splash_to_default_tip_inert()
    ensures
        inert(SPLASH_TO_DEFAULT_TIP@),
{
    reveal_strlit(r#"
    "#);
}

proof fn lemma_splash_default_tip_inert()
    ensures
        inert(SPLASH_DEFAULT_TIP@),
{
    reveal_strlit("const defaultTip = i18n.defaultTip;");
}

proof fn lemma_splash_to_drag_flag_open_inert()
    ensures
        inert(SPLASH_TO_DRAG_FLAG_OPEN@),
{
    reveal_strlit(r#"
    const invoke =
      (window.__TAURI__ && window.__TAURI__.core && window.__TAURI__.core.invoke)
      || (window.__TAURI_INTERNALS__ && window.__TAURI_INTERNALS__.invoke);
    "#);
}

proof fn lemma_splash_drag_flag_open_inert()
    ensures
        inert(SPLASH_DRAG_FLAG_OPEN@),
{
    reveal_strlit("const webviewDraggableRegionsEnabled = ");
}

proof fn lemma_splash_to_no_context_menu_inert()
    ensures
        inert(SPLASH_TO_NO_CONTEXT_MENU@),
{
    reveal_strlit(r#"

    "#);
}

proof fn lemma_splash_no_context_menu_inert()
    ensures
        inert(SPLASH_NO_CONTEXT_MENU@),
{
    reveal_strlit(r#"window.addEventListener('contextmenu', event => {
      event.preventDefault();
    }, { capture: true });"#);
}

proof fn lemma_splash_script_helpers_end_inert()
    ensures
        inert(SPLASH_SCRIPT_HELPERS_END@),
{
    reveal_strlit(r#"

"#);
}

proof fn lemma_splash_to_no_subtitle_inert()
    ensures
        inert(SPLASH_TO_NO_SUBTITLE@),
{
    reveal_strlit(r#"    function splitSubtitle(value) {
      const text = String(value || '').trim();
      "#);
}

proof fn lemma_splash_no_subtitle_inert()
    ensures
        inert(SPLASH_NO_SUBTITLE@),
{
    reveal_strlit(r#"if (!text) {
        return { status: i18n.loading, tip: defaultTip };
      }"#);
}

proof fn lemma_splash_to_subtitle_pattern_inert()
    ensures
        inert(SPLASH_TO_SUBTITLE_PATTERN@),
{
    reveal_strlit(r#"
      "#);
}

proof fn lemma_splash_subtitle_pattern_inert()
    ensures
        inert(SPLASH_SUBTITLE_PATTERN@),
{
    reveal_strlit(r#"const match = text.match(/^(.*?)\s*\|\s*Tips[:：]\s*(.*)$/);"#);
}

proof fn lemma_splash_to_subtitle_parts_inert()
    ensures
        inert(SPLASH_TO_SUBTITLE_PARTS@),
{
    reveal_strlit(r#"
      if (!match) {
        return { status: text, tip: defaultTip };
      }
      return {
        "#);
}

proof fn lemma_splash_subtitle_parts_inert()
    ensures
        inert(SPLASH_SUBTITLE_PARTS@),
{
    reveal_strlit(r#"status: match[1].trim() || i18n.loading,
        tip: match[2].trim() || defaultTip,"#);
}

proof fn lemma_splash_to_no_detail_inert()
    ensures
        inert(SPLASH_TO_NO_DETAIL@),
{
    reveal_strlit(r#"
      };
    }

    function normalizeDetail(value) {
      const text = String(value || '').trim();
      "#);
}

proof fn lemma_splash_no_detail_inert()
    ensures
        inert(SPLASH_NO_DETAIL@),
{
    reveal_strlit("return text || i18n.webuiInit;");
}

proof fn lemma_splash_to_update_function_inert()
    ensures
        inert(SPLASH_TO_UPDATE_FUNCTION@),
{
    reveal_strlit(r#"
    }

    "#);
}

proof fn lemma_splash_update_function_inert()
    ensures
        inert(SPLASH_UPDATE_FUNCTION@),
{
    reveal_strlit("window.__ALAS_SPLASH_UPDATE = function (payload) {");
}

proof fn lemma_splash_to_show_texts_inert()
    ensures
        inert(SPLASH_TO_SHOW_TEXTS@),
{
    reveal_strlit(r#"
      const badge = document.getElementById('badge');
      const badgeText = document.getElementById('badge-text');
      const spinner = document.getElementById('spinner');
      const errorDot = document.getElementById('error-dot');
      const progressFill = document.getElementById('progress-fill');
      const progressPct = document.getElementById('progress-pct');
      const uvProgressContainer = document.getElementById('uv-progress-container');
      const uvProgressFill = document.getElementById('uv-progress-fill');
      const uvProgressPct = document.getElementById('uv-progress-pct');
      const uvProgressDetail = document.getElementById('uv-progress-detail');
      const progressMeta = document.getElementById('progress-meta');
      const splashActions = document.getElementById('splash-actions');
      const subtitle = splitSubtitle(payload.subtitle);

      "#);
}

proof fn lemma_splash_show_texts_inert()
    ensures
        inert(SPLASH_SHOW_TEXTS@),
{
    reveal_strlit(r#"badgeText.textContent = payload.is_error ? i18n.errorBadge : subtitle.status;
      document.getElementById('tip-text').textContent = subtitle.tip;
      document.getElementById('title').textContent = payload.title || i18n.starting;
      document.getElementById('detail').textContent = normalizeDetail(payload.detail);
      progressMeta.textContent = payload.is_error
        ? i18n.initStopped
        : i18n.progressMetaReady;"#);
}

proof fn lemma_splash_to_show_progress_inert()
    ensures
        inert(SPLASH_TO_SHOW_PROGRESS@),
{
    reveal_strlit(r#"

      "#);
}

proof fn lemma_splash_show_progress_inert()
    ensures
        inert(SPLASH_SHOW_PROGRESS@),
{
    reveal_strlit(r#"const progress = Math.max(0, Math.min(100, Number(payload.progress || 0)));
      progressFill.style.width = progress + '%';
      progressPct.textContent = progress + '%';"#);
}

proof fn lemma_splash_to_show_installer_inert()
    ensures
        inert(SPLASH_TO_SHOW_INSTALLER@),
{
    reveal_strlit(r#"

      const uvState = payload.uv_progress;
      const hasUvProgress = !payload.is_error
        && uvState
        && Number.isFinite(Number(uvState.progress));
      uvProgressContainer.classList.toggle('is-visible', Boolean(hasUvProgress));
      uvProgressContainer.setAttribute('aria-hidden', String(!hasUvProgress));
      if (hasUvProgress) {
        "#);
}

proof fn lemma_splash_show_installer_inert()
    ensures
        inert(SPLASH_SHOW_INSTALLER@),
{
    reveal_strlit(r#"const uvProgress = Math.max(0, Math.min(99, Number(uvState.progress)));
        uvProgressFill.style.width = uvProgress + '%';
        uvProgressPct.textContent = uvProgress + '%';
        uvProgressDetail.textContent = String(uvState.detail || '');"#);
}

proof fn lemma_splash_to_show_error_inert()
    ensures
        inert(SPLASH_TO_SHOW_ERROR@),
{
    reveal_strlit(r#"
      }

      "#);
}

proof fn lemma_splash_show_error_inert()
    ensures
        inert(SPLASH_SHOW_ERROR@),
{
    reveal_strlit(r#"if (payload.is_error) {
        document.body.classList.add('error-state');"#);
}

proof fn lemma_splash_script_update_end_inert()
    ensures
        inert(SPLASH_SCRIPT_UPDATE_END@),
{
    reveal_strlit(r#"
        badge.className = 'status-badge status-badge-err';
        spinner.style.display = 'none';
        errorDot.style.display = 'flex';
        progressFill.className = 'progress-bar-fill progress-bar-fill-error';
        splashActions.className = 'splash-actions splash-actions-err';
      } else {
        document.body.classList.remove('error-state');
        badge.className = 'status-badge';
        spinner.style.display = 'block';
        errorDot.style.display = 'none';
        progressFill.className = 'progress-bar-fill';
        splashActions.className = 'splash-actions';
      }
    };

"#);
}

proof fn lemma_splash_to_on_minimize_inert()
    ensures
        inert(SPLASH_TO_ON_MINIMIZE@),
{
    reveal_strlit(r#"    document.getElementById('splash-drag-region').addEventListener('pointerdown', event => {
      if (webviewDraggableRegionsEnabled) {
        return;
      }
      if (event.pointerType !== 'touch' || event.target.closest('.window-controls')) {
        return;
      }
      event.preventDefault();
      if (typeof invoke === 'function') {
        invoke('plugin:window|start_dragging').catch(error => {
          console.error('Failed to drag splash window', error);
        });
      }
    });

    "#);
}

proof fn lemma_splash_on_minimize_inert()
    ensures
        inert(SPLASH_ON_MINIMIZE@),
{
    reveal_strlit(r#"document.getElementById('window-minimize').addEventListener('click', event => {
      event.stopPropagation();
      if (typeof invoke === 'function') {
        invoke('window_minimize')"#);
}

proof fn lemma_splash_to_on_close_inert()
    ensures
        inert(SPLASH_TO_ON_CLOSE@),
{
    reveal_strlit(r#".catch(error => {
          console.error('Failed to minimize splash window', error);
        });
      }
    });

    "#);
}

proof fn lemma_splash_on_close_inert()
    ensures
        inert(SPLASH_ON_CLOSE@),
{
    reveal_strlit(r#"document.getElementById('window-close').addEventListener('click', event => {
      event.stopPropagation();
      if (typeof invoke === 'function') {
        invoke('window_close')"#);
}

proof fn lemma_splash_to_on_log_button_inert()
    ensures
        inert(SPLASH_TO_ON_LOG_BUTTON@),
{
    reveal_strlit(r#".catch(error => {
          console.error('Failed to close splash window', error);
        });
      }
    });

    "#);
}

proof fn lemma_splash_on_log_button_inert()
    ensures
        inert(SPLASH_ON_LOG_BUTTON@),
{
    reveal_strlit("document.getElementById('splash-log-button').addEventListener('click', async () => {");
}

proof fn lemma_splash_to_log_command_inert()
    ensures
        inert(SPLASH_TO_LOG_COMMAND@),
{
    reveal_strlit(r#"
      const button = document.getElementById('splash-log-button');
      const progressMeta = document.getElementById('progress-meta');
      button.disabled = true;
      progressMeta.textContent = i18n.preparingLog;
      try {
        if (typeof invoke !== 'function') {
          throw new Error('Tauri invoke is unavailable');
        }
        "#);
}

proof fn lemma_splash_log_command_inert()
    ensures
        inert(SPLASH_LOG_COMMAND@),
{
    reveal_strlit(r#"const filename = await invoke('download_today_launcher_log');
        progressMeta.textContent = i18n.logSavedPrefix + filename;"#);
}

proof fn lemma_splash_to_log_failed_inert()
    ensures
        inert(SPLASH_TO_LOG_FAILED@),
{
    reveal_strlit(r#"
      } catch (error) {
        "#);
}

proof fn lemma_splash_log_failed_inert()
    ensures
        inert(SPLASH_LOG_FAILED@),
{
    reveal_strlit("progressMeta.textContent = i18n.logFailed + (error && error.message ? error.message : error);");
}

proof fn lemma_splash_to_page_ready_inert()
    ensures
        inert(SPLASH_TO_PAGE_READY@),
{
    reveal_strlit(r#"
      } finally {
        button.disabled = false;
      }
    });

    "#);
}

proof fn lemma_splash_page_ready_inert()
    ensures
        inert(SPLASH_PAGE_READY@),
{
    reveal_strlit("window.__ALAS_SPLASH_READY = true;");
}

proof fn lemma_splash_script_controls_end_inert()
    ensures
        inert(SPLASH_SCRIPT_CONTROLS_END@),
{
    reveal_strlit(r#"
  </script>
</body>
</html>"#);
}

/// No name of a slot begins inside the fixed text.
pub proof fn lemma_splash_texts_inert()
    ensures
        texts_inert(splash_pieces()),
{
    lemma_splash_html_head_inert();
    lemma_splash_font_open_inert();
    lemma_splash_font_close_inert();
    lemma_splash_style_base_inert();
    lemma_splash_style_top_bar_inert();
    lemma_splash_style_buttons_inert();
    lemma_splash_style_progress_inert();
    lemma_splash_style_footer_inert();
    lemma_splash_style_states_inert();
    lemma_splash_video_open_inert();
    lemma_splash_video_close_inert();
    lemma_splash_html_brand_inert();
    lemma_splash_version_open_inert();
    lemma_splash_span_close_inert();
    lemma_splash_html_badge_inert();
    lemma_splash_badge_open_inert();
    lemma_splash_html_minimize_inert();
    lemma_splash_minimize_open_inert();
    lemma_splash_label_to_title_inert();
    lemma_splash_title_end_inert();
    lemma_splash_html_close_inert();
    lemma_splash_close_open_inert();
    lemma_splash_html_title_inert();
    lemma_splash_headline_open_inert();
    lemma_splash_headline_close_inert();
    lemma_splash_html_detail_inert();
    lemma_splash_detail_open_inert();
    lemma_splash_detail_close_inert();
    lemma_splash_html_progress_inert();
    lemma_splash_tip_open_inert();
    lemma_splash_div_close_inert();
    lemma_splash_html_meta_inert();
    lemma_splash_meta_open_inert();
    lemma_splash_html_log_button_inert();
    lemma_splash_log_button_open_inert();
    lemma_splash_log_button_close_inert();
    lemma_splash_script_start_inert();
    lemma_splash_texts_open_inert();
    lemma_splash_statement_end_inert();
    lemma_splash_to_default_tip_inert();
    lemma_splash_default_tip_inert();
    lemma_splash_to_drag_flag_open_inert();
    lemma_splash_drag_flag_open_inert();
    lemma_splash_to_no_context_menu_inert();
    lemma_splash_no_context_menu_inert();
    lemma_splash_script_helpers_end_inert();
    lemma_splash_to_no_subtitle_inert();
    lemma_splash_no_subtitle_inert();
    lemma_splash_to_subtitle_pattern_inert();
    lemma_splash_subtitle_pattern_inert();
    lemma_splash_to_subtitle_parts_inert();
    lemma_splash_subtitle_parts_inert();
    lemma_splash_to_no_detail_inert();
    lemma_splash_no_detail_inert();
    lemma_splash_to_update_function_inert();
    lemma_splash_update_function_inert();
    lemma_splash_to_show_texts_inert();
    lemma_splash_show_texts_inert();
    lemma_splash_to_show_progress_inert();
    lemma_splash_show_progress_inert();
    lemma_splash_to_show_installer_inert();
    lemma_splash_show_installer_inert();
    lemma_splash_to_show_error_inert();
    lemma_splash_show_error_inert();
    lemma_splash_script_update_end_inert();
    lemma_splash_to_on_minimize_inert();
    lemma_splash_on_minimize_inert();
    lemma_splash_to_on_close_inert();
    lemma_splash_on_close_inert();
    lemma_splash_to_on_log_button_inert();
    lemma_splash_on_log_button_inert();
    lemma_splash_to_log_command_inert();
    lemma_splash_log_command_inert();
    lemma_splash_to_log_failed_inert();
    lemma_splash_log_failed_inert();
    lemma_splash_to_page_ready_inert();
    lemma_splash_page_ready_inert();
    lemma_splash_script_controls_end_inert();
}

} // verus!
