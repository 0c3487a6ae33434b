//! The title bar that is drawn into the main window where the system draws none.
use crate::json::{
    json_object, json_object_text, json_string, keys_ascend, law_object_holds_its_members,
    pairs_view, parts_before,
};
use crate::platform::Platform;
use crate::text::{
    join, joined, lemma_neighbours_occur, lemma_occurs_within_part, lemma_part_occurs, occurs_in,
    slices_view,
};
use vstd::prelude::*;

verus! {

/// The texts of the title bar.
#[derive(Debug)]
pub struct TitlebarText {
    pub minimize_to_tray: String,
    pub minimize_window: String,
    pub minimize: String,
    pub maximize_restore_window: String,
    pub maximize: String,
    pub close_window: String,
    pub close: String,
    pub restore: String,
    pub maximize_action: String,
    pub restore_window: String,
    pub maximize_window: String,
}

/// The beginning of the script, up to its texts.
pub const SCRIPT_TO_TEXTS: &'static str = "const i18n = ";

/// What follows the texts, up to whether the webview drags by itself.
pub const SCRIPT_TO_DRAG_FLAG: &'static str = r#";
        const webviewDraggableRegionsEnabled = "#;

/// What stands before `FIND_INVOKE`.
pub const TO_FIND_INVOKE: &'static str = r#";
        "#;

/// Finds the way to call the launcher.
pub const FIND_INVOKE: &'static str = r#"const invoke =
            (window.__TAURI__ && window.__TAURI__.core && window.__TAURI__.core.invoke)
            || (window.__TAURI_INTERNALS__ && window.__TAURI_INTERNALS__.invoke);"#;

/// What stands before `BAR_HEIGHT`.
pub const TO_BAR_HEIGHT: &'static str = r#"
        if (typeof invoke !== 'function') {
            return;
        }
        const ensureTitlebar = () => {
            if (!document.body || document.getElementById('alas-launcher-titlebar')) {
                return;
            }
            if (!document.getElementById('alas-launcher-titlebar-style')) {
                const style = document.createElement('style');
                style.id = 'alas-launcher-titlebar-style';
                style.textContent = '"#;

/// The height of the bar.
pub const BAR_HEIGHT: &'static str = ":root{--alas-titlebar-height:56px}";

/// What stands before `DRAG_ZONE`.
pub const TO_DRAG_ZONE: &'static str = "#alas-launcher-titlebar{position:fixed;top:0;left:0;right:0;height:var(--alas-titlebar-height);z-index:2147483647;user-select:none;pointer-events:none;background:transparent}#alas-launcher-titlebar *{box-sizing:border-box}";

/// Where the bar can be dragged.
pub const DRAG_ZONE: &'static str = ".alas-titlebar-drag-zone{position:absolute;inset:0 148px 0 0;height:100%;pointer-events:none}";

/// What stands before `HIDE_COLOR`.
pub const TO_HIDE_COLOR: &'static str = ".alas-titlebar-drag-segment{position:absolute;top:0;bottom:0;pointer-events:auto;background:transparent;touch-action:none;app-region:drag;-webkit-app-region:drag}.header-icon,.header-icon *,.alas-close-menu,.alas-close-menu *{app-region:no-drag;-webkit-app-region:no-drag}.header-icon{display:flex;align-items:center;gap:0;position:absolute;top:0;right:0;height:37px;margin:0;padding:0;pointer-events:auto;background:transparent;border:none;box-shadow:none}.icon{width:36px;height:37px;margin:0;padding:0;border:none;background:transparent;cursor:pointer;flex:0 0 auto;display:inline-flex;align-items:center;justify-content:center;transition:color 140ms ease,filter 140ms ease,transform 100ms ease}.icon:active{transform:scale(.92)}.icon svg{width:12px;height:12px;stroke:currentColor;fill:none;stroke-width:1.4;stroke-linecap:round;stroke-linejoin:round}";

/// The color of the hide icon.
pub const HIDE_COLOR: &'static str = ".icon-hide{color:#a855f7}";

/// What stands before `MINIMIZE_COLOR`.
pub const TO_MINIMIZE_COLOR: &'static str = ".icon-hide:hover{color:#7e22ce;filter:drop-shadow(0 0 5px #a855f7)}";

/// The color of the minimize icon.
pub const MINIMIZE_COLOR: &'static str = ".icon-minimize{color:#0284c7}";

/// What stands before `MAXIMIZE_COLOR`.
pub const TO_MAXIMIZE_COLOR: &'static str = ".icon-minimize:hover{color:#0369a1;filter:drop-shadow(0 0 5px #0284c7)}";

/// The color of the maximize icon.
pub const MAXIMIZE_COLOR: &'static str = ".icon-maximize{color:#10b981}";

/// What stands before `CLOSE_COLOR`.
pub const TO_CLOSE_COLOR: &'static str = ".icon-maximize:hover{color:#047857;filter:drop-shadow(0 0 5px #10b981)}";

/// The color of the close icon.
pub const CLOSE_COLOR: &'static str = ".icon-close{color:#e64f58}";

/// What stands before `HIDE_BUTTON`.
pub const TO_HIDE_BUTTON: &'static str = r#".icon-close:hover{color:#b91c1c;filter:drop-shadow(0 0 5px #ef4444)}.alas-close-menu{position:absolute;top:42px;right:6px;min-width:168px;padding:6px;display:flex;flex-direction:column;gap:2px;border:1px solid rgba(255,255,255,.92);border-radius:14px;background:rgba(250,250,247,.78);box-shadow:0 12px 32px rgba(61,79,97,.18);backdrop-filter:blur(16px) saturate(1.2);opacity:0;pointer-events:none;transform:translateY(-6px) scale(.96);transform-origin:top right;transition:opacity 140ms ease,transform 140ms ease}.alas-close-menu.is-open{opacity:1;pointer-events:auto;transform:none}.alas-close-menu button{min-height:28px;border:none;border-radius:10px;padding:0 12px;font:inherit;font-size:12px;text-align:left;color:#394451;background:transparent;cursor:pointer}.alas-close-menu button:hover{background:rgba(61,79,97,.08)}';
                document.head.appendChild(style);
            }
            const titlebar = document.createElement('div');
            titlebar.id = 'alas-launcher-titlebar';
            titlebar.innerHTML = '<div class="alas-titlebar-drag-zone"></div><div class="header-icon">"#;

/// The button that hides the window.
pub const HIDE_BUTTON: &'static str = r#"<button type="button" class="icon icon-hide" data-action="hide" aria-label="'+i18n.hideLabel+'" title="'+i18n.hideLabel+'">"#;

/// What stands before `MINIMIZE_BUTTON`.
pub const TO_MINIMIZE_BUTTON: &'static str = r#"<svg viewBox="0 0 10 10"><line x1="2.5" y1="2.5" x2="7.5" y2="7.5"/><polyline points="4,7.5 7.5,7.5 7.5,4"/></svg></button>"#;

/// The button that minimizes the window.
pub const MINIMIZE_BUTTON: &'static str = r#"<button type="button" class="icon icon-minimize" data-action="minimize" aria-label="'+i18n.minimizeLabel+'" title="'+i18n.minimizeTitle+'">"#;

/// What stands before `MAXIMIZE_BUTTON`.
pub const TO_MAXIMIZE_BUTTON: &'static str = r#"<svg viewBox="0 0 10 10"><line x1="1.5" y1="5" x2="8.5" y2="5"/></svg></button>"#;

/// The button that maximizes the window.
pub const MAXIMIZE_BUTTON: &'static str = r#"<button type="button" class="icon icon-maximize" data-action="maximize" aria-label="'+i18n.maximizeLabel+'" title="'+i18n.maximizeTitle+'">"#;

/// What stands before `CLOSE_BUTTON`.
pub const TO_CLOSE_BUTTON: &'static str = r#"<svg viewBox="0 0 10 10" class="svg-restore" style="display:none"><path d="M3.5 1.5h5v5"/><rect x="1.5" y="3.5" width="5" height="5"/></svg><svg viewBox="0 0 10 10" class="svg-maximize"><rect x="1.5" y="1.5" width="7" height="7"/></svg></button>"#;

/// The button that asks how to close the window.
pub const CLOSE_BUTTON: &'static str = r#"<button type="button" class="icon icon-close" data-action="prompt" aria-label="'+i18n.closeLabel+'" title="'+i18n.closeTitle+'">"#;

/// What stands before `MENU_CLOSE`.
pub const TO_MENU_CLOSE: &'static str = r#"<svg viewBox="0 0 10 10"><line x1="2" y1="2" x2="8" y2="8"/><line x1="8" y1="2" x2="2" y2="8"/></svg></button></div><div class="alas-close-menu" role="menu" aria-hidden="true">"#;

/// The menu item that closes the window.
pub const MENU_CLOSE: &'static str = r#"<button type="button" role="menuitem" data-action="close">'+i18n.hideLabel+'</button>"#;

/// The menu item that ends the launcher.
pub const MENU_EXIT: &'static str = r#"<button type="button" role="menuitem" data-action="exit">'+i18n.closeLabel+'</button>"#;

/// What stands before `OPEN_PROMPT`.
pub const TO_OPEN_PROMPT: &'static str = r#"</div>';
            document.body.dataset.alasCustomTitlebar = 'true';
            document.body.prepend(titlebar);
            const maximizeButton = titlebar.querySelector('[data-action="maximize"]');
            const dragZone = titlebar.querySelector('.alas-titlebar-drag-zone');
            const closeMenu = titlebar.querySelector('.alas-close-menu');

            const rebuildDragSegments = () => {
                const fragment = document.createDocumentFragment();
                const zone = dragZone.getBoundingClientRect();
                const middle = zone.top + zone.height / 2;
                const step = 8;
                let start = null;
                const finishSegment = end => {
                    if (start === null) {
                        return;
                    }
                    const segment = document.createElement('div');
                    segment.className = 'alas-titlebar-drag-segment';
                    segment.setAttribute('data-tauri-drag-region', '');
                    segment.style.left = (start - zone.left) + 'px';
                    segment.style.width = (end - start) + 'px';
                    fragment.appendChild(segment);
                    start = null;
                };
                for (let x = zone.left; x < zone.right; x += step) {
                    const free = document.elementsFromPoint(x + step / 2, middle)
                        .filter(element => !titlebar.contains(element))
                        .every(element => getComputedStyle(element).cursor !== 'pointer');
                    if (!free) {
                        finishSegment(x);
                    } else if (start === null) {
                        start = x;
                    }
                }
                finishSegment(zone.right);
                dragZone.replaceChildren(fragment);
            };
            dragZone.addEventListener('pointerdown', event => {
                if (webviewDraggableRegionsEnabled) {
                    return;
                }
                if (event.pointerType !== 'touch') {
                    return;
                }
                event.preventDefault();
                invoke('plugin:window|start_dragging').catch(error => {
                    console.error('Failed to drag the window', error);
                });
            });

            const setCloseMenuOpen = open => {
                closeMenu.classList.toggle('is-open', open);
                closeMenu.setAttribute('aria-hidden', String(!open));
            };
            "#;

/// Opens the close menu.
pub const OPEN_PROMPT: &'static str = "window.__ALAS_OPEN_CLOSE_PROMPT = () => setCloseMenuOpen(true);";

/// What stands before `ASK_MAXIMIZED`.
pub const TO_ASK_MAXIMIZED: &'static str = r#"
            document.addEventListener('click', () => setCloseMenuOpen(false));

            const syncMaximizeState = async () => {
                if (!maximizeButton) return;
                try {
                    "#;

/// Asks whether the window is maximized.
pub const ASK_MAXIMIZED: &'static str = "const maximized = await invoke('window_is_maximized');";

/// What stands before `MAXIMIZE_TITLE`.
pub const TO_MAXIMIZE_TITLE: &'static str = r#"
                    maximizeButton.dataset.maximized = maximized ? 'true' : 'false';
                    "#;

/// The tooltip of the maximize button.
pub const MAXIMIZE_TITLE: &'static str = "maximizeButton.title = maximized ? i18n.restoreTitle : i18n.maximizeActionTitle;";

/// What stands before `MAXIMIZE_LABEL`.
pub const TO_MAXIMIZE_LABEL: &'static str = r#"
                    "#;

/// The label of the maximize button.
pub const MAXIMIZE_LABEL: &'static str = "maximizeButton.setAttribute('aria-label', maximized ? i18n.restoreLabel : i18n.maximizeLabelText);";

/// What stands before `LISTEN`.
pub const TO_LISTEN: &'static str = r#"
                    maximizeButton.querySelector('.svg-maximize').style.display = maximized ? 'none' : '';
                    maximizeButton.querySelector('.svg-restore').style.display = maximized ? '' : 'none';
                } catch (e) {
                    console.error('Failed to sync maximize state', e);
                }
            };
            titlebar.querySelectorAll('button[data-action]').forEach(button => {
                button.addEventListener('click', async event => {
                    event.stopPropagation();
                    try {
                        "#;

/// Listens to the buttons.
pub const LISTEN: &'static str = "switch (button.dataset.action) {";

/// What stands before `ON_HIDE`.
pub const TO_ON_HIDE: &'static str = r#"
                            "#;

/// What the hide button does.
pub const ON_HIDE: &'static str = "case 'hide': await invoke('window_hide'); break;";

/// What the minimize button does.
pub const ON_MINIMIZE: &'static str = "case 'minimize': await invoke('window_minimize'); break;";

/// What the maximize button does.
pub const ON_MAXIMIZE: &'static str = "case 'maximize': await invoke('window_toggle_maximize'); await syncMaximizeState(); break;";

/// What the close button does.
pub const ON_PROMPT: &'static str = "case 'prompt': window.__ALAS_OPEN_CLOSE_PROMPT(); break;";

/// What closing from the menu does.
pub const ON_CLOSE: &'static str = "case 'close': setCloseMenuOpen(false); await invoke('window_close'); break;";

/// What exiting from the menu does.
pub const ON_EXIT: &'static str = "case 'exit': await invoke('window_exit_application'); break;";

/// The end of the script.
pub const SCRIPT_END: &'static str = r#"
                        }
                    } catch (error) {
                        console.error('Failed to handle ' + button.dataset.action + ' window action', error);
                    }
                });
            });
            window.addEventListener('resize', () => { rebuildDragSegments(); void syncMaximizeState(); });
            rebuildDragSegments();
            setInterval(rebuildDragSegments, 1000);
            void syncMaximizeState();
        };
        ensureTitlebar();
        if (!document.body) {
            window.addEventListener('DOMContentLoaded', ensureTitlebar, { once: true });
        }
        "#;

/// The texts under the names that the script reads them by.
pub open spec fn titlebar_members(text: TitlebarText) -> Seq<(Seq<char>, Seq<char>)> {
    seq![
        ("closeLabel"@, text.close_window@),
        ("closeTitle"@, text.close@),
        ("hideLabel"@, text.minimize_to_tray@),
        ("maximizeActionTitle"@, text.maximize_action@),
        ("maximizeLabel"@, text.maximize_restore_window@),
        ("maximizeLabelText"@, text.maximize_window@),
        ("maximizeTitle"@, text.maximize@),
        ("minimizeLabel"@, text.minimize_window@),
        ("minimizeTitle"@, text.minimize@),
        ("restoreLabel"@, text.restore_window@),
        ("restoreTitle"@, text.restore@),
    ]
}

/// How a script writes whether the webview drags windows by itself, which it
/// does on Windows only.
pub open spec fn drag_flag(platform: Platform) -> Seq<char> {
    if platform == Platform::Windows {
        "true"@
    } else {
        "false"@
    }
}

/// The parts of the script that draws the title bar.
pub open spec fn titlebar_parts(platform: Platform, text: TitlebarText) -> Seq<Seq<char>> {
    seq![
        SCRIPT_TO_TEXTS@,
        json_object(titlebar_members(text)),
        SCRIPT_TO_DRAG_FLAG@,
        drag_flag(platform),
        TO_FIND_INVOKE@,
        FIND_INVOKE@,
        TO_BAR_HEIGHT@,
        BAR_HEIGHT@,
        TO_DRAG_ZONE@,
        DRAG_ZONE@,
        TO_HIDE_COLOR@,
        HIDE_COLOR@,
        TO_MINIMIZE_COLOR@,
        MINIMIZE_COLOR@,
        TO_MAXIMIZE_COLOR@,
        MAXIMIZE_COLOR@,
        TO_CLOSE_COLOR@,
        CLOSE_COLOR@,
        TO_HIDE_BUTTON@,
        HIDE_BUTTON@,
        TO_MINIMIZE_BUTTON@,
        MINIMIZE_BUTTON@,
        TO_MAXIMIZE_BUTTON@,
        MAXIMIZE_BUTTON@,
        TO_CLOSE_BUTTON@,
        CLOSE_BUTTON@,
        TO_MENU_CLOSE@,
        MENU_CLOSE@,
        MENU_EXIT@,
        TO_OPEN_PROMPT@,
        OPEN_PROMPT@,
        TO_ASK_MAXIMIZED@,
        ASK_MAXIMIZED@,
        TO_MAXIMIZE_TITLE@,
        MAXIMIZE_TITLE@,
        TO_MAXIMIZE_LABEL@,
        MAXIMIZE_LABEL@,
        TO_LISTEN@,
        LISTEN@,
        TO_ON_HIDE@,
        ON_HIDE@,
        TO_ON_HIDE@,
        ON_MINIMIZE@,
        TO_ON_HIDE@,
        ON_MAXIMIZE@,
        TO_ON_HIDE@,
        ON_PROMPT@,
        TO_ON_HIDE@,
        ON_CLOSE@,
        TO_ON_HIDE@,
        ON_EXIT@,
        SCRIPT_END@,
    ]
}

/// The script that draws the title bar; empty where the system draws it.
pub open spec fn titlebar_script(platform: Platform, text: TitlebarText) -> Seq<char> {
    if platform.spec_draws_title_bars() {
        seq![]
    } else {
        joined(titlebar_parts(platform, text))
    }
}

proof fn lemma_titlebar_members_ascend(text: TitlebarText)
    ensures
        keys_ascend(titlebar_members(text)),
{
    reveal_strlit("closeLabel");
    reveal_strlit("closeTitle");
    reveal_strlit("hideLabel");
    reveal_strlit("maximizeActionTitle");
    reveal_strlit("maximizeLabel");
    reveal_strlit("maximizeLabelText");
    reveal_strlit("maximizeTitle");
    reveal_strlit("minimizeLabel");
    reveal_strlit("minimizeTitle");
    reveal_strlit("restoreLabel");
    reveal_strlit("restoreTitle");
    let members = titlebar_members(text);
    assert forall|i: int| 0 <= i < members.len() - 1 implies exists|at: int| #[trigger]
        parts_before((#[trigger] members[i]).0, members[i + 1].0, at) by {
        if i == 0 {
            assert("closeLabel"@.take(5) =~= "closeTitle"@.take(5));
            assert(parts_before(members[i].0, members[i + 1].0, 5));
        } else if i == 1 {
            assert("closeTitle"@.take(0) =~= "hideLabel"@.take(0));
            assert(parts_before(members[i].0, members[i + 1].0, 0));
        } else if i == 2 {
            assert("hideLabel"@.take(0) =~= "maximizeActionTitle"@.take(0));
            assert(parts_before(members[i].0, members[i + 1].0, 0));
        } else if i == 3 {
            assert("maximizeActionTitle"@.take(8) =~= "maximizeLabel"@.take(8));
            assert(parts_before(members[i].0, members[i + 1].0, 8));
        } else if i == 4 {
            assert("maximizeLabel"@.take(13) =~= "maximizeLabelText"@.take(13));
            assert(parts_before(members[i].0, members[i + 1].0, 13));
        } else if i == 5 {
            assert("maximizeLabelText"@.take(8) =~= "maximizeTitle"@.take(8));
            assert(parts_before(members[i].0, members[i + 1].0, 8));
        } else if i == 6 {
            assert("maximizeTitle"@.take(1) =~= "minimizeLabel"@.take(1));
            assert(parts_before(members[i].0, members[i + 1].0, 1));
        } else if i == 7 {
            assert("minimizeLabel"@.take(8) =~= "minimizeTitle"@.take(8));
            assert(parts_before(members[i].0, members[i + 1].0, 8));
        } else if i == 8 {
            assert("minimizeTitle"@.take(0) =~= "restoreLabel"@.take(0));
            assert(parts_before(members[i].0, members[i + 1].0, 0));
        } else {
            assert("restoreLabel"@.take(7) =~= "restoreTitle"@.take(7));
            assert(parts_before(members[i].0, members[i + 1].0, 7));
        }
    }
}

/// Tells a script whether the webview drags windows by itself.
pub fn drag_flag_text(platform: Platform) -> (flag: &'static str)
    ensures
        flag@ == drag_flag(platform),
{
    match platform {
        Platform::Windows => "true",
        _ => "false",
    }
}

/// Writes the script that draws the title bar.
pub fn main_window_titlebar_injection_script(
    platform: Platform,
    text: &TitlebarText,
) -> (script: String)
    ensures
        script@ == titlebar_script(platform, *text),
{
    if platform.draws_title_bars() {
        return String::new();
    }
    let mut members: Vec<(String, String)> = Vec::new();
    members.push(("closeLabel".to_owned(), text.close_window.clone()));
    members.push(("closeTitle".to_owned(), text.close.clone()));
    members.push(("hideLabel".to_owned(), text.minimize_to_tray.clone()));
    members.push(("maximizeActionTitle".to_owned(), text.maximize_action.clone()));
    members.push(("maximizeLabel".to_owned(), text.maximize_restore_window.clone()));
    members.push(("maximizeLabelText".to_owned(), text.maximize_window.clone()));
    members.push(("maximizeTitle".to_owned(), text.maximize.clone()));
    members.push(("minimizeLabel".to_owned(), text.minimize_window.clone()));
    members.push(("minimizeTitle".to_owned(), text.minimize.clone()));
    members.push(("restoreLabel".to_owned(), text.restore_window.clone()));
    members.push(("restoreTitle".to_owned(), text.restore.clone()));
    proof {
        assert(pairs_view(members@) =~= titlebar_members(*text));
        lemma_titlebar_members_ascend(*text);
    }
    let object = json_object_text(&members);
    let parts: Vec<&str> = vec![
        SCRIPT_TO_TEXTS,
        object.as_str(),
        SCRIPT_TO_DRAG_FLAG,
        drag_flag_text(platform),
        TO_FIND_INVOKE,
        FIND_INVOKE,
        TO_BAR_HEIGHT,
        BAR_HEIGHT,
        TO_DRAG_ZONE,
        DRAG_ZONE,
        TO_HIDE_COLOR,
        HIDE_COLOR,
        TO_MINIMIZE_COLOR,
        MINIMIZE_COLOR,
        TO_MAXIMIZE_COLOR,
        MAXIMIZE_COLOR,
        TO_CLOSE_COLOR,
        CLOSE_COLOR,
        TO_HIDE_BUTTON,
        HIDE_BUTTON,
        TO_MINIMIZE_BUTTON,
        MINIMIZE_BUTTON,
        TO_MAXIMIZE_BUTTON,
        MAXIMIZE_BUTTON,
        TO_CLOSE_BUTTON,
        CLOSE_BUTTON,
        TO_MENU_CLOSE,
        MENU_CLOSE,
        MENU_EXIT,
        TO_OPEN_PROMPT,
        OPEN_PROMPT,
        TO_ASK_MAXIMIZED,
        ASK_MAXIMIZED,
        TO_MAXIMIZE_TITLE,
        MAXIMIZE_TITLE,
        TO_MAXIMIZE_LABEL,
        MAXIMIZE_LABEL,
        TO_LISTEN,
        LISTEN,
        TO_ON_HIDE,
        ON_HIDE,
        TO_ON_HIDE,
        ON_MINIMIZE,
        TO_ON_HIDE,
        ON_MAXIMIZE,
        TO_ON_HIDE,
        ON_PROMPT,
        TO_ON_HIDE,
        ON_CLOSE,
        TO_ON_HIDE,
        ON_EXIT,
        SCRIPT_END,
    ];
    assert(slices_view(parts@) =~= titlebar_parts(platform, *text));
    join(&parts)
}

/// The launcher draws the title bar itself on every system but macOS.
pub proof fn law_title_bar_is_drawn_except_on_macos(
    platform: Platform,
    text: &TitlebarText,
    script: String,
)
    requires
        call_ensures(main_window_titlebar_injection_script, (platform, text), script),
    ensures
        script@.len() == 0 <==> platform == Platform::MacOs,
{
    if platform != Platform::MacOs {
        reveal_strlit("const i18n = ");
        let parts = titlebar_parts(platform, *text);
        assert(parts[0].len() > 0);
        lemma_part_occurs(parts, 0, SCRIPT_TO_TEXTS@);
    }
}

/// The script reads each of its texts by the name that is meant for it.
pub proof fn law_title_bar_names_its_texts(
    platform: Platform,
    text: &TitlebarText,
    script: String,
)
    requires
        platform != Platform::MacOs,
        call_ensures(main_window_titlebar_injection_script, (platform, text), script),
    ensures
        occurs_in(script@, json_string("closeLabel"@) + seq![':'] + json_string(text.close_window@)),
        occurs_in(script@, json_string("closeTitle"@) + seq![':'] + json_string(text.close@)),
        occurs_in(script@, json_string("hideLabel"@) + seq![':'] + json_string(text.minimize_to_tray@)),
        occurs_in(script@, json_string("maximizeActionTitle"@) + seq![':'] + json_string(text.maximize_action@)),
        occurs_in(script@, json_string("maximizeLabel"@) + seq![':'] + json_string(text.maximize_restore_window@)),
        occurs_in(script@, json_string("maximizeLabelText"@) + seq![':'] + json_string(text.maximize_window@)),
        occurs_in(script@, json_string("maximizeTitle"@) + seq![':'] + json_string(text.maximize@)),
        occurs_in(script@, json_string("minimizeLabel"@) + seq![':'] + json_string(text.minimize_window@)),
        occurs_in(script@, json_string("minimizeTitle"@) + seq![':'] + json_string(text.minimize@)),
        occurs_in(script@, json_string("restoreLabel"@) + seq![':'] + json_string(text.restore_window@)),
        occurs_in(script@, json_string("restoreTitle"@) + seq![':'] + json_string(text.restore@)),
        occurs_in(
            script@,
            "const i18n = "@ + json_object(titlebar_members(*text)) + r#";
        const webviewDraggableRegionsEnabled = "#@,
        ),
{
    let parts = titlebar_parts(platform, *text);
    let members = titlebar_members(*text);
    assert(parts[1] == json_object(members));
    assert forall|i: int| 0 <= i < members.len() implies occurs_in(
        script@,
        json_string((#[trigger] members[i]).0) + seq![':'] + json_string(members[i].1),
    ) by {
        law_object_holds_its_members(members, i);
        lemma_occurs_within_part(
            parts,
            1,
            json_string(members[i].0) + seq![':'] + json_string(members[i].1),
        );
    }
    assert(members[0] == ("closeLabel"@, text.close_window@));
    assert(members[1] == ("closeTitle"@, text.close@));
    assert(members[2] == ("hideLabel"@, text.minimize_to_tray@));
    assert(members[3] == ("maximizeActionTitle"@, text.maximize_action@));
    assert(members[4] == ("maximizeLabel"@, text.maximize_restore_window@));
    assert(members[5] == ("maximizeLabelText"@, text.maximize_window@));
    assert(members[6] == ("maximizeTitle"@, text.maximize@));
    assert(members[7] == ("minimizeLabel"@, text.minimize_window@));
    assert(members[8] == ("minimizeTitle"@, text.minimize@));
    assert(members[9] == ("restoreLabel"@, text.restore_window@));
    assert(members[10] == ("restoreTitle"@, text.restore@));
    lemma_neighbours_occur(
        parts,
        0,
        SCRIPT_TO_TEXTS@,
        json_object(members),
        SCRIPT_TO_DRAG_FLAG@,
    );
}

/// The webview drags the window by itself on Windows only, and the script is told so.
pub proof fn law_title_bar_knows_who_drags(
    platform: Platform,
    text: &TitlebarText,
    script: String,
)
    requires
        platform != Platform::MacOs,
        call_ensures(main_window_titlebar_injection_script, (platform, text), script),
    ensures
        occurs_in(
            script@,
            r#";
        const webviewDraggableRegionsEnabled = "#@ + (if platform == Platform::Windows {
                "true"@
            } else {
                "false"@
            }) + r#";
        "#@,
        ),
{
    let parts = titlebar_parts(platform, *text);
    lemma_neighbours_occur(
        parts,
        2,
        SCRIPT_TO_DRAG_FLAG@,
        drag_flag(platform),
        TO_FIND_INVOKE@,
    );
}

/// Each button of the title bar bears the text that is meant for it and does what it says:
/// hide, minimize, maximize or restore, and ask how to close; the menu then closes the
/// window or ends the launcher.
pub proof fn law_title_bar_buttons_do_what_they_say(
    platform: Platform,
    text: &TitlebarText,
    script: String,
)
    requires
        platform != Platform::MacOs,
        call_ensures(main_window_titlebar_injection_script, (platform, text), script),
    ensures
        occurs_in(script@, r#"const invoke =
            (window.__TAURI__ && window.__TAURI__.core && window.__TAURI__.core.invoke)
            || (window.__TAURI_INTERNALS__ && window.__TAURI_INTERNALS__.invoke);"#@),
        occurs_in(script@, r#"<button type="button" class="icon icon-hide" data-action="hide" aria-label="'+i18n.hideLabel+'" title="'+i18n.hideLabel+'">"#@),
        occurs_in(script@, r#"<button type="button" class="icon icon-minimize" data-action="minimize" aria-label="'+i18n.minimizeLabel+'" title="'+i18n.minimizeTitle+'">"#@),
        occurs_in(script@, r#"<button type="button" class="icon icon-maximize" data-action="maximize" aria-label="'+i18n.maximizeLabel+'" title="'+i18n.maximizeTitle+'">"#@),
        occurs_in(script@, r#"<button type="button" class="icon icon-close" data-action="prompt" aria-label="'+i18n.closeLabel+'" title="'+i18n.closeTitle+'">"#@),
        occurs_in(script@, r#"<button type="button" role="menuitem" data-action="close">'+i18n.hideLabel+'</button>"#@),
        occurs_in(script@, r#"<button type="button" role="menuitem" data-action="exit">'+i18n.closeLabel+'</button>"#@),
        occurs_in(script@, "window.__ALAS_OPEN_CLOSE_PROMPT = () => setCloseMenuOpen(true);"@),
        occurs_in(script@, "switch (button.dataset.action) {"@),
        occurs_in(script@, "case 'hide': await invoke('window_hide'); break;"@),
        occurs_in(script@, "case 'minimize': await invoke('window_minimize'); break;"@),
        occurs_in(script@, "case 'maximize': await invoke('window_toggle_maximize'); await syncMaximizeState(); break;"@),
        occurs_in(script@, "case 'prompt': window.__ALAS_OPEN_CLOSE_PROMPT(); break;"@),
        occurs_in(script@, "case 'close': setCloseMenuOpen(false); await invoke('window_close'); break;"@),
        occurs_in(script@, "case 'exit': await invoke('window_exit_application'); break;"@),
{
    let parts = titlebar_parts(platform, *text);
    lemma_part_occurs(parts, 5, FIND_INVOKE@);
    lemma_part_occurs(parts, 19, HIDE_BUTTON@);
    lemma_part_occurs(parts, 21, MINIMIZE_BUTTON@);
    lemma_part_occurs(parts, 23, MAXIMIZE_BUTTON@);
    lemma_part_occurs(parts, 25, CLOSE_BUTTON@);
    lemma_part_occurs(parts, 27, MENU_CLOSE@);
    lemma_part_occurs(parts, 28, MENU_EXIT@);
    lemma_part_occurs(parts, 30, OPEN_PROMPT@);
    lemma_part_occurs(parts, 38, LISTEN@);
    lemma_part_occurs(parts, 40, ON_HIDE@);
    lemma_part_occurs(parts, 42, ON_MINIMIZE@);
    lemma_part_occurs(parts, 44, ON_MAXIMIZE@);
    lemma_part_occurs(parts, 46, ON_PROMPT@);
    lemma_part_occurs(parts, 48, ON_CLOSE@);
    lemma_part_occurs(parts, 50, ON_EXIT@);
}

/// The maximize button shows what it will do next, by what the launcher says of the window.
pub proof fn law_title_bar_shows_whether_it_is_maximized(
    platform: Platform,
    text: &TitlebarText,
    script: String,
)
    requires
        platform != Platform::MacOs,
        call_ensures(main_window_titlebar_injection_script, (platform, text), script),
    ensures
        occurs_in(script@, "const maximized = await invoke('window_is_maximized');"@),
        occurs_in(script@, "maximizeButton.title = maximized ? i18n.restoreTitle : i18n.maximizeActionTitle;"@),
        occurs_in(script@, "maximizeButton.setAttribute('aria-label', maximized ? i18n.restoreLabel : i18n.maximizeLabelText);"@),
{
    let parts = titlebar_parts(platform, *text);
    lemma_part_occurs(parts, 32, ASK_MAXIMIZED@);
    lemma_part_occurs(parts, 34, MAXIMIZE_TITLE@);
    lemma_part_occurs(parts, 36, MAXIMIZE_LABEL@);
}

/// The title bar has its height, the zone by which it is dragged, and its colors.
pub proof fn law_title_bar_has_its_look(
    platform: Platform,
    text: &TitlebarText,
    script: String,
)
    requires
        platform != Platform::MacOs,
        call_ensures(main_window_titlebar_injection_script, (platform, text), script),
    ensures
        occurs_in(script@, ":root{--alas-titlebar-height:56px}"@),
        occurs_in(script@, ".alas-titlebar-drag-zone{position:absolute;inset:0 148px 0 0;height:100%;pointer-events:none}"@),
        occurs_in(script@, ".icon-hide{color:#a855f7}"@),
        occurs_in(script@, ".icon-minimize{color:#0284c7}"@),
        occurs_in(script@, ".icon-maximize{color:#10b981}"@),
        occurs_in(script@, ".icon-close{color:#e64f58}"@),
{
    let parts = titlebar_parts(platform, *text);
    lemma_part_occurs(parts, 7, BAR_HEIGHT@);
    lemma_part_occurs(parts, 9, DRAG_ZONE@);
    lemma_part_occurs(parts, 11, HIDE_COLOR@);
    lemma_part_occurs(parts, 13, MINIMIZE_COLOR@);
    lemma_part_occurs(parts, 15, MAXIMIZE_COLOR@);
    lemma_part_occurs(parts, 17, CLOSE_COLOR@);
}

/// The script of the title bar is whole: it draws the bar once, keeps it draggable where
/// nothing can be clicked, opens and closes the menu, and follows the size of the window.
pub proof fn law_title_bar_script_is_whole(
    platform: Platform,
    text: &TitlebarText,
    script: String,
)
    requires
        platform != Platform::MacOs,
        call_ensures(main_window_titlebar_injection_script, (platform, text), script),
    ensures
        occurs_in(script@, r#"
        if (typeof invoke !== 'function') {
            return;
        }
        const ensureTitlebar = () => {
            if (!document.body || document.getElementById('alas-launcher-titlebar')) {
                return;
            }
            if (!document.getElementById('alas-launcher-titlebar-style')) {
                const style = document.createElement('style');
                style.id = 'alas-launcher-titlebar-style';
                style.textContent = '"#@),
        occurs_in(script@, r#"<svg viewBox="0 0 10 10"><line x1="2.5" y1="2.5" x2="7.5" y2="7.5"/><polyline points="4,7.5 7.5,7.5 7.5,4"/></svg></button>"#@),
        occurs_in(script@, r#"<svg viewBox="0 0 10 10"><line x1="1.5" y1="5" x2="8.5" y2="5"/></svg></button>"#@),
        occurs_in(script@, r#"<svg viewBox="0 0 10 10" class="svg-restore" style="display:none"><path d="M3.5 1.5h5v5"/><rect x="1.5" y="3.5" width="5" height="5"/></svg><svg viewBox="0 0 10 10" class="svg-maximize"><rect x="1.5" y="1.5" width="7" height="7"/></svg></button>"#@),
        occurs_in(script@, r#"<svg viewBox="0 0 10 10"><line x1="2" y1="2" x2="8" y2="8"/><line x1="8" y1="2" x2="2" y2="8"/></svg></button></div><div class="alas-close-menu" role="menu" aria-hidden="true">"#@),
        occurs_in(script@, r#"</div>';
            document.body.dataset.alasCustomTitlebar = 'true';
            document.body.prepend(titlebar);
            const maximizeButton = titlebar.querySelector('[data-action="maximize"]');
            const dragZone = titlebar.querySelector('.alas-titlebar-drag-zone');
            const closeMenu = titlebar.querySelector('.alas-close-menu');

            const rebuildDragSegments = () => {
                const fragment = document.createDocumentFragment();
                const zone = dragZone.getBoundingClientRect();
                const middle = zone.top + zone.height / 2;
                const step = 8;
                let start = null;
                const finishSegment = end => {
                    if (start === null) {
                        return;
                    }
                    const segment = document.createElement('div');
                    segment.className = 'alas-titlebar-drag-segment';
                    segment.setAttribute('data-tauri-drag-region', '');
                    segment.style.left = (start - zone.left) + 'px';
                    segment.style.width = (end - start) + 'px';
                    fragment.appendChild(segment);
                    start = null;
                };
                for (let x = zone.left; x < zone.right; x += step) {
                    const free = document.elementsFromPoint(x + step / 2, middle)
                        .filter(element => !titlebar.contains(element))
                        .every(element => getComputedStyle(element).cursor !== 'pointer');
                    if (!free) {
                        finishSegment(x);
                    } else if (start === null) {
                        start = x;
                    }
                }
                finishSegment(zone.right);
                dragZone.replaceChildren(fragment);
            };
            dragZone.addEventListener('pointerdown', event => {
                if (webviewDraggableRegionsEnabled) {
                    return;
                }
                if (event.pointerType !== 'touch') {
                    return;
                }
                event.preventDefault();
                invoke('plugin:window|start_dragging').catch(error => {
                    console.error('Failed to drag the window', error);
                });
            });

            const setCloseMenuOpen = open => {
                closeMenu.classList.toggle('is-open', open);
                closeMenu.setAttribute('aria-hidden', String(!open));
            };
            "#@),
        occurs_in(script@, r#"
            document.addEventListener('click', () => setCloseMenuOpen(false));

            const syncMaximizeState = async () => {
                if (!maximizeButton) return;
                try {
                    "#@),
        occurs_in(script@, r#"
                    maximizeButton.dataset.maximized = maximized ? 'true' : 'false';
                    "#@),
        occurs_in(script@, r#"
                    maximizeButton.querySelector('.svg-maximize').style.display = maximized ? 'none' : '';
                    maximizeButton.querySelector('.svg-restore').style.display = maximized ? '' : 'none';
                } catch (e) {
                    console.error('Failed to sync maximize state', e);
                }
            };
            titlebar.querySelectorAll('button[data-action]').forEach(button => {
                button.addEventListener('click', async event => {
                    event.stopPropagation();
                    try {
                        "#@),
        occurs_in(script@, r#"
                        }
                    } catch (error) {
                        console.error('Failed to handle ' + button.dataset.action + ' window action', error);
                    }
                });
            });
            window.addEventListener('resize', () => { rebuildDragSegments(); void syncMaximizeState(); });
            rebuildDragSegments();
            setInterval(rebuildDragSegments, 1000);
            void syncMaximizeState();
        };
        ensureTitlebar();
        if (!document.body) {
            window.addEventListener('DOMContentLoaded', ensureTitlebar, { once: true });
        }
        "#@),
{
    let parts = titlebar_parts(platform, *text);
    lemma_part_occurs(parts, 6, TO_BAR_HEIGHT@);
    lemma_part_occurs(parts, 20, TO_MINIMIZE_BUTTON@);
    lemma_part_occurs(parts, 22, TO_MAXIMIZE_BUTTON@);
    lemma_part_occurs(parts, 24, TO_CLOSE_BUTTON@);
    lemma_part_occurs(parts, 26, TO_MENU_CLOSE@);
    lemma_part_occurs(parts, 29, TO_OPEN_PROMPT@);
    lemma_part_occurs(parts, 31, TO_ASK_MAXIMIZED@);
    lemma_part_occurs(parts, 33, TO_MAXIMIZE_TITLE@);
    lemma_part_occurs(parts, 37, TO_LISTEN@);
    lemma_part_occurs(parts, 51, SCRIPT_END@);
}

} // verus!
