//! The scripts that the launcher runs inside its pages.
use crate::platform::Platform;
use crate::text::{join, joined, lemma_neighbours_occur, lemma_part_occurs, occurs_in, slices_view};
use crate::titlebar::{main_window_titlebar_injection_script, titlebar_script, TitlebarText};
use vstd::prelude::*;

verus! {

/// What stands before `ONCE`.
pub const TO_ONCE: &'static str = r#"
"#;

/// Runs once in a page.
pub const ONCE: &'static str = r#"if (!window.alas_launcher_injected) {
    window.alas_launcher_injected = true;
    (function () {"#;

/// What stands before `STAY`.
pub const TO_STAY: &'static str = r#"
        // Prevent going back
        "#;

/// Keeps the page from going back.
pub const STAY: &'static str = r#"history.pushState(null, document.title, location.href);
        window.addEventListener('popstate', event => {
            history.pushState(null, document.title, location.href);
        });"#;

/// What stands before `NO_CONTEXT_MENU`.
pub const TO_NO_CONTEXT_MENU: &'static str = r#"
        // Disable right-click menu
        "#;

/// Hides the context menu.
pub const NO_CONTEXT_MENU: &'static str = r#"window.addEventListener('contextmenu', event => {
            event.preventDefault();
        }, { capture: true });"#;

/// What stands before `SAVE_AS`.
pub const TO_SAVE_AS: &'static str = r#"
        // Overwrite original saveAs function
        "#;

/// Saves files through the launcher.
pub const SAVE_AS: &'static str = "window.saveAs = function (blob, filename) {";

/// What stands before `FILE_CONTENTS`.
pub const TO_FILE_CONTENTS: &'static str = r#"
            const reader = new FileReader();
            reader.onload = async () => {
                "#;

/// Takes the Base64 form of a file.
pub const FILE_CONTENTS: &'static str = "const data = reader.result.split(',')[1];";

/// What stands before `FIND_INVOKE`.
pub const TO_FIND_INVOKE: &'static str = r#"
                console.log(data);
                "#;

/// Finds the way to call the launcher.
pub const FIND_INVOKE: &'static str = r#"const tauriInvoke =
                    (window.__TAURI__ && window.__TAURI__.core && window.__TAURI__.core.invoke)
                    || (window.__TAURI_INTERNALS__ && window.__TAURI_INTERNALS__.invoke);"#;

/// What stands before `SAVE_COMMAND`.
pub const TO_SAVE_COMMAND: &'static str = r#"
                if (typeof tauriInvoke === 'function') {
                    "#;

/// Hands a file to the launcher.
pub const SAVE_COMMAND: &'static str = "tauriInvoke('save_as', { filename, data });";

/// What stands before `READ_FILE`.
pub const TO_READ_FILE: &'static str = r#"
                }
            };
            "#;

/// Reads a file.
pub const READ_FILE: &'static str = "reader.readAsDataURL(blob);";

/// What stands before the title bar.
pub const TO_TITLEBAR: &'static str = r#"
        };
"#;

/// The rest of the script for every loaded page.
pub const PAGE_SCRIPT_REST: &'static str = r#"
    })();
}
"#;

/// A script that fails until the splash page is ready.
pub const SPLASH_READY_PROBE: &'static str = r#"
                if (!window.__ALAS_SPLASH_READY) {
                    throw new Error("splash page is not ready");
                }
                "#;

/// How far a page has been loaded.
#[derive(Debug, Clone, Copy, PartialEq, Eq, Structural)]
pub enum PageLoad {
    Started,
    Finished,
}

/// The parts of the script for every loaded page. It keeps the page from going back,
/// hides the context menu, saves files through the launcher and draws the title bar.
pub open spec fn page_script_parts(platform: Platform, titlebar: TitlebarText) -> Seq<Seq<char>> {
    seq![
        TO_ONCE@,
        ONCE@,
        TO_STAY@,
        STAY@,
        TO_NO_CONTEXT_MENU@,
        NO_CONTEXT_MENU@,
        TO_SAVE_AS@,
        SAVE_AS@,
        TO_FILE_CONTENTS@,
        FILE_CONTENTS@,
        TO_FIND_INVOKE@,
        FIND_INVOKE@,
        TO_SAVE_COMMAND@,
        SAVE_COMMAND@,
        TO_READ_FILE@,
        READ_FILE@,
        TO_TITLEBAR@,
        titlebar_script(platform, titlebar),
        PAGE_SCRIPT_REST@,
    ]
}

/// The script to run in a page of the main window: none before the page is
/// loaded, and then one that draws the title bar among other things.
pub fn page_load_injector(load: PageLoad, platform: Platform, titlebar: &TitlebarText) -> (script:
    Option<String>)
    ensures
        script is Some <==> load == PageLoad::Finished,
        script matches Some(script) ==> script@ == joined(page_script_parts(platform, *titlebar)),
{
    match load {
        PageLoad::Started => None,
        PageLoad::Finished => {
            let bar = main_window_titlebar_injection_script(platform, titlebar);
            let parts: Vec<&str> = vec![
                TO_ONCE,
                ONCE,
                TO_STAY,
                STAY,
                TO_NO_CONTEXT_MENU,
                NO_CONTEXT_MENU,
                TO_SAVE_AS,
                SAVE_AS,
                TO_FILE_CONTENTS,
                FILE_CONTENTS,
                TO_FIND_INVOKE,
                FIND_INVOKE,
                TO_SAVE_COMMAND,
                SAVE_COMMAND,
                TO_READ_FILE,
                READ_FILE,
                TO_TITLEBAR,
                bar.as_str(),
                PAGE_SCRIPT_REST,
            ];
            assert(slices_view(parts@) =~= page_script_parts(platform, *titlebar));
            Some(join(&parts))
        },
    }
}

/// The script that shows an update, given as JSON, on the splash page. A page
/// that is not ready ignores it.
pub fn splash_update_script(payload: &str) -> (script: String)
    ensures
        script@ == "window.__ALAS_SPLASH_UPDATE && window.__ALAS_SPLASH_UPDATE("@ + payload@
            + ");"@,
{
    let mut script = "window.__ALAS_SPLASH_UPDATE && window.__ALAS_SPLASH_UPDATE(".to_owned();
    script.append(payload);
    script.append(");");
    script
}

/// A page gets the script once it is loaded and not before. The script holds the title bar
/// of the system that the launcher runs on, whole and inside its own function.
pub proof fn law_loaded_page_gets_the_title_bar(
    platform: Platform,
    titlebar: &TitlebarText,
    before: Option<String>,
    script: Option<String>,
    bar: String,
)
    requires
        call_ensures(page_load_injector, (PageLoad::Started, platform, titlebar), before),
        call_ensures(page_load_injector, (PageLoad::Finished, platform, titlebar), script),
        call_ensures(main_window_titlebar_injection_script, (platform, titlebar), bar),
    ensures
        before is None,
        script is Some,
        occurs_in(
            script->0@,
            r#"
        };
"#@ + bar@ + r#"
    })();
}
"#@,
        ),
{
    let parts = page_script_parts(platform, *titlebar);
    lemma_neighbours_occur(parts, 16, TO_TITLEBAR@, bar@, PAGE_SCRIPT_REST@);
}

/// The script keeps a page of the main window from going back, hides its context menu, and
/// saves its files through the launcher, each file whole and under its name. It does so
/// once in a page.
pub proof fn law_loaded_page_is_kept_in_order(
    platform: Platform,
    titlebar: &TitlebarText,
    script: Option<String>,
)
    requires
        call_ensures(page_load_injector, (PageLoad::Finished, platform, titlebar), script),
    ensures
        script is Some,
        occurs_in(script->0@, r#"if (!window.alas_launcher_injected) {
    window.alas_launcher_injected = true;
    (function () {"#@),
        occurs_in(script->0@, r#"history.pushState(null, document.title, location.href);
        window.addEventListener('popstate', event => {
            history.pushState(null, document.title, location.href);
        });"#@),
        occurs_in(script->0@, r#"window.addEventListener('contextmenu', event => {
            event.preventDefault();
        }, { capture: true });"#@),
        occurs_in(script->0@, "window.saveAs = function (blob, filename) {"@),
        occurs_in(script->0@, "const data = reader.result.split(',')[1];"@),
        occurs_in(script->0@, r#"const tauriInvoke =
                    (window.__TAURI__ && window.__TAURI__.core && window.__TAURI__.core.invoke)
                    || (window.__TAURI_INTERNALS__ && window.__TAURI_INTERNALS__.invoke);"#@),
        occurs_in(script->0@, "tauriInvoke('save_as', { filename, data });"@),
        occurs_in(script->0@, "reader.readAsDataURL(blob);"@),
{
    let parts = page_script_parts(platform, *titlebar);
    lemma_part_occurs(parts, 1, ONCE@);
    lemma_part_occurs(parts, 3, STAY@);
    lemma_part_occurs(parts, 5, NO_CONTEXT_MENU@);
    lemma_part_occurs(parts, 7, SAVE_AS@);
    lemma_part_occurs(parts, 9, FILE_CONTENTS@);
    lemma_part_occurs(parts, 11, FIND_INVOKE@);
    lemma_part_occurs(parts, 13, SAVE_COMMAND@);
    lemma_part_occurs(parts, 15, READ_FILE@);
}

/// The update stands whole in the script that shows it, as the only argument of the
/// function that the splash page offers for it. Different updates make different scripts.
pub proof fn law_update_reaches_the_page_whole(
    payload: &str,
    script: String,
    other_payload: &str,
    other_script: String,
)
    requires
        call_ensures(splash_update_script, (payload,), script),
        call_ensures(splash_update_script, (other_payload,), other_script),
    ensures
        ({
            let call = "window.__ALAS_SPLASH_UPDATE && window.__ALAS_SPLASH_UPDATE("@;
            &&& call.is_prefix_of(script@)
            &&& script@.skip(call.len() as int) == payload@ + ");"@
        }),
        script@ == other_script@ <==> payload@ == other_payload@,
{
    let call = "window.__ALAS_SPLASH_UPDATE && window.__ALAS_SPLASH_UPDATE("@;
    reveal_strlit(");");
    assert(script@.skip(call.len() as int) =~= payload@ + ");"@);
    assert(script@.subrange(call.len() as int, script@.len() - 2) =~= payload@);
    assert(other_script@.subrange(call.len() as int, other_script@.len() - 2)
        =~= other_payload@);
}

/// The probe fails exactly as long as the splash page has not said that it is ready.
pub proof fn law_probe_asks_whether_the_page_is_ready()
    ensures
        SPLASH_READY_PROBE@ == r#"
                if (!window.__ALAS_SPLASH_READY) {
                    throw new Error("splash page is not ready");
                }
                "#@,
{
}

} // verus!
