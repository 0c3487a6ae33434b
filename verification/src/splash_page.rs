//! The page that is shown while the launcher prepares and starts the backend.
use crate::encoding::{base64_encode, base64_text, is_base64_char, law_base64_alphabet};
use crate::html::{escape_html, html_char, html_escaped, lemma_escaped_first};
use crate::json::{
    hex_char, json_body, json_char, json_members, json_object, json_object_text, json_string,
    keys_ascend, law_object_holds_its_members, pairs_view, parts_before,
};
use crate::page::{PageAssets, PageResponse, CONTENT_TYPE};
use crate::platform::Platform;
use crate::splash_template::{
    lemma_splash_names, lemma_splash_slots, lemma_splash_texts_inert, splash_names,
    splash_pieces, template_names, template_pieces, SPLASH_BADGE_OPEN, SPLASH_CLOSE_OPEN,
    SPLASH_DEFAULT_TIP, SPLASH_DETAIL_CLOSE, SPLASH_DETAIL_OPEN, SPLASH_DIV_CLOSE,
    SPLASH_DRAG_FLAG_OPEN, SPLASH_FONT_CLOSE, SPLASH_FONT_OPEN, SPLASH_HEADLINE_CLOSE,
    SPLASH_HEADLINE_OPEN, SPLASH_HTML_BRAND, SPLASH_HTML_HEAD, SPLASH_HTML_PROGRESS,
    SPLASH_HTML_TITLE, SPLASH_LABEL_TO_TITLE, SPLASH_LOG_BUTTON_CLOSE, SPLASH_LOG_BUTTON_OPEN,
    SPLASH_LOG_COMMAND, SPLASH_LOG_FAILED, SPLASH_META_OPEN, SPLASH_MINIMIZE_OPEN,
    SPLASH_NO_CONTEXT_MENU, SPLASH_NO_DETAIL, SPLASH_NO_SUBTITLE, SPLASH_ON_CLOSE,
    SPLASH_ON_LOG_BUTTON, SPLASH_ON_MINIMIZE, SPLASH_PAGE_READY, SPLASH_SCRIPT_CONTROLS_END,
    SPLASH_SCRIPT_UPDATE_END, SPLASH_SHOW_ERROR, SPLASH_SHOW_INSTALLER, SPLASH_SHOW_PROGRESS,
    SPLASH_SHOW_TEXTS, SPLASH_SPAN_CLOSE, SPLASH_STATEMENT_END, SPLASH_SUBTITLE_PARTS,
    SPLASH_SUBTITLE_PATTERN, SPLASH_TEXTS_OPEN, SPLASH_TIP_OPEN, SPLASH_TITLE_END,
    SPLASH_TO_DRAG_FLAG_OPEN, SPLASH_TO_LOG_COMMAND, SPLASH_TO_NO_DETAIL, SPLASH_TO_NO_SUBTITLE,
    SPLASH_TO_ON_CLOSE, SPLASH_TO_ON_LOG_BUTTON, SPLASH_TO_ON_MINIMIZE, SPLASH_TO_PAGE_READY,
    SPLASH_TO_SHOW_INSTALLER, SPLASH_TO_SHOW_TEXTS, SPLASH_TO_SUBTITLE_PARTS,
    SPLASH_UPDATE_FUNCTION, SPLASH_VERSION_OPEN, SPLASH_VIDEO_CLOSE, SPLASH_VIDEO_OPEN,
};
use crate::template::{
    fill_in_turn, filled_in_turn, inert, is_name, law_no_slot_is_left, law_slots_are_filled,
    lemma_inert_concat, lemma_inert_dollar, lemma_inert_skip, lemma_plain_is_inert,
    lemma_slot_occurs, lemma_text_occurs, plain, rendered, template_text, texts_view,
};
use crate::text::{lemma_occurs_in_larger, lemma_occurs_through, occurs_in, replaced};
use crate::titlebar::{drag_flag, drag_flag_text};
use vstd::prelude::*;

verus! {

/// The texts of the splash page.
#[derive(Debug)]
pub struct SplashText {
    pub default_tip: String,
    pub loading_badge: String,
    pub webui_init: String,
    pub starting: String,
    pub error_badge: String,
    pub init_stopped: String,
    pub progress_meta_ready: String,
    pub preparing_log: String,
    pub log_saved_prefix: String,
    pub log_failed: String,
    pub initializing: String,
    pub minimize: String,
    pub close: String,
    pub download_log: String,
}

/// The texts under the names that the script of the page reads them by.
pub open spec fn splash_members(text: SplashText) -> Seq<(Seq<char>, Seq<char>)> {
    seq![
        ("defaultTip"@, text.default_tip@),
        ("errorBadge"@, text.error_badge@),
        ("initStopped"@, text.init_stopped@),
        ("loading"@, text.loading_badge@),
        ("logFailed"@, text.log_failed@),
        ("logSavedPrefix"@, text.log_saved_prefix@),
        ("preparingLog"@, text.preparing_log@),
        ("progressMetaReady"@, text.progress_meta_ready@),
        ("starting"@, text.starting@),
        ("webuiInit"@, text.webui_init@),
    ]
}

/// What the slots are filled with.
pub open spec fn splash_values(
    video_bg_b64: Seq<char>,
    mi_sans_font_b64: Seq<char>,
    platform: Platform,
    version: Seq<char>,
    text: SplashText,
) -> Seq<Seq<char>> {
    seq![
        video_bg_b64,
        mi_sans_font_b64,
        version,
        json_object(splash_members(text)),
        drag_flag(platform),
        html_escaped(text.initializing@),
        html_escaped(text.minimize@),
        html_escaped(text.close@),
        html_escaped(text.starting@),
        html_escaped(text.webui_init@),
        html_escaped(text.default_tip@),
        html_escaped(text.progress_meta_ready@),
        html_escaped(text.download_log@),
    ]
}

/// The splash page: the template with its names replaced one after another.
pub open spec fn splash_page(
    video_bg_b64: Seq<char>,
    mi_sans_font_b64: Seq<char>,
    platform: Platform,
    version: Seq<char>,
    text: SplashText,
) -> Seq<char> {
    filled_in_turn(
        rendered(splash_pieces(), splash_names()),
        splash_names(),
        splash_values(video_bg_b64, mi_sans_font_b64, platform, version, text),
        splash_names().len(),
    )
}

proof fn lemma_splash_members_ascend(text: SplashText)
    ensures
        keys_ascend(splash_members(text)),
{
    reveal_strlit("defaultTip");
    reveal_strlit("errorBadge");
    reveal_strlit("initStopped");
    reveal_strlit("loading");
    reveal_strlit("logFailed");
    reveal_strlit("logSavedPrefix");
    reveal_strlit("preparingLog");
    reveal_strlit("progressMetaReady");
    reveal_strlit("starting");
    reveal_strlit("webuiInit");
    let members = splash_members(text);
    assert forall|i: int| 0 <= i < members.len() - 1 implies exists|at: int| #[trigger]
        parts_before((#[trigger] members[i]).0, members[i + 1].0, at) by {
        if i == 0 {
            assert("defaultTip"@.take(0) =~= "errorBadge"@.take(0));
            assert(parts_before(members[i].0, members[i + 1].0, 0));
        } else if i == 1 {
            assert("errorBadge"@.take(0) =~= "initStopped"@.take(0));
            assert(parts_before(members[i].0, members[i + 1].0, 0));
        } else if i == 2 {
            assert("initStopped"@.take(0) =~= "loading"@.take(0));
            assert(parts_before(members[i].0, members[i + 1].0, 0));
        } else if i == 3 {
            assert("loading"@.take(2) =~= "logFailed"@.take(2));
            assert(parts_before(members[i].0, members[i + 1].0, 2));
        } else if i == 4 {
            assert("logFailed"@.take(3) =~= "logSavedPrefix"@.take(3));
            assert(parts_before(members[i].0, members[i + 1].0, 3));
        } else if i == 5 {
            assert("logSavedPrefix"@.take(0) =~= "preparingLog"@.take(0));
            assert(parts_before(members[i].0, members[i + 1].0, 0));
        } else if i == 6 {
            assert("preparingLog"@.take(2) =~= "progressMetaReady"@.take(2));
            assert(parts_before(members[i].0, members[i + 1].0, 2));
        } else if i == 7 {
            assert("progressMetaReady"@.take(0) =~= "starting"@.take(0));
            assert(parts_before(members[i].0, members[i + 1].0, 0));
        } else {
            assert("starting"@.take(0) =~= "webuiInit"@.take(0));
            assert(parts_before(members[i].0, members[i + 1].0, 0));
        }
    }
}

/// Writes the splash page with the given video and font, both in Base64.
pub fn splash_redesigned_shell_html(
    video_bg_b64: &str,
    mi_sans_font_b64: &str,
    platform: Platform,
    version: &str,
    text: &SplashText,
) -> (page: String)
    ensures
        page@ == splash_page(video_bg_b64@, mi_sans_font_b64@, platform, version@, *text),
{
    let mut members: Vec<(String, String)> = Vec::new();
    members.push(("defaultTip".to_owned(), text.default_tip.clone()));
    members.push(("errorBadge".to_owned(), text.error_badge.clone()));
    members.push(("initStopped".to_owned(), text.init_stopped.clone()));
    members.push(("loading".to_owned(), text.loading_badge.clone()));
    members.push(("logFailed".to_owned(), text.log_failed.clone()));
    members.push(("logSavedPrefix".to_owned(), text.log_saved_prefix.clone()));
    members.push(("preparingLog".to_owned(), text.preparing_log.clone()));
    members.push(("progressMetaReady".to_owned(), text.progress_meta_ready.clone()));
    members.push(("starting".to_owned(), text.starting.clone()));
    members.push(("webuiInit".to_owned(), text.webui_init.clone()));
    proof {
        assert(pairs_view(members@) =~= splash_members(*text));
        lemma_splash_members_ascend(*text);
    }
    let texts = json_object_text(&members);
    let names = template_names();
    let pieces = template_pieces();
    let mut values: Vec<String> = Vec::new();
    values.push(video_bg_b64.to_owned());
    values.push(mi_sans_font_b64.to_owned());
    values.push(version.to_owned());
    values.push(texts);
    values.push(drag_flag_text(platform).to_owned());
    values.push(escape_html(text.initializing.as_str()));
    values.push(escape_html(text.minimize.as_str()));
    values.push(escape_html(text.close.as_str()));
    values.push(escape_html(text.starting.as_str()));
    values.push(escape_html(text.webui_init.as_str()));
    values.push(escape_html(text.default_tip.as_str()));
    values.push(escape_html(text.progress_meta_ready.as_str()));
    values.push(escape_html(text.download_log.as_str()));
    proof {
        assert(texts_view(values@) =~= splash_values(
            video_bg_b64@,
            mi_sans_font_b64@,
            platform,
            version@,
            *text,
        ));
        lemma_splash_slots();
        lemma_splash_names();
        assert forall|k: int| 0 <= k < names@.len() implies (#[trigger] names@[k])@.len() > 0 by {
            assert(is_name(splash_names()[k]));
        }
    }
    fill_in_turn(template_text(&pieces, &names), &names, &values)
}

/// Answers a request for the splash page.
pub fn splash_response(
    assets: &PageAssets,
    platform: Platform,
    version: &str,
    text: &SplashText,
) -> (response: PageResponse)
    requires
        assets.encodable(),
    ensures
        response.content_type@ == CONTENT_TYPE@,
        response.body@ == splash_page(
            base64_text(assets.video@),
            base64_text(assets.font@),
            platform,
            version@,
            *text,
        ),
{
    let video = base64_encode(assets.video.as_slice());
    let font = base64_encode(assets.font.as_slice());
    let body = splash_redesigned_shell_html(video.as_str(), font.as_str(), platform, version, text);
    PageResponse { content_type: CONTENT_TYPE, body }
}

/// How an escaped text begins: as the text does, or with the `&` of a reference.
proof fn lemma_escaped_inert(text: Seq<char>)
    requires
        inert(text),
    ensures
        inert(html_escaped(text)),
        text.len() > 0 ==> html_escaped(text).len() > 0 && (html_escaped(text)[0] == text[0]
            || html_escaped(text)[0] == '&'),
    decreases text.len(),
{
    if text.len() > 0 {
        let first = html_char(text[0]);
        let rest = html_escaped(text.skip(1));
        lemma_escaped_first(text);
        lemma_inert_skip(text);
        lemma_escaped_inert(text.skip(1));
        reveal_strlit("&amp;");
        reveal_strlit("&lt;");
        reveal_strlit("&gt;");
        reveal_strlit("&quot;");
        reveal_strlit("&#39;");
        assert(html_escaped(text)[0] == first[0]);
        if text[0] == '$' {
            assert(text.skip(1)[0] == text[1]);
            lemma_inert_dollar(rest);
            assert(html_escaped(text) =~= seq!['$'] + rest);
        } else {
            assert(plain(first));
            lemma_plain_is_inert(first);
            lemma_inert_concat(first, rest);
        }
    }
}

proof fn lemma_json_char_plain(c: char)
    requires
        c != '$',
    ensures
        plain(json_char(c)),
{
    if ' ' > c {
        assert(hex_char(c as int / 16) != '$');
        assert(hex_char(c as int % 16) != '$');
    }
}

/// How the body of a JSON string begins: as the text does, or with a backslash.
proof fn lemma_json_body_inert(text: Seq<char>)
    requires
        inert(text),
    ensures
        inert(json_body(text)),
        text.len() > 0 ==> json_body(text).len() > 0 && (json_body(text)[0] == text[0]
            || json_body(text)[0] == '\\'),
    decreases text.len(),
{
    if text.len() > 0 {
        let first = json_char(text[0]);
        let rest = json_body(text.skip(1));
        lemma_inert_skip(text);
        lemma_json_body_inert(text.skip(1));
        assert(json_body(text)[0] == first[0]);
        if text[0] == '$' {
            assert(text.skip(1)[0] == text[1]);
            lemma_inert_dollar(rest);
            assert(json_body(text) =~= seq!['$'] + rest);
        } else {
            lemma_json_char_plain(text[0]);
            lemma_plain_is_inert(first);
            lemma_inert_concat(first, rest);
        }
    }
}

proof fn lemma_json_string_inert(text: Seq<char>)
    requires
        inert(text),
    ensures
        inert(json_string(text)),
{
    lemma_json_body_inert(text);
    lemma_inert_concat(seq!['"'], json_body(text));
    lemma_inert_concat(seq!['"'] + json_body(text), seq!['"']);
}

proof fn lemma_json_members_inert(members: Seq<(Seq<char>, Seq<char>)>)
    requires
        forall|i: int|
            0 <= i < members.len() ==> inert((#[trigger] members[i]).0) && inert(members[i].1),
    ensures
        inert(json_members(members)),
    decreases members.len(),
{
    if members.len() > 0 {
        assert(inert(members[0].0) && inert(members[0].1));
        let key = json_string(members[0].0);
        let value = json_string(members[0].1);
        lemma_json_string_inert(members[0].0);
        lemma_json_string_inert(members[0].1);
        lemma_inert_concat(key, seq![':']);
        lemma_inert_concat(key + seq![':'], value);
        if members.len() > 1 {
            let rest = members.skip(1);
            assert forall|i: int| 0 <= i < rest.len() implies inert((#[trigger] rest[i]).0)
                && inert(rest[i].1) by {
                assert(rest[i] == members[i + 1]);
            }
            lemma_json_members_inert(rest);
            lemma_inert_concat(key + seq![':'] + value, seq![',']);
            lemma_inert_concat(key + seq![':'] + value + seq![','], json_members(rest));
        }
    }
}

impl SplashText {
    /// None of the texts holds a `$`.
    pub open spec fn plain(&self) -> bool {
        &&& plain(self.default_tip@) && plain(self.loading_badge@) && plain(self.webui_init@)
        &&& plain(self.starting@) && plain(self.error_badge@) && plain(self.init_stopped@)
        &&& plain(self.progress_meta_ready@) && plain(self.preparing_log@)
        &&& plain(self.log_saved_prefix@) && plain(self.log_failed@) && plain(self.initializing@)
        &&& plain(self.minimize@) && plain(self.close@) && plain(self.download_log@)
    }

    /// No name of a slot can begin in any of the texts.
    pub open spec fn inert(&self) -> bool {
        &&& inert(self.default_tip@) && inert(self.loading_badge@) && inert(self.webui_init@)
        &&& inert(self.starting@) && inert(self.error_badge@) && inert(self.init_stopped@)
        &&& inert(self.progress_meta_ready@) && inert(self.preparing_log@)
        &&& inert(self.log_saved_prefix@) && inert(self.log_failed@) && inert(self.initializing@)
        &&& inert(self.minimize@) && inert(self.close@) && inert(self.download_log@)
    }
}

/// In texts without a `$` no name of a slot can begin.
pub proof fn law_plain_texts_are_inert(text: SplashText)
    requires
        text.plain(),
    ensures
        text.inert(),
{
    lemma_plain_is_inert(text.default_tip@);
    lemma_plain_is_inert(text.loading_badge@);
    lemma_plain_is_inert(text.webui_init@);
    lemma_plain_is_inert(text.starting@);
    lemma_plain_is_inert(text.error_badge@);
    lemma_plain_is_inert(text.init_stopped@);
    lemma_plain_is_inert(text.progress_meta_ready@);
    lemma_plain_is_inert(text.preparing_log@);
    lemma_plain_is_inert(text.log_saved_prefix@);
    lemma_plain_is_inert(text.log_failed@);
    lemma_plain_is_inert(text.initializing@);
    lemma_plain_is_inert(text.minimize@);
    lemma_plain_is_inert(text.close@);
    lemma_plain_is_inert(text.download_log@);
}

proof fn lemma_splash_json_inert(text: SplashText)
    requires
        text.inert(),
    ensures
        inert(json_object(splash_members(text))),
{
    reveal_strlit("defaultTip");
    reveal_strlit("errorBadge");
    reveal_strlit("initStopped");
    reveal_strlit("loading");
    reveal_strlit("logFailed");
    reveal_strlit("logSavedPrefix");
    reveal_strlit("preparingLog");
    reveal_strlit("progressMetaReady");
    reveal_strlit("starting");
    reveal_strlit("webuiInit");
    let members = splash_members(text);
    lemma_json_members_inert(members);
    lemma_inert_concat(seq!['{'], json_members(members));
    lemma_inert_concat(seq!['{'] + json_members(members), seq!['}']);
}

proof fn lemma_splash_values_inert(
    video_bg_b64: Seq<char>,
    mi_sans_font_b64: Seq<char>,
    platform: Platform,
    version: Seq<char>,
    text: SplashText,
)
    requires
        inert(video_bg_b64),
        inert(mi_sans_font_b64),
        inert(version),
        text.inert(),
    ensures
        ({
            let values = splash_values(video_bg_b64, mi_sans_font_b64, platform, version, text);
            forall|k: int| 0 <= k < values.len() ==> inert(#[trigger] values[k])
        }),
{
    lemma_splash_json_inert(text);
    assert(inert(drag_flag(platform))) by {
        reveal_strlit("true");
        reveal_strlit("false");
    }
    lemma_escaped_inert(text.initializing@);
    lemma_escaped_inert(text.minimize@);
    lemma_escaped_inert(text.close@);
    lemma_escaped_inert(text.starting@);
    lemma_escaped_inert(text.webui_init@);
    lemma_escaped_inert(text.default_tip@);
    lemma_escaped_inert(text.progress_meta_ready@);
    lemma_escaped_inert(text.download_log@);
}

/// Where no name of a slot can begin in a value, the splash page is its fixed text
/// with each value in the slots that are meant for it, and no name of a slot is left.
pub proof fn law_splash_page_is_complete(
    video_bg_b64: Seq<char>,
    mi_sans_font_b64: Seq<char>,
    platform: Platform,
    version: Seq<char>,
    text: SplashText,
)
    requires
        inert(video_bg_b64),
        inert(mi_sans_font_b64),
        inert(version),
        text.inert(),
    ensures
        splash_page(video_bg_b64, mi_sans_font_b64, platform, version, text) == rendered(
            splash_pieces(),
            splash_values(video_bg_b64, mi_sans_font_b64, platform, version, text),
        ),
        forall|k: int|
            0 <= k < splash_names().len() ==> !occurs_in(
                splash_page(video_bg_b64, mi_sans_font_b64, platform, version, text),
                #[trigger] splash_names()[k],
            ),
{
    let names = splash_names();
    let values = splash_values(video_bg_b64, mi_sans_font_b64, platform, version, text);
    lemma_splash_names();
    lemma_splash_slots();
    lemma_splash_texts_inert();
    lemma_splash_values_inert(video_bg_b64, mi_sans_font_b64, platform, version, text);
    law_slots_are_filled(splash_pieces(), names, values, names.len());
    assert forall|k: int| 0 <= k < names.len() implies !occurs_in(
        splash_page(video_bg_b64, mi_sans_font_b64, platform, version, text),
        #[trigger] names[k],
    ) by {
        law_no_slot_is_left(splash_pieces(), values, names[k]);
    }
}

/// The embedded files never disturb the page: Base64 holds no `$`.
pub proof fn law_embedded_files_are_plain(bytes: Seq<u8>)
    ensures
        plain(base64_text(bytes)),
        inert(base64_text(bytes)),
{
    law_base64_alphabet(bytes);
    assert forall|i: int| 0 <= i < base64_text(bytes).len() implies #[trigger] base64_text(bytes)[i]
        != '$' by {
        assert(is_base64_char(base64_text(bytes)[i]));
    }
}

/// Every text of the splash page stands where it is meant to be read, escaped: in the
/// badge, the headline, the detail, the tip and the note, and each button bears its own
/// label. The version, the font and the video are there too.
pub proof fn law_splash_page_shows_its_texts(
    video_bg_b64: &str,
    mi_sans_font_b64: &str,
    platform: Platform,
    version: &str,
    text: &SplashText,
    page: String,
)
    requires
        inert(video_bg_b64@),
        inert(mi_sans_font_b64@),
        inert(version@),
        text.inert(),
        call_ensures(
            splash_redesigned_shell_html,
            (video_bg_b64, mi_sans_font_b64, platform, version, text),
            page,
        ),
    ensures
        occurs_in(
            page@,
            "src: url(data:font/ttf;base64,"@ + mi_sans_font_b64@ + r#") format("truetype");"#@,
        ),
        occurs_in(
            page@,
            r#"<source src="data:video/mp4;base64,"#@ + video_bg_b64@ + r#"" type="video/mp4">"#@,
        ),
        occurs_in(
            page@,
            r#"<span class="app-version">v"#@ + version@ + "</span>"@,
        ),
        occurs_in(
            page@,
            r#"<span id="badge-text">"#@ + html_escaped(text.initializing@) + "</span>"@,
        ),
        occurs_in(
            page@,
            r#"<button id="window-minimize" class="win-btn minimize" type="button" aria-label=""#@ + html_escaped(text.minimize@) + r#"" title=""#@,
        ),
        occurs_in(
            page@,
            r#"" title=""#@ + html_escaped(text.minimize@) + r#"">"#@,
        ),
        occurs_in(
            page@,
            r#"<button id="window-close" class="win-btn close" type="button" aria-label=""#@ + html_escaped(text.close@) + r#"" title=""#@,
        ),
        occurs_in(
            page@,
            r#"" title=""#@ + html_escaped(text.close@) + r#"">"#@,
        ),
        occurs_in(
            page@,
            r#"<h1 id="title" class="main-action-text">"#@ + html_escaped(text.starting@) + "</h1>"@,
        ),
        occurs_in(
            page@,
            r#"<p id="detail" class="sub-action-text">"#@ + html_escaped(text.webui_init@) + "</p>"@,
        ),
        occurs_in(
            page@,
            r#"<div id="tip-text" class="tip-text">"#@ + html_escaped(text.default_tip@) + "</div>"@,
        ),
        occurs_in(
            page@,
            r#"<div id="progress-meta" class="notice-text">"#@ + html_escaped(text.progress_meta_ready@) + "</div>"@,
        ),
        occurs_in(
            page@,
            r#"<button id="splash-log-button" class="splash-log-button" type="button">"#@ + html_escaped(text.download_log@) + "</button>"@,
        ),
{
    law_splash_page_is_complete(video_bg_b64@, mi_sans_font_b64@, platform, version@, *text);
    let pieces = splash_pieces();
    let values = splash_values(video_bg_b64@, mi_sans_font_b64@, platform, version@, *text);
    lemma_slot_occurs(pieces, values, 1, SPLASH_FONT_OPEN@, 1, SPLASH_FONT_CLOSE@);
    lemma_slot_occurs(pieces, values, 10, SPLASH_VIDEO_OPEN@, 0, SPLASH_VIDEO_CLOSE@);
    lemma_slot_occurs(pieces, values, 14, SPLASH_VERSION_OPEN@, 2, SPLASH_SPAN_CLOSE@);
    lemma_slot_occurs(pieces, values, 18, SPLASH_BADGE_OPEN@, 5, SPLASH_SPAN_CLOSE@);
    lemma_slot_occurs(pieces, values, 22, SPLASH_MINIMIZE_OPEN@, 6, SPLASH_LABEL_TO_TITLE@);
    lemma_slot_occurs(pieces, values, 24, SPLASH_LABEL_TO_TITLE@, 6, SPLASH_TITLE_END@);
    lemma_slot_occurs(pieces, values, 28, SPLASH_CLOSE_OPEN@, 7, SPLASH_LABEL_TO_TITLE@);
    lemma_slot_occurs(pieces, values, 30, SPLASH_LABEL_TO_TITLE@, 7, SPLASH_TITLE_END@);
    lemma_slot_occurs(pieces, values, 34, SPLASH_HEADLINE_OPEN@, 8, SPLASH_HEADLINE_CLOSE@);
    lemma_slot_occurs(pieces, values, 38, SPLASH_DETAIL_OPEN@, 9, SPLASH_DETAIL_CLOSE@);
    lemma_slot_occurs(pieces, values, 42, SPLASH_TIP_OPEN@, 10, SPLASH_DIV_CLOSE@);
    lemma_slot_occurs(pieces, values, 46, SPLASH_META_OPEN@, 11, SPLASH_DIV_CLOSE@);
    lemma_slot_occurs(pieces, values, 50, SPLASH_LOG_BUTTON_OPEN@, 12, SPLASH_LOG_BUTTON_CLOSE@);
}

/// The script of the splash page reads each of its texts by the name that is meant for it,
/// and is told who drags the window, which the webview does on Windows only.
pub proof fn law_splash_page_names_its_texts(
    video_bg_b64: &str,
    mi_sans_font_b64: &str,
    platform: Platform,
    version: &str,
    text: &SplashText,
    page: String,
)
    requires
        inert(video_bg_b64@),
        inert(mi_sans_font_b64@),
        inert(version@),
        text.inert(),
        call_ensures(
            splash_redesigned_shell_html,
            (video_bg_b64, mi_sans_font_b64, platform, version, text),
            page,
        ),
    ensures
        occurs_in(
            page@,
            "const i18n = "@ + json_object(splash_members(*text)) + ";"@,
        ),
        occurs_in(
            page@,
            "const webviewDraggableRegionsEnabled = "@ + (if platform == Platform::Windows {
                "true"@
            } else {
                "false"@
            }) + ";"@,
        ),
        occurs_in(page@, json_string("defaultTip"@) + seq![':'] + json_string(text.default_tip@)),
        occurs_in(page@, json_string("errorBadge"@) + seq![':'] + json_string(text.error_badge@)),
        occurs_in(page@, json_string("initStopped"@) + seq![':'] + json_string(text.init_stopped@)),
        occurs_in(page@, json_string("loading"@) + seq![':'] + json_string(text.loading_badge@)),
        occurs_in(page@, json_string("logFailed"@) + seq![':'] + json_string(text.log_failed@)),
        occurs_in(page@, json_string("logSavedPrefix"@) + seq![':'] + json_string(text.log_saved_prefix@)),
        occurs_in(page@, json_string("preparingLog"@) + seq![':'] + json_string(text.preparing_log@)),
        occurs_in(page@, json_string("progressMetaReady"@) + seq![':'] + json_string(text.progress_meta_ready@)),
        occurs_in(page@, json_string("starting"@) + seq![':'] + json_string(text.starting@)),
        occurs_in(page@, json_string("webuiInit"@) + seq![':'] + json_string(text.webui_init@)),
{
    law_splash_page_is_complete(video_bg_b64@, mi_sans_font_b64@, platform, version@, *text);
    let pieces = splash_pieces();
    let values = splash_values(video_bg_b64@, mi_sans_font_b64@, platform, version@, *text);
    lemma_slot_occurs(pieces, values, 54, SPLASH_TEXTS_OPEN@, 3, SPLASH_STATEMENT_END@);
    lemma_slot_occurs(pieces, values, 60, SPLASH_DRAG_FLAG_OPEN@, 4, SPLASH_STATEMENT_END@);
    let members = splash_members(*text);
    let object = json_object(members);
    let before = SPLASH_TEXTS_OPEN@;
    let after = SPLASH_STATEMENT_END@;
    assert forall|i: int| 0 <= i < members.len() implies occurs_in(
        page@,
        json_string((#[trigger] members[i]).0) + seq![':'] + json_string(members[i].1),
    ) by {
        let member = json_string(members[i].0) + seq![':'] + json_string(members[i].1);
        law_object_holds_its_members(members, i);
        lemma_occurs_in_larger(before, object, after, member);
        lemma_occurs_through(page@, before + object + after, member);
    }
    assert(members[0] == ("defaultTip"@, text.default_tip@));
    assert(members[1] == ("errorBadge"@, text.error_badge@));
    assert(members[2] == ("initStopped"@, text.init_stopped@));
    assert(members[3] == ("loading"@, text.loading_badge@));
    assert(members[4] == ("logFailed"@, text.log_failed@));
    assert(members[5] == ("logSavedPrefix"@, text.log_saved_prefix@));
    assert(members[6] == ("preparingLog"@, text.preparing_log@));
    assert(members[7] == ("progressMetaReady"@, text.progress_meta_ready@));
    assert(members[8] == ("starting"@, text.starting@));
    assert(members[9] == ("webuiInit"@, text.webui_init@));
}

/// The splash page shows what an update tells: its texts, its progress, the progress of an
/// installer, and whether something failed. A subtitle is taken apart into note and tip.
pub proof fn law_splash_page_shows_updates(
    video_bg_b64: &str,
    mi_sans_font_b64: &str,
    platform: Platform,
    version: &str,
    text: &SplashText,
    page: String,
)
    requires
        inert(video_bg_b64@),
        inert(mi_sans_font_b64@),
        inert(version@),
        text.inert(),
        call_ensures(
            splash_redesigned_shell_html,
            (video_bg_b64, mi_sans_font_b64, platform, version, text),
            page,
        ),
    ensures
        occurs_in(page@, "const defaultTip = i18n.defaultTip;"@),
        occurs_in(page@, r#"if (!text) {
        return { status: i18n.loading, tip: defaultTip };
      }"#@),
        occurs_in(page@, r#"const match = text.match(/^(.*?)\s*\|\s*Tips[:：]\s*(.*)$/);"#@),
        occurs_in(page@, r#"status: match[1].trim() || i18n.loading,
        tip: match[2].trim() || defaultTip,"#@),
        occurs_in(page@, "return text || i18n.webuiInit;"@),
        occurs_in(page@, "window.__ALAS_SPLASH_UPDATE = function (payload) {"@),
        occurs_in(page@, r#"badgeText.textContent = payload.is_error ? i18n.errorBadge : subtitle.status;
      document.getElementById('tip-text').textContent = subtitle.tip;
      document.getElementById('title').textContent = payload.title || i18n.starting;
      document.getElementById('detail').textContent = normalizeDetail(payload.detail);
      progressMeta.textContent = payload.is_error
        ? i18n.initStopped
        : i18n.progressMetaReady;"#@),
        occurs_in(page@, r#"const progress = Math.max(0, Math.min(100, Number(payload.progress || 0)));
      progressFill.style.width = progress + '%';
      progressPct.textContent = progress + '%';"#@),
        occurs_in(page@, r#"const uvProgress = Math.max(0, Math.min(99, Number(uvState.progress)));
        uvProgressFill.style.width = uvProgress + '%';
        uvProgressPct.textContent = uvProgress + '%';
        uvProgressDetail.textContent = String(uvState.detail || '');"#@),
        occurs_in(page@, r#"if (payload.is_error) {
        document.body.classList.add('error-state');"#@),
        occurs_in(page@, "window.__ALAS_SPLASH_READY = true;"@),
{
    law_splash_page_is_complete(video_bg_b64@, mi_sans_font_b64@, platform, version@, *text);
    let pieces = splash_pieces();
    let values = splash_values(video_bg_b64@, mi_sans_font_b64@, platform, version@, *text);
    lemma_text_occurs(pieces, values, 58, SPLASH_DEFAULT_TIP@);
    lemma_text_occurs(pieces, values, 67, SPLASH_NO_SUBTITLE@);
    lemma_text_occurs(pieces, values, 69, SPLASH_SUBTITLE_PATTERN@);
    lemma_text_occurs(pieces, values, 71, SPLASH_SUBTITLE_PARTS@);
    lemma_text_occurs(pieces, values, 73, SPLASH_NO_DETAIL@);
    lemma_text_occurs(pieces, values, 75, SPLASH_UPDATE_FUNCTION@);
    lemma_text_occurs(pieces, values, 77, SPLASH_SHOW_TEXTS@);
    lemma_text_occurs(pieces, values, 79, SPLASH_SHOW_PROGRESS@);
    lemma_text_occurs(pieces, values, 81, SPLASH_SHOW_INSTALLER@);
    lemma_text_occurs(pieces, values, 83, SPLASH_SHOW_ERROR@);
    lemma_text_occurs(pieces, values, 96, SPLASH_PAGE_READY@);
}

/// Each button of the splash page does what it says: minimize, close, and download the log
/// of the launcher.
pub proof fn law_splash_page_buttons_do_what_they_say(
    video_bg_b64: &str,
    mi_sans_font_b64: &str,
    platform: Platform,
    version: &str,
    text: &SplashText,
    page: String,
)
    requires
        inert(video_bg_b64@),
        inert(mi_sans_font_b64@),
        inert(version@),
        text.inert(),
        call_ensures(
            splash_redesigned_shell_html,
            (video_bg_b64, mi_sans_font_b64, platform, version, text),
            page,
        ),
    ensures
        occurs_in(page@, r#"window.addEventListener('contextmenu', event => {
      event.preventDefault();
    }, { capture: true });"#@),
        occurs_in(page@, r#"document.getElementById('window-minimize').addEventListener('click', event => {
      event.stopPropagation();
      if (typeof invoke === 'function') {
        invoke('window_minimize')"#@),
        occurs_in(page@, r#"document.getElementById('window-close').addEventListener('click', event => {
      event.stopPropagation();
      if (typeof invoke === 'function') {
        invoke('window_close')"#@),
        occurs_in(page@, "document.getElementById('splash-log-button').addEventListener('click', async () => {"@),
        occurs_in(page@, r#"const filename = await invoke('download_today_launcher_log');
        progressMeta.textContent = i18n.logSavedPrefix + filename;"#@),
        occurs_in(page@, "progressMeta.textContent = i18n.logFailed + (error && error.message ? error.message : error);"@),
{
    law_splash_page_is_complete(video_bg_b64@, mi_sans_font_b64@, platform, version@, *text);
    let pieces = splash_pieces();
    let values = splash_values(video_bg_b64@, mi_sans_font_b64@, platform, version@, *text);
    lemma_text_occurs(pieces, values, 64, SPLASH_NO_CONTEXT_MENU@);
    lemma_text_occurs(pieces, values, 86, SPLASH_ON_MINIMIZE@);
    lemma_text_occurs(pieces, values, 88, SPLASH_ON_CLOSE@);
    lemma_text_occurs(pieces, values, 90, SPLASH_ON_LOG_BUTTON@);
    lemma_text_occurs(pieces, values, 92, SPLASH_LOG_COMMAND@);
    lemma_text_occurs(pieces, values, 94, SPLASH_LOG_FAILED@);
}

/// A request for the splash page is answered with the page for the embedded video and
/// font, as HTML.
pub proof fn law_splash_request_is_answered_with_its_page(
    assets: &PageAssets,
    platform: Platform,
    version: &str,
    text: &SplashText,
    response: PageResponse,
    video: &str,
    font: &str,
    page: String,
)
    requires
        call_ensures(splash_response, (assets, platform, version, text), response),
        video@ == base64_text(assets.video@),
        font@ == base64_text(assets.font@),
        call_ensures(splash_redesigned_shell_html, (video, font, platform, version, text), page),
    ensures
        response.body@ == page@,
        response.content_type@ == "text/html; charset=utf-8"@,
{
}

/// The script of the splash page is whole: it finds the elements that it fills, shows an
/// installer only while it works, marks an error and takes the mark back, and lets the
/// window be dragged.
pub proof fn law_splash_page_script_is_whole(
    video_bg_b64: &str,
    mi_sans_font_b64: &str,
    platform: Platform,
    version: &str,
    text: &SplashText,
    page: String,
)
    requires
        inert(video_bg_b64@),
        inert(mi_sans_font_b64@),
        inert(version@),
        text.inert(),
        call_ensures(
            splash_redesigned_shell_html,
            (video_bg_b64, mi_sans_font_b64, platform, version, text),
            page,
        ),
    ensures
        occurs_in(page@, r#"<!doctype html>
<html lang="zh-CN">
<head>
<meta charset="utf-8">
<meta name="viewport" content="width=device-width, initial-scale=1">
<style>
  @font-face {
    font-family: "MiSans";
    "#@),
        occurs_in(page@, r#"
    </video>
    <div id="splash-drag-region" class="top-bar" data-tauri-drag-region>
      <div class="brand-zone">
        <span class="app-title">AzurPilot</span>
        "#@),
        occurs_in(page@, r#"
            <svg viewBox="0 0 8 8" aria-hidden="true"><line x1="2" y1="2" x2="6" y2="6"></line><line x1="6" y1="2" x2="2" y2="6"></line></svg>
          </button>
        </div>
      </div>
    </div>

    <div class="main-content">
      <div class="update-status">
        <div class="title-group">
          <div id="spinner" class="spinner"></div>
          <div id="error-dot" class="err-dot" style="display:none;">!</div>
          "#@),
        occurs_in(page@, r#"
      </div>

      <div class="progress-container">
        <div id="progress-pct" class="progress-percentage">4%</div>
        <div class="progress-bar-bg">
          <div id="progress-fill" class="progress-bar-fill" style="width: 4%;"></div>
        </div>
      </div>

      <div id="uv-progress-container" class="uv-progress-container" aria-hidden="true">
        <div class="uv-progress-header">
          <span id="uv-progress-detail" class="uv-progress-detail"></span>
          <span id="uv-progress-pct">0%</span>
        </div>
        <div class="uv-progress-bar-bg">
          <div id="uv-progress-fill" class="uv-progress-bar-fill" style="width: 2%;"></div>
        </div>
      </div>

      <div class="footer-info">
        "#@),
        occurs_in(page@, r#"
    const invoke =
      (window.__TAURI__ && window.__TAURI__.core && window.__TAURI__.core.invoke)
      || (window.__TAURI_INTERNALS__ && window.__TAURI_INTERNALS__.invoke);
    "#@),
        occurs_in(page@, r#"    function splitSubtitle(value) {
      const text = String(value || '').trim();
      "#@),
        occurs_in(page@, r#"
      if (!match) {
        return { status: text, tip: defaultTip };
      }
      return {
        "#@),
        occurs_in(page@, r#"
      };
    }

    function normalizeDetail(value) {
      const text = String(value || '').trim();
      "#@),
        occurs_in(page@, r#"
      const badge = document.getElementById('badge');
      const badgeText = document.getElementById('badge-text');
      const spinner = document.getElementById('spinner');
      const errorDot = document.getElementById('error-dot');
      const progressFill = document.getElementById('progress-fill');
      const progressPct = document.getElementById('progress-pct');
      const uvProgressContainer = document.getElementById('uv-progress-container');
      const uvProgressFill = document.getElementById('uv-progress-fill');
      const uvProgressPct = document.getElementById('uv-progress-pct');
      const uvProgressDetail = document.getElementById('uv-progress-detail');
      const progressMeta = document.getElementById('progress-meta');
      const splashActions = document.getElementById('splash-actions');
      const subtitle = splitSubtitle(payload.subtitle);

      "#@),
        occurs_in(page@, r#"

      const uvState = payload.uv_progress;
      const hasUvProgress = !payload.is_error
        && uvState
        && Number.isFinite(Number(uvState.progress));
      uvProgressContainer.classList.toggle('is-visible', Boolean(hasUvProgress));
      uvProgressContainer.setAttribute('aria-hidden', String(!hasUvProgress));
      if (hasUvProgress) {
        "#@),
        occurs_in(page@, r#"
        badge.className = 'status-badge status-badge-err';
        spinner.style.display = 'none';
        errorDot.style.display = 'flex';
        progressFill.className = 'progress-bar-fill progress-bar-fill-error';
        splashActions.className = 'splash-actions splash-actions-err';
      } else {
        document.body.classList.remove('error-state');
        badge.className = 'status-badge';
        spinner.style.display = 'block';
        errorDot.style.display = 'none';
        progressFill.className = 'progress-bar-fill';
        splashActions.className = 'splash-actions';
      }
    };

"#@),
        occurs_in(page@, r#"    document.getElementById('splash-drag-region').addEventListener('pointerdown', event => {
      if (webviewDraggableRegionsEnabled) {
        return;
      }
      if (event.pointerType !== 'touch' || event.target.closest('.window-controls')) {
        return;
      }
      event.preventDefault();
      if (typeof invoke === 'function') {
        invoke('plugin:window|start_dragging').catch(error => {
          console.error('Failed to drag splash window', error);
        });
      }
    });

    "#@),
        occurs_in(page@, r#".catch(error => {
          console.error('Failed to minimize splash window', error);
        });
      }
    });

    "#@),
        occurs_in(page@, r#".catch(error => {
          console.error('Failed to close splash window', error);
        });
      }
    });

    "#@),
        occurs_in(page@, r#"
      const button = document.getElementById('splash-log-button');
      const progressMeta = document.getElementById('progress-meta');
      button.disabled = true;
      progressMeta.textContent = i18n.preparingLog;
      try {
        if (typeof invoke !== 'function') {
          throw new Error('Tauri invoke is unavailable');
        }
        "#@),
        occurs_in(page@, r#"
      } finally {
        button.disabled = false;
      }
    });

    "#@),
        occurs_in(page@, r#"
  </script>
</body>
</html>"#@),
{
    law_splash_page_is_complete(video_bg_b64@, mi_sans_font_b64@, platform, version@, *text);
    let pieces = splash_pieces();
    let values = splash_values(video_bg_b64@, mi_sans_font_b64@, platform, version@, *text);
    lemma_text_occurs(pieces, values, 0, SPLASH_HTML_HEAD@);
    lemma_text_occurs(pieces, values, 13, SPLASH_HTML_BRAND@);
    lemma_text_occurs(pieces, values, 33, SPLASH_HTML_TITLE@);
    lemma_text_occurs(pieces, values, 41, SPLASH_HTML_PROGRESS@);
    lemma_text_occurs(pieces, values, 59, SPLASH_TO_DRAG_FLAG_OPEN@);
    lemma_text_occurs(pieces, values, 66, SPLASH_TO_NO_SUBTITLE@);
    lemma_text_occurs(pieces, values, 70, SPLASH_TO_SUBTITLE_PARTS@);
    lemma_text_occurs(pieces, values, 72, SPLASH_TO_NO_DETAIL@);
    lemma_text_occurs(pieces, values, 76, SPLASH_TO_SHOW_TEXTS@);
    lemma_text_occurs(pieces, values, 80, SPLASH_TO_SHOW_INSTALLER@);
    lemma_text_occurs(pieces, values, 84, SPLASH_SCRIPT_UPDATE_END@);
    lemma_text_occurs(pieces, values, 85, SPLASH_TO_ON_MINIMIZE@);
    lemma_text_occurs(pieces, values, 87, SPLASH_TO_ON_CLOSE@);
    lemma_text_occurs(pieces, values, 89, SPLASH_TO_ON_LOG_BUTTON@);
    lemma_text_occurs(pieces, values, 91, SPLASH_TO_LOG_COMMAND@);
    lemma_text_occurs(pieces, values, 95, SPLASH_TO_PAGE_READY@);
    lemma_text_occurs(pieces, values, 97, SPLASH_SCRIPT_CONTROLS_END@);
}

/// Whatever the texts hold, the splash page is its template with one name after another
/// replaced by what is meant for it, in this order. So a name that a value brings in is
/// replaced only if its turn is still to come.
pub proof fn law_splash_page_is_filled_name_by_name(
    video_bg_b64: &str,
    mi_sans_font_b64: &str,
    platform: Platform,
    version: &str,
    text: &SplashText,
    page: String,
)
    requires
        call_ensures(
            splash_redesigned_shell_html,
            (video_bg_b64, mi_sans_font_b64, platform, version, text),
            page,
        ),
    ensures
        ({
            let template = rendered(splash_pieces(), splash_names());
            let drag = if platform == Platform::Windows {
                "true"@
            } else {
                "false"@
            };
            let page0 = replaced(template, "$VIDEO_BG"@, video_bg_b64@);
            let page1 = replaced(page0, "$MI_SANS_FONT"@, mi_sans_font_b64@);
            let page2 = replaced(page1, "$LAUNCHER_VERSION"@, version@);
            let page3 = replaced(page2, "$I18N_JSON"@, json_object(splash_members(*text)));
            let page4 = replaced(page3, "$NATIVE_TOUCH_DRAG"@, drag);
            let page5 = replaced(page4, "$I18N_INITIALIZING"@, html_escaped(text.initializing@));
            let page6 = replaced(page5, "$I18N_MINIMIZE"@, html_escaped(text.minimize@));
            let page7 = replaced(page6, "$I18N_CLOSE"@, html_escaped(text.close@));
            let page8 = replaced(page7, "$I18N_STARTING"@, html_escaped(text.starting@));
            let page9 = replaced(page8, "$I18N_WEBUI_INIT"@, html_escaped(text.webui_init@));
            let page10 = replaced(page9, "$I18N_DEFAULT_TIP"@, html_escaped(text.default_tip@));
            let page11 = replaced(page10, "$I18N_PROGRESS_META"@, html_escaped(text.progress_meta_ready@));
            let page12 = replaced(page11, "$I18N_DOWNLOAD_LOG"@, html_escaped(text.download_log@));
            page@ == page12
        }),
{
    reveal_with_fuel(filled_in_turn, 14);
    let names = splash_names();
    let values = splash_values(video_bg_b64@, mi_sans_font_b64@, platform, version@, *text);
    assert(names.len() == 13 && values.len() == 13);
    assert(names[0] == "$VIDEO_BG"@);
    assert(names[1] == "$MI_SANS_FONT"@);
    assert(names[2] == "$LAUNCHER_VERSION"@);
    assert(names[3] == "$I18N_JSON"@);
    assert(names[4] == "$NATIVE_TOUCH_DRAG"@);
    assert(names[5] == "$I18N_INITIALIZING"@);
    assert(names[6] == "$I18N_MINIMIZE"@);
    assert(names[7] == "$I18N_CLOSE"@);
    assert(names[8] == "$I18N_STARTING"@);
    assert(names[9] == "$I18N_WEBUI_INIT"@);
    assert(names[10] == "$I18N_DEFAULT_TIP"@);
    assert(names[11] == "$I18N_PROGRESS_META"@);
    assert(names[12] == "$I18N_DOWNLOAD_LOG"@);
}

} // verus!
