//! What the splash page is told while the launcher starts.
use crate::startup::StartupStatus;
use vstd::prelude::*;

verus! {

/// The progress of the package installer, shown below the main progress.
#[derive(Debug)]
pub struct UvProgress {
    pub progress: u8,
    pub detail: String,
}

/// An update of the splash page.
#[derive(Debug)]
pub struct SplashUpdate {
    pub title: String,
    pub detail: String,
    pub subtitle: Option<String>,
    /// The progress, in percent.
    pub progress: u8,
    pub is_error: bool,
    pub uv_progress: Option<UvProgress>,
}

impl SplashUpdate {
    /// An update without subtitle, of a startup that goes on.
    pub fn loading(title: String, detail: String, progress: u8) -> (update: SplashUpdate)
        ensures
            update == (SplashUpdate {
                title,
                detail,
                subtitle: None,
                progress,
                is_error: false,
                uv_progress: None,
            }),
    {
        SplashUpdate { title, detail, subtitle: None, progress, is_error: false, uv_progress: None }
    }

    /// An update without subtitle, of a startup that failed.
    pub fn error(title: String, detail: String, progress: u8) -> (update: SplashUpdate)
        ensures
            update == (SplashUpdate {
                title,
                detail,
                subtitle: None,
                progress,
                is_error: true,
                uv_progress: None,
            }),
    {
        SplashUpdate { title, detail, subtitle: None, progress, is_error: true, uv_progress: None }
    }

    /// The update with a subtitle.
    pub fn with_subtitle(self, subtitle: String) -> (update: SplashUpdate)
        ensures
            update == (SplashUpdate { subtitle: Some(subtitle), ..self }),
    {
        SplashUpdate {
            title: self.title,
            detail: self.detail,
            subtitle: Some(subtitle),
            progress: self.progress,
            is_error: self.is_error,
            uv_progress: self.uv_progress,
        }
    }

    /// The update at another progress.
    pub fn at_progress(self, progress: u8) -> (update: SplashUpdate)
        ensures
            update == (SplashUpdate { progress, ..self }),
    {
        SplashUpdate {
            title: self.title,
            detail: self.detail,
            subtitle: self.subtitle,
            progress,
            is_error: self.is_error,
            uv_progress: self.uv_progress,
        }
    }
}

/// The texts of the startup.
#[derive(Debug)]
pub struct StartupText {
    pub starting: String,
    pub webui_init: String,
    pub initializing: String,
    pub startup_failed: String,
    pub preview_crash_detail: String,
    pub preview_crash_mode: String,
    pub webui_init_slow: String,
    pub starting_backend: String,
    pub opening: String,
    pub ready: String,
    pub startup_complete: String,
}

/// The title of a status.
pub open spec fn status_title(status: StartupStatus, text: StartupText) -> Seq<char> {
    if status.spec_is_error() {
        text.startup_failed@
    } else if status == StartupStatus::Opening {
        text.opening@
    } else {
        text.starting@
    }
}

/// The detail of a status; `failure` tells what went wrong.
pub open spec fn status_detail(
    status: StartupStatus,
    text: StartupText,
    failure: Seq<char>,
) -> Seq<char> {
    match status {
        StartupStatus::Starting => text.webui_init@,
        StartupStatus::PreviewCrash => text.preview_crash_detail@,
        StartupStatus::RepoFailed => failure,
        StartupStatus::StartingBackend => text.webui_init_slow@,
        StartupStatus::BackendFailed => failure,
        StartupStatus::Opening => text.ready@,
    }
}

/// The subtitle of a status: a short note and a tip. Failures have none.
pub open spec fn status_subtitle(
    status: StartupStatus,
    text: StartupText,
    tip: Seq<char>,
) -> Option<Seq<char>> {
    match status {
        StartupStatus::Starting => Some(text.initializing@ + " | Tips:"@ + tip),
        StartupStatus::PreviewCrash => Some(text.preview_crash_mode@ + " | Tips："@ + tip),
        StartupStatus::StartingBackend => Some(text.starting_backend@ + " | Tips:"@ + tip),
        StartupStatus::Opening => Some(text.startup_complete@ + " | Tips:"@ + tip),
        StartupStatus::RepoFailed => None,
        StartupStatus::BackendFailed => None,
    }
}

/// A note and a tip, with what stands between them.
fn note_and_tip(note: &str, between: &str, tip: &str) -> (subtitle: String)
    ensures
        subtitle@ == note@ + between@ + tip@,
{
    let mut subtitle = note.to_owned();
    subtitle.append(between);
    subtitle.append(tip);
    subtitle
}

/// The update that tells the splash page of a status.
pub fn status_update(
    status: StartupStatus,
    progress: u8,
    text: &StartupText,
    tip: &str,
    failure: &str,
) -> (update: SplashUpdate)
    ensures
        update.title@ == status_title(status, *text),
        update.detail@ == status_detail(status, *text, failure@),
        update.subtitle is Some <==> status_subtitle(status, *text, tip@) is Some,
        update.subtitle matches Some(subtitle) ==> status_subtitle(status, *text, tip@) == Some(
            subtitle@,
        ),
        update.progress == progress,
        update.is_error == status.spec_is_error(),
        update.uv_progress is None,
{
    match status {
        StartupStatus::Starting => {
            let subtitle = note_and_tip(text.initializing.as_str(), " | Tips:", tip);
            SplashUpdate::loading(
                text.starting.clone(),
                text.webui_init.clone(),
                progress,
            ).with_subtitle(subtitle)
        },
        StartupStatus::PreviewCrash => {
            let subtitle = note_and_tip(text.preview_crash_mode.as_str(), " | Tips：", tip);
            SplashUpdate::error(
                text.startup_failed.clone(),
                text.preview_crash_detail.clone(),
                progress,
            ).with_subtitle(subtitle)
        },
        StartupStatus::RepoFailed => SplashUpdate::error(
            text.startup_failed.clone(),
            failure.to_owned(),
            progress,
        ),
        StartupStatus::StartingBackend => {
            let subtitle = note_and_tip(text.starting_backend.as_str(), " | Tips:", tip);
            SplashUpdate::loading(
                text.starting.clone(),
                text.webui_init_slow.clone(),
                progress,
            ).with_subtitle(subtitle)
        },
        StartupStatus::BackendFailed => SplashUpdate::error(
            text.startup_failed.clone(),
            failure.to_owned(),
            progress,
        ),
        StartupStatus::Opening => {
            let subtitle = note_and_tip(text.startup_complete.as_str(), " | Tips:", tip);
            SplashUpdate::loading(
                text.opening.clone(),
                text.ready.clone(),
                progress,
            ).with_subtitle(subtitle)
        },
    }
}

/// A status that is no failure of a step is told with a note and the whole tip behind
/// it; a failed step is told with the whole reason and no tip.
pub proof fn law_status_tells_tip_or_reason(
    status: StartupStatus,
    progress: u8,
    text: &StartupText,
    tip: &str,
    failure: &str,
    update: SplashUpdate,
)
    requires
        call_ensures(status_update, (status, progress, text, tip, failure), update),
    ensures
        ({
            let failed = status == StartupStatus::RepoFailed || status
                == StartupStatus::BackendFailed;
            let note = match status {
                StartupStatus::Starting => text.initializing@,
                StartupStatus::PreviewCrash => text.preview_crash_mode@,
                StartupStatus::StartingBackend => text.starting_backend@,
                _ => text.startup_complete@,
            };
            let between = if status == StartupStatus::PreviewCrash {
                " | Tips："@
            } else {
                " | Tips:"@
            };
            &&& update.subtitle is None <==> failed
            &&& failed ==> update.detail@ == failure@
            &&& !failed ==> note.is_prefix_of(update.subtitle->0@)
            &&& !failed ==> update.subtitle->0@.skip(note.len() as int) == between + tip@
        }),
{
    let between = if status == StartupStatus::PreviewCrash {
        " | Tips："@
    } else {
        " | Tips:"@
    };
    match status {
        StartupStatus::Starting => {
            assert(update.subtitle->0@.skip(text.initializing@.len() as int) =~= between + tip@);
        },
        StartupStatus::PreviewCrash => {
            assert(update.subtitle->0@.skip(text.preview_crash_mode@.len() as int) =~= between
                + tip@);
        },
        StartupStatus::StartingBackend => {
            assert(update.subtitle->0@.skip(text.starting_backend@.len() as int) =~= between
                + tip@);
        },
        StartupStatus::Opening => {
            assert(update.subtitle->0@.skip(text.startup_complete@.len() as int) =~= between
                + tip@);
        },
        _ => {},
    }
}

/// Each status has the headline and the detail that are meant for it, at the progress
/// that was asked for, and is marked as an error exactly if something failed.
pub proof fn law_status_has_its_own_texts(
    status: StartupStatus,
    progress: u8,
    text: &StartupText,
    tip: &str,
    failure: &str,
    update: SplashUpdate,
)
    requires
        call_ensures(status_update, (status, progress, text, tip, failure), update),
    ensures
        update.progress == progress,
        update.uv_progress is None,
        update.is_error <==> (status == StartupStatus::PreviewCrash || status
            == StartupStatus::RepoFailed || status == StartupStatus::BackendFailed),
        update.is_error ==> update.title@ == text.startup_failed@,
        status == StartupStatus::Opening ==> update.title@ == text.opening@ && update.detail@
            == text.ready@,
        status == StartupStatus::Starting ==> update.title@ == text.starting@ && update.detail@
            == text.webui_init@,
        status == StartupStatus::StartingBackend ==> update.title@ == text.starting@
            && update.detail@ == text.webui_init_slow@,
        status == StartupStatus::PreviewCrash ==> update.detail@ == text.preview_crash_detail@,
{
}

/// A subtitle and a progress are put into an update without touching the rest, and an
/// update begins without either a subtitle or the progress of an installer. Only a
/// failure is marked as an error.
pub proof fn law_updates_are_built_piece_by_piece(
    title: String,
    detail: String,
    progress: u8,
    loading: SplashUpdate,
    failed: SplashUpdate,
    subtitle: String,
    with_subtitle: SplashUpdate,
    later: u8,
    moved: SplashUpdate,
)
    requires
        call_ensures(SplashUpdate::loading, (title, detail, progress), loading),
        call_ensures(SplashUpdate::error, (title, detail, progress), failed),
        call_ensures(SplashUpdate::with_subtitle, (loading, subtitle), with_subtitle),
        call_ensures(SplashUpdate::at_progress, (with_subtitle, later), moved),
    ensures
        !loading.is_error && failed.is_error,
        loading.subtitle is None && failed.subtitle is None,
        loading.uv_progress is None && failed.uv_progress is None,
        failed.title == title && failed.detail == detail && failed.progress == progress,
        moved.title == title && moved.detail == detail && moved.subtitle == Some(subtitle),
        with_subtitle.progress == progress && moved.progress == later,
        !moved.is_error && moved.uv_progress is None,
{
}

} // verus!
