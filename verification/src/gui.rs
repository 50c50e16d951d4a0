//! The graphical front-end's state and message handling: what the window
//! tracks, and how each message changes it. Rendering and the event loop
//! are the front-end's; every state transition is decided and verified
//! here.

use vstd::prelude::*;
use crate::apps::AppInstallations;
use crate::util::first_where;
use crate::utility::{
    app_entry_pred, quick_update, set_release_selected, spec_toggle_applied, AppInstallWrapper,
    DownloadInfo, ReleaseWrapper,
};

verus! {

/// The state a graphical front-end tracks: the launcher whose releases
/// are shown, the launchers found on the machine, and the per-launcher
/// release data once it has been gathered.
pub struct GuiState {
    pub selected_launcher: AppInstallWrapper,
    pub launchers: Vec<AppInstallWrapper>,
    pub release_data: Option<Vec<(AppInstallWrapper, Vec<ReleaseWrapper>)>>,
}

/// The messages the front-end's event loop hands to [`update`].
pub enum Message {
    /// Download the most recent release for the selected launcher.
    QuickUpdate,
    /// The user picked another launcher from the list.
    LauncherSelected(AppInstallWrapper),
    /// The background gathering of release data finished.
    AddReleases(Result<Vec<(AppInstallWrapper, Vec<ReleaseWrapper>)>, ()>),
    /// The user toggled a release's download checkbox.
    SelectVersion(AppInstallWrapper, ReleaseWrapper, bool),
}

/// What [`update`] asks the surrounding runtime to do.
pub enum GuiAction {
    Idle,
    /// Hand this request to the download handler.
    RequestDownload(DownloadInfo),
}

/// The window title.
pub fn title() -> (r: String)
    ensures
        r@ == "Protonup-rs"@,
{
    "Protonup-rs".to_owned()
}

impl GuiState {
    /// The initial state: Steam selected, no launchers listed yet, no
    /// release data until the background gathering reports in.
    pub fn new() -> (r: GuiState)
        ensures
            r.selected_launcher == (AppInstallWrapper { app_install: AppInstallations::Steam }),
            r.launchers@.len() == 0,
            r.release_data is None,
    {
        GuiState {
            selected_launcher: AppInstallWrapper { app_install: AppInstallations::Steam },
            launchers: Vec::new(),
            release_data: None,
        }
    }
}

/// What a quick-update request leaves behind: the state unchanged, and
/// a download request for the selected launcher's most recent tracked
/// release exactly when the data is ready and non-empty.
pub open spec fn spec_quick_update_post(old_s: GuiState, new_s: GuiState, r: GuiAction) -> bool {
    &&& new_s.selected_launcher == old_s.selected_launcher
    &&& new_s.launchers@ == old_s.launchers@
    &&& new_s.release_data == old_s.release_data
    &&& match old_s.release_data {
        Some(data) => {
            let found = first_where(data@, app_entry_pred(old_s.selected_launcher));
            match r {
                GuiAction::RequestDownload(info) => found is Some && found->Some_0.1@.len() > 0
                    && info.selected_app == old_s.selected_launcher
                    && info.requested_downloads@.len() == 1 && info.requested_downloads@[0].1
                    == found->Some_0.1@[0].release,
                GuiAction::Idle => found is None || found->Some_0.1@.len() == 0,
            }
        },
        None => r is Idle,
    }
}

/// What picking a launcher leaves behind: only the selection changes.
pub open spec fn spec_launcher_selected_post(
    old_s: GuiState,
    new_s: GuiState,
    app: AppInstallWrapper,
    r: GuiAction,
) -> bool {
    &&& new_s.selected_launcher == app
    &&& new_s.launchers@ == old_s.launchers@
    &&& new_s.release_data == old_s.release_data
    &&& r is Idle
}

/// What the arrival of release data leaves behind: the data is stored on
/// success; a failed gathering changes nothing.
pub open spec fn spec_add_releases_post(
    old_s: GuiState,
    new_s: GuiState,
    outcome: Result<Vec<(AppInstallWrapper, Vec<ReleaseWrapper>)>, ()>,
    r: GuiAction,
) -> bool {
    &&& new_s.selected_launcher == old_s.selected_launcher
    &&& new_s.launchers@ == old_s.launchers@
    &&& match outcome {
        Ok(releases) => new_s.release_data == Some(releases),
        Err(_) => new_s.release_data == old_s.release_data,
    }
    &&& r is Idle
}

/// What a selection toggle leaves behind in the tracked release data: in
/// the first entry of the toggled app, the first release equal to the
/// toggled one gets the flag; everything else is unchanged.
pub open spec fn spec_select_version_post(
    old_s: GuiState,
    new_s: GuiState,
    app: AppInstallWrapper,
    release: ReleaseWrapper,
    flag: bool,
    r: GuiAction,
) -> bool {
    &&& new_s.selected_launcher == old_s.selected_launcher
    &&& new_s.launchers@ == old_s.launchers@
    &&& r is Idle
    &&& match old_s.release_data {
        None => new_s.release_data is None,
        Some(data) => new_s.release_data is Some && spec_toggle_applied(
            data@,
            new_s.release_data->Some_0@,
            app,
            release.release,
            flag,
        ),
    }
}

/// Applies one message to the state and returns the action the runtime
/// should perform: selection messages rewrite the tracked state, the
/// quick update asks for a download of the selected launcher's most
/// recent release, and a failed data gathering changes nothing.
pub fn update(state: &mut GuiState, message: Message) -> (r: GuiAction)
    ensures
        message is QuickUpdate ==> spec_quick_update_post(*old(state), *final(state), r),
        message matches Message::LauncherSelected(app) ==> spec_launcher_selected_post(
            *old(state),
            *final(state),
            app,
            r,
        ),
        message matches Message::AddReleases(outcome) ==> spec_add_releases_post(
            *old(state),
            *final(state),
            outcome,
            r,
        ),
        message matches Message::SelectVersion(app, release, flag) ==> spec_select_version_post(
            *old(state),
            *final(state),
            app,
            release,
            flag,
            r,
        ),
{
    match message {
        Message::QuickUpdate => {
            match quick_update(&state.selected_launcher, &state.release_data) {
                Some(info) => GuiAction::RequestDownload(info),
                None => GuiAction::Idle,
            }
        }
        Message::LauncherSelected(app) => {
            state.selected_launcher = app;
            GuiAction::Idle
        }
        Message::AddReleases(outcome) => {
            match outcome {
                Ok(releases) => {
                    state.release_data = Some(releases);
                }
                Err(_) => {}
            }
            GuiAction::Idle
        }
        Message::SelectVersion(app, release, flag) => {
            let data = state.release_data.take();
            match data {
                Some(mut d) => {
                    set_release_selected(&mut d, &app, &release, flag);
                    state.release_data = Some(d);
                }
                None => {}
            }
            GuiAction::Idle
        }
    }
}

} // verus!
