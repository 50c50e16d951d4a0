use libprotonup::apps::AppInstallations;
use libprotonup::github::Release;
use libprotonup::gui::{title, update, GuiAction, GuiState, Message};
use libprotonup::utility::{AppInstallWrapper, ReleaseWrapper};

fn release(tag: &str) -> Release {
    Release {
        tag_name: tag.to_string(),
        version: tag.to_string(),
        download_url: format!("https://example.invalid/{tag}.tar.gz"),
        checksum_url: format!("https://example.invalid/{tag}.sha512sum"),
        size_bytes: 9,
    }
}

fn wrapper(tag: &str) -> ReleaseWrapper {
    ReleaseWrapper::from(release(tag))
}

fn data() -> Vec<(AppInstallWrapper, Vec<ReleaseWrapper>)> {
    vec![
        (
            AppInstallWrapper::from(AppInstallations::Steam),
            vec![wrapper("v2"), wrapper("v1")],
        ),
        (
            AppInstallWrapper::from(AppInstallations::Lutris),
            vec![wrapper("w1")],
        ),
    ]
}

#[test]
fn window_title() {
    assert_eq!(title(), "Protonup-rs");
}

#[test]
fn initial_state_selects_steam() {
    let s = GuiState::new();
    assert_eq!(s.selected_launcher.app_install, AppInstallations::Steam);
    assert!(s.launchers.is_empty());
    assert!(s.release_data.is_none());
}

#[test]
fn quick_update_before_data_is_idle() {
    let mut s = GuiState::new();
    assert!(matches!(update(&mut s, Message::QuickUpdate), GuiAction::Idle));
}

#[test]
fn add_releases_then_quick_update_requests_download() {
    let mut s = GuiState::new();
    assert!(matches!(
        update(&mut s, Message::AddReleases(Ok(data()))),
        GuiAction::Idle
    ));
    assert!(s.release_data.is_some());
    match update(&mut s, Message::QuickUpdate) {
        GuiAction::RequestDownload(info) => {
            assert_eq!(info.selected_app.app_install, AppInstallations::Steam);
            assert_eq!(info.requested_downloads.len(), 1);
            assert_eq!(info.requested_downloads[0].1.tag_name, "v2");
        }
        GuiAction::Idle => panic!("expected a download request"),
    }
}

#[test]
fn failed_gathering_changes_nothing() {
    let mut s = GuiState::new();
    update(&mut s, Message::AddReleases(Ok(data())));
    update(&mut s, Message::AddReleases(Err(())));
    assert!(s.release_data.is_some());
}

#[test]
fn launcher_selection_switches_quick_update_target() {
    let mut s = GuiState::new();
    update(&mut s, Message::AddReleases(Ok(data())));
    let lutris = AppInstallWrapper::from(AppInstallations::Lutris);
    update(&mut s, Message::LauncherSelected(lutris));
    assert_eq!(s.selected_launcher, lutris);
    match update(&mut s, Message::QuickUpdate) {
        GuiAction::RequestDownload(info) => {
            assert_eq!(info.requested_downloads[0].1.tag_name, "w1");
        }
        GuiAction::Idle => panic!("expected a download request"),
    }
}

#[test]
fn select_version_toggles_the_tracked_flag() {
    let mut s = GuiState::new();
    update(&mut s, Message::AddReleases(Ok(data())));
    let steam = AppInstallWrapper::from(AppInstallations::Steam);
    update(&mut s, Message::SelectVersion(steam, wrapper("v1"), true));
    let kept = s.release_data.as_ref().unwrap();
    assert!(!kept[0].1[0].selected);
    assert!(kept[0].1[1].selected);
    assert!(!kept[1].1[0].selected);
}
