use libprotonup::apps::{App, AppInstallations};
use libprotonup::errors::PipelineError;
use libprotonup::scanner::{
    detect_installation, list_installed_apps, list_installed_versions, FsModel,
};
use libprotonup::util::expand_tilde;

fn names(list: &[&str]) -> Vec<String> {
    list.iter().map(|s| s.to_string()).collect()
}

#[test]
fn detection_follows_base_dir_presence() {
    let mut fs = FsModel::new();
    fs.add_dir("~/.steam/steam/".to_string(), true, Vec::new());
    // Present iff the base directory exists in the modelled filesystem,
    // and a missing path never raises an error.
    assert!(detect_installation(&fs, AppInstallations::Steam));
    assert!(!detect_installation(&fs, AppInstallations::SteamFlatpak));
    assert!(!detect_installation(&fs, AppInstallations::Lutris));
    assert!(!detect_installation(&fs, AppInstallations::LutrisFlatpak));
}

#[test]
fn detection_on_empty_filesystem() {
    let fs = FsModel::new();
    assert!(!detect_installation(&fs, AppInstallations::Steam));
    assert!(list_installed_apps(&fs).is_empty());
}

#[test]
fn installed_apps_keep_catalog_order() {
    let mut fs = FsModel::new();
    // Record in scrambled order; the result is in catalog order anyway.
    fs.add_dir("~/.var/app/net.lutris.Lutris/data/lutris/".to_string(), true, Vec::new());
    fs.add_dir("~/.steam/steam/".to_string(), true, Vec::new());
    let apps = list_installed_apps(&fs);
    assert_eq!(
        apps,
        vec![AppInstallations::Steam, AppInstallations::LutrisFlatpak]
    );
}

#[test]
fn detect_installation_method_per_app() {
    let mut fs = FsModel::new();
    fs.add_dir("~/.steam/steam/".to_string(), true, Vec::new());
    fs.add_dir("~/.local/share/lutris/".to_string(), true, Vec::new());
    assert_eq!(
        App::Steam.detect_installation_method(&fs),
        vec![AppInstallations::Steam]
    );
    assert_eq!(
        App::Lutris.detect_installation_method(&fs),
        vec![AppInstallations::Lutris]
    );
}

#[test]
fn installed_versions_listed_in_order() {
    let mut fs = FsModel::new();
    fs.add_dir(
        "~/.steam/steam/compatibilitytools.d/".to_string(),
        true,
        names(&["GE-Proton9-1", "GE-Proton8-25"]),
    );
    let versions = list_installed_versions(&fs, AppInstallations::Steam).unwrap();
    assert_eq!(versions, names(&["GE-Proton9-1", "GE-Proton8-25"]));
}

#[test]
fn missing_install_dir_reads_empty() {
    let fs = FsModel::new();
    let versions = list_installed_versions(&fs, AppInstallations::Lutris).unwrap();
    assert!(versions.is_empty());
}

#[test]
fn unreadable_install_dir_is_filesystem_error() {
    let mut fs = FsModel::new();
    fs.add_dir(
        "~/.steam/steam/compatibilitytools.d/".to_string(),
        false,
        names(&["GE-Proton9-1"]),
    );
    let err = list_installed_versions(&fs, AppInstallations::Steam).unwrap_err();
    assert_eq!(err, PipelineError::Filesystem);
}

#[test]
fn tilde_expansion() {
    assert_eq!(
        expand_tilde("~/.steam/steam/", "/home/someone"),
        "/home/someone/.steam/steam/"
    );
    assert_eq!(expand_tilde("/opt/tools", "/home/someone"), "/opt/tools");
    assert_eq!(expand_tilde("~", "/home/someone"), "~");
    assert_eq!(expand_tilde("~/", "/home/someone"), "/home/someone/");
}
