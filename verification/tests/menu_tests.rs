use libprotonup::apps::AppInstallations;
use libprotonup::menu::{menu_variants, overwrite_prompt, quick_download_targets, Menu};
use libprotonup::variants::Variant;

#[test]
fn menu_has_nine_choices_in_order() {
    let all = menu_variants();
    assert_eq!(all.len(), 9);
    assert_eq!(all[0], Menu::QuickUpdate);
    assert_eq!(all[8], Menu::ChoseReleasesLutrisFlatpak);
}

#[test]
fn menu_labels() {
    assert_eq!(
        Menu::QuickUpdate.label(),
        "Quick Update Steam (download latest GE Proton)"
    );
    assert_eq!(
        Menu::ChoseReleasesCustomDir.label(),
        "Choose GE Proton releases and install to custom directory"
    );
    assert_eq!(
        Menu::ChoseReleasesLutrisFlatpak.label(),
        "Choose Wine GE releases for Flatpak Lutris"
    );
}

#[test]
fn menu_choice_parameters() {
    assert_eq!(Menu::QuickUpdate.variant(), Variant::GEProton);
    assert_eq!(Menu::QuickUpdateLutris.variant(), Variant::WineGE);
    assert_eq!(
        Menu::QuickUpdateFlatpak.target_installation(),
        Some(AppInstallations::SteamFlatpak)
    );
    assert_eq!(Menu::ChoseReleasesCustomDir.target_installation(), None);
    assert!(!Menu::QuickUpdate.opens_tag_selector());
    assert!(Menu::ChoseReleasesLutris.opens_tag_selector());
    assert!(Menu::ChoseReleasesCustomDir.opens_dir_selector());
    assert!(!Menu::ChoseReleasesFlatpak.opens_dir_selector());
}

#[test]
fn quick_download_flags_map_in_flag_order() {
    assert!(quick_download_targets(false, false, false, false).is_empty());
    assert_eq!(
        quick_download_targets(true, false, true, false),
        vec![AppInstallations::Steam, AppInstallations::Lutris]
    );
    assert_eq!(
        quick_download_targets(false, true, false, true),
        vec![AppInstallations::SteamFlatpak, AppInstallations::LutrisFlatpak]
    );
    assert_eq!(quick_download_targets(true, true, true, true).len(), 4);
}

#[test]
fn overwrite_prompt_names_the_version() {
    assert_eq!(
        overwrite_prompt("GE-Proton9-1"),
        "Version GE-Proton9-1 exists in installation path. Overwrite?"
    );
}
