//! The interactive front-end's decision table: which variant, target
//! installation and follow-up selectors each menu choice stands for, and
//! which quick downloads a set of command-line flags requests. Rendering
//! the menu and prompting are the front-end's; the mapping is decided
//! here.

use vstd::prelude::*;
use vstd::string::StringExecFns;
use crate::apps::AppInstallations;
use crate::variants::Variant;

verus! {

/// The question the front-end asks before overwriting an installed
/// version.
pub fn overwrite_prompt(version: &str) -> (r: String)
    ensures
        r@ == "Version "@ + version@ + " exists in installation path. Overwrite?"@,
{
    "Version ".to_owned().concat(version).concat(" exists in installation path. Overwrite?")
}

/// The actions the interactive menu offers.
#[derive(Clone, Copy, Debug, PartialEq, Eq, Structural)]
pub enum Menu {
    QuickUpdate,
    QuickUpdateFlatpak,
    QuickUpdateLutris,
    QuickUpdateLutrisFlatpak,
    ChoseReleases,
    ChoseReleasesFlatpak,
    ChoseReleasesCustomDir,
    ChoseReleasesLutris,
    ChoseReleasesLutrisFlatpak,
}

/// All menu choices, in menu order.
pub open spec fn spec_menu_variants() -> Seq<Menu> {
    seq![
        Menu::QuickUpdate,
        Menu::QuickUpdateFlatpak,
        Menu::QuickUpdateLutris,
        Menu::QuickUpdateLutrisFlatpak,
        Menu::ChoseReleases,
        Menu::ChoseReleasesFlatpak,
        Menu::ChoseReleasesCustomDir,
        Menu::ChoseReleasesLutris,
        Menu::ChoseReleasesLutrisFlatpak,
    ]
}

/// All menu choices, in menu order.
pub fn menu_variants() -> (r: Vec<Menu>)
    ensures
        r@ == spec_menu_variants(),
{
    let mut r: Vec<Menu> = Vec::new();
    r.push(Menu::QuickUpdate);
    r.push(Menu::QuickUpdateFlatpak);
    r.push(Menu::QuickUpdateLutris);
    r.push(Menu::QuickUpdateLutrisFlatpak);
    r.push(Menu::ChoseReleases);
    r.push(Menu::ChoseReleasesFlatpak);
    r.push(Menu::ChoseReleasesCustomDir);
    r.push(Menu::ChoseReleasesLutris);
    r.push(Menu::ChoseReleasesLutrisFlatpak);
    proof {
        assert(r@ =~= spec_menu_variants());
    }
    r
}

impl Menu {
    /// The text the menu shows for this choice.
    pub open spec fn spec_label(self) -> Seq<char> {
        match self {
            Menu::QuickUpdate => "Quick Update Steam (download latest GE Proton)"@,
            Menu::QuickUpdateFlatpak => (
                "Quick Update (download latest GE Proton) for Flatpak Steam"@
            ),
            Menu::QuickUpdateLutris => "Quick Update Lutris (download latest Wine GE)"@,
            Menu::QuickUpdateLutrisFlatpak => (
                "Quick Update Lutris Flatpak (download latest Wine GE)"@
            ),
            Menu::ChoseReleases => "Choose GE Proton releases from list"@,
            Menu::ChoseReleasesFlatpak => (
                "Choose GE Proton releases from list for Flatpak Steam"@
            ),
            Menu::ChoseReleasesCustomDir => (
                "Choose GE Proton releases and install to custom directory"@
            ),
            Menu::ChoseReleasesLutris => "Choose Wine GE releases for Lutris"@,
            Menu::ChoseReleasesLutrisFlatpak => "Choose Wine GE releases for Flatpak Lutris"@,
        }
    }

    /// The text the menu shows for this choice.
    pub fn label(&self) -> (r: String)
        ensures
            r@ == self.spec_label(),
    {
        match *self {
            Menu::QuickUpdate => "Quick Update Steam (download latest GE Proton)".to_owned(),
            Menu::QuickUpdateFlatpak => {
                "Quick Update (download latest GE Proton) for Flatpak Steam".to_owned()
            }
            Menu::QuickUpdateLutris => {
                "Quick Update Lutris (download latest Wine GE)".to_owned()
            }
            Menu::QuickUpdateLutrisFlatpak => {
                "Quick Update Lutris Flatpak (download latest Wine GE)".to_owned()
            }
            Menu::ChoseReleases => "Choose GE Proton releases from list".to_owned(),
            Menu::ChoseReleasesFlatpak => {
                "Choose GE Proton releases from list for Flatpak Steam".to_owned()
            }
            Menu::ChoseReleasesCustomDir => {
                "Choose GE Proton releases and install to custom directory".to_owned()
            }
            Menu::ChoseReleasesLutris => "Choose Wine GE releases for Lutris".to_owned(),
            Menu::ChoseReleasesLutrisFlatpak => {
                "Choose Wine GE releases for Flatpak Lutris".to_owned()
            }
        }
    }

    /// The variant whose feed this choice downloads from.
    pub open spec fn spec_variant(self) -> Variant {
        match self {
            Menu::QuickUpdateLutris | Menu::QuickUpdateLutrisFlatpak | Menu::ChoseReleasesLutris
                | Menu::ChoseReleasesLutrisFlatpak => Variant::WineGE,
            _ => Variant::GEProton,
        }
    }

    /// The variant whose feed this choice downloads from.
    pub fn variant(&self) -> (v: Variant)
        ensures
            v == self.spec_variant(),
    {
        match *self {
            Menu::QuickUpdateLutris | Menu::QuickUpdateLutrisFlatpak
                | Menu::ChoseReleasesLutris | Menu::ChoseReleasesLutrisFlatpak => Variant::WineGE,
            _ => Variant::GEProton,
        }
    }

    /// The installation this choice targets; `None` when the user picks a
    /// custom directory instead.
    pub open spec fn spec_target_installation(self) -> Option<AppInstallations> {
        match self {
            Menu::QuickUpdate | Menu::ChoseReleases => Some(AppInstallations::Steam),
            Menu::QuickUpdateFlatpak | Menu::ChoseReleasesFlatpak => Some(
                AppInstallations::SteamFlatpak,
            ),
            Menu::QuickUpdateLutris | Menu::ChoseReleasesLutris => Some(AppInstallations::Lutris),
            Menu::QuickUpdateLutrisFlatpak | Menu::ChoseReleasesLutrisFlatpak => Some(
                AppInstallations::LutrisFlatpak,
            ),
            Menu::ChoseReleasesCustomDir => None,
        }
    }

    /// The installation this choice targets; `None` when the user picks a
    /// custom directory instead.
    pub fn target_installation(&self) -> (r: Option<AppInstallations>)
        ensures
            r == self.spec_target_installation(),
    {
        match *self {
            Menu::QuickUpdate | Menu::ChoseReleases => Some(AppInstallations::Steam),
            Menu::QuickUpdateFlatpak | Menu::ChoseReleasesFlatpak => Some(
                AppInstallations::SteamFlatpak,
            ),
            Menu::QuickUpdateLutris | Menu::ChoseReleasesLutris => Some(AppInstallations::Lutris),
            Menu::QuickUpdateLutrisFlatpak | Menu::ChoseReleasesLutrisFlatpak => Some(
                AppInstallations::LutrisFlatpak,
            ),
            Menu::ChoseReleasesCustomDir => None,
        }
    }

    /// Whether the choice opens the release-tag selector; the quick
    /// updates go straight to the symbolic tag "latest".
    pub open spec fn spec_opens_tag_selector(self) -> bool {
        match self {
            Menu::ChoseReleases | Menu::ChoseReleasesFlatpak | Menu::ChoseReleasesCustomDir
                | Menu::ChoseReleasesLutris | Menu::ChoseReleasesLutrisFlatpak => true,
            _ => false,
        }
    }

    /// Whether the choice opens the release-tag selector.
    pub fn opens_tag_selector(&self) -> (r: bool)
        ensures
            r == self.spec_opens_tag_selector(),
    {
        match *self {
            Menu::ChoseReleases | Menu::ChoseReleasesFlatpak | Menu::ChoseReleasesCustomDir
                | Menu::ChoseReleasesLutris | Menu::ChoseReleasesLutrisFlatpak => true,
            _ => false,
        }
    }

    /// Whether the choice asks for a custom installation directory.
    pub open spec fn spec_opens_dir_selector(self) -> bool {
        self is ChoseReleasesCustomDir
    }

    /// Whether the choice asks for a custom installation directory.
    pub fn opens_dir_selector(&self) -> (r: bool)
        ensures
            r == self.spec_opens_dir_selector(),
    {
        matches!(*self, Menu::ChoseReleasesCustomDir)
    }
}

/// The installations the quick-download command-line flags request, in
/// flag order: Steam, Steam Flatpak, Lutris, Lutris Flatpak.
pub open spec fn spec_quick_download_targets(
    steam: bool,
    steam_flatpak: bool,
    lutris: bool,
    lutris_flatpak: bool,
) -> Seq<AppInstallations> {
    let a = if steam {
        seq![AppInstallations::Steam]
    } else {
        Seq::empty()
    };
    let b = if steam_flatpak {
        seq![AppInstallations::SteamFlatpak]
    } else {
        Seq::empty()
    };
    let c = if lutris {
        seq![AppInstallations::Lutris]
    } else {
        Seq::empty()
    };
    let d = if lutris_flatpak {
        seq![AppInstallations::LutrisFlatpak]
    } else {
        Seq::empty()
    };
    a + b + c + d
}

/// The installations the quick-download command-line flags request, in
/// flag order. An empty result means no quick download was asked for and
/// the menu should open instead.
pub fn quick_download_targets(
    steam: bool,
    steam_flatpak: bool,
    lutris: bool,
    lutris_flatpak: bool,
) -> (r: Vec<AppInstallations>)
    ensures
        r@ == spec_quick_download_targets(steam, steam_flatpak, lutris, lutris_flatpak),
        r@.len() == 0 <==> !steam && !steam_flatpak && !lutris && !lutris_flatpak,
{
    let mut r: Vec<AppInstallations> = Vec::new();
    if steam {
        r.push(AppInstallations::Steam);
    }
    if steam_flatpak {
        r.push(AppInstallations::SteamFlatpak);
    }
    if lutris {
        r.push(AppInstallations::Lutris);
    }
    if lutris_flatpak {
        r.push(AppInstallations::LutrisFlatpak);
    }
    proof {
        assert(r@ =~= spec_quick_download_targets(steam, steam_flatpak, lutris, lutris_flatpak));
    }
    r
}

} // verus!
