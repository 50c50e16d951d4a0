//! Installation catalog: the closed set of launcher apps and launcher
//! installations, with their on-disk directory layout.

use vstd::prelude::*;
use crate::util::seq_contains_seq;
use crate::variants::{Variant, VariantGithubParameters};

verus! {

/// A launcher app. Each app maps to exactly one compatibility-tool variant.
#[derive(Clone, Copy, Debug, PartialEq, Eq, Structural, Hash)]
pub enum App {
    Steam,
    Lutris,
}

/// A concrete launcher deployment (native or Flatpak) that hosts installed
/// tool versions.
#[derive(Clone, Copy, Debug, PartialEq, Eq, Structural, Hash)]
pub enum AppInstallations {
    Steam,
    SteamFlatpak,
    Lutris,
    LutrisFlatpak,
}

impl App {
    /// The variant of Wine build used for this app.
    pub open spec fn spec_wine_version(self) -> Variant {
        match self {
            App::Steam => Variant::GEProton,
            App::Lutris => Variant::WineGE,
        }
    }

    /// The installations (native and Flatpak) belonging to this app.
    pub open spec fn spec_installations(self) -> Seq<AppInstallations> {
        match self {
            App::Steam => seq![AppInstallations::Steam, AppInstallations::SteamFlatpak],
            App::Lutris => seq![AppInstallations::Lutris, AppInstallations::LutrisFlatpak],
        }
    }

    /// The human-readable name of the app.
    pub open spec fn spec_label(self) -> Seq<char> {
        match self {
            App::Steam => "Steam"@,
            App::Lutris => "Lutris"@,
        }
    }

    /// Returns the version of Wine used for the app.
    pub fn app_wine_version(&self) -> (v: Variant)
        ensures
            v == self.spec_wine_version(),
    {
        match *self {
            App::Steam => Variant::GEProton,
            App::Lutris => Variant::WineGE,
        }
    }

    /// Returns the variants of [`AppInstallations`] corresponding to the app.
    pub fn app_installations(&self) -> (r: Vec<AppInstallations>)
        ensures
            r@ == self.spec_installations(),
    {
        let mut r: Vec<AppInstallations> = Vec::new();
        match *self {
            App::Steam => {
                r.push(AppInstallations::Steam);
                r.push(AppInstallations::SteamFlatpak);
            }
            App::Lutris => {
                r.push(AppInstallations::Lutris);
                r.push(AppInstallations::LutrisFlatpak);
            }
        }
        proof {
            assert(r@ =~= self.spec_installations());
        }
        r
    }

    /// The human-readable name of the app.
    pub fn label(&self) -> (r: String)
        ensures
            r@ == self.spec_label(),
    {
        match *self {
            App::Steam => "Steam".to_owned(),
            App::Lutris => "Lutris".to_owned(),
        }
    }
}

/// All launcher apps, in catalog order.
pub fn all_apps() -> (r: Vec<App>)
    ensures
        r@ == seq![App::Steam, App::Lutris],
{
    let mut r: Vec<App> = Vec::new();
    r.push(App::Steam);
    r.push(App::Lutris);
    proof {
        assert(r@ =~= seq![App::Steam, App::Lutris]);
    }
    r
}

/// All launcher installations, in catalog order.
pub open spec fn spec_all_installations() -> Seq<AppInstallations> {
    seq![
        AppInstallations::Steam,
        AppInstallations::SteamFlatpak,
        AppInstallations::Lutris,
        AppInstallations::LutrisFlatpak,
    ]
}

/// All launcher installations, in catalog order.
pub fn all_installations() -> (r: Vec<AppInstallations>)
    ensures
        r@ == spec_all_installations(),
{
    let mut r: Vec<AppInstallations> = Vec::new();
    r.push(AppInstallations::Steam);
    r.push(AppInstallations::SteamFlatpak);
    r.push(AppInstallations::Lutris);
    r.push(AppInstallations::LutrisFlatpak);
    proof {
        assert(r@ =~= spec_all_installations());
    }
    r
}

impl AppInstallations {
    /// The directory that tool archives are extracted to, with
    /// home-directory expansion deferred to the caller.
    pub open spec fn spec_default_install_dir(self) -> Seq<char> {
        match self {
            AppInstallations::Steam => "~/.steam/steam/compatibilitytools.d/"@,
            AppInstallations::SteamFlatpak => (
                "~/.var/app/com.valvesoftware.Steam/data/Steam/compatibilitytools.d/"@
            ),
            AppInstallations::Lutris => "~/.local/share/lutris/runners/wine/"@,
            AppInstallations::LutrisFlatpak => (
                "~/.var/app/net.lutris.Lutris/data/lutris/runners/wine/"@
            ),
        }
    }

    /// The launcher's root folder, used only for presence detection.
    pub open spec fn spec_app_base_dir(self) -> Seq<char> {
        match self {
            AppInstallations::Steam => "~/.steam/steam/"@,
            AppInstallations::SteamFlatpak => "~/.var/app/com.valvesoftware.Steam/data/Steam/"@,
            AppInstallations::Lutris => "~/.local/share/lutris/"@,
            AppInstallations::LutrisFlatpak => "~/.var/app/net.lutris.Lutris/data/lutris/"@,
        }
    }

    /// The base app of this installation.
    pub open spec fn spec_as_app(self) -> App {
        match self {
            AppInstallations::Steam | AppInstallations::SteamFlatpak => App::Steam,
            AppInstallations::Lutris | AppInstallations::LutrisFlatpak => App::Lutris,
        }
    }

    /// The human-readable name of the installation.
    pub open spec fn spec_label(self) -> Seq<char> {
        match self {
            AppInstallations::Steam => "Steam \"Native\""@,
            AppInstallations::SteamFlatpak => "Steam Flatpak"@,
            AppInstallations::Lutris => "Lutris \"Native\""@,
            AppInstallations::LutrisFlatpak => "Lutris Flatpak"@,
        }
    }

    /// Default directory that wine is extracted to.
    pub fn default_install_dir(&self) -> (r: &'static str)
        ensures
            r@ == self.spec_default_install_dir(),
    {
        match *self {
            AppInstallations::Steam => "~/.steam/steam/compatibilitytools.d/",
            AppInstallations::SteamFlatpak => {
                "~/.var/app/com.valvesoftware.Steam/data/Steam/compatibilitytools.d/"
            }
            AppInstallations::Lutris => "~/.local/share/lutris/runners/wine/",
            AppInstallations::LutrisFlatpak => {
                "~/.var/app/net.lutris.Lutris/data/lutris/runners/wine/"
            }
        }
    }

    /// The app root folder.
    pub fn app_base_dir(&self) -> (r: &'static str)
        ensures
            r@ == self.spec_app_base_dir(),
    {
        match *self {
            AppInstallations::Steam => "~/.steam/steam/",
            AppInstallations::SteamFlatpak => "~/.var/app/com.valvesoftware.Steam/data/Steam/",
            AppInstallations::Lutris => "~/.local/share/lutris/",
            AppInstallations::LutrisFlatpak => "~/.var/app/net.lutris.Lutris/data/lutris/",
        }
    }

    /// Returns the base app.
    pub fn as_app(&self) -> (a: App)
        ensures
            a == self.spec_as_app(),
    {
        match *self {
            AppInstallations::Steam | AppInstallations::SteamFlatpak => App::Steam,
            AppInstallations::Lutris | AppInstallations::LutrisFlatpak => App::Lutris,
        }
    }

    /// Returns the default feed parameters for the installation:
    /// those of its app's wine variant.
    pub fn get_github_parameters(&self) -> (p: VariantGithubParameters)
        ensures
            p.variant == self.spec_as_app().spec_wine_version(),
            p.repo_owner@ == self.spec_as_app().spec_wine_version().spec_repo_owner(),
            p.repo_name@ == self.spec_as_app().spec_wine_version().spec_repo_name(),
    {
        self.as_app().app_wine_version().get_github_parameters()
    }

    /// Every installation's default install directory is non-empty and
    /// carries its launcher's distinguishing path segment: `steam` or
    /// `lutris`, and `var/app` for the Flatpak variants.
    pub proof fn lemma_install_dirs_distinguished()
        ensures
            forall|i: AppInstallations| (#[trigger] i.spec_default_install_dir()).len() > 0,
            seq_contains_seq(AppInstallations::Steam.spec_default_install_dir(), "steam"@),
            seq_contains_seq(AppInstallations::SteamFlatpak.spec_default_install_dir(), "var/app"@),
            seq_contains_seq(AppInstallations::SteamFlatpak.spec_default_install_dir(), "Steam"@),
            seq_contains_seq(AppInstallations::Lutris.spec_default_install_dir(), "lutris"@),
            seq_contains_seq(
                AppInstallations::LutrisFlatpak.spec_default_install_dir(),
                "var/app"@,
            ),
            seq_contains_seq(AppInstallations::LutrisFlatpak.spec_default_install_dir(), "lutris"@),
    {
        reveal_strlit("~/.steam/steam/compatibilitytools.d/");
        reveal_strlit("~/.var/app/com.valvesoftware.Steam/data/Steam/compatibilitytools.d/");
        reveal_strlit("~/.local/share/lutris/runners/wine/");
        reveal_strlit("~/.var/app/net.lutris.Lutris/data/lutris/runners/wine/");
        reveal_strlit("steam");
        reveal_strlit("lutris");
        reveal_strlit("var/app");
        reveal_strlit("Steam");
        let s = AppInstallations::Steam.spec_default_install_dir();
        let sf = AppInstallations::SteamFlatpak.spec_default_install_dir();
        let l = AppInstallations::Lutris.spec_default_install_dir();
        let lf = AppInstallations::LutrisFlatpak.spec_default_install_dir();
        assert(s.subrange(3, 3 + "steam"@.len() as int) =~= "steam"@);
        assert(sf.subrange(3, 3 + "var/app"@.len() as int) =~= "var/app"@);
        assert(sf.subrange(29, 29 + "Steam"@.len() as int) =~= "Steam"@);
        assert(l.subrange(15, 15 + "lutris"@.len() as int) =~= "lutris"@);
        assert(lf.subrange(3, 3 + "var/app"@.len() as int) =~= "var/app"@);
        assert(lf.subrange(15, 15 + "lutris"@.len() as int) =~= "lutris"@);
    }

    /// The human-readable name of the installation.
    pub fn label(&self) -> (r: String)
        ensures
            r@ == self.spec_label(),
    {
        match *self {
            AppInstallations::Steam => "Steam \"Native\"".to_owned(),
            AppInstallations::SteamFlatpak => "Steam Flatpak".to_owned(),
            AppInstallations::Lutris => "Lutris \"Native\"".to_owned(),
            AppInstallations::LutrisFlatpak => "Lutris Flatpak".to_owned(),
        }
    }
}

} // verus!
