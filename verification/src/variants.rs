//! Variant catalog: the compatibility-tool families and the parameters
//! needed to query each family's release feed.

use vstd::prelude::*;
use crate::apps::App;

verus! {

/// A compatibility-tool family with its own release feed.
#[derive(Clone, Copy, Debug, PartialEq, Eq, Structural, Hash)]
pub enum Variant {
    GEProton,
    WineGE,
}

/// Parameters needed to query the release feed of one [`Variant`]:
/// the owning account and the repository name.
pub struct VariantGithubParameters {
    pub variant: Variant,
    pub repo_owner: String,
    pub repo_name: String,
}

impl Variant {
    /// The account that owns the release feed of this variant.
    pub open spec fn spec_repo_owner(self) -> Seq<char> {
        "GloriousEggroll"@
    }

    /// The repository that publishes this variant's releases.
    pub open spec fn spec_repo_name(self) -> Seq<char> {
        match self {
            Variant::GEProton => "proton-ge-custom"@,
            Variant::WineGE => "wine-ge-custom"@,
        }
    }

    /// The human-readable name of the variant.
    pub open spec fn spec_label(self) -> Seq<char> {
        match self {
            Variant::GEProton => "GEProton"@,
            Variant::WineGE => "WineGE"@,
        }
    }

    /// The launcher app this variant is built for.
    pub open spec fn spec_intended_application(self) -> App {
        match self {
            Variant::GEProton => App::Steam,
            Variant::WineGE => App::Lutris,
        }
    }

    /// Returns the feed parameters for this variant.
    pub fn get_github_parameters(&self) -> (p: VariantGithubParameters)
        ensures
            p.variant == *self,
            p.repo_owner@ == self.spec_repo_owner(),
            p.repo_name@ == self.spec_repo_name(),
    {
        match *self {
            Variant::GEProton => VariantGithubParameters {
                variant: Variant::GEProton,
                repo_owner: "GloriousEggroll".to_owned(),
                repo_name: "proton-ge-custom".to_owned(),
            },
            Variant::WineGE => VariantGithubParameters {
                variant: Variant::WineGE,
                repo_owner: "GloriousEggroll".to_owned(),
                repo_name: "wine-ge-custom".to_owned(),
            },
        }
    }

    /// The launcher app this variant is intended for.
    pub fn intended_application(&self) -> (a: App)
        ensures
            a == self.spec_intended_application(),
    {
        match *self {
            Variant::GEProton => App::Steam,
            Variant::WineGE => App::Lutris,
        }
    }

    /// The human-readable name of the variant.
    pub fn label(&self) -> (r: String)
        ensures
            r@ == self.spec_label(),
    {
        match *self {
            Variant::GEProton => "GEProton".to_owned(),
            Variant::WineGE => "WineGE".to_owned(),
        }
    }
}

impl VariantGithubParameters {
    /// The variant these parameters belong to.
    pub fn variant_type(&self) -> (v: Variant)
        ensures
            v == self.variant,
    {
        self.variant
    }
}

} // verus!
