//! Release resolution, verification, and install pipeline for Wine/Proton
//! compatibility-tool builds, together with the launcher catalogs and the
//! installation scanner that feed it.

pub mod apps;
pub mod variants;
pub mod errors;
pub mod digest;
pub mod github;
pub mod gui;
pub mod menu;
pub mod pipeline;
pub mod progress;
pub mod scanner;
pub mod utility;
pub mod util;

pub use apps::{App, AppInstallations};
pub use variants::{Variant, VariantGithubParameters};
