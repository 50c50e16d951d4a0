//! Error taxonomy shared by the release index, the installation scanner and
//! the download pipeline.

use vstd::prelude::*;

verus! {

/// The failure kinds that core operations surface.
#[derive(Clone, Copy, Debug, PartialEq, Eq, Structural, Hash)]
pub enum PipelineError {
    /// Feed or asset fetch failure; retryable by the caller.
    Network,
    /// Unexpected feed payload shape; not retryable without a schema fix.
    Parse,
    /// A release has no matching archive or checksum asset; not retryable.
    AssetNotFound,
    /// Digest mismatch; retryable, a re-download may succeed.
    Verification,
    /// Unsupported or corrupted archive; retryable only via re-download.
    Extraction,
    /// Permission or path failure; not retryable without caller intervention.
    Filesystem,
}

impl PipelineError {
    /// The human-readable name of the error kind.
    pub open spec fn spec_label(self) -> Seq<char> {
        match self {
            PipelineError::Network => "network error"@,
            PipelineError::Parse => "parse error"@,
            PipelineError::AssetNotFound => "asset not found"@,
            PipelineError::Verification => "verification error"@,
            PipelineError::Extraction => "extraction error"@,
            PipelineError::Filesystem => "filesystem error"@,
        }
    }

    /// The human-readable name of the error kind.
    pub fn label(&self) -> (r: String)
        ensures
            r@ == self.spec_label(),
    {
        match *self {
            PipelineError::Network => "network error".to_owned(),
            PipelineError::Parse => "parse error".to_owned(),
            PipelineError::AssetNotFound => "asset not found".to_owned(),
            PipelineError::Verification => "verification error".to_owned(),
            PipelineError::Extraction => "extraction error".to_owned(),
            PipelineError::Filesystem => "filesystem error".to_owned(),
        }
    }
}

} // verus!
