//! The failure taxonomy of the scaffolding workflow.
use vstd::prelude::*;

verus! {

/// Which remote configuration document a fetch failure concerns.
#[derive(Debug)]
pub enum RemoteSource {
    /// The TypeScript compiler configuration.
    TsConfig,
    /// The linter/formatter configuration.
    BiomeConfig,
}

/// Every way the workflow can fail.
#[derive(Debug)]
pub enum ScaffoldError {
    /// The requested name is empty after trimming, too long, or holds a
    /// byte other than an ASCII letter, digit, hyphen or underscore.
    InvalidName,
    /// A filesystem entry with the normalized name already exists.
    AlreadyExists,
    /// An expected embedded template asset is missing: the installation is
    /// corrupt. Carries the missing asset's name.
    PackagingError { asset: Vec<u8> },
    /// One of the two remote configuration fetches failed. Carries which
    /// document it was and the transport error text.
    RemoteFetchError { source: RemoteSource, detail: Vec<u8> },
    /// A directory could not be created or a file could not be written.
    /// Carries the path and the operating-system error text.
    FilesystemError { path: Vec<u8>, detail: Vec<u8> },
    /// The package-manager subprocess exited non-zero (`code` is `Some`)
    /// or could not be launched at all (`code` is `None`). Carries the
    /// captured standard-error text.
    InstallError { code: Option<i32>, stderr: Vec<u8> },
}

impl ScaffoldError {
    /// A short, stable label for the failing stage.
    pub fn label(&self) -> (r: &'static str)
        ensures
            r@ == match self {
                ScaffoldError::InvalidName => "invalid project name"@,
                ScaffoldError::AlreadyExists => "destination already exists"@,
                ScaffoldError::PackagingError { .. } => "embedded template asset missing"@,
                ScaffoldError::RemoteFetchError { .. } => "remote configuration fetch failed"@,
                ScaffoldError::FilesystemError { .. } => "filesystem operation failed"@,
                ScaffoldError::InstallError { .. } => "dependency installation failed"@,
            },
    {
        match self {
            ScaffoldError::InvalidName => "invalid project name",
            ScaffoldError::AlreadyExists => "destination already exists",
            ScaffoldError::PackagingError { .. } => "embedded template asset missing",
            ScaffoldError::RemoteFetchError { .. } => "remote configuration fetch failed",
            ScaffoldError::FilesystemError { .. } => "filesystem operation failed",
            ScaffoldError::InstallError { .. } => "dependency installation failed",
        }
    }
}

} // verus!
