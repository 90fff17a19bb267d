use vstd::prelude::*;

verus! {

/// Why a resolution call failed. Every error ends the call.
pub enum ResolveError {
    /// The interpreter that runs the server script could not be located.
    RuntimeNotFound { cause: String },
    /// The release index could not be queried, or had no matching release.
    ReleaseQueryFailed { cause: String },
    /// The release carries no asset with the expected file name.
    AssetNotFound { asset: String, version: String },
    /// Fetching or extracting the archive failed.
    DownloadFailed { cause: String },
    /// The freshly extracted directory could not be listed.
    DirectoryListFailed { cause: String },
    /// The executable is not on the search path.
    CommandNotOnPath { command: String },
}

impl ResolveError {
    /// The text shown to the user.
    pub open spec fn message_spec(&self) -> Seq<char> {
        match self {
            ResolveError::RuntimeNotFound { cause } => cause@,
            ResolveError::ReleaseQueryFailed { cause } => cause@,
            ResolveError::AssetNotFound { asset, version } =>
                "no asset named "@ + asset@ + " found in release "@ + version@,
            ResolveError::DownloadFailed { cause } => "failed to download server: "@ + cause@,
            ResolveError::DirectoryListFailed { cause } =>
                "failed to list downloaded files: "@ + cause@,
            ResolveError::CommandNotOnPath { command } =>
                command@ + " was not found on PATH; install it globally or add its directory to PATH"@,
        }
    }

    /// Describes the error for the user.
    pub fn message(&self) -> (r: String)
        ensures
            r@ == self.message_spec(),
    {
        match self {
            ResolveError::RuntimeNotFound { cause } => cause.clone(),
            ResolveError::ReleaseQueryFailed { cause } => cause.clone(),
            ResolveError::AssetNotFound { asset, version } => {
                let mut r = "no asset named ".to_owned();
                r.append(asset.as_str());
                r.append(" found in release ");
                r.append(version.as_str());
                r
            },
            ResolveError::DownloadFailed { cause } => {
                let mut r = "failed to download server: ".to_owned();
                r.append(cause.as_str());
                r
            },
            ResolveError::DirectoryListFailed { cause } => {
                let mut r = "failed to list downloaded files: ".to_owned();
                r.append(cause.as_str());
                r
            },
            ResolveError::CommandNotOnPath { command } => {
                let mut r = command.clone();
                r.append(" was not found on PATH; install it globally or add its directory to PATH");
                r
            },
        }
    }
}

} // verus!
