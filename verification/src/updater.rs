//! Which release the self-updater installs.
use vstd::prelude::*;

verus! {

/// The owner of the repository whose releases are installed.
pub const GITHUB_OWNER: &'static str = "SoulTechEnterprise";

/// The repository whose releases are installed.
pub const GITHUB_REPO: &'static str = "fast-marketplace-app";

/// The operating system the program was built for.
#[derive(Clone, Copy, Debug, PartialEq, Eq, Structural)]
pub enum Platform {
    Windows,
    MacOs,
    Linux,
}

/// The name of the release binary for each platform (Linux stands for every
/// other system).
pub open spec fn release_binary(p: Platform) -> Seq<char> {
    match p {
        Platform::Windows => "automatize-marketplace-windows.exe"@,
        Platform::MacOs => "automatize-marketplace-macos"@,
        Platform::Linux => "automatize-marketplace-linux"@,
    }
}

pub fn release_binary_name(p: Platform) -> (r: &'static str)
    ensures
        r@ == release_binary(p),
{
    match p {
        Platform::Windows => "automatize-marketplace-windows.exe",
        Platform::MacOs => "automatize-marketplace-macos",
        Platform::Linux => "automatize-marketplace-linux",
    }
}

/// How an attempt to install the newest release ended.
#[derive(Clone, Copy, Debug, PartialEq, Eq, Structural)]
pub enum UpdateOutcome {
    /// The updater could not be set up.
    ConfigurationFailed,
    /// A newer release was installed.
    Updated,
    /// The running release is the newest.
    UpToDate,
    /// The release server could not be reached.
    NoConnection,
    /// The update failed for another reason.
    Failed,
}

/// Whether the program restarts into the installed release: only after an
/// update was installed; in every other case it keeps running.
pub fn restart_after_update(outcome: UpdateOutcome) -> (r: bool)
    ensures
        r <==> outcome is Updated,
{
    match outcome {
        UpdateOutcome::Updated => true,
        _ => false,
    }
}

} // verus!
