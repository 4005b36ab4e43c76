//! The provisioning error taxonomy. Every failure is terminal for the
//! current run; rerunning after manual intervention is the retry mechanism.

use vstd::prelude::*;

verus! {

/// A terminal provisioning failure, one variant per failing stage.
#[derive(Debug)]
pub enum SetupError {
    /// The manifest file is missing or not readable as text.
    ManifestUnreadable,
    /// The base interpreter was not found or does not report a version.
    InterpreterMissing,
    /// The environment-creation subcommand exited non-zero.
    EnvironmentCreationFailed { output: String },
    /// Upgrading the environment's package manager exited non-zero.
    PackageManagerUpgradeFailed { output: String },
    /// The environment's interpreter is missing, exited non-zero, or its
    /// version output was unparsable.
    VersionDetectionFailed { output: String },
    /// The computed site-packages directory does not exist on disk.
    SitePackagesMissing { path: String },
    /// The interpreter's module search path could not be extended.
    PathUpdateFailed { detail: String },
    /// The package manager's install-from-manifest run exited non-zero.
    DependencyInstallFailed,
    /// The binary-asset install subcommand exited non-zero.
    AssetInstallFailed,
    /// The asset system-dependencies subcommand exited non-zero.
    AssetDepsInstallFailed,
    /// The critical package failed every import-name tier; the error
    /// carries the interpreter's diagnostic text.
    CriticalDependencyMissing { package: String, detail: String },
    /// A manifest package failed all three import-name tiers; the error
    /// carries every attempted spelling.
    ImportResolutionFailed {
        package: String,
        mapped_name: String,
        literal_name: String,
        underscore_name: String,
    },
}

/// The operator-facing text of an error.
pub open spec fn message_of(e: SetupError) -> Seq<char> {
    match e {
        SetupError::ManifestUnreadable => "manifest file is missing or unreadable"@,
        SetupError::InterpreterMissing => "base interpreter not found or not runnable"@,
        SetupError::EnvironmentCreationFailed { output } => "environment creation failed: "@
            + output@,
        SetupError::PackageManagerUpgradeFailed { output } => "package manager upgrade failed: "@
            + output@,
        SetupError::VersionDetectionFailed { output } => "interpreter version detection failed: "@
            + output@,
        SetupError::SitePackagesMissing { path } => "site-packages directory does not exist: "@
            + path@,
        SetupError::PathUpdateFailed { detail } => "module search path update failed: "@
            + detail@,
        SetupError::DependencyInstallFailed => "dependency installation failed"@,
        SetupError::AssetInstallFailed => "browser asset installation failed"@,
        SetupError::AssetDepsInstallFailed => "browser asset dependency installation failed"@,
        SetupError::CriticalDependencyMissing { package, detail } => "critical package '"@
            + package@ + "' failed to import: "@ + detail@,
        SetupError::ImportResolutionFailed {
            package,
            mapped_name,
            literal_name,
            underscore_name,
        } => "package '"@ + package@ + "' failed to import (tried: "@ + mapped_name@ + ", "@
            + literal_name@ + ", "@ + underscore_name@ + ")"@,
    }
}

impl SetupError {
    /// The operator-facing text of this error.
    pub fn message(&self) -> (r: String)
        ensures
            r@ == message_of(*self),
    {
        match self {
            SetupError::ManifestUnreadable => "manifest file is missing or unreadable".to_owned(),
            SetupError::InterpreterMissing => "base interpreter not found or not runnable"
                .to_owned(),
            SetupError::EnvironmentCreationFailed { output } => "environment creation failed: "
                .to_owned().concat(output.as_str()),
            SetupError::PackageManagerUpgradeFailed { output } => "package manager upgrade failed: "
                .to_owned().concat(output.as_str()),
            SetupError::VersionDetectionFailed { output } =>
                "interpreter version detection failed: ".to_owned().concat(output.as_str()),
            SetupError::SitePackagesMissing { path } => "site-packages directory does not exist: "
                .to_owned().concat(path.as_str()),
            SetupError::PathUpdateFailed { detail } => "module search path update failed: "
                .to_owned().concat(detail.as_str()),
            SetupError::DependencyInstallFailed => "dependency installation failed".to_owned(),
            SetupError::AssetInstallFailed => "browser asset installation failed".to_owned(),
            SetupError::AssetDepsInstallFailed => "browser asset dependency installation failed"
                .to_owned(),
            SetupError::CriticalDependencyMissing { package, detail } => "critical package '"
                .to_owned().concat(package.as_str()).concat("' failed to import: ").concat(
                detail.as_str(),
            ),
            SetupError::ImportResolutionFailed {
                package,
                mapped_name,
                literal_name,
                underscore_name,
            } => "package '".to_owned().concat(package.as_str()).concat(
                "' failed to import (tried: ",
            ).concat(mapped_name.as_str()).concat(", ").concat(literal_name.as_str()).concat(
                ", ",
            ).concat(underscore_name.as_str()).concat(")"),
        }
    }
}

} // verus!
