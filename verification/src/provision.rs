//! The provisioning sequence as a state machine: each step consumes the
//! outcome of one outside effect and decides the next action. The caller
//! performs the actions (subprocess runs, directory checks, environment
//! variables, interpreter calls) and feeds the outcomes back; every
//! decision, path and argument list is computed and verified here.

use vstd::prelude::*;
use crate::error::SetupError;
use crate::manifest::{names_view, parse_manifest, parse_requirements};
use crate::paths::{base_interpreter_of, env_cache_of, exec_dir_of, interpreter_of,
    package_manager_of, prepended_path_of, root_cache_of, site_packages_of, source_path_of,
    PythonSetup};
use crate::version::{parse_python_version, version_of};

verus! {

/// One stage of the provisioning sequence, in dependency order: the stage
/// names the action whose outcome the machine is waiting for.
#[derive(Clone, Copy, PartialEq, Eq, Structural, Debug)]
pub enum Stage {
    /// Read the package manifest file.
    ReadManifest,
    /// Does the environment directory already exist?
    CheckEnvDir,
    /// Run the base interpreter's version flag.
    ProbeInterpreter,
    /// Create the isolated environment.
    CreateEnv,
    /// Upgrade the environment's package manager.
    UpgradePip,
    /// Point the asset cache variable at the root's build directory.
    SetRootCacheVar,
    /// Add the source-tree module directory to the interpreter's path.
    AppendSourcePath,
    /// Run the environment interpreter's version flag.
    ProbeVersion,
    /// Does the site-packages directory exist?
    CheckSitePackages,
    /// Read the current search-path variable.
    GetPathVar,
    /// Prepend the executable directory to the search-path variable.
    SetPathVar,
    /// Point the package-search variable at site-packages.
    SetPythonPathVar,
    /// Mark the environment root as active.
    SetVenvVar,
    /// Make sure site-packages stands on the interpreter's module path.
    EnsureSitePath,
    /// Install the manifest packages.
    InstallDeps,
    /// Point the asset cache variable inside the environment.
    SetAssetCacheVar,
    /// Is the browser bundle already present under the cache?
    CheckAssets,
    /// Install the browser bundle.
    InstallAssets,
    /// Install the bundle's system dependencies.
    InstallAssetDeps,
    /// Verify the critical package and every manifest package.
    VerifyImports,
    /// Provisioning finished.
    Complete,
}

/// The outcome of one outside effect, handed back to the machine.
pub enum Event {
    /// The manifest file's text, or `None` when it was unreadable.
    ManifestText { text: Option<String> },
    /// Whether a directory exists.
    Dir { exists: bool },
    /// A subprocess finished: its exit status and captured output.
    Command { success: bool, output: String },
    /// An environment variable was set.
    VarSet,
    /// An environment variable's current value, empty when unset.
    EnvValue { value: String },
    /// A module-search-path update succeeded or failed with a complaint.
    PathAdded { ok: bool, detail: String },
    /// Whether the browser bundle is present under the cache.
    Assets { present: bool },
    /// The result of import verification.
    Imports { result: Result<(), SetupError> },
}

/// The next outside effect the caller must perform.
pub enum Action {
    /// Read the file as text.
    ReadFile { path: String },
    /// Check whether the directory exists.
    CheckDir { path: String },
    /// Run a subprocess and report its exit status; capture its output when
    /// asked, and override the asset cache variable for it when given.
    RunCommand { program: String, args: Vec<String>, cache_override: Option<String>, capture: bool },
    /// Set a process environment variable.
    SetVar { name: String, value: String },
    /// Read a process environment variable.
    GetVar { name: String },
    /// Append the path to the interpreter's module search path.
    AddImportPath { path: String },
    /// Make sure the path stands on the interpreter's module search path.
    EnsureImportPath { path: String },
    /// Check for a present browser bundle under the cache directory.
    CheckAssetBundle { cache_dir: String, browser: String },
    /// Verify the critical package, then every listed package.
    VerifyPackages { critical: String, packages: Vec<String> },
    /// Nothing is left to do.
    Finished,
}

/// The provisioning machine: the descriptor, the stage waited on, and the
/// values carried between stages.
pub struct Provisioner {
    pub setup: PythonSetup,
    pub stage: Stage,
    pub packages: Vec<String>,
    pub version: String,
    pub path_value: String,
}

/// Which event kind each stage expects.
pub open spec fn stage_expects(s: Stage, ev: Event) -> bool {
    match s {
        Stage::ReadManifest => ev is ManifestText,
        Stage::CheckEnvDir => ev is Dir,
        Stage::ProbeInterpreter => ev is Command,
        Stage::CreateEnv => ev is Command,
        Stage::UpgradePip => ev is Command,
        Stage::SetRootCacheVar => ev is VarSet,
        Stage::AppendSourcePath => ev is PathAdded,
        Stage::ProbeVersion => ev is Command,
        Stage::CheckSitePackages => ev is Dir,
        Stage::GetPathVar => ev is EnvValue,
        Stage::SetPathVar => ev is VarSet,
        Stage::SetPythonPathVar => ev is VarSet,
        Stage::SetVenvVar => ev is VarSet,
        Stage::EnsureSitePath => ev is PathAdded,
        Stage::InstallDeps => ev is Command,
        Stage::SetAssetCacheVar => ev is VarSet,
        Stage::CheckAssets => ev is Assets,
        Stage::InstallAssets => ev is Command,
        Stage::InstallAssetDeps => ev is Command,
        Stage::VerifyImports => ev is Imports,
        Stage::Complete => false,
    }
}

/// Whether the event counts as success for the stage. At the version probe
/// the output must also parse to a version.
pub open spec fn event_ok(s: Stage, ev: Event) -> bool {
    match ev {
        Event::ManifestText { text } => text is Some,
        Event::Dir { exists } => exists,
        Event::Command { success, output } => if s is ProbeVersion {
            success && version_of(output@) is Some
        } else {
            success
        },
        Event::VarSet => true,
        Event::EnvValue { .. } => true,
        Event::PathAdded { ok, .. } => ok,
        Event::Assets { present } => present,
        Event::Imports { result } => result is Ok,
    }
}

/// The transition relation on stages: the stage that follows on a
/// successful outcome, `None` where the outcome is terminal. An existing
/// environment directory skips creation; a present asset bundle skips
/// installation.
pub open spec fn advance(s: Stage, ok: bool) -> Option<Stage> {
    match s {
        Stage::ReadManifest => if ok {
            Some(Stage::CheckEnvDir)
        } else {
            None
        },
        Stage::CheckEnvDir => if ok {
            Some(Stage::SetRootCacheVar)
        } else {
            Some(Stage::ProbeInterpreter)
        },
        Stage::ProbeInterpreter => if ok {
            Some(Stage::CreateEnv)
        } else {
            None
        },
        Stage::CreateEnv => if ok {
            Some(Stage::UpgradePip)
        } else {
            None
        },
        Stage::UpgradePip => if ok {
            Some(Stage::SetRootCacheVar)
        } else {
            None
        },
        Stage::SetRootCacheVar => Some(Stage::AppendSourcePath),
        Stage::AppendSourcePath => if ok {
            Some(Stage::ProbeVersion)
        } else {
            None
        },
        Stage::ProbeVersion => if ok {
            Some(Stage::CheckSitePackages)
        } else {
            None
        },
        Stage::CheckSitePackages => if ok {
            Some(Stage::GetPathVar)
        } else {
            None
        },
        Stage::GetPathVar => Some(Stage::SetPathVar),
        Stage::SetPathVar => Some(Stage::SetPythonPathVar),
        Stage::SetPythonPathVar => Some(Stage::SetVenvVar),
        Stage::SetVenvVar => Some(Stage::EnsureSitePath),
        Stage::EnsureSitePath => if ok {
            Some(Stage::InstallDeps)
        } else {
            None
        },
        Stage::InstallDeps => if ok {
            Some(Stage::SetAssetCacheVar)
        } else {
            None
        },
        Stage::SetAssetCacheVar => Some(Stage::CheckAssets),
        Stage::CheckAssets => if ok {
            Some(Stage::VerifyImports)
        } else {
            Some(Stage::InstallAssets)
        },
        Stage::InstallAssets => if ok {
            Some(Stage::InstallAssetDeps)
        } else {
            None
        },
        Stage::InstallAssetDeps => if ok {
            Some(Stage::VerifyImports)
        } else {
            None
        },
        Stage::VerifyImports => if ok {
            Some(Stage::Complete)
        } else {
            None
        },
        Stage::Complete => None,
    }
}

/// The error a failing stage reports. Subprocess failures carry the
/// captured output, the missing site-packages directory is named by its
/// path, and a verification failure is passed through as it came.
pub open spec fn stage_error(pre: Provisioner, ev: Event, e: SetupError) -> bool {
    match pre.stage {
        Stage::ReadManifest => e is ManifestUnreadable,
        Stage::ProbeInterpreter => e is InterpreterMissing,
        Stage::CreateEnv => e matches SetupError::EnvironmentCreationFailed { output }
            && (ev matches Event::Command { output: o, .. } && output@ == o@),
        Stage::UpgradePip => e matches SetupError::PackageManagerUpgradeFailed { output }
            && (ev matches Event::Command { output: o, .. } && output@ == o@),
        Stage::AppendSourcePath => e matches SetupError::PathUpdateFailed { detail }
            && (ev matches Event::PathAdded { detail: d, .. } && detail@ == d@),
        Stage::ProbeVersion => e matches SetupError::VersionDetectionFailed { output }
            && (ev matches Event::Command { output: o, .. } && output@ == o@),
        Stage::CheckSitePackages => e matches SetupError::SitePackagesMissing { path }
            && path@ == site_packages_of(pre.setup.venv_path@, pre.setup.windows, pre.version@),
        Stage::EnsureSitePath => e matches SetupError::PathUpdateFailed { detail }
            && (ev matches Event::PathAdded { detail: d, .. } && detail@ == d@),
        Stage::InstallDeps => e is DependencyInstallFailed,
        Stage::InstallAssets => e is AssetInstallFailed,
        Stage::InstallAssetDeps => e is AssetDepsInstallFailed,
        Stage::VerifyImports => ev matches Event::Imports { result } && result == Err::<
            (),
            SetupError,
        >(e),
        _ => false,
    }
}

/// The action emitted on entering stage `m.stage`, with every path and
/// argument list pinned to the descriptor and the carried values.
pub open spec fn action_for(m: Provisioner, a: Action) -> bool {
    let venv = m.setup.venv_path@;
    let windows = m.setup.windows;
    match m.stage {
        Stage::ReadManifest => a matches Action::ReadFile { path } && path@
            == m.setup.requirements_path@,
        Stage::CheckEnvDir => a matches Action::CheckDir { path } && path@ == venv,
        Stage::ProbeInterpreter => a matches Action::RunCommand {
            program,
            args,
            cache_override,
            capture,
        } && program@ == base_interpreter_of(windows) && names_view(args@) == seq!["--version"@]
            && cache_override is None && capture,
        Stage::CreateEnv => a matches Action::RunCommand { program, args, cache_override, capture }
            && program@ == base_interpreter_of(windows) && names_view(args@) == seq![
            "-m"@,
            "venv"@,
            venv,
        ] && cache_override is None && capture,
        Stage::UpgradePip => a matches Action::RunCommand { program, args, cache_override, capture }
            && program@ == package_manager_of(venv, windows) && names_view(args@) == seq![
            "install"@,
            "--upgrade"@,
            "pip"@,
        ] && cache_override is None && capture,
        Stage::SetRootCacheVar => a matches Action::SetVar { name, value } && name@
            == "PLAYWRIGHT_BROWSERS_PATH"@ && value@ == root_cache_of(m.setup.root@, windows),
        Stage::AppendSourcePath => a matches Action::AddImportPath { path } && path@
            == source_path_of(m.setup.root@, windows),
        Stage::ProbeVersion => a matches Action::RunCommand {
            program,
            args,
            cache_override,
            capture,
        } && program@ == interpreter_of(venv, windows) && names_view(args@) == seq!["--version"@]
            && cache_override is None && capture,
        Stage::CheckSitePackages => a matches Action::CheckDir { path } && path@
            == site_packages_of(venv, windows, m.version@),
        Stage::GetPathVar => a matches Action::GetVar { name } && name@ == "PATH"@,
        Stage::SetPathVar => a matches Action::SetVar { name, value } && name@ == "PATH"@ && value@
            == prepended_path_of(exec_dir_of(venv, windows), m.path_value@),
        Stage::SetPythonPathVar => a matches Action::SetVar { name, value } && name@
            == "PYTHONPATH"@ && value@ == site_packages_of(venv, windows, m.version@),
        Stage::SetVenvVar => a matches Action::SetVar { name, value } && name@ == "VIRTUAL_ENV"@
            && value@ == venv,
        Stage::EnsureSitePath => a matches Action::EnsureImportPath { path } && path@
            == site_packages_of(venv, windows, m.version@),
        Stage::InstallDeps => a matches Action::RunCommand {
            program,
            args,
            cache_override,
            capture,
        } && program@ == package_manager_of(venv, windows) && names_view(args@) == seq![
            "install"@,
            "-r"@,
            m.setup.requirements_path@,
        ] && cache_override is None && !capture,
        Stage::SetAssetCacheVar => a matches Action::SetVar { name, value } && name@
            == "PLAYWRIGHT_BROWSERS_PATH"@ && value@ == env_cache_of(venv, windows),
        Stage::CheckAssets => a matches Action::CheckAssetBundle { cache_dir, browser }
            && cache_dir@ == env_cache_of(venv, windows) && browser@ == "chromium"@,
        Stage::InstallAssets => a matches Action::RunCommand {
            program,
            args,
            cache_override,
            capture,
        } && program@ == interpreter_of(venv, windows) && names_view(args@) == seq![
            "-m"@,
            "playwright"@,
            "install"@,
            "chromium"@,
        ] && (cache_override matches Some(c) && c@ == env_cache_of(venv, windows)) && !capture,
        Stage::InstallAssetDeps => a matches Action::RunCommand {
            program,
            args,
            cache_override,
            capture,
        } && program@ == interpreter_of(venv, windows) && names_view(args@) == seq![
            "-m"@,
            "playwright"@,
            "install-deps"@,
            "chromium"@,
        ] && (cache_override matches Some(c) && c@ == env_cache_of(venv, windows)) && !capture,
        Stage::VerifyImports => a matches Action::VerifyPackages { critical, packages }
            && critical@ == "playwright"@ && names_view(packages@) == names_view(m.packages@),
        Stage::Complete => a is Finished,
    }
}

/// The values a step carries forward: the parsed manifest at the manifest
/// stage, the parsed version at the version probe, the search-path value
/// when read; everything else is untouched.
pub open spec fn data_update(pre: Provisioner, post: Provisioner, ev: Event) -> bool {
    &&& post.setup == pre.setup
    &&& (!(pre.stage is ReadManifest) ==> post.packages == pre.packages)
    &&& (!(pre.stage is ProbeVersion) ==> post.version == pre.version)
    &&& (!(pre.stage is GetPathVar) ==> post.path_value == pre.path_value)
    &&& (pre.stage is ReadManifest ==> (ev matches Event::ManifestText { text } && (
        text matches Some(t) ==> names_view(post.packages@) == parse_manifest(t@))))
    &&& (pre.stage is ProbeVersion && event_ok(pre.stage, ev) ==> (ev matches Event::Command {
        output,
        ..
    } && version_of(output@) == Some(post.version@)))
    &&& (pre.stage is GetPathVar ==> (ev matches Event::EnvValue { value } && post.path_value@
        == value@))
}

/// The whole contract of one step: the stage advances as `advance` says on
/// the event's outcome, the emitted action is the next stage's, a terminal
/// outcome yields that stage's error, and the carried values update as
/// `data_update` says.
pub open spec fn step_post(
    pre: Provisioner,
    post: Provisioner,
    ev: Event,
    r: Result<Action, SetupError>,
) -> bool {
    &&& data_update(pre, post, ev)
    &&& match advance(pre.stage, event_ok(pre.stage, ev)) {
        Some(s2) => {
            &&& post.stage == s2
            &&& r matches Ok(a) && action_for(post, a)
        },
        None => {
            &&& post.stage == pre.stage
            &&& r matches Err(e) && stage_error(pre, ev, e)
        },
    }
}

/// One argument list.
fn args1(a: &str) -> (r: Vec<String>)
    ensures
        names_view(r@) == seq![a@],
{
    let mut v: Vec<String> = Vec::new();
    v.push(a.to_owned());
    proof {
        assert(names_view(v@) =~= seq![a@]);
    }
    v
}

/// A three-part argument list.
fn args3(a: &str, b: &str, c: &str) -> (r: Vec<String>)
    ensures
        names_view(r@) == seq![a@, b@, c@],
{
    let mut v: Vec<String> = Vec::new();
    v.push(a.to_owned());
    v.push(b.to_owned());
    v.push(c.to_owned());
    proof {
        assert(names_view(v@) =~= seq![a@, b@, c@]);
    }
    v
}

/// A four-part argument list.
fn args4(a: &str, b: &str, c: &str, d: &str) -> (r: Vec<String>)
    ensures
        names_view(r@) == seq![a@, b@, c@, d@],
{
    let mut v: Vec<String> = Vec::new();
    v.push(a.to_owned());
    v.push(b.to_owned());
    v.push(c.to_owned());
    v.push(d.to_owned());
    proof {
        assert(names_view(v@) =~= seq![a@, b@, c@, d@]);
    }
    v
}

/// A copy of a name list.
fn dup_names(v: &Vec<String>) -> (r: Vec<String>)
    ensures
        r@ == v@,
{
    let n = v.len();
    let mut out: Vec<String> = Vec::new();
    let mut i: usize = 0;
    while i < n
        invariant
            0 <= i <= n,
            n == v@.len(),
            out@ == v@.subrange(0, i as int),
        decreases n - i,
    {
        out.push(v[i].clone());
        proof {
            assert(out@ =~= v@.subrange(0, i + 1));
        }
        i += 1;
    }
    proof {
        assert(v@.subrange(0, n as int) =~= v@);
    }
    out
}

impl PythonSetup {
    /// Begin the provisioning sequence. The returned machine waits on the
    /// returned first action: reading the package manifest. Feed each
    /// action's outcome to [`Provisioner::step`] until it hands back
    /// [`Action::Finished`] or an error; on any error the sequence is over
    /// and must not be resumed.
    pub fn ensure_environment(&self) -> (r: (Provisioner, Action))
        ensures
            r.0.setup == *self,
            r.0.stage == Stage::ReadManifest,
            action_for(r.0, r.1),
    {
        let m = Provisioner {
            setup: self.duplicate(),
            stage: Stage::ReadManifest,
            packages: Vec::new(),
            version: String::new(),
            path_value: String::new(),
        };
        let a = Action::ReadFile { path: self.requirements_path.clone() };
        (m, a)
    }
}

impl Provisioner {
    /// The action the machine is waiting on, recomputed.
    pub fn current_action(&self) -> (a: Action)
        ensures
            action_for(*self, a),
    {
        match self.stage {
            Stage::ReadManifest => Action::ReadFile {
                path: self.setup.requirements_path.clone(),
            },
            Stage::CheckEnvDir => Action::CheckDir { path: self.setup.venv_path.clone() },
            Stage::ProbeInterpreter => Action::RunCommand {
                program: if self.setup.windows {
                    "python".to_owned()
                } else {
                    "python3".to_owned()
                },
                args: args1("--version"),
                cache_override: None,
                capture: true,
            },
            Stage::CreateEnv => Action::RunCommand {
                program: if self.setup.windows {
                    "python".to_owned()
                } else {
                    "python3".to_owned()
                },
                args: args3("-m", "venv", self.setup.venv_path.as_str()),
                cache_override: None,
                capture: true,
            },
            Stage::UpgradePip => Action::RunCommand {
                program: self.setup.package_manager(),
                args: args3("install", "--upgrade", "pip"),
                cache_override: None,
                capture: true,
            },
            Stage::SetRootCacheVar => Action::SetVar {
                name: "PLAYWRIGHT_BROWSERS_PATH".to_owned(),
                value: self.setup.root_cache(),
            },
            Stage::AppendSourcePath => Action::AddImportPath { path: self.setup.source_dir() },
            Stage::ProbeVersion => Action::RunCommand {
                program: self.setup.interpreter(),
                args: args1("--version"),
                cache_override: None,
                capture: true,
            },
            Stage::CheckSitePackages => Action::CheckDir {
                path: self.setup.site_packages(self.version.as_str()),
            },
            Stage::GetPathVar => Action::GetVar { name: "PATH".to_owned() },
            Stage::SetPathVar => Action::SetVar {
                name: "PATH".to_owned(),
                value: self.setup.exec_dir().concat(":").concat(self.path_value.as_str()),
            },
            Stage::SetPythonPathVar => Action::SetVar {
                name: "PYTHONPATH".to_owned(),
                value: self.setup.site_packages(self.version.as_str()),
            },
            Stage::SetVenvVar => Action::SetVar {
                name: "VIRTUAL_ENV".to_owned(),
                value: self.setup.venv_path.clone(),
            },
            Stage::EnsureSitePath => Action::EnsureImportPath {
                path: self.setup.site_packages(self.version.as_str()),
            },
            Stage::InstallDeps => Action::RunCommand {
                program: self.setup.package_manager(),
                args: args3("install", "-r", self.setup.requirements_path.as_str()),
                cache_override: None,
                capture: false,
            },
            Stage::SetAssetCacheVar => Action::SetVar {
                name: "PLAYWRIGHT_BROWSERS_PATH".to_owned(),
                value: self.setup.env_cache(),
            },
            Stage::CheckAssets => Action::CheckAssetBundle {
                cache_dir: self.setup.env_cache(),
                browser: "chromium".to_owned(),
            },
            Stage::InstallAssets => Action::RunCommand {
                program: self.setup.interpreter(),
                args: args4("-m", "playwright", "install", "chromium"),
                cache_override: Some(self.setup.env_cache()),
                capture: false,
            },
            Stage::InstallAssetDeps => Action::RunCommand {
                program: self.setup.interpreter(),
                args: args4("-m", "playwright", "install-deps", "chromium"),
                cache_override: Some(self.setup.env_cache()),
                capture: false,
            },
            Stage::VerifyImports => Action::VerifyPackages {
                critical: "playwright".to_owned(),
                packages: dup_names(&self.packages),
            },
            Stage::Complete => Action::Finished,
        }
    }

    /// Consume the outcome of the pending action and decide the next one.
    /// On a terminal outcome the stage's error comes back and the machine
    /// stays where it was; it must not be stepped again.
    pub fn step(&mut self, ev: Event) -> (r: Result<Action, SetupError>)
        requires
            !(old(self).stage is Complete),
            stage_expects(old(self).stage, ev),
        ensures
            step_post(*old(self), *final(self), ev, r),
    {
        match self.stage {
            Stage::ReadManifest => {
                match ev {
                    Event::ManifestText { text: Some(t) } => {
                        self.packages = parse_requirements(t.as_str());
                        self.stage = Stage::CheckEnvDir;
                        Ok(self.current_action())
                    },
                    Event::ManifestText { text: None } => Err(SetupError::ManifestUnreadable),
                    _ => {
                        proof {
                            assert(false);
                        }
                        Err(SetupError::ManifestUnreadable)
                    },
                }
            },
            Stage::CheckEnvDir => {
                match ev {
                    Event::Dir { exists } => {
                        self.stage = if exists {
                            Stage::SetRootCacheVar
                        } else {
                            Stage::ProbeInterpreter
                        };
                        Ok(self.current_action())
                    },
                    _ => {
                        proof {
                            assert(false);
                        }
                        Err(SetupError::ManifestUnreadable)
                    },
                }
            },
            Stage::ProbeInterpreter => {
                match ev {
                    Event::Command { success, output: _ } => {
                        if success {
                            self.stage = Stage::CreateEnv;
                            Ok(self.current_action())
                        } else {
                            Err(SetupError::InterpreterMissing)
                        }
                    },
                    _ => {
                        proof {
                            assert(false);
                        }
                        Err(SetupError::ManifestUnreadable)
                    },
                }
            },
            Stage::CreateEnv => {
                match ev {
                    Event::Command { success, output } => {
                        if success {
                            self.stage = Stage::UpgradePip;
                            Ok(self.current_action())
                        } else {
                            Err(SetupError::EnvironmentCreationFailed { output })
                        }
                    },
                    _ => {
                        proof {
                            assert(false);
                        }
                        Err(SetupError::ManifestUnreadable)
                    },
                }
            },
            Stage::UpgradePip => {
                match ev {
                    Event::Command { success, output } => {
                        if success {
                            self.stage = Stage::SetRootCacheVar;
                            Ok(self.current_action())
                        } else {
                            Err(SetupError::PackageManagerUpgradeFailed { output })
                        }
                    },
                    _ => {
                        proof {
                            assert(false);
                        }
                        Err(SetupError::ManifestUnreadable)
                    },
                }
            },
            Stage::SetRootCacheVar => {
                self.stage = Stage::AppendSourcePath;
                Ok(self.current_action())
            },
            Stage::AppendSourcePath => {
                match ev {
                    Event::PathAdded { ok, detail } => {
                        if ok {
                            self.stage = Stage::ProbeVersion;
                            Ok(self.current_action())
                        } else {
                            Err(SetupError::PathUpdateFailed { detail })
                        }
                    },
                    _ => {
                        proof {
                            assert(false);
                        }
                        Err(SetupError::ManifestUnreadable)
                    },
                }
            },
            Stage::ProbeVersion => {
                match ev {
                    Event::Command { success, output } => {
                        if success {
                            match parse_python_version(output.as_str()) {
                                Some(v) => {
                                    self.version = v;
                                    self.stage = Stage::CheckSitePackages;
                                    Ok(self.current_action())
                                },
                                None => Err(SetupError::VersionDetectionFailed { output }),
                            }
                        } else {
                            Err(SetupError::VersionDetectionFailed { output })
                        }
                    },
                    _ => {
                        proof {
                            assert(false);
                        }
                        Err(SetupError::ManifestUnreadable)
                    },
                }
            },
            Stage::CheckSitePackages => {
                match ev {
                    Event::Dir { exists } => {
                        if exists {
                            self.stage = Stage::GetPathVar;
                            Ok(self.current_action())
                        } else {
                            Err(SetupError::SitePackagesMissing {
                                path: self.setup.site_packages(self.version.as_str()),
                            })
                        }
                    },
                    _ => {
                        proof {
                            assert(false);
                        }
                        Err(SetupError::ManifestUnreadable)
                    },
                }
            },
            Stage::GetPathVar => {
                match ev {
                    Event::EnvValue { value } => {
                        self.path_value = value;
                        self.stage = Stage::SetPathVar;
                        Ok(self.current_action())
                    },
                    _ => {
                        proof {
                            assert(false);
                        }
                        Err(SetupError::ManifestUnreadable)
                    },
                }
            },
            Stage::SetPathVar => {
                self.stage = Stage::SetPythonPathVar;
                Ok(self.current_action())
            },
            Stage::SetPythonPathVar => {
                self.stage = Stage::SetVenvVar;
                Ok(self.current_action())
            },
            Stage::SetVenvVar => {
                self.stage = Stage::EnsureSitePath;
                Ok(self.current_action())
            },
            Stage::EnsureSitePath => {
                match ev {
                    Event::PathAdded { ok, detail } => {
                        if ok {
                            self.stage = Stage::InstallDeps;
                            Ok(self.current_action())
                        } else {
                            Err(SetupError::PathUpdateFailed { detail })
                        }
                    },
                    _ => {
                        proof {
                            assert(false);
                        }
                        Err(SetupError::ManifestUnreadable)
                    },
                }
            },
            Stage::InstallDeps => {
                match ev {
                    Event::Command { success, output: _ } => {
                        if success {
                            self.stage = Stage::SetAssetCacheVar;
                            Ok(self.current_action())
                        } else {
                            Err(SetupError::DependencyInstallFailed)
                        }
                    },
                    _ => {
                        proof {
                            assert(false);
                        }
                        Err(SetupError::ManifestUnreadable)
                    },
                }
            },
            Stage::SetAssetCacheVar => {
                self.stage = Stage::CheckAssets;
                Ok(self.current_action())
            },
            Stage::CheckAssets => {
                match ev {
                    Event::Assets { present } => {
                        self.stage = if present {
                            Stage::VerifyImports
                        } else {
                            Stage::InstallAssets
                        };
                        Ok(self.current_action())
                    },
                    _ => {
                        proof {
                            assert(false);
                        }
                        Err(SetupError::ManifestUnreadable)
                    },
                }
            },
            Stage::InstallAssets => {
                match ev {
                    Event::Command { success, output: _ } => {
                        if success {
                            self.stage = Stage::InstallAssetDeps;
                            Ok(self.current_action())
                        } else {
                            Err(SetupError::AssetInstallFailed)
                        }
                    },
                    _ => {
                        proof {
                            assert(false);
                        }
                        Err(SetupError::ManifestUnreadable)
                    },
                }
            },
            Stage::InstallAssetDeps => {
                match ev {
                    Event::Command { success, output: _ } => {
                        if success {
                            self.stage = Stage::VerifyImports;
                            Ok(self.current_action())
                        } else {
                            Err(SetupError::AssetDepsInstallFailed)
                        }
                    },
                    _ => {
                        proof {
                            assert(false);
                        }
                        Err(SetupError::ManifestUnreadable)
                    },
                }
            },
            Stage::VerifyImports => {
                match ev {
                    Event::Imports { result } => {
                        match result {
                            Ok(()) => {
                                self.stage = Stage::Complete;
                                Ok(self.current_action())
                            },
                            Err(e) => Err(e),
                        }
                    },
                    _ => {
                        proof {
                            assert(false);
                        }
                        Err(SetupError::ManifestUnreadable)
                    },
                }
            },
            Stage::Complete => {
                proof {
                    assert(false);
                }
                Err(SetupError::ManifestUnreadable)
            },
        }
    }
}

/// The position of a stage in the dependency order.
pub open spec fn stage_rank(s: Stage) -> int {
    match s {
        Stage::ReadManifest => 0,
        Stage::CheckEnvDir => 1,
        Stage::ProbeInterpreter => 2,
        Stage::CreateEnv => 3,
        Stage::UpgradePip => 4,
        Stage::SetRootCacheVar => 5,
        Stage::AppendSourcePath => 6,
        Stage::ProbeVersion => 7,
        Stage::CheckSitePackages => 8,
        Stage::GetPathVar => 9,
        Stage::SetPathVar => 10,
        Stage::SetPythonPathVar => 11,
        Stage::SetVenvVar => 12,
        Stage::EnsureSitePath => 13,
        Stage::InstallDeps => 14,
        Stage::SetAssetCacheVar => 15,
        Stage::CheckAssets => 16,
        Stage::InstallAssets => 17,
        Stage::InstallAssetDeps => 18,
        Stage::VerifyImports => 19,
        Stage::Complete => 20,
    }
}

/// Progress: every transition moves to a strictly later stage, so no stage
/// is ever visited twice in one run.
pub proof fn lemma_advance_monotonic(s: Stage, ok: bool)
    ensures
        advance(s, ok) matches Some(s2) ==> stage_rank(s2) > stage_rank(s),
{
}

/// The stages a run visits: starting at `s`, one transition per outcome in
/// `oks`, stopping at the first terminal outcome.
pub open spec fn run_stages(s: Stage, oks: Seq<bool>) -> Seq<Stage>
    decreases oks.len(),
{
    if oks.len() == 0 {
        seq![s]
    } else {
        match advance(s, oks[0]) {
            Some(s2) => seq![s] + run_stages(s2, oks.drop_first()),
            None => seq![s],
        }
    }
}

/// A run never revisits earlier work: every stage a run visits stands at or
/// after its starting stage in the dependency order.
pub proof fn lemma_run_stages_rank(s: Stage, oks: Seq<bool>)
    ensures
        forall|i: int| 0 <= i < run_stages(s, oks).len() ==> stage_rank(
            #[trigger] run_stages(s, oks)[i],
        ) >= stage_rank(s),
    decreases oks.len(),
{
    if oks.len() > 0 {
        match advance(s, oks[0]) {
            Some(s2) => {
                lemma_advance_monotonic(s, oks[0]);
                lemma_run_stages_rank(s2, oks.drop_first());
                assert forall|i: int| 0 <= i < run_stages(s, oks).len() implies stage_rank(
                    run_stages(s, oks)[i],
                ) >= stage_rank(s) by {
                    if i > 0 {
                        assert(run_stages(s, oks)[i] == run_stages(s2, oks.drop_first())[i - 1]);
                    }
                }
            },
            None => {},
        }
    }
}

/// Idempotence of environment creation: when the environment directory
/// already exists, the machine skips straight to configuration, and no run
/// from there ever visits interpreter probing, environment creation or the
/// package-manager bootstrap again. Re-running on a built root therefore
/// performs no redundant creation, and the resolved paths, a pure function
/// of root, platform and version, come out the same.
pub proof fn lemma_existing_env_never_recreated(oks: Seq<bool>)
    ensures
        advance(Stage::CheckEnvDir, true) == Some(Stage::SetRootCacheVar),
        forall|i: int| 0 <= i < run_stages(Stage::SetRootCacheVar, oks).len() ==> {
            let visited = #[trigger] run_stages(Stage::SetRootCacheVar, oks)[i];
            visited != Stage::ProbeInterpreter && visited != Stage::CreateEnv && visited
                != Stage::UpgradePip
        },
{
    lemma_run_stages_rank(Stage::SetRootCacheVar, oks);
}

/// Fail-fast on the site-packages precondition: a missing directory is
/// terminal, and a run that fails there visits no later stage, so neither
/// dependency installation nor asset provisioning nor import verification
/// is ever invoked after it.
pub proof fn lemma_site_packages_fail_fast(oks: Seq<bool>)
    ensures
        advance(Stage::CheckSitePackages, false) is None,
        oks.len() > 0 && !oks[0] ==> run_stages(Stage::CheckSitePackages, oks) == seq![
            Stage::CheckSitePackages,
        ],
{
}

/// A present asset bundle skips installation: the presence check hands the
/// machine straight to import verification, and no run from there ever
/// visits either install stage.
pub proof fn lemma_assets_present_skip_install(oks: Seq<bool>)
    ensures
        advance(Stage::CheckAssets, true) == Some(Stage::VerifyImports),
        forall|i: int| 0 <= i < run_stages(Stage::VerifyImports, oks).len() ==> {
            let visited = #[trigger] run_stages(Stage::VerifyImports, oks)[i];
            visited != Stage::InstallAssets && visited != Stage::InstallAssetDeps
        },
{
    lemma_run_stages_rank(Stage::VerifyImports, oks);
}

} // verus!
