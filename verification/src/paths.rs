//! Platform-aware path resolution: every path of the isolated environment
//! is derived from the environment root and the probed interpreter version.

use vstd::prelude::*;

verus! {

/// The path separator of the platform family.
pub open spec fn sep(windows: bool) -> Seq<char> {
    if windows {
        "\\"@
    } else {
        "/"@
    }
}

/// The base interpreter command used to create the environment.
pub open spec fn base_interpreter_of(windows: bool) -> Seq<char> {
    if windows {
        "python"@
    } else {
        "python3"@
    }
}

/// The environment's executable directory.
pub open spec fn exec_dir_of(venv: Seq<char>, windows: bool) -> Seq<char> {
    if windows {
        venv + "\\Scripts"@
    } else {
        venv + "/bin"@
    }
}

/// The environment's own interpreter binary.
pub open spec fn interpreter_of(venv: Seq<char>, windows: bool) -> Seq<char> {
    if windows {
        venv + "\\Scripts\\python.exe"@
    } else {
        venv + "/bin/python"@
    }
}

/// The environment's package-manager binary.
pub open spec fn package_manager_of(venv: Seq<char>, windows: bool) -> Seq<char> {
    if windows {
        venv + "\\Scripts\\pip.exe"@
    } else {
        venv + "/bin/pip"@
    }
}

/// The environment's site-packages directory; version-dependent only on
/// the non-Windows family.
pub open spec fn site_packages_of(venv: Seq<char>, windows: bool, version: Seq<char>) -> Seq<
    char,
> {
    if windows {
        venv + "\\Lib\\site-packages"@
    } else {
        venv + "/lib/python"@ + version + "/site-packages"@
    }
}

/// The browser binary cache directory inside the environment.
pub open spec fn env_cache_of(venv: Seq<char>, windows: bool) -> Seq<char> {
    if windows {
        venv + "\\playwright-cache"@
    } else {
        venv + "/playwright-cache"@
    }
}

/// The browser binary cache directory under the root's build directory.
pub open spec fn root_cache_of(root: Seq<char>, windows: bool) -> Seq<char> {
    if windows {
        root + "\\target\\playwright-cache"@
    } else {
        root + "/target/playwright-cache"@
    }
}

/// The isolated environment's directory under the root.
pub open spec fn venv_of(root: Seq<char>, windows: bool) -> Seq<char> {
    if windows {
        root + "\\python_env"@
    } else {
        root + "/python_env"@
    }
}

/// The package manifest file under the root.
pub open spec fn requirements_of(root: Seq<char>, windows: bool) -> Seq<char> {
    if windows {
        root + "\\requirements.txt"@
    } else {
        root + "/requirements.txt"@
    }
}

/// The directory of source-tree interpreter modules under the root, handed
/// to the embedded interpreter's module search path.
pub open spec fn source_path_of(root: Seq<char>, windows: bool) -> Seq<char> {
    if windows {
        root + "\\src\\python"@
    } else {
        root + "/src/python"@
    }
}

/// The search-path value with the executable directory prepended, without
/// deduplication.
pub open spec fn prepended_path_of(exec_dir: Seq<char>, current: Seq<char>) -> Seq<char> {
    exec_dir + ":"@ + current
}

/// The environment descriptor: where the isolated environment and the
/// package manifest live, and which platform family the paths follow.
pub struct PythonSetup {
    pub root: String,
    pub venv_path: String,
    pub requirements_path: String,
    pub windows: bool,
}

/// Every platform-specific path derived from the descriptor and the probed
/// interpreter version.
pub struct ResolvedPaths {
    pub executable_path: String,
    pub package_manager_path: String,
    pub executable_dir: String,
    pub site_packages_path: String,
    pub path_value: String,
    pub binary_cache_path: String,
}

/// Whether `r` holds exactly the paths that the descriptor, the version and
/// the current search path determine.
pub open spec fn resolved_for(
    r: ResolvedPaths,
    venv: Seq<char>,
    windows: bool,
    version: Seq<char>,
    current_path: Seq<char>,
) -> bool {
    &&& r.executable_path@ == interpreter_of(venv, windows)
    &&& r.package_manager_path@ == package_manager_of(venv, windows)
    &&& r.executable_dir@ == exec_dir_of(venv, windows)
    &&& r.site_packages_path@ == site_packages_of(venv, windows, version)
    &&& r.path_value@ == prepended_path_of(exec_dir_of(venv, windows), current_path)
    &&& r.binary_cache_path@ == env_cache_of(venv, windows)
}

/// Path resolution is a pure derivation: two resolutions from the same
/// environment, version and search path agree on every path, so repeated
/// provisioning runs resolve to the same paths.
pub proof fn lemma_resolve_deterministic(
    a: ResolvedPaths,
    b: ResolvedPaths,
    venv: Seq<char>,
    windows: bool,
    version: Seq<char>,
    current_path: Seq<char>,
)
    requires
        resolved_for(a, venv, windows, version, current_path),
        resolved_for(b, venv, windows, version, current_path),
    ensures
        a.executable_path@ == b.executable_path@,
        a.package_manager_path@ == b.package_manager_path@,
        a.executable_dir@ == b.executable_dir@,
        a.site_packages_path@ == b.site_packages_path@,
        a.path_value@ == b.path_value@,
        a.binary_cache_path@ == b.binary_cache_path@,
{
}

impl PythonSetup {
    /// Describe the environment rooted under `root`: the isolated
    /// environment lives in `python_env` and the manifest is
    /// `requirements.txt`, both directly under the root.
    pub fn new(root: &str, windows: bool) -> (s: Self)
        ensures
            s.root@ == root@,
            s.venv_path@ == venv_of(root@, windows),
            s.requirements_path@ == requirements_of(root@, windows),
            s.windows == windows,
    {
        if windows {
            PythonSetup {
                root: root.to_owned(),
                venv_path: root.to_owned().concat("\\python_env"),
                requirements_path: root.to_owned().concat("\\requirements.txt"),
                windows,
            }
        } else {
            PythonSetup {
                root: root.to_owned(),
                venv_path: root.to_owned().concat("/python_env"),
                requirements_path: root.to_owned().concat("/requirements.txt"),
                windows,
            }
        }
    }

    /// A copy of the descriptor.
    pub fn duplicate(&self) -> (s: Self)
        ensures
            s == *self,
    {
        PythonSetup {
            root: self.root.clone(),
            venv_path: self.venv_path.clone(),
            requirements_path: self.requirements_path.clone(),
            windows: self.windows,
        }
    }

    /// The environment's executable directory.
    pub fn exec_dir(&self) -> (r: String)
        ensures
            r@ == exec_dir_of(self.venv_path@, self.windows),
    {
        if self.windows {
            self.venv_path.clone().concat("\\Scripts")
        } else {
            self.venv_path.clone().concat("/bin")
        }
    }

    /// The environment's own interpreter binary.
    pub fn interpreter(&self) -> (r: String)
        ensures
            r@ == interpreter_of(self.venv_path@, self.windows),
    {
        if self.windows {
            self.venv_path.clone().concat("\\Scripts\\python.exe")
        } else {
            self.venv_path.clone().concat("/bin/python")
        }
    }

    /// The environment's package-manager binary.
    pub fn package_manager(&self) -> (r: String)
        ensures
            r@ == package_manager_of(self.venv_path@, self.windows),
    {
        if self.windows {
            self.venv_path.clone().concat("\\Scripts\\pip.exe")
        } else {
            self.venv_path.clone().concat("/bin/pip")
        }
    }

    /// The environment's site-packages directory for the given version.
    pub fn site_packages(&self, version: &str) -> (r: String)
        ensures
            r@ == site_packages_of(self.venv_path@, self.windows, version@),
    {
        if self.windows {
            self.venv_path.clone().concat("\\Lib\\site-packages")
        } else {
            self.venv_path.clone().concat("/lib/python").concat(version).concat("/site-packages")
        }
    }

    /// The browser binary cache directory inside the environment.
    pub fn env_cache(&self) -> (r: String)
        ensures
            r@ == env_cache_of(self.venv_path@, self.windows),
    {
        if self.windows {
            self.venv_path.clone().concat("\\playwright-cache")
        } else {
            self.venv_path.clone().concat("/playwright-cache")
        }
    }

    /// The browser binary cache directory under the root's build directory.
    pub fn root_cache(&self) -> (r: String)
        ensures
            r@ == root_cache_of(self.root@, self.windows),
    {
        if self.windows {
            self.root.clone().concat("\\target\\playwright-cache")
        } else {
            self.root.clone().concat("/target/playwright-cache")
        }
    }

    /// The directory of source-tree interpreter modules under the root.
    pub fn source_dir(&self) -> (r: String)
        ensures
            r@ == source_path_of(self.root@, self.windows),
    {
        if self.windows {
            self.root.clone().concat("\\src\\python")
        } else {
            self.root.clone().concat("/src/python")
        }
    }

    /// Resolve every derived path from the probed `version` and the current
    /// search-path value. A pure derivation: equal inputs resolve to equal
    /// paths.
    pub fn resolve(&self, version: &str, current_path: &str) -> (r: ResolvedPaths)
        ensures
            resolved_for(r, self.venv_path@, self.windows, version@, current_path@),
    {
        let exec_dir = self.exec_dir();
        let path_value = self.exec_dir().concat(":").concat(current_path);
        ResolvedPaths {
            executable_path: self.interpreter(),
            package_manager_path: self.package_manager(),
            executable_dir: exec_dir,
            site_packages_path: self.site_packages(version),
            path_value,
            binary_cache_path: self.env_cache(),
        }
    }
}

} // verus!
