//! Package-import verification with a three-tier name-resolution fallback:
//! the aliased import name, the literal package name, then the package name
//! with hyphens replaced by underscores.

use vstd::prelude::*;
use pyo3::types::PyAnyMethods;
use crate::error::SetupError;
use crate::text::str_eq;

verus! {

/// The import-name alias map: distribution names whose importable module
/// is spelled otherwise.
pub open spec fn alias_of(p: Seq<char>) -> Option<Seq<char>> {
    if p == "pillow"@ {
        Some("PIL"@)
    } else if p == "beautifulsoup4"@ {
        Some("bs4"@)
    } else if p == "python-dotenv"@ {
        Some("dotenv"@)
    } else if p == "pyyaml"@ {
        Some("yaml"@)
    } else if p == "python-telegram-bot"@ {
        Some("telegram"@)
    } else if p == "opencv-python"@ {
        Some("cv2"@)
    } else {
        None
    }
}

/// The first-tier import name: the alias when the map has one, else the
/// package name itself.
pub open spec fn import_name_of(p: Seq<char>) -> Seq<char> {
    match alias_of(p) {
        Some(a) => a,
        None => p,
    }
}

/// The third-tier import name: every hyphen replaced by an underscore.
pub open spec fn underscored(p: Seq<char>) -> Seq<char> {
    p.map_values(|c: char| if c == '-' { '_' } else { c })
}

/// The import name tried first for `package`: its alias-map entry when one
/// exists, else the package name itself.
pub fn get_import_name<'a>(package: &'a str) -> (r: &'a str)
    ensures
        r@ == import_name_of(package@),
{
    if str_eq(package, "pillow") {
        "PIL"
    } else if str_eq(package, "beautifulsoup4") {
        "bs4"
    } else if str_eq(package, "python-dotenv") {
        "dotenv"
    } else if str_eq(package, "pyyaml") {
        "yaml"
    } else if str_eq(package, "python-telegram-bot") {
        "telegram"
    } else if str_eq(package, "opencv-python") {
        "cv2"
    } else {
        package
    }
}

/// `package` with every hyphen replaced by an underscore.
pub fn to_underscored(package: &str) -> (r: String)
    ensures
        r@ == underscored(package@),
{
    let n = package.unicode_len();
    let mut out = String::new();
    let mut pos: usize = 0;
    proof {
        assert(out@ =~= underscored(package@.subrange(0, 0)));
    }
    while pos < n
        invariant
            0 <= pos <= n,
            n == package@.len(),
            out@ == underscored(package@.subrange(0, pos as int)),
        decreases n - pos,
    {
        let mut e: usize = pos;
        while e < n && package.get_char(e) != '-'
            invariant
                pos <= e <= n,
                n == package@.len(),
                forall|j: int| pos <= j < e ==> package@[j] != '-',
            decreases n - e,
        {
            e += 1;
        }
        let seg = package.substring_char(pos, e);
        out.append(seg);
        proof {
            assert(out@ =~= underscored(package@.subrange(0, e as int)));
        }
        if e < n {
            out.append("_");
            proof {
                reveal_strlit("_");
                assert(out@ =~= underscored(package@.subrange(0, e + 1)));
            }
            pos = e + 1;
        } else {
            pos = n;
        }
    }
    proof {
        assert(package@.subrange(0, n as int) =~= package@);
    }
    out
}

/// The underscored form differs from the package name exactly when the
/// name holds a hyphen; the third resolution tier is attempted only then.
pub proof fn lemma_underscored_differs(p: Seq<char>)
    ensures
        (underscored(p) == p) <==> (forall|j: int| 0 <= j < p.len() ==> p[j] != '-'),
{
    if forall|j: int| 0 <= j < p.len() ==> p[j] != '-' {
        assert(underscored(p) =~= p);
    }
    if underscored(p) == p {
        assert forall|j: int| 0 <= j < p.len() implies p[j] != '-' by {
            assert(underscored(p)[j] == p[j]);
        }
    }
}

/// pyo3's interpreter handle, opaque here: a capability to call into the
/// embedded interpreter.
#[verifier::external_type_specification]
#[verifier::external_body]
pub struct ExPython<'py>(pyo3::Python<'py>);

/// Relies on pyo3's `Python::import`: attempts to import the module named
/// `name` in the embedded interpreter; `Err` holds the interpreter's
/// diagnostic text. The outcome depends on interpreter and filesystem
/// state, so nothing is stated of it.
#[verifier::external_body]
fn probe_import(py: pyo3::Python<'_>, name: &str) -> Result<(), String> {
    py.import(name).map(|_| ()).map_err(|e| e.to_string())
}

/// Relies on pyo3's `Python::import`, `Bound::getattr` and
/// `Bound::call_method1`: appends `entry` to the embedded interpreter's
/// module search path. `Err` holds the interpreter's complaint.
#[verifier::external_body]
fn sys_path_append(py: pyo3::Python<'_>, entry: &str) -> Result<(), String> {
    py.import("sys")
        .and_then(|sys| sys.getattr("path"))
        .and_then(|path| path.call_method1("append", (entry,)))
        .map(|_| ())
        .map_err(|e| e.to_string())
}

/// Relies on pyo3's `Python::import`, `Bound::getattr` and
/// `Bound::extract`: the embedded interpreter's current module search path.
/// The value depends on interpreter state, so nothing is stated of it.
#[verifier::external_body]
fn sys_path_entries(py: pyo3::Python<'_>) -> Result<Vec<String>, String> {
    py.import("sys")
        .and_then(|sys| sys.getattr("path"))
        .and_then(|path| path.extract::<Vec<String>>())
        .map_err(|e| e.to_string())
}

/// Append `entry` to the embedded interpreter's module search path.
/// `Err` holds the interpreter's complaint.
pub fn add_search_path(py: pyo3::Python<'_>, entry: &str) -> (r: Result<(), String>) {
    sys_path_append(py, entry)
}

/// Whether any entry of `entries` equals `entry`: the decision that makes
/// the search-path update idempotent, over the entries as read.
pub fn path_has_entry(entries: &Vec<String>, entry: &str) -> (b: bool)
    ensures
        b == (exists|i: int| 0 <= i < entries@.len() && entries@[i]@ == entry@),
{
    let n = entries.len();
    let mut i: usize = 0;
    while i < n
        invariant
            0 <= i <= n,
            n == entries@.len(),
            forall|j: int| 0 <= j < i ==> entries@[j]@ != entry@,
        decreases n - i,
    {
        if str_eq(entries[i].as_str(), entry) {
            proof {
                assert(entries@[i as int]@ == entry@);
            }
            return true;
        }
        i += 1;
    }
    false
}

/// Make sure `entry` stands on the embedded interpreter's module search
/// path: read the current path, and append `entry` only when no entry
/// already equals it — [`path_has_entry`] decides, so repeated calls never
/// add a duplicate. Returns whether an append happened; `Err` holds the
/// interpreter's complaint.
pub fn ensure_search_path(py: pyo3::Python<'_>, entry: &str) -> (r: Result<bool, String>) {
    let entries = match sys_path_entries(py) {
        Ok(v) => v,
        Err(e) => {
            return Err(e);
        },
    };
    if path_has_entry(&entries, entry) {
        return Ok(false);
    }
    match sys_path_append(py, entry) {
        Ok(()) => Ok(true),
        Err(e) => Err(e),
    }
}

/// The resolution decision on given probe outcomes: which name verification
/// reports for `package` and how many import attempts it makes, when the
/// tiers come back as `mapped_ok`, `literal_ok` and `underscore_ok`.
///
/// The mapped name is attempted first; on success neither the literal nor
/// the underscored form is attempted. The underscored form is attempted
/// only when it differs from the literal name.
pub fn resolve_import(package: &str, mapped_ok: bool, literal_ok: bool, underscore_ok: bool) -> (r:
    (Result<String, SetupError>, usize))
    ensures
        mapped_ok ==> r.1 == 1 && (r.0 matches Ok(name) && name@ == import_name_of(package@)),
        !mapped_ok && literal_ok ==> r.1 == 2 && (r.0 matches Ok(name) && name@ == package@),
        !mapped_ok && !literal_ok && underscored(package@) != package@ && underscore_ok ==> r.1
            == 3 && (r.0 matches Ok(name) && name@ == underscored(package@)),
        !mapped_ok && !literal_ok && underscored(package@) != package@ && !underscore_ok ==> r.1
            == 3 && resolution_error(r.0, package@),
        !mapped_ok && !literal_ok && underscored(package@) == package@ ==> r.1 == 2
            && resolution_error(r.0, package@),
{
    let mapped = get_import_name(package);
    if mapped_ok {
        return (Ok(mapped.to_owned()), 1);
    }
    if literal_ok {
        return (Ok(package.to_owned()), 2);
    }
    let und = to_underscored(package);
    if !str_eq(und.as_str(), package) {
        if underscore_ok {
            return (Ok(und), 3);
        }
        (Err(import_resolution_error(package)), 3)
    } else {
        (Err(import_resolution_error(package)), 2)
    }
}

/// Whether `r` is the resolution failure for `package`, listing all three
/// attempted spellings.
pub open spec fn resolution_error<T>(r: Result<T, SetupError>, package: Seq<char>) -> bool {
    &&& r matches Err(e)
    &&& e matches SetupError::ImportResolutionFailed {
        package: p,
        mapped_name,
        literal_name,
        underscore_name,
    }
    &&& p@ == package
    &&& mapped_name@ == import_name_of(package)
    &&& literal_name@ == package
    &&& underscore_name@ == underscored(package)
}

/// The error reported when every tier failed: it lists all three attempted
/// spellings of the package name.
fn import_resolution_error(package: &str) -> (e: SetupError)
    ensures
        resolution_error(Err::<(), SetupError>(e), package@),
{
    SetupError::ImportResolutionFailed {
        package: package.to_owned(),
        mapped_name: get_import_name(package).to_owned(),
        literal_name: package.to_owned(),
        underscore_name: to_underscored(package),
    }
}

/// Import `package` through the three tiers — the aliased name, the
/// literal name, then the underscored form when it differs — stopping at
/// the first success. On failure hands back the interpreter's diagnostic
/// from the last attempted tier.
fn import_with_fallback(py: pyo3::Python<'_>, package: &str) -> Result<(), String> {
    let mapped = get_import_name(package);
    if probe_import(py, mapped).is_ok() {
        return Ok(());
    }
    let literal_detail = match probe_import(py, package) {
        Ok(()) => {
            return Ok(());
        },
        Err(d) => d,
    };
    let und = to_underscored(package);
    if !str_eq(und.as_str(), package) {
        match probe_import(py, und.as_str()) {
            Ok(()) => Ok(()),
            Err(d) => Err(d),
        }
    } else {
        Err(literal_detail)
    }
}

/// Verify that `package` is importable, trying the aliased name, the
/// literal name, then the underscored form (the latter only when it
/// differs), and stopping at the first success. On failure the error lists
/// all three attempted spellings.
pub fn try_import_package(py: pyo3::Python<'_>, package: &str) -> (r: Result<(), SetupError>)
    ensures
        r matches Err(e) ==> resolution_error(r, package@),
{
    match import_with_fallback(py, package) {
        Ok(()) => Ok(()),
        Err(_) => Err(import_resolution_error(package)),
    }
}

/// Whether `r` is the failure reported when the critical package cannot be
/// imported: it names the package and carries the interpreter's diagnostic.
pub open spec fn critical_error<T>(r: Result<T, SetupError>, critical: Seq<char>) -> bool {
    &&& r matches Err(e)
    &&& e matches SetupError::CriticalDependencyMissing { package, .. }
    &&& package@ == critical
}

/// Verify the whole manifest: the critical package first, unconditionally
/// and through the same three-tier fallback, then every manifest package in
/// order, stopping at the first failure. A critical failure comes back as
/// its own error kind carrying the interpreter's diagnostic; any other
/// failure lists the attempted spellings of the first manifest package that
/// failed.
pub fn verify_imports(py: pyo3::Python<'_>, critical: &str, packages: &Vec<String>) -> (r: Result<
    (),
    SetupError,
>)
    ensures
        r matches Err(e) ==> critical_error(r, critical@) || (exists|i: int|
            0 <= i < packages@.len() && resolution_error(
                Err::<(), SetupError>(e),
                packages@[i]@,
            )),
{
    match import_with_fallback(py, critical) {
        Ok(()) => {
        },
        Err(detail) => {
            return Err(
                SetupError::CriticalDependencyMissing { package: critical.to_owned(), detail },
            );
        },
    }
    let n = packages.len();
    let mut i: usize = 0;
    while i < n
        invariant
            0 <= i <= n,
            n == packages@.len(),
        decreases n - i,
    {
        match try_import_package(py, packages[i].as_str()) {
            Ok(()) => {
            },
            Err(e) => {
                proof {
                    assert(resolution_error(Err::<(), SetupError>(e), packages@[i as int]@));
                }
                return Err(e);
            },
        }
        i += 1;
    }
    Ok(())
}

} // verus!
