//! Binary-asset provisioning: presence of the browser bundle is detected by
//! a glob match under the cache directory; installation runs on first use
//! only.

use vstd::prelude::*;
use crate::paths::sep;

verus! {

/// The glob pattern that detects an installed bundle of `browser` under the
/// cache directory: `{cache}/{browser}-*`.
pub open spec fn asset_pattern_of(cache: Seq<char>, browser: Seq<char>, windows: bool) -> Seq<
    char,
> {
    cache + sep(windows) + browser + "-*"@
}

/// Build the glob pattern that detects an installed bundle of `browser`.
pub fn asset_pattern(cache_dir: &str, browser: &str, windows: bool) -> (r: String)
    ensures
        r@ == asset_pattern_of(cache_dir@, browser@, windows),
{
    let s = if windows {
        cache_dir.to_owned().concat("\\")
    } else {
        cache_dir.to_owned().concat("/")
    };
    s.concat(browser).concat("-*")
}

/// Relies on glob's `glob` and `Paths::next`: whether iterating `pattern`
/// yields a first entry — a match, or a path the iteration could not read,
/// either of which counts as presence. The outcome depends on filesystem
/// state, so nothing is stated of it; the error is the library's complaint
/// about a malformed pattern.
#[verifier::external_body]
fn glob_first_match(pattern: &str) -> Result<bool, String> {
    match glob::glob(pattern) {
        Ok(mut paths) => Ok(paths.next().is_some()),
        Err(e) => Err(e.msg.to_owned()),
    }
}

/// Whether a bundle of `browser` is already present under `cache_dir`:
/// any first glob entry for `{browser}-*` there counts as installed. `Err`
/// holds the glob library's complaint when the pattern is malformed.
pub fn assets_present(cache_dir: &str, browser: &str, windows: bool) -> (r: Result<bool, String>)
{
    let pattern = asset_pattern(cache_dir, browser, windows);
    glob_first_match(pattern.as_str())
}

} // verus!
