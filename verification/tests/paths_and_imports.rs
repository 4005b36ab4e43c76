use py_provision::assets::{asset_pattern, assets_present};
use py_provision::error::SetupError;
use py_provision::imports::{get_import_name, path_has_entry, resolve_import, to_underscored};
use py_provision::paths::PythonSetup;

#[test]
fn site_packages_on_unix_branch() {
    let setup = PythonSetup::new("/r", false);
    assert_eq!(
        setup.site_packages("3.12"),
        "/r/python_env/lib/python3.12/site-packages"
    );
}

#[test]
fn site_packages_on_windows_branch() {
    let setup = PythonSetup::new("C:\\r", true);
    assert_eq!(
        setup.site_packages("3.12"),
        "C:\\r\\python_env\\Lib\\site-packages"
    );
}

#[test]
fn resolve_derives_every_path() {
    let setup = PythonSetup::new("/r", false);
    let paths = setup.resolve("3.12", "/usr/bin:/bin");
    assert_eq!(paths.executable_path, "/r/python_env/bin/python");
    assert_eq!(paths.package_manager_path, "/r/python_env/bin/pip");
    assert_eq!(paths.executable_dir, "/r/python_env/bin");
    assert_eq!(
        paths.site_packages_path,
        "/r/python_env/lib/python3.12/site-packages"
    );
    assert_eq!(paths.path_value, "/r/python_env/bin:/usr/bin:/bin");
    assert_eq!(paths.binary_cache_path, "/r/python_env/playwright-cache");
}

#[test]
fn resolve_is_repeatable() {
    let setup = PythonSetup::new("/r", false);
    let first = setup.resolve("3.12", "/usr/bin");
    let second = setup.resolve("3.12", "/usr/bin");
    assert_eq!(first.executable_path, second.executable_path);
    assert_eq!(first.site_packages_path, second.site_packages_path);
    assert_eq!(first.path_value, second.path_value);
    assert_eq!(first.binary_cache_path, second.binary_cache_path);
}

#[test]
fn descriptor_paths_under_root() {
    let setup = PythonSetup::new("/work", false);
    assert_eq!(setup.venv_path, "/work/python_env");
    assert_eq!(setup.requirements_path, "/work/requirements.txt");
    assert_eq!(setup.root_cache(), "/work/target/playwright-cache");
    assert_eq!(setup.source_dir(), "/work/src/python");
}

#[test]
fn alias_map_hits() {
    assert_eq!(get_import_name("pillow"), "PIL");
    assert_eq!(get_import_name("beautifulsoup4"), "bs4");
    assert_eq!(get_import_name("python-dotenv"), "dotenv");
    assert_eq!(get_import_name("opencv-python"), "cv2");
}

#[test]
fn alias_map_misses_keep_the_name() {
    assert_eq!(get_import_name("telethon"), "telethon");
    assert_eq!(get_import_name("some-pkg"), "some-pkg");
}

#[test]
fn underscoring_replaces_every_hyphen() {
    assert_eq!(to_underscored("a-b-c"), "a_b_c");
    assert_eq!(to_underscored("plain"), "plain");
    assert_eq!(to_underscored(""), "");
    assert_eq!(to_underscored("-"), "_");
}

#[test]
fn search_path_membership_decides_the_append() {
    let entries = vec!["/usr/lib/python3.12".to_string(), "/site".to_string()];
    assert!(path_has_entry(&entries, "/site"));
    assert!(path_has_entry(&entries, "/usr/lib/python3.12"));
    assert!(!path_has_entry(&entries, "/elsewhere"));
    assert!(!path_has_entry(&entries, ""));
    assert!(!path_has_entry(&Vec::new(), "/site"));
}

#[test]
fn aliased_name_resolves_in_one_attempt() {
    let (outcome, attempts) = resolve_import("pillow", true, false, false);
    assert_eq!(attempts, 1);
    assert_eq!(outcome.unwrap(), "PIL");
}

#[test]
fn literal_name_is_second_attempt() {
    let (outcome, attempts) = resolve_import("telethon", false, true, false);
    assert_eq!(attempts, 2);
    assert_eq!(outcome.unwrap(), "telethon");
}

#[test]
fn underscored_fallback_is_third_attempt() {
    let (outcome, attempts) = resolve_import("some-pkg", false, false, true);
    assert_eq!(attempts, 3);
    assert_eq!(outcome.unwrap(), "some_pkg");
}

#[test]
fn underscored_form_skipped_when_identical() {
    let (outcome, attempts) = resolve_import("plain", false, false, true);
    assert_eq!(attempts, 2);
    match outcome {
        Err(SetupError::ImportResolutionFailed {
            package,
            mapped_name,
            literal_name,
            underscore_name,
        }) => {
            assert_eq!(package, "plain");
            assert_eq!(mapped_name, "plain");
            assert_eq!(literal_name, "plain");
            assert_eq!(underscore_name, "plain");
        }
        _ => panic!("expected a resolution failure"),
    }
}

#[test]
fn failure_lists_all_three_spellings() {
    let (outcome, attempts) = resolve_import("some-pkg", false, false, false);
    assert_eq!(attempts, 3);
    match outcome {
        Err(SetupError::ImportResolutionFailed {
            package,
            mapped_name,
            literal_name,
            underscore_name,
        }) => {
            assert_eq!(package, "some-pkg");
            assert_eq!(mapped_name, "some-pkg");
            assert_eq!(literal_name, "some-pkg");
            assert_eq!(underscore_name, "some_pkg");
        }
        _ => panic!("expected a resolution failure"),
    }
}

#[test]
fn resolution_failure_message_names_every_spelling() {
    let (outcome, _) = resolve_import("some-pkg", false, false, false);
    let message = outcome.unwrap_err().message();
    assert_eq!(
        message,
        "package 'some-pkg' failed to import (tried: some-pkg, some-pkg, some_pkg)"
    );
}

#[test]
fn asset_pattern_shapes() {
    assert_eq!(
        asset_pattern("/r/python_env/playwright-cache", "chromium", false),
        "/r/python_env/playwright-cache/chromium-*"
    );
    assert_eq!(
        asset_pattern("C:\\cache", "chromium", true),
        "C:\\cache\\chromium-*"
    );
}

#[test]
fn absent_assets_report_no_match() {
    let present = assets_present("no_such_dir_anywhere", "chromium", false).unwrap();
    assert!(!present);
}
