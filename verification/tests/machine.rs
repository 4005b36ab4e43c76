use py_provision::error::SetupError;
use py_provision::paths::PythonSetup;
use py_provision::provision::{Action, Event, Provisioner};

fn ok_command() -> Event {
    Event::Command { success: true, output: String::new() }
}

fn expect_run(action: Action) -> (String, Vec<String>, Option<String>, bool) {
    match action {
        Action::RunCommand { program, args, cache_override, capture } => {
            (program, args, cache_override, capture)
        }
        _ => panic!("expected a command action"),
    }
}

/// Walk a fresh machine up to the site-packages directory check.
fn machine_at_site_check(root: &str) -> Provisioner {
    let setup = PythonSetup::new(root, false);
    let (mut m, _) = setup.ensure_environment();
    m.step(Event::ManifestText { text: Some("telethon\nplaywright\n".to_string()) }).unwrap();
    m.step(Event::Dir { exists: false }).unwrap();
    m.step(ok_command()).unwrap();
    m.step(ok_command()).unwrap();
    m.step(ok_command()).unwrap();
    m.step(Event::VarSet).unwrap();
    m.step(Event::PathAdded { ok: true, detail: String::new() }).unwrap();
    m.step(Event::Command { success: true, output: "Python 3.12.1\n".to_string() }).unwrap();
    m
}

#[test]
fn fresh_run_walks_the_whole_sequence() {
    let setup = PythonSetup::new("/r", false);
    let (mut m, first) = setup.ensure_environment();
    match first {
        Action::ReadFile { path } => assert_eq!(path, "/r/requirements.txt"),
        _ => panic!("expected the manifest read"),
    }

    let a = m.step(Event::ManifestText { text: Some("telethon\nplaywright\n".to_string()) });
    match a.unwrap() {
        Action::CheckDir { path } => assert_eq!(path, "/r/python_env"),
        _ => panic!("expected the environment directory check"),
    }

    let (program, args, cache, capture) = expect_run(m.step(Event::Dir { exists: false }).unwrap());
    assert_eq!(program, "python3");
    assert_eq!(args, vec!["--version".to_string()]);
    assert!(cache.is_none());
    assert!(capture);

    let (program, args, _, capture) = expect_run(m.step(ok_command()).unwrap());
    assert_eq!(program, "python3");
    assert_eq!(
        args,
        vec!["-m".to_string(), "venv".to_string(), "/r/python_env".to_string()]
    );
    // creation output is captured so its failure carries the stream text
    assert!(capture);

    let (program, args, _, _) = expect_run(m.step(ok_command()).unwrap());
    assert_eq!(program, "/r/python_env/bin/pip");
    assert_eq!(
        args,
        vec!["install".to_string(), "--upgrade".to_string(), "pip".to_string()]
    );

    match m.step(ok_command()).unwrap() {
        Action::SetVar { name, value } => {
            assert_eq!(name, "PLAYWRIGHT_BROWSERS_PATH");
            assert_eq!(value, "/r/target/playwright-cache");
        }
        _ => panic!("expected the cache variable"),
    }

    match m.step(Event::VarSet).unwrap() {
        Action::AddImportPath { path } => assert_eq!(path, "/r/src/python"),
        _ => panic!("expected the source path append"),
    }

    let (program, args, _, capture) =
        expect_run(m.step(Event::PathAdded { ok: true, detail: String::new() }).unwrap());
    assert_eq!(program, "/r/python_env/bin/python");
    assert_eq!(args, vec!["--version".to_string()]);
    assert!(capture);

    let a = m.step(Event::Command { success: true, output: "Python 3.12.1\n".to_string() });
    match a.unwrap() {
        Action::CheckDir { path } => {
            assert_eq!(path, "/r/python_env/lib/python3.12/site-packages")
        }
        _ => panic!("expected the site-packages check"),
    }

    match m.step(Event::Dir { exists: true }).unwrap() {
        Action::GetVar { name } => assert_eq!(name, "PATH"),
        _ => panic!("expected the search-path read"),
    }

    match m.step(Event::EnvValue { value: "/usr/bin:/bin".to_string() }).unwrap() {
        Action::SetVar { name, value } => {
            assert_eq!(name, "PATH");
            assert_eq!(value, "/r/python_env/bin:/usr/bin:/bin");
        }
        _ => panic!("expected the search-path write"),
    }

    match m.step(Event::VarSet).unwrap() {
        Action::SetVar { name, value } => {
            assert_eq!(name, "PYTHONPATH");
            assert_eq!(value, "/r/python_env/lib/python3.12/site-packages");
        }
        _ => panic!("expected the package-search variable"),
    }

    match m.step(Event::VarSet).unwrap() {
        Action::SetVar { name, value } => {
            assert_eq!(name, "VIRTUAL_ENV");
            assert_eq!(value, "/r/python_env");
        }
        _ => panic!("expected the active-environment marker"),
    }

    match m.step(Event::VarSet).unwrap() {
        Action::EnsureImportPath { path } => {
            assert_eq!(path, "/r/python_env/lib/python3.12/site-packages")
        }
        _ => panic!("expected the site-packages path insert"),
    }

    let (program, args, _, _) =
        expect_run(m.step(Event::PathAdded { ok: true, detail: String::new() }).unwrap());
    assert_eq!(program, "/r/python_env/bin/pip");
    assert_eq!(
        args,
        vec!["install".to_string(), "-r".to_string(), "/r/requirements.txt".to_string()]
    );

    match m.step(ok_command()).unwrap() {
        Action::SetVar { name, value } => {
            assert_eq!(name, "PLAYWRIGHT_BROWSERS_PATH");
            assert_eq!(value, "/r/python_env/playwright-cache");
        }
        _ => panic!("expected the environment cache variable"),
    }

    match m.step(Event::VarSet).unwrap() {
        Action::CheckAssetBundle { cache_dir, browser } => {
            assert_eq!(cache_dir, "/r/python_env/playwright-cache");
            assert_eq!(browser, "chromium");
        }
        _ => panic!("expected the asset presence check"),
    }

    let (program, args, cache, _) = expect_run(m.step(Event::Assets { present: false }).unwrap());
    assert_eq!(program, "/r/python_env/bin/python");
    assert_eq!(
        args,
        vec![
            "-m".to_string(),
            "playwright".to_string(),
            "install".to_string(),
            "chromium".to_string()
        ]
    );
    assert_eq!(cache.unwrap(), "/r/python_env/playwright-cache");

    let (_, args, cache, _) = expect_run(m.step(ok_command()).unwrap());
    assert_eq!(
        args,
        vec![
            "-m".to_string(),
            "playwright".to_string(),
            "install-deps".to_string(),
            "chromium".to_string()
        ]
    );
    assert_eq!(cache.unwrap(), "/r/python_env/playwright-cache");

    match m.step(ok_command()).unwrap() {
        Action::VerifyPackages { critical, packages } => {
            assert_eq!(critical, "playwright");
            assert_eq!(packages, vec!["telethon".to_string(), "playwright".to_string()]);
        }
        _ => panic!("expected import verification"),
    }

    match m.step(Event::Imports { result: Ok(()) }).unwrap() {
        Action::Finished => {}
        _ => panic!("expected completion"),
    }
}

#[test]
fn existing_environment_skips_creation() {
    let setup = PythonSetup::new("/r", false);
    let (mut m, _) = setup.ensure_environment();
    m.step(Event::ManifestText { text: Some("telethon\n".to_string()) }).unwrap();
    // the environment directory already exists: straight to configuration,
    // with no interpreter probe, creation or package-manager bootstrap
    match m.step(Event::Dir { exists: true }).unwrap() {
        Action::SetVar { name, value } => {
            assert_eq!(name, "PLAYWRIGHT_BROWSERS_PATH");
            assert_eq!(value, "/r/target/playwright-cache");
        }
        _ => panic!("expected the cache variable directly"),
    }
}

#[test]
fn missing_site_packages_is_terminal() {
    let mut m = machine_at_site_check("/r");
    match m.step(Event::Dir { exists: false }) {
        Err(SetupError::SitePackagesMissing { path }) => {
            assert_eq!(path, "/r/python_env/lib/python3.12/site-packages")
        }
        _ => panic!("expected the site-packages failure"),
    }
}

#[test]
fn present_assets_skip_installation() {
    let mut m = machine_at_site_check("/r");
    m.step(Event::Dir { exists: true }).unwrap();
    m.step(Event::EnvValue { value: String::new() }).unwrap();
    m.step(Event::VarSet).unwrap();
    m.step(Event::VarSet).unwrap();
    m.step(Event::VarSet).unwrap();
    m.step(Event::PathAdded { ok: true, detail: String::new() }).unwrap();
    m.step(ok_command()).unwrap();
    m.step(Event::VarSet).unwrap();
    // the bundle is present: verification follows with no install commands
    match m.step(Event::Assets { present: true }).unwrap() {
        Action::VerifyPackages { critical, .. } => assert_eq!(critical, "playwright"),
        _ => panic!("expected verification directly"),
    }
}

#[test]
fn unreadable_manifest_aborts_before_everything() {
    let setup = PythonSetup::new("/r", false);
    let (mut m, _) = setup.ensure_environment();
    match m.step(Event::ManifestText { text: None }) {
        Err(SetupError::ManifestUnreadable) => {}
        _ => panic!("expected the manifest failure"),
    }
}

#[test]
fn missing_interpreter_is_terminal() {
    let setup = PythonSetup::new("/r", false);
    let (mut m, _) = setup.ensure_environment();
    m.step(Event::ManifestText { text: Some(String::new()) }).unwrap();
    m.step(Event::Dir { exists: false }).unwrap();
    match m.step(Event::Command { success: false, output: String::new() }) {
        Err(SetupError::InterpreterMissing) => {}
        _ => panic!("expected the interpreter failure"),
    }
}

#[test]
fn creation_failure_carries_the_output() {
    let setup = PythonSetup::new("/r", false);
    let (mut m, _) = setup.ensure_environment();
    m.step(Event::ManifestText { text: Some(String::new()) }).unwrap();
    m.step(Event::Dir { exists: false }).unwrap();
    m.step(ok_command()).unwrap();
    match m.step(Event::Command { success: false, output: "boom".to_string() }) {
        Err(SetupError::EnvironmentCreationFailed { output }) => assert_eq!(output, "boom"),
        _ => panic!("expected the creation failure"),
    }
}

#[test]
fn unparsable_version_output_is_terminal() {
    let setup = PythonSetup::new("/r", false);
    let (mut m, _) = setup.ensure_environment();
    m.step(Event::ManifestText { text: Some(String::new()) }).unwrap();
    m.step(Event::Dir { exists: true }).unwrap();
    m.step(Event::VarSet).unwrap();
    m.step(Event::PathAdded { ok: true, detail: String::new() }).unwrap();
    match m.step(Event::Command { success: true, output: "nonsense".to_string() }) {
        Err(SetupError::VersionDetectionFailed { output }) => assert_eq!(output, "nonsense"),
        _ => panic!("expected the version failure"),
    }
}

#[test]
fn verification_failure_passes_through() {
    let mut m = machine_at_site_check("/r");
    m.step(Event::Dir { exists: true }).unwrap();
    m.step(Event::EnvValue { value: String::new() }).unwrap();
    m.step(Event::VarSet).unwrap();
    m.step(Event::VarSet).unwrap();
    m.step(Event::VarSet).unwrap();
    m.step(Event::PathAdded { ok: true, detail: String::new() }).unwrap();
    m.step(ok_command()).unwrap();
    m.step(Event::VarSet).unwrap();
    m.step(Event::Assets { present: true }).unwrap();
    let failure = SetupError::CriticalDependencyMissing {
        package: "playwright".to_string(),
        detail: "no module".to_string(),
    };
    match m.step(Event::Imports { result: Err(failure) }) {
        Err(SetupError::CriticalDependencyMissing { package, detail }) => {
            assert_eq!(package, "playwright");
            assert_eq!(detail, "no module");
        }
        _ => panic!("expected the critical failure to pass through"),
    }
}

#[test]
fn error_messages_name_the_failure() {
    let e = SetupError::SitePackagesMissing { path: "/x".to_string() };
    assert_eq!(e.message(), "site-packages directory does not exist: /x");
    let e = SetupError::CriticalDependencyMissing {
        package: "playwright".to_string(),
        detail: "no module named playwright".to_string(),
    };
    assert_eq!(
        e.message(),
        "critical package 'playwright' failed to import: no module named playwright"
    );
    assert_eq!(
        SetupError::ManifestUnreadable.message(),
        "manifest file is missing or unreadable"
    );
}
