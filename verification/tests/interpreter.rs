use py_provision::error::SetupError;
use py_provision::imports::{ensure_search_path, try_import_package, verify_imports};

#[test]
fn embedded_interpreter_probes() {
    pyo3::Python::initialize();
    pyo3::Python::attach(|py| {
        // a standard module imports through the literal tier
        assert!(try_import_package(py, "sys").is_ok());

        // a name that exists nowhere fails all three tiers, and the error
        // lists every attempted spelling
        match try_import_package(py, "surely-absent-package") {
            Err(SetupError::ImportResolutionFailed {
                package,
                mapped_name,
                literal_name,
                underscore_name,
            }) => {
                assert_eq!(package, "surely-absent-package");
                assert_eq!(mapped_name, "surely-absent-package");
                assert_eq!(literal_name, "surely-absent-package");
                assert_eq!(underscore_name, "surely_absent_package");
            }
            _ => panic!("expected a resolution failure"),
        }

        // the batch check fails on the critical package when it is absent,
        // and the error carries the interpreter's diagnostic
        match verify_imports(py, "surely-absent-critical", &vec![]) {
            Err(SetupError::CriticalDependencyMissing { package, detail }) => {
                assert_eq!(package, "surely-absent-critical");
                assert!(!detail.is_empty());
            }
            _ => panic!("expected the critical failure"),
        }

        // the batch check passes on importable packages
        assert!(verify_imports(py, "sys", &vec!["json".to_string(), "os".to_string()]).is_ok());

        // a search-path entry is appended once and found thereafter
        assert_eq!(ensure_search_path(py, "/tmp/py-provision-probe"), Ok(true));
        assert_eq!(ensure_search_path(py, "/tmp/py-provision-probe"), Ok(false));
    });
}
