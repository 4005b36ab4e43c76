use py_provision::manifest::parse_requirements;
use py_provision::version::parse_python_version;

#[test]
fn manifest_mixed_lines() {
    let parsed = parse_requirements("foo==1.2.3\n\nbar>=2\n  \nbaz\n");
    assert_eq!(parsed, vec!["foo".to_string(), "bar".to_string(), "baz".to_string()]);
}

#[test]
fn manifest_comparator_only_line_dropped() {
    let parsed = parse_requirements("==1.0\n");
    assert!(parsed.is_empty());
    let parsed = parse_requirements("foo\n==1.0\nbar\n");
    assert_eq!(parsed, vec!["foo".to_string(), "bar".to_string()]);
}

#[test]
fn manifest_no_trailing_newline() {
    let parsed = parse_requirements("foo==1.2.3");
    assert_eq!(parsed, vec!["foo".to_string()]);
}

#[test]
fn manifest_empty_text() {
    let parsed = parse_requirements("");
    assert!(parsed.is_empty());
}

#[test]
fn manifest_every_delimiter_truncates() {
    let parsed = parse_requirements("a=1\nb>2\nc<3\nd~=4\n");
    assert_eq!(
        parsed,
        vec!["a".to_string(), "b".to_string(), "c".to_string(), "d".to_string()]
    );
}

#[test]
fn manifest_trims_whitespace_around_names() {
    let parsed = parse_requirements("  spaced  ==1.0\n\ttabbed\t\n");
    assert_eq!(parsed, vec!["spaced".to_string(), "tabbed".to_string()]);
}

#[test]
fn manifest_keeps_duplicates_in_order() {
    let parsed = parse_requirements("dup==1\nother\ndup==2\n");
    assert_eq!(
        parsed,
        vec!["dup".to_string(), "other".to_string(), "dup".to_string()]
    );
}

#[test]
fn version_major_minor_extracted() {
    assert_eq!(parse_python_version("Python 3.13.0"), Some("3.13".to_string()));
    assert_eq!(parse_python_version("Python 3.12.1\n"), Some("3.12".to_string()));
}

#[test]
fn version_short_forms() {
    assert_eq!(parse_python_version("Python 3"), Some("3".to_string()));
    assert_eq!(parse_python_version("Python 3.12"), Some("3.12".to_string()));
}

#[test]
fn version_missing_token_rejected() {
    assert_eq!(parse_python_version("Python"), None);
    assert_eq!(parse_python_version(""), None);
    assert_eq!(parse_python_version("   "), None);
}

#[test]
fn version_extra_tokens_ignored() {
    assert_eq!(
        parse_python_version("  Python   3.11.7   extra"),
        Some("3.11".to_string())
    );
}
