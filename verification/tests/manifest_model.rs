use pkgscaffold::errors::GenError;
use pkgscaffold::manifest::ManifestDocument;
use pkgscaffold::templates::cargotoml;

fn skeleton_lines(name: &str) -> Vec<String> {
    cargotoml(name.to_string())
}

#[test]
fn skeleton_has_expected_lines() {
    let lines = skeleton_lines("myapp");
    let expected = vec![
        "[package]",
        "name = \"myapp\"",
        "version = \"0.1.0\"",
        "edition = \"2021\"",
        "",
        "# See more keys and their definitions at https://doc.rust-lang.org/cargo/reference/manifest.html",
        "",
        "[dependencies]",
        "",
    ];
    assert_eq!(lines, expected);
}

#[test]
fn serialize_joins_with_newlines() {
    let doc = ManifestDocument::from_lines(vec![
        "a".to_string(),
        "".to_string(),
        "b".to_string(),
    ]);
    assert_eq!(doc.serialize(), "a\n\nb");
}

#[test]
fn serialize_empty_document() {
    let doc = ManifestDocument::from_lines(Vec::new());
    assert_eq!(doc.serialize(), "");
}

#[test]
fn insert_field_goes_before_first_blank() {
    let mut doc = ManifestDocument::from_lines(skeleton_lines("demo"));
    doc.insert_field("license", "MIT").unwrap();
    let lines = doc.lines();
    assert_eq!(lines.len(), 10);
    assert_eq!(lines[0], "[package]");
    assert_eq!(lines[1], "name = \"demo\"");
    assert_eq!(lines[2], "version = \"0.1.0\"");
    assert_eq!(lines[3], "edition = \"2021\"");
    assert_eq!(lines[4], "license = \"MIT\"");
    assert_eq!(lines[5], "");
    assert_eq!(lines[7], "");
    assert_eq!(lines[8], "[dependencies]");
    assert_eq!(lines[9], "");
}

#[test]
fn insert_field_is_idempotent() {
    let mut doc = ManifestDocument::from_lines(skeleton_lines("demo"));
    doc.insert_field("license", "MIT").unwrap();
    let once: Vec<String> = doc.lines().clone();
    doc.insert_field("license", "MIT").unwrap();
    assert_eq!(doc.lines(), &once);
    let count = doc
        .lines()
        .iter()
        .filter(|l| l.starts_with("license = "))
        .count();
    assert_eq!(count, 1);
}

#[test]
fn insert_field_replaces_existing_value() {
    let mut doc = ManifestDocument::from_lines(skeleton_lines("demo"));
    doc.insert_field("license", "MIT").unwrap();
    doc.insert_field("license", "Apache-2.0").unwrap();
    let lines = doc.lines();
    assert_eq!(lines.len(), 10);
    assert_eq!(lines[4], "license = \"Apache-2.0\"");
    let count = lines.iter().filter(|l| l.starts_with("license = ")).count();
    assert_eq!(count, 1);
}

#[test]
fn insert_field_without_insertion_point_fails() {
    let mut doc = ManifestDocument::from_lines(vec!["[package]".to_string()]);
    let r = doc.insert_field("license", "MIT");
    assert!(matches!(r, Err(GenError::MalformedManifest)));
    assert_eq!(doc.lines().len(), 1);
}

#[test]
fn error_messages_describe_each_failure() {
    assert_eq!(
        GenError::TargetNotEmpty("/tmp/x".to_string()).message(),
        "/tmp/x is not empty"
    );
    assert_eq!(
        GenError::VcsInitFailed("boom".to_string()).message(),
        "failed to initialize repository: boom"
    );
    assert_eq!(GenError::IoError("no luck".to_string()).message(), "no luck");
    assert_eq!(
        GenError::MalformedManifest.message(),
        "manifest has no insertion point"
    );
}
