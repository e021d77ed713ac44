use bb::{AppBuilder, AppSource, BuildError, MarkerBuilder, ScriptedBuilder};

fn snapshot(entries: &[&str]) -> AppSource {
    AppSource {
        source: String::from("./demo"),
        paths: entries.iter().map(|e| e.to_string()).collect(),
    }
}

fn marker(name: &str, marker: &str) -> MarkerBuilder {
    MarkerBuilder {
        name: name.to_string(),
        marker: marker.to_string(),
        inputs: vec!["nodejs".to_string()],
        install: Some("npm i".to_string()),
        build: None,
        start: Some("npm start".to_string()),
    }
}

fn scripted(name: &str, recognizes: bool) -> ScriptedBuilder {
    ScriptedBuilder {
        name: name.to_string(),
        recognizes,
        inputs: vec![],
        install: None,
        build: None,
        start: None,
        fail_detect: None,
        fail_inputs: None,
        fail_install: None,
        fail_build: None,
        fail_start: None,
    }
}

fn request(entries: &[&str], start: Option<&str>) -> AppBuilder<MarkerBuilder> {
    AppBuilder::new(
        None,
        "./demo".to_string(),
        entries.iter().map(|e| e.to_string()).collect(),
        None,
        start.map(|s| s.to_string()),
        vec![],
    )
}

#[test]
fn includes_file_exact_match() {
    let s = snapshot(&["./demo/package.json", "./demo/src"]);
    assert!(s.includes_file("package.json"));
    assert!(s.includes_file("src"));
}

#[test]
fn includes_file_partial_match_is_false() {
    let s = snapshot(&["./demo/package.json"]);
    assert!(!s.includes_file("package"));
    assert!(!s.includes_file("ackage.json"));
    assert!(!s.includes_file("package.json.bak"));
}

#[test]
fn includes_file_is_case_sensitive() {
    let s = snapshot(&["./demo/Package.json"]);
    assert!(!s.includes_file("package.json"));
    assert!(s.includes_file("Package.json"));
}

#[test]
fn includes_file_empty_listing() {
    let s = snapshot(&[]);
    assert!(!s.includes_file("package.json"));
}

#[test]
fn includes_file_bare_entry_name() {
    let s = snapshot(&["package.json"]);
    assert!(s.includes_file("package.json"));
}

#[test]
fn includes_file_name_with_separator_never_matches() {
    let s = snapshot(&["./demo/package.json"]);
    assert!(!s.includes_file("demo/package.json"));
    assert!(!s.includes_file("./demo/package.json"));
}

#[test]
fn includes_file_does_not_descend() {
    let s = snapshot(&["./demo/src"]);
    assert!(!s.includes_file("package.json"));
}

#[test]
fn detect_first_match_wins() {
    let mut b = request(&["./demo/package.json", "./demo/Cargo.toml"], None);
    let builders = vec![marker("first", "package.json"), marker("second", "Cargo.toml")];
    assert!(b.detect(builders).is_ok());
    assert_eq!(b.builder.as_ref().unwrap().name, "first");
}

#[test]
fn detect_order_is_caller_controlled() {
    let mut b = request(&["./demo/package.json", "./demo/Cargo.toml"], None);
    let builders = vec![marker("second", "Cargo.toml"), marker("first", "package.json")];
    assert!(b.detect(builders).is_ok());
    assert_eq!(b.builder.as_ref().unwrap().name, "second");
}

#[test]
fn detect_no_match_without_override_fails() {
    let mut b = request(&[], None);
    let r = b.detect(vec![marker("npm", "package.json")]);
    assert!(matches!(r, Err(BuildError::NoBuilderMatched)));
    assert!(b.builder.is_none());
}

#[test]
fn detect_empty_builder_list_without_override_fails() {
    let mut b = request(&[], None);
    let r = b.detect(vec![]);
    assert!(matches!(r, Err(BuildError::NoBuilderMatched)));
    assert!(b.builder.is_none());
}

#[test]
fn detect_empty_builder_list_with_override_succeeds() {
    let mut b = request(&[], Some("./run.sh"));
    assert!(b.detect(vec![]).is_ok());
    assert!(b.builder.is_none());
}

#[test]
fn detect_no_match_with_override_succeeds() {
    let mut b = request(&[], Some("./run.sh"));
    let r = b.detect(vec![marker("npm", "package.json")]);
    assert!(r.is_ok());
    assert!(b.builder.is_none());
}

#[test]
fn detect_failure_aborts_detection() {
    let mut b: AppBuilder<ScriptedBuilder> =
        AppBuilder::new(None, "./demo".to_string(), vec![], None, None, vec![]);
    let mut failing = scripted("flaky", false);
    failing.fail_detect = Some("marker unreadable".to_string());
    let r = b.detect(vec![failing, scripted("sure", true)]);
    assert!(matches!(r, Err(BuildError::DetectFailed { .. })));
    assert!(b.builder.is_none());
}

#[test]
fn detect_failure_aborts_even_late_in_the_list() {
    let mut b: AppBuilder<ScriptedBuilder> =
        AppBuilder::new(None, "./demo".to_string(), vec![], None, Some("./run.sh".to_string()), vec![]);
    let mut failing = scripted("flaky", false);
    failing.fail_detect = Some("marker unreadable".to_string());
    let r = b.detect(vec![scripted("quiet", false), failing]);
    assert!(matches!(r, Err(BuildError::DetectFailed { .. })));
}

#[test]
fn detect_stops_before_later_builders() {
    let mut b: AppBuilder<ScriptedBuilder> =
        AppBuilder::new(None, "./demo".to_string(), vec![], None, None, vec![]);
    let mut failing = scripted("flaky", false);
    failing.fail_detect = Some("marker unreadable".to_string());
    let r = b.detect(vec![scripted("sure", true), failing]);
    assert!(r.is_ok());
    assert_eq!(b.builder.as_ref().unwrap().name, "sure");
}
