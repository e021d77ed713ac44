use bb::{AppBuilder, MarkerBuilder};

fn request(name: Option<&str>) -> AppBuilder<MarkerBuilder> {
    AppBuilder::new(
        name.map(|n| n.to_string()),
        "./demo".to_string(),
        vec!["./demo/package.json".to_string()],
        None,
        Some("./run.sh".to_string()),
        vec!["ripgrep".to_string()],
    )
}

fn npm_builder() -> MarkerBuilder {
    MarkerBuilder {
        name: "npm".to_string(),
        marker: "package.json".to_string(),
        inputs: vec!["nodejs".to_string()],
        install: Some("npm i".to_string()),
        build: None,
        start: Some("npm start".to_string()),
    }
}

#[test]
fn plan_twice_same_artifacts_distinct_workspaces() {
    let mut b = request(None);
    b.detect(vec![npm_builder()]).unwrap();
    let p1 = b.plan().unwrap();
    let p2 = b.plan().unwrap();
    assert_eq!(p1.nix_text, p2.nix_text);
    assert_eq!(p1.dockerfile_text, p2.dockerfile_text);
    assert_ne!(p1.workspace_dir, p2.workspace_dir);
}

#[test]
fn plan_workspace_sits_under_staging_root() {
    let b = request(None);
    let p = b.plan().unwrap();
    assert!(p.workspace_dir.starts_with("./tmp/"));
    // a fresh 128-bit identifier rendered in hyphenated form
    assert_eq!(p.workspace_dir.len(), "./tmp/".len() + 36);
}

#[test]
fn plan_tag_prefers_the_given_name() {
    let b = request(Some("myapp"));
    let p = b.plan().unwrap();
    assert_eq!(p.image_tag, "myapp");
    assert_eq!(p.run_command, "docker run myapp");
}

#[test]
fn plan_tag_falls_back_to_workspace_identifier() {
    let b = request(None);
    let p = b.plan().unwrap();
    assert_eq!(p.workspace_dir, format!("./tmp/{}", p.image_tag));
    assert_eq!(p.run_command, format!("docker run {}", p.image_tag));
}

#[test]
fn plan_carries_both_artifacts_and_the_source() {
    let mut b = request(None);
    b.detect(vec![npm_builder()]).unwrap();
    let p = b.plan().unwrap();
    assert_eq!(p.source_dir, "./demo");
    assert_eq!(p.nix_text, "with import <nixpkgs> { }; [ pkgs.nodejs pkgs.ripgrep ]\n");
    assert!(p.dockerfile_text.contains("# Install\nRUN npm i\n"));
    assert!(p.dockerfile_text.contains("# Start\nCMD ./run.sh\n"));
}

#[test]
fn plan_without_builder_succeeds() {
    let b: AppBuilder<MarkerBuilder> = AppBuilder::new(
        None,
        "./demo".to_string(),
        vec![],
        None,
        Some("./run.sh".to_string()),
        vec![],
    );
    let p = b.plan().unwrap();
    assert_eq!(p.nix_text, "with import <nixpkgs> { }; [  ]\n");
    assert!(p.dockerfile_text.contains("# Install\nRUN \n"));
}
