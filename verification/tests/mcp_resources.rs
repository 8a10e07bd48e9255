use golem_cli::command_handler::mcp_server::handler::{manifest_resource, manifest_resource_for};

#[test]
fn the_app_manifest_is_a_resource() {
    let r = manifest_resource_for("golem.yaml", "./golem.yaml", Some("."), ".", Some(120)).unwrap();
    assert_eq!(r.uri, "./golem.yaml");
    assert_eq!(r.name, "golem app manifest");
    assert_eq!(r.description, "Manifest file for entire golem app");
    assert_eq!(r.size, Some(120));
    assert!(manifest_resource_for("golem.json", "./golem.json", None, ".", None).is_some());
}

#[test]
fn component_manifests_are_resources() {
    let r = manifest_resource_for(
        "components-ts/shop/golem.yaml",
        "./components-ts/shop/golem.yaml",
        Some("shop"),
        "./components-ts/shop",
        None,
    )
    .unwrap();
    assert_eq!(r.name, "shop");
    assert_eq!(r.description, "Manifest file for Component - ./components-ts/shop");
}

#[test]
fn other_files_are_no_resources() {
    assert!(manifest_resource_for("components-ts/golem.yaml", "x", None, ".", None).is_none());
    assert!(manifest_resource_for("src/golem.yaml", "x", None, ".", None).is_none());
    assert!(manifest_resource_for("golem.yml", "x", None, ".", None).is_none());
    assert!(manifest_resource_for("golem.yaml.bak", "x", None, ".", None).is_none());
}

#[test]
fn resources_follow_the_match_results() {
    assert!(manifest_resource("x", None, ".", None, false, false).is_none());
    let r = manifest_resource("x", None, "dir", None, false, true).unwrap();
    assert_eq!(r.name, "");
    assert_eq!(r.description, "Manifest file for Component - dir");
}
