use golem_cli::command_handler::api::definition::{
    api_definition_deploy_step, manifest_draft, new_version_definition, skip_by_component_filter,
    ApiDefinitionDeployStep, HttpApiDeployMode, ServerApiDefinition,
};

fn strings(v: &[&str]) -> Vec<String> {
    v.iter().map(|s| s.to_string()).collect()
}

#[test]
fn definitions_skipped_without_matching_route() {
    let routes = vec![None, Some("shop:cart".to_string())];
    assert!(!skip_by_component_filter(HttpApiDeployMode::All, &routes, &vec![]));
    assert!(!skip_by_component_filter(HttpApiDeployMode::Matching, &routes, &strings(&["shop:cart"])));
    assert!(skip_by_component_filter(HttpApiDeployMode::Matching, &routes, &strings(&["shop:other"])));
    assert!(skip_by_component_filter(HttpApiDeployMode::Matching, &vec![None], &strings(&["shop:cart"])));
}

#[test]
fn draft_hidden_when_server_has_same_version_deployed() {
    let server = ServerApiDefinition { version: "0.1.0".to_string(), draft: false };
    assert!(!manifest_draft("0.1.0", true, Some(&server)));
    assert!(manifest_draft("0.2.0", true, Some(&server)));
    assert!(manifest_draft("0.1.0", true, None));
    let draft_server = ServerApiDefinition { version: "0.1.0".to_string(), draft: true };
    assert!(manifest_draft("0.1.0", true, Some(&draft_server)));
    assert!(!manifest_draft("0.1.0", false, Some(&draft_server)));
}

#[test]
fn deploy_steps() {
    assert_eq!(api_definition_deploy_step(None, false), ApiDefinitionDeployStep::Create);
    assert_eq!(api_definition_deploy_step(Some(true), true), ApiDefinitionDeployStep::UpToDate);
    assert_eq!(api_definition_deploy_step(Some(true), false), ApiDefinitionDeployStep::Update);
    assert_eq!(
        api_definition_deploy_step(Some(false), false),
        ApiDefinitionDeployStep::NewVersionNeeded
    );
}

#[test]
fn new_version_is_a_draft() {
    assert_eq!(new_version_definition(Some("0.2.0".to_string())).ok(), Some(("0.2.0".to_string(), true)));
    assert!(new_version_definition(None).is_err());
}
