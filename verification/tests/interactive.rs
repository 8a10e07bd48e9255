use golem_cli::app::build::task_result_marker::DependencyType;
use golem_cli::command_handler::cloud::project::ProfileKind;
use golem_cli::command_handler::interactive::{
    choose_component, choose_dependency_type, choose_target_component, dependency_types_for,
    validate_component_type_for_dependency_type, AppComponentType, DependencyWizardError,
    WizardStep,
};
use golem_cli::command_handler::interactive::{
    auto_confirm, confirm_answer, confirm_auto_deploy_component_question,
    confirm_delete_account_question, confirm_redeploy_workers_question,
    is_interactive_not_available, PromptError,
};
use golem_cli::log::LogState;

fn plain(s: &str) -> String {
    let mut out = String::new();
    let mut chars = s.chars();
    while let Some(c) = chars.next() {
        if c == '\x1b' {
            for d in chars.by_ref() {
                if d == 'm' {
                    break;
                }
            }
        } else {
            out.push(c);
        }
    }
    out
}

fn strings(v: &[&str]) -> Vec<String> {
    v.iter().map(|s| s.to_string()).collect()
}

#[test]
fn dependency_type_compatibility() {
    let check = validate_component_type_for_dependency_type;
    assert!(check(DependencyType::DynamicWasmRpc, AppComponentType::Durable));
    assert!(check(DependencyType::StaticWasmRpc, AppComponentType::Ephemeral));
    assert!(!check(DependencyType::DynamicWasmRpc, AppComponentType::Library));
    assert!(check(DependencyType::Wasm, AppComponentType::Library));
    assert!(!check(DependencyType::Wasm, AppComponentType::Durable));
}

#[test]
fn offered_and_valid_dependency_types() {
    let (offered, valid) = dependency_types_for(AppComponentType::Durable);
    assert_eq!(offered, vec![DependencyType::DynamicWasmRpc, DependencyType::Wasm]);
    assert_eq!(
        valid,
        vec![DependencyType::DynamicWasmRpc, DependencyType::StaticWasmRpc, DependencyType::Wasm]
    );
    let (offered, valid) = dependency_types_for(AppComponentType::Library);
    assert_eq!(offered, vec![DependencyType::Wasm]);
    assert_eq!(valid, vec![DependencyType::Wasm]);
}

#[test]
fn wizard_component_choice() {
    let names = strings(&["app:a", "app:b"]);
    assert!(matches!(
        choose_component(Some("app:a".to_string()), &names),
        Ok(WizardStep::Chosen(c)) if c == "app:a"
    ));
    assert!(matches!(
        choose_component(Some("app:x".to_string()), &names),
        Err(DependencyWizardError::ComponentNotFound)
    ));
    assert!(matches!(choose_component(None, &names), Ok(WizardStep::Select(o)) if o == names));
    assert!(matches!(choose_component(None, &vec![]), Err(DependencyWizardError::NoComponents)));
}

#[test]
fn wizard_dependency_type_choice() {
    assert!(matches!(
        choose_dependency_type(Some(DependencyType::StaticWasmRpc), AppComponentType::Durable),
        Ok(WizardStep::Chosen(DependencyType::StaticWasmRpc))
    ));
    assert!(matches!(
        choose_dependency_type(Some(DependencyType::DynamicWasmRpc), AppComponentType::Library),
        Err(DependencyWizardError::InvalidDependencyType)
    ));
    assert!(matches!(
        choose_dependency_type(None, AppComponentType::Library),
        Ok(WizardStep::Select(o)) if o == vec![DependencyType::Wasm]
    ));
}

#[test]
fn wizard_target_component_choice() {
    let components = vec![
        ("app:lib".to_string(), AppComponentType::Library),
        ("app:svc".to_string(), AppComponentType::Durable),
        ("app:eph".to_string(), AppComponentType::Ephemeral),
    ];
    assert!(matches!(
        choose_target_component(None, DependencyType::DynamicWasmRpc, &components),
        Ok((WizardStep::Select(o), true)) if o == strings(&["app:svc", "app:eph"])
    ));
    assert!(matches!(
        choose_target_component(
            Some("app:lib".to_string()),
            DependencyType::DynamicWasmRpc,
            &components
        ),
        Ok((WizardStep::Chosen(c), false)) if c == "app:lib"
    ));
    assert!(matches!(
        choose_target_component(Some("app:svc".to_string()), DependencyType::DynamicWasmRpc, &components),
        Ok((WizardStep::Chosen(c), true)) if c == "app:svc"
    ));
    assert!(matches!(
        choose_target_component(Some("app:none".to_string()), DependencyType::Wasm, &components),
        Err(DependencyWizardError::TargetComponentNotFound)
    ));
    let only_services = vec![("app:svc".to_string(), AppComponentType::Durable)];
    assert!(matches!(
        choose_target_component(None, DependencyType::Wasm, &only_services),
        Err(DependencyWizardError::NoTargetComponents)
    ));
}

#[test]
fn new_profile_names_and_profiles() {

    assert!(golem_cli::command_handler::interactive::validate_new_profile_name("dev").is_ok());
    assert_eq!(
        golem_cli::command_handler::interactive::validate_new_profile_name("cloud"),
        Err("The requested profile name is a builtin one, please choose another name!")
    );
    assert!(golem_cli::command_handler::interactive::validate_new_profile_name("local").is_err());
    let oss = golem_cli::command_handler::interactive::new_profile(
        ProfileKind::Oss,
        "http://localhost:9881".to_string(),
        None,
        Some("ignored".to_string()),
        golem_cli::config::Format::Json,
    );
    match oss {
        golem_cli::config::Profile::Golem(p) => {
            assert_eq!(p.url, "http://localhost:9881");
            assert!(p.worker_url.is_none());
            assert_eq!(p.config.default_format, golem_cli::config::Format::Json);
        }
        _ => panic!("expected a local profile"),
    }
    let cloud = golem_cli::command_handler::interactive::new_profile(
        ProfileKind::Cloud,
        "https://c".to_string(),
        Some("https://w".to_string()),
        Some("https://cl".to_string()),
        golem_cli::config::Format::Text,
    );
    match cloud {
        golem_cli::config::Profile::GolemCloud(p) => {
            assert_eq!(p.custom_url.as_deref(), Some("https://c"));
            assert_eq!(p.custom_cloud_url.as_deref(), Some("https://cl"));
            assert_eq!(p.custom_worker_url.as_deref(), Some("https://w"));
            assert!(p.auth.is_none());
        }
        _ => panic!("expected a cloud profile"),
    }
}

#[test]
fn prompts_without_a_terminal_are_not_interactive() {
    assert!(is_interactive_not_available(&PromptError::NotTty));
    assert!(is_interactive_not_available(&PromptError::Io("stdin closed".to_string())));
    assert!(!is_interactive_not_available(&PromptError::OperationCanceled));
    assert!(!is_interactive_not_available(&PromptError::OperationInterrupted));
    assert!(!is_interactive_not_available(&PromptError::Custom("x".to_string())));
    assert!(!is_interactive_not_available(&PromptError::InvalidConfiguration("x".to_string())));
}

#[test]
fn questions_are_auto_confirmed_with_yes() {
    let mut state = LogState::new(None);
    let (answer, lines) = auto_confirm(&mut state, true, "Continue?");
    assert_eq!(answer, Some(true));
    assert_eq!(
        lines.iter().map(|l| plain(l)).collect::<Vec<_>>(),
        vec!["Auto confirming question: \"Continue?\""]
    );
    let (answer, lines) = auto_confirm(&mut state, false, "Continue?");
    assert_eq!(answer, None);
    assert!(lines.is_empty());
}

#[test]
fn prompt_answers_are_taken() {
    let mut state = LogState::new(None);
    let (answer, lines) = confirm_answer(&mut state, Ok(true));
    assert!(matches!(answer, Ok(true)));
    assert!(lines.is_empty());
    let (answer, lines) = confirm_answer(&mut state, Err(PromptError::NotTty));
    assert!(matches!(answer, Ok(false)));
    assert_eq!(
        lines.iter().map(|l| plain(l)).collect::<Vec<_>>(),
        vec!["warning: The current input device is not an interactive one,\ndefaulting to \"false\""]
    );
    let (answer, lines) = confirm_answer(&mut state, Err(PromptError::OperationCanceled));
    assert!(matches!(answer, Err(PromptError::OperationCanceled)));
    assert!(lines.is_empty());
}

#[test]
fn confirmation_questions() {
    let (q, default) = confirm_auto_deploy_component_question("shop");
    assert_eq!(
        plain(&q),
        "Component shop was not found between deployed components, do you want to deploy it, then continue?"
    );
    assert!(default);
    let (q, default) = confirm_redeploy_workers_question(3);
    assert_eq!(plain(&q), "Redeploying will delete then recreate 3 worker(s), do you want to continue?");
    assert!(default);
    let (q, default) = confirm_delete_account_question("Ann", "ann@example.com");
    assert_eq!(
        plain(&q),
        "Are you sure you want to delete the requested account? (Ann, ann@example.com)"
    );
    assert!(!default);
}
