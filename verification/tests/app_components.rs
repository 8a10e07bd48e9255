use golem_cli::command_handler::app::{
    components_not_found_message, custom_command_name, dynamic_linking_targets, find_components,
    log_component_deploy, select_components, ComponentNameLookupError, ComponentSelection,
};
use golem_cli::app::build::task_result_marker::{DependencyType, DependentComponent};
use golem_cli::log::LogState;

fn strings(v: &[&str]) -> Vec<String> {
    v.iter().map(|s| s.to_string()).collect()
}

fn plain(s: &str) -> String {
    let mut out = String::new();
    let mut chars = s.chars().peekable();
    while let Some(c) = chars.next() {
        if c == '\x1b' {
            for d in chars.by_ref() {
                if d == 'm' {
                    break;
                }
            }
        } else {
            out.push(c);
        }
    }
    out
}

#[test]
fn components_found_by_fuzzy_names() {
    let app = strings(&["shop:cart", "shop:inventory", "shop:payment"]);
    let (found, errors) = find_components(&app, &strings(&["cart", "shop:payment"]));
    assert_eq!(found, strings(&["shop:cart", "shop:payment"]));
    assert!(errors.is_empty());
}

#[test]
fn components_not_found_are_reported_in_order() {
    let app = strings(&["shop:cart-a", "shop:cart-b", "shop:inventory"]);
    let (found, errors) = find_components(&app, &strings(&["zzz", "inventory", "cart"]));
    assert_eq!(found, strings(&["shop:inventory"]));
    assert_eq!(errors.len(), 2);
    assert!(matches!(&errors[0], ComponentNameLookupError::NotFound { pattern } if pattern == "zzz"));
    match &errors[1] {
        ComponentNameLookupError::Ambiguous { pattern, highlighted_options } => {
            assert_eq!(pattern, "cart");
            assert_eq!(highlighted_options.len(), 2);
        }
        _ => panic!("expected an ambiguous name"),
    }
    let message = plain(&components_not_found_message(&errors));
    assert!(message.starts_with(
        "The following requested component names were not found:\n  - zzz\n  - cart, did you mean one of "
    ));
    assert!(message.ends_with('?'));
    assert!(message.contains("shop:cart-a") && message.contains("shop:cart-b"));
}

#[test]
fn component_selection_outcomes() {
    let app = strings(&["shop:cart"]);
    assert!(matches!(select_components(None, &strings(&["x"]), false), ComponentSelection::NoApplication));
    assert!(matches!(select_components(Some(&app), &vec![], false), ComponentSelection::Default));
    assert!(matches!(
        select_components(Some(&app), &strings(&["cart"]), false),
        ComponentSelection::Explicit(found) if found == strings(&["shop:cart"])
    ));
    assert!(matches!(
        select_components(Some(&app), &strings(&["nope"]), true),
        ComponentSelection::NotFoundAllowed
    ));
    assert!(matches!(
        select_components(Some(&app), &strings(&["nope"]), false),
        ComponentSelection::NotFound(errors) if errors.len() == 1
    ));
}

#[test]
fn a_custom_command_is_one_word() {
    assert_eq!(custom_command_name(vec!["npm-install".to_string()]), Ok("npm-install".to_string()));
    let err = custom_command_name(vec!["a".to_string(), "b".to_string()]).unwrap_err();
    assert_eq!(plain(&err), "Expected exactly one custom subcommand, got: a b");
    let err = custom_command_name(vec![]).unwrap_err();
    assert_eq!(plain(&err), "Expected exactly one custom subcommand, got: ");
}

#[test]
fn only_dynamic_rpc_dependencies_are_linked_dynamically() {
    let dep = |name: &str, dep_type| DependentComponent { name: name.to_string(), dep_type };
    let deps = vec![
        dep("a", DependencyType::DynamicWasmRpc),
        dep("b", DependencyType::StaticWasmRpc),
        dep("c", DependencyType::Wasm),
        dep("d", DependencyType::DynamicWasmRpc),
    ];
    assert_eq!(dynamic_linking_targets(&deps), Some(vec!["a".to_string(), "d".to_string()]));
    assert_eq!(dynamic_linking_targets(&vec![dep("b", DependencyType::StaticWasmRpc)]), None);
    assert_eq!(dynamic_linking_targets(&vec![]), None);
}

#[test]
fn deployed_components_are_updated_others_created() {
    let mut state = LogState::new(None);
    let lines = log_component_deploy(&mut state, "shop", true);
    assert_eq!(lines.iter().map(|l| plain(l)).collect::<Vec<_>>(), vec!["Updating component shop"]);
    let lines = log_component_deploy(&mut state, "shop", false);
    assert_eq!(lines.iter().map(|l| plain(l)).collect::<Vec<_>>(), vec!["Creating component shop"]);
}
