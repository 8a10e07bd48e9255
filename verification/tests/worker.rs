use golem_cli::cloud::AccountId;
use golem_cli::command_handler::worker::{
    bearer_authorization, cursor_usable, listing_page_size, next_listing_step,
    scan_cursor_to_string, websocket_scheme, worker_connect_path_segments,
    invocation_error_lines, log_redeploy_step, log_redeploy_workers_start, log_update_trigger,
    log_update_workers_start, update_attempts, RedeployStep,
    worker_name_check_line, worker_name_error_lines, ListingStep, ScanCursor,
};
use golem_cli::log::LogState;
use golem_cli::model::WorkerUpdateMode;
use golem_cli::command_handler::worker::{
    match_qualified_worker, match_worker_in_current_dir, parse_worker_name,
    new_worker_name, parse_worker_name_v1_2, plan_invocation, resolve_idempotency_key,
    revert_target, ComponentNameMatchKind, InvocationCall, InvocationError, NewWorkerError,
    RevertTarget, WorkerNameError, WorkerNameMatch, WorkerNameMatchError, WorkerNamePart,
    WorkerNameSegments,
};

fn is_uuid(s: &str) -> bool {
    s.len() == 36
        && s.chars().enumerate().all(|(i, c)| {
            if i == 8 || i == 13 || i == 18 || i == 23 {
                c == '-'
            } else {
                c.is_ascii_digit() || ('a'..='f').contains(&c)
            }
        })
}

fn names(v: &[&str]) -> Vec<String> {
    v.iter().map(|s| s.to_string()).collect()
}

#[test]
fn worker_name_without_slash_is_worker_only() {
    match parse_worker_name("my-worker") {
        Ok(WorkerNameSegments::WorkerOnly { worker_name }) => assert_eq!(worker_name, "my-worker"),
        _ => panic!("expected a bare worker name"),
    }
}

#[test]
fn worker_name_with_all_four_parts() {
    match parse_worker_name("acc/proj/ns:comp/w1") {
        Ok(WorkerNameSegments::Qualified { account_id, project_name, component_name, worker_name }) => {
            assert_eq!(account_id.unwrap().0, "acc");
            assert_eq!(project_name.unwrap(), "proj");
            assert_eq!(component_name, "ns:comp");
            assert_eq!(worker_name, "w1");
        }
        _ => panic!("expected a qualified name"),
    }
}

#[test]
fn worker_name_with_component_and_project() {
    match parse_worker_name("proj/comp/w") {
        Ok(WorkerNameSegments::Qualified { account_id, project_name, component_name, worker_name }) => {
            assert!(account_id.is_none());
            assert_eq!(project_name.unwrap(), "proj");
            assert_eq!(component_name, "comp");
            assert_eq!(worker_name, "w");
        }
        _ => panic!("expected a qualified name"),
    }
    match parse_worker_name("comp/w") {
        Ok(WorkerNameSegments::Qualified { account_id, project_name, component_name, worker_name }) => {
            assert!(account_id.is_none());
            assert!(project_name.is_none());
            assert_eq!(component_name, "comp");
            assert_eq!(worker_name, "w");
        }
        _ => panic!("expected a qualified name"),
    }
}

#[test]
fn worker_name_missing_parts_are_reported() {
    let missing = |name: &str| match parse_worker_name(name) {
        Err(WorkerNameError::MissingPart { part }) => Some(part),
        _ => None,
    };
    assert_eq!(missing("/w"), Some(WorkerNamePart::Component));
    assert_eq!(missing("c/"), Some(WorkerNamePart::Component));
    assert_eq!(missing("/c/w"), Some(WorkerNamePart::Project));
    assert_eq!(missing("p//w"), Some(WorkerNamePart::Component));
    assert_eq!(missing("/p/c/w"), Some(WorkerNamePart::Account));
    assert_eq!(missing("a//c/w"), Some(WorkerNamePart::Project));
    assert_eq!(missing("a/p//w"), Some(WorkerNamePart::Component));
    assert_eq!(missing("a/p/c/"), Some(WorkerNamePart::Worker));
}

#[test]
fn worker_name_with_too_many_parts_is_unparsable() {
    assert!(matches!(parse_worker_name("a/b/c/d/e"), Err(WorkerNameError::Unparsable)));
}

#[test]
fn bare_worker_name_uses_the_single_selected_component() {
    let selected = names(&["ns:comp"]);
    match match_worker_in_current_dir("w1", Some(&selected)) {
        Ok(m) => {
            assert_eq!(m.component_name, "ns:comp");
            assert_eq!(m.component_name_match_kind, ComponentNameMatchKind::AppCurrentDir);
            assert_eq!(m.worker_name.as_deref(), Some("w1"));
        }
        _ => panic!("expected a match"),
    }
    match match_worker_in_current_dir("-", Some(&selected)) {
        Ok(m) => assert!(m.worker_name.is_none()),
        _ => panic!("expected a match"),
    }
}

#[test]
fn bare_worker_name_outside_application_or_with_many_components_fails() {
    assert!(matches!(
        match_worker_in_current_dir("w1", None),
        Err(WorkerNameMatchError::NoApplication)
    ));
    let selected = names(&["a", "b"]);
    match match_worker_in_current_dir("w1", Some(&selected)) {
        Err(WorkerNameMatchError::NotExactlyOneComponentSelected { selected }) => {
            assert_eq!(selected, names(&["a", "b"]))
        }
        _ => panic!("expected an error"),
    }
}

#[test]
fn qualified_worker_component_found_by_fuzzy_name() {
    let app = names(&["shop:cart", "shop:inventory"]);
    match match_qualified_worker(None, None, "cart".to_string(), "w".to_string(), Some(&app)) {
        Ok(m) => {
            assert_eq!(m.component_name, "shop:cart");
            assert_eq!(m.component_name_match_kind, ComponentNameMatchKind::App);
        }
        _ => panic!("expected a match"),
    }
}

#[test]
fn qualified_worker_unknown_component_taken_as_given() {
    let app = names(&["shop:cart"]);
    match match_qualified_worker(
        Some(AccountId("acc".to_string())),
        Some("p".to_string()),
        "other:thing".to_string(),
        "-".to_string(),
        Some(&app),
    ) {
        Ok(m) => {
            assert_eq!(m.component_name, "other:thing");
            assert_eq!(m.component_name_match_kind, ComponentNameMatchKind::Unknown);
            assert_eq!(m.account_id.unwrap().0, "acc");
            assert_eq!(m.project_name.unwrap(), "p");
            assert!(m.worker_name.is_none());
        }
        _ => panic!("expected a match"),
    }
    match match_qualified_worker(None, None, "x".to_string(), "w".to_string(), None) {
        Ok(m) => assert_eq!(m.component_name_match_kind, ComponentNameMatchKind::Unknown),
        _ => panic!("expected a match"),
    }
}

#[test]
fn qualified_worker_ambiguous_component() {
    let app = names(&["shop:cart-a", "shop:cart-b"]);
    match match_qualified_worker(None, None, "cart".to_string(), "w".to_string(), Some(&app)) {
        Err(WorkerNameMatchError::AmbiguousComponentName { highlighted_options }) => {
            assert_eq!(highlighted_options.len(), 2)
        }
        _ => panic!("expected an ambiguous component name"),
    }
}

#[test]
fn worker_name_of_earlier_handler() {
    match parse_worker_name_v1_2("comp/w") {
        Ok(WorkerNameSegments::Qualified { component_name, worker_name, .. }) => {
            assert_eq!(component_name, "comp");
            assert_eq!(worker_name, "w");
        }
        _ => panic!("expected a qualified name"),
    }
    assert!(matches!(
        parse_worker_name_v1_2("comp/"),
        Err(WorkerNameError::MissingPart { part: WorkerNamePart::Component })
    ));
    assert!(matches!(parse_worker_name_v1_2("a/b/c/d/e"), Err(WorkerNameError::Unparsable)));
}

fn worker(named: Option<&str>) -> WorkerNameMatch {
    WorkerNameMatch {
        account_id: None,
        project_name: None,
        component_name_match_kind: ComponentNameMatchKind::App,
        component_name: "shop:cart".to_string(),
        worker_name: named.map(|s| s.to_string()),
    }
}

#[test]
fn invocation_uses_requested_idempotency_key() {
    let functions = names(&["shop:cart/api.{add-item}", "shop:cart/api.{checkout}"]);
    let plan = plan_invocation(
        &worker(Some("w1")),
        &functions,
        "checkout",
        false,
        Some("key-1".to_string()),
        true,
    );
    match plan {
        Ok(p) => {
            assert_eq!(p.idempotency_key, "key-1");
            assert!(!p.idempotency_key_generated);
            assert_eq!(p.function_name, "shop:cart/api.{checkout}");
            assert_eq!(p.call, InvocationCall::AwaitNamed);
            assert!(p.connect_stream);
        }
        Err(_) => panic!("expected a plan"),
    }
}

#[test]
fn invocation_generates_key_for_dash_or_none() {
    let functions = names(&["f"]);
    for requested in [Some("-".to_string()), None] {
        match plan_invocation(&worker(None), &functions, "f", true, requested, true) {
            Ok(p) => {
                assert!(is_uuid(&p.idempotency_key));
                assert!(p.idempotency_key_generated);
                assert_eq!(p.call, InvocationCall::EnqueueUnnamed);
                assert!(!p.connect_stream);
            }
            Err(_) => panic!("expected a plan"),
        }
    }
}

#[test]
fn invocation_with_unknown_or_ambiguous_function_fails() {
    let functions = names(&["api.{get-a}", "api.{get-b}"]);
    assert!(matches!(
        plan_invocation(&worker(Some("w")), &functions, "zzz", false, None, false),
        Err(InvocationError::FunctionNotFound)
    ));
    match plan_invocation(&worker(Some("w")), &functions, "get", false, None, false) {
        Err(InvocationError::AmbiguousFunctionName { highlighted_options }) => {
            assert_eq!(highlighted_options.len(), 2)
        }
        _ => panic!("expected an ambiguous function name"),
    }
}

#[test]
fn revert_prefers_oplog_index() {
    assert_eq!(revert_target(Some(5), Some(2)).ok(), Some(RevertTarget::ToOplogIndex(5)));
    assert_eq!(revert_target(None, Some(2)).ok(), Some(RevertTarget::LastInvocations(2)));
    assert!(revert_target(None, None).is_err());
}

#[test]
fn idempotency_key_resolution() {
    assert_eq!(resolve_idempotency_key(Some("k".to_string())), ("k".to_string(), false));
    let (key, generated) = resolve_idempotency_key(Some("-".to_string()));
    assert!(generated && is_uuid(&key));
    let (other, generated) = resolve_idempotency_key(None);
    assert!(generated && is_uuid(&other));
    assert_ne!(key, other);
}

#[test]
fn new_worker_names() {
    assert_eq!(new_worker_name(&worker(Some("w1")), false), Ok("w1".to_string()));
    assert_eq!(
        new_worker_name(&worker(Some("w1")), true),
        Err(NewWorkerError::ExplicitNameForEphemeralWorker)
    );
    let generated = new_worker_name(&worker(None), true).unwrap();
    assert!(is_uuid(&generated));
}

#[test]
fn worker_listing_pagination() {
    let c = ScanCursor { layer: 2, cursor: 150 };
    assert_eq!(scan_cursor_to_string(&c), "2/150");
    assert_eq!(listing_page_size(Some(10), 50), 10);
    assert_eq!(listing_page_size(None, 50), 50);
    assert!(matches!(next_listing_step(None, Some(c)), ListingStep::Next { cursor } if cursor == "2/150"));
    assert!(matches!(next_listing_step(Some(5), Some(c)), ListingStep::Done { cursor: Some(d) } if d == c));
    assert!(matches!(next_listing_step(None, None), ListingStep::Done { cursor: None }));
    assert!(cursor_usable(false, 3));
    assert!(cursor_usable(true, 1));
    assert!(!cursor_usable(true, 2));
}

#[test]
fn worker_connection_request() {
    assert_eq!(websocket_scheme("http"), "ws");
    assert_eq!(websocket_scheme("https"), "wss");
    assert_eq!(
        worker_connect_path_segments("c-1", "w-1"),
        strings_of(&["v1", "components", "c-1", "workers", "w-1", "connect"])
    );
    assert_eq!(bearer_authorization("tok"), "Bearer tok");
}

fn strings_of(v: &[&str]) -> Vec<String> {
    v.iter().map(|s| s.to_string()).collect()
}

fn plain(s: &str) -> String {
    let mut out = String::new();
    let mut chars = s.chars().peekable();
    while let Some(c) = chars.next() {
        if c == '\x1b' {
            for d in chars.by_ref() {
                if d == 'm' {
                    break;
                }
            }
        } else {
            out.push(c);
        }
    }
    out
}

#[test]
fn worker_name_check_lines() {
    assert_eq!(
        plain(&worker_name_check_line(&worker(Some("w1")))),
        "[ok] component name: shop:cart / worker_name: w1, component was selected from current application"
    );
    let mut m = worker(None);
    m.component_name_match_kind = ComponentNameMatchKind::Unknown;
    assert_eq!(
        plain(&worker_name_check_line(&m)),
        "[ok] component name: shop:cart / worker_name: -, "
    );
}

#[test]
fn worker_name_error_messages() {
    use_lines(
        worker_name_error_lines(
            &WorkerNameMatchError::InvalidName(WorkerNameError::MissingPart { part: WorkerNamePart::Project }),
            "/c/w",
            "c",
        ),
        &["error: Missing project part in worker name!", ""],
    );
    use_lines(
        worker_name_error_lines(&WorkerNameMatchError::InvalidName(WorkerNameError::Unparsable), "a/b/c/d/e", "d"),
        &["", "error: Failed to parse worker name: a/b/c/d/e", ""],
    );
    use_lines(
        worker_name_error_lines(&WorkerNameMatchError::NoApplication, "w", ""),
        &[
            "",
            "error: Cannot infer the component name for the worker as the current directory is not part of an application.",
            "",
            "Switch to an application directory or specify the full component name as part of the worker name!",
            "",
        ],
    );
    use_lines(
        worker_name_error_lines(
            &WorkerNameMatchError::NotExactlyOneComponentSelected { selected: strings_of(&["a", "b"]) },
            "w",
            "",
        ),
        &[
            "",
            "error: Multiple components were selected based on the current directory: a, b",
            "",
            "Switch to a different directory with only one component or specify the full or partial component name as part of the worker name!",
            "",
        ],
    );
    use_lines(
        worker_name_error_lines(
            &WorkerNameMatchError::AmbiguousComponentName { highlighted_options: strings_of(&["x:a", "x:b"]) },
            "x/w",
            "x",
        ),
        &[
            "",
            "error: The requested application component name (x) is ambiguous.",
            "",
            "Did you mean one of",
            " - x:a",
            " - x:b",
            "?",
            "",
        ],
    );
}

fn use_lines(lines: Vec<String>, expected: &[&str]) {
    let shown: Vec<String> = lines.iter().map(|l| plain(l)).collect();
    assert_eq!(shown, strings_of(expected));
}

#[test]
fn invocation_error_messages() {
    use_lines(
        invocation_error_lines(&InvocationError::FunctionNotFound, "zzz"),
        &["", "error: The requested function name (zzz) was not found.", ""],
    );
    use_lines(
        invocation_error_lines(
            &InvocationError::AmbiguousFunctionName { highlighted_options: strings_of(&["get-a", "get-b"]) },
            "get",
        ),
        &[
            "",
            "error: The requested function name (get) is ambiguous.",
            "",
            "Did you mean one of",
            " - get-a",
            " - get-b",
            "?",
            "",
        ],
    );
}

#[test]
fn update_attempts_record_each_worker_in_order() {
    let outcomes = vec![
        ("w1".to_string(), None),
        ("w2".to_string(), Some("unavailable".to_string())),
    ];
    let result = update_attempts("shop", 3, &outcomes);
    assert_eq!(result.triggered.len(), 2);
    assert_eq!(result.triggered[0].component_name, "shop");
    assert_eq!(result.triggered[0].target_version, 3);
    assert_eq!(result.triggered[0].worker_name, "w1");
    assert!(result.triggered[0].error.is_none());
    assert_eq!(result.triggered[1].worker_name, "w2");
    assert_eq!(result.triggered[1].error.as_deref(), Some("unavailable"));
    assert!(update_attempts("shop", 3, &vec![]).triggered.is_empty());
}

#[test]
fn starting_to_update_workers_is_logged() {
    let mut state = LogState::new(None);
    let skipped = log_update_workers_start(&mut state, "shop", 0, 2);
    assert_eq!(
        skipped.iter().map(|l| plain(l)).collect::<Vec<_>>(),
        vec!["Skipping updating workers for component shop, no workers found"]
    );
    let started = log_update_workers_start(&mut state, "shop", 12, 7);
    assert_eq!(
        started.iter().map(|l| plain(l)).collect::<Vec<_>>(),
        vec!["Updating all workers (12) for component shop to version 7"]
    );
}

#[test]
fn triggering_a_worker_update_is_logged() {
    let mut state = LogState::new(None);
    let lines = log_update_trigger(&mut state, "shop", "cart-1", 4, WorkerUpdateMode::Manual);
    assert_eq!(
        lines.iter().map(|l| plain(l)).collect::<Vec<_>>(),
        vec!["Triggering update for worker shop/cart-1 to version 4 using manual update mode"]
    );
    assert_eq!(WorkerUpdateMode::Automatic.as_str(), "auto");
}

#[test]
fn redeploying_workers_is_logged() {
    let mut state = LogState::new(None);
    let texts = |lines: Vec<String>| lines.iter().map(|l| plain(l)).collect::<Vec<_>>();
    assert_eq!(
        texts(log_redeploy_workers_start(&mut state, "shop", 0)),
        vec!["Skipping redeploying workers for component shop, no workers found"]
    );
    assert_eq!(
        texts(log_redeploy_workers_start(&mut state, "shop", 2)),
        vec!["Redeploying all workers (2) for component shop"]
    );
    assert_eq!(
        texts(log_redeploy_step(&mut state, RedeployStep::Start, "shop", "cart")),
        vec!["Redeploying worker shop/cart to latest version"]
    );
    assert_eq!(
        texts(log_redeploy_step(&mut state, RedeployStep::Delete, "shop", "cart")),
        vec!["Deleting worker shop/cart"]
    );
    assert_eq!(
        texts(log_redeploy_step(&mut state, RedeployStep::Deleted, "shop", "cart")),
        vec!["Deleted worker"]
    );
    assert_eq!(
        texts(log_redeploy_step(&mut state, RedeployStep::Recreate, "shop", "cart")),
        vec!["Recreating worker shop/cart"]
    );
}
