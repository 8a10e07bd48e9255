use golem_cli::command::{
    apply_matcher, invalid_arg_matchers, match_invalid_arg, partial_match_for_error,
    to_ascii_uppercase, GolemCliCommandPartialMatch, GolemCliGlobalFlags, ParseErrorKind,
    PartialMatchKind,
};
use golem_cli::config::{EnvVars, ProfileName};
use golem_cli::command_handler::{clamp_exit_code, no_application_manifest_found_lines};
use golem_cli::command_v_1_2;

fn strings(v: &[&str]) -> Vec<String> {
    v.iter().map(|s| s.to_string()).collect()
}

/// The positional argument ids of the subcommands that the matchers select.
fn ids() -> Vec<Vec<String>> {
    vec![
        strings(&["application_name", "language"]),
        strings(&["component_name", "language"]),
        strings(&["worker_name", "function_name", "arguments"]),
        strings(&["worker_name", "function_name", "arguments"]),
    ]
}

#[test]
fn ascii_uppercase() {
    assert_eq!(to_ascii_uppercase("worker_name"), "WORKER_NAME");
    assert_eq!(to_ascii_uppercase("a-Z9"), "A-Z9");
}

#[test]
fn known_command_shapes() {
    let ms = invalid_arg_matchers();
    assert_eq!(ms.len(), 4);
    assert_eq!(ms[0].subcommands, strings(&["app", "new"]));
    assert_eq!(ms[0].missing_positional_arg, "language");
    assert_eq!(ms[3].found_positional_args, strings(&["worker_name"]));
    assert_eq!(ms[3].missing_positional_arg, "function_name");
    assert_eq!(ms[3].to_partial_match, PartialMatchKind::WorkerInvokeMissingFunctionName);
}

#[test]
fn missing_function_name_keeps_worker_name() {
    let r = match_invalid_arg(
        &strings(&["worker", "invoke", "my-worker"]),
        &strings(&["<FUNCTION_NAME>"]),
        &invalid_arg_matchers(),
        &ids(),
    );
    match r {
        Some(GolemCliCommandPartialMatch::WorkerInvokeMissingFunctionName { worker_name }) => {
            assert_eq!(worker_name, "my-worker")
        }
        other => panic!("unexpected {:?}", other),
    }
}

#[test]
fn missing_worker_name_and_language() {
    assert!(matches!(
        match_invalid_arg(
            &strings(&["worker", "invoke"]),
            &strings(&["<WORKER_NAME>", "<FUNCTION_NAME>"]),
            &invalid_arg_matchers(),
            &ids(),
        ),
        Some(GolemCliCommandPartialMatch::WorkerInvokeMissingWorkerName)
    ));
    assert!(matches!(
        match_invalid_arg(
            &strings(&["app", "new", "my-app"]),
            &strings(&["<LANGUAGE>..."]),
            &invalid_arg_matchers(),
            &ids(),
        ),
        Some(GolemCliCommandPartialMatch::AppNewMissingLanguage)
    ));
    assert!(matches!(
        match_invalid_arg(
            &strings(&["component", "new"]),
            &strings(&["<LANGUAGE>"]),
            &invalid_arg_matchers(),
            &ids(),
        ),
        Some(GolemCliCommandPartialMatch::ComponentNewMissingLanguage)
    ));
}

#[test]
fn no_partial_match_for_other_commands() {
    assert!(match_invalid_arg(
        &strings(&["component", "list"]),
        &strings(&["<LANGUAGE>"]),
        &invalid_arg_matchers(),
        &ids(),
    )
    .is_none());
    assert!(match_invalid_arg(&strings(&["app"]), &strings(&["<LANGUAGE>"]), &invalid_arg_matchers(), &ids())
        .is_none());
}

#[test]
fn single_matcher_application() {
    let ms = invalid_arg_matchers();
    let found = apply_matcher(
        &ms[3],
        &strings(&["worker", "invoke", "w1", "extra"]),
        &strings(&["<FUNCTION_NAME>"]),
        &ids()[3],
        true,
    );
    assert_eq!(found, Some(strings(&["w1"])));
    assert_eq!(
        apply_matcher(&ms[3], &strings(&["worker", "invoke"]), &strings(&["<FUNCTION_NAME>"]), &ids()[3], true),
        None
    );
}

#[test]
fn partial_match_from_parse_errors() {
    assert!(matches!(
        partial_match_for_error(
            ParseErrorKind::MissingSubcommand,
            &vec![],
            &strings(&["app"]),
            &invalid_arg_matchers(),
            &ids(),
        ),
        Some(GolemCliCommandPartialMatch::AppMissingSubcommandHelp)
    ));
    assert!(partial_match_for_error(
        ParseErrorKind::MissingSubcommand,
        &vec![],
        &strings(&["worker"]),
        &invalid_arg_matchers(),
        &ids(),
    )
    .is_none());
    assert!(matches!(
        partial_match_for_error(
            ParseErrorKind::MissingRequiredArgument,
            &vec![strings(&["<OTHER>"]), strings(&["<WORKER_NAME>"])],
            &strings(&["worker", "invoke"]),
            &invalid_arg_matchers(),
            &ids(),
        ),
        Some(GolemCliCommandPartialMatch::WorkerInvokeMissingWorkerName)
    ));
    assert!(partial_match_for_error(
        ParseErrorKind::Other,
        &vec![strings(&["<WORKER_NAME>"])],
        &strings(&["worker", "invoke"]),
        &invalid_arg_matchers(),
        &ids(),
    )
    .is_none());
}

#[test]
fn earlier_command_model_uses_positional_words() {
    let args = strings(&["golem-cli", "--verbose", "worker", "-x", "invoke", "w"]);
    assert_eq!(command_v_1_2::positional_args(&args), strings(&["worker", "invoke", "w"]));
    match command_v_1_2::match_invalid_arg(
        &args,
        &strings(&["<FUNCTION_NAME>"]),
        &invalid_arg_matchers(),
        &ids(),
    ) {
        Some(command_v_1_2::GolemCliCommandPartialMatch::WorkerInvokeMissingFunctionName { worker_name }) => {
            assert_eq!(worker_name, "w")
        }
        other => panic!("unexpected {:?}", other),
    }
    assert!(command_v_1_2::match_invalid_arg(
        &strings(&["golem-cli", "app", "new", "x"]),
        &strings(&["<LANGUAGE>..."]),
        &invalid_arg_matchers(),
        &ids(),
    )
    .is_none());
}

#[test]
fn exit_codes_are_clamped() {
    assert_eq!(clamp_exit_code(-3), 1);
    assert_eq!(clamp_exit_code(0), 0);
    assert_eq!(clamp_exit_code(42), 42);
    assert_eq!(clamp_exit_code(300), 255);
}

fn env(vars: &[(&str, &str)]) -> EnvVars {
    EnvVars { vars: vars.iter().map(|(k, v)| (k.to_string(), v.to_string())).collect() }
}

#[test]
fn global_flags_are_filled_from_the_environment() {
    let flags = GolemCliGlobalFlags::default().with_env_overrides(&env(&[
        ("GOLEM_APP_MANIFEST_PATH", "/app/golem.yaml"),
        ("GOLEM_PROFILE", "staging"),
        ("GOLEM_WASM_RPC_PATH", "/rpc"),
        ("GOLEM_WASM_RPC_VERSION", "1.2.3"),
        ("GOLEM_WASM_RPC_OFFLINE", "Yes"),
    ]));
    assert_eq!(flags.app_manifest_path.as_deref(), Some("/app/golem.yaml"));
    assert_eq!(flags.profile.map(|p| p.0), Some("staging".to_string()));
    assert_eq!(flags.wasm_rpc_path.as_deref(), Some("/rpc"));
    assert_eq!(flags.wasm_rpc_version.as_deref(), Some("1.2.3"));
    assert!(flags.wasm_rpc_offline);
}

#[test]
fn global_flags_given_on_the_command_line_win() {
    let mut flags = GolemCliGlobalFlags::default();
    flags.profile = Some(ProfileName("local".to_string()));
    flags.app_manifest_path = Some("golem.yaml".to_string());
    flags.wasm_rpc_offline = true;
    let flags = flags.with_env_overrides(&env(&[
        ("GOLEM_APP_MANIFEST_PATH", "/other.yaml"),
        ("GOLEM_PROFILE", "cloud"),
    ]));
    assert_eq!(flags.app_manifest_path.as_deref(), Some("golem.yaml"));
    assert_eq!(flags.profile.map(|p| p.0), Some("local".to_string()));
    assert!(flags.wasm_rpc_offline);
    assert!(flags.wasm_rpc_path.is_none());
}

#[test]
fn offline_mode_follows_a_lenient_boolean() {
    for (value, expected) in [
        ("1", true),
        ("T", true),
        ("true", true),
        ("0", false),
        ("No", false),
        ("maybe", false),
        ("", false),
    ] {
        let mut flags = GolemCliGlobalFlags::default();
        flags.wasm_rpc_offline = !expected;
        let flags = flags.with_env_overrides(&env(&[("GOLEM_WASM_RPC_OFFLINE", value)]));
        assert_eq!(flags.wasm_rpc_offline, expected, "value {:?}", value);
    }
}

fn without_styles(s: &str) -> String {
    let mut out = String::new();
    let mut chars = s.chars();
    while let Some(c) = chars.next() {
        if c == '\x1b' {
            for d in chars.by_ref() {
                if d == 'm' {
                    break;
                }
            }
        } else {
            out.push(c);
        }
    }
    out
}

#[test]
fn a_missing_application_manifest_is_explained() {
    let lines: Vec<String> =
        no_application_manifest_found_lines().iter().map(|l| without_styles(l)).collect();
    assert_eq!(
        lines,
        vec![
            "",
            "error: No application manifest(s) found!",
            "Switch to a directory that contains an application manifest (golem.yaml),",
            "or create a new application with the 'app new' subcommand!",
        ]
    );
}
