use golem_cli::log::{
    log_action, log_action_plan, log_error, log_error_action, log_skipping_up_to_date,
    log_warn_action, logln, LogIndent, LogOutput, LogState, NestedTextViewIndent, Output,
    OverwriteSafeAction, OverwriteSafeActionPlan,
};

fn plain(s: &str) -> String {
    let mut out = String::new();
    let mut chars = s.chars().peekable();
    while let Some(c) = chars.next() {
        if c == '\x1b' {
            for d in chars.by_ref() {
                if d == 'm' {
                    break;
                }
            }
        } else {
            out.push(c);
        }
    }
    out
}

fn plain_lines(lines: Vec<String>) -> Vec<String> {
    lines.iter().map(|l| plain(l)).collect()
}

#[test]
fn logln_without_width_writes_one_line() {
    let mut state = LogState::new(None);
    assert_eq!(logln(&mut state, "hello"), vec!["hello".to_string()]);
}

#[test]
fn logln_wraps_long_lines_to_the_terminal() {
    let mut state = LogState::new(Some(20));
    assert_eq!(state.max_width, Some(18));
    let lines = logln(&mut state, "hello world this is a long message");
    assert_eq!(
        lines,
        vec![
            "hello world this".to_string(),
            "     is a long".to_string(),
            "     message".to_string(),
        ]
    );
}

#[test]
fn logln_keeps_messages_with_line_breaks() {
    let mut state = LogState::new(Some(10));
    let lines = logln(&mut state, "a very long line\nwith a break");
    assert_eq!(lines, vec!["a very long line\nwith a break".to_string()]);
}

#[test]
fn indent_prefixes_lines_and_end_restores() {
    let mut state = LogState::new(Some(40));
    let indent = LogIndent::new(&mut state);
    assert_eq!(indent.depth, 1);
    assert_eq!(state.calculated_indent, "  ");
    assert_eq!(state.max_width, Some(36));
    assert_eq!(logln(&mut state, "x"), vec!["  x".to_string()]);
    let inner = LogIndent::prefix(&mut state, "> ");
    assert_eq!(inner.depth, 2);
    assert_eq!(logln(&mut state, "y"), vec!["  > y".to_string()]);
    inner.end(&mut state);
    indent.end(&mut state);
    assert_eq!(state.calculated_indent, "");
    assert_eq!(state.max_width, Some(38));
    assert_eq!(logln(&mut state, "z"), vec!["z".to_string()]);
}

#[test]
fn discarded_output_writes_nothing() {
    let mut state = LogState::new(None);
    state.set_output(Output::Discard);
    assert!(logln(&mut state, "x").is_empty());
}

#[test]
fn redirected_output_is_brought_back() {
    let mut state = LogState::new(None);
    let redirect = LogOutput::new(&mut state, Output::Discard);
    assert!(matches!(state.output, Output::Discard));
    assert!(logln(&mut state, "hidden").is_empty());
    assert!(matches!(redirect.prev_output, Output::Stdout));
    redirect.end(&mut state);
    assert!(matches!(state.output, Output::Stdout));
    assert_eq!(logln(&mut state, "shown"), vec!["shown".to_string()]);
}

#[test]
fn tool_output_is_kept_joined_and_forgotten() {
    let mut state = LogState::new(None);
    state.set_output(Output::Mcp { tool_name: "list_components".to_string() });
    assert!(logln(&mut state, "first").is_empty());
    let indent = LogIndent::new(&mut state);
    assert!(logln(&mut state, "second").is_empty());
    indent.end(&mut state);
    assert_eq!(state.get_mcp_tool_output(), vec!["first\n  second".to_string()]);
    assert_eq!(state.get_mcp_tool_output(), vec!["".to_string()]);
}

#[test]
fn store_mcp_tool_output_prefixes_the_indent() {
    let mut state = LogState::new(None);
    state.store_mcp_tool_output(">>", "line");
    assert_eq!(state.tool_output, vec![">>line".to_string()]);
}

#[test]
fn actions_are_logged_with_their_subject() {
    let mut state = LogState::new(None);
    assert_eq!(plain_lines(log_action(&mut state, "Building", "app")), vec!["Building app"]);
    assert_eq!(plain_lines(log_warn_action(&mut state, "Found", "changes")), vec!["Found changes"]);
    assert_eq!(plain_lines(log_error_action(&mut state, "Failed", "build")), vec!["Failed build"]);
    assert_eq!(
        plain_lines(log_skipping_up_to_date(&mut state, "building app")),
        vec!["Skipping building app, UP-TO-DATE"]
    );
}

#[test]
fn action_plans_are_logged() {
    let mut state = LogState::new(None);
    let copy = OverwriteSafeAction::CopyFile { source: "a.txt".to_string(), target: "b.txt".to_string() };
    assert_eq!(
        plain_lines(log_action_plan(&mut state, &copy, OverwriteSafeActionPlan::Create)),
        vec!["Copying a.txt to b.txt"]
    );
    assert_eq!(
        plain_lines(log_action_plan(&mut state, &copy, OverwriteSafeActionPlan::Overwrite)),
        vec!["Overwriting b.txt with a.txt"]
    );
    assert_eq!(
        plain_lines(log_action_plan(&mut state, &copy, OverwriteSafeActionPlan::SkipSameContent)),
        vec!["Skipping copying a.txt to b.txt, content already up-to-date"]
    );
    let write = OverwriteSafeAction::WriteFile { content: "x".to_string(), target: "c.txt".to_string() };
    assert_eq!(
        plain_lines(log_action_plan(&mut state, &write, OverwriteSafeActionPlan::Create)),
        vec!["Creating c.txt"]
    );
    assert_eq!(
        plain_lines(log_action_plan(&mut state, &write, OverwriteSafeActionPlan::SkipSameContent)),
        vec!["Skipping generating c.txt, content already up-to-date"]
    );
    let transformed = OverwriteSafeAction::CopyFileTransformed {
        source: "s".to_string(),
        target: "t".to_string(),
    };
    assert_eq!(
        plain_lines(log_action_plan(&mut state, &transformed, OverwriteSafeActionPlan::Overwrite)),
        vec!["Overwriting t with s transformed"]
    );
}

#[test]
fn errors_are_logged_with_a_marker() {
    let mut state = LogState::new(None);
    assert_eq!(plain_lines(log_error(&mut state, "something broke")), vec!["error: something broke"]);
}

#[test]
fn nested_views_are_framed() {
    let mut state = LogState::new(Some(80));
    let (view, opening) = NestedTextViewIndent::new(&mut state);
    assert_eq!(opening, vec!["╔═".to_string()]);
    assert_eq!(logln(&mut state, "inside"), vec!["║ inside".to_string()]);
    let closing = view.end(&mut state);
    assert_eq!(closing, vec!["╚═".to_string()]);
    assert_eq!(state.calculated_indent, "");
    assert_eq!(state.max_width, Some(78));
}
