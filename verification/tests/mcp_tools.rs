use golem_cli::command::shared_args::WorkerNameArg;
use golem_cli::command_handler::mcp_server::tools::worker::Update;
use golem_cli::model::WorkerUpdateMode;
use golem_cli::command_handler::mcp_server::tools::{
    command_tool_result, list_tools_result, tool_error, tool_info_result, tool_output,
    tool_success, GetTool, ToolInfo,
};
use golem_cli::log::{logln, LogState, Output};

fn tool(name: &str, schema: &str) -> ToolInfo {
    ToolInfo { name: name.to_string(), schema: schema.to_string() }
}

#[test]
fn tool_error_strips_escape_sequences() {
    let r = tool_error("\x1b[31mfailed\x1b[0m to build");
    assert_eq!(r.content, vec!["failed to build".to_string()]);
    assert_eq!(r.is_error, Some(true));
    let plain = tool_error("no component found");
    assert_eq!(plain.content, vec!["no component found".to_string()]);
}

#[test]
fn tool_output_and_success() {
    let r = tool_output(vec!["a".to_string(), "b".to_string()]);
    assert_eq!(r.content, vec!["a".to_string(), "b".to_string()]);
    assert_eq!(r.is_error, None);
    let s = tool_success();
    assert_eq!(s.content, vec!["Success".to_string()]);
    assert_eq!(s.is_error, None);
}

#[test]
fn command_result_hands_over_kept_output() {
    let mut state = LogState::new(None);
    state.set_output(Output::Mcp { tool_name: "build_app".to_string() });
    logln(&mut state, "Building");
    logln(&mut state, "Done");
    let r = command_tool_result(Ok(()), &mut state);
    assert_eq!(r.content, vec!["Building\nDone".to_string()]);
    assert_eq!(r.is_error, None);
    assert!(state.tool_output.is_empty());
}

#[test]
fn command_failure_keeps_output_and_reports_error() {
    let mut state = LogState::new(None);
    state.set_output(Output::Mcp { tool_name: "build_app".to_string() });
    logln(&mut state, "Building");
    let r = command_tool_result(Err("\x1b[1mbuild failed\x1b[0m".to_string()), &mut state);
    assert_eq!(r.content, vec!["build failed".to_string()]);
    assert_eq!(r.is_error, Some(true));
    assert_eq!(state.tool_output, vec!["Building".to_string()]);
}

#[test]
fn list_and_get_tool_info() {
    let tools = vec![
        tool("list_components", "{\"name\":\"list_components\"}"),
        tool("\x1b[1mbuild_app\x1b[0m", "{\"name\":\"build_app\"}"),
    ];
    let all = list_tools_result(&tools);
    assert_eq!(all.content.len(), 2);
    assert_eq!(all.content[1], "{\"name\":\"build_app\"}");
    let one = tool_info_result(&tools, &GetTool { tool_name: "build_app".to_string() });
    assert_eq!(one.content, vec!["{\"name\":\"build_app\"}".to_string()]);
    let none = tool_info_result(&tools, &GetTool { tool_name: "deploy".to_string() });
    assert!(none.content.is_empty());
    assert_eq!(none.is_error, None);
}

#[test]
fn worker_updates_are_automatic_unless_requested() {
    let update = |mode| Update {
        worker_name: WorkerNameArg { worker_name: "shop/cart".to_string() },
        mode,
        target_version: None,
    };
    assert_eq!(update(None).update_mode(), WorkerUpdateMode::Automatic);
    assert_eq!(update(Some(WorkerUpdateMode::Manual)).update_mode(), WorkerUpdateMode::Manual);
}
