//! Tool requests of the model context protocol server and the results it answers with.

pub mod api;
pub mod app;
pub mod component;
pub mod plugin;
pub mod profile;
pub mod repl;
pub mod worker;

use crate::log::LogState;
use crate::text::{chars_equal, chars_of, joined, strings_view};
use vstd::prelude::*;

verus! {

/// What `console::strip_ansi_codes` leaves of a text.
pub uninterp spec fn ansi_stripped(text: Seq<char>) -> Seq<char>;

/// The text holds a character that can start an escape sequence.
pub open spec fn has_escape_start(text: Seq<char>) -> bool {
    exists|i: int| 0 <= i < text.len() && (text[i] == '\u{1b}' || text[i] == '\u{9b}')
}

/// Removes terminal escape sequences (`console::strip_ansi_codes`). The result is named by
/// `ansi_stripped`; a text with no character that starts an escape sequence comes back
/// unchanged, as the function borrows its input in that case.
#[verifier::external_body]
fn strip_ansi_codes(text: &str) -> (res: String)
    ensures
        res@ == ansi_stripped(text@),
        !has_escape_start(text@) ==> res@ == text@,
{
    console::strip_ansi_codes(text).to_string()
}

/// The answer to a tool call: its text contents and whether it reports an error.
#[derive(Debug)]
pub struct ToolCallResult {
    pub content: Vec<String>,
    pub is_error: Option<bool>,
}

/// A tool offered by the server: its name and its schema as JSON text.
#[derive(Debug)]
pub struct ToolInfo {
    pub name: String,
    pub schema: String,
}

/// List Tools
#[derive(Debug)]
pub struct ListTools {}

/// Get Tool info
#[derive(Debug)]
pub struct GetTool {
    pub tool_name: String,
}

/// The answer to a failed tool call: the error message without escape sequences.
pub fn tool_error(message: &str) -> (res: ToolCallResult)
    ensures
        strings_view(res.content@) == seq![ansi_stripped(message@)],
        res.is_error == Some(true),
{
    let mut content: Vec<String> = Vec::new();
    content.push(strip_ansi_codes(message));
    proof {
        assert(strings_view(content@) =~= seq![ansi_stripped(message@)]);
    }
    ToolCallResult { content, is_error: Some(true) }
}

/// The answer to a tool call that succeeded with the given output texts.
pub fn tool_output(output: Vec<String>) -> (res: ToolCallResult)
    ensures
        res.content@ == output@,
        res.is_error.is_none(),
{
    ToolCallResult { content: output, is_error: None }
}

/// The answer of the tools that keep no output and only report success.
pub fn tool_success() -> (res: ToolCallResult)
    ensures
        strings_view(res.content@) == seq!["Success"@],
        res.is_error.is_none(),
{
    let mut content: Vec<String> = Vec::new();
    content.push("Success".to_string());
    proof {
        assert(strings_view(content@) =~= seq!["Success"@]);
    }
    ToolCallResult { content, is_error: None }
}

/// Answers a tool call from the outcome of its command. On success the output kept for the
/// call is handed over, as one text, and forgotten; on failure the error message is
/// answered and the kept output stays.
pub fn command_tool_result(outcome: Result<(), String>, state: &mut LogState) -> (res:
    ToolCallResult)
    ensures
        match outcome {
            Ok(()) => {
                &&& strings_view(res.content@) == seq![
                    joined(strings_view(old(state).tool_output@), "\n"@),
                ]
                &&& res.is_error.is_none()
                &&& final(state).tool_output@.len() == 0
                &&& final(state).indents == old(state).indents
                &&& final(state).calculated_indent == old(state).calculated_indent
                &&& final(state).terminal_width == old(state).terminal_width
                &&& final(state).max_width == old(state).max_width
                &&& final(state).output == old(state).output
            },
            Err(message) => {
                &&& strings_view(res.content@) == seq![ansi_stripped(message@)]
                &&& res.is_error == Some(true)
                &&& *final(state) == *old(state)
            },
        },
{
    match outcome {
        Ok(()) => {
            let output = state.get_mcp_tool_output();
            proof {
                assert(strings_view(output@) =~= seq![
                    joined(strings_view(old(state).tool_output@), "\n"@),
                ]);
            }
            tool_output(output)
        },
        Err(message) => tool_error(message.as_str()),
    }
}

/// The schemas of the tools whose name, without escape sequences, is `tool_name`.
pub open spec fn matching_schemas(tools: Seq<ToolInfo>, tool_name: Seq<char>) -> Seq<Seq<char>>
    decreases tools.len(),
{
    if tools.len() == 0 {
        Seq::empty()
    } else {
        let rest = matching_schemas(tools.drop_last(), tool_name);
        if ansi_stripped(tools.last().name@) == tool_name {
            rest.push(tools.last().schema@)
        } else {
            rest
        }
    }
}

/// The schemas of all tools, in order.
pub open spec fn all_schemas(tools: Seq<ToolInfo>) -> Seq<Seq<char>> {
    tools.map_values(|t: ToolInfo| t.schema@)
}

/// Answers the request to list the tools: the schema of each tool, in order.
pub fn list_tools_result(tools: &Vec<ToolInfo>) -> (res: ToolCallResult)
    ensures
        strings_view(res.content@) == all_schemas(tools@),
        res.is_error.is_none(),
{
    let mut content: Vec<String> = Vec::new();
    let mut i: usize = 0;
    while i < tools.len()
        invariant
            i <= tools.len(),
            strings_view(content@) == all_schemas(tools@.take(i as int)),
        decreases tools.len() - i,
    {
        let ghost before = content@;
        content.push(tools[i].schema.clone());
        proof {
            assert(strings_view(content@) =~= strings_view(before).push(tools@[i as int].schema@));
            assert(all_schemas(tools@.take(i + 1)) =~= all_schemas(tools@.take(i as int)).push(
                tools@[i as int].schema@,
            ));
        }
        i = i + 1;
    }
    proof {
        assert(tools@.take(tools.len() as int) =~= tools@);
    }
    ToolCallResult { content, is_error: None }
}

/// Answers the request for one tool's info: the schemas of the tools of that name, in order.
pub fn tool_info_result(tools: &Vec<ToolInfo>, request: &GetTool) -> (res: ToolCallResult)
    ensures
        strings_view(res.content@) == matching_schemas(tools@, request.tool_name@),
        res.is_error.is_none(),
{
    let wanted = chars_of(request.tool_name.as_str());
    let mut content: Vec<String> = Vec::new();
    let mut i: usize = 0;
    while i < tools.len()
        invariant
            i <= tools.len(),
            wanted@ == request.tool_name@,
            strings_view(content@) == matching_schemas(tools@.take(i as int), request.tool_name@),
        decreases tools.len() - i,
    {
        proof {
            assert(tools@.take(i + 1).drop_last() =~= tools@.take(i as int));
        }
        let name = strip_ansi_codes(tools[i].name.as_str());
        let name_chars = chars_of(name.as_str());
        if chars_equal(&name_chars, &wanted) {
            let ghost before = content@;
            content.push(tools[i].schema.clone());
            proof {
                assert(strings_view(content@) =~= strings_view(before).push(
                    tools@[i as int].schema@,
                ));
            }
        }
        i = i + 1;
    }
    proof {
        assert(tools@.take(tools.len() as int) =~= tools@);
    }
    ToolCallResult { content, is_error: None }
}

} // verus!
