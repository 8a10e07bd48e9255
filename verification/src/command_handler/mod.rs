//! Decisions of the command handlers that do not depend on I/O.

pub mod api;
pub mod app;
pub mod cloud;
pub mod interactive;
pub mod mcp_server;
pub mod rib_repl;
pub mod worker;

use crate::log::{paint_bold, paint_red_bold, painted};
use vstd::prelude::*;

verus! {

/// The process exit code for a parser exit code: negative codes fail with 1, codes above
/// 255 are capped at 255.
pub fn clamp_exit_code(exit_code: i32) -> (res: u8)
    ensures
        exit_code < 0 ==> res == 1,
        exit_code > 255 ==> res == 255,
        0 <= exit_code <= 255 ==> res == exit_code,
{
    if exit_code < 0 {
        1
    } else if exit_code > 255 {
        255
    } else {
        exit_code as u8
    }
}

/// `lines` tell that no application manifest was found: an empty line, the error (`error:`
/// in bold red), and where to go or what to run, the manifest's name and the command in
/// bold.
pub open spec fn no_manifest_lines(lines: Seq<Seq<char>>) -> bool {
    exists|e: Seq<char>, m: Seq<char>, a: Seq<char>|
        #![trigger painted(e, "error:"@, "1;31"@), painted(m, "golem.yaml"@, "1"@), painted(a, "app new"@, "1"@)]
        painted(e, "error:"@, "1;31"@) && painted(m, "golem.yaml"@, "1"@) && painted(
            a,
            "app new"@,
            "1"@,
        ) && lines == seq![
            Seq::<char>::empty(),
            e + " No application manifest(s) found!"@,
            "Switch to a directory that contains an application manifest ("@ + m + "),"@,
            "or create a new application with the '"@ + a + "' subcommand!"@,
        ]
}

/// The messages logged, one per line, where a command needs an application manifest and
/// none is found.
pub fn no_application_manifest_found_lines() -> (res: Vec<String>)
    ensures
        no_manifest_lines(res@.map_values(|l: String| l@)),
{
    let e = paint_red_bold("error:");
    let m = paint_bold("golem.yaml");
    let a = paint_bold("app new");
    let mut error = e.clone();
    error.append(" No application manifest(s) found!");
    let mut switch = "Switch to a directory that contains an application manifest (".to_string();
    switch.append(m.as_str());
    switch.append("),");
    let mut create = "or create a new application with the '".to_string();
    create.append(a.as_str());
    create.append("' subcommand!");
    let mut lines: Vec<String> = Vec::new();
    lines.push(String::new());
    lines.push(error);
    lines.push(switch);
    lines.push(create);
    proof {
        let v = lines@.map_values(|l: String| l@);
        assert(v =~= seq![
            Seq::<char>::empty(),
            e@ + " No application manifest(s) found!"@,
            "Switch to a directory that contains an application manifest ("@ + m@ + "),"@,
            "or create a new application with the '"@ + a@ + "' subcommand!"@,
        ]);
        assert(painted(e@, "error:"@, "1;31"@) && painted(m@, "golem.yaml"@, "1"@) && painted(
            a@,
            "app new"@,
            "1"@,
        ));
    }
    lines
}

} // verus!
