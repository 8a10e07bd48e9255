//! Verified core of the Golem command line interface.

pub mod app;
pub mod clients;
pub mod cloud;
pub mod command;
pub mod command_handler;
pub mod command_v_1_2;
pub mod config;
pub mod context;
pub mod desktop;
pub mod error;
pub mod fuzzy;
pub mod log;
pub mod model;
mod text;

use vstd::prelude::*;

verus! {

/// The name the program is called by: the file stem of its executable, or `golem-cli`
/// where it cannot be told.
pub fn command_name(executable_stem: Option<String>) -> (res: String)
    ensures
        res@ == match executable_stem {
            Some(stem) => stem@,
            None => "golem-cli"@,
        },
{
    match executable_stem {
        Some(stem) => stem,
        None => "golem-cli".to_string(),
    }
}

/// The version shown: the package version, or the description of the latest git tag for an
/// unversioned (`0.0.0`) build.
pub fn version(package_version: &'static str, git_describe_tags: &'static str) -> (res: &'static str)
    ensures
        res@ == if package_version@ == "0.0.0"@ {
            git_describe_tags@
        } else {
            package_version@
        },
{
    let unversioned = text::chars_of("0.0.0");
    if text::chars_equal(&text::chars_of(package_version), &unversioned) {
        git_describe_tags
    } else {
        package_version
    }
}

} // verus!
