//! The decisions of the desktop application around the calls of the command line
//! interface: which inputs are accepted, which arguments are passed, and what the user is
//! told of the outcome.

use crate::error::{from_utf8_lossy, utf8_lossy};
use vstd::prelude::*;

verus! {

/// Checks the inputs of creating an application: the folder, the application's name and the
/// language are all required.
pub fn validate_create_app_inputs(folder_path: &str, app_name: &str, language: &str) -> (res:
    Result<(), String>)
    ensures
        (folder_path@.len() == 0 || app_name@.len() == 0 || language@.len() == 0) ==> (res matches Err(
            m,
        ) && m@ == "Folder path, application name, and language are required"@),
        !(folder_path@.len() == 0 || app_name@.len() == 0 || language@.len() == 0) ==> res is Ok,
{
    if folder_path.unicode_len() == 0 || app_name.unicode_len() == 0 || language.unicode_len() == 0 {
        Err("Folder path, application name, and language are required".to_string())
    } else {
        Ok(())
    }
}

/// Checks the inputs of a call of the command line interface: the folder and the command
/// are required.
pub fn validate_command_inputs(folder_path: &str, command: &str) -> (res: Result<(), String>)
    ensures
        (folder_path@.len() == 0 || command@.len() == 0) ==> (res matches Err(m) && m@
            == "Folder path and command  are required"@),
        !(folder_path@.len() == 0 || command@.len() == 0) ==> res is Ok,
{
    if folder_path.unicode_len() == 0 || command.unicode_len() == 0 {
        Err("Folder path and command  are required".to_string())
    } else {
        Ok(())
    }
}

/// The arguments of the command that creates an application: `app new <name> <language>`.
pub fn app_new_args(app_name: &str, language: &str) -> (res: Vec<String>)
    ensures
        res@.map_values(|a: String| a@) == seq!["app"@, "new"@, app_name@, language@],
{
    let mut args: Vec<String> = Vec::new();
    args.push("app".to_string());
    args.push("new".to_string());
    args.push(app_name.to_string());
    args.push(language.to_string());
    assert(args@.map_values(|a: String| a@) =~= seq!["app"@, "new"@, app_name@, language@]);
    args
}

/// What the user is told after the command that creates an application: on success the
/// application's name and the command's standard output, else its standard error; the
/// outputs are decoded as UTF-8, invalid sequences replaced.
pub fn create_app_outcome(app_name: &str, success: bool, stdout: &[u8], stderr: &[u8]) -> (res: Result<
    String,
    String,
>)
    ensures
        success ==> (res matches Ok(m) && m@ == "Successfully created application: "@ + app_name@
            + "\n"@ + utf8_lossy(stdout@)),
        !success ==> (res matches Err(m) && m@ == "Failed to create application: "@ + utf8_lossy(
            stderr@,
        )),
{
    if success {
        let out = from_utf8_lossy(stdout);
        let mut m = "Successfully created application: ".to_string();
        m.append(app_name);
        m.append("\n");
        m.append(out.as_str());
        Ok(m)
    } else {
        let err = from_utf8_lossy(stderr);
        let mut m = "Failed to create application: ".to_string();
        m.append(err.as_str());
        Err(m)
    }
}

/// The settings that the desktop application keeps while it runs.
#[derive(Debug)]
pub struct Storage {
    pub backend_url: String,
}

impl Storage {
    /// The settings at start: the backend of a local Golem server.
    pub fn new() -> (res: Self)
        ensures
            res.backend_url@ == "http://localhost:9881"@,
    {
        Storage { backend_url: "http://localhost:9881".to_string() }
    }

    /// Sets the address of the backend.
    pub fn update_backend_ip(&mut self, new_ip: String)
        ensures
            final(self).backend_url == new_ip,
    {
        self.backend_url = new_ip;
    }

    /// The address of the backend.
    pub fn get_backend_ip(&self) -> (res: String)
        ensures
            res@ == self.backend_url@,
    {
        self.backend_url.clone()
    }
}

} // verus!
