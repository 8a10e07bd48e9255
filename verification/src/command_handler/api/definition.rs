//! Deciding how an HTTP API definition of the manifest is deployed.

use crate::command_handler::worker::names_view;
use crate::error::NonSuccessfulExit;
use crate::text::{chars_equal, chars_of};
use vstd::prelude::*;

verus! {

/// Which API definitions are deployed.
#[derive(Debug, Clone, Copy, PartialEq, Eq, Structural)]
pub enum HttpApiDeployMode {
    /// All of them.
    All,
    /// Only those with a route bound to one of the selected components.
    Matching,
}

/// Some route is bound to one of the selected components.
pub open spec fn has_matching_route(
    route_components: Seq<Option<String>>,
    selected_components: Seq<Seq<char>>,
) -> bool {
    exists|i: int|
        0 <= i < route_components.len() && #[trigger] route_components[i] is Some
            && selected_components.contains(route_components[i]->0@)
}

/// Whether the definition is skipped for the component selection: in `Matching` mode when
/// none of its routes (given by the components they are bound to) is bound to a selected
/// component.
pub fn skip_by_component_filter(
    mode: HttpApiDeployMode,
    route_components: &Vec<Option<String>>,
    selected_components: &Vec<String>,
) -> (res: bool)
    ensures
        res == (mode == HttpApiDeployMode::Matching && !has_matching_route(
            route_components@,
            names_view(selected_components@),
        )),
{
    match mode {
        HttpApiDeployMode::All => false,
        HttpApiDeployMode::Matching => {
            let mut i: usize = 0;
            while i < route_components.len()
                invariant
                    i <= route_components.len(),
                    forall|k: int|
                        0 <= k < i ==> !(#[trigger] route_components@[k] is Some
                            && names_view(selected_components@).contains(
                            route_components@[k]->0@,
                        )),
                decreases route_components.len() - i,
            {
                if let Some(name) = &route_components[i] {
                    if contains_name(selected_components, name) {
                        return false;
                    }
                }
                i = i + 1;
            }
            true
        },
    }
}

/// Whether `names` holds `name`.
fn contains_name(names: &Vec<String>, name: &String) -> (res: bool)
    ensures
        res == names_view(names@).contains(name@),
{
    let wanted = chars_of(name.as_str());
    let mut i: usize = 0;
    while i < names.len()
        invariant
            i <= names.len(),
            wanted@ == name@,
            forall|k: int| 0 <= k < i ==> names_view(names@)[k] != name@,
        decreases names.len() - i,
    {
        let candidate = chars_of(names[i].as_str());
        if chars_equal(&candidate, &wanted) {
            assert(names_view(names@)[i as int] == name@);
            return true;
        }
        i = i + 1;
    }
    false
}

/// The version and draft flag of an API definition on the server.
#[derive(Debug)]
pub struct ServerApiDefinition {
    pub version: String,
    pub draft: bool,
}

/// The draft flag sent for the manifest's definition: a draft of the version that the
/// server already has as non-draft is sent as non-draft, so that this alone shows no change.
pub fn manifest_draft(
    manifest_version: &str,
    draft: bool,
    server: Option<&ServerApiDefinition>,
) -> (res: bool)
    ensures
        res == match server {
            Some(s) => if s.version@ == manifest_version@ && !s.draft && draft {
                false
            } else {
                draft
            },
            None => draft,
        },
{
    match server {
        Some(s) => {
            let sv = chars_of(s.version.as_str());
            let mv = chars_of(manifest_version);
            if chars_equal(&sv, &mv) && !s.draft && draft {
                false
            } else {
                draft
            }
        },
        None => draft,
    }
}

/// What is done with a definition of the manifest, given the server's.
#[derive(Debug, Clone, Copy, PartialEq, Eq, Structural)]
pub enum ApiDefinitionDeployStep {
    /// The server has no such definition: it is created.
    Create,
    /// The server's definition is the same: nothing is done.
    UpToDate,
    /// The server's definition differs and is a draft: it is updated.
    Update,
    /// The server's definition differs and is not a draft: a new version must be chosen.
    NewVersionNeeded,
}

/// The step for a definition: `server_draft` is the server's draft flag where the server
/// has the definition, `same_as_server` whether both definitions are the same.
pub fn api_definition_deploy_step(server_draft: Option<bool>, same_as_server: bool) -> (res:
    ApiDefinitionDeployStep)
    ensures
        res == match server_draft {
            None => ApiDefinitionDeployStep::Create,
            Some(draft) => if same_as_server {
                ApiDefinitionDeployStep::UpToDate
            } else if draft {
                ApiDefinitionDeployStep::Update
            } else {
                ApiDefinitionDeployStep::NewVersionNeeded
            },
        },
{
    match server_draft {
        None => ApiDefinitionDeployStep::Create,
        Some(draft) => {
            if same_as_server {
                ApiDefinitionDeployStep::UpToDate
            } else if draft {
                ApiDefinitionDeployStep::Update
            } else {
                ApiDefinitionDeployStep::NewVersionNeeded
            }
        },
    }
}

/// The version and draft flag of the definition created when a new version is needed:
/// the chosen version, as a draft; without a chosen version the deployment stops.
pub fn new_version_definition(chosen_version: Option<String>) -> (res: Result<
    (String, bool),
    NonSuccessfulExit,
>)
    ensures
        match chosen_version {
            Some(v) => res matches Ok((version, draft)) && version == v && draft,
            None => res is Err,
        },
{
    match chosen_version {
        Some(v) => Ok((v, true)),
        None => Err(NonSuccessfulExit),
    }
}

} // verus!
