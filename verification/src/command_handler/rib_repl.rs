//! The component that the Rib REPL works on.

use vstd::prelude::*;

verus! {

/// The component that the REPL loads: the REPL works on exactly one selected component.
pub fn repl_component(selected_component_names: Vec<String>) -> (res: Result<String, String>)
    ensures
        selected_component_names.len() == 1 ==> (res matches Ok(n) && n
            == selected_component_names@[0]),
        selected_component_names.len() != 1 ==> (res matches Err(m) && m@
            == "Only one component is supported"@),
{
    let mut names = selected_component_names;
    if names.len() != 1 {
        return Err("Only one component is supported".to_string());
    }
    match names.pop() {
        Some(n) => Ok(n),
        None => Err("Only one component is supported".to_string()),
    }
}

} // verus!
