//! Selecting the application components that a command works on.

use crate::app::build::task_result_marker::{DependencyType, DependentComponent};
use crate::command_handler::worker::{find_in_names, names_view};
use crate::fuzzy::{
    distinct_options, is_ambiguous, lemma_find_outcomes, ranked_matches, selected_option,
    FuzzyMatchResult,
};
use crate::log::{log_action, logged, paint_bold, paint_error_highlight, painted, LogState};
use crate::text::{join, joined, strings_view};
use vstd::prelude::*;

verus! {

/// A requested component name that selects no component.
pub enum ComponentNameLookupError {
    /// The name matches several components (highlighted, best first).
    Ambiguous { pattern: String, highlighted_options: Vec<String> },
    /// The name matches no component.
    NotFound { pattern: String },
}

impl ComponentNameLookupError {
    /// The requested name.
    pub open spec fn spec_pattern(self) -> Seq<char> {
        match self {
            ComponentNameLookupError::Ambiguous { pattern, .. } => pattern@,
            ComponentNameLookupError::NotFound { pattern } => pattern@,
        }
    }
}

/// The components that the requested names select, in the order of the names.
pub open spec fn found_options(options: Seq<Seq<char>>, patterns: Seq<Seq<char>>) -> Seq<Seq<char>>
    decreases patterns.len(),
{
    if patterns.len() == 0 {
        Seq::empty()
    } else {
        let r = found_options(options, patterns.drop_last());
        match selected_option(options, patterns.last()) {
            Some(o) => r.push(o),
            None => r,
        }
    }
}

/// The requested names that select no component, in order.
pub open spec fn missing_patterns(options: Seq<Seq<char>>, patterns: Seq<Seq<char>>) -> Seq<
    Seq<char>,
>
    decreases patterns.len(),
{
    if patterns.len() == 0 {
        Seq::empty()
    } else {
        let r = missing_patterns(options, patterns.drop_last());
        match selected_option(options, patterns.last()) {
            Some(_) => r,
            None => r.push(patterns.last()),
        }
    }
}

/// `errors` report the names `missing`, in order: each as ambiguous exactly where it is,
/// with one highlighted option per fuzzy match.
pub open spec fn lookup_errors_match(
    options: Seq<Seq<char>>,
    missing: Seq<Seq<char>>,
    errors: Seq<ComponentNameLookupError>,
) -> bool {
    &&& errors.len() == missing.len()
    &&& forall|k: int|
        0 <= k < errors.len() ==> {
            &&& (#[trigger] errors[k]).spec_pattern() == missing[k]
            &&& (errors[k] is Ambiguous <==> is_ambiguous(options, missing[k]))
            &&& errors[k] is Ambiguous ==> errors[k]->highlighted_options.len() == ranked_matches(
                options,
                missing[k],
            ).len()
        }
}

/// Looks up each requested component name among the application's component names: the
/// selected components, and the names that select none.
pub fn find_components(component_names: &Vec<String>, requested: &Vec<String>) -> (res: (
    Vec<String>,
    Vec<ComponentNameLookupError>,
))
    ensures
        names_view(res.0@) == found_options(
            distinct_options(names_view(component_names@)),
            names_view(requested@),
        ),
        lookup_errors_match(
            distinct_options(names_view(component_names@)),
            missing_patterns(distinct_options(names_view(component_names@)), names_view(requested@)),
            res.1@,
        ),
{
    let ghost d = distinct_options(names_view(component_names@));
    let ghost ps = names_view(requested@);
    let mut found: Vec<String> = Vec::new();
    let mut errors: Vec<ComponentNameLookupError> = Vec::new();
    let mut i: usize = 0;
    while i < requested.len()
        invariant
            i <= requested.len(),
            d == distinct_options(names_view(component_names@)),
            ps == names_view(requested@),
            names_view(found@) == found_options(d, ps.take(i as int)),
            lookup_errors_match(d, missing_patterns(d, ps.take(i as int)), errors@),
        decreases requested.len() - i,
    {
        proof {
            assert(ps.take(i + 1).drop_last() =~= ps.take(i as int));
            assert(ps.take(i + 1).last() == requested@[i as int]@);
        }
        let result = find_in_names(component_names, requested[i].as_str());
        proof {
            lemma_find_outcomes(d, requested@[i as int]@, result);
        }
        let ghost missing_before = missing_patterns(d, ps.take(i as int));
        let ghost errors_before = errors@;
        match result {
            FuzzyMatchResult::Found { option, .. } => {
                let ghost before = found@;
                found.push(option);
                proof {
                    assert(names_view(found@) =~= names_view(before).push(found@.last()@));
                }
            },
            FuzzyMatchResult::Ambiguous { highlighted_options } => {
                errors.push(
                    ComponentNameLookupError::Ambiguous {
                        pattern: requested[i].clone(),
                        highlighted_options,
                    },
                );
                proof {
                    let m = missing_patterns(d, ps.take(i + 1));
                    assert(m =~= missing_before.push(requested@[i as int]@));
                    assert forall|k: int| 0 <= k < errors@.len() implies {
                        &&& (#[trigger] errors@[k]).spec_pattern() == m[k]
                        &&& (errors@[k] is Ambiguous <==> is_ambiguous(d, m[k]))
                        &&& errors@[k] is Ambiguous ==> errors@[k]->highlighted_options.len()
                            == ranked_matches(d, m[k]).len()
                    } by {
                        if k < errors_before.len() {
                            assert(errors@[k] == errors_before[k]);
                        }
                    }
                }
            },
            FuzzyMatchResult::NotFound => {
                errors.push(ComponentNameLookupError::NotFound { pattern: requested[i].clone() });
                proof {
                    let m = missing_patterns(d, ps.take(i + 1));
                    assert(m =~= missing_before.push(requested@[i as int]@));
                    assert forall|k: int| 0 <= k < errors@.len() implies {
                        &&& (#[trigger] errors@[k]).spec_pattern() == m[k]
                        &&& (errors@[k] is Ambiguous <==> is_ambiguous(d, m[k]))
                        &&& errors@[k] is Ambiguous ==> errors@[k]->highlighted_options.len()
                            == ranked_matches(d, m[k]).len()
                    } by {
                        if k < errors_before.len() {
                            assert(errors@[k] == errors_before[k]);
                        }
                    }
                }
            },
        }
        i = i + 1;
    }
    proof {
        assert(ps.take(requested.len() as int) =~= ps);
    }
    (found, errors)
}

/// What a command selects among the application's components.
pub enum ComponentSelection {
    /// There is no application.
    NoApplication,
    /// No names were requested: the command's default selection applies.
    Default,
    /// The components selected by the requested names, in order.
    Explicit(Vec<String>),
    /// Some names select no component, which the command allows: nothing is selected.
    NotFoundAllowed,
    /// Some names select no component: the command stops with these errors.
    NotFound(Vec<ComponentNameLookupError>),
}

/// Selects the components a command works on from the requested names: the default
/// selection without names; the components the names select; or, where some name selects
/// none, nothing (where allowed) or the lookup errors.
pub fn select_components(
    app_component_names: Option<&Vec<String>>,
    requested: &Vec<String>,
    allow_not_found: bool,
) -> (res: ComponentSelection)
    ensures
        match app_component_names {
            None => res is NoApplication,
            Some(names) => {
                let d = distinct_options(names_view(names@));
                let missing = missing_patterns(d, names_view(requested@));
                if requested.len() == 0 {
                    res is Default
                } else if missing.len() == 0 {
                    res matches ComponentSelection::Explicit(found) && names_view(found@)
                        == found_options(d, names_view(requested@))
                } else if allow_not_found {
                    res is NotFoundAllowed
                } else {
                    res matches ComponentSelection::NotFound(errors) && lookup_errors_match(
                        d,
                        missing,
                        errors@,
                    )
                }
            },
        },
{
    match app_component_names {
        None => ComponentSelection::NoApplication,
        Some(names) => {
            if requested.len() == 0 {
                return ComponentSelection::Default;
            }
            let (found, errors) = find_components(names, requested);
            if errors.len() == 0 {
                ComponentSelection::Explicit(found)
            } else if allow_not_found {
                ComponentSelection::NotFoundAllowed
            } else {
                ComponentSelection::NotFound(errors)
            }
        },
    }
}

/// `r` is the line reporting `e`: `  - <name>`, followed for an ambiguous name by
/// `, did you mean one of <options>?`, with the name and the options in bold.
pub open spec fn lookup_error_line(r: Seq<char>, e: ComponentNameLookupError) -> bool {
    exists|p: Seq<char>|
        #[trigger] painted(p, e.spec_pattern(), "1"@) && match e {
            ComponentNameLookupError::NotFound { .. } => r == "  - "@ + p,
            ComponentNameLookupError::Ambiguous { highlighted_options, .. } => exists|
                opts: Seq<Seq<char>>,
            |
                #![trigger opts.len()]
                opts.len() == highlighted_options.len() && (forall|k: int|
                    0 <= k < opts.len() ==> painted(
                        #[trigger] opts[k],
                        highlighted_options@[k]@,
                        "1"@,
                    )) && r == "  - "@ + p + ", did you mean one of "@ + joined(opts, ", "@)
                    + "?"@,
        }
}

fn lookup_error_line_exec(e: &ComponentNameLookupError) -> (res: String)
    ensures
        lookup_error_line(res@, *e),
{
    match e {
        ComponentNameLookupError::NotFound { pattern } => {
            let p = paint_bold(pattern.as_str());
            let mut r = "  - ".to_string();
            r.append(p.as_str());
            assert(painted(p@, e.spec_pattern(), "1"@));
            r
        },
        ComponentNameLookupError::Ambiguous { pattern, highlighted_options } => {
            let p = paint_bold(pattern.as_str());
            let mut opts: Vec<String> = Vec::new();
            let mut i: usize = 0;
            while i < highlighted_options.len()
                invariant
                    i <= highlighted_options.len(),
                    opts.len() == i,
                    forall|k: int|
                        0 <= k < i ==> painted(
                            #[trigger] strings_view(opts@)[k],
                            highlighted_options@[k]@,
                            "1"@,
                        ),
                decreases highlighted_options.len() - i,
            {
                let o = paint_bold(highlighted_options[i].as_str());
                let ghost before = opts@;
                opts.push(o);
                proof {
                    assert forall|k: int| 0 <= k < i + 1 implies painted(
                        #[trigger] strings_view(opts@)[k],
                        highlighted_options@[k]@,
                        "1"@,
                    ) by {
                        if k < i {
                            assert(strings_view(opts@)[k] == strings_view(before)[k]);
                        }
                    }
                }
                i = i + 1;
            }
            let listed = join(&opts, ", ");
            let mut r = "  - ".to_string();
            r.append(p.as_str());
            r.append(", did you mean one of ");
            r.append(listed.as_str());
            r.append("?");
            proof {
                let ov = strings_view(opts@);
                assert(ov.len() == highlighted_options.len());
                assert(painted(p@, e.spec_pattern(), "1"@));
                assert(r@ == "  - "@ + p@ + ", did you mean one of "@ + joined(ov, ", "@) + "?"@);
            }
            r
        },
    }
}

/// `r` is the error message for the lookup errors: a heading and one line per error.
pub open spec fn components_not_found_text(
    r: Seq<char>,
    errors: Seq<ComponentNameLookupError>,
) -> bool {
    exists|lines: Seq<Seq<char>>|
        #![trigger lines.len()]
        lines.len() == errors.len() && (forall|k: int|
            0 <= k < lines.len() ==> lookup_error_line(#[trigger] lines[k], errors[k])) && r
            == "The following requested component names were not found:\n"@ + joined(
            lines,
            "\n"@,
        )
}

/// The error message for requested component names that select no component.
pub fn components_not_found_message(errors: &Vec<ComponentNameLookupError>) -> (res: String)
    ensures
        components_not_found_text(res@, errors@),
{
    let mut lines: Vec<String> = Vec::new();
    let mut i: usize = 0;
    while i < errors.len()
        invariant
            i <= errors.len(),
            lines.len() == i,
            forall|k: int|
                0 <= k < i ==> lookup_error_line(#[trigger] strings_view(lines@)[k], errors@[k]),
        decreases errors.len() - i,
    {
        let l = lookup_error_line_exec(&errors[i]);
        let ghost before = lines@;
        lines.push(l);
        proof {
            assert forall|k: int| 0 <= k < i + 1 implies lookup_error_line(
                #[trigger] strings_view(lines@)[k],
                errors@[k],
            ) by {
                if k < i {
                    assert(strings_view(lines@)[k] == strings_view(before)[k]);
                }
            }
        }
        i = i + 1;
    }
    let listed = join(&lines, "\n");
    let mut r = "The following requested component names were not found:\n".to_string();
    r.append(listed.as_str());
    proof {
        assert(strings_view(lines@).len() == errors@.len());
    }
    r
}

/// The custom command of the application to run: a custom command is given as exactly one
/// word; else the error names what was given, highlighted as an error.
pub fn custom_command_name(command: Vec<String>) -> (res: Result<String, String>)
    ensures
        command.len() == 1 ==> (res matches Ok(c) && c == command@[0]),
        command.len() != 1 ==> (res matches Err(m) && exists|h: Seq<char>|
            #[trigger] painted(h, joined(strings_view(command@), " "@), "1;4;31"@) && m@
                == "Expected exactly one custom subcommand, got: "@ + h),
{
    if command.len() != 1 {
        let given = join(&command, " ");
        let h = paint_error_highlight(given.as_str());
        let mut m = "Expected exactly one custom subcommand, got: ".to_string();
        m.append(h.as_str());
        assert(painted(h@, joined(strings_view(command@), " "@), "1;4;31"@));
        return Err(m);
    }
    let mut command = command;
    match command.pop() {
        Some(c) => Ok(c),
        None => Err("Expected exactly one custom subcommand, got: ".to_string()),
    }
}

/// The names of the components that dynamically linked RPC dependencies target, in order.
pub open spec fn dynamic_targets(dependencies: Seq<DependentComponent>) -> Seq<Seq<char>>
    decreases dependencies.len(),
{
    if dependencies.len() == 0 {
        Seq::empty()
    } else {
        let rest = dynamic_targets(dependencies.drop_last());
        if dependencies.last().dep_type == DependencyType::DynamicWasmRpc {
            rest.push(dependencies.last().name@)
        } else {
            rest
        }
    }
}

/// The components that a component's dynamically linked RPC dependencies target, in order;
/// `None` where it has none, so that it is deployed without dynamic linking.
pub fn dynamic_linking_targets(dependencies: &Vec<DependentComponent>) -> (res: Option<Vec<String>>)
    ensures
        dynamic_targets(dependencies@).len() == 0 ==> res is None,
        dynamic_targets(dependencies@).len() > 0 ==> (res matches Some(v) && strings_view(v@)
            == dynamic_targets(dependencies@)),
{
    let mut targets: Vec<String> = Vec::new();
    let mut i: usize = 0;
    while i < dependencies.len()
        invariant
            i <= dependencies.len(),
            strings_view(targets@) == dynamic_targets(dependencies@.take(i as int)),
        decreases dependencies.len() - i,
    {
        assert(dependencies@.take(i + 1).drop_last() =~= dependencies@.take(i as int));
        if dependencies[i].dep_type == DependencyType::DynamicWasmRpc {
            targets.push(dependencies[i].name.clone());
            assert(strings_view(targets@) =~= dynamic_targets(dependencies@.take(i as int)).push(
                dependencies@[i as int].name@,
            ));
        }
        i = i + 1;
    }
    assert(dependencies@.take(dependencies.len() as int) =~= dependencies@);
    if targets.len() == 0 {
        None
    } else {
        Some(targets)
    }
}

/// The action of deploying a component: a component that is already deployed is updated,
/// another one created.
pub open spec fn deploy_action(already_deployed: bool) -> Seq<char> {
    if already_deployed {
        "Updating"@
    } else {
        "Creating"@
    }
}

/// Logs the deployment of a component: `Updating component <name>` where it is already
/// deployed, else `Creating component <name>`, the action in green and the name in bold.
pub fn log_component_deploy(state: &mut LogState, component_name: &str, already_deployed: bool) -> (res:
    Vec<String>)
    requires
        old(state).wf(),
    ensures
        exists|p: Seq<char>, c: Seq<char>|
            #![trigger painted(p, deploy_action(already_deployed), "32"@), painted(c, component_name@, "1"@)]
            painted(p, deploy_action(already_deployed), "32"@) && painted(c, component_name@, "1"@)
                && logged(*old(state), *final(state), strings_view(res@), p + " "@ + ("component "@ + c)),
{
    let c = paint_bold(component_name);
    let mut s = "component ".to_string();
    s.append(c.as_str());
    let action = if already_deployed {
        "Updating"
    } else {
        "Creating"
    };
    assert(action@ == deploy_action(already_deployed));
    assert(painted(c@, component_name@, "1"@));
    log_action(state, action, s.as_str())
}

} // verus!
