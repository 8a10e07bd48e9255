//! The choices of the interactive component dependency wizard.

use crate::app::build::task_result_marker::DependencyType;
use crate::command_handler::cloud::project::ProfileKind;
use crate::command_handler::worker::names_view;
use crate::config::{CloudProfile, Format, OssProfile, Profile, ProfileConfig, ProfileName};
use crate::error::{decimal, u64_to_text};
use crate::log::{log_warn, log_warn_action, logged, paint_bold, paint_cyan, paint_yellow_bold, painted, LogState};
use crate::text::{chars_equal, chars_of, strings_view};
use vstd::prelude::*;

verus! {

/// The kind of an application component.
#[derive(PartialEq, Eq, Structural, Clone, Copy, Debug)]
pub enum AppComponentType {
    Durable,
    Ephemeral,
    Library,
}

/// Whether a component of type `c` can be the target of a dependency of type `d`: RPC
/// targets durable or ephemeral components, a WASM dependency targets libraries.
pub open spec fn compatible(d: DependencyType, c: AppComponentType) -> bool {
    match d {
        DependencyType::DynamicWasmRpc | DependencyType::StaticWasmRpc => c != AppComponentType::Library,
        DependencyType::Wasm => c == AppComponentType::Library,
    }
}

/// Both kinds of RPC dependency, dynamic and static, target exactly the durable and the
/// ephemeral components; a WASM dependency targets exactly the libraries.
pub proof fn lemma_dependency_targets(c: AppComponentType)
    ensures
        compatible(DependencyType::DynamicWasmRpc, c) <==> (c == AppComponentType::Durable || c
            == AppComponentType::Ephemeral),
        compatible(DependencyType::StaticWasmRpc, c) <==> (c == AppComponentType::Durable || c
            == AppComponentType::Ephemeral),
        compatible(DependencyType::Wasm, c) <==> c == AppComponentType::Library,
{
}

/// Whether a component of type `component_type` can be the target of a dependency of type
/// `dependency_type`.
pub fn validate_component_type_for_dependency_type(
    dependency_type: DependencyType,
    component_type: AppComponentType,
) -> (res: bool)
    ensures
        res == compatible(dependency_type, component_type),
{
    match dependency_type {
        DependencyType::DynamicWasmRpc | DependencyType::StaticWasmRpc => match component_type {
            AppComponentType::Durable | AppComponentType::Ephemeral => true,
            AppComponentType::Library => false,
        },
        DependencyType::Wasm => match component_type {
            AppComponentType::Durable | AppComponentType::Ephemeral => false,
            AppComponentType::Library => true,
        },
    }
}

/// The dependency types offered for selection and those accepted, for a component of
/// type `component_type`.
pub fn dependency_types_for(component_type: AppComponentType) -> (res: (
    Vec<DependencyType>,
    Vec<DependencyType>,
))
    ensures
        component_type == AppComponentType::Library ==> res.0@ == seq![DependencyType::Wasm]
            && res.1@ == seq![DependencyType::Wasm],
        component_type != AppComponentType::Library ==> res.0@ == seq![
            DependencyType::DynamicWasmRpc,
            DependencyType::Wasm,
        ] && res.1@ == seq![
            DependencyType::DynamicWasmRpc,
            DependencyType::StaticWasmRpc,
            DependencyType::Wasm,
        ],
{
    let mut offered: Vec<DependencyType> = Vec::new();
    let mut valid: Vec<DependencyType> = Vec::new();
    match component_type {
        AppComponentType::Durable | AppComponentType::Ephemeral => {
            offered.push(DependencyType::DynamicWasmRpc);
            offered.push(DependencyType::Wasm);
            valid.push(DependencyType::DynamicWasmRpc);
            valid.push(DependencyType::StaticWasmRpc);
            valid.push(DependencyType::Wasm);
        },
        AppComponentType::Library => {
            offered.push(DependencyType::Wasm);
            valid.push(DependencyType::Wasm);
        },
    }
    assert(offered@ =~= if component_type == AppComponentType::Library {
        seq![DependencyType::Wasm]
    } else {
        seq![DependencyType::DynamicWasmRpc, DependencyType::Wasm]
    });
    assert(valid@ =~= if component_type == AppComponentType::Library {
        seq![DependencyType::Wasm]
    } else {
        seq![DependencyType::DynamicWasmRpc, DependencyType::StaticWasmRpc, DependencyType::Wasm]
    });
    (offered, valid)
}

/// What the wizard does next.
pub enum WizardStep<T> {
    /// The value is settled.
    Chosen(T),
    /// The user is asked to select one of these.
    Select(Vec<T>),
}

/// Why the wizard stops.
#[derive(PartialEq, Eq, Structural, Clone, Copy, Debug)]
pub enum DependencyWizardError {
    /// The named (source) component is not in the application.
    ComponentNotFound,
    /// The application has no components.
    NoComponents,
    /// The requested dependency type is not valid for the component.
    InvalidDependencyType,
    /// The named target component is not in the application.
    TargetComponentNotFound,
    /// No component can be the target of the dependency type.
    NoTargetComponents,
}

fn copy_names(names: &Vec<String>) -> (res: Vec<String>)
    ensures
        names_view(res@) == names_view(names@),
{
    let mut res: Vec<String> = Vec::new();
    let mut i: usize = 0;
    while i < names.len()
        invariant
            i <= names.len(),
            names_view(res@) == names_view(names@.take(i as int)),
        decreases names.len() - i,
    {
        let ghost before = res@;
        let n = names[i].clone();
        res.push(n);
        assert(names_view(res@) =~= names_view(before).push(n@));
        assert(names_view(names@.take(i + 1)) =~= names_view(names@.take(i as int)).push(
            names@[i as int]@,
        ));
        i = i + 1;
    }
    assert(names@.take(names.len() as int) =~= names@);
    res
}

fn holds_name(names: &Vec<String>, name: &String) -> (res: bool)
    ensures
        res == names_view(names@).contains(name@),
{
    let n = chars_of(name.as_str());
    let mut i: usize = 0;
    while i < names.len()
        invariant
            i <= names.len(),
            n@ == name@,
            forall|k: int| 0 <= k < i ==> names@[k]@ != name@,
        decreases names.len() - i,
    {
        if chars_equal(&chars_of(names[i].as_str()), &n) {
            assert(names_view(names@)[i as int] == name@);
            return true;
        }
        i = i + 1;
    }
    false
}

/// The component to add a dependency to: the requested one, where the application has it,
/// or else a selection among all components.
pub fn choose_component(requested: Option<String>, component_names: &Vec<String>) -> (res: Result<
    WizardStep<String>,
    DependencyWizardError,
>)
    ensures
        match requested {
            Some(n) => if names_view(component_names@).contains(n@) {
                res matches Ok(WizardStep::Chosen(c)) && c == n
            } else {
                res == Err::<WizardStep<String>, _>(DependencyWizardError::ComponentNotFound)
            },
            None => if component_names.len() == 0 {
                res == Err::<WizardStep<String>, _>(DependencyWizardError::NoComponents)
            } else {
                res matches Ok(WizardStep::Select(options)) && names_view(options@) == names_view(
                    component_names@,
                )
            },
        },
{
    match requested {
        Some(n) => {
            if holds_name(component_names, &n) {
                Ok(WizardStep::Chosen(n))
            } else {
                Err(DependencyWizardError::ComponentNotFound)
            }
        },
        None => {
            if component_names.len() == 0 {
                Err(DependencyWizardError::NoComponents)
            } else {
                Ok(WizardStep::Select(copy_names(component_names)))
            }
        },
    }
}

#[verifier::loop_isolation(false)]
/// The dependency type: the requested one, where it is valid for the component type, or
/// else a selection among the offered types.
pub fn choose_dependency_type(
    requested: Option<DependencyType>,
    component_type: AppComponentType,
) -> (res: Result<WizardStep<DependencyType>, DependencyWizardError>)
    ensures
        match requested {
            Some(t) => if component_type == AppComponentType::Library && t != DependencyType::Wasm {
                res == Err::<WizardStep<DependencyType>, _>(
                    DependencyWizardError::InvalidDependencyType,
                )
            } else {
                res matches Ok(WizardStep::Chosen(c)) && c == t
            },
            None => res matches Ok(WizardStep::Select(options)) && options@ == if component_type
                == AppComponentType::Library {
                seq![DependencyType::Wasm]
            } else {
                seq![DependencyType::DynamicWasmRpc, DependencyType::Wasm]
            },
        },
{
    let (offered, valid) = dependency_types_for(component_type);
    match requested {
        Some(t) => {
            let mut i: usize = 0;
            while i < valid.len()
                invariant
                    i <= valid.len(),
                    forall|k: int| 0 <= k < i ==> valid@[k] != t,
                    component_type == AppComponentType::Library ==> valid@ == seq![DependencyType::Wasm],
                    component_type != AppComponentType::Library ==> valid@ == seq![
                        DependencyType::DynamicWasmRpc,
                        DependencyType::StaticWasmRpc,
                        DependencyType::Wasm,
                    ],
                decreases valid.len() - i,
            {
                if valid[i] == t {
                    return Ok(WizardStep::Chosen(t));
                }
                i = i + 1;
            }
            assert(component_type == AppComponentType::Library ==> valid@[0] == DependencyType::Wasm);
            assert(component_type != AppComponentType::Library ==> (valid@[0]
                == DependencyType::DynamicWasmRpc && valid@[1] == DependencyType::StaticWasmRpc
                && valid@[2] == DependencyType::Wasm));
            Err(DependencyWizardError::InvalidDependencyType)
        },
        None => Ok(WizardStep::Select(offered)),
    }
}

/// The names of the components whose type is compatible with `d`, in order.
pub open spec fn compatible_targets(
    components: Seq<(String, AppComponentType)>,
    d: DependencyType,
) -> Seq<Seq<char>>
    decreases components.len(),
{
    if components.len() == 0 {
        Seq::empty()
    } else {
        let r = compatible_targets(components.drop_last(), d);
        if compatible(d, components.last().1) {
            r.push(components.last().0@)
        } else {
            r
        }
    }
}

/// The type of the first component named `name`, if the application has one.
pub open spec fn component_type_of(
    components: Seq<(String, AppComponentType)>,
    name: Seq<char>,
) -> Option<AppComponentType>
    decreases components.len(),
{
    if components.len() == 0 {
        None
    } else if components[0].0@ == name {
        Some(components[0].1)
    } else {
        component_type_of(components.drop_first(), name)
    }
}

/// The target component: the requested one, where the application has it (with whether
/// its type suits the dependency type, which is only warned about), or else a selection
/// among the components of a suitable type.
pub fn choose_target_component(
    requested: Option<String>,
    dependency_type: DependencyType,
    components: &Vec<(String, AppComponentType)>,
) -> (res: Result<(WizardStep<String>, bool), DependencyWizardError>)
    ensures
        match requested {
            Some(n) => match component_type_of(components@, n@) {
                Some(t) => res matches Ok((WizardStep::Chosen(c), ok)) && c == n && (ok
                    == compatible(dependency_type, t)),
                None => res == Err::<(WizardStep<String>, bool), _>(
                    DependencyWizardError::TargetComponentNotFound,
                ),
            },
            None => if compatible_targets(components@, dependency_type).len() == 0 {
                res == Err::<(WizardStep<String>, bool), _>(
                    DependencyWizardError::NoTargetComponents,
                )
            } else {
                res matches Ok((WizardStep::Select(options), ok)) && ok && names_view(options@)
                    == compatible_targets(components@, dependency_type)
            },
        },
{
    match requested {
        Some(n) => {
            let nc = chars_of(n.as_str());
            let mut i: usize = 0;
            assert(components@.skip(0) =~= components@);
            while i < components.len()
                invariant
                    i <= components.len(),
                    nc@ == n@,
                    requested == Some(n),
                    component_type_of(components@, n@) == component_type_of(
                        components@.skip(i as int),
                        n@,
                    ),
                decreases components.len() - i,
            {
                assert(components@.skip(i as int).drop_first() =~= components@.skip(i + 1));
                if chars_equal(&chars_of(components[i].0.as_str()), &nc) {
                    let ok = validate_component_type_for_dependency_type(
                        dependency_type,
                        components[i].1,
                    );
                    assert(components@.skip(i as int)[0] == components@[i as int]);
                    assert(component_type_of(components@, n@) == Some(components@[i as int].1));
                    return Ok((WizardStep::Chosen(n), ok));
                }
                i = i + 1;
            }
            assert(components@.skip(i as int) =~= Seq::<(String, AppComponentType)>::empty());
            Err(DependencyWizardError::TargetComponentNotFound)
        },
        None => {
            let mut targets: Vec<String> = Vec::new();
            let mut i: usize = 0;
            while i < components.len()
                invariant
                    i <= components.len(),
                    names_view(targets@) == compatible_targets(
                        components@.take(i as int),
                        dependency_type,
                    ),
                decreases components.len() - i,
            {
                assert(components@.take(i + 1).drop_last() =~= components@.take(i as int));
                if validate_component_type_for_dependency_type(dependency_type, components[i].1) {
                    let ghost before = targets@;
                    let n = components[i].0.clone();
                    targets.push(n);
                    assert(names_view(targets@) =~= names_view(before).push(n@));
                }
                i = i + 1;
            }
            assert(components@.take(components.len() as int) =~= components@);
            if targets.len() == 0 {
                Err(DependencyWizardError::NoTargetComponents)
            } else {
                Ok((WizardStep::Select(targets), true))
            }
        },
    }
}

/// Checks the name of a profile to create: a builtin name is refused, with the message
/// shown to the user.
pub fn validate_new_profile_name(name: &str) -> (res: Result<(), &'static str>)
    ensures
        (name@ == "local"@ || name@ == "cloud"@) ==> res is Err,
        !(name@ == "local"@ || name@ == "cloud"@) ==> res is Ok,
        res matches Err(m) ==> m@
            == "The requested profile name is a builtin one, please choose another name!"@,
{
    let n = ProfileName(name.to_string());
    if n.is_builtin() {
        Err("The requested profile name is a builtin one, please choose another name!")
    } else {
        Ok(())
    }
}

/// The profile made from the answers of the interactive profile creation: a cloud URL is
/// only kept for a cloud profile; the profile is not marked insecure.
pub fn new_profile(
    kind: ProfileKind,
    component_url: String,
    worker_url: Option<String>,
    cloud_url: Option<String>,
    default_format: Format,
) -> (res: Profile)
    ensures
        match kind {
            ProfileKind::Oss => res == Profile::Golem(
                OssProfile {
                    url: component_url,
                    worker_url,
                    allow_insecure: false,
                    config: ProfileConfig { default_format },
                },
            ),
            ProfileKind::Cloud => res == Profile::GolemCloud(
                CloudProfile {
                    custom_url: Some(component_url),
                    custom_cloud_url: cloud_url,
                    custom_worker_url: worker_url,
                    allow_insecure: false,
                    config: ProfileConfig { default_format },
                    auth: None,
                },
            ),
        },
{
    match kind {
        ProfileKind::Oss => Profile::Golem(
            OssProfile {
                url: component_url,
                worker_url,
                allow_insecure: false,
                config: ProfileConfig { default_format },
            },
        ),
        ProfileKind::Cloud => Profile::GolemCloud(
            CloudProfile {
                custom_url: Some(component_url),
                custom_cloud_url: cloud_url,
                custom_worker_url: worker_url,
                allow_insecure: false,
                config: ProfileConfig { default_format },
                auth: None,
            },
        ),
    }
}

/// Why a prompt gave no answer (the kinds of error of the prompt library).
#[derive(Debug)]
pub enum PromptError {
    /// The input is not a terminal.
    NotTty,
    InvalidConfiguration(String),
    /// Reading or writing the terminal failed.
    Io(String),
    OperationCanceled,
    OperationInterrupted,
    Custom(String),
}

/// Whether a prompt failed for want of an interactive input: no terminal, or an
/// input/output failure (such as a missing standard input).
pub open spec fn not_interactive(error: PromptError) -> bool {
    error is NotTty || error is Io
}

/// Whether a prompt failed for want of an interactive input.
pub fn is_interactive_not_available(error: &PromptError) -> (res: bool)
    ensures
        res == not_interactive(*error),
{
    match error {
        PromptError::NotTty => true,
        PromptError::InvalidConfiguration(_) => false,
        PromptError::Io(_) => true,
        PromptError::OperationCanceled => false,
        PromptError::OperationInterrupted => false,
        PromptError::Custom(_) => false,
    }
}

/// `r` is `question: "<message>"` with the message in cyan.
pub open spec fn auto_confirm_text(r: Seq<char>, message: Seq<char>) -> bool {
    exists|m: Seq<char>| #[trigger] painted(m, message, "36"@) && r == "question: \""@ + m + "\""@
}

/// Answers a question without asking where confirmations are automatic (`--yes`): `true`,
/// logging `Auto confirming question: "<message>"`; `None` where the user is to be asked.
pub fn auto_confirm(state: &mut LogState, yes: bool, message: &str) -> (res: (Option<bool>, Vec<String>))
    requires
        old(state).wf(),
    ensures
        yes ==> res.0 == Some(true) && exists|p: Seq<char>, s: Seq<char>|
            #![trigger painted(p, "Auto confirming"@, "1;33"@), auto_confirm_text(s, message@)]
            painted(p, "Auto confirming"@, "1;33"@) && auto_confirm_text(s, message@) && logged(
                *old(state),
                *final(state),
                strings_view(res.1@),
                p + " "@ + s,
            ),
        !yes ==> res.0 is None && res.1@.len() == 0 && *final(state) == *old(state),
{
    if yes {
        let m = paint_cyan(message);
        let mut s = "question: \"".to_string();
        s.append(m.as_str());
        s.append("\"");
        assert(auto_confirm_text(s@, message@));
        let lines = log_warn_action(state, "Auto confirming", s.as_str());
        (Some(true), lines)
    } else {
        (None, Vec::new())
    }
}

/// Takes the answer of a confirmation prompt: a prompt that could not be shown for want of
/// an interactive input counts as `false`, with a warning; other failures stay errors.
pub fn confirm_answer(state: &mut LogState, answer: Result<bool, PromptError>) -> (res: (
    Result<bool, PromptError>,
    Vec<String>,
))
    requires
        old(state).wf(),
    ensures
        match answer {
            Err(e) => if not_interactive(e) {
                &&& res.0 == Ok::<bool, PromptError>(false)
                &&& exists|p: Seq<char>|
                    #[trigger] painted(p, "warning:"@, "1;33"@) && logged(
                        *old(state),
                        *final(state),
                        strings_view(res.1@),
                        p + " "@ + "The current input device is not an interactive one,\ndefaulting to \"false\""@,
                    )
            } else {
                res.0 == Err::<bool, PromptError>(e) && res.1@.len() == 0 && *final(state) == *old(state)
            },
            Ok(b) => res.0 == Ok::<bool, PromptError>(b) && res.1@.len() == 0 && *final(state)
                == *old(state),
        },
{
    match answer {
        Ok(b) => (Ok(b), Vec::new()),
        Err(e) => {
            if is_interactive_not_available(&e) {
                let lines = log_warn(
                    state,
                    "The current input device is not an interactive one,\ndefaulting to \"false\"",
                );
                (Ok(false), lines)
            } else {
                (Err(e), Vec::new())
            }
        },
    }
}

/// `r` asks whether to deploy a component that was not found among the deployed ones, the
/// name in bold.
pub open spec fn auto_deploy_question(r: Seq<char>, component_name: Seq<char>) -> bool {
    exists|c: Seq<char>|
        #[trigger] painted(c, component_name, "1"@) && r == "Component "@ + c
            + " was not found between deployed components, do you want to deploy it, then continue?"@
}

/// The question whether to deploy a missing component, and its default answer (yes).
pub fn confirm_auto_deploy_component_question(component_name: &str) -> (res: (String, bool))
    ensures
        auto_deploy_question(res.0@, component_name@),
        res.1,
{
    let c = paint_bold(component_name);
    let mut s = "Component ".to_string();
    s.append(c.as_str());
    s.append(" was not found between deployed components, do you want to deploy it, then continue?");
    assert(auto_deploy_question(s@, component_name@));
    (s, true)
}

/// `r` asks whether to redeploy `count` workers, `delete` in bold yellow and the count in
/// bold.
pub open spec fn redeploy_workers_question(r: Seq<char>, count: nat) -> bool {
    exists|d: Seq<char>, n: Seq<char>|
        #![trigger painted(d, "delete"@, "1;33"@), painted(n, decimal(count), "1"@)]
        painted(d, "delete"@, "1;33"@) && painted(n, decimal(count), "1"@) && r
            == "Redeploying will "@ + d + " then recreate "@ + n
            + " worker(s), do you want to continue?"@
}

/// The question whether to delete and recreate workers, and its default answer (yes).
pub fn confirm_redeploy_workers_question(number_of_workers: u64) -> (res: (String, bool))
    ensures
        redeploy_workers_question(res.0@, number_of_workers as nat),
        res.1,
{
    let d = paint_yellow_bold("delete");
    let n = paint_bold(u64_to_text(number_of_workers).as_str());
    let mut s = "Redeploying will ".to_string();
    s.append(d.as_str());
    s.append(" then recreate ");
    s.append(n.as_str());
    s.append(" worker(s), do you want to continue?");
    assert(redeploy_workers_question(s@, number_of_workers as nat));
    (s, true)
}

/// `r` asks whether to delete an account, its name and email in bold.
pub open spec fn delete_account_question(r: Seq<char>, name: Seq<char>, email: Seq<char>) -> bool {
    exists|a: Seq<char>, e: Seq<char>|
        #![trigger painted(a, name, "1"@), painted(e, email, "1"@)]
        painted(a, name, "1"@) && painted(e, email, "1"@) && r
            == "Are you sure you want to delete the requested account? ("@ + a + ", "@ + e + ")"@
}

/// The question whether to delete an account, and its default answer (no).
pub fn confirm_delete_account_question(name: &str, email: &str) -> (res: (String, bool))
    ensures
        delete_account_question(res.0@, name@, email@),
        !res.1,
{
    let a = paint_bold(name);
    let e = paint_bold(email);
    let mut s = "Are you sure you want to delete the requested account? (".to_string();
    s.append(a.as_str());
    s.append(", ");
    s.append(e.as_str());
    s.append(")");
    assert(delete_account_question(s@, name@, email@));
    (s, false)
}

} // verus!
