//! Selecting a Golem Cloud project by name.

use crate::cloud::AccountId;
use crate::error::NonSuccessfulExit;
use crate::log::{log_error, logged, paint_bold, painted, LogState};
use crate::text::strings_view;
use crate::text::{chars_equal, chars_of};
use vstd::prelude::*;

verus! {

/// The kind of the active profile.
#[derive(PartialEq, Eq, Structural, Clone, Copy, Debug)]
pub enum ProfileKind {
    Oss,
    Cloud,
}

/// A project as listed by the project service.
pub struct ProjectView {
    pub project_id: String,
    pub name: String,
    pub owner_account_id: AccountId,
}

/// Why no project could be selected.
pub enum ProjectSelectionError {
    /// Several projects of different accounts have the name.
    AmbiguousProjectName,
    /// Projects are a cloud feature.
    ProjectsNotSupportedByOssProfile,
}

/// The index of the first project owned by `account`.
pub open spec fn first_owned(projects: Seq<ProjectView>, account: Seq<char>) -> Option<int>
    decreases projects.len(),
{
    if projects.len() == 0 {
        None
    } else if projects[0].owner_account_id.0@ == account {
        Some(0)
    } else {
        match first_owned(projects.drop_first(), account) {
            Some(i) => Some(i + 1),
            None => None,
        }
    }
}

#[verifier::loop_isolation(false)]
/// Picks the project among those of the requested name: the first one owned by the given
/// account; without an account, the only one, where the name is unique.
pub fn select_project_by_name(projects: Vec<ProjectView>, account_id: Option<&AccountId>) -> (res:
    Result<Option<ProjectView>, ProjectSelectionError>)
    ensures
        match account_id {
            Some(a) => match first_owned(projects@, a.0@) {
                Some(i) => res matches Ok(Some(p)) && p == projects@[i],
                None => res matches Ok(None),
            },
            None => if projects@.len() == 1 {
                res matches Ok(Some(p)) && p == projects@[0]
            } else {
                res matches Err(ProjectSelectionError::AmbiguousProjectName)
            },
        },
{
    let mut projects = projects;
    match account_id {
        Some(account) => {
            let a = chars_of(account.0.as_str());
            let mut i: usize = 0;
            let ghost ps = projects@;
            assert(ps.skip(0) =~= ps);
            while i < projects.len()
                invariant
                    i <= projects.len(),
                    ps == projects@,
                    a@ == account.0@,
                    first_owned(ps, account.0@) == match first_owned(ps.skip(i as int), account.0@) {
                        Some(j) => Some(j + i),
                        None => None,
                    },
                decreases projects.len() - i,
            {
                assert(ps.skip(i as int).drop_first() =~= ps.skip(i + 1));
                assert(ps.skip(i as int)[0] == ps[i as int]);
                if chars_equal(&chars_of(projects[i].owner_account_id.0.as_str()), &a) {
                    return Ok(Some(projects.swap_remove(i)));
                }
                i = i + 1;
            }
            assert(ps.skip(i as int) =~= Seq::<ProjectView>::empty());
            Ok(None)
        },
        None => {
            if projects.len() == 1 {
                Ok(projects.pop())
            } else {
                Err(ProjectSelectionError::AmbiguousProjectName)
            }
        },
    }
}

/// What project selection does.
pub enum ProjectSelection {
    /// No project is selected.
    NoProject,
    /// The project of this name is to be looked up.
    Lookup(String),
}

/// Decides project selection for the profile kind: a self-hosted profile cannot use
/// projects; a cloud profile looks up the named project.
pub fn opt_select_project(kind: ProfileKind, project_name: Option<String>) -> (res: Result<
    ProjectSelection,
    ProjectSelectionError,
>)
    ensures
        match (kind, project_name) {
            (ProfileKind::Oss, Some(_)) => res matches Err(
                ProjectSelectionError::ProjectsNotSupportedByOssProfile,
            ),
            (_, None) => res matches Ok(ProjectSelection::NoProject),
            (ProfileKind::Cloud, Some(n)) => res matches Ok(ProjectSelection::Lookup(m)) && m == n,
        },
{
    match (kind, project_name) {
        (ProfileKind::Oss, Some(_)) => Err(ProjectSelectionError::ProjectsNotSupportedByOssProfile),
        (_, None) => Ok(ProjectSelection::NoProject),
        (ProfileKind::Cloud, Some(n)) => Ok(ProjectSelection::Lookup(n)),
    }
}

/// `r` tells that a project was not found: `Project [<account> / ]<name> not found.`, with
/// the account and the name in bold.
pub open spec fn project_not_found_text(
    r: Seq<char>,
    account_id: Option<Seq<char>>,
    project_name: Seq<char>,
) -> bool {
    match account_id {
        Some(acc) => account_project_not_found_text(r, acc, project_name),
        None => exists|n: Seq<char>|
            #[trigger] painted(n, project_name, "1"@) && r == "Project "@ + n + " not found."@,
    }
}

/// `r` is `Project <account> / <name> not found.`, with the account and the name in bold.
pub open spec fn account_project_not_found_text(
    r: Seq<char>,
    account_id: Seq<char>,
    project_name: Seq<char>,
) -> bool {
    exists|a: Seq<char>, n: Seq<char>|
        #![trigger painted(n, project_name, "1"@), painted(a, account_id, "1"@)]
        painted(n, project_name, "1"@) && painted(a, account_id, "1"@) && r == "Project "@ + a
            + " / "@ + n + " not found."@
}

/// The account id's text, if an account is given.
pub open spec fn account_text(account_id: Option<&AccountId>) -> Option<Seq<char>> {
    match account_id {
        Some(acc) => Some(acc.0@),
        None => None,
    }
}

fn project_not_found_message(account_id: Option<&AccountId>, project_name: &str) -> (res: String)
    ensures
        project_not_found_text(res@, account_text(account_id), project_name@),
{
    let n = paint_bold(project_name);
    let mut res = "Project ".to_string();
    match account_id {
        Some(acc) => {
            let a = paint_bold(acc.0.as_str());
            res.append(a.as_str());
            res.append(" / ");
            res.append(n.as_str());
            res.append(" not found.");
            assert(painted(n@, project_name@, "1"@) && painted(a@, acc.0@, "1"@));
            assert(account_project_not_found_text(res@, acc.0@, project_name@));
        },
        None => {
            res.append(n.as_str());
            res.append(" not found.");
            assert(painted(n@, project_name@, "1"@));
        },
    }
    res
}

/// Reports a project that was not found: logs `Project [<account> / ]<name> not found.` as an
/// error (`error:` in bold red) and answers with the error that ends the command without
/// success.
pub fn project_not_found(
    state: &mut LogState,
    account_id: Option<&AccountId>,
    project_name: &str,
) -> (res: (NonSuccessfulExit, Vec<String>))
    requires
        old(state).wf(),
    ensures
        exists|p: Seq<char>, m: Seq<char>|
            #![trigger painted(p, "error:"@, "1;31"@), project_not_found_text(m, account_text(account_id), project_name@)]
            painted(p, "error:"@, "1;31"@) && project_not_found_text(
                m,
                account_text(account_id),
                project_name@,
            ) && logged(*old(state), *final(state), strings_view(res.1@), p + " "@ + m),
{
    let m = project_not_found_message(account_id, project_name);
    let lines = log_error(state, m.as_str());
    (NonSuccessfulExit, lines)
}

} // verus!
