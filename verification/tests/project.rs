use golem_cli::cloud::AccountId;
use golem_cli::log::LogState;
use golem_cli::command_handler::cloud::project::{
    opt_select_project, project_not_found, select_project_by_name, ProfileKind, ProjectSelection,
    ProjectSelectionError, ProjectView,
};

fn plain(s: &str) -> String {
    let mut out = String::new();
    let mut chars = s.chars().peekable();
    while let Some(c) = chars.next() {
        if c == '\x1b' {
            for d in chars.by_ref() {
                if d == 'm' {
                    break;
                }
            }
        } else {
            out.push(c);
        }
    }
    out
}

fn project(id: &str, owner: &str) -> ProjectView {
    ProjectView {
        project_id: id.to_string(),
        name: "shop".to_string(),
        owner_account_id: AccountId::from_str_id(owner),
    }
}

#[test]
fn project_of_the_given_account() {
    let projects = vec![project("p1", "acc-1"), project("p2", "acc-2"), project("p3", "acc-2")];
    match select_project_by_name(projects, Some(&AccountId::from_str_id("acc-2"))) {
        Ok(Some(p)) => assert_eq!(p.project_id, "p2"),
        _ => panic!("expected a project"),
    }
    let projects = vec![project("p1", "acc-1")];
    assert!(matches!(
        select_project_by_name(projects, Some(&AccountId::from_str_id("acc-9"))),
        Ok(None)
    ));
}

#[test]
fn project_name_without_account_must_be_unique() {
    match select_project_by_name(vec![project("p1", "a")], None) {
        Ok(Some(p)) => assert_eq!(p.project_id, "p1"),
        _ => panic!("expected a project"),
    }
    assert!(matches!(
        select_project_by_name(vec![project("p1", "a"), project("p2", "b")], None),
        Err(ProjectSelectionError::AmbiguousProjectName)
    ));
    assert!(matches!(
        select_project_by_name(vec![], None),
        Err(ProjectSelectionError::AmbiguousProjectName)
    ));
}

#[test]
fn project_selection_by_profile_kind() {
    assert!(matches!(
        opt_select_project(ProfileKind::Oss, Some("p".to_string())),
        Err(ProjectSelectionError::ProjectsNotSupportedByOssProfile)
    ));
    assert!(matches!(opt_select_project(ProfileKind::Oss, None), Ok(ProjectSelection::NoProject)));
    assert!(matches!(
        opt_select_project(ProfileKind::Cloud, Some("p".to_string())),
        Ok(ProjectSelection::Lookup(n)) if n == "p"
    ));
}

#[test]
fn project_not_found_is_logged_as_an_error() {
    let mut state = LogState::new(None);
    let (_exit, lines) = project_not_found(&mut state, None, "shop");
    assert_eq!(
        lines.iter().map(|l| plain(l)).collect::<Vec<_>>(),
        vec!["error: Project shop not found."]
    );
    let (_exit, lines) =
        project_not_found(&mut state, Some(&AccountId::from_str_id("acc")), "shop");
    assert_eq!(
        lines.iter().map(|l| plain(l)).collect::<Vec<_>>(),
        vec!["error: Project acc / shop not found."]
    );
}

#[test]
fn a_name_holding_a_reset_keeps_its_style_after_it() {
    colored::control::set_override(true);
    let mut state = LogState::new(None);
    let (_exit, lines) = project_not_found(&mut state, None, "a\x1b[0mb");
    assert_eq!(
        lines,
        vec!["\x1b[1;31merror:\x1b[0m Project \x1b[1ma\x1b[0m\x1b[1mb\x1b[0m not found.".to_string()]
    );
}
