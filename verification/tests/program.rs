use golem_cli::{command_name, version};

#[test]
fn the_command_is_named_after_the_executable() {
    assert_eq!(command_name(Some("golem".to_string())), "golem");
    assert_eq!(command_name(None), "golem-cli");
}

#[test]
fn unversioned_builds_show_the_git_tag() {
    assert_eq!(version("1.2.3", "v1.2.3-4-gabc"), "1.2.3");
    assert_eq!(version("0.0.0", "v1.2.3-4-gabc"), "v1.2.3-4-gabc");
}
