use golem_cli::command_handler::rib_repl::repl_component;

#[test]
fn the_repl_works_on_one_selected_component() {
    assert_eq!(repl_component(vec!["shop".to_string()]), Ok("shop".to_string()));
    assert_eq!(
        repl_component(vec![]),
        Err("Only one component is supported".to_string())
    );
    assert_eq!(
        repl_component(vec!["a".to_string(), "b".to_string()]),
        Err("Only one component is supported".to_string())
    );
}
