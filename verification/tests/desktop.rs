use golem_cli::desktop::{
    app_new_args, create_app_outcome, validate_command_inputs, validate_create_app_inputs,
    Storage,
};

#[test]
fn creating_an_app_needs_all_inputs() {
    assert_eq!(validate_create_app_inputs("/apps", "shop", "rust"), Ok(()));
    for (folder, name, language) in [("", "shop", "rust"), ("/apps", "", "rust"), ("/apps", "shop", "")] {
        assert_eq!(
            validate_create_app_inputs(folder, name, language),
            Err("Folder path, application name, and language are required".to_string())
        );
    }
}

#[test]
fn commands_need_a_folder_and_a_command() {
    assert_eq!(validate_command_inputs("/apps", "build"), Ok(()));
    assert_eq!(
        validate_command_inputs("", "build"),
        Err("Folder path and command  are required".to_string())
    );
    assert_eq!(
        validate_command_inputs("/apps", ""),
        Err("Folder path and command  are required".to_string())
    );
}

#[test]
fn app_creation_arguments() {
    assert_eq!(app_new_args("shop", "rust"), vec!["app", "new", "shop", "rust"]);
}

#[test]
fn app_creation_outcome() {
    assert_eq!(
        create_app_outcome("shop", true, b"created\n", b""),
        Ok("Successfully created application: shop\ncreated\n".to_string())
    );
    assert_eq!(
        create_app_outcome("shop", false, b"", b"bad \xff name"),
        Err("Failed to create application: bad \u{FFFD} name".to_string())
    );
}

#[test]
fn the_backend_address_reads_back_what_was_set() {
    let mut storage = Storage::new();
    assert_eq!(storage.get_backend_ip(), "http://localhost:9881");
    storage.update_backend_ip("http://10.0.0.2:9881".to_string());
    assert_eq!(storage.get_backend_ip(), "http://10.0.0.2:9881");
}
