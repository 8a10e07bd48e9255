use golem_cli::config::{
    CloudProfile, Config, Format, NamedProfile, OssProfile, Profile, ProfileConfig, ProfileName,
};
use golem_cli::context::{
    auth_profile_name, context_settings, load_merged_profiles, local_server_check_needed, log_output_for, log_selected_profile,
    AppContextError, ApplicationContextConfig, ApplicationContextState, ApplicationSourceMode,
    ContextFlags, ManifestProfile, ProfileSelectionError,
};
use golem_cli::log::{LogState, Output};

fn oss(url: &str) -> Profile {
    Profile::Golem(OssProfile {
        url: url.to_string(),
        worker_url: None,
        allow_insecure: false,
        config: ProfileConfig::new(),
    })
}

fn cloud_profile() -> Profile {
    Profile::GolemCloud(CloudProfile {
        custom_url: None,
        custom_cloud_url: None,
        custom_worker_url: None,
        allow_insecure: false,
        config: ProfileConfig::new(),
        auth: None,
    })
}

fn manifest_profile() -> ManifestProfile {
    ManifestProfile {
        default: None,
        cloud: None,
        project: None,
        url: None,
        worker_url: None,
        format: None,
        build_profile: None,
        auto_confirm: None,
        redeploy_workers: None,
        redeploy_http_api: None,
        redeploy_all: None,
    }
}

fn config() -> Config {
    let mut c = Config::new();
    c.set_profile(ProfileName::local(), oss("http://localhost:9881"));
    c.set_profile(ProfileName::cloud(), cloud_profile());
    c
}

fn name(s: &str) -> ProfileName {
    ProfileName(s.to_string())
}

#[test]
fn merged_profile_from_global_configuration() {
    let c = config();
    let merged = load_merged_profiles(&c, None, None, Some(&name("local")), &vec![]).ok().unwrap();
    assert_eq!(merged.profile.name.0, "local");
    match merged.profile.profile {
        Profile::Golem(p) => assert_eq!(p.url, "http://localhost:9881"),
        _ => panic!("expected a local profile"),
    }
    assert!(merged.manifest_profile.is_none());
    assert_eq!(merged.available_profile_names, vec!["cloud".to_string(), "local".to_string()]);
}

#[test]
fn merged_profile_applies_manifest_format() {
    let c = config();
    let mut mp = manifest_profile();
    mp.format = Some(Format::Json);
    let manifest = vec![(name("local"), mp)];
    let merged = load_merged_profiles(&c, None, None, Some(&name("local")), &manifest).ok().unwrap();
    match merged.profile.profile {
        Profile::Golem(p) => assert_eq!(p.config.default_format, Format::Json),
        _ => panic!("expected a local profile"),
    }
    assert!(merged.manifest_profile.is_some());
}

#[test]
fn merged_profile_only_in_manifest() {
    let c = config();
    let mut mp = manifest_profile();
    mp.url = Some("http://dev:9881".to_string());
    mp.default = Some(true);
    let manifest = vec![(name("dev"), mp)];
    let merged = load_merged_profiles(&c, None, None, None, &manifest).ok().unwrap();
    assert_eq!(merged.profile.name.0, "dev");
    match merged.profile.profile {
        Profile::Golem(p) => {
            assert_eq!(p.url, "http://dev:9881");
            assert!(!p.allow_insecure);
        }
        _ => panic!("expected a local profile"),
    }
    assert_eq!(
        merged.available_profile_names,
        vec!["cloud".to_string(), "dev".to_string(), "local".to_string()]
    );
}

#[test]
fn merged_manifest_profile_defaults_to_local_server_url() {
    let c = config();
    let manifest = vec![(name("dev"), manifest_profile())];
    let merged = load_merged_profiles(&c, None, None, Some(&name("dev")), &manifest).ok().unwrap();
    match merged.profile.profile {
        Profile::Golem(p) => assert_eq!(p.url, "http://localhost:9881"),
        _ => panic!("expected a local profile"),
    }
}

#[test]
fn merged_profile_errors() {
    let c = config();
    let mut as_cloud = manifest_profile();
    as_cloud.cloud = Some(true);
    match load_merged_profiles(&c, None, None, Some(&name("local")), &vec![(name("local"), as_cloud)]) {
        Err(ProfileSelectionError::OssProfileUsedAsCloud { name }) => assert_eq!(name.0, "local"),
        _ => panic!("expected an error"),
    }
    let mut with_url = manifest_profile();
    with_url.url = Some("http://x".to_string());
    match load_merged_profiles(&c, None, None, Some(&name("local")), &vec![(name("local"), with_url)]) {
        Err(ProfileSelectionError::UrlOverride { name }) => assert_eq!(name.0, "local"),
        _ => panic!("expected an error"),
    }
    match load_merged_profiles(&c, None, None, Some(&name("cloud")), &vec![(name("cloud"), manifest_profile())]) {
        Ok(merged) => assert!(matches!(merged.profile.profile, Profile::GolemCloud(_))),
        Err(_) => panic!("expected a cloud profile"),
    }
    match load_merged_profiles(&c, None, None, Some(&name("nope")), &vec![(name("dev"), manifest_profile())]) {
        Err(ProfileSelectionError::ProfileNotFound { name, manifest_profile_names }) => {
            assert_eq!(name.0, "nope");
            assert_eq!(manifest_profile_names, vec!["dev".to_string()]);
        }
        _ => panic!("expected an error"),
    }
}

#[test]
fn merged_profile_falls_back_to_default_profile() {
    let c = config();
    let default = NamedProfile { name: name("local"), profile: oss("http://localhost:9881") };
    let merged = load_merged_profiles(&c, Some(default), None, None, &vec![]).ok().unwrap();
    assert_eq!(merged.profile.name.0, "local");
}

fn flags() -> ContextFlags {
    ContextFlags {
        local: false,
        cloud: false,
        profile: None,
        build_profile: None,
        app_manifest_path: None,
        disable_app_manifest_discovery: false,
        golem_rust_path: None,
        golem_rust_version: None,
        wasm_rpc_offline: false,
    }
}

#[test]
fn context_config_profile_flags() {
    let mut f = flags();
    f.local = true;
    f.profile = Some(name("p"));
    assert_eq!(ApplicationContextConfig::new(f).requested_profile_name.unwrap().0, "local");
    let mut f = flags();
    f.cloud = true;
    assert_eq!(ApplicationContextConfig::new(f).requested_profile_name.unwrap().0, "cloud");
    let mut f = flags();
    f.profile = Some(name("p"));
    assert_eq!(ApplicationContextConfig::new(f).requested_profile_name.unwrap().0, "p");
    assert!(ApplicationContextConfig::new(flags()).requested_profile_name.is_none());
}

#[test]
fn context_config_source_mode() {
    assert!(matches!(
        ApplicationContextConfig::new(flags()).app_source_mode(),
        ApplicationSourceMode::Automatic
    ));
    let mut f = flags();
    f.app_manifest_path = Some("golem.yaml".to_string());
    match ApplicationContextConfig::new(f).app_source_mode() {
        ApplicationSourceMode::ByRootManifest(p) => assert_eq!(p, "golem.yaml"),
        _ => panic!("expected a root manifest"),
    }
    let mut f = flags();
    f.app_manifest_path = Some("golem.yaml".to_string());
    f.disable_app_manifest_discovery = true;
    assert!(matches!(
        ApplicationContextConfig::new(f).app_source_mode(),
        ApplicationSourceMode::Disabled
    ));
}

#[test]
fn application_context_loads_once() {
    let mut f = flags();
    f.build_profile = Some("release".to_string());
    let config = ApplicationContextConfig::new(f);
    let mut state: ApplicationContextState<String, u8> =
        ApplicationContextState::new(config.app_source_mode());
    let first = state.init_config(&config).unwrap();
    assert!(matches!(first.source_mode, ApplicationSourceMode::Automatic));
    assert_eq!(first.build_profile.as_deref(), Some("release"));
    state.init_complete(Ok(Some("app".to_string())));
    assert!(state.init_config(&config).is_none());
    assert_eq!(state.some_or_err().ok().map(|s| s.as_str()), Some("app"));
    if let Ok(app) = state.some_or_err_mut() {
        app.push_str("-changed");
    }
    assert_eq!(state.opt().ok().flatten().map(|s| s.as_str()), Some("app-changed"));
}

#[test]
fn application_context_without_manifest_or_with_failure() {
    let mut none: ApplicationContextState<String, u8> =
        ApplicationContextState::new(ApplicationSourceMode::Disabled);
    none.init_complete(Ok(None));
    assert!(matches!(none.opt(), Ok(None)));
    assert!(matches!(none.some_or_err(), Err(AppContextError::NoApplicationManifestFound)));
    let mut failed: ApplicationContextState<String, u8> =
        ApplicationContextState::new(ApplicationSourceMode::Automatic);
    failed.init_complete(Err("broken manifest".to_string()));
    match failed.opt_mut() {
        Err(AppContextError::LoadFailed(m)) => assert_eq!(m, "broken manifest"),
        _ => panic!("expected a load failure"),
    }
}

fn plain(s: &str) -> String {
    let mut out = String::new();
    let mut chars = s.chars().peekable();
    while let Some(c) = chars.next() {
        if c == '\x1b' {
            for d in chars.by_ref() {
                if d == 'm' {
                    break;
                }
            }
        } else {
            out.push(c);
        }
    }
    out
}

#[test]
fn profile_selection_error_messages() {
    assert_eq!(
        ProfileSelectionError::OssProfileUsedAsCloud { name: name("local") }.message(),
        Some("Profile local is a global OSS profile, cannot be used as Cloud profile in the manifest.".to_string())
    );
    assert_eq!(
        ProfileSelectionError::CloudProfileUsedAsOss { name: name("cloud") }.message(),
        Some("Profile cloud is a global Cloud profile, cannot be used as OSS profile in the manifest.".to_string())
    );
    assert_eq!(
        ProfileSelectionError::UrlOverride { name: name("local") }.message().map(|m| plain(&m)),
        Some("Cannot override url for global profile local in application manifest!".to_string())
    );
    assert_eq!(
        ProfileSelectionError::WorkerUrlOverride { name: name("local") }.message().map(|m| plain(&m)),
        Some("Cannot override worker url for global profile local in application manifest!".to_string())
    );
    assert!(ProfileSelectionError::ProfileNotFound { name: name("x"), manifest_profile_names: vec![] }
        .message()
        .is_none());
}

#[test]
fn context_settings_without_a_manifest_profile() {
    let mut app_config = ApplicationContextConfig::new(flags());
    let settings = context_settings(None, false, None, &oss("http://localhost:9881"), &None, &mut app_config);
    assert_eq!(settings.format, Format::Text);
    assert!(!settings.yes);
    assert!(!settings.confirm_local_server_start);
    assert!(settings.update_or_redeploy.update_workers.is_none());
    assert!(!settings.update_or_redeploy.redeploy_workers);
    assert!(!settings.update_or_redeploy.redeploy_http_api);
    assert!(!settings.update_or_redeploy.redeploy_all);
    assert_eq!(settings.http_batch_size, 50);
    assert!(app_config.build_profile.is_none());
}

#[test]
fn context_settings_take_the_manifest_profile() {
    let mut app_config = ApplicationContextConfig::new(flags());
    let mut m = manifest_profile();
    m.build_profile = Some("release".to_string());
    m.auto_confirm = Some(true);
    m.redeploy_workers = Some(true);
    m.redeploy_http_api = Some(false);
    m.redeploy_all = Some(true);
    let mut profile = oss("http://localhost:9881");
    let mut pc = ProfileConfig::new();
    pc.default_format = Format::Yaml;
    profile.set_config(pc);
    let settings = context_settings(None, false, Some(10), &profile, &Some(m), &mut app_config);
    assert_eq!(settings.format, Format::Yaml);
    assert!(settings.yes);
    assert!(settings.confirm_local_server_start);
    assert!(settings.update_or_redeploy.redeploy_workers);
    assert!(!settings.update_or_redeploy.redeploy_http_api);
    assert!(settings.update_or_redeploy.redeploy_all);
    assert_eq!(settings.http_batch_size, 10);
    assert_eq!(app_config.build_profile.as_deref(), Some("release"));
}

#[test]
fn context_settings_prefer_the_flags() {
    let mut f = flags();
    f.build_profile = Some("debug".to_string());
    let mut app_config = ApplicationContextConfig::new(f);
    let mut m = manifest_profile();
    m.build_profile = Some("release".to_string());
    let settings =
        context_settings(Some(Format::Json), true, None, &cloud_profile(), &Some(m), &mut app_config);
    assert_eq!(settings.format, Format::Json);
    assert!(settings.yes);
    assert!(!settings.confirm_local_server_start);
    assert_eq!(app_config.build_profile.as_deref(), Some("debug"));
}

#[test]
fn structured_formats_log_to_standard_error() {
    assert!(matches!(log_output_for(Format::Json), Output::Stderr));
    assert!(matches!(log_output_for(Format::Yaml), Output::Stderr));
    assert!(matches!(log_output_for(Format::Text), Output::Stdout));
}

#[test]
fn selected_profile_is_logged() {
    let mut state = LogState::new(None);
    let lines = log_selected_profile(&mut state, "local", None);
    assert_eq!(lines.iter().map(|l| plain(l)).collect::<Vec<_>>(), vec!["Selected profile: local"]);
    let lines = log_selected_profile(&mut state, "cloud", Some("acme/prod"));
    assert_eq!(
        lines.iter().map(|l| plain(l)).collect::<Vec<_>>(),
        vec!["Selected profile: cloud, project: acme/prod"]
    );
}

#[test]
fn build_settings_given_before_loading_are_used() {
    let config = ApplicationContextConfig::new(flags());
    let mut state: ApplicationContextState<String, u8> =
        ApplicationContextState::new(config.app_source_mode());
    state.set_skip_up_to_date_checks(true);
    state.set_steps_filter(vec![2, 5]);
    assert!(state.skip_up_to_date_checks_was_set);
    assert!(state.build_steps_filter_was_set);
    let app_config = state.init_config(&config).unwrap();
    assert!(app_config.skip_up_to_date_checks);
    assert_eq!(app_config.steps_filter, vec![2, 5]);
}

#[test]
fn clients_authenticate_under_the_custom_cloud_profile() {
    assert_eq!(auth_profile_name(&name("cloud"), &Some(name("acme"))).0, "acme");
    assert_eq!(auth_profile_name(&name("cloud"), &None).0, "cloud");
    assert_eq!(auth_profile_name(&name("staging"), &Some(name("acme"))).0, "staging");
}

#[test]
fn only_the_builtin_local_server_is_started() {
    assert!(local_server_check_needed(true, &name("local"), true));
    assert!(!local_server_check_needed(false, &name("local"), true));
    assert!(!local_server_check_needed(true, &name("cloud"), true));
    assert!(!local_server_check_needed(true, &name("local"), false));
}
