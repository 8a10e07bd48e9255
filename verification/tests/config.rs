use golem_cli::config::{
    ClientConfig, Config, ConfigError, EnvVars, Format, HttpClientConfig, OssProfile, Profile,
    ProfileConfig, ProfileName, TimeSpan,
};

fn oss(url: &str) -> Profile {
    Profile::Golem(OssProfile {
        url: url.to_string(),
        worker_url: None,
        allow_insecure: false,
        config: ProfileConfig::new(),
    })
}

fn env(vars: &[(&str, &str)]) -> EnvVars {
    EnvVars {
        vars: vars.iter().map(|(k, v)| (k.to_string(), v.to_string())).collect(),
    }
}

#[test]
fn builtin_profile_names() {
    assert_eq!(ProfileName::local().0, "local");
    assert_eq!(ProfileName::cloud().0, "cloud");
    assert!(ProfileName::cloud().is_builtin_cloud());
    assert!(!ProfileName::local().is_builtin_cloud());
    assert!(ProfileName::local().is_builtin());
    assert!(!ProfileName("staging".to_string()).is_builtin());
    assert!(ProfileName("a".to_string()).same_as(&ProfileName("a".to_string())));
}

#[test]
fn default_profile_config_is_text() {
    assert_eq!(ProfileConfig::new().default_format, Format::Text);
}

#[test]
fn set_profile_then_get_profile_gives_it_back() {
    let mut config = Config::new();
    config.set_profile(ProfileName("dev".to_string()), oss("http://dev:9881"));
    config.set_profile(ProfileName("prod".to_string()), oss("http://prod:9881"));
    config.set_profile(ProfileName("dev".to_string()), oss("http://dev2:9881"));
    assert_eq!(config.profile_names(), vec!["dev".to_string(), "prod".to_string()]);
    match config.get_profile(&ProfileName("dev".to_string())) {
        Some(Profile::Golem(p)) => assert_eq!(p.url, "http://dev2:9881"),
        other => panic!("unexpected {:?}", other),
    }
}

#[test]
fn get_profile_of_unknown_name_is_none() {
    let mut config = Config::new();
    config.set_profile(ProfileName("dev".to_string()), oss("http://dev:9881"));
    assert!(config.get_profile(&ProfileName("other".to_string())).is_none());
}

#[test]
fn set_active_profile_name_of_unknown_profile_fails() {
    let mut config = Config::new();
    config.set_profile(ProfileName("a".to_string()), oss("http://a"));
    config.set_profile(ProfileName("b".to_string()), oss("http://b"));
    match config.set_active_profile_name(ProfileName("c".to_string())) {
        Err(e) => assert_eq!(
            e.message(),
            "No profile c in configuration. Available profiles: [a, b]"
        ),
        Ok(()) => panic!("expected an error"),
    }
    assert!(config.active_profile.is_none());
}

#[test]
fn set_active_profile_name_then_get_active_profile() {
    let mut config = Config::new();
    config.set_profile(ProfileName("a".to_string()), oss("http://a"));
    config.set_profile(ProfileName("b".to_string()), oss("http://b"));
    assert!(config.set_active_profile_name(ProfileName("b".to_string())).is_ok());
    assert_eq!(config.active_profile.as_ref().unwrap().0, "b");
    let active = config.get_active_profile(None);
    assert_eq!(active.name.0, "b");
    match active.profile {
        Profile::Golem(p) => assert_eq!(p.url, "http://b"),
        _ => panic!("expected a local profile"),
    }
}

#[test]
fn config_error_message_lists_available_profiles() {
    let e = ConfigError::ProfileNotFound {
        name: ProfileName("x".to_string()),
        available: vec![],
    };
    assert_eq!(e.message(), "No profile x in configuration. Available profiles: []");
}

#[test]
fn http_client_defaults_without_environment() {
    let e = env(&[]);
    let service = HttpClientConfig::new_for_service_calls(true, &e);
    assert!(service.allow_insecure);
    assert_eq!(service.timeout, None);
    assert_eq!(service.connect_timeout, None);
    assert_eq!(service.read_timeout, None);
    let health = HttpClientConfig::new_for_health_check(false, &e);
    assert_eq!(health.timeout, Some(TimeSpan { secs: 2, nanos: 0 }));
    assert_eq!(health.connect_timeout, Some(TimeSpan { secs: 1, nanos: 0 }));
    assert_eq!(health.read_timeout, Some(TimeSpan { secs: 1, nanos: 0 }));
    let download = HttpClientConfig::new_for_file_download(false, &e);
    assert_eq!(download.timeout, Some(TimeSpan { secs: 60, nanos: 0 }));
    assert_eq!(download.connect_timeout, Some(TimeSpan { secs: 10, nanos: 0 }));
    assert_eq!(download.read_timeout, Some(TimeSpan { secs: 60, nanos: 0 }));
}

#[test]
fn http_client_timeouts_overridden_by_iso8601_environment() {
    let e = env(&[
        ("GOLEM_HTTP_HEALTHCHECK_TIMEOUT", "PT5S"),
        ("GOLEM_HTTP_HEALTHCHECK_READ_TIMEOUT", "PT1M30S"),
        ("GOLEM_HTTP_TIMEOUT", "PT2S"),
    ]);
    let health = HttpClientConfig::new_for_health_check(false, &e);
    assert_eq!(health.timeout, Some(TimeSpan { secs: 5, nanos: 0 }));
    assert_eq!(health.connect_timeout, Some(TimeSpan { secs: 1, nanos: 0 }));
    assert_eq!(health.read_timeout, Some(TimeSpan { secs: 90, nanos: 0 }));
    let service = HttpClientConfig::new_for_service_calls(false, &e);
    assert_eq!(service.timeout, Some(TimeSpan { secs: 2, nanos: 0 }));
}

#[test]
fn http_client_timeout_with_invalid_duration_is_kept() {
    let e = env(&[("GOLEM_HTTP_FILE_DOWNLOAD_CONNECT_TIMEOUT", "ten seconds")]);
    let download = HttpClientConfig::new_for_file_download(false, &e);
    assert_eq!(download.connect_timeout, Some(TimeSpan { secs: 10, nanos: 0 }));
}

#[test]
fn env_vars_first_value_wins() {
    let e = env(&[("A", "1"), ("A", "2")]);
    assert_eq!(e.get("A").map(|s| s.as_str()), Some("1"));
    assert!(e.get("B").is_none());
}

#[test]
fn client_config_of_local_profile() {
    let e = env(&[]);
    let profile = Profile::Golem(OssProfile {
        url: "http://localhost:9881".to_string(),
        worker_url: Some("http://localhost:9005".to_string()),
        allow_insecure: true,
        config: ProfileConfig::new(),
    });
    let c = ClientConfig::from_profile(&profile, &e);
    assert_eq!(c.component_url, "http://localhost:9881");
    assert_eq!(c.worker_url, "http://localhost:9005");
    assert!(c.cloud_url.is_none());
    assert!(c.service_http_client_config.allow_insecure);
    let c2 = ClientConfig::from_profile(&oss("http://x"), &e);
    assert_eq!(c2.worker_url, "http://x");
}

#[test]
fn profiles_are_kept_in_name_order() {
    let mut config = Config::new();
    config.set_profile(ProfileName("zeta".to_string()), oss("http://z"));
    config.set_profile(ProfileName("alpha".to_string()), oss("http://a"));
    config.set_profile(ProfileName("Beta".to_string()), oss("http://b"));
    config.set_profile(ProfileName("alp".to_string()), oss("http://p"));
    assert_eq!(
        config.profile_names(),
        vec!["Beta".to_string(), "alp".to_string(), "alpha".to_string(), "zeta".to_string()]
    );
    match config.set_active_profile_name(ProfileName("x".to_string())) {
        Err(e) => assert_eq!(
            e.message(),
            "No profile x in configuration. Available profiles: [Beta, alp, alpha, zeta]"
        ),
        Ok(()) => panic!("expected an error"),
    }
}
