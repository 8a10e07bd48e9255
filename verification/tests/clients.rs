use golem_cli::clients::{
    base_url, service_client, service_endpoint, BaseUrl, HttpClientKind, ServiceApi,
};
use golem_cli::config::{ClientConfig, EnvVars, OssProfile, Profile, ProfileConfig, ProfileName};

#[test]
fn cloud_clients_route_to_their_services() {
    assert_eq!(service_endpoint(ServiceApi::Project, true, false), Some((BaseUrl::Cloud, HttpClientKind::Service)));
    assert_eq!(service_endpoint(ServiceApi::Plugin, true, false), Some((BaseUrl::Component, HttpClientKind::Service)));
    assert_eq!(service_endpoint(ServiceApi::ApiDomain, true, false), Some((BaseUrl::Worker, HttpClientKind::Service)));
    assert_eq!(service_endpoint(ServiceApi::WorkerInvoke, true, false), Some((BaseUrl::Worker, HttpClientKind::Invoke)));
    assert_eq!(service_endpoint(ServiceApi::ComponentHealthcheck, true, false), None);
}

#[test]
fn self_hosted_clients_route_to_their_services() {
    assert_eq!(service_endpoint(ServiceApi::Worker, false, false), Some((BaseUrl::Worker, HttpClientKind::Service)));
    assert_eq!(
        service_endpoint(ServiceApi::ComponentHealthcheck, false, true),
        Some((BaseUrl::Component, HttpClientKind::LocalHealthCheck))
    );
    assert_eq!(
        service_endpoint(ServiceApi::ComponentHealthcheck, false, false),
        Some((BaseUrl::Component, HttpClientKind::HealthCheck))
    );
    assert_eq!(service_endpoint(ServiceApi::Account, false, false), None);
}

#[test]
fn base_urls_of_a_local_profile() {
    let profile = Profile::Golem(OssProfile {
        url: "http://localhost:9881".to_string(),
        worker_url: Some("http://localhost:9005".to_string()),
        allow_insecure: false,
        config: ProfileConfig::new(),
    });
    let config = ClientConfig::from_profile(&profile, &EnvVars { vars: vec![] });
    assert_eq!(base_url(BaseUrl::Component, &config).as_deref(), Some("http://localhost:9881"));
    assert_eq!(base_url(BaseUrl::Worker, &config).as_deref(), Some("http://localhost:9005"));
    assert_eq!(base_url(BaseUrl::Cloud, &config), None);
}

fn local_config() -> ClientConfig {
    let profile = Profile::Golem(OssProfile {
        url: "http://localhost:9881".to_string(),
        worker_url: Some("http://localhost:9005".to_string()),
        allow_insecure: false,
        config: ProfileConfig::new(),
    });
    ClientConfig::from_profile(&profile, &EnvVars { vars: vec![] })
}

#[test]
fn without_a_cloud_url_the_clients_are_self_hosted() {
    let config = local_config();
    let local = ProfileName("local".to_string());
    let other = ProfileName("staging".to_string());
    let c = service_client(ServiceApi::Component, &config, &local).unwrap();
    assert_eq!(c.base_url, "http://localhost:9881");
    assert_eq!(c.http_client, HttpClientKind::Service);
    assert!(!c.authenticated);
    let w = service_client(ServiceApi::WorkerInvoke, &config, &local).unwrap();
    assert_eq!(w.base_url, "http://localhost:9005");
    assert_eq!(w.http_client, HttpClientKind::Invoke);
    let h = service_client(ServiceApi::ComponentHealthcheck, &config, &local).unwrap();
    assert_eq!(h.http_client, HttpClientKind::LocalHealthCheck);
    let h = service_client(ServiceApi::ComponentHealthcheck, &config, &other).unwrap();
    assert_eq!(h.http_client, HttpClientKind::HealthCheck);
    assert!(service_client(ServiceApi::Project, &config, &local).is_none());
}

#[test]
fn with_a_cloud_url_the_clients_are_authenticated_cloud_clients() {
    let mut config = local_config();
    config.cloud_url = Some("https://cloud.example".to_string());
    let name = ProfileName("cloud".to_string());
    let p = service_client(ServiceApi::Project, &config, &name).unwrap();
    assert_eq!(p.base_url, "https://cloud.example");
    assert!(p.authenticated);
    let w = service_client(ServiceApi::ApiDomain, &config, &name).unwrap();
    assert_eq!(w.base_url, "http://localhost:9005");
    assert!(service_client(ServiceApi::ComponentHealthcheck, &config, &name).is_none());
}
