//! Which base URL and which HTTP client each Golem service client is built with.

use crate::config::{ClientConfig, ProfileName};
use vstd::prelude::*;

verus! {

/// The service clients.
#[derive(Debug, Clone, Copy, PartialEq, Eq, Structural)]
pub enum ServiceApi {
    Account,
    AccountSummary,
    ApiCertificate,
    ApiDefinition,
    ApiDeployment,
    ApiDomain,
    ApiSecurity,
    Component,
    ComponentHealthcheck,
    Grant,
    Limits,
    Login,
    Plugin,
    Project,
    ProjectGrant,
    ProjectPolicy,
    Token,
    Worker,
    WorkerInvoke,
}

/// Which of the configured URLs a client is based on.
#[derive(Debug, Clone, Copy, PartialEq, Eq, Structural)]
pub enum BaseUrl {
    Component,
    Worker,
    Cloud,
}

/// Which HTTP client a service client uses.
#[derive(Debug, Clone, Copy, PartialEq, Eq, Structural)]
pub enum HttpClientKind {
    /// For ordinary service calls.
    Service,
    /// For worker invocations.
    Invoke,
    /// For health checks.
    HealthCheck,
    /// For health checks of the builtin local server.
    LocalHealthCheck,
}

/// The base URL and HTTP client of a service client against Golem Cloud (all of them
/// authenticated), or `None` where Golem Cloud has no such client.
pub open spec fn cloud_endpoint(api: ServiceApi) -> Option<(BaseUrl, HttpClientKind)> {
    match api {
        ServiceApi::Account | ServiceApi::Grant | ServiceApi::Project | ServiceApi::ProjectGrant
        | ServiceApi::ProjectPolicy | ServiceApi::Token | ServiceApi::Login => Some(
            (BaseUrl::Cloud, HttpClientKind::Service),
        ),
        ServiceApi::Component | ServiceApi::Plugin => Some(
            (BaseUrl::Component, HttpClientKind::Service),
        ),
        ServiceApi::WorkerInvoke => Some((BaseUrl::Worker, HttpClientKind::Invoke)),
        ServiceApi::ComponentHealthcheck => None,
        _ => Some((BaseUrl::Worker, HttpClientKind::Service)),
    }
}

/// The base URL and HTTP client of a service client against a self-hosted Golem, or
/// `None` where it has no such client; health checks of the builtin local profile use the
/// local health check client.
pub open spec fn oss_endpoint(api: ServiceApi, builtin_local: bool) -> Option<
    (BaseUrl, HttpClientKind),
> {
    match api {
        ServiceApi::ApiDefinition | ServiceApi::ApiDeployment | ServiceApi::ApiSecurity
        | ServiceApi::Worker => Some((BaseUrl::Worker, HttpClientKind::Service)),
        ServiceApi::WorkerInvoke => Some((BaseUrl::Worker, HttpClientKind::Invoke)),
        ServiceApi::Component | ServiceApi::Plugin => Some(
            (BaseUrl::Component, HttpClientKind::Service),
        ),
        ServiceApi::ComponentHealthcheck => Some(
            (
                BaseUrl::Component,
                if builtin_local {
                    HttpClientKind::LocalHealthCheck
                } else {
                    HttpClientKind::HealthCheck
                },
            ),
        ),
        _ => None,
    }
}

/// Against a self-hosted Golem, the API definition, API deployment, API security, worker
/// and invocation clients are based at the worker URL, and only the component, plugin and
/// health check clients at the component URL; no client is based at a cloud URL, and the
/// clients of Golem Cloud's own services do not exist.
pub proof fn lemma_self_hosted_bases(api: ServiceApi, builtin_local: bool)
    ensures
        (api == ServiceApi::ApiDefinition || api == ServiceApi::ApiDeployment || api
            == ServiceApi::ApiSecurity || api == ServiceApi::Worker || api
            == ServiceApi::WorkerInvoke) ==> oss_endpoint(api, builtin_local) matches Some(
            (BaseUrl::Worker, _),
        ),
        (api == ServiceApi::Component || api == ServiceApi::Plugin || api
            == ServiceApi::ComponentHealthcheck) ==> oss_endpoint(api, builtin_local) matches Some(
            (BaseUrl::Component, _),
        ),
        !(api == ServiceApi::ApiDefinition || api == ServiceApi::ApiDeployment || api
            == ServiceApi::ApiSecurity || api == ServiceApi::Worker || api
            == ServiceApi::WorkerInvoke || api == ServiceApi::Component || api
            == ServiceApi::Plugin || api == ServiceApi::ComponentHealthcheck) ==> oss_endpoint(
            api,
            builtin_local,
        ) is None,
        (api == ServiceApi::WorkerInvoke) ==> oss_endpoint(api, builtin_local) matches Some(
            (_, HttpClientKind::Invoke),
        ),
        (api != ServiceApi::WorkerInvoke && api != ServiceApi::ComponentHealthcheck)
            ==> !(oss_endpoint(api, builtin_local) matches Some((_, HttpClientKind::Invoke))),
{
}

/// The base URL and HTTP client of a service client: against Golem Cloud where a cloud
/// URL is configured, else against a self-hosted Golem.
pub fn service_endpoint(api: ServiceApi, cloud: bool, builtin_local: bool) -> (res: Option<
    (BaseUrl, HttpClientKind),
>)
    ensures
        res == if cloud {
            cloud_endpoint(api)
        } else {
            oss_endpoint(api, builtin_local)
        },
{
    if cloud {
        match api {
            ServiceApi::Account | ServiceApi::Grant | ServiceApi::Project | ServiceApi::ProjectGrant
            | ServiceApi::ProjectPolicy | ServiceApi::Token | ServiceApi::Login => Some(
                (BaseUrl::Cloud, HttpClientKind::Service),
            ),
            ServiceApi::Component | ServiceApi::Plugin => Some(
                (BaseUrl::Component, HttpClientKind::Service),
            ),
            ServiceApi::WorkerInvoke => Some((BaseUrl::Worker, HttpClientKind::Invoke)),
            ServiceApi::ComponentHealthcheck => None,
            _ => Some((BaseUrl::Worker, HttpClientKind::Service)),
        }
    } else {
        match api {
            ServiceApi::ApiDefinition | ServiceApi::ApiDeployment | ServiceApi::ApiSecurity
            | ServiceApi::Worker => Some((BaseUrl::Worker, HttpClientKind::Service)),
            ServiceApi::WorkerInvoke => Some((BaseUrl::Worker, HttpClientKind::Invoke)),
            ServiceApi::Component | ServiceApi::Plugin => Some(
                (BaseUrl::Component, HttpClientKind::Service),
            ),
            ServiceApi::ComponentHealthcheck => Some(
                (
                    BaseUrl::Component,
                    if builtin_local {
                        HttpClientKind::LocalHealthCheck
                    } else {
                        HttpClientKind::HealthCheck
                    },
                ),
            ),
            _ => None,
        }
    }
}

/// The configured URL of a base; the cloud base exists only where a cloud URL is
/// configured.
pub open spec fn base_url_of(base: BaseUrl, config: ClientConfig) -> Option<String> {
    match base {
        BaseUrl::Component => Some(config.component_url),
        BaseUrl::Worker => Some(config.worker_url),
        BaseUrl::Cloud => config.cloud_url,
    }
}

/// The configured URL of a base; the cloud base exists only where a cloud URL is
/// configured.
pub fn base_url(base: BaseUrl, config: &ClientConfig) -> (res: Option<String>)
    ensures
        res == base_url_of(base, *config),
{
    match base {
        BaseUrl::Component => Some(config.component_url.clone()),
        BaseUrl::Worker => Some(config.worker_url.clone()),
        BaseUrl::Cloud => match &config.cloud_url {
            Some(u) => Some(u.clone()),
            None => None,
        },
    }
}

/// How a service client is built: the URL it is based at, its HTTP client, and whether it
/// sends the token of an authentication.
#[derive(Debug)]
pub struct ServiceClient {
    pub base_url: String,
    pub http_client: HttpClientKind,
    pub authenticated: bool,
}

/// The endpoint of a service client for the configuration and the selected profile: the
/// Golem Cloud clients where a cloud URL is configured, else the self-hosted ones, whose
/// health check uses the local health check client for the builtin local profile.
pub open spec fn client_endpoint(api: ServiceApi, config: ClientConfig, profile_name: Seq<char>) -> Option<
    (BaseUrl, HttpClientKind),
> {
    match config.cloud_url {
        Some(_) => cloud_endpoint(api),
        None => oss_endpoint(api, profile_name == "local"@),
    }
}

/// The service client `api` as it is built for `config` and the selected profile: against
/// Golem Cloud, authenticated, where a cloud URL is configured; else against a self-hosted
/// Golem, not authenticated (`None` where that kind of Golem has no such client).
pub fn service_client(api: ServiceApi, config: &ClientConfig, profile_name: &ProfileName) -> (res:
    Option<ServiceClient>)
    ensures
        match client_endpoint(api, *config, profile_name.0@) {
            None => res is None,
            Some((base, kind)) => res matches Some(c) && base_url_of(base, *config) == Some(
                c.base_url,
            ) && c.http_client == kind && c.authenticated == (config.cloud_url is Some),
        },
{
    let cloud = config.cloud_url.is_some();
    let endpoint = service_endpoint(api, cloud, profile_name.is_builtin_local());
    match endpoint {
        None => None,
        Some((base, kind)) => match base_url(base, config) {
            Some(url) => Some(ServiceClient { base_url: url, http_client: kind, authenticated: cloud }),
            None => None,
        },
    }
}

} // verus!
