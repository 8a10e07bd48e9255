//! Profile selection at start-up and the lazily initialised application context state.

use crate::command::shared_args::UpdateOrRedeployArgs;
use crate::config::{
    lookup_profile, profile_config_of, CloudProfile, Config, Format, NamedProfile, OssProfile, Profile,
    ProfileConfig, ProfileName,
};
use crate::log::{log_action, logged, paint_bold, painted, LogState, Output};
use crate::text::strings_view;
use vstd::prelude::*;

verus! {

/// A profile of the application manifest (`golem.yaml`).
#[derive(Debug)]
pub struct ManifestProfile {
    pub default: Option<bool>,
    pub cloud: Option<bool>,
    pub project: Option<String>,
    pub url: Option<String>,
    pub worker_url: Option<String>,
    pub format: Option<Format>,
    pub build_profile: Option<String>,
    pub auto_confirm: Option<bool>,
    pub redeploy_workers: Option<bool>,
    pub redeploy_http_api: Option<bool>,
    pub redeploy_all: Option<bool>,
}

fn dup_opt(s: &Option<String>) -> (res: Option<String>)
    ensures
        res == *s,
{
    match s {
        Some(v) => Some(v.clone()),
        None => None,
    }
}

impl ManifestProfile {
    /// Whether the manifest declares this a cloud profile.
    pub open spec fn spec_is_cloud(&self) -> bool {
        self.cloud == Some(true)
    }

    /// Whether the manifest declares this a cloud profile.
    pub fn is_cloud(&self) -> (res: bool)
        ensures
            res == self.spec_is_cloud(),
    {
        match self.cloud {
            Some(true) => true,
            _ => false,
        }
    }

    /// A copy of this profile.
    pub fn duplicate(&self) -> (res: Self)
        ensures
            res == *self,
    {
        ManifestProfile {
            default: self.default,
            cloud: self.cloud,
            project: dup_opt(&self.project),
            url: dup_opt(&self.url),
            worker_url: dup_opt(&self.worker_url),
            format: self.format,
            build_profile: dup_opt(&self.build_profile),
            auto_confirm: self.auto_confirm,
            redeploy_workers: self.redeploy_workers,
            redeploy_http_api: self.redeploy_http_api,
            redeploy_all: self.redeploy_all,
        }
    }
}

/// The first manifest profile that is marked as default.
pub open spec fn first_default(manifest: Seq<(ProfileName, ManifestProfile)>) -> Option<Seq<char>>
    decreases manifest.len(),
{
    if manifest.len() == 0 {
        None
    } else if manifest[0].1.default == Some(true) {
        Some(manifest[0].0.0@)
    } else {
        first_default(manifest.drop_first())
    }
}

/// The manifest profile named `name` (the first one, where names repeat).
pub open spec fn manifest_lookup(manifest: Seq<(ProfileName, ManifestProfile)>, name: Seq<char>) -> Option<
    ManifestProfile,
>
    decreases manifest.len(),
{
    if manifest.len() == 0 {
        None
    } else if manifest[0].0.0@ == name {
        Some(manifest[0].1)
    } else {
        manifest_lookup(manifest.drop_first(), name)
    }
}

/// The requested profile, or else the manifest's default profile.
pub open spec fn requested_profile(
    profile_name: Option<Seq<char>>,
    manifest: Seq<(ProfileName, ManifestProfile)>,
) -> Option<Seq<char>> {
    match profile_name {
        Some(n) => Some(n),
        None => first_default(manifest),
    }
}

/// The global profile that a requested name denotes: the builtin cloud name denotes the
/// (possibly custom) cloud profile.
pub open spec fn global_key(name: Seq<char>, cloud_name: Seq<char>) -> Seq<char> {
    if name == "cloud"@ {
        cloud_name
    } else {
        name
    }
}

pub open spec fn opt_name_view(n: Option<&ProfileName>) -> Option<Seq<char>> {
    match n {
        Some(p) => Some(p.0@),
        None => None,
    }
}

pub open spec fn cloud_name_spec(custom: Option<&ProfileName>) -> Seq<char> {
    match custom {
        Some(p) => p.0@,
        None => "cloud"@,
    }
}

/// The global profile found: its name and the profile.
pub open spec fn global_profile_spec(
    config: Seq<NamedProfile>,
    requested: Option<Seq<char>>,
    default_profile: Option<NamedProfile>,
    cloud_name: Seq<char>,
) -> Option<(Seq<char>, Profile)> {
    match requested {
        Some(n) => match lookup_profile(config, global_key(n, cloud_name)) {
            Some(p) => Some((n, p)),
            None => None,
        },
        None => Some((default_profile->0.name.0@, default_profile->0.profile)),
    }
}

/// The name under which the manifest profile is looked up.
pub open spec fn effective_name(
    global: Option<(Seq<char>, Profile)>,
    requested: Option<Seq<char>>,
) -> Option<Seq<char>> {
    match global {
        Some((n, _)) => Some(n),
        None => requested,
    }
}

/// The settings of a profile after the manifest's format override.
pub open spec fn with_format(c: ProfileConfig, f: Option<Format>) -> ProfileConfig {
    match f {
        Some(f) => ProfileConfig { default_format: f },
        None => c,
    }
}

/// Why no profile could be selected.
pub enum ProfileSelectionError {
    /// A global self-hosted profile is declared a cloud profile in the manifest.
    OssProfileUsedAsCloud { name: ProfileName },
    /// A global cloud profile is declared a self-hosted profile in the manifest.
    CloudProfileUsedAsOss { name: ProfileName },
    /// The manifest overrides the URL of a global profile.
    UrlOverride { name: ProfileName },
    /// The manifest overrides the worker URL of a global profile.
    WorkerUrlOverride { name: ProfileName },
    /// Neither the configuration nor the manifest has the profile.
    ProfileNotFound { name: ProfileName, manifest_profile_names: Vec<String> },
}

impl ProfileSelectionError {
    /// The error message of a profile that the manifest misuses; a profile that is not
    /// found is reported with hints instead, so it has none.
    pub fn message(&self) -> (res: Option<String>)
        ensures
            match self {
                ProfileSelectionError::OssProfileUsedAsCloud { name } => res matches Some(m) && m@
                    == "Profile "@ + name.0@
                    + " is a global OSS profile, cannot be used as Cloud profile in the manifest."@,
                ProfileSelectionError::CloudProfileUsedAsOss { name } => res matches Some(m) && m@
                    == "Profile "@ + name.0@
                    + " is a global Cloud profile, cannot be used as OSS profile in the manifest."@,
                ProfileSelectionError::UrlOverride { name } => res matches Some(m) && exists|
                    u: Seq<char>,
                    n: Seq<char>,
                |
                    #![trigger painted(u, "url"@, "1"@), painted(n, name.0@, "1"@)]
                    painted(u, "url"@, "1"@) && painted(n, name.0@, "1"@) && m@ == "Cannot override "@
                        + u + " for global profile "@ + n + " in application manifest!"@,
                ProfileSelectionError::WorkerUrlOverride { name } => res matches Some(m) && exists|
                    u: Seq<char>,
                    n: Seq<char>,
                |
                    #![trigger painted(u, "worker url"@, "1"@), painted(n, name.0@, "1"@)]
                    painted(u, "worker url"@, "1"@) && painted(n, name.0@, "1"@) && m@
                        == "Cannot override "@ + u + " for global profile "@ + n
                        + " in application manifest!"@,
                ProfileSelectionError::ProfileNotFound { .. } => res is None,
            },
    {
        match self {
            ProfileSelectionError::OssProfileUsedAsCloud { name } => {
                let mut m = "Profile ".to_string();
                m.append(name.0.as_str());
                m.append(" is a global OSS profile, cannot be used as Cloud profile in the manifest.");
                Some(m)
            },
            ProfileSelectionError::CloudProfileUsedAsOss { name } => {
                let mut m = "Profile ".to_string();
                m.append(name.0.as_str());
                m.append(" is a global Cloud profile, cannot be used as OSS profile in the manifest.");
                Some(m)
            },
            ProfileSelectionError::UrlOverride { name } => {
                let u = paint_bold("url");
                let n = paint_bold(name.0.as_str());
                let mut m = "Cannot override ".to_string();
                m.append(u.as_str());
                m.append(" for global profile ");
                m.append(n.as_str());
                m.append(" in application manifest!");
                assert(painted(u@, "url"@, "1"@) && painted(n@, name.0@, "1"@));
                Some(m)
            },
            ProfileSelectionError::WorkerUrlOverride { name } => {
                let u = paint_bold("worker url");
                let n = paint_bold(name.0.as_str());
                let mut m = "Cannot override ".to_string();
                m.append(u.as_str());
                m.append(" for global profile ");
                m.append(n.as_str());
                m.append(" in application manifest!");
                assert(painted(u@, "worker url"@, "1"@) && painted(n@, name.0@, "1"@));
                Some(m)
            },
            ProfileSelectionError::ProfileNotFound { .. } => None,
        }
    }
}

/// The selected profile.
pub struct MergedProfiles {
    /// The names of all profiles of the configuration and of the manifest, once each.
    pub available_profile_names: Vec<String>,
    pub profile: NamedProfile,
    pub manifest_profile: Option<ManifestProfile>,
}

/// The URL of a local Golem server.
pub open spec fn default_oss_url() -> Seq<char> {
    "http://localhost:9881"@
}

/// What `load_merged_profiles` needs beyond what the arguments show: a default profile
/// where neither the request nor the manifest names one, and a cloud base profile where
/// a cloud profile exists only in the manifest.
pub open spec fn merge_inputs_ok(
    config: Seq<NamedProfile>,
    default_profile: Option<NamedProfile>,
    cloud_name: Seq<char>,
    requested: Option<Seq<char>>,
    manifest: Seq<(ProfileName, ManifestProfile)>,
) -> bool {
    let global = global_profile_spec(config, requested, default_profile, cloud_name);
    let name = effective_name(global, requested);
    &&& requested is None ==> default_profile is Some
    &&& (global is None && name is Some && manifest_lookup(manifest, name->0) is Some && (
    name->0 == "cloud"@ || manifest_lookup(manifest, name->0)->0.spec_is_cloud()))
        ==> lookup_profile(config, cloud_name) matches Some(Profile::GolemCloud(_))
}

/// The names of the manifest profiles, in order.
pub open spec fn manifest_names(manifest: Seq<(ProfileName, ManifestProfile)>) -> Seq<Seq<char>> {
    manifest.map_values(|e: (ProfileName, ManifestProfile)| e.0.0@)
}

/// The outcome of `load_merged_profiles`.
pub open spec fn merged_profiles_spec(
    config: Seq<NamedProfile>,
    default_profile: Option<NamedProfile>,
    cloud_name: Seq<char>,
    requested: Option<Seq<char>>,
    manifest: Seq<(ProfileName, ManifestProfile)>,
    res: Result<MergedProfiles, ProfileSelectionError>,
) -> bool {
    let global = global_profile_spec(config, requested, default_profile, cloud_name);
    let name = effective_name(global, requested);
    let mp = match name {
        Some(n) => manifest_lookup(manifest, n),
        None => None,
    };
    match (global, mp) {
        (Some((n, p)), Some(m)) => {
            let manifest_is_cloud = n == "cloud"@ || m.spec_is_cloud();
            match p {
                Profile::Golem(o) => if manifest_is_cloud {
                    res is Err && res->Err_0 is OssProfileUsedAsCloud
                        && res->Err_0->OssProfileUsedAsCloud_name.0@ == n
                } else if m.url is Some {
                    res is Err && res->Err_0 is UrlOverride && res->Err_0->UrlOverride_name.0@ == n
                } else if m.worker_url is Some {
                    res is Err && res->Err_0 is WorkerUrlOverride
                        && res->Err_0->WorkerUrlOverride_name.0@ == n
                } else {
                    res is Ok && res->Ok_0.profile.name.0@ == n && res->Ok_0.profile.profile
                        == Profile::Golem(OssProfile { config: with_format(o.config, m.format), ..o })
                        && res->Ok_0.manifest_profile == Some(m)
                },
                Profile::GolemCloud(c) => if !manifest_is_cloud {
                    res is Err && res->Err_0 is CloudProfileUsedAsOss
                        && res->Err_0->CloudProfileUsedAsOss_name.0@ == n
                } else {
                    res is Ok && res->Ok_0.profile.name.0@ == n && res->Ok_0.profile.profile
                        == Profile::GolemCloud(
                        CloudProfile { config: with_format(c.config, m.format), ..c },
                    ) && res->Ok_0.manifest_profile == Some(m)
                },
            }
        },
        (Some((n, p)), None) => res is Ok && res->Ok_0.profile.name.0@ == n
            && res->Ok_0.profile.profile == p && res->Ok_0.manifest_profile is None,
        (None, Some(m)) => {
            let n = name->0;
            let manifest_is_cloud = n == "cloud"@ || m.spec_is_cloud();
            let pc = with_format(ProfileConfig { default_format: Format::Text }, m.format);
            &&& res is Ok
            &&& res->Ok_0.profile.name.0@ == n
            &&& res->Ok_0.manifest_profile == Some(m)
            &&& if manifest_is_cloud {
                res->Ok_0.profile.profile == Profile::GolemCloud(
                    CloudProfile {
                        config: pc,
                        ..lookup_profile(config, cloud_name)->0->GolemCloud_0
                    },
                )
            } else {
                &&& res->Ok_0.profile.profile is Golem
                &&& res->Ok_0.profile.profile->Golem_0.url@ == match m.url {
                    Some(u) => u@,
                    None => default_oss_url(),
                }
                &&& res->Ok_0.profile.profile->Golem_0.worker_url == m.worker_url
                &&& !res->Ok_0.profile.profile->Golem_0.allow_insecure
                &&& res->Ok_0.profile.profile->Golem_0.config == pc
            }
        },
        (None, None) => res is Err && res->Err_0 is ProfileNotFound
            && res->Err_0->ProfileNotFound_name.0@ == requested->0 && crate::text::strings_view(
            res->Err_0->ProfileNotFound_manifest_profile_names@,
        ) == manifest_names(manifest),
    }
}

/// A requested profile that only the application manifest declares, and not as a cloud
/// profile, is selected as a self-hosted profile with the manifest's URL (a local server's
/// where it gives none) and exactly the manifest's worker URL, so worker calls go where the
/// manifest says.
pub proof fn lemma_manifest_only_profile_keeps_its_urls(
    config: Seq<NamedProfile>,
    default_profile: Option<NamedProfile>,
    cloud_name: Seq<char>,
    name: Seq<char>,
    manifest: Seq<(ProfileName, ManifestProfile)>,
    m: ManifestProfile,
    res: Result<MergedProfiles, ProfileSelectionError>,
)
    requires
        merged_profiles_spec(config, default_profile, cloud_name, Some(name), manifest, res),
        lookup_profile(config, global_key(name, cloud_name)) is None,
        manifest_lookup(manifest, name) == Some(m),
        name != "cloud"@,
        m.cloud != Some(true),
    ensures
        res is Ok,
        res->Ok_0.profile.name.0@ == name,
        res->Ok_0.profile.profile is Golem,
        res->Ok_0.profile.profile->Golem_0.worker_url == m.worker_url,
        res->Ok_0.profile.profile->Golem_0.url@ == match m.url {
            Some(u) => u@,
            None => "http://localhost:9881"@,
        },
{
}

/// `names` lists each profile name of the configuration and of the manifest once, in name
/// order (as a `BTreeSet` of names).
pub open spec fn available_names_ok(
    names: Seq<Seq<char>>,
    config: Seq<NamedProfile>,
    manifest: Seq<(ProfileName, ManifestProfile)>,
) -> bool {
    &&& crate::text::strictly_sorted(names)
    &&& forall|x: Seq<char>|
        #[trigger] names.contains(x) <==> (crate::config::profile_names(config).contains(x)
            || manifest_names(manifest).contains(x))
}

/// The profiles of the application manifest form a map in name order: each name occurs
/// once, and the names ascend.
pub open spec fn manifest_in_name_order(manifest: Seq<(ProfileName, ManifestProfile)>) -> bool {
    crate::text::strictly_sorted(manifest_names(manifest))
}

/// Finds the requested or the manifest-default profile in the global configuration and in
/// the application manifest, and applies the manifest's overrides to the global profile.
///
/// `manifest_profiles` is in name order, so the first one marked as default is chosen.
/// `default_profile` is the configuration's default profile, used where no profile is
/// requested and the manifest marks none as default.
pub fn load_merged_profiles(
    config: &Config,
    default_profile: Option<NamedProfile>,
    custom_cloud_profile_name: Option<&ProfileName>,
    profile_name: Option<&ProfileName>,
    manifest_profiles: &Vec<(ProfileName, ManifestProfile)>,
) -> (res: Result<MergedProfiles, ProfileSelectionError>)
    requires
        manifest_in_name_order(manifest_profiles@),
        merge_inputs_ok(
            config.profiles@,
            default_profile,
            cloud_name_spec(custom_cloud_profile_name),
            requested_profile(opt_name_view(profile_name), manifest_profiles@),
            manifest_profiles@,
        ),
    ensures
        merged_profiles_spec(
            config.profiles@,
            default_profile,
            cloud_name_spec(custom_cloud_profile_name),
            requested_profile(opt_name_view(profile_name), manifest_profiles@),
            manifest_profiles@,
            res,
        ),
        res is Ok ==> available_names_ok(
            crate::text::strings_view(res->Ok_0.available_profile_names@),
            config.profiles@,
            manifest_profiles@,
        ),
{
    let cloud_profile_name = match custom_cloud_profile_name {
        Some(n) => n.duplicate(),
        None => ProfileName::cloud(),
    };

    // Names of all profiles
    let mut available: Vec<String> = Vec::new();
    let config_names = config.profile_names();
    let mut i: usize = 0;
    while i < config_names.len()
        invariant
            i <= config_names.len(),
            crate::text::strictly_sorted(crate::text::strings_view(available@)),
            forall|x: Seq<char>|
                #[trigger] crate::text::strings_view(available@).contains(x)
                    <==> crate::text::strings_view(config_names@).take(i as int).contains(x),
        decreases config_names.len() - i,
    {
        let ghost before = crate::text::strings_view(config_names@).take(i as int);
        crate::text::insert_sorted(&mut available, &config_names[i]);
        assert(crate::text::strings_view(config_names@).take(i + 1) =~= before.push(
            config_names@[i as int]@,
        ));
        proof {
            crate::text::lemma_push_contains(before, config_names@[i as int]@);
        }
        i = i + 1;
    }
    assert(crate::text::strings_view(config_names@).take(config_names.len() as int)
        =~= crate::text::strings_view(config_names@));
    let mut manifest_name_list: Vec<String> = Vec::new();
    let mut i: usize = 0;
    while i < manifest_profiles.len()
        invariant
            i <= manifest_profiles.len(),
            crate::text::strictly_sorted(crate::text::strings_view(available@)),
            crate::text::strings_view(manifest_name_list@) == manifest_names(
                manifest_profiles@.take(i as int),
            ),
            forall|x: Seq<char>|
                #[trigger] crate::text::strings_view(available@).contains(x) <==> (
                crate::config::profile_names(config.profiles@).contains(x) || manifest_names(
                    manifest_profiles@.take(i as int),
                ).contains(x)),
        decreases manifest_profiles.len() - i,
    {
        let ghost before = manifest_names(manifest_profiles@.take(i as int));
        let ghost before_list = manifest_name_list@;
        let n = manifest_profiles[i].0.0.clone();
        crate::text::insert_sorted(&mut available, &n);
        manifest_name_list.push(n);
        assert(manifest_names(manifest_profiles@.take(i + 1)) =~= before.push(
            manifest_profiles@[i as int].0.0@,
        ));
        proof {
            crate::text::lemma_push_contains(before, manifest_profiles@[i as int].0.0@);
        }
        assert(crate::text::strings_view(manifest_name_list@) =~= crate::text::strings_view(
            before_list,
        ).push(n@));
        i = i + 1;
    }
    assert(manifest_profiles@.take(manifest_profiles.len() as int) =~= manifest_profiles@);

    // The requested profile, or else the first manifest profile marked as default
    let requested: Option<ProfileName> = match profile_name {
        Some(n) => Some(n.duplicate()),
        None => first_default_exec(manifest_profiles),
    };

    let global: Option<NamedProfile> = match &requested {
        Some(n) => {
            let found = if n.is_builtin_cloud() {
                config.find_profile(&cloud_profile_name)
            } else {
                config.find_profile(n)
            };
            match found {
                Some(profile) => Some(NamedProfile { name: n.duplicate(), profile }),
                None => None,
            }
        },
        None => default_profile,
    };

    let name: Option<ProfileName> = match &global {
        Some(g) => Some(g.name.duplicate()),
        None => match &requested {
            Some(n) => Some(n.duplicate()),
            None => None,
        },
    };

    let manifest_profile: Option<ManifestProfile> = match &name {
        Some(n) => manifest_lookup_exec(manifest_profiles, n),
        None => None,
    };

    match (global, manifest_profile) {
        (Some(mut profile), Some(mp)) => {
            let manifest_is_cloud = profile.name.is_builtin_cloud() || mp.is_cloud();
            match &mut profile.profile {
                Profile::Golem(p) => {
                    if manifest_is_cloud {
                        return Err(
                            ProfileSelectionError::OssProfileUsedAsCloud { name: profile.name },
                        );
                    }
                    if let Some(format) = mp.format {
                        p.config.default_format = format;
                    }
                    if mp.url.is_some() {
                        return Err(ProfileSelectionError::UrlOverride { name: profile.name });
                    }
                    if mp.worker_url.is_some() {
                        return Err(ProfileSelectionError::WorkerUrlOverride { name: profile.name });
                    }
                },
                Profile::GolemCloud(p) => {
                    if !manifest_is_cloud {
                        return Err(
                            ProfileSelectionError::CloudProfileUsedAsOss { name: profile.name },
                        );
                    }
                    if let Some(format) = mp.format {
                        p.config.default_format = format;
                    }
                },
            }
            Ok(
                MergedProfiles {
                    available_profile_names: available,
                    profile,
                    manifest_profile: Some(mp),
                },
            )
        },
        (Some(profile), None) => Ok(
            MergedProfiles { available_profile_names: available, profile, manifest_profile: None },
        ),
        (None, Some(mp)) => {
            let profile_name = match name {
                Some(n) => n,
                None => ProfileName(String::new()),
            };
            let manifest_is_cloud = profile_name.is_builtin_cloud() || mp.is_cloud();
            let mut profile_config = ProfileConfig::new();
            if let Some(format) = mp.format {
                profile_config.default_format = format;
            }
            if manifest_is_cloud {
                let base = match config.find_profile(&cloud_profile_name) {
                    Some(Profile::GolemCloud(base)) => base,
                    _ => CloudProfile {
                        custom_url: None,
                        custom_cloud_url: None,
                        custom_worker_url: None,
                        allow_insecure: false,
                        config: profile_config,
                        auth: None,
                    },
                };
                let profile = CloudProfile { config: profile_config, ..base };
                Ok(
                    MergedProfiles {
                        available_profile_names: available,
                        profile: NamedProfile {
                            name: profile_name,
                            profile: Profile::GolemCloud(profile),
                        },
                        manifest_profile: Some(mp),
                    },
                )
            } else {
                let url = match &mp.url {
                    Some(u) => u.clone(),
                    None => "http://localhost:9881".to_string(),
                };
                let profile = OssProfile {
                    url,
                    worker_url: dup_opt(&mp.worker_url),
                    allow_insecure: false,
                    config: profile_config,
                };
                Ok(
                    MergedProfiles {
                        available_profile_names: available,
                        profile: NamedProfile { name: profile_name, profile: Profile::Golem(profile) },
                        manifest_profile: Some(mp),
                    },
                )
            }
        },
        (None, None) => {
            let profile_name = match requested {
                Some(n) => n,
                None => ProfileName(String::new()),
            };
            Err(
                ProfileSelectionError::ProfileNotFound {
                    name: profile_name,
                    manifest_profile_names: manifest_name_list,
                },
            )
        },
    }
}

/// The first manifest profile marked as default.
fn first_default_exec(manifest: &Vec<(ProfileName, ManifestProfile)>) -> (res: Option<ProfileName>)
    ensures
        opt_name_view(match &res { Some(n) => Some(n), None => None }) == first_default(manifest@),
{
    let mut i: usize = 0;
    assert(manifest@.skip(0) =~= manifest@);
    while i < manifest.len()
        invariant
            i <= manifest.len(),
            first_default(manifest@) == first_default(manifest@.skip(i as int)),
        decreases manifest.len() - i,
    {
        assert(manifest@.skip(i as int).drop_first() =~= manifest@.skip(i + 1));
        if manifest[i].1.default == Some(true) {
            return Some(manifest[i].0.duplicate());
        }
        i = i + 1;
    }
    assert(manifest@.skip(i as int) =~= Seq::<(ProfileName, ManifestProfile)>::empty());
    None
}

/// A copy of the manifest profile named `name`.
fn manifest_lookup_exec(manifest: &Vec<(ProfileName, ManifestProfile)>, name: &ProfileName) -> (res:
    Option<ManifestProfile>)
    ensures
        res == manifest_lookup(manifest@, name.0@),
{
    let mut i: usize = 0;
    assert(manifest@.skip(0) =~= manifest@);
    while i < manifest.len()
        invariant
            i <= manifest.len(),
            manifest_lookup(manifest@, name.0@) == manifest_lookup(manifest@.skip(i as int), name.0@),
        decreases manifest.len() - i,
    {
        assert(manifest@.skip(i as int).drop_first() =~= manifest@.skip(i + 1));
        if manifest[i].0.same_as(name) {
            return Some(manifest[i].1.duplicate());
        }
        i = i + 1;
    }
    assert(manifest@.skip(i as int) =~= Seq::<(ProfileName, ManifestProfile)>::empty());
    None
}

/// Where the application manifests are taken from.
pub enum ApplicationSourceMode {
    /// Searched from the current directory.
    Automatic,
    /// The given root manifest.
    ByRootManifest(String),
    /// No application.
    Disabled,
}

/// The global flags that select the profile and shape the application context.
pub struct ContextFlags {
    pub local: bool,
    pub cloud: bool,
    pub profile: Option<ProfileName>,
    pub build_profile: Option<String>,
    pub app_manifest_path: Option<String>,
    pub disable_app_manifest_discovery: bool,
    pub golem_rust_path: Option<String>,
    pub golem_rust_version: Option<String>,
    pub wasm_rpc_offline: bool,
}

/// Settings of the application context, taken from the global flags.
pub struct ApplicationContextConfig {
    pub requested_profile_name: Option<ProfileName>,
    pub build_profile: Option<String>,
    pub app_manifest_path: Option<String>,
    pub disable_app_manifest_discovery: bool,
    pub golem_rust_path_override: Option<String>,
    pub golem_rust_version_override: Option<String>,
    pub wasm_rpc_client_build_offline: bool,
}

impl ApplicationContextConfig {
    /// The settings for the given flags: `--local` and `--cloud` request the builtin
    /// profiles and take precedence over `--profile`.
    pub fn new(flags: ContextFlags) -> (res: Self)
        ensures
            match res.requested_profile_name {
                Some(n) => if flags.local {
                    n.0@ == "local"@
                } else if flags.cloud {
                    n.0@ == "cloud"@
                } else {
                    flags.profile is Some && n.0@ == flags.profile.unwrap().0@
                },
                None => !flags.local && !flags.cloud && flags.profile is None,
            },
            res.build_profile == flags.build_profile,
            res.app_manifest_path == flags.app_manifest_path,
            res.disable_app_manifest_discovery == flags.disable_app_manifest_discovery,
            res.golem_rust_path_override == flags.golem_rust_path,
            res.golem_rust_version_override == flags.golem_rust_version,
            res.wasm_rpc_client_build_offline == flags.wasm_rpc_offline,
    {
        let requested_profile_name = if flags.local {
            Some(ProfileName::local())
        } else if flags.cloud {
            Some(ProfileName::cloud())
        } else {
            flags.profile
        };
        ApplicationContextConfig {
            requested_profile_name,
            build_profile: flags.build_profile,
            app_manifest_path: flags.app_manifest_path,
            disable_app_manifest_discovery: flags.disable_app_manifest_discovery,
            golem_rust_path_override: flags.golem_rust_path,
            golem_rust_version_override: flags.golem_rust_version,
            wasm_rpc_client_build_offline: flags.wasm_rpc_offline,
        }
    }

    /// Where the manifests come from: nowhere when discovery is disabled, else the given
    /// root manifest, else the current directory.
    pub fn app_source_mode(&self) -> (res: ApplicationSourceMode)
        ensures
            if self.disable_app_manifest_discovery {
                res is Disabled
            } else {
                match self.app_manifest_path {
                    Some(p) => res matches ApplicationSourceMode::ByRootManifest(q) && q == p,
                    None => res is Automatic,
                }
            },
    {
        if self.disable_app_manifest_discovery {
            ApplicationSourceMode::Disabled
        } else {
            match &self.app_manifest_path {
                Some(root_manifest) => ApplicationSourceMode::ByRootManifest(root_manifest.clone()),
                None => ApplicationSourceMode::Automatic,
            }
        }
    }
}

/// What the application context is built from.
pub struct ApplicationConfig<S> {
    pub source_mode: ApplicationSourceMode,
    pub skip_up_to_date_checks: bool,
    pub build_profile: Option<String>,
    pub offline: bool,
    pub steps_filter: Vec<S>,
    pub golem_rust_path_override: Option<String>,
    pub golem_rust_version_override: Option<String>,
}

/// Why the application context is not available.
pub enum AppContextError {
    /// No application manifest was found.
    NoApplicationManifestFound,
    /// Loading the application failed with this message.
    LoadFailed(String),
}

/// The application context (`C`), loaded on first use, with the settings that apply to
/// loading it.
pub struct ApplicationContextState<C, S> {
    pub app_source_mode: Option<ApplicationSourceMode>,
    pub silent_init: bool,
    pub skip_up_to_date_checks: bool,
    pub skip_up_to_date_checks_was_set: bool,
    pub build_steps_filter: Vec<S>,
    pub build_steps_filter_was_set: bool,
    pub app_context: Option<Result<Option<C>, String>>,
}

fn copy_steps<S: Copy>(v: &Vec<S>) -> (res: Vec<S>)
    ensures
        res@ == v@,
{
    let mut res: Vec<S> = Vec::new();
    let mut i: usize = 0;
    while i < v.len()
        invariant
            i <= v.len(),
            res@ == v@.take(i as int),
        decreases v.len() - i,
    {
        res.push(v[i]);
        assert(res@ =~= v@.take(i + 1));
        i = i + 1;
    }
    assert(v@.take(v.len() as int) =~= v@);
    res
}

/// `new` is `old` after the first step of loading: where the application is not loaded
/// yet, its source mode is taken; a loaded state stays as it is.
pub open spec fn settings_taken<C, S>(
    old: ApplicationContextState<C, S>,
    new: ApplicationContextState<C, S>,
) -> bool {
    if old.app_context is Some {
        new == old
    } else {
        new == (ApplicationContextState { app_source_mode: None, ..old })
    }
}

/// `new` is `old` with the outcome of loading recorded.
pub open spec fn load_recorded<C, S>(
    old: ApplicationContextState<C, S>,
    new: ApplicationContextState<C, S>,
    outcome: Result<Option<C>, String>,
) -> bool {
    new == (ApplicationContextState { app_context: Some(outcome), ..old })
}

/// Loading the application a second time changes nothing: once the settings were taken
/// and the outcome recorded, taking the settings again leaves the state as it is (and
/// `init_config` hands out no settings then).
pub proof fn lemma_second_init_changes_nothing<C, S>(
    s0: ApplicationContextState<C, S>,
    s1: ApplicationContextState<C, S>,
    s2: ApplicationContextState<C, S>,
    s3: ApplicationContextState<C, S>,
    outcome: Result<Option<C>, String>,
)
    requires
        s0.app_context is None,
        settings_taken(s0, s1),
        load_recorded(s1, s2, outcome),
        settings_taken(s2, s3),
    ensures
        s3 == s2,
        s2.app_context == Some(outcome),
        s2.app_source_mode is None,
{
}

impl<C, S: Copy> ApplicationContextState<C, S> {
    /// A state that has not loaded the application yet.
    pub fn new(source_mode: ApplicationSourceMode) -> (res: Self)
        ensures
            res.app_source_mode == Some(source_mode),
            !res.silent_init,
            !res.skip_up_to_date_checks,
            !res.skip_up_to_date_checks_was_set,
            res.build_steps_filter@.len() == 0,
            !res.build_steps_filter_was_set,
            res.app_context is None,
    {
        ApplicationContextState {
            app_source_mode: Some(source_mode),
            silent_init: false,
            skip_up_to_date_checks: false,
            skip_up_to_date_checks_was_set: false,
            build_steps_filter: Vec::new(),
            build_steps_filter_was_set: false,
            app_context: None,
        }
    }

    /// Sets whether builds skip the up-to-date checks; this can be set once, before the
    /// application is loaded.
    pub fn set_skip_up_to_date_checks(&mut self, skip: bool)
        requires
            !old(self).skip_up_to_date_checks_was_set,
            old(self).app_context is None,
        ensures
            *final(self) == (ApplicationContextState {
                skip_up_to_date_checks: skip,
                skip_up_to_date_checks_was_set: true,
                ..*old(self)
            }),
    {
        self.skip_up_to_date_checks = skip;
        self.skip_up_to_date_checks_was_set = true;
    }

    /// Sets the build steps to run; this can be set once, before the application is
    /// loaded.
    pub fn set_steps_filter(&mut self, steps_filter: Vec<S>)
        requires
            !old(self).build_steps_filter_was_set,
            old(self).app_context is None,
        ensures
            *final(self) == (ApplicationContextState {
                build_steps_filter: steps_filter,
                build_steps_filter_was_set: true,
                ..*old(self)
            }),
    {
        self.build_steps_filter = steps_filter;
        self.build_steps_filter_was_set = true;
    }

    /// The first step of loading: the settings to load the application with, where it is
    /// not loaded yet (the source mode is handed out once).
    pub fn init_config(&mut self, config: &ApplicationContextConfig) -> (res: Option<ApplicationConfig<S>>)
        requires
            old(self).app_context is None ==> old(self).app_source_mode is Some,
        ensures
            settings_taken(*old(self), *final(self)),
            old(self).app_context is Some ==> res is None && *final(self) == *old(self),
            old(self).app_context is None ==> {
                &&& res is Some
                &&& res->0.source_mode == old(self).app_source_mode->0
                &&& res->0.skip_up_to_date_checks == old(self).skip_up_to_date_checks
                &&& res->0.build_profile == config.build_profile
                &&& res->0.offline == config.wasm_rpc_client_build_offline
                &&& res->0.steps_filter@ == old(self).build_steps_filter@
                &&& res->0.golem_rust_path_override == config.golem_rust_path_override
                &&& res->0.golem_rust_version_override == config.golem_rust_version_override
                &&& final(self).app_source_mode is None
                &&& final(self).app_context is None
                &&& final(self).build_steps_filter == old(self).build_steps_filter
                &&& final(self).skip_up_to_date_checks == old(self).skip_up_to_date_checks
            },
    {
        if self.app_context.is_some() {
            return None;
        }
        let source_mode = match self.app_source_mode.take() {
            Some(m) => m,
            None => ApplicationSourceMode::Disabled,
        };
        Some(
            ApplicationConfig {
                source_mode,
                skip_up_to_date_checks: self.skip_up_to_date_checks,
                build_profile: match &config.build_profile {
                    Some(b) => Some(b.clone()),
                    None => None,
                },
                offline: config.wasm_rpc_client_build_offline,
                steps_filter: copy_steps(&self.build_steps_filter),
                golem_rust_path_override: match &config.golem_rust_path_override {
                    Some(b) => Some(b.clone()),
                    None => None,
                },
                golem_rust_version_override: match &config.golem_rust_version_override {
                    Some(b) => Some(b.clone()),
                    None => None,
                },
            },
        )
    }

    /// The second step of loading: records what loading gave.
    pub fn init_complete(&mut self, outcome: Result<Option<C>, String>)
        requires
            old(self).app_context is None,
        ensures
            load_recorded(*old(self), *final(self), outcome),
            final(self).app_context == Some(outcome),
            final(self).app_source_mode == old(self).app_source_mode,
            final(self).build_steps_filter == old(self).build_steps_filter,
            final(self).skip_up_to_date_checks == old(self).skip_up_to_date_checks,
    {
        self.app_context = Some(outcome);
    }

    /// The loaded application, `None` where there is no application manifest.
    pub fn opt(&self) -> (res: Result<Option<&C>, AppContextError>)
        requires
            self.app_context is Some,
        ensures
            match self.app_context->0 {
                Ok(None) => res matches Ok(None),
                Ok(Some(c)) => res matches Ok(Some(r)) && *r == c,
                Err(e) => res matches Err(AppContextError::LoadFailed(m)) && m@ == e@,
            },
    {
        match &self.app_context {
            Some(Ok(None)) => Ok(None),
            Some(Ok(Some(c))) => Ok(Some(c)),
            Some(Err(e)) => Err(AppContextError::LoadFailed(e.clone())),
            None => Ok(None),
        }
    }

    /// The loaded application; its absence is an error.
    pub fn some_or_err(&self) -> (res: Result<&C, AppContextError>)
        requires
            self.app_context is Some,
        ensures
            match self.app_context->0 {
                Ok(None) => res matches Err(AppContextError::NoApplicationManifestFound),
                Ok(Some(c)) => res matches Ok(r) && *r == c,
                Err(e) => res matches Err(AppContextError::LoadFailed(m)) && m@ == e@,
            },
    {
        match &self.app_context {
            Some(Ok(None)) => Err(AppContextError::NoApplicationManifestFound),
            Some(Ok(Some(c))) => Ok(c),
            Some(Err(e)) => Err(AppContextError::LoadFailed(e.clone())),
            None => Err(AppContextError::NoApplicationManifestFound),
        }
    }

    /// The loaded application for changes, `None` where there is no application manifest.
    pub fn opt_mut(&mut self) -> (res: Result<Option<&mut C>, AppContextError>)
        requires
            old(self).app_context is Some,
        ensures
            match old(self).app_context->0 {
                Ok(None) => res matches Ok(None) && *final(self) == *old(self),
                Ok(Some(c)) => res matches Ok(Some(r)) && *r == c && final(self).app_context
                    == Some(Ok::<Option<C>, String>(Some(*final(r)))),
                Err(e) => res matches Err(AppContextError::LoadFailed(m)) && m@ == e@
                    && *final(self) == *old(self),
            },
    {
        match &mut self.app_context {
            Some(Ok(None)) => Ok(None),
            Some(Ok(Some(c))) => Ok(Some(c)),
            Some(Err(e)) => Err(AppContextError::LoadFailed(e.clone())),
            None => Ok(None),
        }
    }

    /// The loaded application for changes; its absence is an error.
    pub fn some_or_err_mut(&mut self) -> (res: Result<&mut C, AppContextError>)
        requires
            old(self).app_context is Some,
        ensures
            match old(self).app_context->0 {
                Ok(None) => res matches Err(AppContextError::NoApplicationManifestFound)
                    && *final(self) == *old(self),
                Ok(Some(c)) => res matches Ok(r) && *r == c && final(self).app_context == Some(
                    Ok::<Option<C>, String>(Some(*final(r))),
                ),
                Err(e) => res matches Err(AppContextError::LoadFailed(m)) && m@ == e@
                    && *final(self) == *old(self),
            },
    {
        match &mut self.app_context {
            Some(Ok(None)) => Err(AppContextError::NoApplicationManifestFound),
            Some(Ok(Some(c))) => Ok(c),
            Some(Err(e)) => Err(AppContextError::LoadFailed(e.clone())),
            None => Err(AppContextError::NoApplicationManifestFound),
        }
    }
}

/// Where the log goes for an output format: JSON and YAML results take standard output,
/// so the log goes to standard error.
pub fn log_output_for(format: Format) -> (res: Output)
    ensures
        match format {
            Format::Text => res is Stdout,
            _ => res is Stderr,
        },
{
    match format {
        Format::Json => Output::Stderr,
        Format::Yaml => Output::Stderr,
        Format::Text => Output::Stdout,
    }
}

/// Whether a manifest profile is given and has `field` set to true.
pub open spec fn manifest_flag(
    manifest_profile: Option<ManifestProfile>,
    field: spec_fn(ManifestProfile) -> Option<bool>,
) -> bool {
    match manifest_profile {
        Some(m) => field(m) == Some(true),
        None => false,
    }
}

/// The settings of the context that the global flags and the selected profiles decide.
pub struct ContextSettings {
    pub format: Format,
    /// Confirmations are answered with yes.
    pub yes: bool,
    /// The start of a local server is confirmed without asking.
    pub confirm_local_server_start: bool,
    pub update_or_redeploy: UpdateOrRedeployArgs,
    /// The page size of listing requests.
    pub http_batch_size: u64,
}

/// Decides the settings of the context: the output format is the flag's, else the
/// profile's default; a manifest profile turns on auto-confirmation (also of the local
/// server's start) and the redeployments it sets to true, and gives the build profile
/// where the flags give none; listing requests fetch 50 items unless the flag says
/// otherwise.
pub fn context_settings(
    format_flag: Option<Format>,
    yes_flag: bool,
    http_batch_size_flag: Option<u64>,
    profile: &Profile,
    manifest_profile: &Option<ManifestProfile>,
    app_config: &mut ApplicationContextConfig,
) -> (res: ContextSettings)
    ensures
        res.format == match format_flag {
            Some(f) => f,
            None => profile_config_of(*profile).default_format,
        },
        res.yes == (yes_flag || manifest_flag(*manifest_profile, |m: ManifestProfile| m.auto_confirm)),
        res.confirm_local_server_start == manifest_flag(
            *manifest_profile,
            |m: ManifestProfile| m.auto_confirm,
        ),
        res.update_or_redeploy.update_workers is None,
        res.update_or_redeploy.redeploy_workers == manifest_flag(
            *manifest_profile,
            |m: ManifestProfile| m.redeploy_workers,
        ),
        res.update_or_redeploy.redeploy_http_api == manifest_flag(
            *manifest_profile,
            |m: ManifestProfile| m.redeploy_http_api,
        ),
        res.update_or_redeploy.redeploy_all == manifest_flag(
            *manifest_profile,
            |m: ManifestProfile| m.redeploy_all,
        ),
        res.http_batch_size == match http_batch_size_flag {
            Some(n) => n,
            None => 50,
        },
        final(app_config).build_profile == match (old(app_config).build_profile, *manifest_profile) {
            (Some(b), _) => Some(b),
            (None, Some(m)) => m.build_profile,
            (None, None) => None,
        },
        final(app_config).requested_profile_name == old(app_config).requested_profile_name,
        final(app_config).app_manifest_path == old(app_config).app_manifest_path,
        final(app_config).disable_app_manifest_discovery == old(
            app_config,
        ).disable_app_manifest_discovery,
        final(app_config).golem_rust_path_override == old(app_config).golem_rust_path_override,
        final(app_config).golem_rust_version_override == old(
            app_config,
        ).golem_rust_version_override,
        final(app_config).wasm_rpc_client_build_offline == old(
            app_config,
        ).wasm_rpc_client_build_offline,
{
    let mut yes = yes_flag;
    let mut confirm_local_server_start = false;
    let mut update_or_redeploy = UpdateOrRedeployArgs::none();
    if let Some(m) = manifest_profile {
        if app_config.build_profile.is_none() {
            app_config.build_profile = dup_opt(&m.build_profile);
        }
        if m.auto_confirm == Some(true) {
            yes = true;
            confirm_local_server_start = true;
        }
        if m.redeploy_workers == Some(true) {
            update_or_redeploy.redeploy_workers = true;
        }
        if m.redeploy_http_api == Some(true) {
            update_or_redeploy.redeploy_http_api = true;
        }
        if m.redeploy_all == Some(true) {
            update_or_redeploy.redeploy_all = true;
        }
    }
    let format = match format_flag {
        Some(f) => f,
        None => profile.get_config().default_format,
    };
    let http_batch_size = match http_batch_size_flag {
        Some(n) => n,
        None => 50,
    };
    ContextSettings { format, yes, confirm_local_server_start, update_or_redeploy, http_batch_size }
}

/// The view of an optional text.
pub open spec fn opt_str_view(o: Option<&str>) -> Option<Seq<char>> {
    match o {
        Some(j) => Some(j@),
        None => None,
    }
}

/// `s` names the selected profile: `profile: <name>`, followed by `, project: <project>`
/// where a project is selected, the names in bold.
pub open spec fn selected_profile_text(
    s: Seq<char>,
    profile_name: Seq<char>,
    project: Option<Seq<char>>,
) -> bool {
    match project {
        None => exists|n: Seq<char>|
            #[trigger] painted(n, profile_name, "1"@) && s == "profile: "@ + n,
        Some(j) => selected_with_project(s, profile_name, j),
    }
}

/// `s` is `profile: <name>, project: <project>`, the names in bold.
pub open spec fn selected_with_project(s: Seq<char>, profile_name: Seq<char>, project: Seq<char>) -> bool {
    exists|n: Seq<char>, q: Seq<char>|
        #![trigger painted(n, profile_name, "1"@), painted(q, project, "1"@)]
        painted(n, profile_name, "1"@) && painted(q, project, "1"@) && s == "profile: "@ + n
            + ", project: "@ + q
}

fn selected_profile_subject(profile_name: &str, project: Option<&str>) -> (res: String)
    ensures
        selected_profile_text(res@, profile_name@, opt_str_view(project)),
{
    let n = paint_bold(profile_name);
    let mut s = "profile: ".to_string();
    s.append(n.as_str());
    match project {
        Some(j) => {
            let q = paint_bold(j);
            s.append(", project: ");
            s.append(q.as_str());
            assert(painted(q@, j@, "1"@));
            assert(s@ == "profile: "@ + n@ + ", project: "@ + q@);
            assert(painted(n@, profile_name@, "1"@));
            assert(selected_with_project(s@, profile_name@, j@));
        },
        None => {
            assert(painted(n@, profile_name@, "1"@));
        },
    }
    s
}

/// Logs the selected profile and project: `Selected profile: <name>[, project: <project>]`,
/// `Selected` in green.
pub fn log_selected_profile(state: &mut LogState, profile_name: &str, project: Option<&str>) -> (res:
    Vec<String>)
    requires
        old(state).wf(),
    ensures
        exists|p: Seq<char>, s: Seq<char>|
            #![trigger painted(p, "Selected"@, "32"@), selected_profile_text(s, profile_name@, opt_str_view(project))]
            painted(p, "Selected"@, "32"@) && selected_profile_text(
                s,
                profile_name@,
                match project {
                    Some(j) => Some(j@),
                    None => None,
                },
            ) && logged(*old(state), *final(state), strings_view(res@), p + " "@ + s),
{
    let s = selected_profile_subject(profile_name, project);
    log_action(state, "Selected", s.as_str())
}

/// The profile name under which the clients authenticate: for the builtin cloud profile the
/// custom cloud profile, where one is configured; else the selected profile.
pub fn auth_profile_name(
    profile_name: &ProfileName,
    custom_cloud_profile_name: &Option<ProfileName>,
) -> (res: ProfileName)
    ensures
        res.0@ == if profile_name.0@ == "cloud"@ {
            match custom_cloud_profile_name {
                Some(c) => c.0@,
                None => profile_name.0@,
            }
        } else {
            profile_name.0@
        },
{
    if profile_name.is_builtin_cloud() {
        match custom_cloud_profile_name {
            Some(c) => c.duplicate(),
            None => profile_name.duplicate(),
        }
    } else {
        profile_name.duplicate()
    }
}

/// Whether the health of the local server is to be checked, so that it is started where it
/// does not answer: auto start is on, the profile is the builtin local one and the clients
/// are those of a self-hosted Golem.
pub fn local_server_check_needed(auto_start: bool, profile_name: &ProfileName, self_hosted: bool) -> (res:
    bool)
    ensures
        res == (auto_start && profile_name.0@ == "local"@ && self_hosted),
{
    auto_start && profile_name.is_builtin_local() && self_hosted
}

} // verus!
