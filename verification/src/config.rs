//! Profiles of the global CLI configuration and HTTP client settings.

use crate::text::{
    chars_equal, chars_less, chars_lt, chars_of, join, joined, lemma_chars_lt_total,
    lemma_chars_lt_transitive, strictly_sorted, strings_view,
};
use vstd::prelude::*;

verus! {

/// Output format of command results.
#[derive(PartialEq, Eq, Structural, Clone, Copy, Debug)]
pub enum Format {
    Json,
    Yaml,
    Text,
}

/// The name of a profile.
#[derive(Debug)]
pub struct ProfileName(pub String);

impl ProfileName {
    /// The builtin profile of a local Golem server.
    pub fn local() -> (res: Self)
        ensures
            res.0@ == "local"@,
    {
        ProfileName("local".to_string())
    }

    /// The builtin Golem Cloud profile.
    pub fn cloud() -> (res: Self)
        ensures
            res.0@ == "cloud"@,
    {
        ProfileName("cloud".to_string())
    }

    /// Whether this is the builtin cloud profile.
    pub fn is_builtin_cloud(&self) -> (res: bool)
        ensures
            res == (self.0@ == "cloud"@),
    {
        let c = chars_of("cloud");
        chars_equal(&chars_of(self.0.as_str()), &c)
    }

    /// Whether this is the builtin local profile.
    pub fn is_builtin_local(&self) -> (res: bool)
        ensures
            res == (self.0@ == "local"@),
    {
        let l = chars_of("local");
        chars_equal(&chars_of(self.0.as_str()), &l)
    }

    /// Whether this is one of the builtin profiles.
    pub fn is_builtin(&self) -> (res: bool)
        ensures
            res == (self.0@ == "local"@ || self.0@ == "cloud"@),
    {
        let l = chars_of("local");
        chars_equal(&chars_of(self.0.as_str()), &l) || self.is_builtin_cloud()
    }

    /// Whether two profile names are equal.
    pub fn same_as(&self, other: &ProfileName) -> (res: bool)
        ensures
            res == (self.0@ == other.0@),
    {
        chars_equal(&chars_of(self.0.as_str()), &chars_of(other.0.as_str()))
    }

    /// A copy of this name.
    pub fn duplicate(&self) -> (res: ProfileName)
        ensures
            res.0@ == self.0@,
    {
        ProfileName(self.0.clone())
    }
}

/// Settings shared by all kinds of profiles.
#[derive(PartialEq, Eq, Structural, Clone, Copy, Debug)]
pub struct ProfileConfig {
    pub default_format: Format,
}

impl ProfileConfig {
    /// The default settings: text output.
    pub fn new() -> (res: Self)
        ensures
            res.default_format == Format::Text,
    {
        ProfileConfig { default_format: Format::Text }
    }
}

/// Authentication data stored in a cloud profile.
#[derive(Debug)]
pub struct CloudAuthentication {
    pub id: String,
    pub account_id: String,
    pub created_at: String,
    pub expires_at: String,
    pub secret: String,
}

/// A profile of a self-hosted Golem.
#[derive(Debug)]
pub struct OssProfile {
    pub url: String,
    pub worker_url: Option<String>,
    pub allow_insecure: bool,
    pub config: ProfileConfig,
}

/// A Golem Cloud profile.
#[derive(Debug)]
pub struct CloudProfile {
    pub custom_url: Option<String>,
    pub custom_cloud_url: Option<String>,
    pub custom_worker_url: Option<String>,
    pub allow_insecure: bool,
    pub config: ProfileConfig,
    pub auth: Option<CloudAuthentication>,
}

/// A profile of the global configuration.
#[derive(Debug)]
pub enum Profile {
    Golem(OssProfile),
    GolemCloud(CloudProfile),
}

/// The settings of a profile.
pub open spec fn profile_config_of(p: Profile) -> ProfileConfig {
    match p {
        Profile::Golem(o) => o.config,
        Profile::GolemCloud(c) => c.config,
    }
}

impl Profile {
    /// The settings of this profile.
    pub fn config(self) -> (res: ProfileConfig)
        ensures
            res == profile_config_of(self),
    {
        match self {
            Profile::Golem(p) => p.config,
            Profile::GolemCloud(p) => p.config,
        }
    }

    /// The settings of this profile.
    pub fn get_config(&self) -> (res: &ProfileConfig)
        ensures
            *res == profile_config_of(*self),
    {
        match self {
            Profile::Golem(p) => &p.config,
            Profile::GolemCloud(p) => &p.config,
        }
    }

    /// Replaces the settings of this profile, keeping everything else.
    pub fn set_config(&mut self, config: ProfileConfig)
        ensures
            profile_config_of(*final(self)) == config,
            match (*old(self), *final(self)) {
                (Profile::Golem(a), Profile::Golem(b)) => b == OssProfile { config, ..a },
                (Profile::GolemCloud(a), Profile::GolemCloud(b)) => b == CloudProfile {
                    config,
                    ..a
                },
                _ => false,
            },
    {
        match self {
            Profile::Golem(p) => {
                p.config = config;
            },
            Profile::GolemCloud(p) => {
                p.config = config;
            },
        }
    }

    /// Whether this is a cloud profile.
    pub fn is_cloud(&self) -> (res: bool)
        ensures
            res == (*self is GolemCloud),
    {
        match self {
            Profile::Golem(_) => false,
            Profile::GolemCloud(_) => true,
        }
    }
}

/// A profile with its name.
#[derive(Debug)]
pub struct NamedProfile {
    pub name: ProfileName,
    pub profile: Profile,
}

/// A span of time: whole seconds and the nanoseconds beyond them.
#[derive(PartialEq, Eq, Structural, Clone, Copy, Debug)]
pub struct TimeSpan {
    pub secs: u64,
    pub nanos: u32,
}

impl TimeSpan {
    /// `secs` whole seconds.
    pub fn from_secs(secs: u64) -> (res: Self)
        ensures
            res.secs == secs && res.nanos == 0,
    {
        TimeSpan { secs, nanos: 0 }
    }
}

/// The time span that `iso8601::duration` parses from `text` and converts into a
/// `std::time::Duration` (seconds and nanoseconds), or `None` where it refuses the text.
pub uninterp spec fn iso8601_duration(text: Seq<char>) -> Option<(u64, u32)>;

/// Calls `iso8601::duration(text)` and converts an accepted duration with the crate's
/// `From<iso8601::Duration> for std::time::Duration`. The result is tied to the text by
/// `iso8601_duration`; its nanoseconds are below one second, as the crate's conversion
/// builds them from at most 999 milliseconds.
#[verifier::external_body]
fn parse_iso8601_duration(text: &str) -> (res: Option<TimeSpan>)
    ensures
        res is None <==> iso8601_duration(text@) is None,
        res is Some ==> iso8601_duration(text@) == Some((res->0.secs, res->0.nanos)),
        res is Some ==> res->0.nanos < 1_000_000_000,
{
    match iso8601::duration(text) {
        Ok(duration) => {
            let d: std::time::Duration = duration.into();
            Some(TimeSpan { secs: d.as_secs(), nanos: d.subsec_nanos() })
        },
        Err(_) => None,
    }
}

/// A snapshot of environment variables: names with their values.
pub struct EnvVars {
    pub vars: Vec<(String, String)>,
}

/// The value of the first variable named `name`.
pub open spec fn env_lookup(vars: Seq<(String, String)>, name: Seq<char>) -> Option<Seq<char>>
    decreases vars.len(),
{
    if vars.len() == 0 {
        None
    } else if vars[0].0@ == name {
        Some(vars[0].1@)
    } else {
        env_lookup(vars.drop_first(), name)
    }
}

impl EnvVars {
    /// The value of the variable `name`, if it is set.
    pub fn get(&self, name: &str) -> (res: Option<&String>)
        ensures
            match res {
                Some(v) => env_lookup(self.vars@, name@) == Some(v@),
                None => env_lookup(self.vars@, name@) is None,
            },
    {
        let n = chars_of(name);
        let mut i: usize = 0;
        assert(self.vars@.skip(0) =~= self.vars@);
        while i < self.vars.len()
            invariant
                i <= self.vars.len(),
                n@ == name@,
                env_lookup(self.vars@, name@) == env_lookup(self.vars@.skip(i as int), name@),
            decreases self.vars.len() - i,
        {
            assert(self.vars@.skip(i as int).drop_first() =~= self.vars@.skip(i + 1));
            if chars_equal(&chars_of(self.vars[i].0.as_str()), &n) {
                return Some(&self.vars[i].1);
            }
            i = i + 1;
        }
        assert(self.vars@.skip(i as int) =~= Seq::<(String, String)>::empty());
        None
    }
}

/// A duration setting after the override from the environment variable with value `value`:
/// a value that parses as an ISO 8601 duration replaces it.
pub open spec fn overridden(current: Option<TimeSpan>, value: Option<Seq<char>>) -> Option<TimeSpan> {
    match value {
        Some(v) => match iso8601_duration(v) {
            Some((secs, nanos)) => Some(TimeSpan { secs, nanos }),
            None => current,
        },
        None => current,
    }
}

/// Timeouts and TLS leniency of an HTTP client.
#[derive(Debug, Clone, Copy)]
pub struct HttpClientConfig {
    pub allow_insecure: bool,
    pub timeout: Option<TimeSpan>,
    pub connect_timeout: Option<TimeSpan>,
    pub read_timeout: Option<TimeSpan>,
}

/// `HttpClientConfig` after the overrides from the variables `<prefix>_TIMEOUT`,
/// `<prefix>_CONNECT_TIMEOUT` and `<prefix>_READ_TIMEOUT`.
pub open spec fn with_env_overrides_spec(
    c: HttpClientConfig,
    prefix: Seq<char>,
    env: Seq<(String, String)>,
) -> HttpClientConfig {
    HttpClientConfig {
        allow_insecure: c.allow_insecure,
        timeout: overridden(c.timeout, env_lookup(env, prefix + "_"@ + "TIMEOUT"@)),
        connect_timeout: overridden(
            c.connect_timeout,
            env_lookup(env, prefix + "_"@ + "CONNECT_TIMEOUT"@),
        ),
        read_timeout: overridden(c.read_timeout, env_lookup(env, prefix + "_"@ + "READ_TIMEOUT"@)),
    }
}

/// Settings whose variables are not set, or hold no valid ISO 8601 duration, are kept as
/// they are.
pub proof fn lemma_overrides_keep_unset_settings(
    c: HttpClientConfig,
    prefix: Seq<char>,
    env: Seq<(String, String)>,
)
    ensures
        ({
            let r = with_env_overrides_spec(c, prefix, env);
            &&& r.allow_insecure == c.allow_insecure
            &&& (match env_lookup(env, prefix + "_"@ + "TIMEOUT"@) {
                None => true,
                Some(v) => iso8601_duration(v) is None,
            }) ==> r.timeout == c.timeout
            &&& (match env_lookup(env, prefix + "_"@ + "CONNECT_TIMEOUT"@) {
                None => true,
                Some(v) => iso8601_duration(v) is None,
            }) ==> r.connect_timeout == c.connect_timeout
            &&& (match env_lookup(env, prefix + "_"@ + "READ_TIMEOUT"@) {
                None => true,
                Some(v) => iso8601_duration(v) is None,
            }) ==> r.read_timeout == c.read_timeout
        }),
{
}

/// A setting whose variable holds a valid ISO 8601 duration takes that duration:
/// `<prefix>_TIMEOUT`, `<prefix>_CONNECT_TIMEOUT` and `<prefix>_READ_TIMEOUT` set the
/// timeout, the connect timeout and the read timeout.
pub proof fn lemma_valid_overrides_replace_settings(
    c: HttpClientConfig,
    prefix: Seq<char>,
    env: Seq<(String, String)>,
    secs: u64,
    nanos: u32,
)
    ensures
        ({
            let r = with_env_overrides_spec(c, prefix, env);
            &&& (env_lookup(env, prefix + "_"@ + "TIMEOUT"@) matches Some(v) && iso8601_duration(v)
                == Some((secs, nanos))) ==> r.timeout == Some(TimeSpan { secs, nanos })
            &&& (env_lookup(env, prefix + "_"@ + "CONNECT_TIMEOUT"@) matches Some(v)
                && iso8601_duration(v) == Some((secs, nanos))) ==> r.connect_timeout == Some(
                TimeSpan { secs, nanos },
            )
            &&& (env_lookup(env, prefix + "_"@ + "READ_TIMEOUT"@) matches Some(v)
                && iso8601_duration(v) == Some((secs, nanos))) ==> r.read_timeout == Some(
                TimeSpan { secs, nanos },
            )
        }),
{
}

fn env_duration(env: &EnvVars, prefix: &str, field: &str) -> (res: Option<TimeSpan>)
    ensures
        match env_lookup(env.vars@, prefix@ + "_"@ + field@) {
            Some(v) => res == match iso8601_duration(v) {
                Some((secs, nanos)) => Some(TimeSpan { secs, nanos }),
                None => None::<TimeSpan>,
            },
            None => res is None,
        },
{
    let mut name = prefix.to_string();
    name.append("_");
    name.append(field);
    match env.get(name.as_str()) {
        Some(value) => match parse_iso8601_duration(value.as_str()) {
            Some(d) => Some(d),
            None => None,
        },
        None => None,
    }
}

impl HttpClientConfig {
    /// Replaces each timeout for which the environment holds a valid ISO 8601 duration
    /// under `<prefix>_TIMEOUT`, `<prefix>_CONNECT_TIMEOUT` or `<prefix>_READ_TIMEOUT`.
    pub fn with_env_overrides(self, prefix: &str, env: &EnvVars) -> (res: Self)
        ensures
            res == with_env_overrides_spec(self, prefix@, env.vars@),
    {
        let mut res = self;
        if let Some(d) = env_duration(env, prefix, "TIMEOUT") {
            res.timeout = Some(d);
        }
        if let Some(d) = env_duration(env, prefix, "CONNECT_TIMEOUT") {
            res.connect_timeout = Some(d);
        }
        if let Some(d) = env_duration(env, prefix, "READ_TIMEOUT") {
            res.read_timeout = Some(d);
        }
        res
    }

    /// Settings for service calls: no timeouts, overridable by `GOLEM_HTTP_*`.
    pub fn new_for_service_calls(allow_insecure: bool, env: &EnvVars) -> (res: Self)
        ensures
            res == with_env_overrides_spec(
                HttpClientConfig {
                    allow_insecure,
                    timeout: None,
                    connect_timeout: None,
                    read_timeout: None,
                },
                "GOLEM_HTTP"@,
                env.vars@,
            ),
    {
        HttpClientConfig {
            allow_insecure,
            timeout: None,
            connect_timeout: None,
            read_timeout: None,
        }.with_env_overrides("GOLEM_HTTP", env)
    }

    /// Settings for health checks: 2 s overall, 1 s to connect and to read, overridable by
    /// `GOLEM_HTTP_HEALTHCHECK_*`.
    pub fn new_for_health_check(allow_insecure: bool, env: &EnvVars) -> (res: Self)
        ensures
            res == with_env_overrides_spec(
                HttpClientConfig {
                    allow_insecure,
                    timeout: Some(TimeSpan { secs: 2, nanos: 0 }),
                    connect_timeout: Some(TimeSpan { secs: 1, nanos: 0 }),
                    read_timeout: Some(TimeSpan { secs: 1, nanos: 0 }),
                },
                "GOLEM_HTTP_HEALTHCHECK"@,
                env.vars@,
            ),
    {
        HttpClientConfig {
            allow_insecure,
            timeout: Some(TimeSpan::from_secs(2)),
            connect_timeout: Some(TimeSpan::from_secs(1)),
            read_timeout: Some(TimeSpan::from_secs(1)),
        }.with_env_overrides("GOLEM_HTTP_HEALTHCHECK", env)
    }

    /// Settings for file downloads: 60 s overall, 10 s to connect, 60 s to read,
    /// overridable by `GOLEM_HTTP_FILE_DOWNLOAD_*`.
    pub fn new_for_file_download(allow_insecure: bool, env: &EnvVars) -> (res: Self)
        ensures
            res == with_env_overrides_spec(
                HttpClientConfig {
                    allow_insecure,
                    timeout: Some(TimeSpan { secs: 60, nanos: 0 }),
                    connect_timeout: Some(TimeSpan { secs: 10, nanos: 0 }),
                    read_timeout: Some(TimeSpan { secs: 60, nanos: 0 }),
                },
                "GOLEM_HTTP_FILE_DOWNLOAD"@,
                env.vars@,
            ),
    {
        HttpClientConfig {
            allow_insecure,
            timeout: Some(TimeSpan::from_secs(60)),
            connect_timeout: Some(TimeSpan::from_secs(10)),
            read_timeout: Some(TimeSpan::from_secs(60)),
        }.with_env_overrides("GOLEM_HTTP_FILE_DOWNLOAD", env)
    }
}

/// The profile named `name`, if any (the first one, where names repeat).
pub open spec fn lookup_profile(ps: Seq<NamedProfile>, name: Seq<char>) -> Option<Profile>
    decreases ps.len(),
{
    if ps.len() == 0 {
        None
    } else if ps[0].name.0@ == name {
        Some(ps[0].profile)
    } else {
        lookup_profile(ps.drop_first(), name)
    }
}

/// The names of the profiles, in order.
pub open spec fn profile_names(ps: Seq<NamedProfile>) -> Seq<Seq<char>> {
    ps.map_values(|p: NamedProfile| p.name.0@)
}

/// The profiles are in increasing name order, so no two share a name (as the keys of a
/// `BTreeMap`).
pub open spec fn sorted_profile_names(ps: Seq<NamedProfile>) -> bool {
    strictly_sorted(profile_names(ps))
}

proof fn lemma_lookup_at(ps: Seq<NamedProfile>, name: Seq<char>, i: int)
    requires
        0 <= i < ps.len(),
        ps[i].name.0@ == name,
        forall|j: int| 0 <= j < i ==> ps[j].name.0@ != name,
    ensures
        lookup_profile(ps, name) == Some(ps[i].profile),
    decreases i,
{
    if i > 0 {
        lemma_lookup_at(ps.drop_first(), name, i - 1);
    }
}

proof fn lemma_lookup_absent(ps: Seq<NamedProfile>, name: Seq<char>)
    requires
        forall|j: int| 0 <= j < ps.len() ==> ps[j].name.0@ != name,
    ensures
        lookup_profile(ps, name) is None,
    decreases ps.len(),
{
    if ps.len() > 0 {
        lemma_lookup_absent(ps.drop_first(), name);
    }
}

/// Why a configuration request was refused.
pub enum ConfigError {
    /// No profile of the given name; the names that exist.
    ProfileNotFound { name: ProfileName, available: Vec<String> },
}

impl ConfigError {
    /// The message shown for this error.
    pub fn message(&self) -> (res: String)
        ensures
            match self {
                ConfigError::ProfileNotFound { name, available } => res@ == "No profile "@
                    + name.0@ + " in configuration. Available profiles: ["@ + joined(
                    strings_view(available@),
                    ", "@,
                ) + "]"@,
            },
    {
        match self {
            ConfigError::ProfileNotFound { name, available } => {
                let mut res = "No profile ".to_string();
                res.append(name.0.as_str());
                res.append(" in configuration. Available profiles: [");
                let listed = join(available, ", ");
                res.append(listed.as_str());
                res.append("]");
                res
            },
        }
    }
}

/// The global CLI configuration.
#[derive(Debug)]
pub struct Config {
    pub profiles: Vec<NamedProfile>,
    pub active_profile: Option<ProfileName>,
    pub active_cloud_profile: Option<ProfileName>,
}

impl Config {
    /// The profiles are in name order, and no two share a name.
    pub open spec fn wf(&self) -> bool {
        sorted_profile_names(self.profiles@)
    }

    /// An empty configuration.
    pub fn new() -> (res: Self)
        ensures
            res.wf(),
            res.profiles@.len() == 0,
            res.active_profile is None,
            res.active_cloud_profile is None,
    {
        Config { profiles: Vec::new(), active_profile: None, active_cloud_profile: None }
    }

    /// The position of the profile named `name`.
    fn position(&self, name: &ProfileName) -> (res: Option<usize>)
        ensures
            match res {
                Some(i) => i < self.profiles.len() && self.profiles@[i as int].name.0@ == name.0@
                    && forall|j: int| 0 <= j < i ==> self.profiles@[j].name.0@ != name.0@,
                None => forall|j: int|
                    0 <= j < self.profiles.len() ==> self.profiles@[j].name.0@ != name.0@,
            },
    {
        let mut i: usize = 0;
        while i < self.profiles.len()
            invariant
                i <= self.profiles.len(),
                forall|j: int| 0 <= j < i ==> self.profiles@[j].name.0@ != name.0@,
            decreases self.profiles.len() - i,
        {
            if self.profiles[i].name.same_as(name) {
                return Some(i);
            }
            i = i + 1;
        }
        None
    }

    /// Where a profile named `name`, which is not there, goes to keep the name order.
    fn insert_position(&self, name: &ProfileName) -> (res: usize)
        requires
            self.wf(),
            forall|j: int| 0 <= j < self.profiles.len() ==> self.profiles@[j].name.0@ != name.0@,
        ensures
            res <= self.profiles.len(),
            forall|j: int| 0 <= j < res ==> chars_lt(self.profiles@[j].name.0@, name.0@),
            res < self.profiles.len() ==> chars_lt(name.0@, self.profiles@[res as int].name.0@),
    {
        let key = chars_of(name.0.as_str());
        let mut i: usize = 0;
        while i < self.profiles.len()
            invariant
                i <= self.profiles.len(),
                key@ == name.0@,
                forall|j: int| 0 <= j < self.profiles.len() ==> self.profiles@[j].name.0@ != name.0@,
                forall|j: int| 0 <= j < i ==> chars_lt(self.profiles@[j].name.0@, name.0@),
            decreases self.profiles.len() - i,
        {
            if chars_less(&key, &chars_of(self.profiles[i].name.0.as_str())) {
                return i;
            }
            proof {
                lemma_chars_lt_total(self.profiles@[i as int].name.0@, name.0@);
            }
            i = i + 1;
        }
        i
    }

    /// A copy of the profile named `name`, if any.
    pub fn find_profile(&self, name: &ProfileName) -> (res: Option<Profile>)
        ensures
            res == lookup_profile(self.profiles@, name.0@),
    {
        match self.position(name) {
            Some(i) => {
                proof {
                    lemma_lookup_at(self.profiles@, name.0@, i as int);
                }
                Some(self.profiles[i].profile.duplicate())
            },
            None => {
                proof {
                    lemma_lookup_absent(self.profiles@, name.0@);
                }
                None
            },
        }
    }

    /// The names of all profiles, in order.
    pub fn profile_names(&self) -> (res: Vec<String>)
        ensures
            strings_view(res@) == profile_names(self.profiles@),
    {
        let mut res: Vec<String> = Vec::new();
        let mut i: usize = 0;
        while i < self.profiles.len()
            invariant
                i <= self.profiles.len(),
                strings_view(res@) == profile_names(self.profiles@.take(i as int)),
            decreases self.profiles.len() - i,
        {
            let ghost before = res@;
            let n = self.profiles[i].name.0.clone();
            res.push(n);
            assert(strings_view(res@) =~= strings_view(before).push(n@));
            assert(profile_names(self.profiles@.take(i + 1)) =~= profile_names(
                self.profiles@.take(i as int),
            ).push(self.profiles@[i as int].name.0@));
            i = i + 1;
        }
        assert(self.profiles@.take(self.profiles.len() as int) =~= self.profiles@);
        res
    }

    /// The profile named `name`, taken out of this configuration.
    pub fn get_profile(self, name: &ProfileName) -> (res: Option<Profile>)
        ensures
            res == lookup_profile(self.profiles@, name.0@),
    {
        let mut this = self;
        match this.position(name) {
            Some(i) => {
                proof {
                    lemma_lookup_at(this.profiles@, name.0@, i as int);
                }
                let p = this.profiles.remove(i);
                Some(p.profile)
            },
            None => {
                proof {
                    lemma_lookup_absent(this.profiles@, name.0@);
                }
                None
            },
        }
    }

    /// Stores `profile` under `name`, replacing a profile of that name.
    pub fn set_profile(&mut self, name: ProfileName, profile: Profile)
        requires
            old(self).wf(),
        ensures
            final(self).wf(),
            lookup_profile(final(self).profiles@, name.0@) == Some(profile),
            forall|other: Seq<char>|
                other != name.0@ ==> lookup_profile(final(self).profiles@, other)
                    == lookup_profile(old(self).profiles@, other),
            final(self).active_profile == old(self).active_profile,
            final(self).active_cloud_profile == old(self).active_cloud_profile,
    {
        let ghost old_ps = self.profiles@;
        let ghost key = name.0@;
        match self.position(&name) {
            Some(i) => {
                let _ = self.profiles.remove(i);
                self.profiles.insert(i, NamedProfile { name, profile });
                let ghost new_ps = self.profiles@;
                assert(new_ps =~= old_ps.update(i as int, new_ps[i as int]));
                proof {
                    assert(profile_names(new_ps) =~= profile_names(old_ps));
                    lemma_lookup_at(new_ps, key, i as int);
                    assert forall|other: Seq<char>| other != key implies lookup_profile(
                        new_ps,
                        other,
                    ) == lookup_profile(old_ps, other) by {
                        lemma_lookup_update_other(old_ps, i as int, new_ps[i as int], other);
                    }
                }
            },
            None => {
                let k = self.insert_position(&name);
                self.profiles.insert(k, NamedProfile { name, profile });
                let ghost new_ps = self.profiles@;
                proof {
                    assert(new_ps =~= old_ps.insert(k as int, new_ps[k as int]));
                    assert(forall|j: int| 0 <= j < k ==> new_ps[j] == old_ps[j]);
                    lemma_lookup_at(new_ps, key, k as int);
                    assert forall|other: Seq<char>| other != key implies lookup_profile(
                        new_ps,
                        other,
                    ) == lookup_profile(old_ps, other) by {
                        lemma_lookup_insert_other(old_ps, k as int, new_ps[k as int], other);
                    }
                    let names = profile_names(old_ps);
                    let new_names = profile_names(new_ps);
                    assert(new_names =~= names.insert(k as int, key));
                    assert forall|a: int, b: int| 0 <= a < b < new_names.len() implies chars_lt(
                        #[trigger] new_names[a],
                        #[trigger] new_names[b],
                    ) by {
                        if b < k {
                        } else if b == k {
                            assert(new_names[a] == names[a]);
                        } else if a < k {
                            assert(new_names[a] == names[a]);
                            assert(new_names[b] == names[b - 1]);
                        } else if a == k {
                            assert(new_names[b] == names[b - 1]);
                            if b - 1 > k {
                                lemma_chars_lt_transitive(key, names[k as int], names[b - 1]);
                            }
                        } else {
                            assert(new_names[a] == names[a - 1]);
                            assert(new_names[b] == names[b - 1]);
                        }
                    }
                }
            },
        }
    }

    /// Makes the profile named `name` the active one of its kind.
    pub fn set_active_profile_name(&mut self, name: ProfileName) -> (res: Result<(), ConfigError>)
        ensures
            match lookup_profile(old(self).profiles@, name.0@) {
                None => res matches Err(ConfigError::ProfileNotFound { name: n, available })
                    && n.0@ == name.0@ && strings_view(available@) == profile_names(
                    old(self).profiles@,
                ) && *final(self) == *old(self),
                Some(Profile::Golem(_)) => res is Ok && final(self).profiles
                    == old(self).profiles && final(self).active_cloud_profile == old(
                    self,
                ).active_cloud_profile && final(self).active_profile is Some
                    && final(self).active_profile.unwrap().0@ == name.0@,
                Some(Profile::GolemCloud(_)) => res is Ok && final(self).profiles
                    == old(self).profiles && final(self).active_profile == old(
                    self,
                ).active_profile && final(self).active_cloud_profile is Some
                    && final(self).active_cloud_profile.unwrap().0@ == name.0@,
            },
    {
        match self.position(&name) {
            None => {
                proof {
                    lemma_lookup_absent(self.profiles@, name.0@);
                }
                let available = self.profile_names();
                Err(ConfigError::ProfileNotFound { name, available })
            },
            Some(i) => {
                proof {
                    lemma_lookup_at(self.profiles@, name.0@, i as int);
                }
                if self.profiles[i].profile.is_cloud() {
                    self.active_cloud_profile = Some(name);
                } else {
                    self.active_profile = Some(name);
                }
                Ok(())
            },
        }
    }

    /// The selected profile, or else the active one, taken out of this configuration.
    pub fn get_active_profile(self, selected: Option<ProfileName>) -> (res: NamedProfile)
        requires
            selected is Some || self.active_profile is Some,
            lookup_profile(
                self.profiles@,
                match selected {
                    Some(n) => n.0@,
                    None => self.active_profile.unwrap().0@,
                },
            ) is Some,
        ensures
            res.name.0@ == match selected {
                Some(n) => n.0@,
                None => self.active_profile.unwrap().0@,
            },
            Some(res.profile) == lookup_profile(self.profiles@, res.name.0@),
    {
        let name = match selected {
            Some(n) => n,
            None => match self.active_profile {
                Some(ref a) => a.duplicate(),
                None => ProfileName(String::new()),
            },
        };
        let ghost key = name.0@;
        let profile = self.get_profile(&name);
        match profile {
            Some(profile) => NamedProfile { name, profile },
            None => NamedProfile { name, profile: Profile::Golem(OssProfile {
                url: String::new(),
                worker_url: None,
                allow_insecure: false,
                config: ProfileConfig::new(),
            }) },
        }
    }
}

proof fn lemma_lookup_update_other(ps: Seq<NamedProfile>, i: int, x: NamedProfile, other: Seq<char>)
    requires
        0 <= i < ps.len(),
        x.name.0@ == ps[i].name.0@,
        other != x.name.0@,
    ensures
        lookup_profile(ps.update(i, x), other) == lookup_profile(ps, other),
    decreases ps.len(),
{
    if i > 0 {
        lemma_lookup_update_other(ps.drop_first(), i - 1, x, other);
        assert(ps.update(i, x).drop_first() =~= ps.drop_first().update(i - 1, x));
    } else {
        assert(ps.update(i, x).drop_first() =~= ps.drop_first());
    }
}

proof fn lemma_lookup_insert_other(ps: Seq<NamedProfile>, k: int, x: NamedProfile, other: Seq<char>)
    requires
        0 <= k <= ps.len(),
        other != x.name.0@,
    ensures
        lookup_profile(ps.insert(k, x), other) == lookup_profile(ps, other),
    decreases ps.len(),
{
    if k == 0 {
        assert(ps.insert(k, x)[0] == x);
        assert(ps.insert(k, x).drop_first() =~= ps);
    } else {
        lemma_lookup_insert_other(ps.drop_first(), k - 1, x, other);
        assert(ps.insert(k, x).drop_first() =~= ps.drop_first().insert(k - 1, x));
        assert(ps.insert(k, x)[0] == ps[0]);
    }
}

impl CloudAuthentication {
    /// A copy of this authentication data.
    pub fn duplicate(&self) -> (res: Self)
        ensures
            res == *self,
    {
        CloudAuthentication {
            id: self.id.clone(),
            account_id: self.account_id.clone(),
            created_at: self.created_at.clone(),
            expires_at: self.expires_at.clone(),
            secret: self.secret.clone(),
        }
    }
}

fn duplicate_opt_string(s: &Option<String>) -> (res: Option<String>)
    ensures
        res == *s,
{
    match s {
        Some(v) => Some(v.clone()),
        None => None,
    }
}

impl Profile {
    /// A copy of this profile.
    pub fn duplicate(&self) -> (res: Self)
        ensures
            res == *self,
    {
        match self {
            Profile::Golem(p) => Profile::Golem(
                OssProfile {
                    url: p.url.clone(),
                    worker_url: duplicate_opt_string(&p.worker_url),
                    allow_insecure: p.allow_insecure,
                    config: p.config,
                },
            ),
            Profile::GolemCloud(p) => Profile::GolemCloud(
                CloudProfile {
                    custom_url: duplicate_opt_string(&p.custom_url),
                    custom_cloud_url: duplicate_opt_string(&p.custom_cloud_url),
                    custom_worker_url: duplicate_opt_string(&p.custom_worker_url),
                    allow_insecure: p.allow_insecure,
                    config: p.config,
                    auth: match &p.auth {
                        Some(a) => Some(a.duplicate()),
                        None => None,
                    },
                },
            ),
        }
    }
}

/// The endpoints and HTTP settings that the service clients are built with.
pub struct ClientConfig {
    pub component_url: String,
    pub worker_url: String,
    pub cloud_url: Option<String>,
    pub service_http_client_config: HttpClientConfig,
    pub health_check_http_client_config: HttpClientConfig,
    pub file_download_http_client_config: HttpClientConfig,
}

impl ClientConfig {
    /// The client settings of a self-hosted Golem profile: the worker service defaults to
    /// the component service URL.
    pub fn from_profile(profile: &Profile, env: &EnvVars) -> (res: Self)
        requires
            *profile is Golem,
        ensures
            res.component_url@ == profile->Golem_0.url@,
            res.worker_url@ == match profile->Golem_0.worker_url {
                Some(w) => w@,
                None => profile->Golem_0.url@,
            },
            res.cloud_url is None,
            res.service_http_client_config == with_env_overrides_spec(
                HttpClientConfig {
                    allow_insecure: profile->Golem_0.allow_insecure,
                    timeout: None,
                    connect_timeout: None,
                    read_timeout: None,
                },
                "GOLEM_HTTP"@,
                env.vars@,
            ),
            res.health_check_http_client_config == with_env_overrides_spec(
                HttpClientConfig {
                    allow_insecure: profile->Golem_0.allow_insecure,
                    timeout: Some(TimeSpan { secs: 2, nanos: 0 }),
                    connect_timeout: Some(TimeSpan { secs: 1, nanos: 0 }),
                    read_timeout: Some(TimeSpan { secs: 1, nanos: 0 }),
                },
                "GOLEM_HTTP_HEALTHCHECK"@,
                env.vars@,
            ),
            res.file_download_http_client_config == with_env_overrides_spec(
                HttpClientConfig {
                    allow_insecure: profile->Golem_0.allow_insecure,
                    timeout: Some(TimeSpan { secs: 60, nanos: 0 }),
                    connect_timeout: Some(TimeSpan { secs: 10, nanos: 0 }),
                    read_timeout: Some(TimeSpan { secs: 60, nanos: 0 }),
                },
                "GOLEM_HTTP_FILE_DOWNLOAD"@,
                env.vars@,
            ),
    {
        match profile {
            Profile::Golem(p) => {
                let allow_insecure = p.allow_insecure;
                ClientConfig {
                    component_url: p.url.clone(),
                    worker_url: match &p.worker_url {
                        Some(w) => w.clone(),
                        None => p.url.clone(),
                    },
                    cloud_url: None,
                    service_http_client_config: HttpClientConfig::new_for_service_calls(
                        allow_insecure,
                        env,
                    ),
                    health_check_http_client_config: HttpClientConfig::new_for_health_check(
                        allow_insecure,
                        env,
                    ),
                    file_download_http_client_config: HttpClientConfig::new_for_file_download(
                        allow_insecure,
                        env,
                    ),
                }
            },
            Profile::GolemCloud(_) => ClientConfig {
                component_url: String::new(),
                worker_url: String::new(),
                cloud_url: None,
                service_http_client_config: HttpClientConfig::new_for_service_calls(false, env),
                health_check_http_client_config: HttpClientConfig::new_for_health_check(
                    false,
                    env,
                ),
                file_download_http_client_config: HttpClientConfig::new_for_file_download(
                    false,
                    env,
                ),
            },
        }
    }
}

} // verus!
