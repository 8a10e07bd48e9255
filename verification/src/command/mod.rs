//! The command model of the CLI and the recognition of partially typed commands.
//!
//! When the command line does not parse, the positional arguments typed so far and the
//! names of the missing arguments (from the parser's error) are matched against known
//! command shapes, so that the user can be helped with what is missing.

pub mod server;
pub mod shared_args;
pub mod worker;

use crate::config::{env_lookup, EnvVars, ProfileName};
use crate::text::{chars_equal, chars_of, push_char, strings_view};
use vstd::prelude::*;

verus! {

/// `c` in upper case, where it is an ASCII letter.
pub open spec fn ascii_upper_char(c: char) -> char {
    if 'a' <= c && c <= 'z' {
        ((c as u8) - 32) as char
    } else {
        c
    }
}

/// `s` with its ASCII letters in upper case.
pub open spec fn ascii_upper(s: Seq<char>) -> Seq<char> {
    s.map_values(|c: char| ascii_upper_char(c))
}

/// Upper-cases an ASCII string (std `str::to_uppercase` on ASCII input).
pub fn to_ascii_uppercase(s: &str) -> (res: String)
    ensures
        res@ == ascii_upper(s@),
{
    let cs = chars_of(s);
    let mut res = String::new();
    let mut i: usize = 0;
    while i < cs.len()
        invariant
            i <= cs.len(),
            res@ == ascii_upper(cs@.take(i as int)),
        decreases cs.len() - i,
    {
        let c = cs[i];
        let u = if 'a' <= c && c <= 'z' {
            ((c as u8) - 32) as char
        } else {
            c
        };
        push_char(&mut res, u);
        assert(ascii_upper(cs@.take(i + 1)) =~= ascii_upper(cs@.take(i as int)).push(u));
        i = i + 1;
    }
    assert(cs@.take(cs.len() as int) =~= cs@);
    res
}

/// The value of a lenient boolean: `true`, `t`, `yes`, `y` in any ASCII case, and `1`, are
/// true; `false`, `f`, `no`, `n` in any ASCII case, and `0`, are false; nothing else is a
/// boolean.
pub open spec fn lenient_bool_of(s: Seq<char>) -> Option<bool> {
    let u = ascii_upper(s);
    if u == "TRUE"@ || u == "T"@ || u == "YES"@ || u == "Y"@ || s == "1"@ {
        Some(true)
    } else if u == "FALSE"@ || u == "F"@ || u == "NO"@ || u == "N"@ || s == "0"@ {
        Some(false)
    } else {
        None
    }
}

/// Parses a lenient boolean with `FromStr` of `lenient_bool::LenientBool`, which compares
/// the text, ignoring ASCII case, with the words of `lenient_bool_of`; `None` where it
/// refuses the text.
#[verifier::external_body]
fn parse_lenient_bool(s: &str) -> (res: Option<bool>)
    ensures
        res == lenient_bool_of(s@),
{
    match s.parse::<lenient_bool::LenientBool>() {
        Ok(b) => Some(b.into()),
        Err(_) => None,
    }
}

/// The view of an optional text.
pub open spec fn opt_text(o: Option<String>) -> Option<Seq<char>> {
    match o {
        Some(s) => Some(s@),
        None => None,
    }
}

/// A setting given on the command line, or else the value of the environment variable.
pub open spec fn flag_or_env(flag: Option<Seq<char>>, env_value: Option<Seq<char>>) -> Option<
    Seq<char>,
> {
    match flag {
        Some(v) => Some(v),
        None => env_value,
    }
}

/// The global flags of the command line (the verbosity flags are left to the parser).
pub struct GolemCliGlobalFlags {
    /// Selected Golem profile.
    pub profile: Option<ProfileName>,
    /// Custom path to the root application manifest.
    pub app_manifest_path: Option<String>,
    /// Selected build profile.
    pub build_profile: Option<String>,
    /// Custom path to the config directory.
    pub config_dir: Option<String>,
    pub wasm_rpc_path: Option<String>,
    pub wasm_rpc_version: Option<String>,
    pub wasm_rpc_offline: bool,
}

impl Default for GolemCliGlobalFlags {
    fn default() -> (res: Self)
        ensures
            res.profile is None,
            res.app_manifest_path is None,
            res.build_profile is None,
            res.config_dir is None,
            res.wasm_rpc_path is None,
            res.wasm_rpc_version is None,
            !res.wasm_rpc_offline,
    {
        GolemCliGlobalFlags {
            profile: None,
            app_manifest_path: None,
            build_profile: None,
            config_dir: None,
            wasm_rpc_path: None,
            wasm_rpc_version: None,
            wasm_rpc_offline: false,
        }
    }
}

impl GolemCliGlobalFlags {
    /// The selected profile's name, if one is selected.
    pub open spec fn profile_view(&self) -> Option<Seq<char>> {
        match self.profile {
            Some(p) => Some(p.0@),
            None => None,
        }
    }

    /// Fills the settings left unset on the command line from `GOLEM_APP_MANIFEST_PATH`,
    /// `GOLEM_PROFILE`, `GOLEM_WASM_RPC_PATH` and `GOLEM_WASM_RPC_VERSION`; where
    /// `GOLEM_WASM_RPC_OFFLINE` is set, offline mode is on exactly when it holds a lenient
    /// `true`.
    pub fn with_env_overrides(self, env: &EnvVars) -> (res: Self)
        ensures
            opt_text(res.app_manifest_path) == flag_or_env(
                opt_text(self.app_manifest_path),
                env_lookup(env.vars@, "GOLEM_APP_MANIFEST_PATH"@),
            ),
            res.profile_view() == flag_or_env(
                self.profile_view(),
                env_lookup(env.vars@, "GOLEM_PROFILE"@),
            ),
            opt_text(res.wasm_rpc_path) == flag_or_env(
                opt_text(self.wasm_rpc_path),
                env_lookup(env.vars@, "GOLEM_WASM_RPC_PATH"@),
            ),
            opt_text(res.wasm_rpc_version) == flag_or_env(
                opt_text(self.wasm_rpc_version),
                env_lookup(env.vars@, "GOLEM_WASM_RPC_VERSION"@),
            ),
            res.wasm_rpc_offline == match env_lookup(env.vars@, "GOLEM_WASM_RPC_OFFLINE"@) {
                Some(v) => lenient_bool_of(v) == Some(true),
                None => self.wasm_rpc_offline,
            },
            res.build_profile == self.build_profile,
            res.config_dir == self.config_dir,
    {
        let mut flags = self;
        if flags.app_manifest_path.is_none() {
            if let Some(path) = env.get("GOLEM_APP_MANIFEST_PATH") {
                flags.app_manifest_path = Some(path.clone());
            }
        }
        if flags.profile.is_none() {
            if let Some(profile) = env.get("GOLEM_PROFILE") {
                flags.profile = Some(ProfileName(profile.clone()));
            }
        }
        if let Some(offline) = env.get("GOLEM_WASM_RPC_OFFLINE") {
            flags.wasm_rpc_offline = match parse_lenient_bool(offline.as_str()) {
                Some(b) => b,
                None => false,
            };
        }
        if flags.wasm_rpc_path.is_none() {
            if let Some(path) = env.get("GOLEM_WASM_RPC_PATH") {
                flags.wasm_rpc_path = Some(path.clone());
            }
        }
        if flags.wasm_rpc_version.is_none() {
            if let Some(version) = env.get("GOLEM_WASM_RPC_VERSION") {
                flags.wasm_rpc_version = Some(version.clone());
            }
        }
        flags
    }
}

/// Which partial match a matcher yields.
#[derive(PartialEq, Eq, Structural, Clone, Copy, Debug)]
pub enum PartialMatchKind {
    AppNewMissingLanguage,
    ComponentNewMissingLanguage,
    WorkerInvokeMissingWorkerName,
    WorkerInvokeMissingFunctionName,
}

/// A known command shape: the subcommand path, the positional arguments that must have
/// been given, and the positional argument that the parser reports missing.
pub struct InvalidArgMatcher {
    pub subcommands: Vec<String>,
    pub found_positional_args: Vec<String>,
    pub missing_positional_arg: String,
    pub to_partial_match: PartialMatchKind,
}

/// A partially matched command line.
#[derive(Debug)]
pub enum GolemCliCommandPartialMatch {
    AppNewMissingLanguage,
    AppMissingSubcommandHelp,
    ComponentNewMissingLanguage,
    WorkerInvokeMissingWorkerName,
    WorkerInvokeMissingFunctionName { worker_name: String },
}

fn strs(items: &[&str]) -> (res: Vec<String>)
    ensures
        strings_view(res@) == items@.map_values(|s: &str| s@),
{
    let mut res: Vec<String> = Vec::new();
    let mut i: usize = 0;
    while i < items.len()
        invariant
            i <= items.len(),
            strings_view(res@) == items@.take(i as int).map_values(|s: &str| s@),
        decreases items.len() - i,
    {
        let ghost before = res@;
        let s = items[i].to_string();
        res.push(s);
        assert(strings_view(res@) =~= strings_view(before).push(items@[i as int]@));
        assert(items@.take(i + 1).map_values(|s: &str| s@) =~= items@.take(i as int).map_values(
            |s: &str| s@,
        ).push(items@[i as int]@));
        i = i + 1;
    }
    assert(items@.take(items.len() as int) =~= items@);
    res
}

/// The known command shapes, in the order they are tried.
pub fn invalid_arg_matchers() -> (res: Vec<InvalidArgMatcher>)
    ensures
        res.len() == 4,
        strings_view(res@[0].subcommands@) == seq!["app"@, "new"@],
        res@[0].found_positional_args.len() == 0,
        res@[0].missing_positional_arg@ == "language"@,
        res@[0].to_partial_match == PartialMatchKind::AppNewMissingLanguage,
        strings_view(res@[1].subcommands@) == seq!["component"@, "new"@],
        res@[1].found_positional_args.len() == 0,
        res@[1].missing_positional_arg@ == "language"@,
        res@[1].to_partial_match == PartialMatchKind::ComponentNewMissingLanguage,
        strings_view(res@[2].subcommands@) == seq!["worker"@, "invoke"@],
        res@[2].found_positional_args.len() == 0,
        res@[2].missing_positional_arg@ == "worker_name"@,
        res@[2].to_partial_match == PartialMatchKind::WorkerInvokeMissingWorkerName,
        strings_view(res@[3].subcommands@) == seq!["worker"@, "invoke"@],
        strings_view(res@[3].found_positional_args@) == seq!["worker_name"@],
        res@[3].missing_positional_arg@ == "function_name"@,
        res@[3].to_partial_match == PartialMatchKind::WorkerInvokeMissingFunctionName,
{
    let mut res: Vec<InvalidArgMatcher> = Vec::new();
    res.push(
        InvalidArgMatcher {
            subcommands: strs(&["app", "new"]),
            found_positional_args: Vec::new(),
            missing_positional_arg: "language".to_string(),
            to_partial_match: PartialMatchKind::AppNewMissingLanguage,
        },
    );
    res.push(
        InvalidArgMatcher {
            subcommands: strs(&["component", "new"]),
            found_positional_args: Vec::new(),
            missing_positional_arg: "language".to_string(),
            to_partial_match: PartialMatchKind::ComponentNewMissingLanguage,
        },
    );
    res.push(
        InvalidArgMatcher {
            subcommands: strs(&["worker", "invoke"]),
            found_positional_args: Vec::new(),
            missing_positional_arg: "worker_name".to_string(),
            to_partial_match: PartialMatchKind::WorkerInvokeMissingWorkerName,
        },
    );
    res.push(
        InvalidArgMatcher {
            subcommands: strs(&["worker", "invoke"]),
            found_positional_args: strs(&["worker_name"]),
            missing_positional_arg: "function_name".to_string(),
            to_partial_match: PartialMatchKind::WorkerInvokeMissingFunctionName,
        },
    );
    res
}

/// The index of the last occurrence of `id` in `ids`.
pub open spec fn position_of(ids: Seq<Seq<char>>, id: Seq<char>) -> Option<int>
    decreases ids.len(),
{
    if ids.len() == 0 {
        None
    } else if ids.last() == id {
        Some(ids.len() - 1)
    } else {
        position_of(ids.drop_last(), id)
    }
}

/// The values given for the `expected` positional arguments (whose positions among the
/// subcommand's positional arguments `ids` tell, after the `base` subcommand words), up to
/// the first one that is unknown or not given.
pub open spec fn collect_found(
    pos: Seq<Seq<char>>,
    base: int,
    expected: Seq<Seq<char>>,
    ids: Seq<Seq<char>>,
) -> Seq<Seq<char>>
    decreases expected.len(),
{
    if expected.len() == 0 {
        Seq::empty()
    } else {
        match position_of(ids, expected[0]) {
            None => Seq::empty(),
            Some(idx) => if base + idx < pos.len() {
                seq![pos[base + idx]] + collect_found(pos, base, expected.drop_first(), ids)
            } else {
                Seq::empty()
            },
        }
    }
}

/// The matcher as plain values.
pub open spec fn matcher_view(m: InvalidArgMatcher) -> (
    Seq<Seq<char>>,
    Seq<Seq<char>>,
    Seq<char>,
    PartialMatchKind,
) {
    (
        strings_view(m.subcommands@),
        strings_view(m.found_positional_args@),
        m.missing_positional_arg@,
        m.to_partial_match,
    )
}

/// What a matcher yields for the typed positional arguments `pos`, the missing-argument
/// names of the parse error `err_args` and the positional argument ids of the matcher's
/// subcommand: the found argument values, where it applies. With `variadic`, the missing
/// argument may be reported as a repeated one (`<NAME>...`).
pub open spec fn matcher_result(
    m: (Seq<Seq<char>>, Seq<Seq<char>>, Seq<char>, PartialMatchKind),
    pos: Seq<Seq<char>>,
    err_args: Seq<Seq<char>>,
    ids: Seq<Seq<char>>,
    variadic: bool,
) -> Option<Seq<Seq<char>>> {
    let name = "<"@ + ascii_upper(m.2) + ">"@;
    if pos.len() < m.0.len() {
        None
    } else if !(err_args.contains(name) || (variadic && err_args.contains(name + "..."@))) {
        None
    } else if pos.take(m.0.len() as int) != m.0 {
        None
    } else {
        let found = collect_found(pos, m.0.len() as int, m.1, ids);
        if found.len() == m.1.len() {
            Some(found)
        } else {
            None
        }
    }
}

/// The first matcher that applies, with the values it found.
pub open spec fn first_match(
    ms: Seq<(Seq<Seq<char>>, Seq<Seq<char>>, Seq<char>, PartialMatchKind)>,
    pos: Seq<Seq<char>>,
    err_args: Seq<Seq<char>>,
    ids: Seq<Seq<Seq<char>>>,
    variadic: bool,
) -> Option<(PartialMatchKind, Seq<Seq<char>>)>
    decreases ms.len(),
{
    if ms.len() == 0 {
        None
    } else {
        match matcher_result(ms[0], pos, err_args, ids[0], variadic) {
            Some(found) => Some((ms[0].3, found)),
            None => first_match(ms.drop_first(), pos, err_args, ids.drop_first(), variadic),
        }
    }
}

pub open spec fn matchers_view(ms: Seq<InvalidArgMatcher>) -> Seq<
    (Seq<Seq<char>>, Seq<Seq<char>>, Seq<char>, PartialMatchKind),
> {
    ms.map_values(|m: InvalidArgMatcher| matcher_view(m))
}

pub open spec fn ids_view(ids: Seq<Vec<String>>) -> Seq<Seq<Seq<char>>> {
    ids.map_values(|v: Vec<String>| strings_view(v@))
}

/// Whether `v` holds `s`.
pub fn holds_string(v: &Vec<String>, s: &String) -> (res: bool)
    ensures
        res == strings_view(v@).contains(s@),
{
    let cs = chars_of(s.as_str());
    let mut i: usize = 0;
    while i < v.len()
        invariant
            i <= v.len(),
            cs@ == s@,
            forall|k: int| 0 <= k < i ==> v@[k]@ != s@,
        decreases v.len() - i,
    {
        if chars_equal(&chars_of(v[i].as_str()), &cs) {
            assert(strings_view(v@)[i as int] == s@);
            return true;
        }
        i = i + 1;
    }
    false
}

fn last_position(ids: &Vec<String>, id: &String) -> (res: Option<usize>)
    ensures
        match res {
            Some(i) => position_of(strings_view(ids@), id@) == Some(i as int) && i < ids.len(),
            None => position_of(strings_view(ids@), id@) is None,
        },
{
    let cs = chars_of(id.as_str());
    let mut i: usize = ids.len();
    assert(strings_view(ids@).take(ids.len() as int) =~= strings_view(ids@));
    while i > 0
        invariant
            i <= ids.len(),
            cs@ == id@,
            position_of(strings_view(ids@), id@) == position_of(
                strings_view(ids@).take(i as int),
                id@,
            ),
        decreases i,
    {
        let ghost t = strings_view(ids@).take(i as int);
        assert(t.drop_last() =~= strings_view(ids@).take(i - 1));
        if chars_equal(&chars_of(ids[i - 1].as_str()), &cs) {
            return Some(i - 1);
        }
        i = i - 1;
    }
    assert(strings_view(ids@).take(0) =~= Seq::<Seq<char>>::empty());
    None
}

fn starts_with(pos: &Vec<String>, prefix: &Vec<String>) -> (res: bool)
    requires
        prefix.len() <= pos.len(),
    ensures
        res == (strings_view(pos@).take(prefix.len() as int) == strings_view(prefix@)),
{
    let mut i: usize = 0;
    while i < prefix.len()
        invariant
            prefix.len() <= pos.len(),
            i <= prefix.len(),
            forall|k: int| 0 <= k < i ==> pos@[k]@ == prefix@[k]@,
        decreases prefix.len() - i,
    {
        if !chars_equal(&chars_of(pos[i].as_str()), &chars_of(prefix[i].as_str())) {
            assert(strings_view(pos@).take(prefix.len() as int)[i as int] != strings_view(
                prefix@,
            )[i as int]);
            return false;
        }
        i = i + 1;
    }
    assert(strings_view(pos@).take(prefix.len() as int) =~= strings_view(prefix@));
    true
}

/// Applies one matcher; see `matcher_result`.
pub fn apply_matcher(
    m: &InvalidArgMatcher,
    pos: &Vec<String>,
    err_args: &Vec<String>,
    ids: &Vec<String>,
    variadic: bool,
) -> (res: Option<Vec<String>>)
    ensures
        match res {
            Some(found) => matcher_result(
                matcher_view(*m),
                strings_view(pos@),
                strings_view(err_args@),
                strings_view(ids@),
                variadic,
            ) == Some(strings_view(found@)),
            None => matcher_result(
                matcher_view(*m),
                strings_view(pos@),
                strings_view(err_args@),
                strings_view(ids@),
                variadic,
            ) is None,
        },
{
    if pos.len() < m.subcommands.len() {
        return None;
    }
    let mut name = "<".to_string();
    let upper = to_ascii_uppercase(m.missing_positional_arg.as_str());
    name.append(upper.as_str());
    name.append(">");
    let mut name_repeated = name.clone();
    name_repeated.append("...");
    if !holds_string(err_args, &name) && !(variadic && holds_string(err_args, &name_repeated)) {
        return None;
    }
    if !starts_with(pos, &m.subcommands) {
        return None;
    }
    let base = m.subcommands.len();
    let ghost posv = strings_view(pos@);
    let ghost expected = strings_view(m.found_positional_args@);
    let ghost idsv = strings_view(ids@);
    let mut found: Vec<String> = Vec::new();
    let mut k: usize = 0;
    let mut stopped = false;
    assert(expected.skip(0) =~= expected);
    while !stopped && k < m.found_positional_args.len()
        invariant
            k <= m.found_positional_args.len(),
            found.len() == k,
            base == m.subcommands.len(),
            base <= pos.len(),
            posv == strings_view(pos@),
            expected == strings_view(m.found_positional_args@),
            idsv == strings_view(ids@),
            collect_found(posv, base as int, expected, idsv) == strings_view(found@)
                + collect_found(posv, base as int, expected.skip(k as int), idsv),
            stopped ==> collect_found(posv, base as int, expected.skip(k as int), idsv)
                == Seq::<Seq<char>>::empty(),
        decreases (m.found_positional_args.len() - k) * 2 + if stopped { 0int } else { 1int },
    {
        let ghost rest = expected.skip(k as int);
        assert(rest[0] == expected[k as int]);
        assert(rest.drop_first() =~= expected.skip(k + 1));
        match last_position(ids, &m.found_positional_args[k]) {
            Some(idx) => {
                if idx >= pos.len() - base {
                    assert(collect_found(posv, base as int, rest, idsv) =~= Seq::<Seq<char>>::empty());
                    stopped = true;
                } else {
                    let ghost before = found@;
                    let v = pos[base + idx].clone();
                    found.push(v);
                    assert(strings_view(found@) =~= strings_view(before).push(posv[base + idx]));
                    assert(strings_view(before) + (seq![posv[base + idx]] + collect_found(
                        posv,
                        base as int,
                        rest.drop_first(),
                        idsv,
                    )) =~= strings_view(found@) + collect_found(
                        posv,
                        base as int,
                        rest.drop_first(),
                        idsv,
                    ));
                    k = k + 1;
                }
            },
            None => {
                assert(collect_found(posv, base as int, rest, idsv) =~= Seq::<Seq<char>>::empty());
                stopped = true;
            },
        }
    }
    proof {
        if !stopped {
            assert(expected.skip(k as int) =~= Seq::<Seq<char>>::empty());
        }
        assert(strings_view(found@) + Seq::<Seq<char>>::empty() =~= strings_view(found@));
        lemma_collect_found_len(posv, base as int, expected, idsv);
    }
    if found.len() == m.found_positional_args.len() {
        Some(found)
    } else {
        None
    }
}

proof fn lemma_collect_found_len(
    pos: Seq<Seq<char>>,
    base: int,
    expected: Seq<Seq<char>>,
    ids: Seq<Seq<char>>,
)
    ensures
        collect_found(pos, base, expected, ids).len() <= expected.len(),
    decreases expected.len(),
{
    if expected.len() > 0 {
        lemma_collect_found_len(pos, base, expected.drop_first(), ids);
    }
}

/// Tries the matchers in order; `ids[i]` are the positional argument ids of the
/// subcommand of `matchers[i]`.
pub fn match_invalid_arg_kind(
    pos: &Vec<String>,
    err_args: &Vec<String>,
    matchers: &Vec<InvalidArgMatcher>,
    ids: &Vec<Vec<String>>,
    variadic: bool,
) -> (res: Option<(PartialMatchKind, Vec<String>)>)
    requires
        ids.len() == matchers.len(),
    ensures
        match res {
            Some((kind, found)) => first_match(
                matchers_view(matchers@),
                strings_view(pos@),
                strings_view(err_args@),
                ids_view(ids@),
                variadic,
            ) == Some((kind, strings_view(found@))),
            None => first_match(
                matchers_view(matchers@),
                strings_view(pos@),
                strings_view(err_args@),
                ids_view(ids@),
                variadic,
            ) is None,
        },
{
    let ghost mv = matchers_view(matchers@);
    let ghost iv = ids_view(ids@);
    let ghost posv = strings_view(pos@);
    let ghost ev = strings_view(err_args@);
    let mut i: usize = 0;
    assert(mv.skip(0) =~= mv);
    assert(iv.skip(0) =~= iv);
    while i < matchers.len()
        invariant
            i <= matchers.len(),
            ids.len() == matchers.len(),
            mv == matchers_view(matchers@),
            iv == ids_view(ids@),
            posv == strings_view(pos@),
            ev == strings_view(err_args@),
            first_match(mv, posv, ev, iv, variadic) == first_match(
                mv.skip(i as int),
                posv,
                ev,
                iv.skip(i as int),
                variadic,
            ),
        decreases matchers.len() - i,
    {
        assert(mv.skip(i as int)[0] == matcher_view(matchers@[i as int]));
        assert(iv.skip(i as int)[0] == strings_view(ids@[i as int]@));
        assert(mv.skip(i as int).drop_first() =~= mv.skip(i + 1));
        assert(iv.skip(i as int).drop_first() =~= iv.skip(i + 1));
        match apply_matcher(&matchers[i], pos, err_args, &ids[i], variadic) {
            Some(found) => {
                return Some((matchers[i].to_partial_match, found));
            },
            None => {},
        }
        i = i + 1;
    }
    assert(mv.skip(i as int) =~= Seq::<(Seq<Seq<char>>, Seq<Seq<char>>, Seq<char>, PartialMatchKind)>::empty());
    None
}

/// `res` is the partial match that `kind` makes of the found values.
pub open spec fn is_partial_match(
    res: GolemCliCommandPartialMatch,
    kind: PartialMatchKind,
    found: Seq<Seq<char>>,
) -> bool {
    match kind {
        PartialMatchKind::AppNewMissingLanguage => res is AppNewMissingLanguage,
        PartialMatchKind::ComponentNewMissingLanguage => res is ComponentNewMissingLanguage,
        PartialMatchKind::WorkerInvokeMissingWorkerName => res is WorkerInvokeMissingWorkerName,
        PartialMatchKind::WorkerInvokeMissingFunctionName => res is WorkerInvokeMissingFunctionName
            && res->worker_name@ == found[0],
    }
}

/// Builds the partial match of a matcher from the values it found.
pub fn to_partial_match(kind: PartialMatchKind, found: Vec<String>) -> (res:
    GolemCliCommandPartialMatch)
    requires
        kind == PartialMatchKind::WorkerInvokeMissingFunctionName ==> found.len() >= 1,
    ensures
        is_partial_match(res, kind, strings_view(found@)),
{
    match kind {
        PartialMatchKind::AppNewMissingLanguage => GolemCliCommandPartialMatch::AppNewMissingLanguage,
        PartialMatchKind::ComponentNewMissingLanguage => {
            GolemCliCommandPartialMatch::ComponentNewMissingLanguage
        },
        PartialMatchKind::WorkerInvokeMissingWorkerName => {
            GolemCliCommandPartialMatch::WorkerInvokeMissingWorkerName
        },
        PartialMatchKind::WorkerInvokeMissingFunctionName => {
            GolemCliCommandPartialMatch::WorkerInvokeMissingFunctionName {
                worker_name: found[0].clone(),
            }
        },
    }
}

/// Matchers that yield a worker name list the worker name argument.
pub open spec fn matchers_well_formed(ms: Seq<InvalidArgMatcher>) -> bool {
    forall|i: int|
        0 <= i < ms.len() && #[trigger] ms[i].to_partial_match
            == PartialMatchKind::WorkerInvokeMissingFunctionName ==> ms[i].found_positional_args.len()
            >= 1
}

pub proof fn lemma_first_match_found_len(
    ms: Seq<InvalidArgMatcher>,
    pos: Seq<Seq<char>>,
    err_args: Seq<Seq<char>>,
    ids: Seq<Seq<Seq<char>>>,
    variadic: bool,
)
    requires
        matchers_well_formed(ms),
        ids.len() == ms.len(),
    ensures
        first_match(matchers_view(ms), pos, err_args, ids, variadic) matches Some((kind, found)) ==> (
        kind == PartialMatchKind::WorkerInvokeMissingFunctionName ==> found.len() >= 1),
    decreases ms.len(),
{
    if ms.len() > 0 {
        let mv = matchers_view(ms);
        assert(mv[0] == matcher_view(ms[0]));
        assert(mv.drop_first() =~= matchers_view(ms.drop_first()));
        assert(matchers_well_formed(ms.drop_first())) by {
            assert forall|i: int|
                0 <= i < ms.drop_first().len() && #[trigger] ms.drop_first()[i].to_partial_match
                    == PartialMatchKind::WorkerInvokeMissingFunctionName implies ms.drop_first()[i].found_positional_args.len()
                    >= 1 by {
                assert(ms.drop_first()[i] == ms[i + 1]);
            }
        }
        lemma_first_match_found_len(ms.drop_first(), pos, err_args, ids.drop_first(), variadic);
    }
}

/// The partial match of the first matcher that applies; missing arguments may be reported
/// as repeated ones (`<NAME>...`).
pub fn match_invalid_arg(
    positional_args: &Vec<String>,
    error_context_args: &Vec<String>,
    matchers: &Vec<InvalidArgMatcher>,
    positional_arg_ids: &Vec<Vec<String>>,
) -> (res: Option<GolemCliCommandPartialMatch>)
    requires
        positional_arg_ids.len() == matchers.len(),
        matchers_well_formed(matchers@),
    ensures
        match first_match(
            matchers_view(matchers@),
            strings_view(positional_args@),
            strings_view(error_context_args@),
            ids_view(positional_arg_ids@),
            true,
        ) {
            Some((kind, found)) => res is Some && is_partial_match(res->0, kind, found),
            None => res is None,
        },
{
    proof {
        lemma_first_match_found_len(
            matchers@,
            strings_view(positional_args@),
            strings_view(error_context_args@),
            ids_view(positional_arg_ids@),
            true,
        );
    }
    match match_invalid_arg_kind(
        positional_args,
        error_context_args,
        matchers,
        positional_arg_ids,
        true,
    ) {
        Some((kind, found)) => Some(to_partial_match(kind, found)),
        None => None,
    }
}

/// The kind of a command line parse error.
#[derive(PartialEq, Eq, Structural, Clone, Copy, Debug)]
pub enum ParseErrorKind {
    MissingRequiredArgument,
    MissingSubcommand,
    DisplayHelpOnMissingArgumentOrSubcommand,
    Other,
}

/// The first of the parse error's invalid-argument lists for which a matcher applies.
pub open spec fn first_context_match(
    contexts: Seq<Seq<Seq<char>>>,
    ms: Seq<(Seq<Seq<char>>, Seq<Seq<char>>, Seq<char>, PartialMatchKind)>,
    pos: Seq<Seq<char>>,
    ids: Seq<Seq<Seq<char>>>,
) -> Option<(PartialMatchKind, Seq<Seq<char>>)>
    decreases contexts.len(),
{
    if contexts.len() == 0 {
        None
    } else {
        match first_match(ms, pos, contexts[0], ids, true) {
            Some(r) => Some(r),
            None => first_context_match(contexts.drop_first(), ms, pos, ids),
        }
    }
}

/// The positional arguments are exactly `app`.
pub open spec fn is_just_app(pos: Seq<Seq<char>>) -> bool {
    pos.len() == 1 && pos[0] == "app"@
}

/// Recognises a partially typed command from a parse error: a missing required argument
/// is matched against the known command shapes, using the invalid-argument lists of the
/// error in order; a missing `app` subcommand asks for the `app` help.
pub fn partial_match_for_error(
    kind: ParseErrorKind,
    invalid_arg_contexts: &Vec<Vec<String>>,
    positional_args: &Vec<String>,
    matchers: &Vec<InvalidArgMatcher>,
    positional_arg_ids: &Vec<Vec<String>>,
) -> (res: Option<GolemCliCommandPartialMatch>)
    requires
        positional_arg_ids.len() == matchers.len(),
        matchers_well_formed(matchers@),
    ensures
        match kind {
            ParseErrorKind::MissingRequiredArgument => match first_context_match(
                ids_view(invalid_arg_contexts@),
                matchers_view(matchers@),
                strings_view(positional_args@),
                ids_view(positional_arg_ids@),
            ) {
                Some((k, found)) => res is Some && is_partial_match(res->0, k, found),
                None => res is None,
            },
            ParseErrorKind::MissingSubcommand
            | ParseErrorKind::DisplayHelpOnMissingArgumentOrSubcommand => if is_just_app(
                strings_view(positional_args@),
            ) {
                res matches Some(GolemCliCommandPartialMatch::AppMissingSubcommandHelp)
            } else {
                res is None
            },
            ParseErrorKind::Other => res is None,
        },
{
    match kind {
        ParseErrorKind::MissingRequiredArgument => {
            let ghost cv = ids_view(invalid_arg_contexts@);
            let mut i: usize = 0;
            assert(cv.skip(0) =~= cv);
            while i < invalid_arg_contexts.len()
                invariant
                    i <= invalid_arg_contexts.len(),
                    kind == ParseErrorKind::MissingRequiredArgument,
                    positional_arg_ids.len() == matchers.len(),
                    matchers_well_formed(matchers@),
                    cv == ids_view(invalid_arg_contexts@),
                    first_context_match(
                        cv,
                        matchers_view(matchers@),
                        strings_view(positional_args@),
                        ids_view(positional_arg_ids@),
                    ) == first_context_match(
                        cv.skip(i as int),
                        matchers_view(matchers@),
                        strings_view(positional_args@),
                        ids_view(positional_arg_ids@),
                    ),
                decreases invalid_arg_contexts.len() - i,
            {
                assert(cv.skip(i as int)[0] == strings_view(invalid_arg_contexts@[i as int]@));
                assert(cv.skip(i as int).drop_first() =~= cv.skip(i + 1));
                let r = match_invalid_arg(
                    positional_args,
                    &invalid_arg_contexts[i],
                    matchers,
                    positional_arg_ids,
                );
                if r.is_some() {
                    return r;
                }
                i = i + 1;
            }
            assert(cv.skip(i as int) =~= Seq::<Seq<Seq<char>>>::empty());
            None
        },
        ParseErrorKind::MissingSubcommand
        | ParseErrorKind::DisplayHelpOnMissingArgumentOrSubcommand => {
            let app = chars_of("app");
            if positional_args.len() == 1 && chars_equal(
                &chars_of(positional_args[0].as_str()),
                &app,
            ) {
                Some(GolemCliCommandPartialMatch::AppMissingSubcommandHelp)
            } else {
                None
            }
        },
        ParseErrorKind::Other => None,
    }
}

} // verus!
