//! Resolving a user-given worker name, `[ACCOUNT]/[PROJECT]/<COMPONENT>/<WORKER>`,
//! into its parts and the component it refers to.

use crate::cloud::AccountId;
use crate::error::{decimal, u64_to_text, NonSuccessfulExit};
use crate::log::{
    log_action, log_warn_action, logged, paint_bold, paint_bold_blue, paint_bold_green,
    paint_error_highlight, paint_green, paint_red_bold, painted, LogState,
};
use crate::model::{update_mode_name, WorkerUpdateMode};
use crate::fuzzy::{
    distinct_options, find_result_spec, highlighting_of, is_ambiguous, lemma_find_outcomes,
    ranked_matches, selected_option, FuzzyMatchResult, FuzzySearch,
};
use crate::text::{chars_equal, chars_of, join, joined, string_of, strings_view};
use vstd::prelude::*;

verus! {

/// The `/`-separated segments of `s` (as std `str::split('/')` gives them:
/// the empty string has one empty segment).
pub open spec fn split_on_slash(s: Seq<char>) -> Seq<Seq<char>>
    decreases s.len(),
{
    if s.len() == 0 {
        seq![Seq::<char>::empty()]
    } else {
        let r = split_on_slash(s.drop_last());
        if s.last() == '/' {
            r.push(Seq::empty())
        } else {
            r.update(r.len() - 1, r.last().push(s.last()))
        }
    }
}

proof fn lemma_split_nonempty(s: Seq<char>)
    ensures
        split_on_slash(s).len() >= 1,
    decreases s.len(),
{
    if s.len() > 0 {
        lemma_split_nonempty(s.drop_last());
    }
}

/// Splits `s` at every `/`.
pub fn split_slash(s: &str) -> (res: Vec<Vec<char>>)
    ensures
        res@.map_values(|e: Vec<char>| e@) == split_on_slash(s@),
        res.len() >= 1,
{
    let cs = chars_of(s);
    let mut res: Vec<Vec<char>> = Vec::new();
    res.push(Vec::new());
    let mut i: usize = 0;
    assert(cs@.take(0) =~= Seq::<char>::empty());
    assert(res@.map_values(|e: Vec<char>| e@) =~= seq![Seq::<char>::empty()]);
    while i < cs.len()
        invariant
            i <= cs.len(),
            res.len() >= 1,
            res@.map_values(|e: Vec<char>| e@) == split_on_slash(cs@.take(i as int)),
        decreases cs.len() - i,
    {
        let c = cs[i];
        let ghost before = res@.map_values(|e: Vec<char>| e@);
        assert(cs@.take(i + 1).drop_last() =~= cs@.take(i as int));
        assert(cs@.take(i + 1).last() == c);
        if c == '/' {
            res.push(Vec::new());
            assert(res@.map_values(|e: Vec<char>| e@) =~= before.push(Seq::empty()));
        } else {
            let last = res.len() - 1;
            let mut seg = res.remove(last);
            seg.push(c);
            res.push(seg);
            assert(res@.map_values(|e: Vec<char>| e@) =~= before.update(
                before.len() - 1,
                before.last().push(c),
            ));
        }
        i = i + 1;
    }
    assert(cs@.take(cs.len() as int) =~= cs@);
    res
}

/// Joining the segments of a text with `/` gives the text back.
pub proof fn lemma_split_on_slash_joined(s: Seq<char>)
    ensures
        joined(split_on_slash(s), "/"@) == s,
    decreases s.len(),
{
    reveal_strlit("/");
    if s.len() == 0 {
        assert(split_on_slash(s) =~= seq![Seq::<char>::empty()]);
    } else {
        let t = s.drop_last();
        let r = split_on_slash(t);
        lemma_split_on_slash_joined(t);
        lemma_split_nonempty(t);
        if s.last() == '/' {
            let p = r.push(Seq::<char>::empty());
            assert(p.drop_last() =~= r);
            assert(joined(p, "/"@) == joined(r, "/"@) + "/"@ + Seq::<char>::empty());
            assert(t + "/"@ =~= s);
        } else {
            let u = r.update(r.len() - 1, r.last().push(s.last()));
            if r.len() == 1 {
                assert(joined(u, "/"@) == u[0]);
                assert(joined(r, "/"@) == r[0]);
                assert(r[0].push(s.last()) =~= s);
            } else {
                assert(u.drop_last() =~= r.drop_last());
                assert(joined(u, "/"@) == joined(r.drop_last(), "/"@) + "/"@ + u.last());
                assert(joined(r, "/"@) == joined(r.drop_last(), "/"@) + "/"@ + r.last());
                assert(joined(u, "/"@) =~= joined(r, "/"@).push(s.last()));
                assert(t.push(s.last()) =~= s);
            }
        }
    }
}

/// A part of a qualified worker name.
#[derive(PartialEq, Eq, Structural, Clone, Copy, Debug)]
pub enum WorkerNamePart {
    Account,
    Project,
    Component,
    Worker,
}

/// The parts of a worker name.
pub enum WorkerNameSegments {
    /// `<WORKER>`: the component is to be taken from the current directory.
    WorkerOnly { worker_name: String },
    /// `[ACCOUNT]/[PROJECT]/<COMPONENT>/<WORKER>`.
    Qualified {
        account_id: Option<AccountId>,
        project_name: Option<String>,
        component_name: String,
        worker_name: String,
    },
}

/// Why a worker name was refused.
#[derive(PartialEq, Eq, Structural, Clone, Copy, Debug)]
pub enum WorkerNameError {
    /// A segment is empty; the part it is reported as.
    MissingPart { part: WorkerNamePart },
    /// More than four segments.
    Unparsable,
}

/// The first empty segment of a qualified name and the part it is reported as: the
/// worker segment counts as the component in two- and three-segment names.
pub open spec fn first_missing_part(segs: Seq<Seq<char>>) -> Option<WorkerNamePart> {
    if segs.len() == 2 {
        if segs[0].len() == 0 {
            Some(WorkerNamePart::Component)
        } else if segs[1].len() == 0 {
            Some(WorkerNamePart::Component)
        } else {
            None
        }
    } else if segs.len() == 3 {
        if segs[0].len() == 0 {
            Some(WorkerNamePart::Project)
        } else if segs[1].len() == 0 {
            Some(WorkerNamePart::Component)
        } else if segs[2].len() == 0 {
            Some(WorkerNamePart::Component)
        } else {
            None
        }
    } else {
        if segs[0].len() == 0 {
            Some(WorkerNamePart::Account)
        } else if segs[1].len() == 0 {
            Some(WorkerNamePart::Project)
        } else if segs[2].len() == 0 {
            Some(WorkerNamePart::Component)
        } else if segs[3].len() == 0 {
            Some(WorkerNamePart::Worker)
        } else {
            None
        }
    }
}

/// What `parse_worker_name` gives for the name `name`.
pub open spec fn parse_worker_name_spec(
    name: Seq<char>,
    res: Result<WorkerNameSegments, WorkerNameError>,
) -> bool {
    let segs = split_on_slash(name);
    if segs.len() == 1 {
        res matches Ok(WorkerNameSegments::WorkerOnly { worker_name }) && worker_name@ == name
    } else if segs.len() > 4 {
        res == Err::<WorkerNameSegments, WorkerNameError>(WorkerNameError::Unparsable)
    } else if first_missing_part(segs) is Some {
        res == Err::<WorkerNameSegments, WorkerNameError>(
            WorkerNameError::MissingPart { part: first_missing_part(segs)->0 },
        )
    } else {
        let n = segs.len();
        &&& res is Ok
        &&& res->Ok_0 is Qualified
        &&& res->Ok_0->Qualified_component_name@ == segs[n - 2]
        &&& res->Ok_0->Qualified_worker_name@ == segs[n - 1]
        &&& match res->Ok_0->Qualified_project_name {
            Some(p) => n >= 3 && p@ == segs[n - 3],
            None => n == 2,
        }
        &&& match res->Ok_0->Qualified_account_id {
            Some(a) => n == 4 && a.0@ == segs[0],
            None => n <= 3,
        }
    }
}

/// Splits a worker name into its account, project, component and worker parts and
/// checks that none of the given parts is empty.
pub fn parse_worker_name(name: &str) -> (res: Result<WorkerNameSegments, WorkerNameError>)
    ensures
        parse_worker_name_spec(name@, res),
{
    let segs = split_slash(name);
    let ghost sv = segs@.map_values(|e: Vec<char>| e@);
    let n = segs.len();
    assert(n == sv.len());
    if n == 1 {
        assert(sv[0] == split_on_slash(name@)[0]);
        proof {
            lemma_single_segment_is_whole(name@);
        }
        return Ok(WorkerNameSegments::WorkerOnly { worker_name: string_of(&segs[0]) });
    }
    if n > 4 {
        return Err(WorkerNameError::Unparsable);
    }
    assert(forall|k: int| 0 <= k < n ==> #[trigger] sv[k] == segs@[k]@);
    if n == 2 {
        if segs[0].len() == 0 || segs[1].len() == 0 {
            return Err(WorkerNameError::MissingPart { part: WorkerNamePart::Component });
        }
        return Ok(
            WorkerNameSegments::Qualified {
                account_id: None,
                project_name: None,
                component_name: string_of(&segs[0]),
                worker_name: string_of(&segs[1]),
            },
        );
    }
    if n == 3 {
        if segs[0].len() == 0 {
            return Err(WorkerNameError::MissingPart { part: WorkerNamePart::Project });
        }
        if segs[1].len() == 0 || segs[2].len() == 0 {
            return Err(WorkerNameError::MissingPart { part: WorkerNamePart::Component });
        }
        return Ok(
            WorkerNameSegments::Qualified {
                account_id: None,
                project_name: Some(string_of(&segs[0])),
                component_name: string_of(&segs[1]),
                worker_name: string_of(&segs[2]),
            },
        );
    }
    if segs[0].len() == 0 {
        return Err(WorkerNameError::MissingPart { part: WorkerNamePart::Account });
    }
    if segs[1].len() == 0 {
        return Err(WorkerNameError::MissingPart { part: WorkerNamePart::Project });
    }
    if segs[2].len() == 0 {
        return Err(WorkerNameError::MissingPart { part: WorkerNamePart::Component });
    }
    if segs[3].len() == 0 {
        return Err(WorkerNameError::MissingPart { part: WorkerNamePart::Worker });
    }
    Ok(
        WorkerNameSegments::Qualified {
            account_id: Some(AccountId(string_of(&segs[0]))),
            project_name: Some(string_of(&segs[1])),
            component_name: string_of(&segs[2]),
            worker_name: string_of(&segs[3]),
        },
    )
}

/// The parts of a worker name joined with `/`.
pub open spec fn worker_name_text(segments: WorkerNameSegments) -> Seq<char> {
    match segments {
        WorkerNameSegments::WorkerOnly { worker_name } => worker_name@,
        WorkerNameSegments::Qualified { account_id, project_name, component_name, worker_name } => {
            (match account_id {
                Some(a) => a.0@ + "/"@,
                None => Seq::empty(),
            }) + (match project_name {
                Some(p) => p@ + "/"@,
                None => Seq::empty(),
            }) + component_name@ + "/"@ + worker_name@
        },
    }
}

/// An accepted worker name is made of its parts: joining them with `/` gives the name
/// back.
pub proof fn lemma_parsed_worker_name_joins_back(name: Seq<char>, segments: WorkerNameSegments)
    requires
        parse_worker_name_spec(name, Ok(segments)),
    ensures
        worker_name_text(segments) == name,
{
    let segs = split_on_slash(name);
    lemma_split_on_slash_joined(name);
    let sl = "/"@;
    if segs.len() >= 2 && segs.len() <= 4 {
        let j1 = joined(segs.take(1), sl);
        let j2 = joined(segs.take(2), sl);
        let j3 = joined(segs.take(3), sl);
        assert(segs.take(2).drop_last() =~= segs.take(1));
        assert(j1 == segs[0]);
        assert(j2 == segs[0] + sl + segs[1]);
        if segs.len() == 2 {
            assert(segs.take(2) =~= segs);
        } else {
            assert(segs.take(3).drop_last() =~= segs.take(2));
            assert(j3 == segs[0] + sl + segs[1] + sl + segs[2]);
            if segs.len() == 3 {
                assert(segs.take(3) =~= segs);
            } else {
                assert(segs.drop_last() =~= segs.take(3));
            }
        }
        match segments {
            WorkerNameSegments::Qualified { account_id, project_name, component_name, worker_name } => {
                match account_id {
                    Some(a) => {
                        assert(worker_name_text(segments) =~= segs[0] + sl + segs[1] + sl + segs[2]
                            + sl + segs[3]);
                    },
                    None => match project_name {
                        Some(p) => {
                            assert(worker_name_text(segments) =~= segs[0] + sl + segs[1] + sl
                                + segs[2]);
                        },
                        None => {
                            assert(worker_name_text(segments) =~= segs[0] + sl + segs[1]);
                        },
                    },
                }
            },
            WorkerNameSegments::WorkerOnly { .. } => {},
        }
    }
}

/// A name without `/` is its own only segment.
pub proof fn lemma_single_segment_is_whole(s: Seq<char>)
    requires
        split_on_slash(s).len() == 1,
    ensures
        split_on_slash(s)[0] == s,
    decreases s.len(),
{
    if s.len() > 0 {
        let r = split_on_slash(s.drop_last());
        lemma_split_nonempty(s.drop_last());
        if s.last() == '/' {
            assert(split_on_slash(s).len() == r.len() + 1);
        } else {
            lemma_single_segment_is_whole(s.drop_last());
            assert(s.drop_last().push(s.last()) =~= s);
        }
    }
}

/// How the component of a worker name was identified.
#[derive(PartialEq, Eq, Structural, Clone, Copy, Debug)]
pub enum ComponentNameMatchKind {
    /// The only component selected by the current directory.
    AppCurrentDir,
    /// A component of the application, found by (fuzzy) name.
    App,
    /// Not a component of the application: taken as given.
    Unknown,
}

/// A worker name resolved against the application.
pub struct WorkerNameMatch {
    pub account_id: Option<AccountId>,
    pub project_name: Option<String>,
    pub component_name_match_kind: ComponentNameMatchKind,
    pub component_name: String,
    /// `None` where the worker part is `-`.
    pub worker_name: Option<String>,
}

/// Why a worker name could not be resolved.
pub enum WorkerNameMatchError {
    /// The worker name is malformed.
    InvalidName(WorkerNameError),
    /// A bare worker name was given outside of an application.
    NoApplication,
    /// The current directory selects no or several components (the selected ones).
    NotExactlyOneComponentSelected { selected: Vec<String> },
    /// The component part matches several application components (highlighted, best first).
    AmbiguousComponentName { highlighted_options: Vec<String> },
}

/// The worker part `-` stands for no worker name.
pub open spec fn opt_worker_name(w: Seq<char>) -> Option<Seq<char>> {
    if w == seq!['-'] {
        None
    } else {
        Some(w)
    }
}

pub open spec fn opt_string_view(o: Option<String>) -> Option<Seq<char>> {
    match o {
        Some(s) => Some(s@),
        None => None,
    }
}

fn to_opt_worker_name(w: &str) -> (res: Option<String>)
    ensures
        opt_string_view(res) == opt_worker_name(w@),
{
    let cs = chars_of(w);
    let mut dash: Vec<char> = Vec::new();
    dash.push('-');
    assert(dash@ =~= seq!['-']);
    if chars_equal(&cs, &dash) {
        None
    } else {
        Some(string_of(&cs))
    }
}

/// The views of a list of names.
pub open spec fn names_view(names: Seq<String>) -> Seq<Seq<char>> {
    names.map_values(|n: String| n@)
}

/// Resolves a bare worker name against the components that the current directory
/// selects (`None` outside of an application).
pub fn match_worker_in_current_dir(
    worker_name: &str,
    selected_components: Option<&Vec<String>>,
) -> (res: Result<WorkerNameMatch, WorkerNameMatchError>)
    ensures
        match selected_components {
            None => res matches Err(WorkerNameMatchError::NoApplication),
            Some(selected) => if selected.len() != 1 {
                res matches Err(WorkerNameMatchError::NotExactlyOneComponentSelected { selected: s })
                    && names_view(s@) == names_view(selected@)
            } else {
                res matches Ok(m) && m.account_id is None && m.project_name is None
                    && m.component_name_match_kind == ComponentNameMatchKind::AppCurrentDir
                    && m.component_name@ == selected@[0]@ && opt_string_view(m.worker_name)
                    == opt_worker_name(worker_name@)
            },
        },
{
    match selected_components {
        None => Err(WorkerNameMatchError::NoApplication),
        Some(selected) => {
            if selected.len() != 1 {
                let mut copy: Vec<String> = Vec::new();
                let mut i: usize = 0;
                while i < selected.len()
                    invariant
                        i <= selected.len(),
                        names_view(copy@) == names_view(selected@.take(i as int)),
                    decreases selected.len() - i,
                {
                    let ghost before = copy@;
                    let c = selected[i].clone();
                    copy.push(c);
                    assert(names_view(selected@.take(i + 1)) =~= names_view(
                        selected@.take(i as int),
                    ).push(selected@[i as int]@));
                    assert(names_view(copy@) =~= names_view(before).push(c@));
                    i = i + 1;
                }
                assert(selected@.take(selected.len() as int) =~= selected@);
                Err(WorkerNameMatchError::NotExactlyOneComponentSelected { selected: copy })
            } else {
                Ok(
                    WorkerNameMatch {
                        account_id: None,
                        project_name: None,
                        component_name_match_kind: ComponentNameMatchKind::AppCurrentDir,
                        component_name: selected[0].clone(),
                        worker_name: to_opt_worker_name(worker_name),
                    },
                )
            }
        },
    }
}

/// Searches `names` for `pattern`.
pub fn find_in_names(names: &Vec<String>, pattern: &str) -> (res: FuzzyMatchResult)
    ensures
        find_result_spec(distinct_options(names_view(names@)), pattern@, res),
{
    let mut refs: Vec<&str> = Vec::new();
    let mut i: usize = 0;
    while i < names.len()
        invariant
            i <= names.len(),
            refs@.map_values(|o: &str| o@) == names_view(names@.take(i as int)),
        decreases names.len() - i,
    {
        let ghost before = refs@;
        let r = names[i].as_str();
        refs.push(r);
        assert(names_view(names@.take(i + 1)) =~= names_view(names@.take(i as int)).push(
            names@[i as int]@,
        ));
        assert(refs@.map_values(|o: &str| o@) =~= before.map_values(|o: &str| o@).push(r@));
        i = i + 1;
    }
    assert(names@.take(names.len() as int) =~= names@);
    let search = FuzzySearch::new(refs.as_slice());
    search.find(pattern)
}

/// What `match_qualified_worker` answers for the component name `component` when the
/// application has the components `names` (`None` outside of an application).
pub open spec fn qualified_component_match(
    names: Option<Seq<Seq<char>>>,
    component: Seq<char>,
) -> Option<(ComponentNameMatchKind, Seq<char>)> {
    match names {
        None => Some((ComponentNameMatchKind::Unknown, component)),
        Some(ns) => {
            let d = distinct_options(ns);
            if is_ambiguous(d, component) {
                None
            } else {
                match selected_option(d, component) {
                    Some(o) => Some((ComponentNameMatchKind::App, o)),
                    None => Some((ComponentNameMatchKind::Unknown, component)),
                }
            }
        },
    }
}

pub open spec fn opt_names_view(names: Option<&Vec<String>>) -> Option<Seq<Seq<char>>> {
    match names {
        Some(ns) => Some(names_view(ns@)),
        None => None,
    }
}

/// Resolves `[ACCOUNT]/[PROJECT]/<COMPONENT>/<WORKER>` against the application's
/// component names (`None` outside of an application): an application component is
/// looked up by fuzzy name, anything else is taken as given.
pub fn match_qualified_worker(
    account_id: Option<AccountId>,
    project_name: Option<String>,
    component_name: String,
    worker_name: String,
    app_component_names: Option<&Vec<String>>,
) -> (res: Result<WorkerNameMatch, WorkerNameMatchError>)
    ensures
        match qualified_component_match(opt_names_view(app_component_names), component_name@) {
            Some((kind, component)) => res matches Ok(m) && m.account_id == account_id
                && m.project_name == project_name && m.component_name_match_kind == kind
                && m.component_name@ == component && opt_string_view(m.worker_name)
                == opt_worker_name(worker_name@),
            None => res matches Err(
                WorkerNameMatchError::AmbiguousComponentName { highlighted_options },
            ) && highlighted_options.len() == ranked_matches(
                distinct_options(names_view(app_component_names->0@)),
                component_name@,
            ).len() && forall|k: int|
                0 <= k < highlighted_options.len() ==> highlighting_of(
                    #[trigger] highlighted_options@[k]@,
                    ranked_matches(
                        distinct_options(names_view(app_component_names->0@)),
                        component_name@,
                    )[k].2,
                    ranked_matches(
                        distinct_options(names_view(app_component_names->0@)),
                        component_name@,
                    )[k].1,
                ),
        },
{
    let opt_worker = to_opt_worker_name(worker_name.as_str());
    match app_component_names {
        None => Ok(
            WorkerNameMatch {
                account_id,
                project_name,
                component_name_match_kind: ComponentNameMatchKind::Unknown,
                component_name,
                worker_name: opt_worker,
            },
        ),
        Some(names) => {
            let found = find_in_names(names, component_name.as_str());
            proof {
                lemma_find_outcomes(
                    distinct_options(names_view(names@)),
                    component_name@,
                    found,
                );
            }
            match found {
                FuzzyMatchResult::Found { option, .. } => Ok(
                    WorkerNameMatch {
                        account_id,
                        project_name,
                        component_name_match_kind: ComponentNameMatchKind::App,
                        component_name: option,
                        worker_name: opt_worker,
                    },
                ),
                FuzzyMatchResult::Ambiguous { highlighted_options } => Err(
                    WorkerNameMatchError::AmbiguousComponentName { highlighted_options },
                ),
                FuzzyMatchResult::NotFound => Ok(
                    WorkerNameMatch {
                        account_id,
                        project_name,
                        component_name_match_kind: ComponentNameMatchKind::Unknown,
                        component_name,
                        worker_name: opt_worker,
                    },
                ),
            }
        },
    }
}

/// What the 1.2 command line gives for the worker name `name`.
pub open spec fn parse_worker_name_v1_2_spec(
    name: Seq<char>,
    res: Result<WorkerNameSegments, WorkerNameError>,
) -> bool {
    let segs = split_on_slash(name);
    if segs.len() == 1 {
        res matches Ok(WorkerNameSegments::WorkerOnly { worker_name }) && worker_name@ == name
    } else if segs.len() == 2 {
        if segs[1].len() == 0 {
            res == Err::<WorkerNameSegments, WorkerNameError>(
                WorkerNameError::MissingPart { part: WorkerNamePart::Component },
            )
        } else {
            &&& res is Ok
            &&& res->Ok_0 is Qualified
            &&& res->Ok_0->Qualified_account_id is None
            &&& res->Ok_0->Qualified_project_name is None
            &&& res->Ok_0->Qualified_component_name@ == segs[0]
            &&& res->Ok_0->Qualified_worker_name@ == segs[1]
        }
    } else {
        res == Err::<WorkerNameSegments, WorkerNameError>(WorkerNameError::Unparsable)
    }
}

/// Splits a worker name for the 1.2 command line: `<WORKER>` or `<COMPONENT>/<WORKER>`; an
/// empty worker part is reported as a missing component part, and an empty component part
/// is accepted. Names with a project or account part are not supported by that command
/// line (it stops on them), so they are left out.
pub fn parse_worker_name_v1_2(name: &str) -> (res: Result<WorkerNameSegments, WorkerNameError>)
    requires
        split_on_slash(name@).len() != 3,
        split_on_slash(name@).len() != 4,
    ensures
        parse_worker_name_v1_2_spec(name@, res),
{
    let segs = split_slash(name);
    let ghost sv = segs@.map_values(|e: Vec<char>| e@);
    let n = segs.len();
    if n == 1 {
        proof {
            lemma_single_segment_is_whole(name@);
        }
        assert(sv[0] == segs@[0]@);
        return Ok(WorkerNameSegments::WorkerOnly { worker_name: string_of(&segs[0]) });
    }
    if n == 2 {
        assert(sv[0] == segs@[0]@);
        assert(sv[1] == segs@[1]@);
        if segs[1].len() == 0 {
            return Err(WorkerNameError::MissingPart { part: WorkerNamePart::Component });
        }
        return Ok(
            WorkerNameSegments::Qualified {
                account_id: None,
                project_name: None,
                component_name: string_of(&segs[0]),
                worker_name: string_of(&segs[1]),
            },
        );
    }
    Err(WorkerNameError::Unparsable)
}

/// How an invocation is sent: enqueued or awaited, to a named worker or to a new one.
#[derive(PartialEq, Eq, Structural, Clone, Copy, Debug)]
pub enum InvocationCall {
    EnqueueNamed,
    AwaitNamed,
    EnqueueUnnamed,
    AwaitUnnamed,
}

/// The call for an invocation of a named worker (or not) that is enqueued (or awaited).
pub open spec fn invocation_call(named: bool, enqueue: bool) -> InvocationCall {
    if named {
        if enqueue { InvocationCall::EnqueueNamed } else { InvocationCall::AwaitNamed }
    } else {
        if enqueue { InvocationCall::EnqueueUnnamed } else { InvocationCall::AwaitUnnamed }
    }
}

/// What an invocation does once the worker name is resolved.
pub struct InvocationPlan {
    pub idempotency_key: String,
    /// Whether the key was generated rather than requested.
    pub idempotency_key_generated: bool,
    /// The exported function that is invoked.
    pub function_name: String,
    pub call: InvocationCall,
    /// Whether the worker's output is streamed while the invocation runs.
    pub connect_stream: bool,
}

/// Why an invocation was not sent.
pub enum InvocationError {
    /// The function name matches several exported functions (highlighted, best first).
    AmbiguousFunctionName { highlighted_options: Vec<String> },
    /// The function name matches no exported function.
    FunctionNotFound,
}

/// A lowercase hexadecimal digit.
pub open spec fn is_lower_hex(c: char) -> bool {
    ('0' <= c && c <= '9') || ('a' <= c && c <= 'f')
}

/// `s` is a UUID as text: 36 characters, lowercase hexadecimal digits in groups of 8, 4,
/// 4, 4 and 12, separated by `-`.
pub open spec fn is_uuid_text(s: Seq<char>) -> bool {
    &&& s.len() == 36
    &&& forall|i: int|
        0 <= i < 36 ==> if i == 8 || i == 13 || i == 18 || i == 23 {
            #[trigger] s[i] == '-'
        } else {
            is_lower_hex(s[i])
        }
}

/// Calls `uuid::Uuid::new_v4()` and renders the UUID with `to_string()`. The UUID is
/// random, so only its shape is stated, as the crate's hyphenated lower-case format gives
/// it. (The crate panics where the operating system gives no random bytes.)
#[verifier::external_body]
fn new_uuid_text() -> (res: String)
    ensures
        is_uuid_text(res@),
{
    uuid::Uuid::new_v4().to_string()
}

/// Whether an idempotency key is generated for the requested one: for `-` or none.
pub open spec fn requests_generated_key(requested: Option<Seq<char>>) -> bool {
    match requested {
        Some(k) => k == seq!['-'],
        None => true,
    }
}

/// The idempotency key of an invocation and whether it was generated: the requested key,
/// or a new random UUID for `-` or none.
pub fn resolve_idempotency_key(requested: Option<String>) -> (res: (String, bool))
    ensures
        res.1 == requests_generated_key(opt_string_view(requested)),
        !res.1 ==> opt_string_view(requested) == Some(res.0@),
        res.1 ==> is_uuid_text(res.0@),
{
    match requested {
        Some(k) => {
            let kc = chars_of(k.as_str());
            let mut dash: Vec<char> = Vec::new();
            dash.push('-');
            assert(dash@ =~= seq!['-']);
            if chars_equal(&kc, &dash) {
                (new_uuid_text(), true)
            } else {
                (k, false)
            }
        },
        None => (new_uuid_text(), true),
    }
}

/// Why a new worker is not created.
#[derive(Debug, Clone, Copy, PartialEq, Eq, Structural)]
pub enum NewWorkerError {
    /// Workers of an ephemeral component take no name; `-` is to be used instead.
    ExplicitNameForEphemeralWorker,
}

/// The name of a worker to create: the given name, or a new random UUID for `-`; an
/// ephemeral component's worker cannot be named.
pub fn new_worker_name(worker: &WorkerNameMatch, ephemeral_component: bool) -> (res: Result<
    String,
    NewWorkerError,
>)
    ensures
        match worker.worker_name {
            Some(n) => if ephemeral_component {
                res == Err::<String, NewWorkerError>(NewWorkerError::ExplicitNameForEphemeralWorker)
            } else {
                res matches Ok(m) && m@ == n@
            },
            None => res matches Ok(m) && is_uuid_text(m@),
        },
{
    match &worker.worker_name {
        Some(n) => {
            if ephemeral_component {
                Err(NewWorkerError::ExplicitNameForEphemeralWorker)
            } else {
                Ok(n.clone())
            }
        },
        None => Ok(new_uuid_text()),
    }
}

/// Decides an invocation of `function_name` on the resolved worker: the idempotency key
/// (the requested one, or a new random UUID for `-` or none), the exported function that
/// the name selects, how the call is sent, and whether the worker's output is streamed
/// (only for a named worker).
pub fn plan_invocation(
    worker: &WorkerNameMatch,
    exported_functions: &Vec<String>,
    function_name: &str,
    enqueue: bool,
    idempotency_key: Option<String>,
    stream: bool,
) -> (res: Result<InvocationPlan, InvocationError>)
    ensures
        ({
            let d = distinct_options(names_view(exported_functions@));
            match res {
                Ok(plan) => {
                    &&& selected_option(d, function_name@) == Some(plan.function_name@)
                    &&& plan.idempotency_key_generated == requests_generated_key(
                        opt_string_view(idempotency_key),
                    )
                    &&& !plan.idempotency_key_generated ==> opt_string_view(idempotency_key)
                        == Some(plan.idempotency_key@)
                    &&& plan.idempotency_key_generated ==> is_uuid_text(plan.idempotency_key@)
                    &&& plan.call == invocation_call(worker.worker_name is Some, enqueue)
                    &&& plan.connect_stream == (stream && worker.worker_name is Some)
                },
                Err(InvocationError::AmbiguousFunctionName { highlighted_options }) => {
                    &&& is_ambiguous(d, function_name@)
                    &&& highlighted_options.len() == ranked_matches(d, function_name@).len()
                    &&& forall|k: int|
                        0 <= k < highlighted_options.len() ==> highlighting_of(
                            #[trigger] highlighted_options@[k]@,
                            ranked_matches(d, function_name@)[k].2,
                            ranked_matches(d, function_name@)[k].1,
                        )
                },
                Err(InvocationError::FunctionNotFound) => {
                    &&& selected_option(d, function_name@) is None
                    &&& !is_ambiguous(d, function_name@)
                },
            }
        }),
{
    let (key, generated) = resolve_idempotency_key(idempotency_key);
    let found = find_in_names(exported_functions, function_name);
    proof {
        lemma_find_outcomes(distinct_options(names_view(exported_functions@)), function_name@, found);
    }
    match found {
        FuzzyMatchResult::Found { option, .. } => {
            let named = worker.worker_name.is_some();
            let call = if named {
                if enqueue {
                    InvocationCall::EnqueueNamed
                } else {
                    InvocationCall::AwaitNamed
                }
            } else {
                if enqueue {
                    InvocationCall::EnqueueUnnamed
                } else {
                    InvocationCall::AwaitUnnamed
                }
            };
            Ok(
                InvocationPlan {
                    idempotency_key: key,
                    idempotency_key_generated: generated,
                    function_name: option,
                    call,
                    connect_stream: stream && named,
                },
            )
        },
        FuzzyMatchResult::Ambiguous { highlighted_options } => Err(
            InvocationError::AmbiguousFunctionName { highlighted_options },
        ),
        FuzzyMatchResult::NotFound => Err(InvocationError::FunctionNotFound),
    }
}

/// Where a worker is reverted to.
#[derive(PartialEq, Eq, Structural, Clone, Copy, Debug)]
pub enum RevertTarget {
    /// Back to the given oplog index.
    ToOplogIndex(u64),
    /// Undoing the given number of last invocations.
    LastInvocations(u64),
}

/// The revert target: the oplog index where one is given, else the number of invocations;
/// with neither the revert is refused.
pub fn revert_target(last_oplog_index: Option<u64>, number_of_invocations: Option<u64>) -> (res:
    Result<RevertTarget, NonSuccessfulExit>)
    ensures
        match (last_oplog_index, number_of_invocations) {
            (Some(i), _) => res == Ok::<RevertTarget, NonSuccessfulExit>(
                RevertTarget::ToOplogIndex(i),
            ),
            (None, Some(n)) => res == Ok::<RevertTarget, NonSuccessfulExit>(
                RevertTarget::LastInvocations(n),
            ),
            (None, None) => res is Err,
        },
{
    match (last_oplog_index, number_of_invocations) {
        (Some(i), _) => Ok(RevertTarget::ToOplogIndex(i)),
        (None, Some(n)) => Ok(RevertTarget::LastInvocations(n)),
        (None, None) => Err(NonSuccessfulExit),
    }
}

/// A position in the listing of a component's workers.
#[derive(Debug, Clone, Copy, PartialEq, Eq, Structural)]
pub struct ScanCursor {
    pub layer: u64,
    pub cursor: u64,
}

/// The text of a scan cursor, `<layer>/<cursor>`.
pub open spec fn scan_cursor_text(c: ScanCursor) -> Seq<char> {
    decimal(c.layer as nat) + "/"@ + decimal(c.cursor as nat)
}

/// The text of a scan cursor, as the worker service takes it.
pub fn scan_cursor_to_string(cursor: &ScanCursor) -> (res: String)
    ensures
        res@ == scan_cursor_text(*cursor),
{
    let mut s = u64_to_text(cursor.layer);
    s.append("/");
    let c = u64_to_text(cursor.cursor);
    s.append(c.as_str());
    s
}

/// The number of workers asked for per page: the requested maximum, or else the batch
/// size.
pub fn listing_page_size(max_count: Option<u64>, batch_size: u64) -> (res: u64)
    ensures
        res == match max_count {
            Some(m) => m,
            None => batch_size,
        },
{
    match max_count {
        Some(m) => m,
        None => batch_size,
    }
}

/// What the listing of workers does after a page.
#[derive(Debug)]
pub enum ListingStep {
    /// Ask for the next page, from this cursor.
    Next { cursor: String },
    /// Stop; where a maximum was requested, the cursor to continue from later.
    Done { cursor: Option<ScanCursor> },
}

/// The step after a page that ended at `result_cursor`: without a requested maximum all
/// pages are read; with one, the listing stops after the first page and reports where it
/// stopped.
pub fn next_listing_step(max_count: Option<u64>, result_cursor: Option<ScanCursor>) -> (res:
    ListingStep)
    ensures
        match result_cursor {
            Some(c) => if max_count is None {
                res matches ListingStep::Next { cursor } && cursor@ == scan_cursor_text(c)
            } else {
                res matches ListingStep::Done { cursor } && cursor == Some(c)
            },
            None => res matches ListingStep::Done { cursor } && cursor is None,
        },
{
    match result_cursor {
        Some(c) => {
            if max_count.is_none() {
                ListingStep::Next { cursor: scan_cursor_to_string(&c) }
            } else {
                ListingStep::Done { cursor: Some(c) }
            }
        },
        None => ListingStep::Done { cursor: None },
    }
}

/// A cursor can only be used where exactly one component is selected.
pub fn cursor_usable(has_cursor: bool, selected_component_count: usize) -> (res: bool)
    ensures
        res == (!has_cursor || selected_component_count == 1),
{
    !has_cursor || selected_component_count == 1
}

/// The scheme of the connection to a worker: `ws` for an `http` service URL, else `wss`.
pub fn websocket_scheme(service_scheme: &str) -> (res: &'static str)
    ensures
        res@ == if service_scheme@ == "http"@ {
            "ws"@
        } else {
            "wss"@
        },
{
    let http = chars_of("http");
    if chars_equal(&chars_of(service_scheme), &http) {
        "ws"
    } else {
        "wss"
    }
}

/// The path segments appended to the worker service URL to connect to a worker.
pub fn worker_connect_path_segments(component_id: &str, worker_name: &str) -> (res: Vec<String>)
    ensures
        names_view(res@) == seq!["v1"@, "components"@, component_id@, "workers"@, worker_name@, "connect"@],
{
    let mut res: Vec<String> = Vec::new();
    res.push("v1".to_string());
    res.push("components".to_string());
    res.push(component_id.to_string());
    res.push("workers".to_string());
    res.push(worker_name.to_string());
    res.push("connect".to_string());
    proof {
        assert(names_view(res@) =~= seq![
            "v1"@,
            "components"@,
            component_id@,
            "workers"@,
            worker_name@,
            "connect"@,
        ]);
    }
    res
}

/// The `Authorization` header value for a token: `Bearer <token>`.
pub fn bearer_authorization(token: &str) -> (res: String)
    ensures
        res@ == "Bearer "@ + token@,
{
    let mut s = "Bearer ".to_string();
    s.append(token);
    s
}

/// How the component of a resolved worker name was chosen, as the check of a worker name
/// explains it.
pub open spec fn match_kind_description(kind: ComponentNameMatchKind) -> Seq<char> {
    match kind {
        ComponentNameMatchKind::AppCurrentDir => "component was selected based on current dir"@,
        ComponentNameMatchKind::App => "component was selected from current application"@,
        ComponentNameMatchKind::Unknown => ""@,
    }
}

fn match_kind_description_exec(kind: ComponentNameMatchKind) -> (res: &'static str)
    ensures
        res@ == match_kind_description(kind),
{
    match kind {
        ComponentNameMatchKind::AppCurrentDir => "component was selected based on current dir",
        ComponentNameMatchKind::App => "component was selected from current application",
        ComponentNameMatchKind::Unknown => "",
    }
}

/// The worker part of a resolved name as shown: the name, or `-` for none.
pub open spec fn shown_worker_name(worker_name: Option<String>) -> Seq<char> {
    match worker_name {
        Some(w) => w@,
        None => "-"@,
    }
}

/// `r` is the line that confirms a resolved worker name: `[ok] component name: <c> /
/// worker_name: <w>, <how the component was chosen>`, with `ok` in green and the names in
/// bold.
pub open spec fn worker_name_check_text(r: Seq<char>, m: WorkerNameMatch) -> bool {
    exists|ok: Seq<char>, c: Seq<char>, w: Seq<char>|
        #![trigger painted(ok, "ok"@, "32"@), painted(c, m.component_name@, "1"@), painted(w, shown_worker_name(m.worker_name), "1"@)]
        painted(ok, "ok"@, "32"@) && painted(c, m.component_name@, "1"@) && painted(
            w,
            shown_worker_name(m.worker_name),
            "1"@,
        ) && r == "["@ + ok + "] component name: "@ + c + " / worker_name: "@ + w + ", "@
            + match_kind_description(m.component_name_match_kind)
}

/// The line that confirms a resolved worker name, shown when a function name is missing.
pub fn worker_name_check_line(m: &WorkerNameMatch) -> (res: String)
    ensures
        worker_name_check_text(res@, *m),
{
    let ok = paint_green("ok");
    let c = paint_bold(m.component_name.as_str());
    let w = match &m.worker_name {
        Some(w) => paint_bold(w.as_str()),
        None => paint_bold("-"),
    };
    let mut r = "[".to_string();
    r.append(ok.as_str());
    r.append("] component name: ");
    r.append(c.as_str());
    r.append(" / worker_name: ");
    r.append(w.as_str());
    r.append(", ");
    r.append(match_kind_description_exec(m.component_name_match_kind));
    proof {
        assert(painted(w@, shown_worker_name(m.worker_name), "1"@));
    }
    r
}

/// `r` is an error line: `error:` in bold red, a space and the message.
pub open spec fn error_line(r: Seq<char>, message: Seq<char>) -> bool {
    exists|p: Seq<char>| #[trigger] painted(p, "error:"@, "1;31"@) && r == p + " "@ + message
}

fn error_line_exec(message: &str) -> (res: String)
    ensures
        error_line(res@, message@),
{
    let p = paint_red_bold("error:");
    let mut r = p.clone();
    r.append(" ");
    r.append(message);
    assert(painted(p@, "error:"@, "1;31"@));
    r
}

/// The name of a part of a worker name, as messages show it.
pub open spec fn part_name(part: WorkerNamePart) -> Seq<char> {
    match part {
        WorkerNamePart::Account => "account"@,
        WorkerNamePart::Project => "project"@,
        WorkerNamePart::Component => "component"@,
        WorkerNamePart::Worker => "worker"@,
    }
}

fn part_name_exec(part: WorkerNamePart) -> (res: &'static str)
    ensures
        res@ == part_name(part),
{
    match part {
        WorkerNamePart::Account => "account",
        WorkerNamePart::Project => "project",
        WorkerNamePart::Component => "component",
        WorkerNamePart::Worker => "worker",
    }
}

/// `names` renders `items` one for one in bold.
pub open spec fn all_bold(names: Seq<Seq<char>>, items: Seq<Seq<char>>) -> bool {
    names.len() == items.len() && forall|k: int|
        0 <= k < names.len() ==> painted(#[trigger] names[k], items[k], "1"@)
}

fn bold_all(items: &Vec<String>) -> (res: Vec<String>)
    ensures
        all_bold(strings_view(res@), names_view(items@)),
{
    let mut res: Vec<String> = Vec::new();
    let mut i: usize = 0;
    while i < items.len()
        invariant
            i <= items.len(),
            res.len() == i,
            forall|k: int| 0 <= k < i ==> painted(#[trigger] strings_view(res@)[k], items@[k]@, "1"@),
        decreases items.len() - i,
    {
        let b = paint_bold(items[i].as_str());
        let ghost before = res@;
        res.push(b);
        proof {
            assert forall|k: int| 0 <= k < i + 1 implies painted(
                #[trigger] strings_view(res@)[k],
                items@[k]@,
                "1"@,
            ) by {
                if k < i {
                    assert(strings_view(res@)[k] == strings_view(before)[k]);
                }
            }
        }
        i = i + 1;
    }
    res
}

/// `r` lists an option: ` - ` and the option in bold.
pub open spec fn option_line(r: Seq<char>, option: Seq<char>) -> bool {
    exists|o: Seq<char>| #[trigger] painted(o, option, "1"@) && r == " - "@ + o
}

/// `lines` are the lines logged for a worker name that could not be resolved, before the
/// help texts: `worker_name` is the name as given, `component_name` its component part.
pub open spec fn worker_name_error_text(
    lines: Seq<Seq<char>>,
    error: WorkerNameMatchError,
    worker_name: Seq<char>,
    component_name: Seq<char>,
) -> bool {
    match error {
        WorkerNameMatchError::InvalidName(WorkerNameError::MissingPart { part }) => {
            &&& lines.len() == 2
            &&& error_line(lines[0], "Missing "@ + part_name(part) + " part in worker name!"@)
            &&& lines[1] == Seq::<char>::empty()
        },
        WorkerNameMatchError::InvalidName(WorkerNameError::Unparsable) => {
            &&& lines.len() == 3
            &&& lines[0] == Seq::<char>::empty()
            &&& exists|n: Seq<char>|
                #[trigger] painted(n, worker_name, "1;4;31"@) && error_line(
                    lines[1],
                    "Failed to parse worker name: "@ + n,
                )
            &&& lines[2] == Seq::<char>::empty()
        },
        WorkerNameMatchError::NoApplication => {
            &&& lines.len() == 5
            &&& lines[0] == Seq::<char>::empty()
            &&& error_line(
                lines[1],
                "Cannot infer the component name for the worker as the current directory is not part of an application."@,
            )
            &&& lines[2] == Seq::<char>::empty()
            &&& lines[3]
                == "Switch to an application directory or specify the full component name as part of the worker name!"@
            &&& lines[4] == Seq::<char>::empty()
        },
        WorkerNameMatchError::NotExactlyOneComponentSelected { selected } => {
            &&& lines.len() == 5
            &&& lines[0] == Seq::<char>::empty()
            &&& exists|names: Seq<Seq<char>>|
                #[trigger] all_bold(names, names_view(selected@)) && error_line(
                    lines[1],
                    "Multiple components were selected based on the current directory: "@
                        + joined(names, ", "@),
                )
            &&& lines[2] == Seq::<char>::empty()
            &&& lines[3]
                == "Switch to a different directory with only one component or specify the full or partial component name as part of the worker name!"@
            &&& lines[4] == Seq::<char>::empty()
        },
        WorkerNameMatchError::AmbiguousComponentName { highlighted_options } => {
            let n = highlighted_options.len();
            &&& lines.len() == n + 6
            &&& lines[0] == Seq::<char>::empty()
            &&& exists|c: Seq<char>|
                #[trigger] painted(c, component_name, "1;4;31"@) && error_line(
                    lines[1],
                    "The requested application component name ("@ + c + ") is ambiguous."@,
                )
            &&& lines[2] == Seq::<char>::empty()
            &&& lines[3] == "Did you mean one of"@
            &&& forall|k: int|
                0 <= k < n ==> option_line(lines[4 + k], #[trigger] highlighted_options@[k]@)
            &&& lines[n + 4] == "?"@
            &&& lines[n + 5] == Seq::<char>::empty()
        },
    }
}

/// The lines logged for a worker name that could not be resolved (the help texts that
/// follow them are not included); `worker_name` is the name as given, `component_name` its
/// component part.
pub fn worker_name_error_lines(
    error: &WorkerNameMatchError,
    worker_name: &str,
    component_name: &str,
) -> (res: Vec<String>)
    ensures
        worker_name_error_text(strings_view(res@), *error, worker_name@, component_name@),
{
    let mut lines: Vec<String> = Vec::new();
    match error {
        WorkerNameMatchError::InvalidName(WorkerNameError::MissingPart { part }) => {
            let mut m = "Missing ".to_string();
            m.append(part_name_exec(*part));
            m.append(" part in worker name!");
            lines.push(error_line_exec(m.as_str()));
            lines.push(String::new());
        },
        WorkerNameMatchError::InvalidName(WorkerNameError::Unparsable) => {
            let n = paint_error_highlight(worker_name);
            let mut m = "Failed to parse worker name: ".to_string();
            m.append(n.as_str());
            lines.push(String::new());
            lines.push(error_line_exec(m.as_str()));
            lines.push(String::new());
            assert(painted(n@, worker_name@, "1;4;31"@));
        },
        WorkerNameMatchError::NoApplication => {
            lines.push(String::new());
            lines.push(
                error_line_exec(
                    "Cannot infer the component name for the worker as the current directory is not part of an application.",
                ),
            );
            lines.push(String::new());
            lines.push(
                "Switch to an application directory or specify the full component name as part of the worker name!".to_string(),
            );
            lines.push(String::new());
        },
        WorkerNameMatchError::NotExactlyOneComponentSelected { selected } => {
            let names = bold_all(selected);
            let listed = join(&names, ", ");
            let mut m = "Multiple components were selected based on the current directory: ".to_string();
            m.append(listed.as_str());
            lines.push(String::new());
            lines.push(error_line_exec(m.as_str()));
            lines.push(String::new());
            lines.push(
                "Switch to a different directory with only one component or specify the full or partial component name as part of the worker name!".to_string(),
            );
            lines.push(String::new());
            assert(all_bold(strings_view(names@), names_view(selected@)));
        },
        WorkerNameMatchError::AmbiguousComponentName { highlighted_options } => {
            let c = paint_error_highlight(component_name);
            let mut m = "The requested application component name (".to_string();
            m.append(c.as_str());
            m.append(") is ambiguous.");
            lines.push(String::new());
            lines.push(error_line_exec(m.as_str()));
            lines.push(String::new());
            lines.push("Did you mean one of".to_string());
            assert(painted(c@, component_name@, "1;4;31"@));
            let ghost head = strings_view(lines@);
            let mut i: usize = 0;
            while i < highlighted_options.len()
                invariant
                    i <= highlighted_options.len(),
                    lines.len() == 4 + i,
                    strings_view(lines@).take(4) == head,
                    forall|k: int|
                        0 <= k < i ==> option_line(
                            strings_view(lines@)[4 + k],
                            #[trigger] highlighted_options@[k]@,
                        ),
                decreases highlighted_options.len() - i,
            {
                let o = paint_bold(highlighted_options[i].as_str());
                let mut l = " - ".to_string();
                l.append(o.as_str());
                let ghost before = strings_view(lines@);
                lines.push(l);
                proof {
                    assert(strings_view(lines@) =~= before.push(l@));
                    assert(strings_view(lines@).take(4) =~= before.take(4));
                    assert(option_line(strings_view(lines@)[4 + i as int], highlighted_options@[i as int]@));
                    assert forall|k: int| 0 <= k < i + 1 implies option_line(
                        strings_view(lines@)[4 + k],
                        #[trigger] highlighted_options@[k]@,
                    ) by {
                        if k < i {
                            assert(strings_view(lines@)[4 + k] == before[4 + k]);
                        }
                    }
                }
                i = i + 1;
            }
            let ghost mid = strings_view(lines@);
            lines.push("?".to_string());
            lines.push(String::new());
            proof {
                let v = strings_view(lines@);
                assert(v =~= mid.push("?"@).push(Seq::<char>::empty()));
                assert forall|k: int| 0 <= k < highlighted_options.len() implies option_line(
                    v[4 + k],
                    #[trigger] highlighted_options@[k]@,
                ) by {
                    assert(v[4 + k] == mid[4 + k]);
                }
                assert(v.take(4) =~= head) by {
                    assert(v.take(4) =~= mid.take(4));
                }
                assert(v[0] == head[0]);
                assert(v[1] == head[1]);
                assert(v[2] == head[2]);
                assert(v[3] == head[3]);
            }
        },
    }
    lines
}

/// `lines` are the lines logged for an invocation that was not sent (before the list of
/// available functions): for an ambiguous function name, the error and the options.
pub open spec fn invocation_error_text(
    lines: Seq<Seq<char>>,
    error: InvocationError,
    function_name: Seq<char>,
) -> bool {
    match error {
        InvocationError::FunctionNotFound => {
            &&& lines.len() == 3
            &&& lines[0] == Seq::<char>::empty()
            &&& exists|f: Seq<char>|
                #[trigger] painted(f, function_name, "1;4;31"@) && error_line(
                    lines[1],
                    "The requested function name ("@ + f + ") was not found."@,
                )
            &&& lines[2] == Seq::<char>::empty()
        },
        InvocationError::AmbiguousFunctionName { highlighted_options } => {
            let n = highlighted_options.len();
            &&& lines.len() == n + 6
            &&& lines[0] == Seq::<char>::empty()
            &&& exists|f: Seq<char>|
                #[trigger] painted(f, function_name, "1;4;31"@) && error_line(
                    lines[1],
                    "The requested function name ("@ + f + ") is ambiguous."@,
                )
            &&& lines[2] == Seq::<char>::empty()
            &&& lines[3] == "Did you mean one of"@
            &&& forall|k: int|
                0 <= k < n ==> option_line(lines[4 + k], #[trigger] highlighted_options@[k]@)
            &&& lines[n + 4] == "?"@
            &&& lines[n + 5] == Seq::<char>::empty()
        },
    }
}

/// The lines logged for an invocation that was not sent, before the list of the
/// component's functions.
pub fn invocation_error_lines(error: &InvocationError, function_name: &str) -> (res: Vec<String>)
    ensures
        invocation_error_text(strings_view(res@), *error, function_name@),
{
    let f = paint_error_highlight(function_name);
    let mut lines: Vec<String> = Vec::new();
    match error {
        InvocationError::FunctionNotFound => {
            let mut m = "The requested function name (".to_string();
            m.append(f.as_str());
            m.append(") was not found.");
            lines.push(String::new());
            lines.push(error_line_exec(m.as_str()));
            lines.push(String::new());
            assert(painted(f@, function_name@, "1;4;31"@));
        },
        InvocationError::AmbiguousFunctionName { highlighted_options } => {
            let mut m = "The requested function name (".to_string();
            m.append(f.as_str());
            m.append(") is ambiguous.");
            lines.push(String::new());
            lines.push(error_line_exec(m.as_str()));
            lines.push(String::new());
            lines.push("Did you mean one of".to_string());
            assert(painted(f@, function_name@, "1;4;31"@));
            let ghost head = strings_view(lines@);
            let mut i: usize = 0;
            while i < highlighted_options.len()
                invariant
                    i <= highlighted_options.len(),
                    lines.len() == 4 + i,
                    strings_view(lines@).take(4) == head,
                    forall|k: int|
                        0 <= k < i ==> option_line(
                            strings_view(lines@)[4 + k],
                            #[trigger] highlighted_options@[k]@,
                        ),
                decreases highlighted_options.len() - i,
            {
                let o = paint_bold(highlighted_options[i].as_str());
                let mut l = " - ".to_string();
                l.append(o.as_str());
                let ghost before = strings_view(lines@);
                lines.push(l);
                proof {
                    assert(strings_view(lines@) =~= before.push(l@));
                    assert(strings_view(lines@).take(4) =~= before.take(4));
                    assert(option_line(strings_view(lines@)[4 + i as int], highlighted_options@[i as int]@));
                    assert forall|k: int| 0 <= k < i + 1 implies option_line(
                        strings_view(lines@)[4 + k],
                        #[trigger] highlighted_options@[k]@,
                    ) by {
                        if k < i {
                            assert(strings_view(lines@)[4 + k] == before[4 + k]);
                        }
                    }
                }
                i = i + 1;
            }
            let ghost mid = strings_view(lines@);
            lines.push("?".to_string());
            lines.push(String::new());
            proof {
                let v = strings_view(lines@);
                assert(v =~= mid.push("?"@).push(Seq::<char>::empty()));
                assert forall|k: int| 0 <= k < highlighted_options.len() implies option_line(
                    v[4 + k],
                    #[trigger] highlighted_options@[k]@,
                ) by {
                    assert(v[4 + k] == mid[4 + k]);
                }
                assert(v.take(4) =~= mid.take(4));
                assert(v[0] == head[0]);
                assert(v[1] == head[1]);
                assert(v[2] == head[2]);
                assert(v[3] == head[3]);
            }
        },
    }
    lines
}

/// One attempt to trigger the update of a worker, with the error where it failed.
#[derive(Debug)]
pub struct WorkerUpdateAttempt {
    pub component_name: String,
    pub target_version: u64,
    pub worker_name: String,
    pub error: Option<String>,
}

/// The attempts to update the workers of a component.
#[derive(Debug)]
pub struct TryUpdateAllWorkersResult {
    pub triggered: Vec<WorkerUpdateAttempt>,
}

fn dup_opt_string(s: &Option<String>) -> (res: Option<String>)
    ensures
        res == *s,
{
    match s {
        Some(v) => Some(v.clone()),
        None => None,
    }
}

/// Records, in order, one attempt per worker of the component: the worker's name and the
/// error that triggering its update to `target_version` gave, if any.
pub fn update_attempts(
    component_name: &str,
    target_version: u64,
    outcomes: &Vec<(String, Option<String>)>,
) -> (res: TryUpdateAllWorkersResult)
    ensures
        res.triggered.len() == outcomes.len(),
        forall|i: int|
            0 <= i < outcomes.len() ==> {
                let a = #[trigger] res.triggered@[i];
                &&& a.component_name@ == component_name@
                &&& a.target_version == target_version
                &&& a.worker_name@ == outcomes@[i].0@
                &&& a.error == outcomes@[i].1
            },
{
    let mut triggered: Vec<WorkerUpdateAttempt> = Vec::new();
    let mut i: usize = 0;
    while i < outcomes.len()
        invariant
            i <= outcomes.len(),
            triggered.len() == i,
            forall|k: int|
                0 <= k < i ==> {
                    let a = #[trigger] triggered@[k];
                    &&& a.component_name@ == component_name@
                    &&& a.target_version == target_version
                    &&& a.worker_name@ == outcomes@[k].0@
                    &&& a.error == outcomes@[k].1
                },
        decreases outcomes.len() - i,
    {
        let attempt = WorkerUpdateAttempt {
            component_name: component_name.to_string(),
            target_version,
            worker_name: outcomes[i].0.clone(),
            error: dup_opt_string(&outcomes[i].1),
        };
        triggered.push(attempt);
        i = i + 1;
    }
    TryUpdateAllWorkersResult { triggered }
}

/// `r` is `all workers (<count>) for component <component> to version <version>`, the count
/// and the version in bold, the component in bold blue.
pub open spec fn all_workers_text(r: Seq<char>, count: nat, component: Seq<char>, version: nat) -> bool {
    exists|n: Seq<char>, c: Seq<char>, v: Seq<char>|
        #![trigger painted(n, decimal(count), "1"@), painted(c, component, "1;34"@), painted(v, decimal(version), "1"@)]
        painted(n, decimal(count), "1"@) && painted(c, component, "1;34"@) && painted(
            v,
            decimal(version),
            "1"@,
        ) && r == "all workers ("@ + n + ") for component "@ + c + " to version "@ + v
}

/// Logs the start of updating all workers of a component to `target_version`: a skip,
/// in bold yellow, where it has no workers; else `Updating all workers (<count>) for
/// component <component> to version <version>`.
pub fn log_update_workers_start(
    state: &mut LogState,
    component_name: &str,
    worker_count: u64,
    target_version: u64,
) -> (res: Vec<String>)
    requires
        old(state).wf(),
    ensures
        if worker_count == 0 {
            exists|p: Seq<char>|
                painted(p, "Skipping"@, "1;33"@) && logged(
                    *old(state),
                    *final(state),
                    strings_view(res@),
                    p + " "@ + ("updating workers for component "@ + component_name@
                        + ", no workers found"@),
                )
        } else {
            exists|p: Seq<char>, s: Seq<char>|
                #![trigger painted(p, "Updating"@, "32"@), all_workers_text(s, worker_count as nat, component_name@, target_version as nat)]
                painted(p, "Updating"@, "32"@) && all_workers_text(
                    s,
                    worker_count as nat,
                    component_name@,
                    target_version as nat,
                ) && logged(*old(state), *final(state), strings_view(res@), p + " "@ + s)
        },
{
    if worker_count == 0 {
        let mut s = "updating workers for component ".to_string();
        s.append(component_name);
        s.append(", no workers found");
        log_warn_action(state, "Skipping", s.as_str())
    } else {
        let n = paint_bold(u64_to_text(worker_count).as_str());
        let c = paint_bold_blue(component_name);
        let v = paint_bold(u64_to_text(target_version).as_str());
        let mut s = "all workers (".to_string();
        s.append(n.as_str());
        s.append(") for component ");
        s.append(c.as_str());
        s.append(" to version ");
        s.append(v.as_str());
        assert(all_workers_text(s@, worker_count as nat, component_name@, target_version as nat));
        log_action(state, "Updating", s.as_str())
    }
}

/// `r` is `for worker <component>/<worker> to version <version> using <mode> update mode`,
/// the component in bold blue, the worker in bold green, the version and the mode in bold.
pub open spec fn update_trigger_text(
    r: Seq<char>,
    component: Seq<char>,
    worker: Seq<char>,
    version: nat,
    mode: WorkerUpdateMode,
) -> bool {
    exists|c: Seq<char>, w: Seq<char>, v: Seq<char>, m: Seq<char>|
        #![trigger painted(c, component, "1;34"@), painted(w, worker, "1;32"@), painted(v, decimal(version), "1"@), painted(m, update_mode_name(mode), "1"@)]
        painted(c, component, "1;34"@) && painted(w, worker, "1;32"@) && painted(
            v,
            decimal(version),
            "1"@,
        ) && painted(m, update_mode_name(mode), "1"@) && r == "for worker "@ + c + "/"@ + w
            + " to version "@ + v + " using "@ + m + " update mode"@
}

/// Logs that the update of a worker is triggered: `Triggering update for worker
/// <component>/<worker> to version <version> using <mode> update mode`, the action in bold
/// yellow.
pub fn log_update_trigger(
    state: &mut LogState,
    component_name: &str,
    worker_name: &str,
    target_version: u64,
    mode: WorkerUpdateMode,
) -> (res: Vec<String>)
    requires
        old(state).wf(),
    ensures
        exists|p: Seq<char>, s: Seq<char>|
            #![trigger painted(p, "Triggering update"@, "1;33"@), update_trigger_text(s, component_name@, worker_name@, target_version as nat, mode)]
            painted(p, "Triggering update"@, "1;33"@) && update_trigger_text(
                s,
                component_name@,
                worker_name@,
                target_version as nat,
                mode,
            ) && logged(*old(state), *final(state), strings_view(res@), p + " "@ + s),
{
    let c = paint_bold_blue(component_name);
    let w = paint_bold_green(worker_name);
    let v = paint_bold(u64_to_text(target_version).as_str());
    let m = paint_bold(mode.as_str());
    let mut s = "for worker ".to_string();
    s.append(c.as_str());
    s.append("/");
    s.append(w.as_str());
    s.append(" to version ");
    s.append(v.as_str());
    s.append(" using ");
    s.append(m.as_str());
    s.append(" update mode");
    assert(update_trigger_text(s@, component_name@, worker_name@, target_version as nat, mode));
    log_warn_action(state, "Triggering update", s.as_str())
}

/// `r` is `all workers (<count>) for component <component>`, the count in bold, the
/// component in bold blue.
pub open spec fn component_workers_text(r: Seq<char>, count: nat, component: Seq<char>) -> bool {
    exists|n: Seq<char>, c: Seq<char>|
        #![trigger painted(n, decimal(count), "1"@), painted(c, component, "1;34"@)]
        painted(n, decimal(count), "1"@) && painted(c, component, "1;34"@) && r
            == "all workers ("@ + n + ") for component "@ + c
}

/// Logs the start of redeploying all workers of a component: a skip, in bold yellow, where
/// it has no workers; else `Redeploying all workers (<count>) for component <component>`.
pub fn log_redeploy_workers_start(state: &mut LogState, component_name: &str, worker_count: u64) -> (res:
    Vec<String>)
    requires
        old(state).wf(),
    ensures
        if worker_count == 0 {
            exists|p: Seq<char>|
                painted(p, "Skipping"@, "1;33"@) && logged(
                    *old(state),
                    *final(state),
                    strings_view(res@),
                    p + " "@ + ("redeploying workers for component "@ + component_name@
                        + ", no workers found"@),
                )
        } else {
            exists|p: Seq<char>, s: Seq<char>|
                #![trigger painted(p, "Redeploying"@, "32"@), component_workers_text(s, worker_count as nat, component_name@)]
                painted(p, "Redeploying"@, "32"@) && component_workers_text(
                    s,
                    worker_count as nat,
                    component_name@,
                ) && logged(*old(state), *final(state), strings_view(res@), p + " "@ + s)
        },
{
    if worker_count == 0 {
        let mut s = "redeploying workers for component ".to_string();
        s.append(component_name);
        s.append(", no workers found");
        log_warn_action(state, "Skipping", s.as_str())
    } else {
        let n = paint_bold(u64_to_text(worker_count).as_str());
        let c = paint_bold_blue(component_name);
        let mut s = "all workers (".to_string();
        s.append(n.as_str());
        s.append(") for component ");
        s.append(c.as_str());
        assert(component_workers_text(s@, worker_count as nat, component_name@));
        log_action(state, "Redeploying", s.as_str())
    }
}

/// `r` is `worker <component>/<worker>`, the component in bold blue, the worker in bold
/// green.
pub open spec fn worker_ref_text(r: Seq<char>, component: Seq<char>, worker: Seq<char>) -> bool {
    exists|c: Seq<char>, w: Seq<char>|
        #![trigger painted(c, component, "1;34"@), painted(w, worker, "1;32"@)]
        painted(c, component, "1;34"@) && painted(w, worker, "1;32"@) && r == "worker "@ + c
            + "/"@ + w
}

fn worker_ref(component_name: &str, worker_name: &str) -> (res: String)
    ensures
        worker_ref_text(res@, component_name@, worker_name@),
{
    let c = paint_bold_blue(component_name);
    let w = paint_bold_green(worker_name);
    let mut s = "worker ".to_string();
    s.append(c.as_str());
    s.append("/");
    s.append(w.as_str());
    assert(worker_ref_text(s@, component_name@, worker_name@));
    s
}

/// A step of redeploying a worker: the worker is deleted, then created again.
#[derive(Debug, Clone, Copy, PartialEq, Eq, Structural)]
pub enum RedeployStep {
    Start,
    Delete,
    Deleted,
    Recreate,
}

/// Logs a step of redeploying a worker: `Redeploying worker <c>/<w> to latest version` and
/// `Deleting worker <c>/<w>` as warnings (bold yellow), `Deleted worker` and `Recreating
/// worker <c>/<w>` as actions (green).
pub fn log_redeploy_step(
    state: &mut LogState,
    step: RedeployStep,
    component_name: &str,
    worker_name: &str,
) -> (res: Vec<String>)
    requires
        old(state).wf(),
    ensures
        match step {
            RedeployStep::Start => exists|p: Seq<char>, s: Seq<char>|
                #![trigger painted(p, "Redeploying"@, "1;33"@), worker_ref_text(s, component_name@, worker_name@)]
                painted(p, "Redeploying"@, "1;33"@) && worker_ref_text(
                    s,
                    component_name@,
                    worker_name@,
                ) && logged(
                    *old(state),
                    *final(state),
                    strings_view(res@),
                    p + " "@ + (s + " to latest version"@),
                ),
            RedeployStep::Delete => exists|p: Seq<char>, s: Seq<char>|
                #![trigger painted(p, "Deleting"@, "1;33"@), worker_ref_text(s, component_name@, worker_name@)]
                painted(p, "Deleting"@, "1;33"@) && worker_ref_text(s, component_name@, worker_name@)
                    && logged(*old(state), *final(state), strings_view(res@), p + " "@ + s),
            RedeployStep::Deleted => exists|p: Seq<char>|
                painted(p, "Deleted"@, "32"@) && logged(
                    *old(state),
                    *final(state),
                    strings_view(res@),
                    p + " "@ + "worker"@,
                ),
            RedeployStep::Recreate => exists|p: Seq<char>, s: Seq<char>|
                #![trigger painted(p, "Recreating"@, "32"@), worker_ref_text(s, component_name@, worker_name@)]
                painted(p, "Recreating"@, "32"@) && worker_ref_text(s, component_name@, worker_name@)
                    && logged(*old(state), *final(state), strings_view(res@), p + " "@ + s),
        },
{
    match step {
        RedeployStep::Start => {
            let mut s = worker_ref(component_name, worker_name);
            let ghost r = s@;
            s.append(" to latest version");
            assert(worker_ref_text(r, component_name@, worker_name@));
            log_warn_action(state, "Redeploying", s.as_str())
        },
        RedeployStep::Delete => {
            let s = worker_ref(component_name, worker_name);
            log_warn_action(state, "Deleting", s.as_str())
        },
        RedeployStep::Deleted => log_action(state, "Deleted", "worker"),
        RedeployStep::Recreate => {
            let s = worker_ref(component_name, worker_name);
            log_action(state, "Recreating", s.as_str())
        },
    }
}

} // verus!
