//! The 1.2 command model: partially typed commands are recognised from the
//! positional words of the raw command line.

pub mod shared_args;
pub mod worker;

use crate::command::{
    first_match, ids_view, match_invalid_arg_kind, matchers_view, matchers_well_formed,
    InvalidArgMatcher, PartialMatchKind,
};
use crate::text::{chars_of, strings_view};
use vstd::prelude::*;

verus! {

/// A partially matched command line.
#[derive(Debug)]
pub enum GolemCliCommandPartialMatch {
    AppNewMissingLanguage,
    ComponentNewMissingLanguage,
    WorkerInvokeMissingWorkerName,
    WorkerInvokeMissingFunctionName { worker_name: String },
}

/// The positional words of a command line: the arguments after the program name that do
/// not start with `-`.
pub open spec fn positional_words(args: Seq<Seq<char>>) -> Seq<Seq<char>> {
    args.drop_first().filter(|a: Seq<char>| !(a.len() > 0 && a[0] == '-'))
}

/// The positional words of the command line `args` (program name first).
pub fn positional_args(args: &Vec<String>) -> (res: Vec<String>)
    requires
        args.len() >= 1,
    ensures
        strings_view(res@) == positional_words(strings_view(args@)),
{
    let ghost all = strings_view(args@).drop_first();
    let mut res: Vec<String> = Vec::new();
    let mut i: usize = 1;
    assert(all.take(0).filter(|a: Seq<char>| !(a.len() > 0 && a[0] == '-')) =~= Seq::<Seq<char>>::empty());
    while i < args.len()
        invariant
            1 <= i <= args.len(),
            all == strings_view(args@).drop_first(),
            strings_view(res@) == all.take(i - 1).filter(|a: Seq<char>| !(a.len() > 0 && a[0] == '-')),
        decreases args.len() - i,
    {
        let cs = chars_of(args[i].as_str());
        let ghost t = all.take(i - 1);
        assert(all.take(i as int) =~= t.push(args@[i as int]@));
        assert(t.push(args@[i as int]@).drop_last() =~= t);
        reveal_with_fuel(Seq::filter, 1);
        if !(cs.len() > 0 && cs[0] == '-') {
            let ghost before = res@;
            let a = args[i].clone();
            res.push(a);
            assert(strings_view(res@) =~= strings_view(before).push(a@));
        }
        i = i + 1;
    }
    assert(all.take(args.len() - 1) =~= all);
    res
}

/// `res` is the partial match that `kind` makes of the found values.
pub open spec fn is_partial_match(
    res: GolemCliCommandPartialMatch,
    kind: PartialMatchKind,
    found: Seq<Seq<char>>,
) -> bool {
    match kind {
        PartialMatchKind::AppNewMissingLanguage => res is AppNewMissingLanguage,
        PartialMatchKind::ComponentNewMissingLanguage => res is ComponentNewMissingLanguage,
        PartialMatchKind::WorkerInvokeMissingWorkerName => res is WorkerInvokeMissingWorkerName,
        PartialMatchKind::WorkerInvokeMissingFunctionName => res is WorkerInvokeMissingFunctionName
            && res->worker_name@ == found[0],
    }
}

/// The partial match of the first matcher that applies to the positional words of the
/// command line `args`; missing arguments are reported as `<NAME>` only.
pub fn match_invalid_arg(
    args: &Vec<String>,
    error_context_args: &Vec<String>,
    matchers: &Vec<InvalidArgMatcher>,
    positional_arg_ids: &Vec<Vec<String>>,
) -> (res: Option<GolemCliCommandPartialMatch>)
    requires
        args.len() >= 1,
        positional_arg_ids.len() == matchers.len(),
        matchers_well_formed(matchers@),
    ensures
        match first_match(
            matchers_view(matchers@),
            positional_words(strings_view(args@)),
            strings_view(error_context_args@),
            ids_view(positional_arg_ids@),
            false,
        ) {
            Some((kind, found)) => res is Some && is_partial_match(res->0, kind, found),
            None => res is None,
        },
{
    let pos = positional_args(args);
    proof {
        crate::command::lemma_first_match_found_len(
            matchers@,
            strings_view(pos@),
            strings_view(error_context_args@),
            ids_view(positional_arg_ids@),
            false,
        );
    }
    match match_invalid_arg_kind(&pos, error_context_args, matchers, positional_arg_ids, false) {
        Some((kind, found)) => Some(
            match kind {
                PartialMatchKind::AppNewMissingLanguage => {
                    GolemCliCommandPartialMatch::AppNewMissingLanguage
                },
                PartialMatchKind::ComponentNewMissingLanguage => {
                    GolemCliCommandPartialMatch::ComponentNewMissingLanguage
                },
                PartialMatchKind::WorkerInvokeMissingWorkerName => {
                    GolemCliCommandPartialMatch::WorkerInvokeMissingWorkerName
                },
                PartialMatchKind::WorkerInvokeMissingFunctionName => {
                    GolemCliCommandPartialMatch::WorkerInvokeMissingFunctionName {
                        worker_name: found[0].clone(),
                    }
                },
            },
        ),
        None => None,
    }
}

} // verus!
