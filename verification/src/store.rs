//! The ruleset store and its host index, provided by the
//! `https_everywhere_lib_core` crate.

use crate::json::decoded;
use crate::ruleset::{candidate_views, Candidate, CandidateView, RewriteRule};
use https_everywhere_lib_core::{Rule, RuleSets};
use std::collections::HashMap;
use vstd::prelude::*;

verus! {

#[verifier::external_type_specification]
#[verifier::external_body]
pub struct ExRuleSets(RuleSets);

/// What the store holds: under each target that it has an entry for, the
/// rulesets that were entered for that target, in the order of entry. A
/// target is a host name, or a host name with one label replaced by `*`.
pub uninterp spec fn targets_of(store: RuleSets) -> Map<Seq<char>, Seq<CandidateView>>;

/// What a store holds after `RuleSets::add_all_from_json_string` has entered
/// the rulesets of `text` into an empty store, with mixed content rulesets
/// off, no per-ruleset overrides and no scope.
pub uninterp spec fn loaded(text: Seq<char>) -> Map<Seq<char>, Seq<CandidateView>>;

/// The labels of a host name: the pieces between its dots, of which there is
/// always at least one.
pub open spec fn labels(host: Seq<char>) -> Seq<Seq<char>>
    decreases host.len(),
{
    if host.len() == 0 {
        seq![Seq::<char>::empty()]
    } else if host.last() == '.' {
        labels(host.drop_last()).push(Seq::<char>::empty())
    } else {
        let before = labels(host.drop_last());
        before.update(before.len() - 1, before.last().push(host.last()))
    }
}

/// Labels put together again, with a dot between each two.
pub open spec fn joined(pieces: Seq<Seq<char>>) -> Seq<char>
    decreases pieces.len(),
{
    if pieces.len() == 0 {
        Seq::<char>::empty()
    } else if pieces.len() == 1 {
        pieces[0]
    } else {
        joined(pieces.drop_last()) + seq!['.'] + pieces.last()
    }
}

/// A host name with the label at `position` replaced by `*`.
pub open spec fn starred(host: Seq<char>, position: int) -> Seq<char> {
    joined(labels(host).update(position, seq!['*']))
}

/// Whether a host name holds two dots in a row.
pub open spec fn has_empty_label(host: Seq<char>) -> bool {
    exists|i: int| 0 <= i && i + 1 < host.len() && #[trigger] host[i] == '.' && host[i + 1] == '.'
}

/// Whether wildcard targets are tried for a host name: it is not empty, takes
/// no more than 255 bytes, and holds no two dots in a row.
pub open spec fn takes_wildcards(host: Seq<char>) -> bool {
    &&& host.len() > 0
    &&& vstd::utf8::encode_utf8(host).len() <= 255
    &&& !has_empty_label(host)
}

/// The targets under which a host name is looked up, in order: the name
/// itself; then, where wildcards are tried, the name with its last label
/// starred, and the name with each other label starred, from the left.
pub open spec fn lookup_targets(host: Seq<char>) -> Seq<Seq<char>> {
    if takes_wildcards(host) {
        seq![host, starred(host, labels(host).len() - 1)] + Seq::new(
            (labels(host).len() - 1) as nat,
            |i: int| starred(host, i),
        )
    } else {
        seq![host]
    }
}

/// The rulesets entered under a target; none where the store has no entry
/// for it.
pub open spec fn under(contents: Map<Seq<char>, Seq<CandidateView>>, target: Seq<char>) -> Seq<
    CandidateView,
> {
    if contents.dom().contains(target) {
        contents[target]
    } else {
        Seq::<CandidateView>::empty()
    }
}

/// The rulesets entered under the targets from position `from` on, one
/// target after the other.
pub open spec fn gathered(
    contents: Map<Seq<char>, Seq<CandidateView>>,
    targets: Seq<Seq<char>>,
    from: int,
) -> Seq<CandidateView>
    decreases targets.len() - from,
{
    if from < 0 || from >= targets.len() {
        Seq::<CandidateView>::empty()
    } else {
        under(contents, targets[from]) + gathered(contents, targets, from + 1)
    }
}

/// The candidates of a host name: the rulesets entered under its lookup
/// targets, those of the name itself first.
pub open spec fn candidates_of(contents: Map<Seq<char>, Seq<CandidateView>>, host: Seq<char>) -> Seq<
    CandidateView,
> {
    gathered(contents, lookup_targets(host), 0)
}

/// Calls `RuleSets::new` and `RuleSets::add_all_from_json_string` with mixed
/// content rulesets off, no per-ruleset overrides and no scope.
///
/// Trusted: the calls return for text that `serde_json::from_str` accepts
/// (the crate gives up on other text), and what the store then holds depends
/// on the text alone.
#[verifier::external_body]
pub(crate) fn build_store(text: &str) -> (store: RuleSets)
    requires
        decoded(text@) is Some,
    ensures
        targets_of(store) == loaded(text@),
{
    let mut store = RuleSets::new();
    store.add_all_from_json_string(&text.to_string(), &false, &HashMap::new(), &None);
    store
}

/// Calls `RuleSets::potentially_applicable` and copies each ruleset it
/// returns into a [`Candidate`].
///
/// Trusted: the call returns for every host, and it hands out what the store
/// holds under the host's lookup targets, target by target in their order
/// and, within a target, in the order of entry.
#[verifier::external_body]
pub(crate) fn candidates_for(store: &RuleSets, host: &str) -> (r: Vec<Candidate>)
    ensures
        candidate_views(r@) == candidates_of(targets_of(*store), host@),
{
    store.potentially_applicable(&host.to_string()).iter().map(|s| Candidate {
        name: s.name.clone(),
        active: s.active,
        exclusions: s.exclusions.clone(),
        rules: s.rules.iter().map(|x| match x {
            Rule::Trivial => RewriteRule::Trivial,
            Rule::NonTrivial(from, to) => RewriteRule::Pattern(from.clone(), to.clone()),
        }).collect(),
    }).collect()
}

} // verus!
