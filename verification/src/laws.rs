//! Properties of the engine that hold for every store, URL and history.

use crate::address::{lookup_name, parsed_address};
use crate::client::{after_load, examined, verdict_of, HostIndex};
use crate::engine::{
    destination, first_rewrite, insecure_scheme, null_free, rewrite_target, rule_outcome,
    rules_sound, ruleset_rewrite, ruleset_sound, scan_rules, upgraded, RuleOutcome,
};
use crate::guard::{is_loop, recently_seen, HISTORY_BOUND};
use crate::pattern::{pattern_compiles, pattern_matches};
use crate::ruleset::{CandidateView, RuleView};
use crate::settings::Settings;
use crate::store::{candidates_of, gathered, lookup_targets, takes_wildcards, under};
use crate::verdict::{
    action_for, answer_for, url_for, verdict_in, RewriteActionEnum, VerdictView,
};
use vstd::prelude::*;

verus! {

/// Whether a ruleset is switched on, has no exclusions, holds no pattern
/// that fails to compile and begins with the plain upgrade rule.
pub open spec fn begins_with_upgrade(c: CandidateView) -> bool {
    &&& c.active
    &&& c.exclusions is None
    &&& c.rules.len() > 0
    &&& c.rules[0] == RuleView::Trivial
    &&& rules_sound(c.rules)
}

/// A ruleset that is switched on, has no exclusions, holds no pattern that
/// fails to compile and begins with the plain upgrade rule turns every URL
/// that starts with `http:` into the same URL with `https:` in its place.
pub proof fn plain_upgrade_applies(c: CandidateView, rest: Seq<char>)
    requires
        begins_with_upgrade(c),
    ensures
        ruleset_rewrite(c, "http:"@ + rest) == Some("https:"@ + rest),
{
    reveal_strlit("http:");
    let url = "http:"@ + rest;
    assert(url.subrange(0, 5) =~= "http:"@);
    assert(url.subrange(5, url.len() as int) =~= rest);
    assert(upgraded(url) == Some("https:"@ + rest));
    assert(rule_outcome(c.rules[0], url) == RuleOutcome::Hit("https:"@ + rest));
}

/// A session whose first candidate for a host is such a ruleset rewrites an
/// insecure URL of that host to its `https:` form, where that form is a URL
/// as it stands, unless the chain has recently been there.
pub proof fn plain_upgrade_rewrites(
    index: HostIndex,
    settings: Settings,
    url: Seq<char>,
    rest: Seq<char>,
    history: Seq<Seq<char>>,
)
    requires
        settings.global_enabled,
        parsed_address(url) matches Some(a) && a.scheme == "http"@ && a.text == "http:"@ + rest && (
        a.host matches Some(h) && candidates_of(index, lookup_name(h)).len() > 0 && begins_with_upgrade(
            candidates_of(index, lookup_name(h))[0],
        )),
        destination("https:"@ + rest) == Some("https:"@ + rest),
        !recently_seen(history, "https:"@ + rest),
    ensures
        verdict_of(Some(index), settings, url, history) == VerdictView::RewriteUrl(
            "https:"@ + rest,
        ),
{
    reveal_strlit("http:");
    reveal_strlit("https:");
    reveal_strlit("http");
    reveal_strlit("https");
    let a = parsed_address(url).unwrap();
    let h = a.host.unwrap();
    plain_upgrade_applies(candidates_of(index, lookup_name(h))[0], rest);
    assert("http"@.len() != "https"@.len());
    assert(("http:"@ + rest).len() != ("https:"@ + rest).len());
}

/// A ruleset whose only rule is the plain upgrade, switched on and without
/// exclusions, turns `http:` into `https:`.
pub proof fn plain_ruleset_upgrades(c: CandidateView, rest: Seq<char>)
    requires
        c.active,
        c.exclusions is None,
        c.rules == seq![RuleView::Trivial],
    ensures
        ruleset_rewrite(c, "http:"@ + rest) == Some("https:"@ + rest),
{
    assert(c.rules[0] == RuleView::Trivial);
    plain_upgrade_applies(c, rest);
}

/// A ruleset that holds a pattern which does not compile is never applied.
pub proof fn broken_ruleset_is_skipped(c: CandidateView, url: Seq<char>)
    requires
        !ruleset_sound(c),
    ensures
        ruleset_rewrite(c, url) is None,
{
}

/// Within a ruleset the first rule that matches decides: where the rules
/// before position `k` miss and the rule at `k` hits, the scan from `from`
/// gives what that rule gives.
pub proof fn first_matching_rule_wins(
    rules: Seq<RuleView>,
    url: Seq<char>,
    k: int,
    rewritten: Seq<char>,
    from: int,
)
    requires
        0 <= from <= k < rules.len(),
        forall|i: int| from <= i < k ==> rule_outcome(#[trigger] rules[i], url) == RuleOutcome::Miss,
        rule_outcome(rules[k], url) == RuleOutcome::Hit(rewritten),
    ensures
        scan_rules(rules, url, from) == Some(rewritten),
    decreases k - from,
{
    if from < k {
        first_matching_rule_wins(rules, url, k, rewritten, from + 1);
    }
}

/// Among the candidates the first that produces a rewrite decides: where
/// the candidates before position `k` produce nothing and the one at `k`
/// produces a rewrite, that is the rewrite of the list from `from`.
pub proof fn first_productive_candidate_wins(
    candidates: Seq<CandidateView>,
    url: Seq<char>,
    k: int,
    rewritten: Seq<char>,
    from: int,
)
    requires
        0 <= from <= k < candidates.len(),
        forall|i: int| from <= i < k ==> ruleset_rewrite(#[trigger] candidates[i], url) is None,
        ruleset_rewrite(candidates[k], url) == Some(rewritten),
    ensures
        first_rewrite(candidates, url, from) == Some(rewritten),
    decreases k - from,
{
    if from < k {
        first_productive_candidate_wins(candidates, url, k, rewritten, from + 1);
    }
}

/// Candidates that produce nothing for a URL leave it without a rewrite.
pub proof fn unproductive_candidates_rewrite_nothing(
    candidates: Seq<CandidateView>,
    url: Seq<char>,
    from: int,
)
    requires
        forall|i: int|
            0 <= i < candidates.len() ==> ruleset_rewrite(#[trigger] candidates[i], url) is None,
    ensures
        first_rewrite(candidates, url, from) is None,
    decreases candidates.len() - from,
{
    if 0 <= from < candidates.len() {
        unproductive_candidates_rewrite_nothing(candidates, url, from + 1);
    }
}

/// A URL whose scheme is secure already is left alone, whatever the session
/// holds.
pub proof fn secure_url_is_left_alone(
    index: Option<HostIndex>,
    settings: Settings,
    url: Seq<char>,
    history: Seq<Seq<char>>,
)
    requires
        parsed_address(url) matches Some(a) && a.scheme == "https"@,
    ensures
        verdict_of(index, settings, url, history) == VerdictView::NoOp,
{
}

/// Whether a ruleset has exclusions and they match a URL.
pub open spec fn exclusion_matches(c: CandidateView, url: Seq<char>) -> bool {
    c.exclusions matches Some(p) && p.len() > 0 && pattern_compiles(p) && pattern_matches(p, url)
}

/// A ruleset is never applied to a URL that its exclusions match, whatever
/// its rules would do.
pub proof fn excluded_url_is_skipped(c: CandidateView, url: Seq<char>)
    requires
        exclusion_matches(c, url),
    ensures
        ruleset_rewrite(c, url) is None,
{
}

/// A list of candidates that are all excluded for a URL produces no
/// rewrite.
pub proof fn excluded_candidates_rewrite_nothing(
    candidates: Seq<CandidateView>,
    url: Seq<char>,
    from: int,
)
    requires
        forall|i: int|
            0 <= i < candidates.len() ==> exclusion_matches(#[trigger] candidates[i], url),
    ensures
        first_rewrite(candidates, url, from) is None,
    decreases candidates.len() - from,
{
    if 0 <= from < candidates.len() {
        excluded_url_is_skipped(candidates[from], url);
        excluded_candidates_rewrite_nothing(candidates, url, from + 1);
    }
}

/// Past the end of a first list, a joined list of candidates rewrites as the
/// second list does.
pub proof fn rewrite_past_first(
    a: Seq<CandidateView>,
    b: Seq<CandidateView>,
    url: Seq<char>,
    k: int,
)
    requires
        0 <= k,
    ensures
        first_rewrite(a + b, url, a.len() + k) == first_rewrite(b, url, k),
    decreases b.len() - k,
{
    if k < b.len() {
        assert((a + b)[a.len() + k] == b[k]);
        rewrite_past_first(a, b, url, k + 1);
    }
}

/// A joined list of candidates rewrites as its first part does, and as its
/// second part where the first produces nothing.
pub proof fn rewrite_of_joined(
    a: Seq<CandidateView>,
    b: Seq<CandidateView>,
    url: Seq<char>,
    from: int,
)
    requires
        0 <= from <= a.len(),
    ensures
        first_rewrite(a + b, url, from) == match first_rewrite(a, url, from) {
            Some(u) => Some(u),
            None => first_rewrite(b, url, 0),
        },
    decreases a.len() - from,
{
    if from < a.len() {
        assert((a + b)[from] == a[from]);
        rewrite_of_joined(a, b, url, from + 1);
    } else {
        rewrite_past_first(a, b, url, 0);
    }
}

/// Listing every candidate a second time changes no rewrite.
pub proof fn repeated_list_changes_nothing(candidates: Seq<CandidateView>, url: Seq<char>)
    ensures
        first_rewrite(candidates + candidates, url, 0) == first_rewrite(candidates, url, 0),
{
    rewrite_of_joined(candidates, candidates, url, 0);
}

/// A second copy of a ruleset, anywhere after the first, changes no
/// rewrite: what matching shows of a store does not depend on how often a
/// ruleset was entered.
pub proof fn later_copy_changes_nothing(
    a: Seq<CandidateView>,
    c: CandidateView,
    b: Seq<CandidateView>,
    d: Seq<CandidateView>,
    url: Seq<char>,
)
    ensures
        first_rewrite(a + seq![c] + b + seq![c] + d, url, 0) == first_rewrite(
            a + seq![c] + b + d,
            url,
            0,
        ),
{
    let one = seq![c];
    let head = a + one + b;
    assert(first_rewrite(one, url, 0) == ruleset_rewrite(c, url)) by {
        assert(one[0] == c);
        assert(first_rewrite(one, url, 1) is None);
    }
    rewrite_of_joined(a, one, url, 0);
    rewrite_of_joined(a + one, b, url, 0);
    rewrite_of_joined(head, one, url, 0);
    rewrite_of_joined(head + one, d, url, 0);
    rewrite_of_joined(head, d, url, 0);
}

/// Offering the same corpus to a session a second time changes nothing:
/// the session holds the rulesets of the corpus once, however often they
/// were loaded.
pub proof fn loading_twice_is_loading_once(before: Option<HostIndex>, text: Seq<char>)
    ensures
        after_load(after_load(before, text), text) == after_load(before, text),
{
}

/// What a session holds after a corpus was accepted does not depend on what
/// it held before.
pub proof fn accepted_corpus_replaces_the_store(
    first: Option<HostIndex>,
    second: Option<HostIndex>,
    text: Seq<char>,
)
    requires
        examined(text) is Ok,
    ensures
        after_load(first, text) == after_load(second, text),
        after_load(first, text) is Some,
{
}

/// A corpus that is refused leaves the session as it was.
pub proof fn refused_corpus_changes_nothing(before: Option<HostIndex>, text: Seq<char>)
    requires
        examined(text) is Err,
    ensures
        after_load(before, text) == before,
{
}

/// The rulesets entered for the host name itself come before those entered
/// for any wildcard target.
pub proof fn literal_target_comes_first(index: HostIndex, host: Seq<char>)
    ensures
        candidates_of(index, host) == under(index, host) + gathered(
            index,
            lookup_targets(host),
            1,
        ),
{
    assert(lookup_targets(host)[0] == host);
}

/// Where a ruleset entered for the host name itself produces a rewrite, no
/// ruleset entered for a wildcard target is asked.
pub proof fn literal_target_wins(
    index: HostIndex,
    host: Seq<char>,
    url: Seq<char>,
    rewritten: Seq<char>,
)
    requires
        first_rewrite(under(index, host), url, 0) == Some(rewritten),
    ensures
        first_rewrite(candidates_of(index, host), url, 0) == Some(rewritten),
{
    literal_target_comes_first(index, host);
    rewrite_of_joined(under(index, host), gathered(index, lookup_targets(host), 1), url, 0);
}

/// A host name for which no wildcards are tried finds only the rulesets
/// entered for the name itself.
pub proof fn odd_host_finds_literal_only(index: HostIndex, host: Seq<char>)
    requires
        !takes_wildcards(host),
    ensures
        candidates_of(index, host) == under(index, host),
{
    assert(gathered(index, lookup_targets(host), 1) =~= Seq::<CandidateView>::empty());
    assert(candidates_of(index, host) =~= under(index, host));
}

/// A store without an entry under any lookup target of a host has no
/// candidate for it.
pub proof fn unlisted_host_has_no_candidate(index: HostIndex, host: Seq<char>, from: int)
    requires
        forall|i: int|
            0 <= i < lookup_targets(host).len() ==> !index.dom().contains(
                #[trigger] lookup_targets(host)[i],
            ),
    ensures
        gathered(index, lookup_targets(host), from) == Seq::<CandidateView>::empty(),
        from == 0 ==> candidates_of(index, host) == Seq::<CandidateView>::empty(),
    decreases lookup_targets(host).len() - from,
{
    if 0 <= from < lookup_targets(host).len() {
        unlisted_host_has_no_candidate(index, host, from + 1);
        assert(gathered(index, lookup_targets(host), from) =~= Seq::<CandidateView>::empty());
    }
}

/// A session without rulesets answers every URL with no-op.
pub proof fn empty_session_does_nothing(settings: Settings, url: Seq<char>, history: Seq<Seq<char>>)
    ensures
        verdict_of(None, settings, url, history) == VerdictView::NoOp,
{
}

/// With rewriting switched off every URL is answered with no-op.
pub proof fn disabled_session_does_nothing(
    index: Option<HostIndex>,
    strict: bool,
    url: Seq<char>,
    history: Seq<Seq<char>>,
)
    ensures
        verdict_of(index, Settings { global_enabled: false, strict }, url, history)
            == VerdictView::NoOp,
{
}

/// A rewrite that leads to a URL which the redirect chain has recently been
/// at, or that changes nothing, is reported as a loop and never handed out;
/// the answer for the host is the loop warning, without a URL.
pub proof fn revisit_is_reported(
    index: HostIndex,
    settings: Settings,
    url: Seq<char>,
    history: Seq<Seq<char>>,
    rewritten: Seq<char>,
)
    requires
        settings.global_enabled,
        parsed_address(url) matches Some(a) && a.scheme != "https"@ && (a.host matches Some(h)
            && rewrite_target(candidates_of(index, lookup_name(h)), a.text) == Some(rewritten) && is_loop(
            a.text,
            rewritten,
            history,
        )),
    ensures
        verdict_of(Some(index), settings, url, history) == VerdictView::RedirectLoopWarning,
        answer_for(verdict_of(Some(index), settings, url, history)) == (
            RewriteActionEnum::RedirectLoopWarning,
            Seq::<char>::empty(),
        ),
{
}

/// Of a chain within the bound the guard reads every entry.
pub proof fn short_chain_is_read_whole(history: Seq<Seq<char>>, url: Seq<char>)
    requires
        history.len() <= HISTORY_BOUND,
    ensures
        recently_seen(history, url) == history.contains(url),
{
    if history.contains(url) {
        let i = choose|i: int| 0 <= i < history.len() && history[i] == url;
        assert(history.len() - i <= HISTORY_BOUND && history[i] == url);
    }
}

/// For an insecure URL that no ruleset rewrites, strict mode cancels the
/// request and lenient mode lets it pass, and the host is told which.
pub proof fn strict_mode_cancels(index: HostIndex, url: Seq<char>, history: Seq<Seq<char>>)
    requires
        parsed_address(url) matches Some(a) && insecure_scheme(a.scheme) && (a.host matches Some(h)
            && rewrite_target(candidates_of(index, lookup_name(h)), a.text) is None),
    ensures
        verdict_of(Some(index), Settings { global_enabled: true, strict: true }, url, history)
            == VerdictView::CancelRequest,
        verdict_of(Some(index), Settings { global_enabled: true, strict: false }, url, history)
            == VerdictView::NoOp,
        action_for(
            verdict_of(Some(index), Settings { global_enabled: true, strict: true }, url, history),
        ) == RewriteActionEnum::CancelRequest,
        action_for(
            verdict_of(Some(index), Settings { global_enabled: true, strict: false }, url, history),
        ) == RewriteActionEnum::NoOp,
{
    reveal_strlit("http");
    reveal_strlit("ftp");
    reveal_strlit("https");
    assert("http"@.len() != "https"@.len() && "ftp"@.len() != "https"@.len());
}

/// A URL that a session hands out is the normal form of a URL and holds no
/// NUL character.
pub proof fn handed_out_url_is_clean(
    index: Option<HostIndex>,
    settings: Settings,
    url: Seq<char>,
    history: Seq<Seq<char>>,
)
    ensures
        verdict_of(index, settings, url, history) matches VerdictView::RewriteUrl(u) ==> null_free(
            u,
        ) && (exists|raw: Seq<char>| destination(raw) == Some(u)),
{
    if let VerdictView::RewriteUrl(u) = verdict_of(index, settings, url, history) {
        let a = parsed_address(url).unwrap();
        let h = a.host.unwrap();
        let raw = first_rewrite(candidates_of(index.unwrap(), lookup_name(h)), a.text, 0).unwrap();
        assert(destination(raw) == Some(u));
    }
}

/// The answer for the host keeps the verdicts apart: from the answer the
/// verdict can be read back, so two verdicts with the same answer are the same
/// verdict.
pub proof fn answer_names_the_verdict(v: VerdictView, w: VerdictView)
    ensures
        verdict_in(answer_for(v)) == v,
        answer_for(v) == answer_for(w) ==> v == w,
{
    assert(verdict_in(answer_for(w)) == w);
}

/// Only the verdict itself gives its action: the action for a cancellation is
/// given by no other verdict, nor is that for a loop warning, for a rewrite
/// or for no-op.
pub proof fn each_verdict_has_its_own_action(v: VerdictView)
    ensures
        action_for(v) == RewriteActionEnum::NoOp <==> v == VerdictView::NoOp,
        action_for(v) == RewriteActionEnum::CancelRequest <==> v == VerdictView::CancelRequest,
        action_for(v) == RewriteActionEnum::RedirectLoopWarning <==> v
            == VerdictView::RedirectLoopWarning,
        action_for(v) == RewriteActionEnum::RewriteUrl <==> v is RewriteUrl,
        !(v is RewriteUrl) ==> url_for(v).len() == 0,
{
}

/// A session never cancels a request unless strict mode is on.
pub proof fn lenient_mode_never_cancels(
    index: Option<HostIndex>,
    url: Seq<char>,
    history: Seq<Seq<char>>,
)
    ensures
        verdict_of(index, Settings { global_enabled: true, strict: false }, url, history)
            != VerdictView::CancelRequest,
{
}

} // verus!
