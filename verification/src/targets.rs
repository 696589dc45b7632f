//! Properties of the lookup targets of a host name: which wildcard targets a
//! host reaches and which it does not, and what a host finds in a store.

use crate::address::{lookup_name, parsed_address};
use crate::client::verdict_of;
use crate::engine::{destination, first_rewrite, ruleset_rewrite};
use crate::guard::recently_seen;
use crate::laws::{
    begins_with_upgrade, plain_upgrade_applies, unlisted_host_has_no_candidate,
    unproductive_candidates_rewrite_nothing,
};
use crate::ruleset::CandidateView;
use crate::settings::Settings;
use crate::verdict::VerdictView;
use crate::store::{
    candidates_of, gathered, joined, labels, lookup_targets, starred, takes_wildcards, under,
};
use vstd::prelude::*;

verus! {

/// Whether a text holds no dot.
pub open spec fn dot_free(text: Seq<char>) -> bool {
    forall|i: int| 0 <= i < text.len() ==> #[trigger] text[i] != '.'
}

/// Whether every piece holds no dot.
pub open spec fn all_dot_free(pieces: Seq<Seq<char>>) -> bool {
    forall|i: int| 0 <= i < pieces.len() ==> dot_free(#[trigger] pieces[i])
}

/// A wildcard target: `*`, a dot, and the rest of a host name.
pub open spec fn wildcard_before(rest: Seq<char>) -> Seq<char> {
    seq!['*', '.'] + rest
}

/// A host name made of a label, a dot, and the rest.
pub open spec fn label_before(label: Seq<char>, rest: Seq<char>) -> Seq<char> {
    label + seq!['.'] + rest
}

/// Every host name has at least one label, and no label holds a dot.
pub proof fn labels_are_dot_free(host: Seq<char>)
    ensures
        labels(host).len() >= 1,
        all_dot_free(labels(host)),
    decreases host.len(),
{
    if host.len() > 0 {
        labels_are_dot_free(host.drop_last());
    }
}

/// A text without a dot is its own single label.
pub proof fn dot_free_text_is_one_label(text: Seq<char>)
    requires
        dot_free(text),
    ensures
        labels(text) == seq![text],
    decreases text.len(),
{
    if text.len() == 0 {
        assert(text =~= Seq::<char>::empty());
    } else {
        let before = text.drop_last();
        dot_free_text_is_one_label(before);
        assert(before.push(text.last()) =~= text);
        assert(labels(text) =~= seq![text]);
    }
}

/// A label put behind a host name and a dot is one more label at the end.
pub proof fn label_at_the_end(host: Seq<char>, label: Seq<char>)
    requires
        dot_free(label),
    ensures
        labels(host + seq!['.'] + label) == labels(host).push(label),
    decreases label.len(),
{
    let whole = host + seq!['.'] + label;
    labels_are_dot_free(host);
    if label.len() == 0 {
        assert(whole.drop_last() =~= host);
        assert(label =~= Seq::<char>::empty());
    } else {
        let before = label.drop_last();
        label_at_the_end(host, before);
        assert(whole.drop_last() =~= host + seq!['.'] + before);
        assert(whole.last() == label.last());
        assert(before.push(label.last()) =~= label);
        assert(labels(whole) =~= labels(host).push(label));
    }
}

/// A label put before a dot and a host name is one more label at the front.
pub proof fn label_at_the_front(label: Seq<char>, rest: Seq<char>)
    requires
        dot_free(label),
    ensures
        labels(label_before(label, rest)) == seq![label] + labels(rest),
    decreases rest.len(),
{
    let whole = label_before(label, rest);
    labels_are_dot_free(rest);
    if rest.len() == 0 {
        assert(rest =~= Seq::<char>::empty());
        assert(whole =~= label + seq!['.'] + Seq::<char>::empty());
        label_at_the_end(label, Seq::<char>::empty());
        dot_free_text_is_one_label(label);
        assert(labels(whole) =~= seq![label] + labels(rest));
    } else {
        let before = rest.drop_last();
        label_at_the_front(label, before);
        labels_are_dot_free(before);
        assert(whole.drop_last() =~= label_before(label, before));
        assert(whole.last() == rest.last());
        assert(labels(whole) =~= seq![label] + labels(rest));
    }
}

/// Pieces without dots, put together, fall into the same pieces again.
pub proof fn labels_of_joined(pieces: Seq<Seq<char>>)
    requires
        pieces.len() >= 1,
        all_dot_free(pieces),
    ensures
        labels(joined(pieces)) == pieces,
    decreases pieces.len(),
{
    if pieces.len() == 1 {
        dot_free_text_is_one_label(pieces[0]);
        assert(seq![pieces[0]] =~= pieces);
    } else {
        let before = pieces.drop_last();
        assert(all_dot_free(before)) by {
            assert forall|i: int| 0 <= i < before.len() implies dot_free(#[trigger] before[i]) by {
                assert(before[i] == pieces[i]);
            }
        }
        labels_of_joined(before);
        label_at_the_end(joined(before), pieces.last());
        assert(before.push(pieces.last()) =~= pieces);
    }
}

/// A piece put before other pieces comes out in front, before a dot.
pub proof fn joined_after_first(first: Seq<char>, others: Seq<Seq<char>>)
    requires
        others.len() >= 1,
    ensures
        joined(seq![first] + others) == first + seq!['.'] + joined(others),
    decreases others.len(),
{
    let all = seq![first] + others;
    if others.len() == 1 {
        assert(all.drop_last() =~= seq![first]);
        assert(joined(all.drop_last()) == first);
        assert(all.last() == others[0]);
    } else {
        let before = others.drop_last();
        joined_after_first(first, before);
        assert(all.drop_last() =~= seq![first] + before);
        assert(all.last() == others.last());
        assert(joined(all) =~= first + seq!['.'] + joined(others));
    }
}

/// The labels of a host name, put together, give the name back.
pub proof fn joined_labels_give_the_host(host: Seq<char>)
    ensures
        joined(labels(host)) == host,
    decreases host.len(),
{
    if host.len() == 0 {
        assert(joined(labels(host)) =~= host);
    } else {
        let before = host.drop_last();
        joined_labels_give_the_host(before);
        labels_are_dot_free(before);
        let pieces = labels(before);
        if host.last() == '.' {
            let all = pieces.push(Seq::<char>::empty());
            assert(all.drop_last() =~= pieces);
            assert(joined(all) =~= host);
        } else {
            let all = pieces.update(pieces.len() - 1, pieces.last().push(host.last()));
            if pieces.len() == 1 {
                assert(joined(all) =~= host);
            } else {
                assert(all.drop_last() =~= pieces.drop_last());
                assert(all.last() == pieces.last().push(host.last()));
                assert(joined(pieces) == joined(pieces.drop_last()) + seq!['.'] + pieces.last());
                assert(joined(all) == joined(pieces.drop_last()) + seq!['.'] + all.last());
                assert(before.push(host.last()) =~= host);
                assert(joined(all) =~= before.push(host.last()));
            }
        }
    }
}

/// A host name with one label starred has as many labels as before.
pub proof fn starring_keeps_the_count(host: Seq<char>, position: int)
    requires
        0 <= position < labels(host).len(),
    ensures
        labels(starred(host, position)).len() == labels(host).len(),
{
    labels_are_dot_free(host);
    let pieces = labels(host).update(position, seq!['*']);
    assert(all_dot_free(pieces)) by {
        assert forall|i: int| 0 <= i < pieces.len() implies dot_free(#[trigger] pieces[i]) by {
            if i != position {
                assert(pieces[i] == labels(host)[i]);
            }
        }
    }
    labels_of_joined(pieces);
}

/// A lookup target of a host name is the name itself or has as many labels
/// as the name.
pub proof fn lookup_target_has_the_hosts_count(host: Seq<char>, i: int)
    requires
        0 <= i < lookup_targets(host).len(),
    ensures
        lookup_targets(host)[i] == host || labels(lookup_targets(host)[i]).len() == labels(
            host,
        ).len(),
{
    labels_are_dot_free(host);
    if takes_wildcards(host) {
        if i == 1 {
            starring_keeps_the_count(host, labels(host).len() - 1);
        } else if i >= 2 {
            starring_keeps_the_count(host, i - 2);
        }
    }
}

/// A host name with its first label starred is `*`, a dot, and what came
/// after the first label.
pub proof fn first_label_starred(label: Seq<char>, rest: Seq<char>)
    requires
        dot_free(label),
    ensures
        labels(label_before(label, rest)).len() == labels(rest).len() + 1,
        starred(label_before(label, rest), 0) == wildcard_before(rest),
{
    let host = label_before(label, rest);
    let star = seq!['*'];
    label_at_the_front(label, rest);
    labels_are_dot_free(rest);
    let pieces = labels(host).update(0, star);
    assert(pieces =~= seq![star] + labels(rest));
    joined_after_first(star, labels(rest));
    joined_labels_give_the_host(rest);
    assert(joined(pieces) == star + seq!['.'] + rest);
    assert(star + seq!['.'] + rest =~= wildcard_before(rest));
}

/// A host name reaches the wildcard target that has `*` in place of its
/// first label: `*.example.com` is a lookup target of `a.example.com`.
pub proof fn wildcard_target_is_reached(label: Seq<char>, rest: Seq<char>)
    requires
        dot_free(label),
        takes_wildcards(label_before(label, rest)),
    ensures
        lookup_targets(label_before(label, rest)).contains(wildcard_before(rest)),
{
    let host = label_before(label, rest);
    first_label_starred(label, rest);
    labels_are_dot_free(rest);
    let targets = lookup_targets(host);
    assert(labels(host).len() >= 2);
    assert(targets.len() >= 3);
    assert(targets[2] == starred(host, 0));
}

/// A wildcard target stands for exactly one label: `*.example.com` is no
/// lookup target of `example.com`, and none of `a.b.example.com`.
pub proof fn wildcard_target_takes_one_label(
    first: Seq<char>,
    second: Seq<char>,
    rest: Seq<char>,
)
    requires
        dot_free(first),
        dot_free(second),
    ensures
        !lookup_targets(rest).contains(wildcard_before(rest)),
        !lookup_targets(label_before(first, label_before(second, rest))).contains(
            wildcard_before(rest),
        ),
{
    let target = wildcard_before(rest);
    let star = seq!['*'];
    assert(target =~= label_before(star, rest));
    label_at_the_front(star, rest);
    labels_are_dot_free(rest);
    assert(labels(target).len() == labels(rest).len() + 1);
    assert forall|i: int| 0 <= i < lookup_targets(rest).len() implies lookup_targets(rest)[i]
        != target by {
        lookup_target_has_the_hosts_count(rest, i);
        assert(target.len() != rest.len());
    }
    let deep = label_before(first, label_before(second, rest));
    label_at_the_front(second, rest);
    label_at_the_front(first, label_before(second, rest));
    assert(labels(deep).len() == labels(rest).len() + 2);
    assert forall|i: int| 0 <= i < lookup_targets(deep).len() implies lookup_targets(deep)[i]
        != target by {
        lookup_target_has_the_hosts_count(deep, i);
        if first.len() == 0 {
            assert(deep[0] == '.');
            assert(target[0] == '*');
        } else {
            assert(deep.len() > target.len());
        }
    }
}

/// What the store holds under one of the targets is among what is gathered
/// from the targets.
pub proof fn gathered_holds_each_target(
    index: Map<Seq<char>, Seq<CandidateView>>,
    targets: Seq<Seq<char>>,
    from: int,
    k: int,
    c: CandidateView,
)
    requires
        0 <= from <= k < targets.len(),
        under(index, targets[k]).contains(c),
    ensures
        gathered(index, targets, from).contains(c),
    decreases k - from,
{
    let here = under(index, targets[from]);
    let later = gathered(index, targets, from + 1);
    if from == k {
        let i = choose|i: int| 0 <= i < here.len() && here[i] == c;
        assert((here + later)[i] == c);
    } else {
        gathered_holds_each_target(index, targets, from + 1, k, c);
        let i = choose|i: int| 0 <= i < later.len() && later[i] == c;
        assert((here + later)[here.len() + i] == c);
    }
}

/// A ruleset entered for `*.example.com` is a candidate for `a.example.com`
/// and for `b.example.com`: for every host name that has one label in the
/// place of the `*`.
pub proof fn wildcard_ruleset_is_a_candidate(
    index: Map<Seq<char>, Seq<CandidateView>>,
    label: Seq<char>,
    rest: Seq<char>,
    c: CandidateView,
)
    requires
        dot_free(label),
        takes_wildcards(label_before(label, rest)),
        under(index, wildcard_before(rest)).contains(c),
    ensures
        candidates_of(index, label_before(label, rest)).contains(c),
{
    let host = label_before(label, rest);
    first_label_starred(label, rest);
    labels_are_dot_free(rest);
    assert(lookup_targets(host)[2] == starred(host, 0));
    gathered_holds_each_target(index, lookup_targets(host), 0, 2, c);
}

/// A store that holds rulesets for `*.example.com` only has no candidate for
/// `example.com` itself, and none for `a.b.example.com`.
pub proof fn wildcard_ruleset_is_no_candidate(
    index: Map<Seq<char>, Seq<CandidateView>>,
    first: Seq<char>,
    second: Seq<char>,
    rest: Seq<char>,
)
    requires
        dot_free(first),
        dot_free(second),
        forall|target: Seq<char>| index.dom().contains(target) ==> target == wildcard_before(rest),
    ensures
        candidates_of(index, rest) == Seq::<CandidateView>::empty(),
        candidates_of(index, label_before(first, label_before(second, rest)))
            == Seq::<CandidateView>::empty(),
{
    let deep = label_before(first, label_before(second, rest));
    wildcard_target_takes_one_label(first, second, rest);
    assert forall|i: int| 0 <= i < lookup_targets(rest).len() implies !index.dom().contains(
        #[trigger] lookup_targets(rest)[i],
    ) by {
        assert(lookup_targets(rest).contains(lookup_targets(rest)[i]));
    }
    unlisted_host_has_no_candidate(index, rest, 0);
    assert forall|i: int| 0 <= i < lookup_targets(deep).len() implies !index.dom().contains(
        #[trigger] lookup_targets(deep)[i],
    ) by {
        assert(lookup_targets(deep).contains(lookup_targets(deep)[i]));
    }
    unlisted_host_has_no_candidate(index, deep, 0);
}

/// Whether every ruleset that the store holds, under whatever target, is the
/// ruleset `c`.
pub open spec fn holds_only(index: Map<Seq<char>, Seq<CandidateView>>, c: CandidateView) -> bool {
    forall|target: Seq<char>, i: int|
        index.dom().contains(target) && 0 <= i < index[target].len() ==> #[trigger] index[target][i]
            == c
}

/// Whether the store holds the ruleset `c` under a target that the host name
/// is looked up under.
pub open spec fn finds(
    index: Map<Seq<char>, Seq<CandidateView>>,
    host: Seq<char>,
    c: CandidateView,
) -> bool {
    exists|k: int|
        0 <= k < lookup_targets(host).len() && under(index, #[trigger] lookup_targets(host)[k]).contains(
            c,
        )
}

/// From a store that holds one ruleset only, nothing else is gathered.
pub proof fn gathered_from_one_ruleset(
    index: Map<Seq<char>, Seq<CandidateView>>,
    targets: Seq<Seq<char>>,
    from: int,
    c: CandidateView,
)
    requires
        holds_only(index, c),
    ensures
        forall|i: int|
            0 <= i < gathered(index, targets, from).len() ==> #[trigger] gathered(
                index,
                targets,
                from,
            )[i] == c,
    decreases targets.len() - from,
{
    if 0 <= from < targets.len() {
        gathered_from_one_ruleset(index, targets, from + 1, c);
        let here = under(index, targets[from]);
        let later = gathered(index, targets, from + 1);
        assert forall|i: int| 0 <= i < (here + later).len() implies #[trigger] (here + later)[i]
            == c by {
            if i < here.len() {
                assert(here[i] == index[targets[from]][i]);
            } else {
                assert((here + later)[i] == later[i - here.len()]);
            }
        }
    }
}

/// Where the store holds one ruleset only and the host name finds it, that
/// ruleset alone decides the rewrite.
pub proof fn sole_ruleset_decides(
    index: Map<Seq<char>, Seq<CandidateView>>,
    host: Seq<char>,
    url: Seq<char>,
    c: CandidateView,
)
    requires
        holds_only(index, c),
        finds(index, host, c),
    ensures
        first_rewrite(candidates_of(index, host), url, 0) == ruleset_rewrite(c, url),
{
    let targets = lookup_targets(host);
    let found = candidates_of(index, host);
    let k = choose|k: int| 0 <= k < targets.len() && under(index, #[trigger] targets[k]).contains(c);
    gathered_holds_each_target(index, targets, 0, k, c);
    gathered_from_one_ruleset(index, targets, 0, c);
    assert(found.len() > 0);
    assert(found[0] == c);
    if ruleset_rewrite(c, url) is None {
        assert forall|i: int| 0 <= i < found.len() implies ruleset_rewrite(
            #[trigger] found[i],
            url,
        ) is None by {
            assert(found[i] == c);
        }
        unproductive_candidates_rewrite_nothing(found, url, 0);
    }
}

/// A session whose store holds one ruleset only, which begins with the plain
/// upgrade rule and has a target that the URL's host is looked up under,
/// rewrites an insecure URL of that host to its `https:` form, where that
/// form is a URL as it stands, unless the chain has recently been there.
pub proof fn sole_upgrade_ruleset_rewrites(
    index: Map<Seq<char>, Seq<CandidateView>>,
    c: CandidateView,
    settings: Settings,
    url: Seq<char>,
    rest: Seq<char>,
    history: Seq<Seq<char>>,
)
    requires
        settings.global_enabled,
        begins_with_upgrade(c),
        holds_only(index, c),
        parsed_address(url) matches Some(a) && a.scheme == "http"@ && a.text == "http:"@ + rest && (
        a.host matches Some(h) && finds(index, lookup_name(h), c)),
        destination("https:"@ + rest) == Some("https:"@ + rest),
        !recently_seen(history, "https:"@ + rest),
    ensures
        verdict_of(Some(index), settings, url, history) == VerdictView::RewriteUrl(
            "https:"@ + rest,
        ),
{
    reveal_strlit("http:");
    reveal_strlit("https:");
    reveal_strlit("http");
    reveal_strlit("https");
    let a = parsed_address(url).unwrap();
    let h = a.host.unwrap();
    sole_ruleset_decides(index, lookup_name(h), a.text, c);
    plain_upgrade_applies(c, rest);
    assert("http"@.len() != "https"@.len());
    assert(("http:"@ + rest).len() != ("https:"@ + rest).len());
}

} // verus!
