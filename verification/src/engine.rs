//! Rule application: from the candidates of a host and a URL to a verdict.

use crate::address::{parse_address, parsed_address, Address, AddressView};
use crate::guard::{check, history_views, is_loop};
use crate::pattern::{
    compiles, is_match, pattern_compiles, pattern_matches, pattern_replaced, replace_all,
};
use crate::ruleset::{candidate_views, rule_views, Candidate, CandidateView, RewriteRule, RuleView};
use crate::verdict::{Verdict, VerdictView};
use vstd::prelude::*;
use vstd::string::{StrSliceExecFns, StringExecFns};

verus! {

/// The text of an optional string.
pub open spec fn text_of(o: Option<String>) -> Option<Seq<char>> {
    match o {
        Some(s) => Some(s@),
        None => None,
    }
}

/// A URL that begins with `http:` with that prefix replaced by `https:`;
/// nothing for any other text.
pub open spec fn upgraded(url: Seq<char>) -> Option<Seq<char>> {
    if url.len() >= 5 && url.subrange(0, 5) == "http:"@ {
        Some("https:"@ + url.subrange(5, url.len() as int))
    } else {
        None
    }
}

/// What one rule does to a URL.
pub ghost enum RuleOutcome {
    /// The rule's pattern does not compile.
    Broken,
    /// The rule does not match.
    Miss,
    /// The rule matches and gives this URL.
    Hit(Seq<char>),
}

/// What one rule does to a URL.
#[derive(Clone, Debug, PartialEq, Eq)]
pub enum Applied {
    /// The rule's pattern does not compile.
    Broken,
    /// The rule does not match.
    Miss,
    /// The rule matches and gives this URL.
    Hit(String),
}

impl View for Applied {
    type V = RuleOutcome;

    open spec fn view(&self) -> RuleOutcome {
        match self {
            Applied::Broken => RuleOutcome::Broken,
            Applied::Miss => RuleOutcome::Miss,
            Applied::Hit(u) => RuleOutcome::Hit(u@),
        }
    }
}

/// The outcome of one rule on a URL.
pub open spec fn rule_outcome(rule: RuleView, url: Seq<char>) -> RuleOutcome {
    match rule {
        RuleView::Trivial => match upgraded(url) {
            Some(u) => RuleOutcome::Hit(u),
            None => RuleOutcome::Miss,
        },
        RuleView::Pattern(from, to) => if !pattern_compiles(from) {
            RuleOutcome::Broken
        } else if pattern_matches(from, url) {
            RuleOutcome::Hit(pattern_replaced(from, url, to))
        } else {
            RuleOutcome::Miss
        },
    }
}

/// The rewrite that the rules from position `from` on produce: that of the
/// first rule that matches. A rule whose pattern does not compile ends the
/// scan with nothing; in a ruleset that is applied there is no such rule.
pub open spec fn scan_rules(rules: Seq<RuleView>, url: Seq<char>, from: int) -> Option<Seq<char>>
    decreases rules.len() - from,
{
    if from < 0 || from >= rules.len() {
        None
    } else {
        match rule_outcome(rules[from], url) {
            RuleOutcome::Hit(u) => Some(u),
            RuleOutcome::Broken => None,
            RuleOutcome::Miss => scan_rules(rules, url, from + 1),
        }
    }
}

/// Whether a ruleset's exclusions keep it from a URL. An empty pattern
/// stands for an empty list of exclusions and keeps the ruleset from nothing
/// (no corpus that is accepted holds an empty exclusion); a pattern that does
/// not compile keeps it from every URL.
pub open spec fn excluded(c: CandidateView, url: Seq<char>) -> bool {
    match c.exclusions {
        None => false,
        Some(p) => p.len() > 0 && (!pattern_compiles(p) || pattern_matches(p, url)),
    }
}

/// Whether a rule can be used: the plain upgrade always, another rule when
/// its pattern compiles.
pub open spec fn rule_sound(rule: RuleView) -> bool {
    match rule {
        RuleView::Trivial => true,
        RuleView::Pattern(from, _) => pattern_compiles(from),
    }
}

/// Whether every rule of a sequence can be used.
pub open spec fn rules_sound(rules: Seq<RuleView>) -> bool {
    forall|i: int| 0 <= i < rules.len() ==> rule_sound(#[trigger] rules[i])
}

/// Whether a ruleset can be used: its exclusions, if any, and the patterns
/// of all its rules compile.
pub open spec fn ruleset_sound(c: CandidateView) -> bool {
    &&& match c.exclusions {
        None => true,
        Some(p) => pattern_compiles(p),
    }
    &&& rules_sound(c.rules)
}

/// The rewrite that one ruleset produces for a URL, if any: none when the
/// ruleset is switched off, holds a pattern that does not compile, or is
/// excluded; else that of its first matching rule.
pub open spec fn ruleset_rewrite(c: CandidateView, url: Seq<char>) -> Option<Seq<char>> {
    if !c.active || !ruleset_sound(c) || excluded(c, url) {
        None
    } else {
        scan_rules(c.rules, url, 0)
    }
}

/// The rewrite of the first candidate from position `from` on that produces
/// one.
pub open spec fn first_rewrite(candidates: Seq<CandidateView>, url: Seq<char>, from: int) -> Option<
    Seq<char>,
>
    decreases candidates.len() - from,
{
    if from < 0 || from >= candidates.len() {
        None
    } else {
        match ruleset_rewrite(candidates[from], url) {
            Some(u) => Some(u),
            None => first_rewrite(candidates, url, from + 1),
        }
    }
}

/// Whether a text is free of NUL characters.
pub open spec fn null_free(text: Seq<char>) -> bool {
    forall|i: int| 0 <= i < text.len() ==> #[trigger] text[i] != '\0'
}

/// The URL that a rewritten text stands for: its normalised form, if it
/// parses as a URL and holds no NUL character; nothing otherwise.
pub open spec fn destination(rewritten: Seq<char>) -> Option<Seq<char>> {
    match parsed_address(rewritten) {
        Some(a) => if null_free(a.text) {
            Some(a.text)
        } else {
            None
        },
        None => None,
    }
}

/// The URL that the candidates send a URL to, if any: the destination of the
/// first rewrite.
pub open spec fn rewrite_target(candidates: Seq<CandidateView>, url: Seq<char>) -> Option<
    Seq<char>,
> {
    match first_rewrite(candidates, url, 0) {
        Some(u) => destination(u),
        None => None,
    }
}

/// Whether a scheme is one that strict mode does not let pass: `http` or
/// `ftp`.
pub open spec fn insecure_scheme(scheme: Seq<char>) -> bool {
    scheme == "http"@ || scheme == "ftp"@
}

/// The verdict where no rewrite is at hand: strict mode cancels a request
/// with an insecure scheme, every other request passes.
pub open spec fn unrewritten(strict: bool, scheme: Seq<char>) -> VerdictView {
    if strict && insecure_scheme(scheme) {
        VerdictView::CancelRequest
    } else {
        VerdictView::NoOp
    }
}

/// The verdict for a parsed URL, given the candidates of its host: nothing
/// to do for a URL that is secure already; else the target of the first
/// rewrite, unless going there would loop; else what holds without a
/// rewrite.
pub open spec fn settled(
    strict: bool,
    address: AddressView,
    candidates: Seq<CandidateView>,
    history: Seq<Seq<char>>,
) -> VerdictView {
    if address.scheme == "https"@ {
        VerdictView::NoOp
    } else {
        match rewrite_target(candidates, address.text) {
            Some(u) => if is_loop(address.text, u, history) {
                VerdictView::RedirectLoopWarning
            } else {
                VerdictView::RewriteUrl(u)
            },
            None => unrewritten(strict, address.scheme),
        }
    }
}

/// Every URL that a verdict carries is free of NUL characters.
pub open spec fn carries_clean_url(v: VerdictView) -> bool {
    match v {
        VerdictView::RewriteUrl(u) => null_free(u),
        _ => true,
    }
}

/// Tests a text for NUL characters.
pub fn is_null_free(text: &str) -> (r: bool)
    ensures
        r == null_free(text@),
{
    let n: usize = text.unicode_len();
    let plain: bool = text.is_ascii();
    let mut i: usize = 0;
    while i < n
        invariant
            i <= n,
            n == text@.len(),
            plain == text.is_ascii(),
            forall|j: int| 0 <= j < i ==> #[trigger] text@[j] != '\0',
        decreases n - i,
    {
        if plain {
            let b: u8 = text.get_ascii(i);
            assert('\0' <= text@[i as int] <= '\u{7f}');
            if b == 0 {
                return false;
            }
        } else if text.get_char(i) == '\0' {
            return false;
        }
        i += 1;
    }
    true
}

/// Turns a rewritten text into the URL it stands for.
pub fn destination_of(rewritten: &str) -> (r: Option<String>)
    ensures
        text_of(r) == destination(rewritten@),
{
    match parse_address(rewritten) {
        Some(a) => {
            if is_null_free(a.text.as_str()) {
                Some(a.text)
            } else {
                None
            }
        },
        None => None,
    }
}

/// Replaces a leading `http:` by `https:`.
pub fn upgrade_scheme(url: &str) -> (r: Option<String>)
    ensures
        text_of(r) == upgraded(url@),
{
    let n: usize = url.unicode_len();
    if n < 5 {
        return None;
    }
    let head = String::from_str(url.substring_char(0, 5));
    if head == String::from_str("http:") {
        let mut out = String::from_str("https:");
        out.append(url.substring_char(5, n));
        Some(out)
    } else {
        None
    }
}

/// Applies one rule to a URL.
pub fn apply_rule(rule: &RewriteRule, url: &str) -> (r: Applied)
    ensures
        r@ == rule_outcome(rule@, url@),
{
    match rule {
        RewriteRule::Trivial => match upgrade_scheme(url) {
            Some(u) => Applied::Hit(u),
            None => Applied::Miss,
        },
        RewriteRule::Pattern(from, to) => match is_match(from.as_str(), url) {
            None => Applied::Broken,
            Some(false) => Applied::Miss,
            Some(true) => match replace_all(from.as_str(), url, to.as_str()) {
                Some(u) => Applied::Hit(u),
                None => Applied::Broken,
            },
        },
    }
}

/// Scans rules in declared order and applies the first that matches.
pub fn apply_rules(rules: &Vec<RewriteRule>, url: &str) -> (r: Option<String>)
    ensures
        text_of(r) == scan_rules(rule_views(rules@), url@, 0),
{
    let mut i: usize = 0;
    while i < rules.len()
        invariant
            i <= rules.len(),
            scan_rules(rule_views(rules@), url@, 0) == scan_rules(
                rule_views(rules@),
                url@,
                i as int,
            ),
        decreases rules.len() - i,
    {
        match apply_rule(&rules[i], url) {
            Applied::Hit(u) => {
                return Some(u);
            },
            Applied::Broken => {
                return None;
            },
            Applied::Miss => {},
        }
        i += 1;
    }
    None
}

/// Tests a URL against a ruleset's exclusions.
pub fn is_excluded(candidate: &Candidate, url: &str) -> (r: bool)
    ensures
        r == excluded(candidate@, url@),
{
    match &candidate.exclusions {
        None => false,
        Some(p) => {
            if p.as_str().is_empty() {
                false
            } else {
                match is_match(p.as_str(), url) {
                    Some(false) => false,
                    _ => true,
                }
            }
        },
    }
}

/// Tests whether every pattern of a ruleset compiles.
pub fn is_sound(candidate: &Candidate) -> (r: bool)
    ensures
        r == ruleset_sound(candidate@),
{
    match &candidate.exclusions {
        None => {},
        Some(p) => {
            if !compiles(p.as_str()) {
                return false;
            }
        },
    }
    let mut i: usize = 0;
    while i < candidate.rules.len()
        invariant
            i <= candidate.rules.len(),
            match candidate@.exclusions {
                None => true,
                Some(p) => pattern_compiles(p),
            },
            forall|j: int| 0 <= j < i ==> rule_sound(#[trigger] candidate@.rules[j]),
        decreases candidate.rules.len() - i,
    {
        match &candidate.rules[i] {
            RewriteRule::Trivial => {},
            RewriteRule::Pattern(from, _) => {
                if !compiles(from.as_str()) {
                    assert(!rule_sound(candidate@.rules[i as int]));
                    return false;
                }
            },
        }
        i += 1;
    }
    true
}

/// Applies one ruleset to a URL.
pub fn apply_ruleset(candidate: &Candidate, url: &str) -> (r: Option<String>)
    ensures
        text_of(r) == ruleset_rewrite(candidate@, url@),
{
    if !candidate.active || !is_sound(candidate) || is_excluded(candidate, url) {
        None
    } else {
        apply_rules(&candidate.rules, url)
    }
}

/// Tries the candidates in order; the first that produces a rewrite wins.
pub fn apply_first(candidates: &Vec<Candidate>, url: &str) -> (r: Option<String>)
    ensures
        text_of(r) == first_rewrite(candidate_views(candidates@), url@, 0),
{
    let mut i: usize = 0;
    while i < candidates.len()
        invariant
            i <= candidates.len(),
            first_rewrite(candidate_views(candidates@), url@, 0) == first_rewrite(
                candidate_views(candidates@),
                url@,
                i as int,
            ),
        decreases candidates.len() - i,
    {
        match apply_ruleset(&candidates[i], url) {
            Some(u) => {
                return Some(u);
            },
            None => {},
        }
        i += 1;
    }
    None
}

/// Settles the verdict for a parsed URL, given the candidates of its host
/// and the URLs of the redirect chain so far.
pub fn settle(strict: bool, address: &Address, candidates: &Vec<Candidate>, history: &Vec<String>) -> (v:
    Verdict)
    ensures
        v@ == settled(strict, address@, candidate_views(candidates@), history_views(history@)),
        carries_clean_url(v@),
{
    if address.scheme == String::from_str("https") {
        return Verdict::NoOp;
    }
    let target = match apply_first(candidates, address.text.as_str()) {
        Some(u) => destination_of(u.as_str()),
        None => None,
    };
    match target {
        Some(u) => {
            if check(address.text.as_str(), u.as_str(), history) {
                Verdict::RedirectLoopWarning
            } else {
                Verdict::RewriteUrl(u)
            }
        },
        None => {
            if strict && (address.scheme == String::from_str("http") || address.scheme
                == String::from_str("ftp")) {
                Verdict::CancelRequest
            } else {
                Verdict::NoOp
            }
        },
    }
}

} // verus!
