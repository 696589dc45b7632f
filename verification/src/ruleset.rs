//! The rulesets that a host lookup hands to the engine, as plain values.

use vstd::prelude::*;

verus! {

/// One rewrite rule of a ruleset.
#[derive(Clone, Debug, PartialEq, Eq)]
pub enum RewriteRule {
    /// The common rule that turns a leading `http:` into `https:`.
    Trivial,
    /// A pattern and the template that replaces its matches.
    Pattern(String, String),
}

/// Mathematical model of a [`RewriteRule`].
pub ghost enum RuleView {
    Trivial,
    Pattern(Seq<char>, Seq<char>),
}

impl View for RewriteRule {
    type V = RuleView;

    open spec fn view(&self) -> RuleView {
        match self {
            RewriteRule::Trivial => RuleView::Trivial,
            RewriteRule::Pattern(from, to) => RuleView::Pattern(from@, to@),
        }
    }
}

/// A ruleset whose targets could match the host that was looked up.
#[derive(Clone, Debug, PartialEq, Eq)]
pub struct Candidate {
    /// The ruleset's name.
    pub name: String,
    /// Whether the ruleset is switched on.
    pub active: bool,
    /// One pattern that stands for all exclusions, if the ruleset has any.
    pub exclusions: Option<String>,
    /// The rules in declared order.
    pub rules: Vec<RewriteRule>,
}

/// Mathematical model of a [`Candidate`].
pub ghost struct CandidateView {
    pub name: Seq<char>,
    pub active: bool,
    pub exclusions: Option<Seq<char>>,
    pub rules: Seq<RuleView>,
}

/// The models of a sequence of rules, in order.
pub open spec fn rule_views(rules: Seq<RewriteRule>) -> Seq<RuleView> {
    Seq::new(rules.len(), |i: int| rules[i]@)
}

/// The models of a sequence of candidates, in order.
pub open spec fn candidate_views(candidates: Seq<Candidate>) -> Seq<CandidateView> {
    Seq::new(candidates.len(), |i: int| candidates[i]@)
}

impl View for Candidate {
    type V = CandidateView;

    open spec fn view(&self) -> CandidateView {
        CandidateView {
            name: self.name@,
            active: self.active,
            exclusions: match self.exclusions {
                Some(p) => Some(p@),
                None => None,
            },
            rules: rule_views(self.rules@),
        }
    }
}

} // verus!
