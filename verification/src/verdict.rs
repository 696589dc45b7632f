//! The outcome of a rewrite, in its full form and in the two-way form handed
//! to embedding hosts.

use vstd::prelude::*;
use vstd::std_specs::convert::FromSpecImpl;

verus! {

/// The outcome of one rewrite evaluation. Exactly one variant holds.
#[derive(Clone, Debug, PartialEq, Eq)]
pub enum Verdict {
    /// No rule applied, or rewriting is switched off.
    NoOp,
    /// The request should go to this URL instead.
    RewriteUrl(String),
    /// Strict mode is on and no secure equivalent exists.
    CancelRequest,
    /// Rewriting would not converge.
    RedirectLoopWarning,
}

/// Mathematical model of a [`Verdict`].
pub ghost enum VerdictView {
    NoOp,
    RewriteUrl(Seq<char>),
    CancelRequest,
    RedirectLoopWarning,
}

impl View for Verdict {
    type V = VerdictView;

    open spec fn view(&self) -> VerdictView {
        match self {
            Verdict::NoOp => VerdictView::NoOp,
            Verdict::RewriteUrl(u) => VerdictView::RewriteUrl(u@),
            Verdict::CancelRequest => VerdictView::CancelRequest,
            Verdict::RedirectLoopWarning => VerdictView::RedirectLoopWarning,
        }
    }
}

/// What an embedding host is told to do. Each verdict has an action of its
/// own.
#[derive(Clone, Copy, Debug, PartialEq, Eq, Structural)]
pub enum RewriteActionEnum {
    /// Let the request pass as it is.
    NoOp,
    /// Send the request to the new URL.
    RewriteUrl,
    /// Cancel the request.
    CancelRequest,
    /// Rewriting would loop; the host decides whether to go on.
    RedirectLoopWarning,
}

/// The answer handed to an embedding host: an action and, for a rewrite,
/// the new URL (empty otherwise).
#[derive(Clone, Debug, PartialEq, Eq)]
pub struct RewriteResult {
    pub action: RewriteActionEnum,
    pub new_url: String,
}

impl View for RewriteResult {
    type V = (RewriteActionEnum, Seq<char>);

    open spec fn view(&self) -> (RewriteActionEnum, Seq<char>) {
        (self.action, self.new_url@)
    }
}

/// The action that goes with a verdict, which is its own.
pub open spec fn action_for(v: VerdictView) -> RewriteActionEnum {
    match v {
        VerdictView::NoOp => RewriteActionEnum::NoOp,
        VerdictView::RewriteUrl(_) => RewriteActionEnum::RewriteUrl,
        VerdictView::CancelRequest => RewriteActionEnum::CancelRequest,
        VerdictView::RedirectLoopWarning => RewriteActionEnum::RedirectLoopWarning,
    }
}

/// The URL that goes with a verdict, which is that of a rewrite and the
/// empty text for every other verdict.
pub open spec fn url_for(v: VerdictView) -> Seq<char> {
    match v {
        VerdictView::RewriteUrl(u) => u,
        _ => Seq::<char>::empty(),
    }
}

/// The answer that goes with a verdict, made of its action and its URL.
pub open spec fn answer_for(v: VerdictView) -> (RewriteActionEnum, Seq<char>) {
    (action_for(v), url_for(v))
}

/// The verdict that an answer stands for.
pub open spec fn verdict_in(answer: (RewriteActionEnum, Seq<char>)) -> VerdictView {
    match answer.0 {
        RewriteActionEnum::NoOp => VerdictView::NoOp,
        RewriteActionEnum::RewriteUrl => VerdictView::RewriteUrl(answer.1),
        RewriteActionEnum::CancelRequest => VerdictView::CancelRequest,
        RewriteActionEnum::RedirectLoopWarning => VerdictView::RedirectLoopWarning,
    }
}

impl RewriteResult {
    /// The answer that asks the host to do nothing.
    pub fn no_op() -> (r: RewriteResult)
        ensures
            r@ == (RewriteActionEnum::NoOp, Seq::<char>::empty()),
    {
        RewriteResult { action: RewriteActionEnum::NoOp, new_url: String::new() }
    }

    /// The answer that asks the host to cancel the request.
    pub fn cancel() -> (r: RewriteResult)
        ensures
            r@ == (RewriteActionEnum::CancelRequest, Seq::<char>::empty()),
    {
        RewriteResult { action: RewriteActionEnum::CancelRequest, new_url: String::new() }
    }

    /// The answer that warns the host of a redirect loop.
    pub fn loop_warning() -> (r: RewriteResult)
        ensures
            r@ == (RewriteActionEnum::RedirectLoopWarning, Seq::<char>::empty()),
    {
        RewriteResult { action: RewriteActionEnum::RedirectLoopWarning, new_url: String::new() }
    }
}

impl FromSpecImpl<Verdict> for RewriteResult {
    open spec fn obeys_from_spec() -> bool {
        false
    }

    open spec fn from_spec(v: Verdict) -> RewriteResult {
        arbitrary()
    }
}

impl From<Verdict> for RewriteResult {
    /// Turns a verdict into the answer for the host. No two verdicts give
    /// the same answer.
    fn from(v: Verdict) -> (r: RewriteResult)
        ensures
            r@ == answer_for(v@),
            verdict_in(r@) == v@,
    {
        match v {
            Verdict::CancelRequest => RewriteResult::cancel(),
            Verdict::NoOp => RewriteResult::no_op(),
            Verdict::RewriteUrl(new_url) => RewriteResult {
                action: RewriteActionEnum::RewriteUrl,
                new_url,
            },
            Verdict::RedirectLoopWarning => RewriteResult::loop_warning(),
        }
    }
}

} // verus!
