//! The redirect loop guard.

use vstd::prelude::*;
use vstd::string::StringExecFns;

verus! {

/// How many of the most recent URLs of a redirect chain the guard looks at.
pub const HISTORY_BOUND: usize = 5;

/// The texts of a redirect chain, oldest first.
pub open spec fn history_views(history: Seq<String>) -> Seq<Seq<char>> {
    Seq::new(history.len(), |i: int| history[i]@)
}

/// A redirect chain after one more URL: the URL is appended, and the eldest
/// entry leaves once [`HISTORY_BOUND`] entries are held.
pub open spec fn extended(chain: Seq<Seq<char>>, url: Seq<char>) -> Seq<Seq<char>> {
    if chain.len() < HISTORY_BOUND {
        chain.push(url)
    } else {
        chain.subrange(1, chain.len() as int).push(url)
    }
}

/// The most recent URLs of one redirect chain, oldest first. It never holds
/// more than [`HISTORY_BOUND`] of them.
pub struct RedirectChain {
    seen: Vec<String>,
}

impl View for RedirectChain {
    type V = Seq<Seq<char>>;

    closed spec fn view(&self) -> Seq<Seq<char>> {
        history_views(self.seen@)
    }
}

impl RedirectChain {
    /// The chain holds no more than [`HISTORY_BOUND`] URLs.
    pub closed spec fn well_formed(&self) -> bool {
        self.seen.len() <= HISTORY_BOUND
    }

    /// A chain that has seen nothing.
    pub fn new() -> (chain: RedirectChain)
        ensures
            chain.well_formed(),
            chain@ == Seq::<Seq<char>>::empty(),
    {
        let chain = RedirectChain { seen: Vec::new() };
        assert(chain@ =~= Seq::<Seq<char>>::empty());
        chain
    }

    /// How many URLs the chain holds.
    pub fn len(&self) -> (n: usize)
        ensures
            n == self@.len(),
            self.well_formed() ==> n <= HISTORY_BOUND,
    {
        self.seen.len()
    }

    /// Notes that the chain has been at `url`.
    pub fn record(&mut self, url: &str)
        requires
            old(self).well_formed(),
        ensures
            final(self).well_formed(),
            final(self)@ == extended(old(self)@, url@),
    {
        if self.seen.len() >= HISTORY_BOUND {
            self.seen.remove(0);
        }
        self.seen.push(String::from_str(url));
        assert(history_views(self.seen@) =~= extended(history_views(old(self).seen@), url@));
    }

    /// The URLs that the chain holds, oldest first.
    pub fn history(&self) -> (h: &Vec<String>)
        ensures
            history_views(h@) == self@,
            self.well_formed() ==> h.len() <= HISTORY_BOUND,
    {
        &self.seen
    }
}

/// Whether `url` is among the last [`HISTORY_BOUND`] entries of `history`.
pub open spec fn recently_seen(history: Seq<Seq<char>>, url: Seq<char>) -> bool {
    exists|i: int|
        0 <= i < history.len() && history.len() - i <= HISTORY_BOUND && #[trigger] history[i]
            == url
}

/// Whether going from `original` to `rewritten` fails to make progress: the
/// rewrite changes nothing, or it leads back to a URL that the chain has
/// recently been at.
pub open spec fn is_loop(original: Seq<char>, rewritten: Seq<char>, history: Seq<Seq<char>>) -> bool {
    rewritten == original || recently_seen(history, rewritten)
}

/// Decides whether a rewrite would loop. `history` holds the URLs of the
/// current redirect chain, oldest first; only its last [`HISTORY_BOUND`]
/// entries are read.
pub fn check(original: &str, rewritten: &str, history: &Vec<String>) -> (looping: bool)
    ensures
        looping == is_loop(original@, rewritten@, history_views(history@)),
{
    let target = String::from_str(rewritten);
    if target == String::from_str(original) {
        return true;
    }
    let n: usize = history.len();
    let start: usize = if n > HISTORY_BOUND {
        n - HISTORY_BOUND
    } else {
        0
    };
    let mut i: usize = start;
    while i < n
        invariant
            start <= i <= n,
            n == history.len(),
            n - start <= HISTORY_BOUND,
            start == 0 || n - start == HISTORY_BOUND,
            target@ == rewritten@,
            forall|j: int| start <= j < i ==> history_views(history@)[j] != rewritten@,
        decreases n - i,
    {
        if history[i] == target {
            assert(history_views(history@)[i as int] == rewritten@);
            return true;
        }
        i += 1;
    }
    false
}

} // verus!
