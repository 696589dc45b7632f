//! The session: one ruleset store, the fixed settings, and the entry points
//! that embedding hosts call.

use crate::address::{lookup_name, name_for_lookup, parse_address, parsed_address};
use crate::corpus::{check_corpus, well_formed_corpus, CorpusError};
use crate::engine::{carries_clean_url, null_free, settle, settled};
use crate::guard::{extended, history_views, RedirectChain};
use crate::json::{decode, decoded};
use crate::ruleset::CandidateView;
use crate::settings::{FixedSettings, Settings};
use crate::store::{build_store, candidates_for, candidates_of, loaded, targets_of};
use crate::verdict::{
    answer_for, verdict_in, RewriteActionEnum, RewriteResult, Verdict, VerdictView,
};
use https_everywhere_lib_core::RuleSets;
use vstd::prelude::*;

verus! {

/// For each target, the rulesets entered for it, in the order of entry.
pub type HostIndex = Map<Seq<char>, Seq<CandidateView>>;

/// A session. It holds no rulesets until [`initialize_client`] has
/// succeeded once.
pub struct HttpseClient {
    store: Option<RuleSets>,
    settings: FixedSettings,
}

impl View for HttpseClient {
    type V = Option<HostIndex>;

    /// Nothing for a session without rulesets, else what its store holds
    /// under each target.
    closed spec fn view(&self) -> Option<HostIndex> {
        match self.store {
            Some(store) => Some(targets_of(store)),
            None => None,
        }
    }
}

/// The settings that every session runs with: rewriting on, strict mode off.
pub open spec fn session_settings() -> Settings {
    Settings { global_enabled: true, strict: false }
}

/// The verdict for a URL: nothing to do for a session without rulesets, with
/// rewriting switched off, for text that is no URL and for a URL without a
/// host; else what the candidates of the host's lookup name settle on.
pub open spec fn verdict_of(
    index: Option<HostIndex>,
    settings: Settings,
    url: Seq<char>,
    history: Seq<Seq<char>>,
) -> VerdictView {
    match index {
        None => VerdictView::NoOp,
        Some(ix) => if !settings.global_enabled {
            VerdictView::NoOp
        } else {
            match parsed_address(url) {
                None => VerdictView::NoOp,
                Some(a) => match a.host {
                    None => VerdictView::NoOp,
                    Some(h) => settled(
                        settings.strict,
                        a,
                        candidates_of(ix, lookup_name(h)),
                        history,
                    ),
                },
            }
        },
    }
}

impl Default for HttpseClient {
    fn default() -> (c: HttpseClient)
        ensures
            c@ is None,
    {
        HttpseClient { store: None, settings: FixedSettings }
    }
}

impl HttpseClient {
    /// Whether the session holds rulesets.
    pub fn is_initialized(&self) -> (r: bool)
        ensures
            r == (self@ is Some),
    {
        self.store.is_some()
    }
}

/// Creates a session without rulesets.
pub fn new_client() -> (c: HttpseClient)
    ensures
        c@ is None,
{
    HttpseClient { store: None, settings: FixedSettings }
}

/// Whether a corpus, given as JSON text, is accepted, and why not: text that
/// is not JSON is refused, and so is JSON that is not a list of well-formed
/// rulesets.
pub open spec fn examined(text: Seq<char>) -> Result<(), CorpusError> {
    match decoded(text) {
        None => Err(CorpusError::NotJson),
        Some(tree) => if well_formed_corpus(tree) {
            Ok(())
        } else {
            Err(CorpusError::Malformed)
        },
    }
}

/// What a session holds after a corpus was offered to it: the rulesets of
/// the corpus and nothing else where the corpus is accepted, what it held
/// before where the corpus is refused.
pub open spec fn after_load(before: Option<HostIndex>, text: Seq<char>) -> Option<HostIndex> {
    if examined(text) is Ok {
        Some(loaded(text))
    } else {
        before
    }
}

/// Loads a corpus of rulesets, given as JSON text, into the session. The new
/// store replaces the one the session had. A corpus that is refused leaves
/// the session as it was.
pub fn load_corpus(client: &mut HttpseClient, rules: &str) -> (r: Result<(), CorpusError>)
    ensures
        r == examined(rules@),
        final(client)@ == after_load(old(client)@, rules@),
        r is Err ==> *final(client) == *old(client),
{
    match decode(rules) {
        None => Err(CorpusError::NotJson),
        Some(tree) => {
            if check_corpus(&tree) {
                client.store = Some(build_store(rules));
                Ok(())
            } else {
                Err(CorpusError::Malformed)
            }
        },
    }
}

/// Loads a corpus as [`load_corpus`] does and tells whether it was accepted.
pub fn initialize_client(client: &mut HttpseClient, rules: &str) -> (ok: bool)
    ensures
        ok == (examined(rules@) is Ok),
        final(client)@ == after_load(old(client)@, rules@),
        !ok ==> *final(client) == *old(client),
{
    match load_corpus(client, rules) {
        Ok(_) => true,
        Err(_) => false,
    }
}

/// Evaluates a URL under the given settings. `history` holds the URLs of the
/// redirect chain that led here, oldest first.
pub fn rewrite_with(
    client: &HttpseClient,
    settings: Settings,
    url: &str,
    history: &Vec<String>,
) -> (v: Verdict)
    ensures
        v@ == verdict_of(client@, settings, url@, history_views(history@)),
        carries_clean_url(v@),
{
    let store = match &client.store {
        None => {
            return Verdict::NoOp;
        },
        Some(store) => store,
    };
    if !settings.global_enabled {
        return Verdict::NoOp;
    }
    let address = match parse_address(url) {
        None => {
            return Verdict::NoOp;
        },
        Some(address) => address,
    };
    let candidates = match &address.host {
        None => {
            return Verdict::NoOp;
        },
        Some(host) => {
            let name = name_for_lookup(host.as_str());
            candidates_for(store, name.as_str())
        },
    };
    settle(settings.strict, &address, &candidates, history)
}

/// Evaluates a URL that was reached through the given redirect chain, under
/// the session's own settings.
pub fn rewrite_in_chain(client: &HttpseClient, url: &str, history: &Vec<String>) -> (v: Verdict)
    ensures
        v@ == verdict_of(client@, session_settings(), url@, history_views(history@)),
        carries_clean_url(v@),
{
    let settings = Settings::resolve(&client.settings);
    rewrite_with(client, settings, url, history)
}

/// Evaluates a URL that a redirect chain has arrived at, and notes the URL
/// in the chain.
pub fn follow(client: &HttpseClient, url: &str, chain: &mut RedirectChain) -> (v: Verdict)
    requires
        old(chain).well_formed(),
    ensures
        v@ == verdict_of(client@, session_settings(), url@, old(chain)@),
        carries_clean_url(v@),
        final(chain).well_formed(),
        final(chain)@ == extended(old(chain)@, url@),
{
    let v = rewrite_in_chain(client, url, chain.history());
    chain.record(url);
    v
}

/// Evaluates a URL that a redirect chain has arrived at, notes the URL in
/// the chain, and tells the host what to do. The answer names the verdict.
pub fn rewriter_follow_url(client: &HttpseClient, url: &str, chain: &mut RedirectChain) -> (r:
    RewriteResult)
    requires
        old(chain).well_formed(),
    ensures
        r@ == answer_for(verdict_of(client@, session_settings(), url@, old(chain)@)),
        verdict_in(r@) == verdict_of(client@, session_settings(), url@, old(chain)@),
        null_free(r@.1),
        final(chain).well_formed(),
        final(chain)@ == extended(old(chain)@, url@),
{
    RewriteResult::from(follow(client, url, chain))
}

/// Evaluates a URL on its own, outside any redirect chain, and tells the
/// host what to do. The answer names the verdict, so a rewrite that changes
/// nothing is answered with the loop warning, not with no-op. A session
/// without rulesets always answers with no-op.
pub fn rewriter_rewrite_url(client: &HttpseClient, url: &str) -> (r: RewriteResult)
    ensures
        r@ == answer_for(verdict_of(client@, session_settings(), url@, Seq::<Seq<char>>::empty())),
        verdict_in(r@) == verdict_of(client@, session_settings(), url@, Seq::<Seq<char>>::empty()),
        client@ is None ==> r@ == (RewriteActionEnum::NoOp, Seq::<char>::empty()),
        null_free(r@.1),
{
    let history: Vec<String> = Vec::new();
    assert(history_views(history@) =~= Seq::<Seq<char>>::empty());
    RewriteResult::from(rewrite_in_chain(client, url, &history))
}

} // verus!
