//! A session-oriented HTTPS upgrade engine.
//!
//! A session owns a store of rulesets indexed by target host. For every
//! outgoing URL it answers in one of four ways, which are to leave the request
//! alone, to send it to a secure equivalent, to cancel it, or to warn that
//! rewriting would loop.
//!
//! The store and its host index, JSON decoding, regular expressions and URL
//! parsing are provided by other crates and reached through a small number of
//! wrappers whose contracts are taken on trust; everything that decides a
//! verdict is verified.

pub mod address;
pub mod client;
pub mod corpus;
pub mod engine;
pub mod guard;
pub mod json;
pub mod laws;
pub mod pattern;
pub mod ruleset;
pub mod settings;
pub mod store;
pub mod targets;
pub mod verdict;

pub use client::{
    follow, initialize_client, load_corpus, new_client, rewrite_in_chain, rewrite_with,
    rewriter_follow_url, rewriter_rewrite_url, HttpseClient,
};
pub use corpus::CorpusError;
pub use guard::RedirectChain;
pub use settings::{FixedSettings, Settings};
pub use verdict::{RewriteActionEnum, RewriteResult, Verdict, VerdictView};
