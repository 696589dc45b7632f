use httpse_client::engine::{
    apply_first, apply_rule, apply_rules, apply_ruleset, destination_of, is_excluded,
    is_null_free, is_sound, settle, upgrade_scheme, Applied,
};
use httpse_client::guard::{check, HISTORY_BOUND};
use httpse_client::address::{name_for_lookup, Address};
use httpse_client::ruleset::{Candidate, RewriteRule};
use httpse_client::{FixedSettings, RewriteActionEnum, RewriteResult, Settings, Verdict};

fn pattern(from: &str, to: &str) -> RewriteRule {
    RewriteRule::Pattern(from.to_string(), to.to_string())
}

fn candidate(exclusions: Option<&str>, rules: Vec<RewriteRule>) -> Candidate {
    Candidate {
        name: "Example".to_string(),
        active: true,
        exclusions: exclusions.map(|e| e.to_string()),
        rules,
    }
}

fn address(scheme: &str, host: &str, text: &str) -> Address {
    Address { scheme: scheme.to_string(), host: Some(host.to_string()), text: text.to_string() }
}

#[test]
fn fixed_storage_answers() {
    let mut storage = FixedSettings;
    assert_eq!(storage.get_bool("global_enabled".to_string()), Some(true));
    assert_eq!(storage.get_bool("http_nowhere_on".to_string()), Some(false));
    assert_eq!(storage.get_bool("anything_else".to_string()), None);
    assert_eq!(storage.get_bool("".to_string()), None);
    assert_eq!(storage.get_int("global_enabled".to_string()), None);
    assert_eq!(storage.get_string("global_enabled".to_string()), None);
    storage.set_bool("global_enabled".to_string(), false);
    storage.set_bool("http_nowhere_on".to_string(), true);
    storage.set_int("count".to_string(), 3);
    storage.set_string("name".to_string(), "value".to_string());
    assert_eq!(storage.get_bool("global_enabled".to_string()), Some(true));
    assert_eq!(storage.get_bool("http_nowhere_on".to_string()), Some(false));
    assert_eq!(storage.get_int("count".to_string()), None);
    assert_eq!(storage.get_string("name".to_string()), None);
}

#[test]
fn settings_resolved_from_fixed_storage() {
    let settings = Settings::resolve(&FixedSettings);
    assert_eq!(settings, Settings { global_enabled: true, strict: false });
}

#[test]
fn answer_for_each_verdict() {
    let r = RewriteResult::from(Verdict::NoOp);
    assert_eq!(r.action, RewriteActionEnum::NoOp);
    assert_eq!(r.new_url, "");
    let r = RewriteResult::from(Verdict::CancelRequest);
    assert_eq!(r.action, RewriteActionEnum::CancelRequest);
    assert_eq!(r.new_url, "");
    assert_eq!(r, RewriteResult::cancel());
    let r = RewriteResult::from(Verdict::RedirectLoopWarning);
    assert_eq!(r.action, RewriteActionEnum::RedirectLoopWarning);
    assert_eq!(r.new_url, "");
    assert_eq!(r, RewriteResult::loop_warning());
    assert_ne!(RewriteResult::cancel(), RewriteResult::no_op());
    assert_ne!(RewriteResult::loop_warning(), RewriteResult::no_op());
    assert_ne!(RewriteResult::loop_warning(), RewriteResult::cancel());
    let r = RewriteResult::from(Verdict::RewriteUrl("https://01.org/".to_string()));
    assert_eq!(r.action, RewriteActionEnum::RewriteUrl);
    assert_eq!(r.new_url, "https://01.org/");
    assert_eq!(RewriteResult::no_op(), RewriteResult::from(Verdict::NoOp));
}

#[test]
fn scheme_upgrade() {
    assert_eq!(upgrade_scheme("http://01.org/"), Some("https://01.org/".to_string()));
    assert_eq!(upgrade_scheme("http:"), Some("https:".to_string()));
    assert_eq!(upgrade_scheme("http://h\u{e9}.org/\u{1f600}"), Some("https://h\u{e9}.org/\u{1f600}".to_string()));
    assert_eq!(upgrade_scheme("https://01.org/"), None);
    assert_eq!(upgrade_scheme("ftp://01.org/"), None);
    assert_eq!(upgrade_scheme("http"), None);
    assert_eq!(upgrade_scheme(""), None);
    assert_eq!(upgrade_scheme("\u{e9}\u{e9}\u{e9}"), None);
}

#[test]
fn one_rule() {
    assert_eq!(
        apply_rule(&RewriteRule::Trivial, "http://01.org/"),
        Applied::Hit("https://01.org/".to_string())
    );
    assert_eq!(apply_rule(&RewriteRule::Trivial, "ftp://01.org/"), Applied::Miss);
    let rule = pattern("^http://www\\.0bin\\.net/", "https://0bin.net/");
    assert_eq!(
        apply_rule(&rule, "http://www.0bin.net/x"),
        Applied::Hit("https://0bin.net/x".to_string())
    );
    assert_eq!(apply_rule(&rule, "http://0bin.net/x"), Applied::Miss);
    assert_eq!(apply_rule(&pattern("^http://(", "https://"), "http://(/"), Applied::Broken);
}

#[test]
fn rules_in_declared_order() {
    let rules = vec![
        pattern("^http://www\\.example\\.org/", "https://example.org/"),
        pattern("^http://www\\.", "https://second."),
        RewriteRule::Trivial,
    ];
    assert_eq!(
        apply_rules(&rules, "http://www.example.org/a"),
        Some("https://example.org/a".to_string())
    );
    assert_eq!(
        apply_rules(&rules, "http://www.other.org/a"),
        Some("https://second.other.org/a".to_string())
    );
    assert_eq!(apply_rules(&rules, "http://other.org/a"), Some("https://other.org/a".to_string()));
    assert_eq!(apply_rules(&rules, "ftp://other.org/a"), None);
    assert_eq!(apply_rules(&Vec::new(), "http://other.org/a"), None);
}

#[test]
fn broken_rule_ends_the_scan() {
    let rules = vec![pattern("[", "x"), RewriteRule::Trivial];
    assert_eq!(apply_rules(&rules, "http://example.org/"), None);
    let rules = vec![RewriteRule::Trivial, pattern("[", "x")];
    assert_eq!(apply_rules(&rules, "http://example.org/"), Some("https://example.org/".to_string()));
}

#[test]
fn exclusions() {
    let c = candidate(Some("^http://example\\.org/a|/b$"), vec![RewriteRule::Trivial]);
    assert!(is_excluded(&c, "http://example.org/a/x"));
    assert!(is_excluded(&c, "http://example.org/x/b"));
    assert!(!is_excluded(&c, "http://example.org/x"));
    assert_eq!(apply_ruleset(&c, "http://example.org/a/x"), None);
    assert_eq!(apply_ruleset(&c, "http://example.org/x"), Some("https://example.org/x".to_string()));
    let c = candidate(None, vec![RewriteRule::Trivial]);
    assert!(!is_excluded(&c, "http://example.org/a/x"));
    let c = candidate(Some("("), vec![RewriteRule::Trivial]);
    assert!(is_excluded(&c, "http://example.org/"));
    assert_eq!(apply_ruleset(&c, "http://example.org/"), None);
    let c = candidate(Some(""), vec![RewriteRule::Trivial]);
    assert!(!is_excluded(&c, "http://example.org/"));
    assert_eq!(apply_ruleset(&c, "http://example.org/"), Some("https://example.org/".to_string()));
}

#[test]
fn inactive_ruleset_is_not_applied() {
    let mut c = candidate(None, vec![RewriteRule::Trivial]);
    c.active = false;
    assert_eq!(apply_ruleset(&c, "http://example.org/"), None);
}

#[test]
fn first_candidate_with_a_rewrite_wins() {
    let first = candidate(Some("/plain/"), vec![pattern("^http://example\\.org/", "https://one/")]);
    let second = candidate(None, vec![pattern("^http://example\\.org/", "https://two/")]);
    let third = candidate(None, vec![RewriteRule::Trivial]);
    let all = vec![first, second, third];
    assert_eq!(apply_first(&all, "http://example.org/a"), Some("https://one/a".to_string()));
    assert_eq!(
        apply_first(&all, "http://example.org/plain/a"),
        Some("https://two/plain/a".to_string())
    );
    assert_eq!(apply_first(&all, "http://other.org/a"), Some("https://other.org/a".to_string()));
    assert_eq!(apply_first(&all, "ftp://other.org/a"), None);
    assert_eq!(apply_first(&Vec::new(), "http://example.org/a"), None);
}

#[test]
fn repeated_candidates_rewrite_alike() {
    let one = vec![
        candidate(Some("/plain/"), vec![pattern("^http://example\\.org/", "https://one/")]),
        candidate(None, vec![RewriteRule::Trivial]),
    ];
    let mut two = one.clone();
    two.extend(one.clone());
    for url in ["http://example.org/a", "http://example.org/plain/a", "ftp://example.org/"] {
        assert_eq!(apply_first(&one, url), apply_first(&two, url));
    }
}

#[test]
fn loop_guard() {
    assert_eq!(HISTORY_BOUND, 5);
    assert!(check("http://a/", "http://a/", &Vec::new()));
    assert!(!check("http://a/", "https://a/", &Vec::new()));
    let mut history: Vec<String> = Vec::new();
    history.push("https://a/".to_string());
    assert!(check("http://a/", "https://a/", &history));
    for i in 0..4 {
        history.push(format!("http://hop{}/", i));
    }
    assert_eq!(history.len(), 5);
    assert!(check("http://a/", "https://a/", &history));
    history.push("http://hop4/".to_string());
    assert!(!check("http://a/", "https://a/", &history));
    assert!(check("http://a/", "http://hop0/", &history));
    assert!(check("http://a/", "http://hop4/", &history));
}

#[test]
fn settling_a_verdict() {
    let rules = vec![candidate(None, vec![RewriteRule::Trivial])];
    let plain = address("http", "example.org", "http://example.org/");
    let secure = address("https", "example.org", "https://example.org/");
    let other = address("ftp", "example.org", "ftp://example.org/");
    let seen = vec!["https://example.org/".to_string()];
    assert_eq!(
        settle(false, &plain, &rules, &Vec::new()),
        Verdict::RewriteUrl("https://example.org/".to_string())
    );
    assert_eq!(
        settle(true, &plain, &rules, &Vec::new()),
        Verdict::RewriteUrl("https://example.org/".to_string())
    );
    assert_eq!(settle(false, &plain, &rules, &seen), Verdict::RedirectLoopWarning);
    assert_eq!(settle(true, &secure, &rules, &Vec::new()), Verdict::NoOp);
    assert_eq!(settle(true, &other, &rules, &Vec::new()), Verdict::CancelRequest);
    assert_eq!(settle(false, &other, &rules, &Vec::new()), Verdict::NoOp);
    let socket = address("ws", "example.org", "ws://example.org/");
    assert_eq!(settle(true, &socket, &rules, &Vec::new()), Verdict::NoOp);
    assert_eq!(settle(false, &socket, &rules, &Vec::new()), Verdict::NoOp);
    assert_eq!(settle(true, &plain, &Vec::new(), &Vec::new()), Verdict::CancelRequest);
    assert_eq!(settle(false, &plain, &Vec::new(), &Vec::new()), Verdict::NoOp);
}

#[test]
fn ruleset_with_any_broken_pattern_is_unsound() {
    let c = candidate(None, vec![RewriteRule::Trivial, pattern("[", "x")]);
    assert!(!is_sound(&c));
    assert_eq!(apply_ruleset(&c, "http://example.org/"), None);
    let c = candidate(Some("("), vec![RewriteRule::Trivial]);
    assert!(!is_sound(&c));
    let c = candidate(Some("^http://a/"), vec![RewriteRule::Trivial, pattern("^http:", "https:")]);
    assert!(is_sound(&c));
    let c = candidate(None, Vec::new());
    assert!(is_sound(&c));
    assert_eq!(apply_ruleset(&c, "http://example.org/"), None);
}

#[test]
fn broken_ruleset_gives_way_to_the_next() {
    let all = vec![
        candidate(None, vec![pattern("^http://example\\.org/", "https://one/"), pattern("(", "x")]),
        candidate(None, vec![pattern("^http://example\\.org/", "https://two/")]),
    ];
    assert_eq!(apply_first(&all, "http://example.org/a"), Some("https://two/a".to_string()));
}

#[test]
fn null_characters() {
    assert!(is_null_free(""));
    assert!(is_null_free("https://example.org/"));
    assert!(is_null_free("h\u{e9}\u{1f600}"));
    assert!(!is_null_free("\0"));
    assert!(!is_null_free("https://example.org/\0"));
    assert!(!is_null_free("\u{e9}\0\u{e9}"));
}

#[test]
fn destination_is_the_normal_form() {
    assert_eq!(destination_of("https://example.org/"), Some("https://example.org/".to_string()));
    assert_eq!(destination_of("https://EXAMPLE.org"), Some("https://example.org/".to_string()));
    assert_eq!(destination_of("HTTPS://example.org/a/../b"), Some("https://example.org/b".to_string()));
    assert_eq!(destination_of("nonsense"), None);
    assert_eq!(destination_of(""), None);
    assert_eq!(destination_of("https://"), None);
}

#[test]
fn rewrite_that_is_no_url_is_dropped() {
    let rules = vec![candidate(None, vec![pattern("^http://example\\.org/", "nonsense")])];
    let plain = address("http", "example.org", "http://example.org/");
    assert_eq!(settle(false, &plain, &rules, &Vec::new()), Verdict::NoOp);
    assert_eq!(settle(true, &plain, &rules, &Vec::new()), Verdict::CancelRequest);
}

#[test]
fn rewrite_is_handed_out_in_normal_form() {
    let rules = vec![candidate(None, vec![pattern("^http://example\\.org/", "https://WWW.Example.org")])];
    let plain = address("http", "example.org", "http://example.org/");
    assert_eq!(
        settle(false, &plain, &rules, &Vec::new()),
        Verdict::RewriteUrl("https://www.example.org/".to_string())
    );
    let seen = vec!["https://www.example.org/".to_string()];
    assert_eq!(settle(false, &plain, &rules, &seen), Verdict::RedirectLoopWarning);
}

#[test]
fn host_lookup_name() {
    assert_eq!(name_for_lookup("example.org"), "example.org");
    assert_eq!(name_for_lookup("example.org."), "example.org");
    assert_eq!(name_for_lookup("example.org..."), "example.org");
    assert_eq!(name_for_lookup("a.b"), "a.b");
    assert_eq!(name_for_lookup("."), ".");
    assert_eq!(name_for_lookup(".."), ".");
    assert_eq!(name_for_lookup(""), ".");
    assert_eq!(name_for_lookup(".a"), ".a");
    assert_eq!(name_for_lookup("h\u{e9}."), "h\u{e9}");
}
