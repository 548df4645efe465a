use proxymore::rules::{
    is_matchable, is_pattern, match_given, match_rules, pauses_request, pauses_response, Rule, RuleAction,
    RuleMatcher,
};

fn rule(matcher: RuleMatcher, pattern: Option<&str>, action: RuleAction) -> Rule {
    Rule { matcher, uri_pattern: pattern.map(|s| s.to_string()), action }
}

#[test]
fn matchers_take_their_method() {
    assert!(RuleMatcher::Any.matches("BREW", false));
    assert!(RuleMatcher::GET.matches("get", false));
    assert!(!RuleMatcher::GET.matches("POST", true));
    assert!(RuleMatcher::POST.matches("POST", false));
    assert!(RuleMatcher::PUT.matches("put", false));
    assert!(RuleMatcher::DELETE.matches("Delete", false));
    assert!(RuleMatcher::PATCH.matches("PATCH", false));
    assert!(RuleMatcher::HEAD.matches("HEAD", false));
    assert!(RuleMatcher::OPTIONS.matches("options", false));
    assert!(RuleMatcher::AnyWebsocket.matches("GET", true));
    assert!(!RuleMatcher::AnyWebsocket.matches("GET", false));
}

#[test]
fn lists_of_matchers_and_actions() {
    let words: Vec<String> = RuleMatcher::all().iter().map(|m| m.to_string()).collect();
    assert_eq!(
        words,
        vec!["ANY", "GET", "POST", "PUT", "DELETE", "PATCH", "HEAD", "OPTIONS", "WS"]
    );
    let words: Vec<String> = RuleAction::all().iter().map(|a| a.to_string()).collect();
    assert_eq!(words, vec!["Pass", "Edit Request", "Edit Response", "Edit Req+Res"]);
}

#[test]
fn patterns_take_their_uris() {
    let r = rule(
        RuleMatcher::GET,
        Some("https://example.com/*"),
        RuleAction::PauseToEditRequest,
    );
    assert!(r.matches("GET", "https://example.com/a", false));
    assert!(!r.matches("GET", "https://example.com/a/b", false));
    assert!(!r.matches("GET", "https://example.org/a", false));
    assert!(!r.matches("POST", "https://example.com/a", false));
    let r = rule(RuleMatcher::Any, Some("**/b"), RuleAction::PassToDestination);
    assert!(r.matches("GET", "https://example.com/a/b", false));
    let r = rule(RuleMatcher::Any, None, RuleAction::PassToDestination);
    assert!(r.matches("GET", "anything\\at all", false));
}

#[test]
fn rules_given_the_verdict() {
    let r = rule(RuleMatcher::GET, Some("x"), RuleAction::PassToDestination);
    assert!(r.matches_given("GET", false, true));
    assert!(!r.matches_given("GET", false, false));
    assert!(!r.matches_given("POST", false, true));
}

#[test]
fn rules_as_a_user_reads_them() {
    assert_eq!(
        rule(RuleMatcher::GET, Some("*.js"), RuleAction::PauseToEditResponse).to_string(),
        "GET *.js → Edit Response"
    );
    assert_eq!(rule(RuleMatcher::Any, None, RuleAction::PassToDestination).to_string(), "ANY → Pass");
}

#[test]
fn the_first_rule_decides() {
    let rules = vec![
        rule(RuleMatcher::POST, None, RuleAction::PauseToEditRequest),
        rule(RuleMatcher::Any, Some("http://a/*"), RuleAction::PauseToEditResponse),
        rule(RuleMatcher::Any, None, RuleAction::PassToDestination),
    ];
    assert_eq!(
        match_rules(&rules, "POST", "http://a/x", false),
        Some(RuleAction::PauseToEditRequest)
    );
    assert_eq!(
        match_rules(&rules, "GET", "http://a/x", false),
        Some(RuleAction::PauseToEditResponse)
    );
    assert_eq!(
        match_rules(&rules, "GET", "http://b/x", false),
        Some(RuleAction::PassToDestination)
    );
    assert_eq!(match_rules(&vec![], "GET", "http://b/x", false), None);
    assert_eq!(
        match_given(&rules, "GET", false, &vec![true, false, true]),
        Some(RuleAction::PassToDestination)
    );
    assert_eq!(
        match_given(&rules, "GET", false, &vec![false, true, false]),
        Some(RuleAction::PauseToEditResponse)
    );
}

#[test]
fn actions_hold_their_side() {
    assert!(!pauses_request(&None));
    assert!(!pauses_response(&None));
    assert!(!pauses_request(&Some(RuleAction::PassToDestination)));
    assert!(pauses_request(&Some(RuleAction::PauseToEditRequest)));
    assert!(!pauses_response(&Some(RuleAction::PauseToEditRequest)));
    assert!(pauses_response(&Some(RuleAction::PauseToEditResponse)));
    assert!(pauses_request(&Some(RuleAction::PauseToEditRequestAndResponse)));
    assert!(pauses_response(&Some(RuleAction::PauseToEditRequestAndResponse)));
    assert!(is_matchable("http://a/"));
}

#[test]
fn plain_patterns_take_themselves() {
    let r = rule(RuleMatcher::Any, Some("http://a/x"), RuleAction::PassToDestination);
    assert!(r.matches("GET", "http://a/x", false));
    assert!(!r.matches("GET", "http://a/x/", false));
    assert!(!r.matches("GET", "http://a/", false));
    let r = rule(RuleMatcher::Any, Some("a,b}]é"), RuleAction::PassToDestination);
    assert!(r.matches("GET", "a,b}]é", false));
    let r = rule(RuleMatcher::Any, Some(""), RuleAction::PassToDestination);
    assert!(r.matches("GET", "", false));
    assert!(!r.matches("GET", "a", false));
    let r = rule(RuleMatcher::Any, Some("!http://a/x"), RuleAction::PassToDestination);
    assert!(!r.matches("GET", "http://a/x", false));
    assert!(r.matches("GET", "http://b/x", false));
}

#[test]
fn patterns_that_can_be_matched() {
    for s in ["", "*", "**", "a/**/b", "{a,b}", "{a*,b}*", "**/{a,b*}", "https://{a,b}.com/**", "[{]a", "\\{/a,*"] {
        assert!(is_pattern(s), "{s}");
    }
    for s in ["{/**/a,*b}", "http://a.b{/**/c,*d}", "{a*,b}/**", "[}]{a}**", "\\{**", "{{a}**}"] {
        assert!(!is_pattern(s), "{s}");
    }
    assert!(!rule(RuleMatcher::Any, Some("{/**/a,*b}"), RuleAction::PassToDestination).is_usable());
    assert!(rule(RuleMatcher::Any, Some("{a,b}/**"), RuleAction::PassToDestination).is_usable());
    assert!(rule(RuleMatcher::Any, None, RuleAction::PassToDestination).is_usable());
    let r = rule(RuleMatcher::Any, Some("https://{a,b}.com/**"), RuleAction::PassToDestination);
    assert!(r.matches("GET", "https://b.com/x/y", false));
    assert!(!r.matches("GET", "https://c.com/x/y", false));
}

#[test]
fn patterns_only_narrow() {
    for uri in ["http://a/x", "http://b/", ""] {
        let narrow = rule(RuleMatcher::GET, Some("http://a/*"), RuleAction::PassToDestination);
        let twin = rule(RuleMatcher::GET, Some("http://a/*"), RuleAction::PauseToEditRequest);
        let wide = rule(RuleMatcher::GET, None, RuleAction::PauseToEditResponse);
        assert!(!narrow.matches("GET", uri, false) || wide.matches("GET", uri, false));
        assert_eq!(narrow.matches("GET", uri, false), twin.matches("GET", uri, false));
    }
}
