//! Rules: which requests and responses are held back for editing.
use vstd::prelude::*;
use vstd::string::*;
use vstd::utf8::*;

use crate::text;

verus! {

broadcast use vstd::string::group_string_axioms;

/// What a rule asks of a request's kind.
#[derive(Clone, Copy, Debug, PartialEq, Eq, Structural)]
pub enum RuleMatcher {
    Any,
    POST,
    GET,
    PUT,
    DELETE,
    PATCH,
    HEAD,
    OPTIONS,
    AnyWebsocket,
}

impl RuleMatcher {
    /// The word by which a user knows the matcher; for a method, the method itself.
    pub open spec fn word(self) -> Seq<char> {
        match self {
            RuleMatcher::Any => "ANY"@,
            RuleMatcher::POST => "POST"@,
            RuleMatcher::GET => "GET"@,
            RuleMatcher::PUT => "PUT"@,
            RuleMatcher::DELETE => "DELETE"@,
            RuleMatcher::PATCH => "PATCH"@,
            RuleMatcher::HEAD => "HEAD"@,
            RuleMatcher::OPTIONS => "OPTIONS"@,
            RuleMatcher::AnyWebsocket => "WS"@,
        }
    }

    /// Whether the matcher takes a request: `Any` takes all, `AnyWebsocket` the upgrades to
    /// WebSocket, each of the others the requests with its method, in any case of letters.
    pub open spec fn accepts(self, method: Seq<char>, is_websocket: bool) -> bool {
        match self {
            RuleMatcher::Any => true,
            RuleMatcher::AnyWebsocket => is_websocket,
            _ => text::same_ignoring_case(method, self.word()),
        }
    }

    /// All matchers, in the order in which they are offered.
    pub open spec fn offered() -> Seq<RuleMatcher> {
        seq![
            RuleMatcher::Any,
            RuleMatcher::GET,
            RuleMatcher::POST,
            RuleMatcher::PUT,
            RuleMatcher::DELETE,
            RuleMatcher::PATCH,
            RuleMatcher::HEAD,
            RuleMatcher::OPTIONS,
            RuleMatcher::AnyWebsocket,
        ]
    }

    /// All matchers, in the order in which they are offered.
    pub fn all() -> (r: Vec<RuleMatcher>)
        ensures
            r@ == Self::offered(),
            r@ == seq![
                RuleMatcher::Any,
                RuleMatcher::GET,
                RuleMatcher::POST,
                RuleMatcher::PUT,
                RuleMatcher::DELETE,
                RuleMatcher::PATCH,
                RuleMatcher::HEAD,
                RuleMatcher::OPTIONS,
                RuleMatcher::AnyWebsocket,
            ],
    {
        vec![
            RuleMatcher::Any,
            RuleMatcher::GET,
            RuleMatcher::POST,
            RuleMatcher::PUT,
            RuleMatcher::DELETE,
            RuleMatcher::PATCH,
            RuleMatcher::HEAD,
            RuleMatcher::OPTIONS,
            RuleMatcher::AnyWebsocket,
        ]
    }

    fn label(&self) -> (r: &'static str)
        ensures
            r@ == self.word(),
    {
        match self {
            RuleMatcher::Any => "ANY",
            RuleMatcher::POST => "POST",
            RuleMatcher::GET => "GET",
            RuleMatcher::PUT => "PUT",
            RuleMatcher::DELETE => "DELETE",
            RuleMatcher::PATCH => "PATCH",
            RuleMatcher::HEAD => "HEAD",
            RuleMatcher::OPTIONS => "OPTIONS",
            RuleMatcher::AnyWebsocket => "WS",
        }
    }

    /// Whether the matcher takes a request.
    pub fn matches(&self, method: &str, is_websocket: bool) -> (r: bool)
        ensures
            r == self.accepts(method@, is_websocket),
    {
        match self {
            RuleMatcher::Any => true,
            RuleMatcher::AnyWebsocket => is_websocket,
            _ => text::matches_ignoring_case(method, self.label()),
        }
    }

    /// The matcher's word.
    pub fn to_string(&self) -> (r: String)
        ensures
            r@ == self.word(),
    {
        self.label().to_owned()
    }
}

/// What happens to the traffic that a rule takes.
#[derive(Clone, Copy, Debug, PartialEq, Eq, Structural)]
pub enum RuleAction {
    PassToDestination,
    PauseToEditRequest,
    PauseToEditResponse,
    PauseToEditRequestAndResponse,
}

impl RuleAction {
    /// The words by which a user knows the action.
    pub open spec fn words(self) -> Seq<char> {
        match self {
            RuleAction::PassToDestination => "Pass"@,
            RuleAction::PauseToEditRequest => "Edit Request"@,
            RuleAction::PauseToEditResponse => "Edit Response"@,
            RuleAction::PauseToEditRequestAndResponse => "Edit Req+Res"@,
        }
    }

    /// All actions, in the order in which they are offered.
    pub open spec fn offered() -> Seq<RuleAction> {
        seq![
            RuleAction::PassToDestination,
            RuleAction::PauseToEditRequest,
            RuleAction::PauseToEditResponse,
            RuleAction::PauseToEditRequestAndResponse,
        ]
    }

    /// All actions, in the order in which they are offered.
    pub fn all() -> (r: Vec<RuleAction>)
        ensures
            r@ == Self::offered(),
            r@ == seq![
                RuleAction::PassToDestination,
                RuleAction::PauseToEditRequest,
                RuleAction::PauseToEditResponse,
                RuleAction::PauseToEditRequestAndResponse,
            ],
    {
        vec![
            RuleAction::PassToDestination,
            RuleAction::PauseToEditRequest,
            RuleAction::PauseToEditResponse,
            RuleAction::PauseToEditRequestAndResponse,
        ]
    }

    fn label(&self) -> (r: &'static str)
        ensures
            r@ == self.words(),
    {
        match self {
            RuleAction::PassToDestination => "Pass",
            RuleAction::PauseToEditRequest => "Edit Request",
            RuleAction::PauseToEditResponse => "Edit Response",
            RuleAction::PauseToEditRequestAndResponse => "Edit Req+Res",
        }
    }

    /// The action's words.
    pub fn to_string(&self) -> (r: String)
        ensures
            r@ == self.words(),
    {
        self.label().to_owned()
    }
}

/// Whether the request is held back.
pub open spec fn holds_request(action: Option<RuleAction>) -> bool {
    action == Some(RuleAction::PauseToEditRequest) || action == Some(
        RuleAction::PauseToEditRequestAndResponse,
    )
}

/// Whether the response is held back.
pub open spec fn holds_response(action: Option<RuleAction>) -> bool {
    action == Some(RuleAction::PauseToEditResponse) || action == Some(
        RuleAction::PauseToEditRequestAndResponse,
    )
}

/// Whether the request is held back.
pub fn pauses_request(action: &Option<RuleAction>) -> (r: bool)
    ensures
        r == holds_request(*action),
{
    match action {
        Some(RuleAction::PauseToEditRequest) | Some(RuleAction::PauseToEditRequestAndResponse) => {
            true
        },
        _ => false,
    }
}

/// Whether the response is held back.
pub fn pauses_response(action: &Option<RuleAction>) -> (r: bool)
    ensures
        r == holds_response(*action),
{
    match action {
        Some(RuleAction::PauseToEditResponse) | Some(RuleAction::PauseToEditRequestAndResponse) => {
            true
        },
        _ => false,
    }
}

/// Whether a path matches a glob pattern.
pub uninterp spec fn glob_matches(pattern: Seq<char>, path: Seq<char>) -> bool;

/// Whether a text is short enough for the glob matcher, which counts bytes in 32 bits.
pub open spec fn fits_glob(s: Seq<char>) -> bool {
    encode_utf8(s).len() < u32::MAX
}

/// Whether a path holds a backslash, which separates components on some platforms only.
pub open spec fn has_backslash(path: Seq<char>) -> bool {
    exists|i: int| 0 <= i < path.len() && path[i] == '\\'
}

/// Whether a pattern holds nothing that means more than itself.
pub open spec fn is_plain(pattern: Seq<char>) -> bool {
    &&& pattern.len() > 0 ==> pattern[0] != '!'
    &&& forall|i: int|
        0 <= i < pattern.len() ==> {
            let c = #[trigger] pattern[i];
            c != '*' && c != '?' && c != '[' && c != '{' && c != '\\'
        }
}

/// Whether two stars stand at a place of a pattern.
pub open spec fn has_globstar(pattern: Seq<char>, i: int) -> bool {
    0 <= i && i + 1 < pattern.len() && pattern[i] == '*' && pattern[i + 1] == '*'
}

/// In how many groups the end of a pattern stands, by its braces alone.
pub open spec fn group_depth(pattern: Seq<char>) -> nat
    decreases pattern.len(),
{
    if pattern.len() == 0 {
        0
    } else {
        let before = group_depth(pattern.drop_last());
        if pattern.last() == '{' {
            before + 1
        } else if pattern.last() == '}' && before > 0 {
            (before - 1) as nat
        } else {
            before
        }
    }
}

/// Whether no two stars stand behind the opening of a group.
pub open spec fn is_stars_first(pattern: Seq<char>) -> bool {
    forall|i: int, j: int|
        0 <= i < j && #[trigger] has_globstar(pattern, j) ==> #[trigger] pattern[i] != '{'
}

/// Whether two stars stand outside of groups alone, in a pattern whose groups are told by their
/// braces and where no option ends in a star.
pub open spec fn is_stars_outside(pattern: Seq<char>) -> bool {
    &&& forall|i: int| 0 <= i < pattern.len() ==> #[trigger] pattern[i] != '[' && pattern[i] != '\\'
    &&& forall|i: int|
        0 < i < pattern.len() && pattern[i - 1] == '*' ==> #[trigger] pattern[i] != ',' && pattern[i]
            != '}'
    &&& forall|i: int| #[trigger]
        has_globstar(pattern, i) ==> group_depth(pattern.take(i)) == 0
}

/// Whether matching against a pattern comes to an end on every path. Where two stars stand inside
/// of a group, the matcher can go from one option of the group back to the one before without end.
pub open spec fn settles(pattern: Seq<char>) -> bool {
    is_stars_first(pattern) || is_stars_outside(pattern)
}

/// Calls `glob_match::glob_match`. On a path without a backslash the verdict is taken to depend on
/// the pattern and the path alone, and a plain pattern matches itself and nothing else. Of a path
/// with a backslash nothing is claimed: whether it separates components is up to the platform.
/// Patterns with which the matcher may not come to an end are left out.
#[verifier::external_body]
fn glob_match(pattern: &str, path: &str) -> (r: bool)
    requires
        settles(pattern@),
        fits_glob(pattern@),
        fits_glob(path@),
    ensures
        !has_backslash(path@) ==> r == glob_matches(pattern@, path@),
        !has_backslash(path@) && is_plain(pattern@) ==> r == (pattern@ == path@),
{
    glob_match::glob_match(pattern, path)
}

fn stars_come_first(chars: &Vec<char>) -> (r: bool)
    ensures
        r == is_stars_first(chars@),
{
    let mut opened: bool = false;
    let ghost mut brace: int = 0;
    let mut i: usize = 0;
    while i < chars.len()
        invariant
            i <= chars@.len(),
            opened ==> 0 <= brace < i && chars@[brace] == '{',
            !opened ==> forall|k: int| 0 <= k < i ==> #[trigger] chars@[k] != '{',
            opened ==> forall|j: int| brace < j < i ==> !#[trigger] has_globstar(chars@, j),
            opened ==> forall|k: int| 0 <= k < brace ==> #[trigger] chars@[k] != '{',
        decreases chars@.len() - i,
    {
        if opened && chars[i] == '*' && i + 1 < chars.len() && chars[i + 1] == '*' {
            proof {
                assert(has_globstar(chars@, i as int));
                assert(chars@[brace] == '{');
            }
            return false;
        }
        if !opened && chars[i] == '{' {
            opened = true;
            proof {
                brace = i as int;
            }
        }
        i = i + 1;
    }
    proof {
        assert forall|k: int, j: int|
            0 <= k < j && #[trigger] has_globstar(chars@, j) implies #[trigger] chars@[k] != '{' by {
            if opened && k >= brace {
                assert(brace < j < i);
            }
        }
    }
    true
}

fn stars_stay_outside(chars: &Vec<char>) -> (r: bool)
    ensures
        r == is_stars_outside(chars@),
{
    let mut depth: usize = 0;
    let mut i: usize = 0;
    while i < chars.len()
        invariant
            i <= chars@.len(),
            depth <= i,
            depth == group_depth(chars@.take(i as int)),
            forall|k: int| 0 <= k < i ==> #[trigger] chars@[k] != '[' && chars@[k] != '\\',
            forall|k: int|
                0 < k < i && chars@[k - 1] == '*' ==> #[trigger] chars@[k] != ',' && chars@[k]
                    != '}',
            forall|k: int|
                k < i && #[trigger] has_globstar(chars@, k) ==> group_depth(chars@.take(k)) == 0,
        decreases chars@.len() - i,
    {
        let c: char = chars[i];
        if c == '[' || c == '\\' {
            return false;
        }
        if i > 0 && chars[i - 1] == '*' && (c == ',' || c == '}') {
            return false;
        }
        if depth > 0 && c == '*' && i + 1 < chars.len() && chars[i + 1] == '*' {
            proof {
                assert(has_globstar(chars@, i as int));
            }
            return false;
        }
        proof {
            assert(chars@.take(i + 1).drop_last() =~= chars@.take(i as int));
            assert(chars@.take(i + 1).last() == c);
        }
        if c == '{' {
            depth = depth + 1;
        } else if c == '}' && depth > 0 {
            depth = depth - 1;
        }
        i = i + 1;
    }
    true
}

/// Whether a text can be a rule's pattern: it is short enough, and matching against it comes to an
/// end.
pub fn is_pattern(s: &str) -> (r: bool)
    ensures
        r == (fits_glob(s@) && settles(s@)),
{
    if !is_matchable(s) {
        return false;
    }
    let chars: Vec<char> = text::to_chars(s);
    stars_come_first(&chars) || stars_stay_outside(&chars)
}

/// No pattern without a group and no pattern without two stars is left out.
pub proof fn law_common_patterns_settle(pattern: Seq<char>)
    requires
        (forall|i: int| 0 <= i < pattern.len() ==> #[trigger] pattern[i] != '{') || (forall|i: int|
            !#[trigger] has_globstar(pattern, i)),
    ensures
        settles(pattern),
{
    if forall|i: int| 0 <= i < pattern.len() ==> #[trigger] pattern[i] != '{' {
        assert(is_stars_first(pattern));
    }
}

/// Whether a text is short enough to be matched against patterns.
pub fn is_matchable(s: &str) -> (r: bool)
    ensures
        r == fits_glob(s@),
{
    s.as_bytes().len() < u32::MAX as usize
}

/// A rule: the requests it takes, and what is done with them.
#[derive(Debug, PartialEq, Eq)]
pub struct Rule {
    pub matcher: RuleMatcher,
    pub uri_pattern: Option<String>,
    pub action: RuleAction,
}

impl Clone for Rule {
    fn clone(&self) -> (r: Self)
        ensures
            r == *self,
    {
        Rule {
            matcher: self.matcher,
            uri_pattern: match &self.uri_pattern {
                Some(pattern) => Some(pattern.clone()),
                None => None,
            },
            action: self.action,
        }
    }
}

impl Rule {
    /// Whether the rule's pattern, if it has one, can be handed to the glob matcher.
    pub open spec fn wf(self) -> bool {
        match self.uri_pattern {
            Some(pattern) => fits_glob(pattern@) && settles(pattern@),
            None => true,
        }
    }

    /// Whether the rule can be used: only such a rule is to be added to others.
    pub fn is_usable(&self) -> (r: bool)
        ensures
            r == self.wf(),
    {
        match &self.uri_pattern {
            Some(pattern) => is_pattern(pattern.as_str()),
            None => true,
        }
    }

    /// Whether the rule takes a request, given whether the URI matches the rule's pattern. A rule
    /// without a pattern takes every URI.
    pub open spec fn admits(
        self,
        method: Seq<char>,
        is_websocket: bool,
        uri_matches: bool,
    ) -> bool {
        self.matcher.accepts(method, is_websocket) && (self.uri_pattern is None || uri_matches)
    }

    /// Whether the URI matches the rule's pattern; false where the rule has none.
    pub open spec fn takes_uri(self, uri: Seq<char>) -> bool {
        match self.uri_pattern {
            Some(pattern) => glob_matches(pattern@, uri),
            None => false,
        }
    }

    /// Whether the rule takes a request.
    pub fn matches(&self, method: &str, uri: &str, is_websocket: bool) -> (r: bool)
        requires
            self.wf(),
            fits_glob(uri@),
        ensures
            !has_backslash(uri@) || self.uri_pattern is None ==> r == self.admits(
                method@,
                is_websocket,
                self.takes_uri(uri@),
            ),
            exists|uri_matches: bool| r == self.admits(method@, is_websocket, uri_matches),
            !has_backslash(uri@) && (self.uri_pattern matches Some(pattern) && is_plain(pattern@))
                ==> r == (self.matcher.accepts(method@, is_websocket) && self.uri_pattern->0@
                == uri@),
    {
        let uri_matches: bool = match &self.uri_pattern {
            Some(pattern) => if self.matcher.matches(method, is_websocket) {
                glob_match(pattern.as_str(), uri)
            } else {
                false
            },
            None => false,
        };
        let r: bool = self.matches_given(method, is_websocket, uri_matches);
        proof {
            assert(r == self.admits(method@, is_websocket, uri_matches));
        }
        r
    }

    /// Whether the rule takes a request, given whether the URI matches the rule's pattern.
    pub fn matches_given(&self, method: &str, is_websocket: bool, uri_matches: bool) -> (r: bool)
        ensures
            r == self.admits(method@, is_websocket, uri_matches),
    {
        if !self.matcher.matches(method, is_websocket) {
            return false;
        }
        match &self.uri_pattern {
            Some(_) => uri_matches,
            None => true,
        }
    }

    /// The rule as a user reads it.
    pub open spec fn line(self) -> Seq<char> {
        let head = match self.uri_pattern {
            Some(pattern) => self.matcher.word() + " "@ + pattern@,
            None => self.matcher.word(),
        };
        head + " → "@ + self.action.words()
    }

    /// The rule as a user reads it.
    pub fn to_string(&self) -> (r: String)
        ensures
            r@ == self.line(),
    {
        let mut r: String = self.matcher.to_string();
        match &self.uri_pattern {
            Some(pattern) => {
                r.append(" ");
                r.append(pattern.as_str());
            },
            None => {},
        }
        r.append(" → ");
        r.append(self.action.label());
        r
    }
}

/// The action of the first rule that takes a request. `verdicts` tells of each rule whether the
/// URI matches its pattern.
pub open spec fn first_action(
    rules: Seq<Rule>,
    method: Seq<char>,
    is_websocket: bool,
    verdicts: Seq<bool>,
) -> Option<RuleAction>
    decreases rules.len(),
{
    if rules.len() == 0 {
        None
    } else if rules[0].admits(method, is_websocket, verdicts[0]) {
        Some(rules[0].action)
    } else {
        first_action(rules.skip(1), method, is_websocket, verdicts.skip(1))
    }
}

/// Of each rule, whether the URI matches its pattern.
pub open spec fn uri_verdicts(rules: Seq<Rule>, uri: Seq<char>) -> Seq<bool> {
    Seq::new(rules.len(), |i: int| rules[i].takes_uri(uri))
}

/// The first rule decides: rule `i` is the one that acts exactly where it takes the request and
/// none before it does.
pub proof fn law_first_rule_decides(
    rules: Seq<Rule>,
    method: Seq<char>,
    is_websocket: bool,
    verdicts: Seq<bool>,
    i: int,
)
    requires
        verdicts.len() == rules.len(),
        0 <= i < rules.len(),
        rules[i].admits(method, is_websocket, verdicts[i]),
        forall|j: int|
            0 <= j < i ==> !(#[trigger] rules[j]).admits(method, is_websocket, verdicts[j]),
    ensures
        first_action(rules, method, is_websocket, verdicts) == Some(rules[i].action),
    decreases i,
{
    if i > 0 {
        assert(!rules[0].admits(method, is_websocket, verdicts[0]));
        assert forall|j: int| 0 <= j < i - 1 implies !(#[trigger] rules.skip(1)[j]).admits(
            method,
            is_websocket,
            verdicts.skip(1)[j],
        ) by {
            assert(!rules[j + 1].admits(method, is_websocket, verdicts[j + 1]));
        }
        law_first_rule_decides(rules.skip(1), method, is_websocket, verdicts.skip(1), i - 1);
    }
}

/// Where no rule takes the request, no action is found.
pub proof fn law_no_rule_no_action(
    rules: Seq<Rule>,
    method: Seq<char>,
    is_websocket: bool,
    verdicts: Seq<bool>,
)
    requires
        verdicts.len() == rules.len(),
        forall|j: int|
            0 <= j < rules.len() ==> !(#[trigger] rules[j]).admits(
                method,
                is_websocket,
                verdicts[j],
            ),
    ensures
        first_action(rules, method, is_websocket, verdicts) is None,
    decreases rules.len(),
{
    if rules.len() > 0 {
        assert(!rules[0].admits(method, is_websocket, verdicts[0]));
        assert forall|j: int| 0 <= j < rules.skip(1).len() implies !(
        #[trigger] rules.skip(1)[j]).admits(method, is_websocket, verdicts.skip(1)[j]) by {
            assert(!rules[j + 1].admits(method, is_websocket, verdicts[j + 1]));
        }
        law_no_rule_no_action(rules.skip(1), method, is_websocket, verdicts.skip(1));
    }
}

/// A rule added at the end changes nothing for a request that an earlier rule takes.
pub proof fn law_added_rule_comes_last(
    rules: Seq<Rule>,
    rule: Rule,
    method: Seq<char>,
    is_websocket: bool,
    verdicts: Seq<bool>,
    verdict: bool,
)
    requires
        verdicts.len() == rules.len(),
    ensures
        first_action(rules.push(rule), method, is_websocket, verdicts.push(verdict)) == (
        match first_action(rules, method, is_websocket, verdicts) {
            Some(action) => Some(action),
            None => if rule.admits(method, is_websocket, verdict) {
                Some(rule.action)
            } else {
                None
            },
        }),
    decreases rules.len(),
{
    reveal_with_fuel(first_action, 2);
    if rules.len() > 0 {
        law_added_rule_comes_last(
            rules.skip(1),
            rule,
            method,
            is_websocket,
            verdicts.skip(1),
            verdict,
        );
        assert(rules.push(rule).skip(1) =~= rules.skip(1).push(rule));
        assert(verdicts.push(verdict).skip(1) =~= verdicts.skip(1).push(verdict));
    }
}

/// Finds the action of the first rule that takes a request, given of each rule whether the URI
/// matches its pattern.
pub fn match_given(
    rules: &Vec<Rule>,
    method: &str,
    is_websocket: bool,
    verdicts: &Vec<bool>,
) -> (r: Option<RuleAction>)
    requires
        verdicts@.len() == rules@.len(),
    ensures
        r == first_action(rules@, method@, is_websocket, verdicts@),
{
    let mut i: usize = 0;
    while i < rules.len()
        invariant
            i <= rules@.len() == verdicts@.len(),
            forall|j: int|
                0 <= j < i ==> !(#[trigger] rules@[j]).admits(
                    method@,
                    is_websocket,
                    verdicts@[j],
                ),
        decreases rules@.len() - i,
    {
        if rules[i].matches_given(method, is_websocket, verdicts[i]) {
            proof {
                law_first_rule_decides(rules@, method@, is_websocket, verdicts@, i as int);
            }
            return Some(rules[i].action);
        }
        i = i + 1;
    }
    proof {
        law_no_rule_no_action(rules@, method@, is_websocket, verdicts@);
    }
    None
}

/// Finds the action of the first rule that takes a request.
pub fn match_rules(rules: &Vec<Rule>, method: &str, uri: &str, is_websocket: bool) -> (r: Option<
    RuleAction,
>)
    requires
        forall|i: int| 0 <= i < rules@.len() ==> (#[trigger] rules@[i]).wf(),
        fits_glob(uri@),
    ensures
        !has_backslash(uri@) ==> r == first_action(
            rules@,
            method@,
            is_websocket,
            uri_verdicts(rules@, uri@),
        ),
        exists|verdicts: Seq<bool>| #[trigger]
            verdicts.len() == rules@.len() && r == first_action(
                rules@,
                method@,
                is_websocket,
                verdicts,
            ),
{
    let mut i: usize = 0;
    let ghost mut verdicts: Seq<bool> = Seq::new(rules@.len(), |j: int| rules@[j].takes_uri(uri@));
    while i < rules.len()
        invariant
            i <= rules@.len() == verdicts.len(),
            fits_glob(uri@),
            forall|j: int| 0 <= j < rules@.len() ==> (#[trigger] rules@[j]).wf(),
            !has_backslash(uri@) ==> verdicts =~= uri_verdicts(rules@, uri@),
            forall|j: int|
                0 <= j < i ==> !(#[trigger] rules@[j]).admits(method@, is_websocket, verdicts[j]),
        decreases rules@.len() - i,
    {
        let rule: &Rule = &rules[i];
        let taken: bool = rule.matches(method, uri, is_websocket);
        proof {
            if !has_backslash(uri@) {
                assert(verdicts[i as int] == rule.takes_uri(uri@));
            } else {
                let verdict = choose|v: bool| taken == rule.admits(method@, is_websocket, v);
                verdicts = verdicts.update(i as int, verdict);
            }
            assert(taken == rule.admits(method@, is_websocket, verdicts[i as int]));
        }
        if taken {
            proof {
                law_first_rule_decides(rules@, method@, is_websocket, verdicts, i as int);
                assert(verdicts.len() == rules@.len());
            }
            return Some(rule.action);
        }
        i = i + 1;
    }
    proof {
        law_no_rule_no_action(rules@, method@, is_websocket, verdicts);
        assert(verdicts.len() == rules@.len());
    }
    None
}

/// A pattern only narrows what a rule takes, and what a rule does with a request has no part in
/// whether it takes it.
pub proof fn law_patterns_only_narrow(
    rule: Rule,
    wider: Rule,
    twin: Rule,
    method: Seq<char>,
    uri: Seq<char>,
    is_websocket: bool,
    uri_matches: bool,
    other_matches: bool,
)
    requires
        wider.matcher == rule.matcher,
        wider.uri_pattern is None,
        twin.matcher == rule.matcher,
        twin.uri_pattern == rule.uri_pattern,
    ensures
        rule.admits(method, is_websocket, uri_matches) ==> wider.admits(
            method,
            is_websocket,
            other_matches,
        ),
        rule.admits(method, is_websocket, uri_matches) == twin.admits(
            method,
            is_websocket,
            uri_matches,
        ),
        rule.takes_uri(uri) == twin.takes_uri(uri),
        rule.wf() == twin.wf(),
{
}

/// A matcher for a method takes a request exactly where the method is its own, up to the case of
/// ASCII letters; `Any` takes every request, `AnyWebsocket` every upgrade to WebSocket, and whether
/// it is one has no part in what the others take.
pub proof fn law_matchers_take_their_own_method(method: Seq<char>, is_websocket: bool)
    ensures
        RuleMatcher::GET.accepts(method, is_websocket) <==> text::same_ignoring_case(
            method,
            "GET"@,
        ),
        RuleMatcher::POST.accepts(method, is_websocket) <==> text::same_ignoring_case(
            method,
            "POST"@,
        ),
        RuleMatcher::PUT.accepts(method, is_websocket) <==> text::same_ignoring_case(
            method,
            "PUT"@,
        ),
        RuleMatcher::DELETE.accepts(method, is_websocket) <==> text::same_ignoring_case(
            method,
            "DELETE"@,
        ),
        RuleMatcher::PATCH.accepts(method, is_websocket) <==> text::same_ignoring_case(
            method,
            "PATCH"@,
        ),
        RuleMatcher::HEAD.accepts(method, is_websocket) <==> text::same_ignoring_case(
            method,
            "HEAD"@,
        ),
        RuleMatcher::OPTIONS.accepts(method, is_websocket) <==> text::same_ignoring_case(
            method,
            "OPTIONS"@,
        ),
        RuleMatcher::Any.accepts(method, is_websocket),
        RuleMatcher::AnyWebsocket.accepts(method, is_websocket) <==> is_websocket,
{
}

/// Two matchers for different methods never take the same request.
pub proof fn law_methods_exclude_each_other(
    one: RuleMatcher,
    other: RuleMatcher,
    method: Seq<char>,
    is_websocket: bool,
)
    requires
        one != other,
        one != RuleMatcher::Any && one != RuleMatcher::AnyWebsocket,
        other != RuleMatcher::Any && other != RuleMatcher::AnyWebsocket,
    ensures
        !(one.accepts(method, is_websocket) && other.accepts(method, is_websocket)),
{
    reveal_strlit("GET");
    reveal_strlit("POST");
    reveal_strlit("PUT");
    reveal_strlit("DELETE");
    reveal_strlit("PATCH");
    reveal_strlit("HEAD");
    reveal_strlit("OPTIONS");
    if one.accepts(method, is_websocket) && other.accepts(method, is_websocket) {
        let a = one.word();
        let b = other.word();
        assert(a.len() == method.len() && b.len() == method.len());
        assert(text::folded(a[0]) == text::folded(method[0]));
        assert(text::folded(b[0]) == text::folded(method[0]));
    }
}

/// How a method is written has no part in which matchers take it.
pub proof fn law_matchers_are_blind_to_case(
    matcher: RuleMatcher,
    method: Seq<char>,
    other: Seq<char>,
    is_websocket: bool,
)
    requires
        text::same_ignoring_case(method, other),
    ensures
        matcher.accepts(method, is_websocket) == matcher.accepts(other, is_websocket),
{
    let w = matcher.word();
    if text::same_ignoring_case(method, w) {
        assert forall|i: int| 0 <= i < other.len() implies text::folded(#[trigger] other[i])
            == text::folded(w[i]) by {
            assert(text::folded(method[i]) == text::folded(w[i]));
        }
    }
    if text::same_ignoring_case(other, w) {
        assert forall|i: int| 0 <= i < method.len() implies text::folded(#[trigger] method[i])
            == text::folded(w[i]) by {
            assert(text::folded(other[i]) == text::folded(w[i]));
        }
    }
}

/// An action holds back what its words say: the request, the response, both or nothing. Where no
/// rule acts, nothing is held back.
pub proof fn law_actions_hold_what_they_say(action: Option<RuleAction>)
    ensures
        (holds_request(action), holds_response(action)) == (match action {
            None => (false, false),
            Some(RuleAction::PassToDestination) => (false, false),
            Some(RuleAction::PauseToEditRequest) => (true, false),
            Some(RuleAction::PauseToEditResponse) => (false, true),
            Some(RuleAction::PauseToEditRequestAndResponse) => (true, true),
        }),
{
}

/// The words by which a user knows matchers and actions.
pub proof fn law_rules_have_their_words()
    ensures
        RuleMatcher::Any.word() == "ANY"@,
        RuleMatcher::POST.word() == "POST"@,
        RuleMatcher::GET.word() == "GET"@,
        RuleMatcher::PUT.word() == "PUT"@,
        RuleMatcher::DELETE.word() == "DELETE"@,
        RuleMatcher::PATCH.word() == "PATCH"@,
        RuleMatcher::HEAD.word() == "HEAD"@,
        RuleMatcher::OPTIONS.word() == "OPTIONS"@,
        RuleMatcher::AnyWebsocket.word() == "WS"@,
        RuleAction::PassToDestination.words() == "Pass"@,
        RuleAction::PauseToEditRequest.words() == "Edit Request"@,
        RuleAction::PauseToEditResponse.words() == "Edit Response"@,
        RuleAction::PauseToEditRequestAndResponse.words() == "Edit Req+Res"@,
{
}

/// A rule is written with its matcher in front and its action behind an arrow; a pattern stands
/// between them, behind a blank.
pub proof fn law_rules_are_written_out(rule: Rule, plain: Rule)
    requires
        plain.matcher == rule.matcher,
        plain.action == rule.action,
        plain.uri_pattern is None,
    ensures
        plain.line() == plain.matcher.word() + " → "@ + plain.action.words(),
        rule.uri_pattern matches Some(pattern) ==> rule.line() == rule.matcher.word() + " "@
            + pattern@ + " → "@ + rule.action.words(),
        rule.uri_pattern is None ==> rule.line() == plain.line(),
{
}

/// A rule takes a request exactly where its matcher does and its pattern, if it has one, matches
/// the URI: a rule without a pattern takes every URI.
pub proof fn law_rules_ask_for_both(
    rule: Rule,
    method: Seq<char>,
    uri: Seq<char>,
    is_websocket: bool,
)
    ensures
        rule.admits(method, is_websocket, rule.takes_uri(uri)) <==> rule.matcher.accepts(
            method,
            is_websocket,
        ) && (rule.uri_pattern matches Some(pattern) ==> glob_matches(pattern@, uri)),
{
}

proof fn lemma_first_taker(
    rules: Seq<Rule>,
    method: Seq<char>,
    is_websocket: bool,
    verdicts: Seq<bool>,
    some: int,
) -> (i: int)
    requires
        0 <= some < rules.len(),
        rules[some].admits(method, is_websocket, verdicts[some]),
    ensures
        0 <= i <= some,
        rules[i].admits(method, is_websocket, verdicts[i]),
        forall|j: int|
            0 <= j < i ==> !(#[trigger] rules[j]).admits(method, is_websocket, verdicts[j]),
    decreases some,
{
    if exists|k: int|
        0 <= k < some && (#[trigger] rules[k]).admits(method, is_websocket, verdicts[k]) {
        let k = choose|k: int|
            0 <= k < some && (#[trigger] rules[k]).admits(method, is_websocket, verdicts[k]);
        lemma_first_taker(rules, method, is_websocket, verdicts, k)
    } else {
        some
    }
}

/// The action that is found for a request is that of the rule which takes it and has none before it
/// that does, where its pattern is matched against the URI itself; and none is found exactly where
/// no rule takes the request.
pub proof fn law_the_first_taker_acts(
    rules: Seq<Rule>,
    method: Seq<char>,
    uri: Seq<char>,
    is_websocket: bool,
)
    ensures
        ({
            let found = first_action(rules, method, is_websocket, uri_verdicts(rules, uri));
            let takes = |i: int|
                rules[i].matcher.accepts(method, is_websocket) && (rules[i].uri_pattern is Some
                    ==> glob_matches(rules[i].uri_pattern->0@, uri));
            &&& found is None <==> forall|i: int| 0 <= i < rules.len() ==> !#[trigger] takes(i)
            &&& found matches Some(action) ==> exists|i: int|
                0 <= i < rules.len() && #[trigger] takes(i) && rules[i].action == action && forall|
                    j: int,
                |
                    0 <= j < i ==> !#[trigger] takes(j)
        }),
{
    let verdicts = uri_verdicts(rules, uri);
    let found = first_action(rules, method, is_websocket, verdicts);
    let takes = |i: int|
        rules[i].matcher.accepts(method, is_websocket) && (rules[i].uri_pattern is Some
            ==> glob_matches(rules[i].uri_pattern->0@, uri));
    assert forall|i: int| 0 <= i < rules.len() implies #[trigger] takes(i) == rules[i].admits(
        method,
        is_websocket,
        verdicts[i],
    ) by {
        law_rules_ask_for_both(rules[i], method, uri, is_websocket);
    }
    if exists|i: int| 0 <= i < rules.len() && #[trigger] takes(i) {
        let some = choose|i: int| 0 <= i < rules.len() && #[trigger] takes(i);
        let i = lemma_first_taker(rules, method, is_websocket, verdicts, some);
        law_first_rule_decides(rules, method, is_websocket, verdicts, i);
        assert(takes(i));
        assert forall|j: int| 0 <= j < i implies !#[trigger] takes(j) by {
            assert(!rules[j].admits(method, is_websocket, verdicts[j]));
        }
    } else {
        assert forall|j: int| 0 <= j < rules.len() implies !(#[trigger] rules[j]).admits(
            method,
            is_websocket,
            verdicts[j],
        ) by {
            assert(!takes(j));
        }
        law_no_rule_no_action(rules, method, is_websocket, verdicts);
    }
}

/// Every matcher and every action is offered, and none of them twice.
pub proof fn law_every_choice_is_offered_once(matcher: RuleMatcher, action: RuleAction)
    ensures
        exists|i: int|
            0 <= i < RuleMatcher::offered().len() && #[trigger] RuleMatcher::offered()[i] == matcher,
        RuleMatcher::offered().no_duplicates(),
        exists|i: int|
            0 <= i < RuleAction::offered().len() && #[trigger] RuleAction::offered()[i] == action,
        RuleAction::offered().no_duplicates(),
{
    let matchers = RuleMatcher::offered();
    let actions = RuleAction::offered();
    assert(matchers[0] == RuleMatcher::Any && matchers[1] == RuleMatcher::GET && matchers[2]
        == RuleMatcher::POST && matchers[3] == RuleMatcher::PUT && matchers[4]
        == RuleMatcher::DELETE && matchers[5] == RuleMatcher::PATCH && matchers[6]
        == RuleMatcher::HEAD && matchers[7] == RuleMatcher::OPTIONS && matchers[8]
        == RuleMatcher::AnyWebsocket);
    assert(actions[0] == RuleAction::PassToDestination && actions[1]
        == RuleAction::PauseToEditRequest && actions[2] == RuleAction::PauseToEditResponse
        && actions[3] == RuleAction::PauseToEditRequestAndResponse);
}

/// A path holds a backslash exactly where one of its characters is one; a pattern is plain exactly
/// where it begins with no exclamation mark and holds nothing that stands for more than itself.
pub proof fn law_plain_patterns_hold_nothing_special(path: Seq<char>, pattern: Seq<char>)
    ensures
        has_backslash(path) <==> path.contains('\\'),
        is_plain(pattern) <==> !pattern.contains('*') && !pattern.contains('?')
            && !pattern.contains('[') && !pattern.contains('{') && !pattern.contains('\\') && !(
        pattern.len() > 0 && pattern[0] == '!'),
{
    if has_backslash(path) {
        let i = choose|i: int| 0 <= i < path.len() && path[i] == '\\';
        assert(path.contains(path[i]));
    }
    if path.contains('\\') {
        let i = path.index_of('\\');
        assert(path[i] == '\\');
    }
    if !is_plain(pattern) && !(pattern.len() > 0 && pattern[0] == '!') {
        let i = choose|i: int|
            0 <= i < pattern.len() && !({
                let c = #[trigger] pattern[i];
                c != '*' && c != '?' && c != '[' && c != '{' && c != '\\'
            });
        assert(pattern.contains(pattern[i]));
    }
}

} // verus!
