//! Title-regex restore match rules (`restore_match_rules: aa{sv}`) and the
//! vendor restore-token records that persist them.
use vstd::prelude::*;

use crate::value::{entry, get, keys, lemma_lookup_push, lookup, lookup_str, str_eq, str_value, Value};

verus! {

/// Which windows a title-regex alias may identify.
#[derive(Debug, Clone, Copy, PartialEq, Eq, Hash, Structural)]
pub enum RestoreMatchScope {
    /// Only windows of the application that owned the saved window.
    SameApp,
    /// Windows of any application (a cross-application match needs re-consent).
    AnyApp,
}

/// The scope whose wire string is `s`, if any.
pub open spec fn scope_from_wire(s: Seq<char>) -> Option<RestoreMatchScope> {
    if s == "same_app"@ {
        Some(RestoreMatchScope::SameApp)
    } else if s == "any_app"@ {
        Some(RestoreMatchScope::AnyApp)
    } else {
        None
    }
}

impl RestoreMatchScope {
    pub open spec fn wire_name(self) -> Seq<char> {
        match self {
            RestoreMatchScope::SameApp => "same_app"@,
            RestoreMatchScope::AnyApp => "any_app"@,
        }
    }

    pub fn as_str(self) -> (s: &'static str)
        ensures
            s@ == self.wire_name(),
    {
        match self {
            RestoreMatchScope::SameApp => "same_app",
            RestoreMatchScope::AnyApp => "any_app",
        }
    }
}

pub proof fn lemma_scope_wire_roundtrip()
    ensures
        forall|s: RestoreMatchScope| #[trigger] scope_from_wire(s.wire_name()) == Some(s),
{
    reveal_strlit("same_app");
    reveal_strlit("any_app");
    assert("same_app"@.len() != "any_app"@.len());
    assert forall|s: RestoreMatchScope| #[trigger] scope_from_wire(s.wire_name()) == Some(s) by {
        match s {
            RestoreMatchScope::SameApp => {},
            RestoreMatchScope::AnyApp => {},
        }
    }
}

/// One `kind = "title_regex"` restore alias: a pattern searched in window titles.
#[derive(Debug, Clone, PartialEq, Eq)]
pub struct RestoreMatchRule {
    pub pattern: String,
    pub scope: RestoreMatchScope,
}

impl RestoreMatchRule {
    /// The rule as a pattern and a scope.
    pub open spec fn model(self) -> (Seq<char>, RestoreMatchScope) {
        (self.pattern@, self.scope)
    }

    /// A title-regex rule with the given pattern and scope.
    pub fn title_regex(pattern: &str, scope: RestoreMatchScope) -> (r: Self)
        ensures
            r.model() == (pattern@, scope),
    {
        RestoreMatchRule { pattern: pattern.to_owned(), scope }
    }
}

/// A sequence of rules as patterns and scopes.
pub open spec fn rules_model(rules: Seq<RestoreMatchRule>) -> Seq<(Seq<char>, RestoreMatchScope)> {
    rules.map_values(|r: RestoreMatchRule| r.model())
}

/// The most rules one `restore_match_rules` option may carry.
pub const MAX_RESTORE_MATCH_RULES: usize = 64;

/// Error returned when the `restore_match_rules` value is malformed.
#[derive(Debug, Clone, Copy, PartialEq, Eq, Structural)]
pub enum InvalidRestoreMatchRules {
    /// `restore_match_rules` must be an array of vardicts (`aa{sv}`).
    NotDictArray,
    /// `restore_match_rules` carries more than 64 rules.
    TooManyRules,
}

/// The rule one vardict of `restore_match_rules` describes, if it is a well-formed
/// title-regex rule; a missing scope means `same_app`.
pub open spec fn rule_of(v: Value) -> Option<(Seq<char>, RestoreMatchScope)> {
    match v {
        Value::Dict(e) => if lookup_str(e@, "kind"@) == Some("title_regex"@) {
            match lookup_str(e@, "pattern"@) {
                Some(p) => match lookup(e@, "scope"@) {
                    None => Some((p, RestoreMatchScope::SameApp)),
                    Some(Value::Str(s)) => match scope_from_wire(s@) {
                        Some(scope) => Some((p, scope)),
                        None => None,
                    },
                    Some(_) => None,
                },
                None => None,
            }
        } else {
            None
        },
        _ => None,
    }
}

/// The well-formed rules among `items`, in order; malformed ones are ignored.
pub open spec fn spec_rules_of(items: Seq<Value>) -> Seq<(Seq<char>, RestoreMatchScope)>
    decreases items.len(),
{
    if items.len() == 0 {
        seq![]
    } else {
        let prev = spec_rules_of(items.drop_last());
        match rule_of(items.last()) {
            Some(r) => prev.push(r),
            None => prev,
        }
    }
}

/// The error, if any, with which a `restore_match_rules` value is rejected.
pub open spec fn spec_rules_error(v: Value) -> Option<InvalidRestoreMatchRules> {
    match v {
        Value::Array(items) => if exists|i: int| 0 <= i < items@.len() && !(#[trigger] items@[i] is Dict) {
            Some(InvalidRestoreMatchRules::NotDictArray)
        } else if items@.len() > 64 {
            Some(InvalidRestoreMatchRules::TooManyRules)
        } else {
            None
        },
        _ => Some(InvalidRestoreMatchRules::NotDictArray),
    }
}

/// Whether `rules` are the rules that the `restore_match_rules` value `v` carries.
pub open spec fn is_parsed_rules(rules: Seq<RestoreMatchRule>, v: Value) -> bool {
    &&& spec_rules_error(v) is None
    &&& v matches Value::Array(items)
    &&& rules_model(rules) == spec_rules_of(items@)
}

fn rule_from_entry(v: &Value) -> (r: Option<RestoreMatchRule>)
    ensures
        match r {
            Some(rule) => rule_of(*v) == Some(rule.model()),
            None => rule_of(*v) is None,
        },
{
    proof {
        lemma_scope_wire_roundtrip();
    }
    let e = match v {
        Value::Dict(e) => e,
        _ => return None,
    };
    match get(e, "kind") {
        Some(Value::Str(k)) => {
            if !str_eq(k.as_str(), "title_regex") {
                return None;
            }
        },
        _ => return None,
    }
    let pattern = match get(e, "pattern") {
        Some(Value::Str(p)) => p,
        _ => return None,
    };
    let scope = match get(e, "scope") {
        None => RestoreMatchScope::SameApp,
        Some(Value::Str(s)) => if str_eq(s.as_str(), "same_app") {
            RestoreMatchScope::SameApp
        } else if str_eq(s.as_str(), "any_app") {
            RestoreMatchScope::AnyApp
        } else {
            return None;
        },
        Some(_) => return None,
    };
    Some(RestoreMatchRule { pattern: pattern.clone(), scope })
}

/// Parse the `restore_match_rules: aa{sv}` option.
///
/// The outer shape must be an array of at most 64 vardicts; rules of an
/// unknown kind, without a string pattern, or with an unknown scope are ignored.
#[verifier::loop_isolation(false)]
pub fn parse_restore_match_rules(value: &Value) -> (r: Result<Vec<RestoreMatchRule>, InvalidRestoreMatchRules>)
    ensures
        match r {
            Ok(rules) => is_parsed_rules(rules@, *value),
            Err(err) => spec_rules_error(*value) == Some(err),
        },
{
    let items = match value {
        Value::Array(items) => items,
        _ => return Err(InvalidRestoreMatchRules::NotDictArray),
    };
    let n = items.len();
    for i in 0..n
        invariant
            n == items.len(),
            forall|k: int| 0 <= k < i ==> (#[trigger] items@[k]) is Dict,
    {
        match &items[i] {
            Value::Dict(_) => {},
            _ => {
                assert(!(items@[i as int] is Dict));
                return Err(InvalidRestoreMatchRules::NotDictArray);
            },
        }
    }
    if n > MAX_RESTORE_MATCH_RULES {
        return Err(InvalidRestoreMatchRules::TooManyRules);
    }
    let mut rules: Vec<RestoreMatchRule> = Vec::new();
    assert(items@.take(0) =~= Seq::<Value>::empty());
    for i in 0..n
        invariant
            n == items.len(),
            rules_model(rules@) == spec_rules_of(items@.take(i as int)),
    {
        assert(items@.take(i + 1).drop_last() =~= items@.take(i as int));
        let ghost prev = rules@;
        match rule_from_entry(&items[i]) {
            Some(rule) => {
                rules.push(rule);
                assert(rules_model(rules@) =~= rules_model(prev).push(rule.model()));
            },
            None => {},
        }
    }
    assert(items@.take(n as int) =~= items@);
    Ok(rules)
}

/// Whether `v` is the vardict that encodes the rule `m`: exactly the keys
/// `kind`, `pattern` and `scope`.
pub open spec fn encodes_rule(v: Value, m: (Seq<char>, RestoreMatchScope)) -> bool {
    &&& v matches Value::Dict(e)
    &&& keys(e@) == seq!["kind"@, "pattern"@, "scope"@]
    &&& lookup_str(e@, "kind"@) == Some("title_regex"@)
    &&& lookup_str(e@, "pattern"@) == Some(m.0)
    &&& lookup_str(e@, "scope"@) == Some(m.1.wire_name())
}

/// Whether `v` is the `aa{sv}` value that encodes `rules`, in order.
pub open spec fn encodes_rules(v: Value, rules: Seq<(Seq<char>, RestoreMatchScope)>) -> bool {
    &&& v matches Value::Array(items)
    &&& items@.len() == rules.len()
    &&& forall|i: int| 0 <= i < rules.len() ==> encodes_rule(#[trigger] items@[i], rules[i])
}

fn rule_entry(rule: &RestoreMatchRule) -> (v: Value)
    ensures
        encodes_rule(v, rule.model()),
{
    let e0 = entry("kind", str_value("title_regex"));
    let e1 = entry("pattern", Value::Str(rule.pattern.clone()));
    let e2 = entry("scope", str_value(rule.scope.as_str()));
    let entries = vec![e0, e1, e2];
    proof {
        reveal_strlit("kind");
        reveal_strlit("pattern");
        reveal_strlit("scope");
        assert("kind"@.len() != "scope"@.len());
        assert("pattern"@.len() != "scope"@.len());
        let s0 = Seq::<(String, Value)>::empty();
        lemma_lookup_push(s0, e0);
        lemma_lookup_push(s0.push(e0), e1);
        lemma_lookup_push(s0.push(e0).push(e1), e2);
        assert(entries@ =~= s0.push(e0).push(e1).push(e2));
        assert(keys(entries@) =~= seq!["kind"@, "pattern"@, "scope"@]);
    }
    Value::Dict(entries)
}

/// Encode rules as the `restore_match_rules: aa{sv}` option.
pub fn restore_match_rules_value(rules: &[RestoreMatchRule]) -> (v: Value)
    ensures
        encodes_rules(v, rules_model(rules@)),
{
    let mut items: Vec<Value> = Vec::new();
    let n = rules.len();
    for i in 0..n
        invariant
            n == rules@.len(),
            items@.len() == i,
            forall|k: int| 0 <= k < i ==> encodes_rule(#[trigger] items@[k], rules@[k].model()),
    {
        items.push(rule_entry(&rules[i]));
    }
    Value::Array(items)
}

pub proof fn lemma_encoded_rule_parses(v: Value, m: (Seq<char>, RestoreMatchScope))
    requires
        encodes_rule(v, m),
    ensures
        rule_of(v) == Some(m),
{
    lemma_scope_wire_roundtrip();
}

/// Encoding rules and parsing the encoding gives back the same rules, for
/// every list that fits the limit of 64 rules.
pub proof fn restore_match_rules_roundtrip(v: Value, rules: Seq<(Seq<char>, RestoreMatchScope)>)
    requires
        encodes_rules(v, rules),
        rules.len() <= 64,
    ensures
        spec_rules_error(v) is None,
        v matches Value::Array(items) && spec_rules_of(items@) == rules,
    decreases rules.len(),
{
    let items = v->Array_0@;
    assert forall|i: int| 0 <= i < items.len() implies (#[trigger] items[i]) is Dict by {
        assert(encodes_rule(items[i], rules[i]));
    }
    lemma_prefix_parses(items, rules);
}

proof fn lemma_prefix_parses(items: Seq<Value>, rules: Seq<(Seq<char>, RestoreMatchScope)>)
    requires
        items.len() == rules.len(),
        forall|i: int| 0 <= i < rules.len() ==> encodes_rule(#[trigger] items[i], rules[i]),
    ensures
        spec_rules_of(items) == rules,
    decreases rules.len(),
{
    if rules.len() > 0 {
        lemma_prefix_parses(items.drop_last(), rules.drop_last());
        lemma_encoded_rule_parses(items.last(), rules.last());
        assert(rules.drop_last().push(rules.last()) =~= rules);
    }
}

/// A vendor restore token's persisted alias lists, one per restored window.
///
/// Version 1 stores only outputs and exact window identifiers and version 2
/// adds app/title rescue data; both read back with empty alias lists.
/// Version 3 persists per-window title-regex aliases.
#[derive(Debug, Clone, PartialEq, Eq)]
pub struct RestoreTokenRecord {
    pub version: u32,
    pub restore_match_rules: Vec<Vec<RestoreMatchRule>>,
}

fn empty_alias_lists(windows: usize) -> (r: Vec<Vec<RestoreMatchRule>>)
    ensures
        r@.len() == windows,
        forall|i: int| 0 <= i < windows ==> (#[trigger] r@[i])@.len() == 0,
{
    let mut r: Vec<Vec<RestoreMatchRule>> = Vec::new();
    for i in 0..windows
        invariant
            r@.len() == i,
            forall|k: int| 0 <= k < i ==> (#[trigger] r@[k])@.len() == 0,
    {
        r.push(Vec::new());
    }
    r
}

impl RestoreTokenRecord {
    /// A version 1 token for `windows` restored windows: no aliases.
    pub fn legacy_v1(windows: usize) -> (r: Self)
        ensures
            r.version == 1,
            r.restore_match_rules@.len() == windows,
            forall|i: int| 0 <= i < windows ==> (#[trigger] r.restore_match_rules@[i])@.len() == 0,
    {
        RestoreTokenRecord { version: 1, restore_match_rules: empty_alias_lists(windows) }
    }

    /// A version 2 token for `windows` restored windows: no aliases.
    pub fn legacy_v2(windows: usize) -> (r: Self)
        ensures
            r.version == 2,
            r.restore_match_rules@.len() == windows,
            forall|i: int| 0 <= i < windows ==> (#[trigger] r.restore_match_rules@[i])@.len() == 0,
    {
        RestoreTokenRecord { version: 2, restore_match_rules: empty_alias_lists(windows) }
    }

    /// A version 3 token that keeps each window's aliases as given.
    pub fn v3(rules: Vec<Vec<RestoreMatchRule>>) -> (r: Self)
        ensures
            r.version == 3,
            r.restore_match_rules == rules,
    {
        RestoreTokenRecord { version: 3, restore_match_rules: rules }
    }
}

} // verus!
