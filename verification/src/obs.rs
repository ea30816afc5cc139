//! An in-process model of the patched OBS PipeWire ScreenCast client: the
//! `SelectSources` options it sends and its multiline restore-alias grammar.
use vstd::prelude::*;
use vstd::string::StrSliceExecFns;

use crate::portal::{is_recorded_call, spec_select_error};
use crate::records::{
    is_accepted_key, lemma_accepted_keys, override_for, spec_policy_default, spec_policy_error,
    spec_policy_override, Call, RestoreAction, RestoreFailReason,
};
use crate::rules::{
    encodes_rules, restore_match_rules_roundtrip, restore_match_rules_value, rules_model,
    RestoreMatchRule, RestoreMatchScope,
};
use crate::text::{has_prefix, has_prefix_at, text_chars, trim, trim_bounds, trim_end, trim_start};
use crate::value::{
    entry, has_key, keys, lemma_has_key_index, lemma_lookup_push, lookup, lookup_str,
    opt_str_view, str_eq, Options, Value,
};

verus! {

/// The rule one line of alias text gives, if any: the line is trimmed, an
/// optional `any_app:`, `any:`, `same_app:` or `same:` prefix picks the scope
/// (no prefix means `same_app`), and the trimmed rest is the pattern. Blank
/// lines and empty patterns give no rule.
pub open spec fn alias_line_rule(line: Seq<char>) -> Option<(Seq<char>, RestoreMatchScope)> {
    let l = trim(line);
    if l.len() == 0 {
        None
    } else {
        let (scope, pattern) = if has_prefix(l, "any_app:"@) {
            (RestoreMatchScope::AnyApp, trim(l.skip("any_app:"@.len() as int)))
        } else if has_prefix(l, "any:"@) {
            (RestoreMatchScope::AnyApp, trim(l.skip("any:"@.len() as int)))
        } else if has_prefix(l, "same_app:"@) {
            (RestoreMatchScope::SameApp, trim(l.skip("same_app:"@.len() as int)))
        } else if has_prefix(l, "same:"@) {
            (RestoreMatchScope::SameApp, trim(l.skip("same:"@.len() as int)))
        } else {
            (RestoreMatchScope::SameApp, l)
        };
        if pattern.len() == 0 {
            None
        } else {
            Some((pattern, scope))
        }
    }
}

/// Splitting `s` at `\n`: the completed lines and the line in progress.
pub open spec fn split_acc(s: Seq<char>) -> (Seq<Seq<char>>, Seq<char>)
    decreases s.len(),
{
    if s.len() == 0 {
        (seq![], seq![])
    } else {
        let (done, cur) = split_acc(s.drop_last());
        if s.last() == '\n' {
            (done.push(cur), seq![])
        } else {
            (done, cur.push(s.last()))
        }
    }
}

/// The lines of `s`, split at `\n`.
pub open spec fn text_lines(s: Seq<char>) -> Seq<Seq<char>> {
    split_acc(s).0.push(split_acc(s).1)
}

/// The rules that `lines` give, in order.
pub open spec fn rules_of_lines(lines: Seq<Seq<char>>) -> Seq<(Seq<char>, RestoreMatchScope)>
    decreases lines.len(),
{
    if lines.len() == 0 {
        seq![]
    } else {
        let prev = rules_of_lines(lines.drop_last());
        match alias_line_rule(lines.last()) {
            Some(r) => prev.push(r),
            None => prev,
        }
    }
}

/// The rules of OBS' multiline alias text.
pub open spec fn spec_alias_rules(text: Seq<char>) -> Seq<(Seq<char>, RestoreMatchScope)> {
    rules_of_lines(text_lines(text))
}

/// Splitting `a`, a newline and `b`: the lines of `a`, then those `b` completes,
/// with `b`'s line in progress last.
proof fn lemma_split_acc_join(a: Seq<char>, b: Seq<char>)
    ensures
        split_acc(a.push('\n') + b) == (text_lines(a) + split_acc(b).0, split_acc(b).1),
    decreases b.len(),
{
    let s = a.push('\n') + b;
    if b.len() == 0 {
        assert(s =~= a.push('\n'));
        assert(s.drop_last() =~= a);
        assert(text_lines(a) + split_acc(b).0 =~= text_lines(a));
    } else {
        lemma_split_acc_join(a, b.drop_last());
        assert(s.drop_last() =~= a.push('\n') + b.drop_last());
        assert(s.last() == b.last());
        let (d, c) = split_acc(b.drop_last());
        assert((text_lines(a) + d).push(c) =~= text_lines(a) + d.push(c));
    }
}

/// The lines of `a`, a newline and `b` are the lines of `a`, then those of `b`.
proof fn lemma_text_lines_join(a: Seq<char>, b: Seq<char>)
    ensures
        text_lines(a.push('\n') + b) == text_lines(a) + text_lines(b),
{
    lemma_split_acc_join(a, b);
    let (d, c) = split_acc(b);
    assert((text_lines(a) + d).push(c) =~= text_lines(a) + d.push(c));
}

/// The rules of `l1` followed by `l2` are those of `l1`, then those of `l2`.
proof fn lemma_rules_of_lines_concat(l1: Seq<Seq<char>>, l2: Seq<Seq<char>>)
    ensures
        rules_of_lines(l1 + l2) == rules_of_lines(l1) + rules_of_lines(l2),
    decreases l2.len(),
{
    if l2.len() == 0 {
        assert(l1 + l2 =~= l1);
        assert(rules_of_lines(l1) + rules_of_lines(l2) =~= rules_of_lines(l1));
    } else {
        lemma_rules_of_lines_concat(l1, l2.drop_last());
        assert((l1 + l2).drop_last() =~= l1 + l2.drop_last());
        assert((l1 + l2).last() == l2.last());
        let p1 = rules_of_lines(l1);
        let p2 = rules_of_lines(l2.drop_last());
        match alias_line_rule(l2.last()) {
            Some(r) => {
                assert((p1 + p2).push(r) =~= p1 + p2.push(r));
            },
            None => {},
        }
    }
}

/// Alias lines are read one by one: the rules of two texts joined by a
/// newline are the rules of the first, then those of the second; an empty
/// text gives no rule.
pub proof fn alias_rules_of_joined_text(a: Seq<char>, b: Seq<char>)
    ensures
        spec_alias_rules(a.push('\n') + b) == spec_alias_rules(a) + spec_alias_rules(b),
        spec_alias_rules(Seq::<char>::empty()) == Seq::<(Seq<char>, RestoreMatchScope)>::empty(),
{
    lemma_text_lines_join(a, b);
    lemma_rules_of_lines_concat(text_lines(a), text_lines(b));
    let e = Seq::<char>::empty();
    assert(text_lines(e) =~= seq![e]);
    assert(trim_start(e) == e);
    assert(trim_end(e) == e);
    assert(seq![e].drop_last() =~= Seq::<Seq<char>>::empty());
    assert(alias_line_rule(e) is None);
    assert(rules_of_lines(Seq::<Seq<char>>::empty()) =~= Seq::empty());
    assert(rules_of_lines(seq![e]) =~= Seq::empty());
}

/// The rule of the line `chars[lo..hi]` of `text`, whose characters are `chars`.
fn alias_line(text: &str, chars: &Vec<char>, lo: usize, hi: usize) -> (r: Option<RestoreMatchRule>)
    requires
        chars@ == text@,
        lo <= hi <= chars@.len(),
    ensures
        match r {
            Some(rule) => alias_line_rule(chars@.subrange(lo as int, hi as int)) == Some(rule.model()),
            None => alias_line_rule(chars@.subrange(lo as int, hi as int)) is None,
        },
{
    let (a, b) = trim_bounds(chars, lo, hi);
    if a == b {
        return None;
    }
    let ghost l = chars@.subrange(a as int, b as int);
    let (scope, c, d) = if has_prefix_at(chars, a, b, "any_app:") {
        let m = "any_app:".unicode_len();
        let (c, d) = trim_bounds(chars, a + m, b);
        assert(l.skip(m as int) =~= chars@.subrange(a + m, b as int));
        (RestoreMatchScope::AnyApp, c, d)
    } else if has_prefix_at(chars, a, b, "any:") {
        let m = "any:".unicode_len();
        let (c, d) = trim_bounds(chars, a + m, b);
        assert(l.skip(m as int) =~= chars@.subrange(a + m, b as int));
        (RestoreMatchScope::AnyApp, c, d)
    } else if has_prefix_at(chars, a, b, "same_app:") {
        let m = "same_app:".unicode_len();
        let (c, d) = trim_bounds(chars, a + m, b);
        assert(l.skip(m as int) =~= chars@.subrange(a + m, b as int));
        (RestoreMatchScope::SameApp, c, d)
    } else if has_prefix_at(chars, a, b, "same:") {
        let m = "same:".unicode_len();
        let (c, d) = trim_bounds(chars, a + m, b);
        assert(l.skip(m as int) =~= chars@.subrange(a + m, b as int));
        (RestoreMatchScope::SameApp, c, d)
    } else {
        (RestoreMatchScope::SameApp, a, b)
    };
    if c == d {
        return None;
    }
    let pattern = text.substring_char(c, d).to_owned();
    Some(RestoreMatchRule { pattern, scope })
}

/// Parse OBS' multiline restore alias text into wire rules.
///
/// Each non-empty line is one title-regex rule. Unprefixed lines use
/// `same_app`; `same:` and `same_app:` select `same_app`, `any:` and
/// `any_app:` select `any_app`.
pub fn parse_restore_match_rules_text(text: &str) -> (r: Vec<RestoreMatchRule>)
    ensures
        rules_model(r@) == spec_alias_rules(text@),
{
    let chars = text_chars(text);
    let n = chars.len();
    let mut rules: Vec<RestoreMatchRule> = Vec::new();
    let mut start: usize = 0;
    assert(chars@.take(0) =~= Seq::<char>::empty());
    assert(chars@.subrange(0, 0) =~= Seq::<char>::empty());
    for i in 0..n
        invariant
            n == chars@.len(),
            chars@ == text@,
            start <= i,
            split_acc(chars@.take(i as int)).1 == chars@.subrange(start as int, i as int),
            rules_model(rules@) == rules_of_lines(split_acc(chars@.take(i as int)).0),
    {
        let ghost t = chars@.take(i + 1);
        assert(t.drop_last() =~= chars@.take(i as int));
        let ghost done = split_acc(chars@.take(i as int)).0;
        if chars[i] == '\n' {
            let ghost prev = rules@;
            match alias_line(text, &chars, start, i) {
                Some(rule) => {
                    rules.push(rule);
                    assert(rules_model(rules@) =~= rules_model(prev).push(rule.model()));
                },
                None => {},
            }
            assert(done.push(chars@.subrange(start as int, i as int)).drop_last() =~= done);
            start = i + 1;
            assert(chars@.subrange(start as int, i + 1) =~= Seq::<char>::empty());
        } else {
            assert(chars@.subrange(start as int, i as int).push(chars@[i as int]) =~= chars@.subrange(
                start as int,
                i + 1,
            ));
        }
    }
    assert(chars@.take(n as int) =~= chars@);
    let ghost done = split_acc(chars@).0;
    let ghost prev = rules@;
    match alias_line(text, &chars, start, n) {
        Some(rule) => {
            rules.push(rule);
            assert(rules_model(rules@) =~= rules_model(prev).push(rule.model()));
        },
        None => {},
    }
    assert(done.push(chars@.subrange(start as int, n as int)).drop_last() =~= done);
    rules
}


/// In-process model of the patched OBS PipeWire ScreenCast client.
#[derive(Debug, Clone)]
pub struct ObsClientModel {
    source_name: String,
    restore_token: Option<String>,
    restore_action: RestoreAction,
    restore_match_rules: Option<String>,
}

/// Whether `v` is a `restore_policy` value that the portal reads back as
/// default action `action` with no reason-specific overrides.
pub open spec fn is_default_only_policy(v: Value, action: RestoreAction) -> bool {
    &&& spec_policy_error(v) is None
    &&& v matches Value::Dict(e)
    &&& spec_policy_default(e@) == Some(action)
    &&& forall|r| #[trigger] spec_policy_override(e@, r) is None
}

/// Whether `v` is exactly the dict `{default_action: action}`, the one
/// `restore_policy` value OBS sends.
pub open spec fn is_default_action_dict(v: Value, action: RestoreAction) -> bool {
    &&& v matches Value::Dict(d)
    &&& d@.len() == 1
    &&& d@[0].0@ == "default_action"@
    &&& d@[0].1 == Value::U32(action.code())
}

/// One of the four keys the OBS client may send.
pub open spec fn is_obs_key(k: Seq<char>) -> bool {
    ||| k == "restore_token"@
    ||| k == "source_label"@
    ||| k == "restore_policy"@
    ||| k == "restore_match_rules"@
}

/// No key occurs twice.
pub open spec fn distinct_keys(ks: Seq<Seq<char>>) -> bool {
    forall|i: int, j: int| 0 <= i < j < ks.len() ==> #[trigger] ks[i] != #[trigger] ks[j]
}

/// The alias text of the representative model behind [`ObsClientModel::representative_v6_keys`].
pub open spec fn representative_aliases() -> Seq<char> {
    "same: project\nany_app: shared"@
}

impl ObsClientModel {
    pub closed spec fn name_view(self) -> Seq<char> {
        self.source_name@
    }

    pub closed spec fn token_view(self) -> Option<Seq<char>> {
        opt_str_view(self.restore_token)
    }

    pub closed spec fn action_view(self) -> RestoreAction {
        self.restore_action
    }

    pub closed spec fn aliases_view(self) -> Option<Seq<char>> {
        opt_str_view(self.restore_match_rules)
    }

    /// Whether OBS holds a non-empty restore token to send.
    pub open spec fn sends_token(self) -> bool {
        self.token_view() matches Some(t) && t.len() > 0
    }

    /// The rules of the alias text, or none when no alias text is set.
    pub open spec fn alias_rules(self) -> Seq<(Seq<char>, RestoreMatchScope)> {
        match self.aliases_view() {
            Some(t) => spec_alias_rules(t),
            None => seq![],
        }
    }

    /// A model with OBS' patched defaults: no token, restore action `Skip`, no aliases.
    pub fn new(source_name: &str) -> (m: Self)
        ensures
            m.name_view() == source_name@,
            m.token_view() is None,
            m.action_view() == RestoreAction::Skip,
            m.aliases_view() is None,
    {
        ObsClientModel {
            source_name: source_name.to_owned(),
            restore_token: None,
            restore_action: RestoreAction::Skip,
            restore_match_rules: None,
        }
    }

    /// Set the persisted restore token OBS would send.
    pub fn with_restore_token(self, restore_token: &str) -> (m: Self)
        ensures
            m.name_view() == self.name_view(),
            m.token_view() == Some(restore_token@),
            m.action_view() == self.action_view(),
            m.aliases_view() == self.aliases_view(),
    {
        let mut m = self;
        m.restore_token = Some(restore_token.to_owned());
        m
    }

    /// Override OBS' restore-failure action.
    pub fn with_restore_action(self, restore_action: RestoreAction) -> (m: Self)
        ensures
            m.name_view() == self.name_view(),
            m.token_view() == self.token_view(),
            m.action_view() == restore_action,
            m.aliases_view() == self.aliases_view(),
    {
        let mut m = self;
        m.restore_action = restore_action;
        m
    }

    /// Set OBS' multiline restore-alias text.
    pub fn with_restore_match_rules(self, restore_match_rules: &str) -> (m: Self)
        ensures
            m.name_view() == self.name_view(),
            m.token_view() == self.token_view(),
            m.action_view() == self.action_view(),
            m.aliases_view() == Some(restore_match_rules@),
    {
        let mut m = self;
        m.restore_match_rules = Some(restore_match_rules.to_owned());
        m
    }

    /// The rules OBS derives from its alias text.
    pub fn parsed_restore_match_rules(&self) -> (r: Vec<RestoreMatchRule>)
        ensures
            rules_model(r@) == self.alias_rules(),
    {
        match &self.restore_match_rules {
            Some(text) => parse_restore_match_rules_text(text.as_str()),
            None => Vec::new(),
        }
    }

    /// The keys this model sends for a representative v6 restore call: a
    /// non-empty source name, a non-empty token and the alias text
    /// `same: project` / `any_app: shared`.
    pub fn representative_v6_keys() -> (r: Vec<&'static str>)
        ensures
            forall|i: int| 0 <= i < r@.len() ==> is_obs_key((#[trigger] r@[i])@),
            forall|i: int| 0 <= i < r@.len() ==> is_accepted_key((#[trigger] r@[i])@),
            forall|i: int, j: int| 0 <= i < j < r@.len() ==> (#[trigger] r@[i])@ != (#[trigger] r@[j])@,
            exists|i: int| 0 <= i < r@.len() && (#[trigger] r@[i])@ == "restore_token"@,
            exists|i: int| 0 <= i < r@.len() && (#[trigger] r@[i])@ == "source_label"@,
            exists|i: int| 0 <= i < r@.len() && (#[trigger] r@[i])@ == "restore_policy"@,
            (exists|i: int| 0 <= i < r@.len() && (#[trigger] r@[i])@ == "restore_match_rules"@) == (
            spec_alias_rules(representative_aliases()).len() > 0),
    {
        let model = ObsClientModel::new("OBS Source").with_restore_token("token").with_restore_match_rules(
            "same: project\nany_app: shared",
        );
        proof {
            reveal_strlit("OBS Source");
            reveal_strlit("token");
            assert("OBS Source"@.len() > 0);
            assert("token"@.len() > 0);
        }
        let options = model.select_sources_options(6);
        let mut r: Vec<&'static str> = Vec::new();
        let n = options.len();
        for i in 0..n
            invariant
                n == options@.len(),
                r@.len() == i,
                forall|k: int| 0 <= k < i ==> (#[trigger] r@[k])@ == keys(options@)[k],
                forall|k: int| 0 <= k < n ==> is_obs_key(#[trigger] keys(options@)[k]),
        {
            let key = options[i].0.as_str();
            assert(is_obs_key(keys(options@)[i as int]));
            let k: &'static str = if str_eq(key, "restore_token") {
                "restore_token"
            } else if str_eq(key, "source_label") {
                "source_label"
            } else if str_eq(key, "restore_policy") {
                "restore_policy"
            } else {
                assert(key@ == "restore_match_rules"@);
                "restore_match_rules"
            };
            r.push(k);
        }
        proof {
            lemma_has_key_index(options@, "restore_token"@);
            lemma_has_key_index(options@, "source_label"@);
            lemma_has_key_index(options@, "restore_policy"@);
            lemma_has_key_index(options@, "restore_match_rules"@);
            assert(keys(options@).len() == n);
            if exists|i: int| 0 <= i < options@.len() && (#[trigger] options@[i]).0@ == "restore_token"@ {
                let i = choose|i: int| 0 <= i < options@.len() && (#[trigger] options@[i]).0@ == "restore_token"@;
                assert(r@[i]@ == "restore_token"@);
            }
            if exists|i: int| 0 <= i < options@.len() && (#[trigger] options@[i]).0@ == "source_label"@ {
                let i = choose|i: int| 0 <= i < options@.len() && (#[trigger] options@[i]).0@ == "source_label"@;
                assert(r@[i]@ == "source_label"@);
            }
            if exists|i: int| 0 <= i < options@.len() && (#[trigger] options@[i]).0@ == "restore_policy"@ {
                let i = choose|i: int| 0 <= i < options@.len() && (#[trigger] options@[i]).0@ == "restore_policy"@;
                assert(r@[i]@ == "restore_policy"@);
            }
            if exists|i: int| 0 <= i < options@.len() && (#[trigger] options@[i]).0@ == "restore_match_rules"@ {
                let i = choose|i: int| 0 <= i < options@.len() && (#[trigger] options@[i]).0@ == "restore_match_rules"@;
                assert(r@[i]@ == "restore_match_rules"@);
            }
            if exists|i: int| 0 <= i < r@.len() && (#[trigger] r@[i])@ == "restore_match_rules"@ {
                let i = choose|i: int| 0 <= i < r@.len() && (#[trigger] r@[i])@ == "restore_match_rules"@;
                assert(options@[i].0@ == "restore_match_rules"@);
            }
            assert forall|i: int| 0 <= i < r@.len() implies is_accepted_key((#[trigger] r@[i])@) by {
                assert(is_accepted_key(keys(options@)[i]));
            }
            assert forall|i: int, j: int| 0 <= i < j < r@.len() implies (#[trigger] r@[i])@ != (
            #[trigger] r@[j])@ by {
                assert(keys(options@)[i] != keys(options@)[j]);
            }
        }
        r
    }

    /// Whether `o` are the `SelectSources` options this model sends to a portal
    /// of version `portal_version`: only its own keys, each once; the token
    /// when it is non-empty; and on v6 portals the source name as label and,
    /// with a token, the restore policy and the alias rules.
    pub open spec fn is_obs_options(self, portal_version: u32, o: Options) -> bool {
        &&& forall|i: int| 0 <= i < o@.len() ==> is_obs_key(#[trigger] keys(o@)[i])
        &&& forall|i: int| 0 <= i < o@.len() ==> is_accepted_key(#[trigger] keys(o@)[i])
        &&& distinct_keys(keys(o@))
        &&& has_key(o@, "restore_token"@) == self.sends_token()
        &&& self.sends_token() ==> lookup_str(o@, "restore_token"@) == self.token_view()
        &&& has_key(o@, "source_label"@) == (portal_version >= 6 && self.name_view().len() > 0)
        &&& has_key(o@, "source_label"@) ==> lookup_str(o@, "source_label"@) == Some(self.name_view())
        &&& has_key(o@, "restore_policy"@) == (portal_version >= 6 && self.sends_token())
        &&& has_key(o@, "restore_policy"@) ==> (lookup(o@, "restore_policy"@) matches Some(v)
            && is_default_action_dict(v, self.action_view())
            && is_default_only_policy(v, self.action_view()))
        &&& has_key(o@, "restore_match_rules"@) == (portal_version >= 6 && self.sends_token()
            && self.alias_rules().len() > 0)
        &&& has_key(o@, "restore_match_rules"@) ==> (lookup(o@, "restore_match_rules"@) matches Some(v)
            && encodes_rules(v, self.alias_rules()))
    }

    /// The `SelectSources` options OBS sends to a portal of the given version.
    ///
    /// The restore token goes to every portal; the v6 keys only to portals of
    /// version 6 or later: the source name as `source_label`, and, with a token,
    /// a `restore_policy` holding the restore action and the alias rules.
    pub fn select_sources_options(&self, portal_version: u32) -> (o: Options)
        ensures
            self.is_obs_options(portal_version, o),
    {
        proof {
            reveal_strlit("restore_token");
            reveal_strlit("source_label");
            reveal_strlit("restore_policy");
            reveal_strlit("restore_match_rules");
            reveal_strlit("default_action");
            reveal_strlit("actions");
            assert("restore_token"@.len() == 13);
            assert("source_label"@.len() == 12);
            assert("restore_policy"@.len() == 14);
            assert("restore_match_rules"@.len() == 19);
            assert("default_action"@.len() == 14);
            assert("actions"@.len() == 7);
            lemma_accepted_keys();
        }
        let mut options: Options = Vec::new();
        let send_token = match &self.restore_token {
            Some(t) => !t.as_str().is_empty(),
            None => false,
        };
        if send_token {
            let t = match &self.restore_token {
                Some(t) => t.clone(),
                None => String::new(),
            };
            let e = entry("restore_token", Value::Str(t));
            proof {
                lemma_lookup_push(options@, e);
            }
            options.push(e);
        }
        if portal_version < 6 {
            return options;
        }
        if !self.source_name.as_str().is_empty() {
            let e = entry("source_label", Value::Str(self.source_name.clone()));
            let ghost prev = options@;
            proof {
                lemma_lookup_push(prev, e);
            }
            options.push(e);
            assert(keys(options@) =~= keys(prev).push(e.0@));
        }
        if send_token {
            let d = entry("default_action", Value::U32(self.restore_action.as_u32()));
            proof {
                lemma_lookup_push(Seq::empty(), d);
                assert(seq![d] =~= Seq::empty().push(d));
            }
            let policy_entries = vec![d];
            assert(policy_entries@ =~= Seq::empty().push(d));
            let policy = Value::Dict(policy_entries);
            assert(spec_policy_error(policy) is None);
            assert(spec_policy_default(policy_entries@) == Some(self.action_view()));
            assert(is_default_only_policy(policy, self.action_view()));
            assert(is_default_action_dict(policy, self.action_view()));
            let e = entry("restore_policy", policy);
            let ghost prev = options@;
            proof {
                lemma_lookup_push(prev, e);
            }
            options.push(e);
            assert(keys(options@) =~= keys(prev).push(e.0@));
            let rules = self.parsed_restore_match_rules();
            if rules.len() > 0 {
                let e = entry("restore_match_rules", restore_match_rules_value(rules.as_slice()));
                let ghost prev = options@;
                proof {
                    lemma_lookup_push(prev, e);
                }
                options.push(e);
                assert(keys(options@) =~= keys(prev).push(e.0@));
            }
        }
        options
    }
}


/// What OBS sends is what the mock portal reads back: options of `m` with at
/// most 64 alias rules are accepted, and the call recorded from them carries
/// OBS' token, its source name as label, a policy whose action is OBS'
/// restore action for every reason, and OBS' alias rules.
pub proof fn obs_options_are_read_back(
    m: ObsClientModel,
    portal_version: u32,
    o: Options,
    c: Call,
    h: Seq<char>,
)
    requires
        m.is_obs_options(portal_version, o),
        m.alias_rules().len() <= 64,
    ensures
        spec_select_error(o@) is None,
        is_recorded_call(c, h, o) ==> {
            &&& opt_str_view(c.restore_token) == if m.sends_token() {
                m.token_view()
            } else {
                None
            }
            &&& opt_str_view(c.source_label) == if portal_version >= 6 && m.name_view().len() > 0 {
                Some(m.name_view())
            } else {
                None
            }
            &&& (portal_version >= 6 && m.sends_token()) ==> (c.restore_policy matches Some(p) && p.default_action
                == Some(m.action_view()) && forall|r: RestoreFailReason| #[trigger] p.spec_action_for(r) == m.action_view())
            &&& !(portal_version >= 6 && m.sends_token()) ==> c.restore_policy is None
            &&& (portal_version >= 6 && m.sends_token() && m.alias_rules().len() > 0) ==> (
            c.restore_match_rules matches Some(rs) && rules_model(rs@) == m.alias_rules())
            &&& !(portal_version >= 6 && m.sends_token() && m.alias_rules().len() > 0)
                ==> c.restore_match_rules is None
        },
{
    if has_key(o@, "restore_match_rules"@) {
        let v = lookup(o@, "restore_match_rules"@)->0;
        restore_match_rules_roundtrip(v, m.alias_rules());
    }
    if is_recorded_call(c, h, o) && portal_version >= 6 && m.sends_token() {
        let p = c.restore_policy->0;
        assert forall|r: RestoreFailReason| #[trigger] p.spec_action_for(r) == m.action_view() by {
            let v = lookup(o@, "restore_policy"@)->0;
            assert(spec_policy_override(v->Dict_0@, r) is None);
            assert(override_for(p.actions@, r) is None);
        }
    }
}

} // verus!
