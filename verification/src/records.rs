//! Records of the `ScreenCast` v6 restore protocol: failure reasons, actions,
//! per-reason restore policies, failure result objects and source definitions.
use vstd::prelude::*;
use vstd::std_specs::cmp::PartialEqSpecImpl;

use crate::rules::RestoreMatchRule;
use crate::value::Options;
use crate::value::{
    entry, get, keys, lemma_lookup_push, lookup, lookup_bool, lookup_str, lookup_u32, str_eq, str_value,
    Value,
};

verus! {

/// Reason a restore token could not be honoured.
#[derive(Debug, Clone, Copy, PartialEq, Eq, Hash, Structural)]
pub enum RestoreFailReason {
    TokenNotFound,
    SourceUnavailable,
    PermissionRevoked,
    TokenConsumed,
}

/// The reason whose standardized wire string is `s`, if any.
pub open spec fn reason_from_wire(s: Seq<char>) -> Option<RestoreFailReason> {
    if s == "token_not_found"@ {
        Some(RestoreFailReason::TokenNotFound)
    } else if s == "source_unavailable"@ {
        Some(RestoreFailReason::SourceUnavailable)
    } else if s == "permission_revoked"@ {
        Some(RestoreFailReason::PermissionRevoked)
    } else if s == "token_consumed"@ {
        Some(RestoreFailReason::TokenConsumed)
    } else {
        None
    }
}

impl RestoreFailReason {
    /// The standardized wire string of this reason.
    pub open spec fn wire_name(self) -> Seq<char> {
        match self {
            RestoreFailReason::TokenNotFound => "token_not_found"@,
            RestoreFailReason::SourceUnavailable => "source_unavailable"@,
            RestoreFailReason::PermissionRevoked => "permission_revoked"@,
            RestoreFailReason::TokenConsumed => "token_consumed"@,
        }
    }

    /// Whether a client should discard the token after this failure.
    pub open spec fn spec_token_invalid(self) -> bool {
        !(self is SourceUnavailable)
    }

    pub fn as_str(self) -> (s: &'static str)
        ensures
            s@ == self.wire_name(),
    {
        match self {
            RestoreFailReason::TokenNotFound => "token_not_found",
            RestoreFailReason::SourceUnavailable => "source_unavailable",
            RestoreFailReason::PermissionRevoked => "permission_revoked",
            RestoreFailReason::TokenConsumed => "token_consumed",
        }
    }

    /// `true` when the token should be discarded; `false` only for
    /// `source_unavailable`, where the token resolved but its source is absent.
    pub fn token_invalid(self) -> (b: bool)
        ensures
            b == self.spec_token_invalid(),
    {
        !matches!(self, RestoreFailReason::SourceUnavailable)
    }

    /// Parse a standardized reason string.
    pub fn from_wire(v: &str) -> (r: Result<Self, InvalidRestoreFailReason>)
        ensures
            match r {
                Ok(reason) => reason_from_wire(v@) == Some(reason),
                Err(e) => reason_from_wire(v@) is None && e.0@ == v@,
            },
    {
        if str_eq(v, "token_not_found") {
            Ok(RestoreFailReason::TokenNotFound)
        } else if str_eq(v, "source_unavailable") {
            Ok(RestoreFailReason::SourceUnavailable)
        } else if str_eq(v, "permission_revoked") {
            Ok(RestoreFailReason::PermissionRevoked)
        } else if str_eq(v, "token_consumed") {
            Ok(RestoreFailReason::TokenConsumed)
        } else {
            Err(InvalidRestoreFailReason(v.to_owned()))
        }
    }
}

impl<'a> TryFrom<&'a str> for RestoreFailReason {
    type Error = InvalidRestoreFailReason;

    /// Parse a standardized reason string; any other string, compared
    /// exactly, is refused and carried in the error.
    fn try_from(v: &'a str) -> (r: Result<Self, InvalidRestoreFailReason>)
        ensures
            match r {
                Ok(reason) => reason_from_wire(v@) == Some(reason),
                Err(e) => reason_from_wire(v@) is None && e.0@ == v@,
            },
    {
        RestoreFailReason::from_wire(v)
    }
}

/// The trait-level statement of `try_from` is not claimed here: the refused
/// string is carried in a `String`, which a specification can only fix by its
/// characters. The statement sits on the method itself (and on `from_wire`).
impl<'a> vstd::std_specs::convert::TryFromSpecImpl<&'a str> for RestoreFailReason {
    open spec fn obeys_try_from_spec() -> bool {
        false
    }

    open spec fn try_from_spec(v: &'a str) -> Result<Self, InvalidRestoreFailReason> {
        match reason_from_wire(v@) {
            Some(r) => Ok(r),
            None => Err(choose|e: InvalidRestoreFailReason| e.0@ == v@),
        }
    }
}

/// Reason strings round trip: each reason's string parses back to it, and
/// only that exact string does.
pub proof fn lemma_reason_wire_roundtrip(r: RestoreFailReason)
    ensures
        reason_from_wire(r.wire_name()) == Some(r),
        forall|v: Seq<char>| #[trigger] reason_from_wire(v) == Some(r) <==> v == r.wire_name(),
{
    reveal_strlit("token_not_found");
    reveal_strlit("source_unavailable");
    reveal_strlit("permission_revoked");
    reveal_strlit("token_consumed");
    assert("token_not_found"@[0] != "source_unavailable"@[0]);
    assert("token_not_found"@[0] != "permission_revoked"@[0]);
    assert("token_not_found"@[6] != "token_consumed"@[6]);
    assert("source_unavailable"@[0] != "permission_revoked"@[0]);
    assert("source_unavailable"@[0] != "token_consumed"@[0]);
    assert("permission_revoked"@[0] != "token_consumed"@[0]);
}

pub proof fn lemma_all_wire_names()
    ensures
        forall|r: RestoreFailReason| #[trigger] reason_from_wire(r.wire_name()) == Some(r),
{
    assert forall|r: RestoreFailReason| #[trigger] reason_from_wire(r.wire_name()) == Some(r) by {
        lemma_reason_wire_roundtrip(r);
    }
}

/// Error returned when converting an unknown reason string.
#[derive(Debug, Clone, PartialEq, Eq)]
pub struct InvalidRestoreFailReason(pub String);

/// Failure reported by a scenario when a restore cannot proceed.
#[derive(Debug, Clone, Copy, PartialEq, Eq)]
pub struct RestoreFailure {
    pub reason: RestoreFailReason,
}

/// Action to take when a restore token cannot be honoured.
#[derive(Debug, Clone, Copy, PartialEq, Eq, Hash, Structural)]
pub enum RestoreAction {
    /// Show the picker dialog (the default, backward-compatible behaviour).
    Prompt,
    /// Answer `Response(1, ...)` without prompting.
    Skip,
    /// Answer `Response(2, ...)` without prompting.
    Error,
}

/// The action whose wire value is `v`, if any.
pub open spec fn action_from_code(v: u32) -> Option<RestoreAction> {
    if v == 0 {
        Some(RestoreAction::Prompt)
    } else if v == 1 {
        Some(RestoreAction::Skip)
    } else if v == 2 {
        Some(RestoreAction::Error)
    } else {
        None
    }
}

impl RestoreAction {
    /// The wire value of this action, which is also the response code it produces.
    pub open spec fn code(self) -> u32 {
        match self {
            RestoreAction::Prompt => 0,
            RestoreAction::Skip => 1,
            RestoreAction::Error => 2,
        }
    }

    pub fn as_u32(self) -> (v: u32)
        ensures
            v == self.code(),
            action_from_code(v) == Some(self),
    {
        match self {
            RestoreAction::Prompt => 0,
            RestoreAction::Skip => 1,
            RestoreAction::Error => 2,
        }
    }

    /// Convert a wire value; values other than 0, 1 and 2 are rejected.
    pub fn from_u32(v: u32) -> (r: Result<Self, InvalidRestoreAction>)
        ensures
            match r {
                Ok(a) => action_from_code(v) == Some(a) && a.code() == v,
                Err(e) => action_from_code(v) is None && e.0 == v,
            },
    {
        if v == 0 {
            Ok(RestoreAction::Prompt)
        } else if v == 1 {
            Ok(RestoreAction::Skip)
        } else if v == 2 {
            Ok(RestoreAction::Error)
        } else {
            Err(InvalidRestoreAction(v))
        }
    }
}

impl TryFrom<u32> for RestoreAction {
    type Error = InvalidRestoreAction;

    fn try_from(v: u32) -> Result<Self, InvalidRestoreAction> {
        RestoreAction::from_u32(v)
    }
}

impl vstd::std_specs::convert::TryFromSpecImpl<u32> for RestoreAction {
    open spec fn obeys_try_from_spec() -> bool {
        true
    }

    open spec fn try_from_spec(v: u32) -> Result<Self, InvalidRestoreAction> {
        match action_from_code(v) {
            Some(a) => Ok(a),
            None => Err(InvalidRestoreAction(v)),
        }
    }
}

/// Error returned when converting an invalid `u32` to a [`RestoreAction`].
#[derive(Debug, Clone, Copy, PartialEq, Eq)]
pub struct InvalidRestoreAction(pub u32);


/// Per-reason restore failure policy supplied as `restore_policy: a{sv}`.
///
/// Two policies are equal when they have the same default action and the
/// same override for every reason, whatever the order of their overrides.
#[derive(Debug, Clone, Eq)]
pub struct RestorePolicy {
    pub default_action: Option<RestoreAction>,
    /// Reason-specific overrides, at most one per reason.
    pub actions: Vec<(RestoreFailReason, RestoreAction)>,
}

impl Default for RestorePolicy {
    /// No default action and no overrides: every failure prompts.
    fn default() -> (p: Self)
        ensures
            p.default_action is None,
            p.actions@.len() == 0,
    {
        RestorePolicy { default_action: None, actions: Vec::new() }
    }
}

/// The override recorded for `reason` (the last one, should there be several).
pub open spec fn override_for(
    actions: Seq<(RestoreFailReason, RestoreAction)>,
    reason: RestoreFailReason,
) -> Option<RestoreAction>
    decreases actions.len(),
{
    if actions.len() == 0 {
        None
    } else if actions.last().0 == reason {
        Some(actions.last().1)
    } else {
        override_for(actions.drop_last(), reason)
    }
}

/// No reason has two overrides.
pub open spec fn distinct_reasons(actions: Seq<(RestoreFailReason, RestoreAction)>) -> bool {
    forall|i: int, j: int|
        0 <= i < j < actions.len() ==> #[trigger] actions[i].0 != #[trigger] actions[j].0
}

pub proof fn lemma_override_none(actions: Seq<(RestoreFailReason, RestoreAction)>, reason: RestoreFailReason)
    ensures
        override_for(actions, reason) is None <==> (forall|j: int|
            0 <= j < actions.len() ==> #[trigger] actions[j].0 != reason),
    decreases actions.len(),
{
    if actions.len() > 0 {
        lemma_override_none(actions.drop_last(), reason);
        if override_for(actions, reason) is None {
            assert forall|j: int| 0 <= j < actions.len() implies #[trigger] actions[j].0 != reason by {
                if j < actions.len() - 1 {
                    assert(actions.drop_last()[j] == actions[j]);
                }
            }
        } else if forall|j: int| 0 <= j < actions.len() ==> #[trigger] actions[j].0 != reason {
            assert(actions[actions.len() - 1].0 != reason);
            assert forall|j: int| 0 <= j < actions.drop_last().len() implies #[trigger] actions.drop_last()[j].0
                != reason by {
                assert(actions.drop_last()[j] == actions[j]);
            }
        }
    }
}

impl RestorePolicy {
    /// The action that applies to `reason`: its override, else the default
    /// action, else prompt.
    pub open spec fn spec_action_for(self, reason: RestoreFailReason) -> RestoreAction {
        match override_for(self.actions@, reason) {
            Some(a) => a,
            None => match self.default_action {
                Some(a) => a,
                None => RestoreAction::Prompt,
            },
        }
    }

    /// The override recorded for `reason`, if any.
    pub fn override_of(&self, reason: RestoreFailReason) -> (o: Option<RestoreAction>)
        ensures
            o == override_for(self.actions@, reason),
    {
        let mut i = self.actions.len();
        assert(self.actions@.take(i as int) =~= self.actions@);
        while i > 0
            invariant
                i <= self.actions.len(),
                override_for(self.actions@, reason) == override_for(self.actions@.take(i as int), reason),
            decreases i,
        {
            i -= 1;
            assert(self.actions@.take(i + 1).drop_last() =~= self.actions@.take(i as int));
            if self.actions[i].0 == reason {
                return Some(self.actions[i].1);
            }
        }
        None
    }

    pub fn action_for(&self, reason: RestoreFailReason) -> (a: RestoreAction)
        ensures
            a == self.spec_action_for(reason),
    {
        match self.override_of(reason) {
            Some(a) => a,
            None => match self.default_action {
                Some(a) => a,
                None => RestoreAction::Prompt,
            },
        }
    }

    /// Whether two policies have the same default action and the same
    /// override for every reason.
    pub open spec fn same_policy(self, other: Self) -> bool {
        &&& self.default_action == other.default_action
        &&& forall|r: RestoreFailReason| #[trigger] override_for(self.actions@, r) == override_for(
            other.actions@,
            r,
        )
    }
}

fn same_action(a: Option<RestoreAction>, b: Option<RestoreAction>) -> (r: bool)
    ensures
        r == (a == b),
{
    match (a, b) {
        (None, None) => true,
        (Some(x), Some(y)) => x == y,
        _ => false,
    }
}

impl PartialEq for RestorePolicy {
    fn eq(&self, other: &Self) -> (r: bool) {
        let r = same_action(self.default_action, other.default_action) && same_action(
            self.override_of(RestoreFailReason::TokenNotFound),
            other.override_of(RestoreFailReason::TokenNotFound),
        ) && same_action(
            self.override_of(RestoreFailReason::SourceUnavailable),
            other.override_of(RestoreFailReason::SourceUnavailable),
        ) && same_action(
            self.override_of(RestoreFailReason::PermissionRevoked),
            other.override_of(RestoreFailReason::PermissionRevoked),
        ) && same_action(
            self.override_of(RestoreFailReason::TokenConsumed),
            other.override_of(RestoreFailReason::TokenConsumed),
        );
        proof {
            if r {
                assert forall|x: RestoreFailReason| #[trigger] override_for(self.actions@, x)
                    == override_for(other.actions@, x) by {
                    match x {
                        RestoreFailReason::TokenNotFound => {},
                        RestoreFailReason::SourceUnavailable => {},
                        RestoreFailReason::PermissionRevoked => {},
                        RestoreFailReason::TokenConsumed => {},
                    }
                }
            }
        }
        r
    }
}

impl PartialEqSpecImpl for RestorePolicy {
    open spec fn obeys_eq_spec() -> bool {
        true
    }

    open spec fn eq_spec(&self, other: &Self) -> bool {
        self.same_policy(*other)
    }
}

/// Replace the override for `reason` by `action` (or remove it when `None`).
fn set_override(
    actions: &mut Vec<(RestoreFailReason, RestoreAction)>,
    reason: RestoreFailReason,
    action: Option<RestoreAction>,
)
    requires
        distinct_reasons(old(actions)@),
    ensures
        distinct_reasons(final(actions)@),
        override_for(final(actions)@, reason) == action,
        forall|r: RestoreFailReason|
            r != reason ==> override_for(final(actions)@, r) == override_for(old(actions)@, r),
{
    let mut kept: Vec<(RestoreFailReason, RestoreAction)> = Vec::new();
    let n = actions.len();
    for i in 0..n
        invariant
            n == actions.len(),
            distinct_reasons(actions@),
            distinct_reasons(kept@),
            override_for(kept@, reason) is None,
            forall|r: RestoreFailReason|
                r != reason ==> #[trigger] override_for(kept@, r) == override_for(
                    actions@.take(i as int),
                    r,
                ),
    {
        let e = actions[i];
        let ghost prev = kept@;
        proof {
            assert(actions@.take(i + 1).drop_last() =~= actions@.take(i as int));
            assert(actions@.take(i + 1).last() == e);
        }
        if e.0 != reason {
            proof {
                lemma_override_none(actions@.take(i as int), e.0);
                assert forall|j: int| 0 <= j < actions@.take(i as int).len() implies #[trigger] actions@.take(
                    i as int,
                )[j].0 != e.0 by {
                    assert(actions@[j].0 != actions@[i as int].0);
                }
                lemma_override_none(prev, e.0);
            }
            kept.push(e);
            proof {
                assert(kept@.drop_last() =~= prev);
                assert forall|j: int, k: int|
                    0 <= j < k < kept@.len() implies #[trigger] kept@[j].0 != #[trigger] kept@[k].0 by {
                    if k == kept@.len() - 1 {
                        assert(prev[j].0 != e.0);
                    } else {
                        assert(prev[j].0 != prev[k].0);
                    }
                }
            }
        }
        assert forall|r: RestoreFailReason| r != reason implies #[trigger] override_for(kept@, r)
            == override_for(actions@.take(i + 1), r) by {
            assert(override_for(prev, r) == override_for(actions@.take(i as int), r));
            if e.0 != reason {
                assert(kept@.drop_last() =~= prev);
            }
        }
    }
    assert(actions@.take(n as int) =~= actions@);
    let ghost mid = kept@;
    match action {
        Some(a) => {
            proof {
                lemma_override_none(kept@, reason);
            }
            let ghost before = kept@;
            kept.push((reason, a));
            assert(kept@.drop_last() =~= before);
            assert forall|j: int, k: int|
                0 <= j < k < kept@.len() implies #[trigger] kept@[j].0 != #[trigger] kept@[k].0 by {
                if k == kept@.len() - 1 {
                    assert(before[j].0 != reason);
                } else {
                    assert(before[j].0 != before[k].0);
                }
            }
        },
        None => {},
    }
    assert forall|r: RestoreFailReason| r != reason implies #[trigger] override_for(kept@, r)
        == override_for(actions@, r) by {
        assert(override_for(mid, r) == override_for(actions@.take(n as int), r));
        if action is Some {
            assert(kept@.drop_last() =~= mid);
        }
    }
    *actions = kept;
}

/// Error returned when the `restore_policy` vardict shape is invalid.
#[derive(Debug, Clone, Copy, PartialEq, Eq, Structural)]
pub enum InvalidRestorePolicy {
    /// `restore_policy` must be an `a{sv}` vardict.
    NotVardict,
    /// `restore_policy.default_action` must be `u`.
    InvalidDefaultAction,
    /// `restore_policy.actions` must be `a{su}`.
    InvalidActions,
}

/// Whether `v` is a string-to-`u32` dictionary (`a{su}`).
pub open spec fn is_su_dict(v: Value) -> bool {
    match v {
        Value::Dict(e) => forall|i: int| 0 <= i < e@.len() ==> (#[trigger] e@[i]).1 is U32,
        _ => false,
    }
}

/// The error, if any, with which a `restore_policy` value is rejected.
pub open spec fn spec_policy_error(v: Value) -> Option<InvalidRestorePolicy> {
    match v {
        Value::Dict(e) => if lookup(e@, "default_action"@) matches Some(d) && !(d is U32) {
            Some(InvalidRestorePolicy::InvalidDefaultAction)
        } else if lookup(e@, "actions"@) matches Some(a) && !is_su_dict(a) {
            Some(InvalidRestorePolicy::InvalidActions)
        } else {
            None
        },
        _ => Some(InvalidRestorePolicy::NotVardict),
    }
}

/// The default action a `restore_policy` dictionary names; unknown action values count as absent.
pub open spec fn spec_policy_default(e: Seq<(String, Value)>) -> Option<RestoreAction> {
    match lookup(e, "default_action"@) {
        Some(Value::U32(n)) => action_from_code(n),
        _ => None,
    }
}

/// The override a `restore_policy` dictionary gives `reason`; unknown action values count as absent.
pub open spec fn spec_policy_override(e: Seq<(String, Value)>, reason: RestoreFailReason) -> Option<
    RestoreAction,
> {
    match lookup(e, "actions"@) {
        Some(Value::Dict(a)) => match lookup(a@, reason.wire_name()) {
            Some(Value::U32(n)) => action_from_code(n),
            _ => None,
        },
        _ => None,
    }
}

/// Whether `p` is the policy that the `restore_policy` value `v` describes.
pub open spec fn is_parsed_policy(p: RestorePolicy, v: Value) -> bool {
    &&& spec_policy_error(v) is None
    &&& v matches Value::Dict(e)
    &&& p.default_action == spec_policy_default(e@)
    &&& forall|reason: RestoreFailReason|
        override_for(p.actions@, reason) == #[trigger] spec_policy_override(e@, reason)
    &&& distinct_reasons(p.actions@)
}

/// Parse the standardized `restore_policy: a{sv}` object.
///
/// Unknown action values are treated as absent, so they fall through to
/// `default_action` and then to prompt. Unknown reason strings are ignored.
#[verifier::loop_isolation(false)]
pub fn parse_restore_policy(value: &Value) -> (r: Result<RestorePolicy, InvalidRestorePolicy>)
    ensures
        match r {
            Ok(p) => is_parsed_policy(p, *value),
            Err(err) => spec_policy_error(*value) == Some(err),
        },
{
    let entries = match value {
        Value::Dict(entries) => entries,
        _ => return Err(InvalidRestorePolicy::NotVardict),
    };
    let default_action = match get(entries, "default_action") {
        Some(Value::U32(n)) => match RestoreAction::from_u32(*n) {
            Ok(a) => Some(a),
            Err(_) => None,
        },
        Some(_) => return Err(InvalidRestorePolicy::InvalidDefaultAction),
        None => None,
    };
    let mut actions: Vec<(RestoreFailReason, RestoreAction)> = Vec::new();
    match get(entries, "actions") {
        Some(Value::Dict(raw)) => {
            let n = raw.len();
            for i in 0..n
                invariant
                    n == raw.len(),
                    forall|k: int| 0 <= k < i ==> (#[trigger] raw@[k]).1 is U32,
            {
                match &raw[i].1 {
                    Value::U32(_) => {},
                    _ => {
                        assert(!(raw@[i as int].1 is U32));
                        assert(!is_su_dict(Value::Dict(*raw)));

                        return Err(InvalidRestorePolicy::InvalidActions);
                    },
                }
            }
            assert(raw@.take(0) =~= Seq::<(String, Value)>::empty());
            for i in 0..n
                invariant
                    n == raw.len(),
                    forall|k: int| 0 <= k < n ==> (#[trigger] raw@[k]).1 is U32,
                    distinct_reasons(actions@),
                    forall|reason: RestoreFailReason|
                        #[trigger] override_for(actions@, reason) == match lookup(
                            raw@.take(i as int),
                            reason.wire_name(),
                        ) {
                            Some(Value::U32(c)) => action_from_code(c),
                            _ => None,
                        },
            {
                proof {
                    assert(raw@.take(i + 1) =~= raw@.take(i as int).push(raw@[i as int]));
                    lemma_lookup_push(raw@.take(i as int), raw@[i as int]);
                    lemma_all_wire_names();
                }
                let code = match &raw[i].1 {
                    Value::U32(c) => *c,
                    _ => 0,
                };
                match RestoreFailReason::from_wire(raw[i].0.as_str()) {
                    Ok(reason) => {
                        let action = match RestoreAction::from_u32(code) {
                            Ok(a) => Some(a),
                            Err(_) => None,
                        };
                        proof {
                            lemma_reason_wire_roundtrip(reason);
                        }
                        set_override(&mut actions, reason, action);
                    },
                    Err(_) => {},
                }
            }
            assert(raw@.take(n as int) =~= raw@);
        },
        Some(_) => return Err(InvalidRestorePolicy::InvalidActions),
        None => {},
    }
    Ok(RestorePolicy { default_action, actions })
}

/// The action a parsed policy gives each reason is the one the client sent:
/// the reason's own recognized action, else the recognized default action,
/// else prompt. Unknown action values and unknown reason strings count as absent.
pub proof fn policy_action_as_sent(p: RestorePolicy, v: Value, reason: RestoreFailReason)
    requires
        is_parsed_policy(p, v),
    ensures
        p.spec_action_for(reason) == match spec_policy_override(v->Dict_0@, reason) {
            Some(a) => a,
            None => match spec_policy_default(v->Dict_0@) {
                Some(a) => a,
                None => RestoreAction::Prompt,
            },
        },
{
}

/// Every recognised reason string in `actions` is applied, the four
/// standardized reasons alike: when the client maps a reason's string to a
/// valid action code in the `actions` dictionary of `restore_policy`, the
/// parsed policy gives that reason the action with that code (0 prompt,
/// 1 skip, 2 error), whatever the default action says.
pub proof fn sent_override_is_applied(
    p: RestorePolicy,
    v: Value,
    e: Vec<(String, Value)>,
    a: Vec<(String, Value)>,
    reason: RestoreFailReason,
    n: u32,
)
    requires
        is_parsed_policy(p, v),
        v == Value::Dict(e),
        lookup(e@, "actions"@) == Some(Value::Dict(a)),
        lookup(a@, reason.wire_name()) == Some(Value::U32(n)),
        n <= 2,
    ensures
        override_for(p.actions@, reason) is Some,
        n == 0 ==> p.spec_action_for(reason) == RestoreAction::Prompt,
        n == 1 ==> p.spec_action_for(reason) == RestoreAction::Skip,
        n == 2 ==> p.spec_action_for(reason) == RestoreAction::Error,
{
    assert(override_for(p.actions@, reason) == spec_policy_override(e@, reason));
}

/// Without an override for a reason, the sent default action applies: a
/// valid `default_action` code gives its action, and no default at all
/// gives prompt.
pub proof fn sent_default_is_applied(
    p: RestorePolicy,
    v: Value,
    e: Vec<(String, Value)>,
    reason: RestoreFailReason,
    n: u32,
)
    requires
        is_parsed_policy(p, v),
        v == Value::Dict(e),
        !(lookup(e@, "actions"@) matches Some(Value::Dict(a)) && lookup(a@, reason.wire_name()) matches Some(
            Value::U32(_),
        )),
    ensures
        lookup(e@, "default_action"@) == Some(Value::U32(n)) && n == 0 ==> p.spec_action_for(reason)
            == RestoreAction::Prompt,
        lookup(e@, "default_action"@) == Some(Value::U32(n)) && n == 1 ==> p.spec_action_for(reason)
            == RestoreAction::Skip,
        lookup(e@, "default_action"@) == Some(Value::U32(n)) && n == 2 ==> p.spec_action_for(reason)
            == RestoreAction::Error,
        lookup(e@, "default_action"@) is None ==> p.spec_action_for(reason) == RestoreAction::Prompt,
{
    assert(override_for(p.actions@, reason) == spec_policy_override(e@, reason));
}

/// Whether `v` is the `restore_failure: a{sv}` object for `reason` and `action`:
/// exactly the keys `reason`, `action` and `token_invalid`.
pub open spec fn is_failure_object(v: Value, reason: RestoreFailReason, action: RestoreAction) -> bool {
    &&& v matches Value::Dict(e)
    &&& keys(e@) == seq!["reason"@, "action"@, "token_invalid"@]
    &&& lookup_str(e@, "reason"@) == Some(reason.wire_name())
    &&& lookup_u32(e@, "action"@) == Some(action.code())
    &&& lookup_bool(e@, "token_invalid"@) == Some(reason.spec_token_invalid())
}

/// The `restore_failure` result object describing a policy-driven skip or error.
pub fn restore_failure_value(reason: RestoreFailReason, action: RestoreAction) -> (v: Value)
    ensures
        is_failure_object(v, reason, action),
{
    let e0 = entry("reason", str_value(reason.as_str()));
    let e1 = entry("action", Value::U32(action.as_u32()));
    let e2 = entry("token_invalid", Value::Bool(reason.token_invalid()));
    let entries = vec![e0, e1, e2];
    proof {
        let s0 = Seq::<(String, Value)>::empty();
        lemma_lookup_push(s0, e0);
        lemma_lookup_push(s0.push(e0), e1);
        lemma_lookup_push(s0.push(e0).push(e1), e2);
        assert(entries@ =~= s0.push(e0).push(e1).push(e2));
        reveal_strlit("reason");
        reveal_strlit("action");
        reveal_strlit("token_invalid");
        assert("reason"@[0] != "action"@[0]);
        let s = entries@;
        assert(s.drop_last().drop_last().drop_last() =~= Seq::<(String, Value)>::empty());
        assert(keys(s) =~= seq!["reason"@, "action"@, "token_invalid"@]);
        assert(s.last() == e2);
        assert(s.drop_last().last() == e1);
        assert(s.drop_last().drop_last().last() == e0);
        assert(lookup_str(s, "reason"@) == Some(reason.wire_name()));
        assert(lookup_u32(s, "action"@) == Some(action.code()));
        assert(lookup_bool(s, "token_invalid"@) == Some(reason.spec_token_invalid()));
    }
    Value::Dict(entries)
}


/// The `SelectSources` option keys the mock portal understands.
pub const ACCEPTED_SELECT_SOURCES_KEYS: [&'static str; 8] = [
    "types",
    "multiple",
    "cursor_mode",
    "persist_mode",
    "restore_token",
    "source_label",
    "restore_policy",
    "restore_match_rules",
];

/// Whether `key` is one of [`ACCEPTED_SELECT_SOURCES_KEYS`].
pub open spec fn is_accepted_key(key: Seq<char>) -> bool {
    exists|i: int| 0 <= i < 8 && #[trigger] ACCEPTED_SELECT_SOURCES_KEYS@[i]@ == key
}

pub proof fn lemma_accepted_keys()
    ensures
        is_accepted_key("types"@),
        is_accepted_key("multiple"@),
        is_accepted_key("cursor_mode"@),
        is_accepted_key("persist_mode"@),
        is_accepted_key("restore_token"@),
        is_accepted_key("source_label"@),
        is_accepted_key("restore_policy"@),
        is_accepted_key("restore_match_rules"@),
{
    assert(ACCEPTED_SELECT_SOURCES_KEYS@[0]@ == "types"@);
    assert(ACCEPTED_SELECT_SOURCES_KEYS@[7]@ == "restore_match_rules"@);
}


/// The `monitor` source type bit.
pub const SOURCE_TYPE_MONITOR: u32 = 1;
/// The `window` source type bit.
pub const SOURCE_TYPE_WINDOW: u32 = 2;
/// The `virtual` source type bit.
pub const SOURCE_TYPE_VIRTUAL: u32 = 4;

/// Source type flags for `SelectSources`: a subset of monitor, window and virtual.
#[derive(Debug, Clone, Copy, PartialEq, Eq, Structural)]
pub struct SourceTypes {
    bits: u32,
}

impl View for SourceTypes {
    type V = u32;

    closed spec fn view(&self) -> u32 {
        self.bits
    }
}

impl SourceTypes {
    /// The flags named in `bits`, with unknown bits dropped.
    pub fn from_bits_truncate(bits: u32) -> (r: Self)
        ensures
            r@ == bits & 7,
    {
        SourceTypes { bits: bits & 7 }
    }

    /// Only the monitor flag.
    pub fn monitor() -> (r: Self)
        ensures
            r@ == SOURCE_TYPE_MONITOR,
    {
        SourceTypes { bits: SOURCE_TYPE_MONITOR }
    }

    pub fn bits(&self) -> (b: u32)
        ensures
            b == self@,
    {
        self.bits
    }
}

/// `std::time::Instant`, an opaque monotonic clock reading carried by each
/// recorded call.
#[verifier::external_type_specification]
#[verifier::external_body]
pub struct ExInstant(std::time::Instant);

/// `std::time::Instant::now`: the clock reading at the call. Nothing is
/// claimed of the value; it only stamps a recorded call.
#[verifier::external_body]
pub(crate) fn clock_now() -> std::time::Instant {
    std::time::Instant::now()
}

/// A recorded `SelectSources` call, for later assertion.
#[derive(Debug, PartialEq)]
pub struct Call {
    /// When the call was recorded.
    pub timestamp: std::time::Instant,
    pub session_handle: String,
    pub source_types: SourceTypes,
    pub multiple: bool,
    pub cursor_mode: u32,
    pub persist_mode: u32,
    pub restore_token: Option<String>,
    pub source_label: Option<String>,
    pub restore_policy: Option<RestorePolicy>,
    pub restore_match_rules: Option<Vec<RestoreMatchRule>>,
    pub raw_options: Options,
}

/// Definition of a single source stream returned by the mock.
#[derive(Debug, PartialEq, Eq)]
pub struct SourceDef {
    pub node_id: u32,
    pub expected_label: Option<String>,
    pub restore_valid: bool,
    pub size: (u32, u32),
    pub position: (i32, i32),
}

impl Clone for SourceDef {
    fn clone(&self) -> (s: Self)
        ensures
            s == *self,
    {
        let expected_label = match &self.expected_label {
            Some(l) => Some(l.clone()),
            None => None,
        };
        SourceDef {
            node_id: self.node_id,
            expected_label,
            restore_valid: self.restore_valid,
            size: self.size,
            position: self.position,
        }
    }
}

impl SourceDef {
    /// A 1920x1080 monitor source at the origin with the given PipeWire node id,
    /// no label and a valid restore token.
    pub fn monitor(node_id: u32) -> (s: Self)
        ensures
            s.node_id == node_id,
            s.expected_label is None,
            s.restore_valid,
            s.size == (1920u32, 1080u32),
            s.position == (0i32, 0i32),
    {
        SourceDef {
            node_id,
            expected_label: None,
            restore_valid: true,
            size: (1920, 1080),
            position: (0, 0),
        }
    }

    /// This source with a human-readable label attached.
    pub fn with_label(self, label: &str) -> (s: Self)
        ensures
            s.expected_label matches Some(l) && l@ == label@,
            s.node_id == self.node_id,
            s.restore_valid == self.restore_valid,
            s.size == self.size,
            s.position == self.position,
    {
        let mut s = self;
        s.expected_label = Some(label.to_owned());
        s
    }

    /// This source with its restore token marked invalid.
    pub fn invalid(self) -> (s: Self)
        ensures
            s == (SourceDef { restore_valid: false, ..self }),
    {
        let mut s = self;
        s.restore_valid = false;
        s
    }
}

} // verus!
