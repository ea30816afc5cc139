//! The mock `ScreenCast` portal as a state machine: which `SelectSources`
//! calls are recorded, how each request is answered, and which sessions are
//! closed by a policy-driven restore failure.
use vstd::prelude::*;

use crate::records::{
    is_failure_object, is_parsed_policy, parse_restore_policy, restore_failure_value,
    spec_policy_error, clock_now, Call, InvalidRestorePolicy, RestoreAction, RestoreFailReason, RestoreFailure,
    SourceTypes,
};
use crate::rules::{is_parsed_rules, parse_restore_match_rules, spec_rules_error, InvalidRestoreMatchRules};
use crate::value::{
    entry, get, keys, lemma_lookup_push, lookup, lookup_bool, lookup_str, lookup_u32, opt_str_view,
    str_eq, Options, Value,
};

verus! {

/// Why a `SelectSources` call is refused before it is recorded.
#[derive(Debug, Clone, Copy, PartialEq, Eq, Structural)]
pub enum SelectSourcesError {
    Policy(InvalidRestorePolicy),
    MatchRules(InvalidRestoreMatchRules),
}

/// Why a `Start` call is refused.
#[derive(Debug, Clone, Copy, PartialEq, Eq, Structural)]
pub enum StartError {
    /// The session was closed by a policy-driven skip or error.
    SessionClosed,
}

/// How a request is answered: the `Response` signal's code and results, and
/// whether the session is closed (`Session::Closed`) afterwards.
#[derive(Debug, PartialEq)]
pub struct PortalResponse {
    pub response: u32,
    pub results: Options,
    pub close_session: bool,
}

/// What to do with a `Start` call.
#[derive(Debug, PartialEq)]
pub enum StartStep {
    /// Ask the scenario and answer with its start result.
    RunScenario,
    /// Answer at once, without asking the scenario.
    Respond(PortalResponse),
}

/// How a restore failure reported at `SelectSources` is handled.
pub enum SelectVerdict {
    /// Answer `response = 0` (the scenario's results on success, none after a failure).
    Proceed,
    /// Answer `response = 0` and apply the action when `Start` comes: the token
    /// resolved, but its source is unavailable.
    Defer(RestoreAction),
    /// Answer with the action's code and a `restore_failure` object, and close the session.
    Refuse(RestoreFailReason, RestoreAction),
}

/// How a `Start` call is handled.
pub enum StartVerdict {
    /// The session is closed: the call fails.
    Rejected,
    /// Ask the scenario.
    Run,
    /// Apply a deferred skip or error for `source_unavailable` and close the session.
    Apply(RestoreAction),
}

/// The abstract state of the mock portal.
pub struct PortalModel {
    /// The next request or session id to hand out.
    pub next_id: u64,
    /// Every recorded `SelectSources` call, in order.
    pub calls: Seq<Call>,
    /// Sessions closed by a policy-driven restore failure.
    pub closed: Set<Seq<char>>,
    /// Restore actions deferred to `Start`, by session handle.
    pub deferred: Map<Seq<char>, RestoreAction>,
}

/// The restore action that applies to a failure for the call `c`: that of its
/// policy, or prompt when it carries none.
pub open spec fn call_action(c: Call, reason: RestoreFailReason) -> RestoreAction {
    match c.restore_policy {
        Some(p) => p.spec_action_for(reason),
        None => RestoreAction::Prompt,
    }
}

/// How the answer of the scenario to the recorded call `c` is handled.
///
/// A policy only matters when the call carries a restore token. A
/// `source_unavailable` failure surfaces at `Start`; the other reasons
/// surface here, and a skip or error closes the session.
pub open spec fn select_verdict(c: Call, outcome: Result<Options, RestoreFailure>) -> SelectVerdict {
    match outcome {
        Ok(_) => SelectVerdict::Proceed,
        Err(f) => if c.restore_token is None {
            SelectVerdict::Proceed
        } else if f.reason is SourceUnavailable {
            SelectVerdict::Defer(call_action(c, f.reason))
        } else if call_action(c, f.reason) is Prompt {
            SelectVerdict::Proceed
        } else {
            SelectVerdict::Refuse(f.reason, call_action(c, f.reason))
        },
    }
}

/// The state after a `SelectSources` answer for session `h`.
pub open spec fn step_select(m: PortalModel, h: Seq<char>, v: SelectVerdict) -> PortalModel {
    PortalModel {
        closed: if v is Refuse {
            m.closed.insert(h)
        } else {
            m.closed
        },
        deferred: match v {
            SelectVerdict::Defer(a) => m.deferred.insert(h, a),
            _ => m.deferred.remove(h),
        },
        ..m
    }
}

/// How a `Start` call for session `h` is handled.
pub open spec fn start_verdict(m: PortalModel, h: Seq<char>) -> StartVerdict {
    if m.closed.contains(h) {
        StartVerdict::Rejected
    } else if m.deferred.contains_key(h) && !(m.deferred[h] is Prompt) {
        StartVerdict::Apply(m.deferred[h])
    } else {
        StartVerdict::Run
    }
}

/// The state after a `Start` call for session `h`.
pub open spec fn step_start(m: PortalModel, h: Seq<char>) -> PortalModel {
    if start_verdict(m, h) is Apply {
        PortalModel { closed: m.closed.insert(h), ..m }
    } else {
        m
    }
}

/// The id that the `k`-th call of `next_id` (counting from 0) hands out on a
/// portal whose counter stands at `n`: the counter plus `k`, wrapping at 2^64.
pub open spec fn drawn_id(n: u64, k: nat) -> u64 {
    ((n + k) % 0x1_0000_0000_0000_0000) as u64
}

/// `next_id` hands out ids in order: the one it returns is the counter, and
/// drawing from the advanced counter continues the same sequence. Answers to
/// `SelectSources` and `Start` leave the counter alone.
pub proof fn next_id_draws_in_order(m: PortalModel, k: nat, h: Seq<char>, v: SelectVerdict)
    ensures
        drawn_id(m.next_id, 0) == m.next_id,
        drawn_id(m.next_id.wrapping_add(1), k) == drawn_id(m.next_id, k + 1),
        step_select(m, h, v).next_id == m.next_id,
        step_start(m, h).next_id == m.next_id,
{
    let n = m.next_id;
    let w = n.wrapping_add(1);
    assert(w == if n == 0xffff_ffff_ffff_ffff { 0 } else { n + 1 });
}

/// The ids one portal hands out are distinct until its counter wraps: any two
/// of the first 2^64 draws from the same counter differ.
pub proof fn drawn_ids_are_distinct(n: u64, i: nat, j: nat)
    requires
        i < j < 0x1_0000_0000_0000_0000,
    ensures
        drawn_id(n, i) != drawn_id(n, j),
{
    let big: int = 0x1_0000_0000_0000_0000;
    assert((n + i) % big == if n + i < big { n + i } else { n + i - big });
    assert((n + j) % big == if n + j < big { n + j } else { n + j - big });
}

/// A closed session stays closed: no answer to `SelectSources` or `Start`,
/// no recorded call and no id handed out reopens it.
pub proof fn closed_sessions_stay_closed(
    m: PortalModel,
    h: Seq<char>,
    s: Seq<char>,
    v: SelectVerdict,
    calls: Seq<Call>,
    next_id: u64,
)
    requires
        m.closed.contains(h),
    ensures
        step_select(m, s, v).closed.contains(h),
        step_start(m, s).closed.contains(h),
        (PortalModel { calls, ..m }).closed.contains(h),
        (PortalModel { next_id, ..m }).closed.contains(h),
{
}

/// `Start` on a closed session is rejected and changes nothing.
pub proof fn closed_session_rejects_start(m: PortalModel, h: Seq<char>)
    requires
        m.closed.contains(h),
    ensures
        start_verdict(m, h) is Rejected,
        step_start(m, h) == m,
{
}

/// With a restore token, a `token_not_found`, `permission_revoked` or
/// `token_consumed` failure whose policy action is skip or error is answered at
/// `SelectSources` with that action's code and a failure object; the session is
/// closed, and every later `Start` on it is rejected.
pub proof fn refused_restore_closes_session(m: PortalModel, c: Call, f: RestoreFailure)
    requires
        c.restore_token is Some,
        !(f.reason is SourceUnavailable),
        !(call_action(c, f.reason) is Prompt),
    ensures
        select_verdict(c, Err(f)) == SelectVerdict::Refuse(f.reason, call_action(c, f.reason)),
        step_select(m, c.session_handle@, select_verdict(c, Err(f))).closed.contains(c.session_handle@),
        start_verdict(step_select(m, c.session_handle@, select_verdict(c, Err(f))), c.session_handle@) is Rejected,
{
}

/// With a restore token, a `source_unavailable` failure whose policy action is
/// skip or error lets `SelectSources` succeed, and surfaces at the next `Start`
/// on that (open) session, which applies the action and closes the session.
pub proof fn unavailable_source_surfaces_at_start(m: PortalModel, c: Call, f: RestoreFailure)
    requires
        c.restore_token is Some,
        f.reason is SourceUnavailable,
        !(call_action(c, f.reason) is Prompt),
        !m.closed.contains(c.session_handle@),
    ensures
        select_verdict(c, Err(f)) == SelectVerdict::Defer(call_action(c, f.reason)),
        start_verdict(step_select(m, c.session_handle@, select_verdict(c, Err(f))), c.session_handle@)
            == StartVerdict::Apply(call_action(c, f.reason)),
        step_start(step_select(m, c.session_handle@, select_verdict(c, Err(f))), c.session_handle@).closed.contains(
            c.session_handle@,
        ),
{
}

/// Whatever the scenario answers, a call whose applicable action is prompt, or
/// that carries no restore token, never closes its session and leaves a later
/// `Start` on it (if it was open) to the scenario.
pub proof fn prompt_keeps_session_open(m: PortalModel, c: Call, outcome: Result<Options, RestoreFailure>)
    requires
        c.restore_token is None || (outcome matches Err(f) && call_action(c, f.reason) is Prompt),
        !m.closed.contains(c.session_handle@),
    ensures
        !(select_verdict(c, outcome) is Refuse),
        start_verdict(step_select(m, c.session_handle@, select_verdict(c, outcome)), c.session_handle@) is Run,
{
}

/// A successful `SelectSources` clears an action deferred to `Start` by an
/// earlier call on the same session.
pub proof fn success_clears_deferred(m: PortalModel, c: Call, extra: Options)
    requires
        !m.closed.contains(c.session_handle@),
    ensures
        select_verdict(c, Ok(extra)) is Proceed,
        start_verdict(step_select(m, c.session_handle@, select_verdict(c, Ok(extra))), c.session_handle@) is Run,
{
}

/// A call whose options carry no `restore_policy` prompts on every restore
/// failure: whatever the reason, `SelectSources` is not refused (it answers
/// `response = 0`), no session is closed, and the next `Start` on the still
/// open session is left to the scenario.
pub proof fn no_policy_prompts_for_every_reason(
    m: PortalModel,
    c: Call,
    h: Seq<char>,
    o: Options,
    f: RestoreFailure,
)
    requires
        is_recorded_call(c, h, o),
        lookup(o@, "restore_policy"@) is None,
        !m.closed.contains(h),
    ensures
        !(select_verdict(c, Err(f)) is Refuse),
        select_verdict(c, Err(f)) is Proceed || select_verdict(c, Err(f)) == SelectVerdict::Defer(
            RestoreAction::Prompt,
        ),
        step_select(m, h, select_verdict(c, Err(f))).closed == m.closed,
        start_verdict(step_select(m, h, select_verdict(c, Err(f))), h) is Run,
{
}

/// A recorded call keeps what the client sent: `persist_mode` and
/// `cursor_mode` are the `u32`s sent (0 when absent or not a `u32`),
/// `multiple` the boolean sent (false otherwise), the source types the low
/// three bits of the `types` sent (monitor otherwise), and the token and label
/// the strings sent.
pub proof fn recorded_call_keeps_sent_values(c: Call, h: Seq<char>, o: Options, n: u32, b: bool, t: String)
    requires
        is_recorded_call(c, h, o),
    ensures
        c.session_handle@ == h,
        lookup(o@, "persist_mode"@) == Some(Value::U32(n)) ==> c.persist_mode == n,
        !(lookup(o@, "persist_mode"@) matches Some(Value::U32(_))) ==> c.persist_mode == 0,
        lookup(o@, "cursor_mode"@) == Some(Value::U32(n)) ==> c.cursor_mode == n,
        !(lookup(o@, "cursor_mode"@) matches Some(Value::U32(_))) ==> c.cursor_mode == 0,
        lookup(o@, "multiple"@) == Some(Value::Bool(b)) ==> c.multiple == b,
        !(lookup(o@, "multiple"@) matches Some(Value::Bool(_))) ==> !c.multiple,
        lookup(o@, "types"@) == Some(Value::U32(n)) ==> c.source_types@ == n & 7,
        !(lookup(o@, "types"@) matches Some(Value::U32(_))) ==> c.source_types@ == 1,
        lookup(o@, "restore_token"@) == Some(Value::Str(t)) ==> (c.restore_token matches Some(x) && x@ == t@),
        !(lookup(o@, "restore_token"@) matches Some(Value::Str(_))) ==> c.restore_token is None,
        lookup(o@, "source_label"@) == Some(Value::Str(t)) ==> (c.source_label matches Some(x) && x@ == t@),
        !(lookup(o@, "source_label"@) matches Some(Value::Str(_))) ==> c.source_label is None,
        lookup(o@, "restore_policy"@) is None ==> c.restore_policy is None,
{
}

/// The error, if any, with which `SelectSources` options are refused.
pub open spec fn spec_select_error(o: Seq<(String, Value)>) -> Option<SelectSourcesError> {
    match lookup(o, "restore_policy"@) {
        Some(v) if spec_policy_error(v) is Some => Some(SelectSourcesError::Policy(spec_policy_error(v)->0)),
        _ => match lookup(o, "restore_match_rules"@) {
            Some(v) if spec_rules_error(v) is Some => Some(
                SelectSourcesError::MatchRules(spec_rules_error(v)->0),
            ),
            _ => None,
        },
    }
}

/// Whether `c` records a `SelectSources` call on session `h` with options `o`.
pub open spec fn is_recorded_call(c: Call, h: Seq<char>, o: Options) -> bool {
    &&& c.session_handle@ == h
    &&& c.raw_options == o
    &&& c.source_types@ == match lookup_u32(o@, "types"@) {
        Some(n) => n & 7,
        None => 1,
    }
    &&& c.multiple == match lookup_bool(o@, "multiple"@) {
        Some(b) => b,
        None => false,
    }
    &&& c.cursor_mode == match lookup_u32(o@, "cursor_mode"@) {
        Some(n) => n,
        None => 0,
    }
    &&& c.persist_mode == match lookup_u32(o@, "persist_mode"@) {
        Some(n) => n,
        None => 0,
    }
    &&& opt_str_view(c.restore_token) == lookup_str(o@, "restore_token"@)
    &&& opt_str_view(c.source_label) == lookup_str(o@, "source_label"@)
    &&& match lookup(o@, "restore_policy"@) {
        Some(v) => c.restore_policy matches Some(p) && is_parsed_policy(p, v),
        None => c.restore_policy is None,
    }
    &&& match lookup(o@, "restore_match_rules"@) {
        Some(v) => c.restore_match_rules matches Some(rs) && is_parsed_rules(rs@, v),
        None => c.restore_match_rules is None,
    }
}

/// The sessions that `closed` names.
pub open spec fn closed_set(closed: Seq<String>) -> Set<Seq<char>>
    decreases closed.len(),
{
    if closed.len() == 0 {
        Set::empty()
    } else {
        closed_set(closed.drop_last()).insert(closed.last()@)
    }
}

/// The deferred actions that `log` leaves in force (later entries win; `None` clears).
pub open spec fn deferred_map(log: Seq<(String, Option<RestoreAction>)>) -> Map<Seq<char>, RestoreAction>
    decreases log.len(),
{
    if log.len() == 0 {
        Map::empty()
    } else {
        let m = deferred_map(log.drop_last());
        match log.last().1 {
            Some(a) => m.insert(log.last().0@, a),
            None => m.remove(log.last().0@),
        }
    }
}

/// The mutable state of a running mock portal.
pub struct PortalState {
    next_id: u64,
    calls: Vec<Call>,
    closed: Vec<String>,
    deferred: Vec<(String, Option<RestoreAction>)>,
}

impl View for PortalState {
    type V = PortalModel;

    closed spec fn view(&self) -> PortalModel {
        PortalModel {
            next_id: self.next_id,
            calls: self.calls@,
            closed: closed_set(self.closed@),
            deferred: deferred_map(self.deferred@),
        }
    }
}

/// A single `restore_failure` result entry.
fn failure_results(reason: RestoreFailReason, action: RestoreAction) -> (o: Options)
    ensures
        keys(o@) == seq!["restore_failure"@],
        lookup(o@, "restore_failure"@) matches Some(v) && is_failure_object(v, reason, action),
{
    let e = entry("restore_failure", restore_failure_value(reason, action));
    let o = vec![e];
    proof {
        lemma_lookup_push(Seq::empty(), e);
        assert(o@ =~= Seq::empty().push(e));
        assert(keys(o@) =~= seq!["restore_failure"@]);
    }
    o
}

/// The character of the decimal digit `d` (for `d < 10`).
pub open spec fn digit_char(d: nat) -> char {
    if d == 0 {
        '0'
    } else if d == 1 {
        '1'
    } else if d == 2 {
        '2'
    } else if d == 3 {
        '3'
    } else if d == 4 {
        '4'
    } else if d == 5 {
        '5'
    } else if d == 6 {
        '6'
    } else if d == 7 {
        '7'
    } else if d == 8 {
        '8'
    } else {
        '9'
    }
}

/// The decimal form of `n`, without leading zeros.
pub open spec fn decimal(n: nat) -> Seq<char>
    decreases n,
{
    if n < 10 {
        seq![digit_char(n)]
    } else {
        decimal(n / 10).push(digit_char(n % 10))
    }
}

/// The object path of the session with id `id`.
pub open spec fn session_path_view(id: u64) -> Seq<char> {
    "/org/freedesktop/portal/desktop/session/"@ + decimal(id as nat)
}

/// The object path of the request with id `id`.
pub open spec fn request_path_view(id: u64) -> Seq<char> {
    "/org/freedesktop/portal/desktop/request/"@ + decimal(id as nat)
}

/// `String::push`: appends `c` to the end of `s`.
#[verifier::external_body]
fn push_char(s: &mut String, c: char)
    ensures
        final(s)@ == old(s)@.push(c),
{
    s.push(c);
}

fn digit(d: u64) -> (c: char)
    requires
        d < 10,
    ensures
        c == digit_char(d as nat),
{
    if d == 0 {
        '0'
    } else if d == 1 {
        '1'
    } else if d == 2 {
        '2'
    } else if d == 3 {
        '3'
    } else if d == 4 {
        '4'
    } else if d == 5 {
        '5'
    } else if d == 6 {
        '6'
    } else if d == 7 {
        '7'
    } else if d == 8 {
        '8'
    } else {
        '9'
    }
}

/// Append the decimal form of `n` to `s`.
fn push_decimal(s: &mut String, n: u64)
    ensures
        final(s)@ == old(s)@ + decimal(n as nat),
    decreases n,
{
    if n >= 10 {
        push_decimal(s, n / 10);
    }
    let ghost before = s@;
    push_char(s, digit(n % 10));
    proof {
        if n >= 10 {
            assert(before.push(digit_char((n % 10) as nat)) =~= old(s)@ + decimal((n / 10) as nat).push(
                digit_char((n % 10) as nat),
            ));
        } else {
            assert(old(s)@ + decimal(n as nat) =~= old(s)@.push(digit_char(n as nat)));
        }
    }
}

/// The object path of the session with id `id`.
pub fn session_path(id: u64) -> (p: String)
    ensures
        p@ == session_path_view(id),
{
    let mut p = "/org/freedesktop/portal/desktop/session/".to_owned();
    push_decimal(&mut p, id);
    p
}

/// The object path of the request with id `id`.
pub fn request_path(id: u64) -> (p: String)
    ensures
        p@ == request_path_view(id),
{
    let mut p = "/org/freedesktop/portal/desktop/request/".to_owned();
    push_decimal(&mut p, id);
    p
}

proof fn lemma_decimal_len(n: nat)
    ensures
        decimal(n).len() >= 1,
        decimal(n).len() == 1 <==> n < 10,
    decreases n,
{
    if n >= 10 {
        lemma_decimal_len(n / 10);
    }
}

/// Different numbers have different decimal forms.
pub proof fn decimal_is_injective(a: nat, b: nat)
    requires
        decimal(a) == decimal(b),
    ensures
        a == b,
    decreases a,
{
    lemma_decimal_len(a);
    lemma_decimal_len(b);
    if a >= 10 {
        assert(decimal(a).last() == digit_char(a % 10));
        assert(decimal(b).last() == digit_char(b % 10));
        assert(decimal(a).drop_last() =~= decimal(a / 10));
        assert(decimal(b).drop_last() =~= decimal(b / 10));
        decimal_is_injective(a / 10, b / 10);
    } else {
        assert(decimal(a)[0] == digit_char(a));
        assert(decimal(b)[0] == digit_char(b));
    }
}

/// Distinct ids give distinct session paths and distinct request paths, and
/// no session path is a request path.
pub proof fn object_paths_are_distinct(a: u64, b: u64)
    ensures
        a != b ==> session_path_view(a) != session_path_view(b),
        a != b ==> request_path_view(a) != request_path_view(b),
        session_path_view(a) != request_path_view(b),
{
    let sp = "/org/freedesktop/portal/desktop/session/"@;
    let rp = "/org/freedesktop/portal/desktop/request/"@;
    reveal_strlit("/org/freedesktop/portal/desktop/session/");
    reveal_strlit("/org/freedesktop/portal/desktop/request/");
    if session_path_view(a) == session_path_view(b) {
        assert(session_path_view(a).skip(sp.len() as int) =~= decimal(a as nat));
        assert(session_path_view(b).skip(sp.len() as int) =~= decimal(b as nat));
        decimal_is_injective(a as nat, b as nat);
    }
    if request_path_view(a) == request_path_view(b) {
        assert(request_path_view(a).skip(rp.len() as int) =~= decimal(a as nat));
        assert(request_path_view(b).skip(rp.len() as int) =~= decimal(b as nat));
        decimal_is_injective(a as nat, b as nat);
    }
    assert(session_path_view(a)[32] == sp[32]);
    assert(request_path_view(b)[32] == rp[32]);
    assert(sp[32] != rp[32]);
}

/// The `CreateSession` results: the scenario's extra results with `session_handle` set.
pub fn create_session_results(session_handle: &str, extra: Options) -> (o: Options)
    ensures
        lookup_str(o@, "session_handle"@) == Some(session_handle@),
        forall|k: Seq<char>| k != "session_handle"@ ==> #[trigger] lookup(o@, k) == lookup(extra@, k),
{
    let mut o = extra;
    let e = entry("session_handle", Value::Str(session_handle.to_owned()));
    proof {
        lemma_lookup_push(o@, e);
    }
    o.push(e);
    o
}

impl PortalState {
    /// A portal that has handed out no id and recorded no call.
    pub fn new() -> (s: Self)
        ensures
            s@.next_id == 0,
            s@.calls.len() == 0,
            s@.closed == Set::<Seq<char>>::empty(),
            s@.deferred == Map::<Seq<char>, RestoreAction>::empty(),
    {
        PortalState { next_id: 0, calls: Vec::new(), closed: Vec::new(), deferred: Vec::new() }
    }

    /// Hand out the next request or session id.
    pub fn next_id(&mut self) -> (id: u64)
        ensures
            id == old(self)@.next_id,
            final(self)@ == (PortalModel { next_id: id.wrapping_add(1), ..old(self)@ }),
    {
        let id = self.next_id;
        self.next_id = id.wrapping_add(1);
        id
    }

    /// The recorded `SelectSources` calls, in order.
    pub fn calls(&self) -> (c: &Vec<Call>)
        ensures
            c@ == self@.calls,
    {
        &self.calls
    }

    /// Whether session `h` was closed by a policy-driven restore failure.
    pub fn is_closed(&self, h: &str) -> (b: bool)
        ensures
            b == self@.closed.contains(h@),
    {
        let mut i = self.closed.len();
        assert(self.closed@.take(i as int) =~= self.closed@);
        while i > 0
            invariant
                i <= self.closed@.len(),
                self@.closed.contains(h@) == closed_set(self.closed@.take(i as int)).contains(h@),
            decreases i,
        {
            i -= 1;
            assert(self.closed@.take(i + 1).drop_last() =~= self.closed@.take(i as int));
            if str_eq(self.closed[i].as_str(), h) {
                return true;
            }
        }
        false
    }

    /// The action deferred to `Start` for session `h`, if any.
    fn deferred_action(&self, h: &str) -> (a: Option<RestoreAction>)
        ensures
            a is Some <==> self@.deferred.contains_key(h@),
            a matches Some(x) ==> self@.deferred[h@] == x,
    {
        let mut i = self.deferred.len();
        assert(self.deferred@.take(i as int) =~= self.deferred@);
        while i > 0
            invariant
                i <= self.deferred@.len(),
                self@.deferred.contains_key(h@) == deferred_map(self.deferred@.take(i as int)).contains_key(h@),
                self@.deferred.contains_key(h@) ==> self@.deferred[h@] == deferred_map(
                    self.deferred@.take(i as int),
                )[h@],
            decreases i,
        {
            i -= 1;
            assert(self.deferred@.take(i + 1).drop_last() =~= self.deferred@.take(i as int));
            if str_eq(self.deferred[i].0.as_str(), h) {
                return self.deferred[i].1;
            }
        }
        None
    }

    /// Record a `SelectSources` call on `session_handle`, or refuse it when its
    /// `restore_policy` or `restore_match_rules` is malformed. Returns the
    /// index of the recorded call.
    pub fn begin_select_sources(&mut self, session_handle: String, options: Options) -> (r: Result<
        usize,
        SelectSourcesError,
    >)
        ensures
            match r {
                Ok(idx) => {
                    &&& spec_select_error(options@) is None
                    &&& idx == old(self)@.calls.len()
                    &&& final(self)@.calls.len() == old(self)@.calls.len() + 1
                    &&& final(self)@.calls.drop_last() == old(self)@.calls
                    &&& is_recorded_call(final(self)@.calls.last(), session_handle@, options)
                    &&& final(self)@ == (PortalModel { calls: final(self)@.calls, ..old(self)@ })
                },
                Err(e) => spec_select_error(options@) == Some(e) && final(self)@ == old(self)@,
            },
    {
        let source_types = match get(&options, "types") {
            Some(Value::U32(n)) => SourceTypes::from_bits_truncate(*n),
            _ => SourceTypes::monitor(),
        };
        let multiple = match get(&options, "multiple") {
            Some(Value::Bool(b)) => *b,
            _ => false,
        };
        let cursor_mode = match get(&options, "cursor_mode") {
            Some(Value::U32(n)) => *n,
            _ => 0,
        };
        let persist_mode = match get(&options, "persist_mode") {
            Some(Value::U32(n)) => *n,
            _ => 0,
        };
        let restore_token = match get(&options, "restore_token") {
            Some(Value::Str(s)) => Some(s.clone()),
            _ => None,
        };
        let source_label = match get(&options, "source_label") {
            Some(Value::Str(s)) => Some(s.clone()),
            _ => None,
        };
        let restore_policy = match get(&options, "restore_policy") {
            Some(v) => match parse_restore_policy(v) {
                Ok(p) => Some(p),
                Err(e) => return Err(SelectSourcesError::Policy(e)),
            },
            None => None,
        };
        let restore_match_rules = match get(&options, "restore_match_rules") {
            Some(v) => match parse_restore_match_rules(v) {
                Ok(rules) => Some(rules),
                Err(e) => return Err(SelectSourcesError::MatchRules(e)),
            },
            None => None,
        };
        let call = Call {
            timestamp: clock_now(),
            session_handle,
            source_types,
            multiple,
            cursor_mode,
            persist_mode,
            restore_token,
            source_label,
            restore_policy,
            restore_match_rules,
            raw_options: options,
        };
        let idx = self.calls.len();
        self.calls.push(call);
        assert(self.calls@.drop_last() =~= old(self).calls@);
        Ok(idx)
    }

    /// Answer the recorded call `call_index` once its scenario has answered
    /// with `outcome`, and update the session's state.
    pub fn finish_select_sources(
        &mut self,
        call_index: usize,
        outcome: Result<Options, RestoreFailure>,
    ) -> (r: PortalResponse)
        requires
            call_index < old(self)@.calls.len(),
        ensures
            ({
                let c = old(self)@.calls[call_index as int];
                let v = select_verdict(c, outcome);
                &&& final(self)@ == step_select(old(self)@, c.session_handle@, v)
                &&& r.close_session == (v is Refuse)
                &&& match v {
                    SelectVerdict::Proceed => {
                        &&& r.response == 0
                        &&& match outcome {
                            Ok(extra) => r.results == extra,
                            Err(_) => r.results@.len() == 0,
                        }
                    },
                    SelectVerdict::Defer(_) => r.response == 0 && r.results@.len() == 0,
                    SelectVerdict::Refuse(reason, action) => {
                        &&& r.response == action.code()
                        &&& keys(r.results@) == seq!["restore_failure"@]
                        &&& lookup(r.results@, "restore_failure"@) matches Some(f)
                        &&& is_failure_object(f, reason, action)
                    },
                }
            }),
    {
        let ghost c = self@.calls[call_index as int];
        let h = self.calls[call_index].session_handle.clone();
        let has_token = self.calls[call_index].restore_token.is_some();
        let (response, results, deferred, close) = match outcome {
            Ok(extra) => (0, extra, None, false),
            Err(f) => {
                if !has_token {
                    (0, Vec::new(), None, false)
                } else {
                    let action = match &self.calls[call_index].restore_policy {
                        Some(p) => p.action_for(f.reason),
                        None => RestoreAction::Prompt,
                    };
                    match f.reason {
                        RestoreFailReason::SourceUnavailable => (0, Vec::new(), Some(action), false),
                        _ => match action {
                            RestoreAction::Prompt => (0, Vec::new(), None, false),
                            _ => (action.as_u32(), failure_results(f.reason, action), None, true),
                        },
                    }
                }
            },
        };
        let ghost prev = self.deferred@;
        self.deferred.push((h.clone(), deferred));
        assert(self.deferred@.drop_last() =~= prev);
        if close {
            let ghost prev_closed = self.closed@;
            self.closed.push(h);
            assert(self.closed@.drop_last() =~= prev_closed);
        }
        PortalResponse { response, results, close_session: close }
    }

    /// Decide how to handle a `Start` call on `session_handle`.
    pub fn begin_start(&mut self, session_handle: &str) -> (r: Result<StartStep, StartError>)
        ensures
            final(self)@ == step_start(old(self)@, session_handle@),
            match start_verdict(old(self)@, session_handle@) {
                StartVerdict::Rejected => r == Err::<StartStep, StartError>(StartError::SessionClosed),
                StartVerdict::Run => r == Ok::<StartStep, StartError>(StartStep::RunScenario),
                StartVerdict::Apply(action) => r matches Ok(StartStep::Respond(resp)) && {
                    &&& resp.response == action.code()
                    &&& resp.close_session
                    &&& action is Skip ==> resp.results@.len() == 0
                    &&& action is Error ==> {
                        &&& keys(resp.results@) == seq!["restore_failure"@]
                        &&& lookup(resp.results@, "restore_failure"@) matches Some(f)
                        &&& is_failure_object(f, RestoreFailReason::SourceUnavailable, action)
                    }
                },
            },
    {
        if self.is_closed(session_handle) {
            return Err(StartError::SessionClosed);
        }
        let (response, results) = match self.deferred_action(session_handle) {
            Some(RestoreAction::Skip) => (1, Vec::new()),
            Some(RestoreAction::Error) => (
                2,
                failure_results(RestoreFailReason::SourceUnavailable, RestoreAction::Error),
            ),
            _ => return Ok(StartStep::RunScenario),
        };
        let ghost prev_closed = self.closed@;
        self.closed.push(session_handle.to_owned());
        assert(self.closed@.drop_last() =~= prev_closed);
        Ok(StartStep::Respond(PortalResponse { response, results, close_session: true }))
    }
}

} // verus!
