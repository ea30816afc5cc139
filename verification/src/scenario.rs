//! What the built-in scenarios answer: start results, stream descriptions
//! and the outcomes of a restore rescue.
use vstd::prelude::*;

use std::time::Duration;

use crate::records::{is_failure_object, restore_failure_value, RestoreAction, RestoreFailReason, RestoreFailure, SourceDef};
use crate::value::{entry, keys, lemma_lookup_push, lookup, Options, Value};

verus! {

/// The interface version a scenario advertises unless it says otherwise.
pub const DEFAULT_PORTAL_VERSION: u32 = 6;

/// The response and results with which a `Start` request is answered.
#[derive(Debug, PartialEq)]
pub struct StartResult {
    pub response: u32,
    pub results: Options,
}

impl Default for StartResult {
    fn default() -> (r: Self)
        ensures
            r.response == 0,
            r.results@.len() == 0,
    {
        StartResult { response: 0, results: Vec::new() }
    }
}

/// The name and value of a stream property `(key, value)`.
pub open spec fn stream_prop(p: Value) -> Option<(Seq<char>, Value)> {
    match p {
        Value::Structure(f) => match (f@.len() == 2, f@[0]) {
            (true, Value::Str(k)) => Some((k@, f@[1])),
            _ => None,
        },
        _ => None,
    }
}

/// Whether `p` is the property `key` with value `v`.
pub open spec fn is_prop(p: Value, key: Seq<char>, v: Value) -> bool {
    stream_prop(p) == Some((key, v))
}

/// Whether `p` is the property `key` whose value is the pair `(x, y)` of `i32`s.
pub open spec fn is_pair_prop(p: Value, key: Seq<char>, x: i32, y: i32) -> bool {
    &&& stream_prop(p) matches Some(kv)
    &&& kv.0 == key
    &&& kv.1 matches Value::Structure(d)
    &&& d@ == seq![Value::I32(x), Value::I32(y)]
}

/// Whether `v` is the stream entry `(node_id, [properties])` describing `s`:
/// source type 1, its size and position, and its label when it has one.
pub open spec fn encodes_stream(v: Value, s: SourceDef) -> bool {
    &&& v matches Value::Structure(f)
    &&& f@.len() == 2
    &&& f@[0] == Value::U32(s.node_id)
    &&& f@[1] matches Value::Array(props)
    &&& props@.len() == (if s.expected_label is Some { 4int } else { 3int })
    &&& is_prop(props@[0], "source_type"@, Value::U32(1))
    &&& is_pair_prop(props@[1], "size"@, s.size.0 as i32, s.size.1 as i32)
    &&& is_pair_prop(props@[2], "position"@, s.position.0, s.position.1)
    &&& s.expected_label matches Some(l) ==> is_label_prop(props@[3], l@)
}

/// The shape of an encoded stream, field by field: the entry is the structure
/// `(node_id, props)`, and `props` lists `("source_type", 1)`, then
/// `("size", (width, height))`, then `("position", (x, y))` with `x` first,
/// then `("source_label", label)` exactly when the source has a label.
pub proof fn encoded_stream_fields(v: Value, s: SourceDef)
    requires
        encodes_stream(v, s),
    ensures
        ({
            &&& v matches Value::Structure(f)
            &&& f@.len() == 2
            &&& f@[0] == Value::U32(s.node_id)
            &&& f@[1] matches Value::Array(props)
            &&& props@.len() >= 3
            &&& props@[0] matches Value::Structure(p0)
            &&& p0@.len() == 2
            &&& p0@[0] matches Value::Str(k0)
            &&& k0@ == "source_type"@
            &&& p0@[1] == Value::U32(1)
            &&& props@[1] matches Value::Structure(p1)
            &&& p1@.len() == 2
            &&& p1@[0] matches Value::Str(k1)
            &&& k1@ == "size"@
            &&& p1@[1] matches Value::Structure(wh)
            &&& wh@.len() == 2
            &&& wh@[0] == Value::I32(s.size.0 as i32)
            &&& wh@[1] == Value::I32(s.size.1 as i32)
            &&& props@[2] matches Value::Structure(p2)
            &&& p2@.len() == 2
            &&& p2@[0] matches Value::Str(k2)
            &&& k2@ == "position"@
            &&& p2@[1] matches Value::Structure(xy)
            &&& xy@.len() == 2
            &&& xy@[0] == Value::I32(s.position.0)
            &&& xy@[1] == Value::I32(s.position.1)
            &&& s.expected_label is None ==> props@.len() == 3
            &&& s.expected_label matches Some(l) ==> {
                &&& props@.len() == 4
                &&& props@[3] matches Value::Structure(p3)
                &&& p3@.len() == 2
                &&& p3@[0] matches Value::Str(k3)
                &&& k3@ == "source_label"@
                &&& p3@[1] matches Value::Str(t)
                &&& t@ == l@
            }
        }),
{
}

/// Whether `p` is the property `source_label` with string value `label`.
pub open spec fn is_label_prop(p: Value, label: Seq<char>) -> bool {
    &&& stream_prop(p) matches Some(kv)
    &&& kv.0 == "source_label"@
    &&& kv.1 matches Value::Str(t)
    &&& t@ == label
}

/// Whether `v` is the `streams` value describing `sources`, in order.
pub open spec fn encodes_streams(v: Value, sources: Seq<SourceDef>) -> bool {
    &&& v matches Value::Array(items)
    &&& items@.len() == sources.len()
    &&& forall|i: int| 0 <= i < sources.len() ==> encodes_stream(#[trigger] items@[i], sources[i])
}

fn prop(key: &str, v: Value) -> (p: Value)
    ensures
        stream_prop(p) == Some((key@, v)),
{
    let fields = vec![Value::Str(key.to_owned()), v];
    Value::Structure(fields)
}

fn pair(x: i32, y: i32) -> (v: Value)
    ensures
        v matches Value::Structure(d) && d@ == seq![Value::I32(x), Value::I32(y)],
{
    let d = vec![Value::I32(x), Value::I32(y)];
    assert(d@ =~= seq![Value::I32(x), Value::I32(y)]);
    Value::Structure(d)
}

fn encode_stream(s: &SourceDef) -> (v: Value)
    ensures
        encodes_stream(v, *s),
{
    let mut props: Vec<Value> = Vec::new();
    props.push(prop("source_type", Value::U32(1)));
    props.push(prop("size", pair(s.size.0 as i32, s.size.1 as i32)));
    props.push(prop("position", pair(s.position.0, s.position.1)));
    match &s.expected_label {
        Some(label) => {
            props.push(prop("source_label", Value::Str(label.clone())));
        },
        None => {},
    }
    let fields = vec![Value::U32(s.node_id), Value::Array(props)];
    Value::Structure(fields)
}

/// Encode source definitions as the `streams` result: one `(node_id, props)`
/// entry per source.
pub fn encode_streams(sources: &[SourceDef]) -> (v: Value)
    ensures
        encodes_streams(v, sources@),
{
    let mut items: Vec<Value> = Vec::new();
    let n = sources.len();
    for i in 0..n
        invariant
            n == sources@.len(),
            items@.len() == i,
            forall|k: int| 0 <= k < i ==> encodes_stream(#[trigger] items@[k], sources@[k]),
    {
        items.push(encode_stream(&sources[i]));
    }
    Value::Array(items)
}

/// Whether `r` answers `response = 0` with exactly one `streams` entry
/// describing `sources`.
pub open spec fn is_streams_result(r: StartResult, sources: Seq<SourceDef>) -> bool {
    &&& r.response == 0
    &&& keys(r.results@) == seq!["streams"@]
    &&& lookup(r.results@, "streams"@) matches Some(v)
    &&& encodes_streams(v, sources)
}

/// The one 1920x1080 monitor stream with node id 1 that a default start returns.
pub open spec fn default_sources() -> Seq<SourceDef> {
    seq![
        SourceDef {
            node_id: 1,
            expected_label: None,
            restore_valid: true,
            size: (1920, 1080),
            position: (0, 0),
        },
    ]
}

fn single_entry(key: &str, v: Value) -> (o: Options)
    ensures
        keys(o@) == seq![key@],
        lookup(o@, key@) == Some(v),
{
    let e = entry(key, v);
    let o = vec![e];
    proof {
        lemma_lookup_push(Seq::empty(), e);
        assert(o@ =~= Seq::empty().push(e));
        assert(keys(o@) =~= seq![key@]);
    }
    o
}

fn streams_result(sources: &[SourceDef]) -> (r: StartResult)
    ensures
        is_streams_result(r, sources@),
{
    StartResult { response: 0, results: single_entry("streams", encode_streams(sources)) }
}

/// The default start result: `response = 0` with one 1920x1080 monitor
/// stream whose node id is 1.
pub fn default_start_result() -> (r: StartResult)
    ensures
        is_streams_result(r, default_sources()),
{
    let sources = vec![SourceDef::monitor(1)];
    assert(sources@ =~= default_sources());
    streams_result(sources.as_slice())
}

/// Normal session: everything succeeds with defaults.
pub struct NormalSession;

/// Restore token is valid: `Start` returns the given node id and token.
pub struct RestoreTokenValid {
    pub token: String,
    pub node_id: u32,
}

impl RestoreTokenValid {
    /// `response = 0` with one monitor stream of node `node_id` and the restore token.
    pub fn start_result(&self) -> (r: StartResult)
        ensures
            r.response == 0,
            keys(r.results@) == seq!["streams"@, "restore_token"@],
            lookup(r.results@, "streams"@) matches Some(v) && encodes_streams(
                v,
                seq![
                    SourceDef {
                        node_id: self.node_id,
                        expected_label: None,
                        restore_valid: true,
                        size: (1920, 1080),
                        position: (0, 0),
                    },
                ],
            ),
            lookup(r.results@, "restore_token"@) matches Some(Value::Str(t)) && t@ == self.token@,
    {
        let sources = vec![SourceDef::monitor(self.node_id)];
        let e0 = entry("streams", encode_streams(sources.as_slice()));
        let e1 = entry("restore_token", Value::Str(self.token.clone()));
        let results = vec![e0, e1];
        proof {
            reveal_strlit("streams");
            reveal_strlit("restore_token");
            assert("streams"@.len() != "restore_token"@.len());
            let s0 = Seq::<(String, Value)>::empty();
            lemma_lookup_push(s0, e0);
            lemma_lookup_push(s0.push(e0), e1);
            assert(results@ =~= s0.push(e0).push(e1));
            assert(keys(results@) =~= seq!["streams"@, "restore_token"@]);
            assert(sources@ =~= seq![
                SourceDef {
                    node_id: self.node_id,
                    expected_label: None,
                    restore_valid: true,
                    size: (1920, 1080),
                    position: (0, 0),
                },
            ]);
        }
        StartResult { response: 0, results }
    }
}

/// Restore token is invalid: `SelectSources` reports the given failure.
pub struct RestoreTokenFails {
    pub reason: RestoreFailReason,
}

/// User cancels: `Start` answers `response = 1`.
pub struct UserCancels;

impl UserCancels {
    /// `response = 1` with empty results.
    pub fn start_result(&self) -> (r: StartResult)
        ensures
            r.response == 1,
            r.results@.len() == 0,
    {
        StartResult { response: 1, results: Vec::new() }
    }
}

/// Multiple source streams returned by `Start`.
pub struct MultiSource {
    pub sources: Vec<SourceDef>,
}

impl MultiSource {
    /// With every source restorable, `response = 0` and one stream per source;
    /// otherwise `response = 2` with a `source_unavailable` error failure object.
    pub fn start_result(&self) -> (r: StartResult)
        ensures
            (exists|i: int| 0 <= i < self.sources@.len() && !(#[trigger] self.sources@[i]).restore_valid)
                ==> {
                &&& r.response == 2
                &&& keys(r.results@) == seq!["restore_failure"@]
                &&& lookup(r.results@, "restore_failure"@) matches Some(v)
                &&& is_failure_object(v, RestoreFailReason::SourceUnavailable, RestoreAction::Error)
            },
            (forall|i: int| 0 <= i < self.sources@.len() ==> (#[trigger] self.sources@[i]).restore_valid)
                ==> is_streams_result(r, self.sources@),
    {
        let n = self.sources.len();
        for i in 0..n
            invariant
                n == self.sources@.len(),
                forall|k: int| 0 <= k < i ==> (#[trigger] self.sources@[k]).restore_valid,
        {
            if !self.sources[i].restore_valid {
                let failure = restore_failure_value(
                    RestoreFailReason::SourceUnavailable,
                    RestoreAction::Error,
                );
                return StartResult { response: 2, results: single_entry("restore_failure", failure) };
            }
        }
        streams_result(self.sources.as_slice())
    }
}

/// Simulates an older portal that reports a lower version number.
pub struct OldPortal {
    pub version: u32,
}

/// Fails the first `SelectSources` with `token_not_found`, succeeds afterwards.
#[derive(Debug)]
pub struct FailThenSucceed {
    calls: usize,
}

impl FailThenSucceed {
    /// How many `SelectSources` calls this scenario has answered (wrapping).
    pub closed spec fn calls_view(self) -> usize {
        self.calls
    }

    /// A scenario that has answered no call yet.
    pub fn new() -> (s: Self)
        ensures
            s.calls_view() == 0,
    {
        FailThenSucceed { calls: 0 }
    }

    /// Answer one `SelectSources` call: the first fails with
    /// `token_not_found`, every later one succeeds with empty results.
    pub fn select_sources_result(&mut self) -> (r: Result<Options, RestoreFailure>)
        ensures
            old(self).calls_view() == 0 ==> r == Err::<Options, RestoreFailure>(
                RestoreFailure { reason: RestoreFailReason::TokenNotFound },
            ),
            old(self).calls_view() != 0 ==> (r matches Ok(o) && o@.len() == 0),
            final(self).calls_view() == next_call_count(old(self).calls_view()),
    {
        let call_num = self.calls;
        self.calls = call_num.wrapping_add(1);
        if call_num == 0 {
            Err(RestoreFailure { reason: RestoreFailReason::TokenNotFound })
        } else {
            Ok(Vec::new())
        }
    }
}

/// The call counter of a `FailThenSucceed` after it answers a call when it
/// stood at `c`: one more, wrapping at `usize::MAX`.
pub open spec fn next_call_count(c: usize) -> usize {
    if c == usize::MAX {
        0
    } else {
        (c + 1) as usize
    }
}

/// The call counter of a fresh `FailThenSucceed` after it has answered `k` calls.
pub open spec fn count_after(k: nat) -> usize
    decreases k,
{
    if k == 0 {
        0
    } else {
        next_call_count(count_after((k - 1) as nat))
    }
}

/// A fresh `FailThenSucceed` fails exactly once: its `k`-th call (counting
/// from 0) finds the counter at `k`, so the first call fails with
/// `token_not_found` and every later one succeeds, until the counter wraps.
pub proof fn fail_then_succeed_fails_once(k: nat)
    requires
        k <= usize::MAX,
    ensures
        count_after(k) == k,
        count_after(k) == 0 <==> k == 0,
        count_after(k + 1) == next_call_count(count_after(k)),
    decreases k,
{
    if k > 0 {
        fail_then_succeed_fails_once((k - 1) as nat);
    }
}

impl Default for FailThenSucceed {
    fn default() -> (s: Self)
        ensures
            s.calls_view() == 0,
    {
        FailThenSucceed::new()
    }
}

/// Models a server-side rescue: `SelectSources` reports a restore failure, and
/// `Start` later succeeds with the default stream after `rescue_delay`.
pub struct DelayedRestore {
    pub rescue_delay: Duration,
    pub reason: RestoreFailReason,
}

/// `Start` answers `response = 2` with empty results (no `restore_failure` key).
pub struct ErrorWithoutFlag;

impl ErrorWithoutFlag {
    /// `response = 2` with empty results.
    pub fn start_result(&self) -> (r: StartResult)
        ensures
            r.response == 2,
            r.results@.len() == 0,
    {
        StartResult { response: 2, results: Vec::new() }
    }
}

/// Outcome a test drives into a pending rescue.
#[derive(Debug)]
pub enum RescueOutcome {
    /// Rescue succeeded: `Start` answers with the default stream.
    Succeed,
    /// Rescue succeeded with a custom start result.
    SucceedWith(StartResult),
    /// Rescue resolved to failure: `Start` answers the given response code
    /// (1 = cancelled, 2 = error) with empty results.
    Fail { response: u32 },
}

/// How `Start` answers once a rescue resolves; `None` means that the rescue
/// controller was dropped without triggering, which counts as cancelled.
pub fn rescue_start_result(outcome: Option<RescueOutcome>) -> (r: StartResult)
    ensures
        match outcome {
            Some(RescueOutcome::Succeed) => is_streams_result(r, default_sources()),
            Some(RescueOutcome::SucceedWith(s)) => r == s,
            Some(RescueOutcome::Fail { response }) => r.response == response && r.results@.len() == 0,
            None => r.response == 1 && r.results@.len() == 0,
        },
{
    match outcome {
        Some(RescueOutcome::Succeed) => default_start_result(),
        Some(RescueOutcome::SucceedWith(r)) => r,
        Some(RescueOutcome::Fail { response }) => StartResult { response, results: Vec::new() },
        None => StartResult { response: 1, results: Vec::new() },
    }
}

} // verus!
