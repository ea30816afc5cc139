use std::time::Duration;

use screencast_portal_mock::handle::{first_prompt_call, wait_step};
use screencast_portal_mock::value::get;
use screencast_portal_mock::{
    default_start_result, encode_streams, rescue_start_result, DelayedRestore, ErrorWithoutFlag,
    FailThenSucceed, MultiSource, Options, PortalState, RescueOutcome, RestoreFailReason,
    RestoreFailure, RestoreTokenValid, SourceDef, StartResult, UserCancels, Value, WaitError,
};

/// The `(node_id, properties)` entries of a `streams` value.
fn stream_entries(streams: &Value) -> Vec<(u32, &Vec<Value>)> {
    let Value::Array(items) = streams else {
        panic!("streams should be an array")
    };
    items
        .iter()
        .map(|item| {
            let Value::Structure(fields) = item else {
                panic!("stream should be a structure")
            };
            assert_eq!(fields.len(), 2);
            let Value::U32(node) = &fields[0] else {
                panic!("stream node id should be u32")
            };
            let Value::Array(props) = &fields[1] else {
                panic!("stream props should be an array")
            };
            (*node, props)
        })
        .collect()
}

/// The value of property `key` among stream properties.
fn prop<'a>(props: &'a [Value], key: &str) -> Option<&'a Value> {
    props.iter().find_map(|p| {
        let Value::Structure(kv) = p else {
            panic!("property should be a structure")
        };
        match &kv[0] {
            Value::Str(k) if k == key => Some(&kv[1]),
            _ => None,
        }
    })
}

fn pair(x: i32, y: i32) -> Value {
    Value::Structure(vec![Value::I32(x), Value::I32(y)])
}

fn results_streams(results: &Options) -> &Value {
    get(results, "streams").expect("results should contain streams")
}

#[test]
fn normal_session_full_flow() {
    let r = default_start_result();
    assert_eq!(r.response, 0);
    assert_eq!(r.results.len(), 1);
    let entries = stream_entries(results_streams(&r.results));
    assert_eq!(entries.len(), 1);
    let (node, props) = entries[0];
    assert_eq!(node, 1);
    assert_eq!(props.len(), 3);
    assert_eq!(prop(props, "source_type"), Some(&Value::U32(1)));
    assert_eq!(prop(props, "size"), Some(&pair(1920, 1080)));
    assert_eq!(prop(props, "position"), Some(&pair(0, 0)));
    assert!(get(&r.results, "restore_failure").is_none());
}

#[test]
fn user_cancels() {
    let r = UserCancels.start_result();
    assert_eq!(r.response, 1, "UserCancels should fire response=1");
    assert!(r.results.is_empty());
}

#[test]
fn error_response_without_flag() {
    let r = ErrorWithoutFlag.start_result();
    assert_eq!(r.response, 2, "ErrorWithoutFlag should fire response=2");
    assert!(get(&r.results, "restore_failure").is_none());
}

#[test]
fn multi_source_stream_count() {
    let scenario = MultiSource {
        sources: vec![
            SourceDef::monitor(1).with_label("Camera"),
            SourceDef::monitor(2).with_label("Desktop"),
            SourceDef::monitor(3),
        ],
    };
    let r = scenario.start_result();
    assert_eq!(r.response, 0);
    let entries = stream_entries(results_streams(&r.results));
    assert_eq!(entries.iter().map(|e| e.0).collect::<Vec<_>>(), vec![1, 2, 3]);
    assert_eq!(prop(entries[0].1, "source_label"), Some(&Value::Str("Camera".to_string())));
    assert_eq!(prop(entries[1].1, "source_label"), Some(&Value::Str("Desktop".to_string())));
    assert_eq!(prop(entries[2].1, "source_label"), None);
}

#[test]
fn multi_source_with_invalid_source_fails_with_error() {
    let scenario = MultiSource {
        sources: vec![SourceDef::monitor(1), SourceDef::monitor(2).invalid()],
    };
    let r = scenario.start_result();
    assert_eq!(r.response, 2);
    assert!(get(&r.results, "streams").is_none());
    let Some(Value::Dict(failure)) = get(&r.results, "restore_failure") else {
        panic!("restore_failure should be a vardict")
    };
    assert_eq!(get(failure, "reason"), Some(&Value::Str("source_unavailable".to_string())));
    assert_eq!(get(failure, "action"), Some(&Value::U32(2)));
    assert_eq!(get(failure, "token_invalid"), Some(&Value::Bool(false)));
}

#[test]
fn restore_token_valid() {
    let scenario = RestoreTokenValid { token: "test-token-42".to_string(), node_id: 42 };
    let r = scenario.start_result();
    assert_eq!(r.response, 0);
    let entries = stream_entries(results_streams(&r.results));
    assert_eq!(entries.len(), 1);
    assert_eq!(entries[0].0, 42);
    assert_eq!(
        get(&r.results, "restore_token"),
        Some(&Value::Str("test-token-42".to_string()))
    );
}

#[test]
fn restore_token_invalid_prompt() {
    let mut portal = PortalState::new();
    let opts = vec![("restore_token".to_string(), Value::Str("bad-token".to_string()))];
    let idx = portal.begin_select_sources("/s/0".to_string(), opts).unwrap();
    let resp = portal.finish_select_sources(
        idx,
        Err(RestoreFailure { reason: RestoreFailReason::TokenNotFound }),
    );
    assert_eq!(resp.response, 0, "default policy=prompt should fire response=0");
}

#[test]
fn source_def_builders() {
    let s = SourceDef::monitor(7);
    assert_eq!((s.node_id, s.size, s.position, s.restore_valid), (7, (1920, 1080), (0, 0), true));
    assert_eq!(s.expected_label, None);
    let s = s.with_label("Game Capture").invalid();
    assert_eq!(s.expected_label.as_deref(), Some("Game Capture"));
    assert!(!s.restore_valid);
    assert_eq!(s.clone(), s);
}

#[test]
fn oversized_size_wraps_to_i32() {
    let mut s = SourceDef::monitor(1);
    s.size = (u32::MAX, 5);
    let v = encode_streams(&[s]);
    let entries = stream_entries(&v);
    assert_eq!(prop(entries[0].1, "size"), Some(&pair(-1, 5)));
}

#[test]
fn fail_then_succeed_sequence() {
    let mut s = FailThenSucceed::new();
    assert_eq!(
        s.select_sources_result(),
        Err(RestoreFailure { reason: RestoreFailReason::TokenNotFound })
    );
    assert_eq!(s.select_sources_result(), Ok(Vec::new()));
    assert_eq!(s.select_sources_result(), Ok(Vec::new()));
    let mut d = FailThenSucceed::default();
    assert!(d.select_sources_result().is_err());
}

#[test]
fn rescue_outcomes_map_to_start_results() {
    let r = rescue_start_result(Some(RescueOutcome::Succeed));
    assert_eq!(r, default_start_result());
    let r = rescue_start_result(Some(RescueOutcome::Fail { response: 2 }));
    assert_eq!((r.response, r.results.len()), (2, 0));
    let r = rescue_start_result(Some(RescueOutcome::Fail { response: 1 }));
    assert_eq!((r.response, r.results.len()), (1, 0));
    let custom = StartResult { response: 0, results: vec![("x".to_string(), Value::U32(1))] };
    let r = rescue_start_result(Some(RescueOutcome::SucceedWith(custom)));
    assert_eq!(r.results, vec![("x".to_string(), Value::U32(1))]);
    let r = rescue_start_result(None);
    assert_eq!(r.response, 1, "dropped controller should fire response=1");
    assert!(get(&r.results, "streams").is_none());
}

#[test]
fn delayed_restore_keeps_its_settings() {
    let d = DelayedRestore {
        rescue_delay: Duration::from_millis(50),
        reason: RestoreFailReason::SourceUnavailable,
    };
    assert_eq!(d.rescue_delay, Duration::from_millis(50));
    assert_eq!(d.reason.as_str(), "source_unavailable");
}

#[test]
fn wait_steps() {
    assert_eq!(wait_step(3, 2, false), Some(Ok(())));
    assert_eq!(wait_step(2, 2, true), Some(Ok(())));
    assert_eq!(
        wait_step(1, 2, true),
        Some(Err(WaitError::Timeout { expected: 2, actual: 1 }))
    );
    assert_eq!(wait_step(1, 2, false), None);
}

#[test]
fn first_prompt_call_finds_explicit_prompt() {
    let mut portal = PortalState::new();
    let policy = |a: u32| {
        vec![(
            "restore_policy".to_string(),
            Value::Dict(vec![("default_action".to_string(), Value::U32(a))]),
        )]
    };
    portal.begin_select_sources("/s/0".to_string(), Vec::new()).unwrap();
    portal.begin_select_sources("/s/1".to_string(), policy(1)).unwrap();
    assert_eq!(first_prompt_call(portal.calls()), None);
    portal.begin_select_sources("/s/2".to_string(), policy(0)).unwrap();
    portal.begin_select_sources("/s/3".to_string(), policy(0)).unwrap();
    assert_eq!(first_prompt_call(portal.calls()), Some(2));
}

#[test]
fn fresh_fail_then_succeed_fails_exactly_once() {
    let mut s = FailThenSucceed::new();
    let outcomes: Vec<bool> = (0..10).map(|_| s.select_sources_result().is_err()).collect();
    let mut expected = vec![false; 10];
    expected[0] = true;
    assert_eq!(outcomes, expected);
}
