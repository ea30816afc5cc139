use screencast_portal_mock::portal::{create_session_results, request_path, session_path};
use screencast_portal_mock::value::get;
use screencast_portal_mock::{
    FailThenSucceed, Options, PortalState, RestoreAction, RestoreFailReason, RestoreFailure,
    SourceTypes, StartError, StartStep, Value,
};

fn token_and_policy(default_action: u32) -> Options {
    vec![
        ("restore_token".to_string(), Value::Str("stale-token".to_string())),
        (
            "restore_policy".to_string(),
            Value::Dict(vec![("default_action".to_string(), Value::U32(default_action))]),
        ),
    ]
}

fn session(id: u64) -> String {
    format!("/org/freedesktop/portal/desktop/session/{id}")
}

#[test]
fn re_select_sources_after_skip() {
    let mut scenario = FailThenSucceed::new();
    let mut portal = PortalState::new();

    let s1 = session(portal.next_id());
    let idx = portal.begin_select_sources(s1.clone(), token_and_policy(1)).unwrap();
    let resp = portal.finish_select_sources(idx, scenario.select_sources_result());
    assert_eq!(resp.response, 1, "first call should skip (response=1)");
    assert!(resp.close_session);

    let s2 = session(portal.next_id());
    let idx = portal.begin_select_sources(s2, Vec::new()).unwrap();
    let resp = portal.finish_select_sources(idx, scenario.select_sources_result());
    assert_eq!(resp.response, 0, "second call should succeed");

    assert_eq!(portal.calls().len(), 2);
}

#[test]
fn start_after_error_response() {
    let mut portal = PortalState::new();
    let s = session(portal.next_id());
    let idx = portal.begin_select_sources(s.clone(), token_and_policy(2)).unwrap();
    let resp = portal.finish_select_sources(
        idx,
        Err(RestoreFailure { reason: RestoreFailReason::TokenNotFound }),
    );
    assert_eq!(resp.response, 2);
    assert!(resp.close_session);
    assert_eq!(portal.begin_start(&s), Err(StartError::SessionClosed));
}

#[test]
fn fresh_token_after_skip() {
    let mut scenario = FailThenSucceed::new();
    let mut portal = PortalState::new();
    let s1 = session(portal.next_id());
    let idx = portal.begin_select_sources(s1, token_and_policy(1)).unwrap();
    assert_eq!(portal.finish_select_sources(idx, scenario.select_sources_result()).response, 1);

    let s2 = session(portal.next_id());
    let idx = portal.begin_select_sources(s2, Vec::new()).unwrap();
    assert_eq!(portal.finish_select_sources(idx, scenario.select_sources_result()).response, 0);

    assert_eq!(
        portal.calls()[0].restore_policy.as_ref().unwrap().default_action,
        Some(RestoreAction::Skip)
    );
    assert_eq!(portal.calls()[1].restore_policy, None, "second call should have no restore_policy");
}

#[test]
fn prompt_fallback_after_skip() {
    let mut portal = PortalState::new();
    let failure = || Err(RestoreFailure { reason: RestoreFailReason::TokenNotFound });
    let s1 = session(portal.next_id());
    let idx = portal.begin_select_sources(s1, token_and_policy(1)).unwrap();
    assert_eq!(portal.finish_select_sources(idx, failure()).response, 1);

    let s2 = session(portal.next_id());
    let idx = portal.begin_select_sources(s2.clone(), token_and_policy(0)).unwrap();
    let resp = portal.finish_select_sources(idx, failure());
    assert_eq!(resp.response, 0, "second call with prompt should succeed");
    assert_eq!(portal.begin_start(&s2), Ok(StartStep::RunScenario));
}

#[test]
fn select_sources_bad_handle() {
    let mut portal = PortalState::new();
    let fabricated = "/org/freedesktop/portal/desktop/session/999".to_string();
    let idx = portal.begin_select_sources(fabricated, Vec::new()).unwrap();
    assert_eq!(portal.finish_select_sources(idx, Ok(Vec::new())).response, 0);
    assert_eq!(portal.calls().len(), 1);
    assert_eq!(
        portal.calls()[0].session_handle,
        "/org/freedesktop/portal/desktop/session/999"
    );
}

#[test]
fn double_select_sources() {
    let mut portal = PortalState::new();
    let s = session(portal.next_id());
    for label in ["Label A", "Label B"] {
        let opts = vec![("source_label".to_string(), Value::Str(label.to_string()))];
        let idx = portal.begin_select_sources(s.clone(), opts).unwrap();
        assert_eq!(portal.finish_select_sources(idx, Ok(Vec::new())).response, 0);
    }
    assert_eq!(portal.calls().len(), 2);
    assert_eq!(portal.calls()[0].source_label.as_deref(), Some("Label A"));
    assert_eq!(portal.calls()[1].source_label.as_deref(), Some("Label B"));
}

#[test]
fn success_after_deferred_failure_clears_it() {
    let mut portal = PortalState::new();
    let s = session(portal.next_id());
    let idx = portal.begin_select_sources(s.clone(), token_and_policy(1)).unwrap();
    let resp = portal.finish_select_sources(
        idx,
        Err(RestoreFailure { reason: RestoreFailReason::SourceUnavailable }),
    );
    assert_eq!(resp.response, 0);
    let idx = portal.begin_select_sources(s.clone(), Vec::new()).unwrap();
    portal.finish_select_sources(idx, Ok(Vec::new()));
    assert_eq!(portal.begin_start(&s), Ok(StartStep::RunScenario));
    assert!(!portal.is_closed(&s));
}

#[test]
fn two_sessions_get_distinct_ids() {
    let mut portal = PortalState::new();
    let a = portal.next_id();
    let b = portal.next_id();
    assert_eq!((a, b), (0, 1));
    assert_ne!(session(a), session(b), "sessions should have different handles");
}

#[test]
fn recorded_call_fields_and_defaults() {
    let mut portal = PortalState::new();
    let idx = portal
        .begin_select_sources(session(0), vec![("types".to_string(), Value::U32(0xff))])
        .unwrap();
    let call = &portal.calls()[idx];
    assert_eq!(call.source_types.bits(), 7);
    assert!(!call.multiple);
    assert_eq!((call.cursor_mode, call.persist_mode), (0, 0));
    assert_eq!(call.restore_token, None);

    let opts = vec![
        ("multiple".to_string(), Value::Bool(true)),
        ("cursor_mode".to_string(), Value::U32(2)),
        ("persist_mode".to_string(), Value::U32(1)),
        ("types".to_string(), Value::Str("monitor".to_string())),
    ];
    let idx = portal.begin_select_sources(session(0), opts).unwrap();
    let call = &portal.calls()[idx];
    assert_eq!(call.source_types, SourceTypes::monitor());
    assert!(call.multiple);
    assert_eq!((call.cursor_mode, call.persist_mode), (2, 1));
    assert_eq!(call.raw_options.len(), 4);
}

#[test]
fn create_session_results_set_the_handle() {
    let extra = vec![
        ("session_handle".to_string(), Value::Str("stale".to_string())),
        ("other".to_string(), Value::U32(5)),
    ];
    let results = create_session_results("/org/freedesktop/portal/desktop/session/3", extra);
    assert_eq!(
        get(&results, "session_handle"),
        Some(&Value::Str("/org/freedesktop/portal/desktop/session/3".to_string()))
    );
    assert_eq!(get(&results, "other"), Some(&Value::U32(5)));
}

#[test]
fn ids_are_handed_out_in_order_across_calls() {
    let mut portal = PortalState::new();
    let mut scenario = FailThenSucceed::new();
    let mut ids = Vec::new();
    for _ in 0..6 {
        let id = portal.next_id();
        ids.push(id);
        let idx = portal.begin_select_sources(session(id), token_and_policy(1)).unwrap();
        portal.finish_select_sources(idx, scenario.select_sources_result());
        let _ = portal.begin_start(&session(id));
    }
    assert_eq!(ids, vec![0, 1, 2, 3, 4, 5]);
}

#[test]
fn recorded_calls_carry_monotonic_timestamps() {
    let mut portal = PortalState::new();
    portal.begin_select_sources(session(0), Vec::new()).unwrap();
    portal.begin_select_sources(session(1), Vec::new()).unwrap();
    assert!(portal.calls()[1].timestamp >= portal.calls()[0].timestamp);
}

#[test]
fn object_paths_follow_the_drawn_id() {
    assert_eq!(session_path(0), "/org/freedesktop/portal/desktop/session/0");
    assert_eq!(session_path(42), session(42));
    assert_eq!(request_path(1907), "/org/freedesktop/portal/desktop/request/1907");
    assert_eq!(session_path(u64::MAX), format!("/org/freedesktop/portal/desktop/session/{}", u64::MAX));
    assert_ne!(session_path(10), session_path(1));
    assert_ne!(session_path(3), request_path(3));
}
