use std::collections::HashSet;

use screencast_portal_mock::obs::ObsClientModel;
use screencast_portal_mock::value::get;
use screencast_portal_mock::{
    parse_restore_match_rules, parse_restore_match_rules_text, parse_restore_policy,
    restore_match_rules_value, InvalidRestoreMatchRules, PortalState, RestoreAction,
    RestoreFailReason, RestoreFailure, RestoreMatchRule, RestoreMatchScope, RestoreTokenRecord,
    StartError, StartStep, Value, ACCEPTED_SELECT_SOURCES_KEYS,
};

fn str_value(s: &str) -> Value {
    Value::Str(s.to_string())
}

fn rule_dict(entries: Vec<(&str, Value)>) -> Value {
    Value::Dict(entries.into_iter().map(|(k, v)| (k.to_string(), v)).collect())
}

#[test]
fn obs_model_sends_default_skip_label_and_match_rules() {
    let aliases =
        "\nproject-a\nsame: project-b\nsame_app: project-c\nany: shared\nany_app: vault\n";
    let model = ObsClientModel::new("OBS Camera")
        .with_restore_token("restore-token")
        .with_restore_match_rules(aliases);

    let expected_rules = vec![
        RestoreMatchRule::title_regex("project-a", RestoreMatchScope::SameApp),
        RestoreMatchRule::title_regex("project-b", RestoreMatchScope::SameApp),
        RestoreMatchRule::title_regex("project-c", RestoreMatchScope::SameApp),
        RestoreMatchRule::title_regex("shared", RestoreMatchScope::AnyApp),
        RestoreMatchRule::title_regex("vault", RestoreMatchScope::AnyApp),
    ];
    assert_eq!(model.parsed_restore_match_rules(), expected_rules);

    let mut portal = PortalState::new();
    let idx = portal
        .begin_select_sources(
            "/org/freedesktop/portal/desktop/session/0".to_string(),
            model.select_sources_options(6),
        )
        .expect("OBS options should be accepted");
    let resp = portal.finish_select_sources(idx, Ok(Vec::new()));
    assert_eq!(resp.response, 0);

    assert_eq!(portal.calls().len(), 1);
    let call = &portal.calls()[0];
    assert_eq!(call.source_label.as_deref(), Some("OBS Camera"));
    assert_eq!(
        call.restore_policy.as_ref().unwrap().default_action,
        Some(RestoreAction::Skip)
    );
    assert_eq!(call.restore_match_rules.as_ref(), Some(&expected_rules));
}

#[test]
fn any_app_broad_alias_does_not_share_unrelated_window_without_prompt() {
    let model = ObsClientModel::new("OBS Window Capture")
        .with_restore_token("stale-token")
        .with_restore_match_rules("any_app: .");
    let session = "/org/freedesktop/portal/desktop/session/0";
    let mut portal = PortalState::new();
    let idx = portal
        .begin_select_sources(session.to_string(), model.select_sources_options(6))
        .unwrap();
    let resp = portal.finish_select_sources(
        idx,
        Err(RestoreFailure {
            reason: RestoreFailReason::SourceUnavailable,
        }),
    );
    assert_eq!(resp.response, 0, "SelectSources should not surface source_unavailable");
    assert!(get(&resp.results, "streams").is_none());
    assert!(!resp.close_session);

    match portal.begin_start(session) {
        Ok(StartStep::Respond(resp)) => {
            assert_eq!(
                resp.response, 1,
                "default OBS Skip should cancel instead of returning an arbitrary stream"
            );
            assert!(
                get(&resp.results, "streams").is_none(),
                "broad any_app alias must not silently share a window"
            );
            assert!(get(&resp.results, "restore_failure").is_none());
            assert!(resp.close_session);
        }
        other => panic!("unexpected start step {other:?}"),
    }
    assert_eq!(portal.begin_start(session), Err(StartError::SessionClosed));

    assert_eq!(portal.calls().len(), 1);
    assert_eq!(
        portal.calls()[0].restore_match_rules.as_deref(),
        Some(&[RestoreMatchRule::title_regex(".", RestoreMatchScope::AnyApp)][..])
    );
}

#[test]
fn obs_sent_keys_are_accepted_by_mock() {
    let accepted = ACCEPTED_SELECT_SOURCES_KEYS
        .iter()
        .copied()
        .collect::<HashSet<_>>();
    let sent = ObsClientModel::representative_v6_keys()
        .into_iter()
        .collect::<HashSet<_>>();

    assert!(
        sent.is_subset(&accepted),
        "OBS model sent unsupported SelectSources keys: {:?}",
        sent.difference(&accepted).collect::<Vec<_>>()
    );
}

#[test]
fn representative_keys_are_the_four_v6_restore_keys() {
    let sent = ObsClientModel::representative_v6_keys()
        .into_iter()
        .collect::<HashSet<_>>();
    let expected: HashSet<&str> = [
        "restore_token",
        "source_label",
        "restore_policy",
        "restore_match_rules",
    ]
    .into_iter()
    .collect();
    assert_eq!(sent, expected);
}

#[test]
fn token_v1_v2_have_empty_aliases_and_v3_preserves_rules() {
    let v1 = RestoreTokenRecord::legacy_v1(2);
    assert_eq!(v1.restore_match_rules, vec![Vec::new(), Vec::new()]);

    let v2 = RestoreTokenRecord::legacy_v2(1);
    assert_eq!(v2.restore_match_rules, vec![Vec::new()]);

    let rules = vec![vec![RestoreMatchRule::title_regex(
        "project",
        RestoreMatchScope::SameApp,
    )]];
    let v3 = RestoreTokenRecord::v3(rules.clone());
    assert_eq!(v3.restore_match_rules, rules);
    assert_eq!((v1.version, v2.version, v3.version), (1, 2, 3));
}

#[test]
fn alias_text_grammar_trims_and_skips_blank_lines() {
    let rules = parse_restore_match_rules_text("  \r\n\t any_app:  shared \r\n same_app: \n\u{3000}x y\u{a0}\n");
    assert_eq!(
        rules,
        vec![
            RestoreMatchRule::title_regex("shared", RestoreMatchScope::AnyApp),
            RestoreMatchRule::title_regex("x y", RestoreMatchScope::SameApp),
        ]
    );
    assert!(parse_restore_match_rules_text("").is_empty());
    assert!(parse_restore_match_rules_text("any:\nsame:   ").is_empty());
}

#[test]
fn alias_text_prefix_order_and_unprefixed_lines() {
    let rules = parse_restore_match_rules_text("any_app:a\nany:b\nsame_app:c\nsame:d\nanything: e\nSame: f");
    assert_eq!(
        rules,
        vec![
            RestoreMatchRule::title_regex("a", RestoreMatchScope::AnyApp),
            RestoreMatchRule::title_regex("b", RestoreMatchScope::AnyApp),
            RestoreMatchRule::title_regex("c", RestoreMatchScope::SameApp),
            RestoreMatchRule::title_regex("d", RestoreMatchScope::SameApp),
            RestoreMatchRule::title_regex("anything: e", RestoreMatchScope::SameApp),
            RestoreMatchRule::title_regex("Same: f", RestoreMatchScope::SameApp),
        ]
    );
}

#[test]
fn encoded_rules_parse_back() {
    let rules = vec![
        RestoreMatchRule::title_regex("project", RestoreMatchScope::SameApp),
        RestoreMatchRule::title_regex("shared", RestoreMatchScope::AnyApp),
    ];
    let value = restore_match_rules_value(&rules);
    assert_eq!(parse_restore_match_rules(&value), Ok(rules));
}

#[test]
fn malformed_rules_are_ignored_and_bad_shapes_rejected() {
    let value = Value::Array(vec![
        rule_dict(vec![("kind", str_value("title_regex")), ("pattern", str_value("a"))]),
        rule_dict(vec![("kind", str_value("app_id")), ("pattern", str_value("b"))]),
        rule_dict(vec![("kind", str_value("title_regex")), ("pattern", Value::U32(3))]),
        rule_dict(vec![
            ("kind", str_value("title_regex")),
            ("pattern", str_value("c")),
            ("scope", str_value("every_app")),
        ]),
        rule_dict(vec![
            ("kind", str_value("title_regex")),
            ("pattern", str_value("d")),
            ("scope", str_value("any_app")),
        ]),
    ]);
    assert_eq!(
        parse_restore_match_rules(&value),
        Ok(vec![
            RestoreMatchRule::title_regex("a", RestoreMatchScope::SameApp),
            RestoreMatchRule::title_regex("d", RestoreMatchScope::AnyApp),
        ])
    );
    assert_eq!(
        parse_restore_match_rules(&str_value("x")),
        Err(InvalidRestoreMatchRules::NotDictArray)
    );
    assert_eq!(
        parse_restore_match_rules(&Value::Array(vec![str_value("x")])),
        Err(InvalidRestoreMatchRules::NotDictArray)
    );
    let many = (0..65)
        .map(|_| rule_dict(vec![("kind", str_value("title_regex")), ("pattern", str_value("p"))]))
        .collect();
    assert_eq!(
        parse_restore_match_rules(&Value::Array(many)),
        Err(InvalidRestoreMatchRules::TooManyRules)
    );
}

#[test]
fn obs_model_gates_v6_keys_on_version_and_token() {
    let model = ObsClientModel::new("OBS Source").with_restore_token("tok");
    let v5 = model.select_sources_options(5);
    assert_eq!(v5.len(), 1);
    assert_eq!(get(&v5, "restore_token"), Some(&str_value("tok")));

    let no_token = ObsClientModel::new("OBS Source")
        .with_restore_token("")
        .with_restore_match_rules("project");
    let opts = no_token.select_sources_options(6);
    assert_eq!(opts.len(), 1);
    assert_eq!(get(&opts, "source_label"), Some(&str_value("OBS Source")));

    let unnamed = ObsClientModel::new("")
        .with_restore_token("tok")
        .with_restore_action(RestoreAction::Error);
    let opts = unnamed.select_sources_options(6);
    assert!(get(&opts, "source_label").is_none());
    assert!(get(&opts, "restore_match_rules").is_none());
    let policy = parse_restore_policy(get(&opts, "restore_policy").unwrap()).unwrap();
    assert_eq!(policy.default_action, Some(RestoreAction::Error));
    assert!(policy.actions.is_empty());
}

#[test]
fn obs_policy_is_exactly_the_default_action() {
    for (action, code) in [(RestoreAction::Prompt, 0), (RestoreAction::Skip, 1), (RestoreAction::Error, 2)] {
        let model = ObsClientModel::new("OBS Camera")
            .with_restore_token("restore-token")
            .with_restore_action(action);
        let options = model.select_sources_options(6);
        assert_eq!(
            get(&options, "restore_policy"),
            Some(&rule_dict(vec![("default_action", Value::U32(code))]))
        );
    }
}

#[test]
fn joined_alias_texts_concatenate_their_rules() {
    let a = "project-a\n  \nany: shared";
    let b = "same_app: project-b\n\nany_app: vault";
    let joined = format!("{a}\n{b}");
    let mut expected = parse_restore_match_rules_text(a);
    expected.extend(parse_restore_match_rules_text(b));
    assert_eq!(parse_restore_match_rules_text(&joined), expected);
    assert_eq!(expected.len(), 4);
    assert!(parse_restore_match_rules_text("").is_empty());
}
