use screencast_portal_mock::bus::bus_address;
use screencast_portal_mock::{
    InvalidRestoreAction, InvalidRestoreFailReason, RestoreAction, RestoreFailReason,
    RestoreMatchScope, RestorePolicy, SourceTypes,
};

const REASONS: [RestoreFailReason; 4] = [
    RestoreFailReason::TokenNotFound,
    RestoreFailReason::SourceUnavailable,
    RestoreFailReason::PermissionRevoked,
    RestoreFailReason::TokenConsumed,
];

#[test]
fn reason_strings_round_trip() {
    let names = ["token_not_found", "source_unavailable", "permission_revoked", "token_consumed"];
    for (reason, name) in REASONS.iter().zip(names) {
        assert_eq!(reason.as_str(), name);
        assert_eq!(RestoreFailReason::from_wire(name), Ok(*reason));
        assert_eq!(RestoreFailReason::try_from(name), Ok(*reason));
    }
    assert_eq!(
        RestoreFailReason::from_wire("future_reason"),
        Err(InvalidRestoreFailReason("future_reason".to_string()))
    );
}

#[test]
fn only_source_unavailable_keeps_the_token() {
    for reason in REASONS {
        assert_eq!(reason.token_invalid(), reason != RestoreFailReason::SourceUnavailable);
    }
}

#[test]
fn invalid_mode_value_is_rejected() {
    assert_eq!(RestoreAction::try_from(0), Ok(RestoreAction::Prompt));
    assert_eq!(RestoreAction::try_from(1), Ok(RestoreAction::Skip));
    assert_eq!(RestoreAction::try_from(2), Ok(RestoreAction::Error));
    assert_eq!(RestoreAction::try_from(3), Err(InvalidRestoreAction(3)), "TryFrom should reject value 3");
    assert_eq!(
        RestoreAction::from_u32(u32::MAX),
        Err(InvalidRestoreAction(u32::MAX)),
        "TryFrom should reject u32::MAX"
    );
    for a in [RestoreAction::Prompt, RestoreAction::Skip, RestoreAction::Error] {
        assert_eq!(RestoreAction::from_u32(a.as_u32()), Ok(a));
    }
}

#[test]
fn action_for_prefers_override_then_default_then_prompt() {
    let empty = RestorePolicy { default_action: None, actions: Vec::new() };
    assert_eq!(empty.action_for(RestoreFailReason::TokenNotFound), RestoreAction::Prompt);
    let p = RestorePolicy {
        default_action: Some(RestoreAction::Skip),
        actions: vec![(RestoreFailReason::TokenConsumed, RestoreAction::Error)],
    };
    assert_eq!(p.action_for(RestoreFailReason::TokenConsumed), RestoreAction::Error);
    assert_eq!(p.action_for(RestoreFailReason::TokenNotFound), RestoreAction::Skip);
}

#[test]
fn source_types_truncate_unknown_bits() {
    assert_eq!(SourceTypes::from_bits_truncate(0b1010).bits(), 0b010);
    assert_eq!(SourceTypes::monitor().bits(), 1);
}

#[test]
fn scope_strings() {
    assert_eq!(RestoreMatchScope::SameApp.as_str(), "same_app");
    assert_eq!(RestoreMatchScope::AnyApp.as_str(), "any_app");
}

#[test]
fn bus_address_is_the_trimmed_line() {
    assert_eq!(
        bus_address("unix:abstract=/tmp/dbus-x,guid=1\n").as_deref(),
        Some("unix:abstract=/tmp/dbus-x,guid=1")
    );
    assert_eq!(bus_address(" \t\r\n"), None);
    assert_eq!(bus_address(""), None);
}

#[test]
fn unknown_reason_strings_are_refused_exactly() {
    for other in ["future_reason", "Token_Not_Found", "", "token_not_found "] {
        assert_eq!(
            RestoreFailReason::try_from(other),
            Err(InvalidRestoreFailReason(other.to_string()))
        );
    }
}

#[test]
fn default_policy_prompts_for_every_reason() {
    let p = RestorePolicy::default();
    assert_eq!(p.default_action, None);
    assert!(p.actions.is_empty());
    for reason in REASONS {
        assert_eq!(p.action_for(reason), RestoreAction::Prompt);
    }
}

#[test]
fn policy_equality_ignores_override_order() {
    let a = RestorePolicy {
        default_action: Some(RestoreAction::Skip),
        actions: vec![
            (RestoreFailReason::TokenNotFound, RestoreAction::Error),
            (RestoreFailReason::TokenConsumed, RestoreAction::Prompt),
        ],
    };
    let b = RestorePolicy {
        default_action: Some(RestoreAction::Skip),
        actions: vec![
            (RestoreFailReason::TokenConsumed, RestoreAction::Prompt),
            (RestoreFailReason::TokenNotFound, RestoreAction::Error),
        ],
    };
    assert_eq!(a, b);
    assert_eq!(a.override_of(RestoreFailReason::TokenNotFound), Some(RestoreAction::Error));
    assert_eq!(a.override_of(RestoreFailReason::SourceUnavailable), None);
    let c = RestorePolicy { default_action: Some(RestoreAction::Skip), actions: vec![a.actions[0]] };
    assert_ne!(a, c);
    let d = RestorePolicy { default_action: None, actions: b.actions.clone() };
    assert_ne!(a, d);
}
