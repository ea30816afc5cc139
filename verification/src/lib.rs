//! A verified protocol model of a mock XDG Desktop Portal
//! `org.freedesktop.portal.ScreenCast` interface (version 6).
//!
//! The library decides everything the mock portal does: which
//! `SelectSources` options it records and how it parses `restore_policy` and
//! `restore_match_rules`, how each request is answered under a restore
//! policy, which sessions a policy-driven skip or error closes, what the
//! built-in scenarios return, and which options a patched OBS client sends.
//! The D-Bus plumbing around it lives outside the library.

pub mod bus;
pub mod handle;
pub mod obs;
pub mod portal;
pub mod records;
pub mod rules;
pub mod scenario;
pub mod text;
pub mod value;

pub use handle::WaitError;
pub use obs::{parse_restore_match_rules_text, ObsClientModel};
pub use portal::{PortalResponse, PortalState, SelectSourcesError, StartError, StartStep};
pub use records::{
    parse_restore_policy, restore_failure_value, Call, InvalidRestoreAction,
    InvalidRestoreFailReason, InvalidRestorePolicy, RestoreAction, RestoreFailReason,
    RestoreFailure, RestorePolicy, SourceDef, SourceTypes, ACCEPTED_SELECT_SOURCES_KEYS,
};
pub use rules::{
    parse_restore_match_rules, restore_match_rules_value, InvalidRestoreMatchRules,
    RestoreMatchRule, RestoreMatchScope, RestoreTokenRecord,
};
pub use scenario::{
    default_start_result, encode_streams, rescue_start_result, DelayedRestore, ErrorWithoutFlag,
    FailThenSucceed, MultiSource, NormalSession, OldPortal, RescueOutcome, RestoreTokenFails,
    RestoreTokenValid, StartResult, UserCancels, DEFAULT_PORTAL_VERSION,
};
pub use value::{Options, Value};
