# screencast_portal_mock

A mock of the XDG Desktop Portal `org.freedesktop.portal.ScreenCast`
interface (version 6) for testing portal clients, whose protocol logic is
verified with Verus.

- `src/` is the verified library:
  - `value.rs`: the plain D-Bus values (`a{sv}` vardicts, arrays, structures) the portal reads and writes;
  - `records.rs`: restore failure reasons, restore actions, `restore_policy` parsing and the `restore_failure` object, recorded calls and source definitions;
  - `rules.rs`: `restore_match_rules` parsing and encoding, and vendor restore-token records;
  - `text.rs`, `obs.rs`: the OBS client model, its multiline alias grammar and the options it sends;
  - `scenario.rs`: what the built-in scenarios answer;
  - `portal.rs`: the portal state machine (recorded calls, answers under a restore policy, closed sessions) and its laws;
  - `handle.rs`, `bus.rs`: the decisions behind the assertion handle and the private bus address.
- `app/` is the D-Bus plumbing: the private `dbus-daemon`, the zbus objects, the async scenario trait and the assertion handle.
- `tests/` exercises the library on concrete values.

## Restore failures and when they surface

A restore policy applies only to a `SelectSources` call that carries a
`restore_token`. For `token_not_found`, `permission_revoked` and
`token_consumed` a skip or error policy answers `SelectSources` itself and
closes the session. A `source_unavailable` failure is different: the token
resolved and only its source is missing, so `SelectSources` succeeds and the
deferred skip or error surfaces at `Start`, with `token_invalid = false`. The
tests `source_unavailable_error_surfaces_at_start_with_token_valid` and
`all_generic_fail_reasons_with_error_policy` check exactly this split.

Dictionary values and array elements are read through one variant layer, as
D-Bus maps and vectors are read: `restore_policy.actions` may be an `a{su}` or
an `a{sv}` of `u32` variants, and `restore_match_rules` an `aa{sv}` or an `av`
of vardicts.
