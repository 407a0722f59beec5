//! Renderings of instances, tabs and DevTools endpoints, the URL check of
//! `open`/`navigate`, and the decision after a conflicting delete.
use vstd::prelude::*;
use vstd::string::StringExecFns;
use crate::cli::error::CliError;
use crate::cli::model::{
    CdpEndpoint, CdpSessionView, CdpTarget, Instance, InstanceStatus, InstanceStatusView,
};
use crate::text::{
    chars_of, dec, dec_int, i64_to_string, kv, kv_view, opt_nat_text, opt_u16, opt_u32, or_dash,
    push_str, starts_with, starts_with_str, str_to_string, string_from_chars, string_or_dash,
    u16_cell, u32_cell, u64_to_string,
};

verus! {

/// Wire name of an instance state (lower case; `unknown` for the fallback).
pub open spec fn status_text(s: InstanceStatus) -> Seq<char> {
    match s {
        InstanceStatus::Created => "created"@,
        InstanceStatus::Starting => "starting"@,
        InstanceStatus::Running => "running"@,
        InstanceStatus::Stopping => "stopping"@,
        InstanceStatus::Stopped => "stopped"@,
        InstanceStatus::Error => "error"@,
        InstanceStatus::Crashed => "crashed"@,
        InstanceStatus::Unknown => "unknown"@,
    }
}

/// The wire name of an instance state.
pub fn status_label(status: &InstanceStatus) -> (s: String)
    ensures
        s@ == status_text(*status),
{
    match status {
        InstanceStatus::Created => String::from_str("created"),
        InstanceStatus::Starting => String::from_str("starting"),
        InstanceStatus::Running => String::from_str("running"),
        InstanceStatus::Stopping => String::from_str("stopping"),
        InstanceStatus::Stopped => String::from_str("stopped"),
        InstanceStatus::Error => String::from_str("error"),
        InstanceStatus::Crashed => String::from_str("crashed"),
        InstanceStatus::Unknown => String::from_str("unknown"),
    }
}

/// The five table cells of an instance: id, environment, state, pid, port.
pub open spec fn instance_cells_text(i: Instance, environment: Seq<char>) -> Seq<Seq<char>> {
    seq![
        i.id@,
        environment,
        status_text(i.status),
        opt_nat_text(opt_u32(i.pid)),
        opt_nat_text(opt_u16(i.cdp_port)),
    ]
}

/// Table cells `ID ENVIRONMENT STATUS PID CDP`; absent numbers render as `-`.
pub fn instance_cells(instance: &Instance, environment: &str) -> (r: Vec<String>)
    ensures
        r@.map_values(|s: String| s@) == instance_cells_text(*instance, environment@),
{
    let r = vec![
        instance.id.clone(),
        str_to_string(environment),
        status_label(&instance.status),
        u32_cell(instance.pid),
        u16_cell(instance.cdp_port),
    ];
    assert(r@.map_values(|s: String| s@) =~= instance_cells_text(*instance, environment@));
    r
}

/// The frozen key/value rendering of an instance.
pub open spec fn instance_kv(i: Instance) -> Seq<(Seq<char>, Seq<char>)> {
    seq![
        ("id"@, i.id@),
        ("status"@, status_text(i.status)),
        ("pid"@, opt_nat_text(opt_u32(i.pid))),
        ("cdpPort"@, opt_nat_text(opt_u16(i.cdp_port))),
        ("browserVersion"@, or_dash(i.browser_version)),
        ("profileDir"@, i.profile_dir@),
        ("createdAt"@, dec_int(i.created_at as int)),
        ("updatedAt"@, dec_int(i.updated_at as int)),
    ]
}

/// An instance as key/value pairs under the JSON field names.
pub fn instance_kv_pairs(instance: &Instance) -> (r: Vec<(String, String)>)
    ensures
        kv_view(r@) == instance_kv(*instance),
{
    let r = vec![
        kv("id", instance.id.clone()),
        kv("status", status_label(&instance.status)),
        kv("pid", u32_cell(instance.pid)),
        kv("cdpPort", u16_cell(instance.cdp_port)),
        kv("browserVersion", string_or_dash(&instance.browser_version)),
        kv("profileDir", instance.profile_dir.clone()),
        kv("createdAt", i64_to_string(instance.created_at)),
        kv("updatedAt", i64_to_string(instance.updated_at)),
    ];
    assert(kv_view(r@) =~= instance_kv(*instance));
    r
}

/// The light-weight state rendering.
pub open spec fn status_view_kv(v: InstanceStatusView) -> Seq<(Seq<char>, Seq<char>)> {
    seq![
        ("id"@, v.id@),
        ("status"@, status_text(v.status)),
        ("pid"@, opt_nat_text(opt_u32(v.pid))),
        ("cdpPort"@, opt_nat_text(opt_u16(v.cdp_port))),
        ("browserVersion"@, or_dash(v.browser_version)),
    ]
}

/// The light-weight state of an instance as key/value pairs.
pub fn status_kv_pairs(view: &InstanceStatusView) -> (r: Vec<(String, String)>)
    ensures
        kv_view(r@) == status_view_kv(*view),
{
    let r = vec![
        kv("id", view.id.clone()),
        kv("status", status_label(&view.status)),
        kv("pid", u32_cell(view.pid)),
        kv("cdpPort", u16_cell(view.cdp_port)),
        kv("browserVersion", string_or_dash(&view.browser_version)),
    ];
    assert(kv_view(r@) =~= status_view_kv(*view));
    r
}

/// The URL an instance may open: `http://` or `https://`.
pub open spec fn web_url(url: Seq<char>) -> bool {
    starts_with(url, "http://"@) || starts_with(url, "https://"@)
}

/// The local refusal of a URL without an `http(s)` scheme.
pub open spec fn bad_url_message(url: Seq<char>) -> Seq<char> {
    "URL 必须以 http:// 或 https:// 开头（收到: "@ + url + "）"@
}

/// Accepts only `http://` and `https://` URLs; anything else is refused
/// locally, before any request.
pub fn validate_url(url: &str) -> (r: Result<(), CliError>)
    ensures
        web_url(url@) <==> r is Ok,
        r matches Err(e) ==> e matches CliError::Local(m) && m@ == bad_url_message(url@),
{
    let u = chars_of(url);
    if !(starts_with_str(&u, "http://") || starts_with_str(&u, "https://")) {
        let mut buf: Vec<char> = Vec::new();
        push_str(&mut buf, "URL 必须以 http:// 或 https:// 开头（收到: ");
        push_str(&mut buf, url);
        push_str(&mut buf, "）");
        return Err(CliError::Local(string_from_chars(&buf)));
    }
    Ok(())
}

/// A tab as key/value pairs: id, title, url.
pub open spec fn target_kv(t: CdpTarget) -> Seq<(Seq<char>, Seq<char>)> {
    seq![("id"@, t.id@), ("title"@, t.title@), ("url"@, t.url@)]
}

/// A tab as key/value pairs (its type is always `page` here and is left out).
pub fn target_kv_pairs(target: &CdpTarget) -> (r: Vec<(String, String)>)
    ensures
        kv_view(r@) == target_kv(*target),
{
    let r = vec![
        kv("id", target.id.clone()),
        kv("title", target.title.clone()),
        kv("url", target.url.clone()),
    ];
    assert(kv_view(r@) =~= target_kv(*target));
    r
}

/// The table cells of a tab: the values of its pairs, in order.
pub fn target_cells(target: &CdpTarget) -> (r: Vec<String>)
    ensures
        r@.map_values(|s: String| s@) == target_kv(*target).map_values(
            |p: (Seq<char>, Seq<char>)| p.1,
        ),
{
    let r = vec![target.id.clone(), target.title.clone(), target.url.clone()];
    assert(r@.map_values(|s: String| s@) =~= target_kv(*target).map_values(
        |p: (Seq<char>, Seq<char>)| p.1,
    ));
    r
}

/// A DevTools endpoint as key/value pairs.
pub open spec fn cdp_kv(e: CdpEndpoint) -> Seq<(Seq<char>, Seq<char>)> {
    seq![
        ("instanceId"@, e.instance_id@),
        ("host"@, e.host@),
        ("port"@, dec(e.port as nat)),
        ("httpUrl"@, e.http_url@),
        ("webSocketUrl"@, or_dash(e.web_socket_url)),
    ]
}

/// A DevTools endpoint as key/value pairs under the JSON field names.
pub fn cdp_kv_pairs(endpoint: &CdpEndpoint) -> (r: Vec<(String, String)>)
    ensures
        kv_view(r@) == cdp_kv(*endpoint),
{
    let r = vec![
        kv("instanceId", endpoint.instance_id.clone()),
        kv("host", endpoint.host.clone()),
        kv("port", u64_to_string(endpoint.port as u64)),
        kv("httpUrl", endpoint.http_url.clone()),
        kv("webSocketUrl", string_or_dash(&endpoint.web_socket_url)),
    ];
    assert(kv_view(r@) =~= cdp_kv(*endpoint));
    r
}

/// Integer division rounding toward zero, as Rust's `/` on integers.
pub open spec fn div_toward_zero(d: int, k: nat) -> int {
    if d >= 0 {
        d / (k as int)
    } else {
        -((-d) / (k as int))
    }
}

/// Whole minutes from `now` to `expires_at`, rounded toward zero.
pub fn minutes_left(expires_at: i64, now: i64) -> (m: i64)
    requires
        i64::MIN <= expires_at - now <= i64::MAX,
    ensures
        m == div_toward_zero(expires_at - now, 60_000),
{
    let d: i64 = expires_at - now;
    if d >= 0 {
        let q: u64 = (d as u64) / 60_000;
        q as i64
    } else {
        let mag: u64 = (0i128 - (d as i128)) as u64;
        let q: u64 = mag / 60_000;
        assert(q <= 0x8000_0000_0000_0000u64 / 60_000);
        0i64 - (q as i64)
    }
}

/// The full proxy URL of a session: the API base address and the session's
/// path prefix.
pub fn session_full_url(api_base: &str, view: &CdpSessionView) -> (s: String)
    ensures
        s@ == api_base@ + view.base_url@,
{
    let mut buf: Vec<char> = Vec::new();
    push_str(&mut buf, api_base);
    push_str(&mut buf, view.base_url.as_str());
    string_from_chars(&buf)
}

/// A DevTools session as key/value pairs, with the minutes left at `now`.
pub open spec fn session_kv(v: CdpSessionView, now: int) -> Seq<(Seq<char>, Seq<char>)> {
    seq![
        ("sessionId"@, v.session_id@),
        ("baseUrl"@, v.base_url@),
        ("expiresAt"@, dec_int(v.expires_at as int)),
        ("expiresInMin"@, dec_int(div_toward_zero(v.expires_at - now, 60_000))),
    ]
}

/// The `instance cdp-session` key/value pairs at time `now` (epoch ms).
pub fn cdp_session_kv_pairs(view: &CdpSessionView, now: i64) -> (r: Vec<(String, String)>)
    requires
        i64::MIN <= view.expires_at - now <= i64::MAX,
    ensures
        kv_view(r@) == session_kv(*view, now as int),
{
    let r = vec![
        kv("sessionId", view.session_id.clone()),
        kv("baseUrl", view.base_url.clone()),
        kv("expiresAt", i64_to_string(view.expires_at)),
        kv("expiresInMin", i64_to_string(minutes_left(view.expires_at, now))),
    ];
    assert(kv_view(r@) =~= session_kv(*view, now as int));
    r
}

/// What to do after a delete request failed.
#[derive(Debug, Clone, PartialEq, Eq)]
pub enum ConflictAction {
    /// Report the error as it is.
    Fail(CliError),
    /// Stop first, then delete again (already authorised).
    StopThenDelete,
    /// Ask before stopping, then delete again.
    ConfirmThenStop,
}

/// A delete refused because the target still runs: `409` with `code`.
pub open spec fn is_running_conflict(err: CliError, code: Seq<char>) -> bool {
    err matches CliError::Api { status, code: c, .. } && status == 409 && c@ == code
}

/// The decision after a failed delete: a conflict with code `code` means
/// "stop it first" (with `--yes` go ahead, on a terminal ask, off a terminal
/// refuse with `refusal`); any other error is reported as it is.
pub fn delete_conflict_action(
    err: CliError,
    code: &str,
    yes: bool,
    is_tty: bool,
    refusal: &str,
) -> (r: ConflictAction)
    ensures
        !is_running_conflict(err, code@) ==> r == ConflictAction::Fail(err),
        is_running_conflict(err, code@) && yes ==> r == ConflictAction::StopThenDelete,
        is_running_conflict(err, code@) && !yes && is_tty ==> r == ConflictAction::ConfirmThenStop,
        is_running_conflict(err, code@) && !yes && !is_tty ==> (r matches ConflictAction::Fail(
            CliError::Local(m),
        ) && m@ == refusal@),
{
    match err {
        CliError::Api { status, code: c, message } => {
            let cs = chars_of(c.as_str());
            let want = chars_of(code);
            if status == 409 && crate::text::chars_eq(&cs, &want) {
                if yes {
                    ConflictAction::StopThenDelete
                } else if is_tty {
                    ConflictAction::ConfirmThenStop
                } else {
                    ConflictAction::Fail(CliError::Local(str_to_string(refusal)))
                }
            } else {
                ConflictAction::Fail(CliError::Api { status, code: c, message })
            }
        },
        other => ConflictAction::Fail(other),
    }
}

/// The decision after `instance delete` failed: a running instance
/// (`409 INSTANCE_ALREADY_RUNNING`) is stopped first, with the user's
/// consent; every other error is reported as it is.
pub fn instance_delete_conflict(err: CliError, yes: bool, is_tty: bool) -> (r: ConflictAction)
    ensures
        !is_running_conflict(err, "INSTANCE_ALREADY_RUNNING"@) ==> r == ConflictAction::Fail(err),
        is_running_conflict(err, "INSTANCE_ALREADY_RUNNING"@) && yes ==> r
            == ConflictAction::StopThenDelete,
        is_running_conflict(err, "INSTANCE_ALREADY_RUNNING"@) && !yes && is_tty ==> r
            == ConflictAction::ConfirmThenStop,
        is_running_conflict(err, "INSTANCE_ALREADY_RUNNING"@) && !yes && !is_tty ==> (r matches ConflictAction::Fail(
            CliError::Local(m),
        ) && m@ == "实例运行中，非交互环境需要 --yes 才能停止并删除"@),
{
    delete_conflict_action(
        err,
        "INSTANCE_ALREADY_RUNNING",
        yes,
        is_tty,
        "实例运行中，非交互环境需要 --yes 才能停止并删除",
    )
}

/// The `instance` subcommands.
#[derive(Debug, Clone, PartialEq, Eq)]
pub enum InstanceCommands {
    /// List instances, of one environment with `env`.
    List { env: Option<String> },
    /// Show one instance.
    Get { id: String },
    /// Show the light-weight state of an instance.
    Status { id: String },
    /// Create (and start) an instance.
    Create { env_id: String },
    /// Start an instance.
    Start { id: String },
    /// Stop an instance.
    Stop { id: String },
    /// Restart an instance.
    Restart { id: String },
    /// Open an `http(s)` URL in a new tab.
    Open { id: String, url: String },
    /// List the tabs.
    Tabs { id: String },
    /// Navigate a tab to an `http(s)` URL.
    Navigate { id: String, tab_id: String, url: String },
    /// Bring the window to the front.
    Focus { id: String },
    /// Show the DevTools endpoint.
    Cdp { id: String },
    /// Grant a DevTools session for proxied access.
    CdpSession { id: String },
    /// Delete an instance (a running one is stopped first).
    Delete { id: String, yes: bool },
}

} // verus!
