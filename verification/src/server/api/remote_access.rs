//! The audit record of a token rotation.
use vstd::prelude::*;
use vstd::string::StringExecFns;
use crate::server::application::cdp_session::AuditEvent;
use crate::text::{dec, push_str, push_u64, str_to_string, string_from_chars};

verus! {

/// The activity message after rotating the token, which also drops every
/// DevTools session.
pub open spec fn rotation_message(cleared: nat) -> Seq<char> {
    "远程访问令牌已轮换（旧令牌立即失效，清空 "@ + dec(cleared) + " 个活跃 CDP 会话）"@
}

/// The `warn`-level `remote_access_token_rotated` event, attached to no
/// environment or target, after `cleared` sessions were dropped.
pub fn token_rotated_event(cleared: usize) -> (e: AuditEvent)
    ensures
        e.level@ == "warn"@,
        e.event@ == "remote_access_token_rotated"@,
        e.target_id is None,
        e.message@ == rotation_message(cleared as nat),
{
    let mut buf: Vec<char> = Vec::new();
    push_str(&mut buf, "远程访问令牌已轮换（旧令牌立即失效，清空 ");
    push_u64(&mut buf, cleared as u64);
    push_str(&mut buf, " 个活跃 CDP 会话）");
    AuditEvent {
        level: str_to_string("warn"),
        event: str_to_string("remote_access_token_rotated"),
        target_id: None,
        message: string_from_chars(&buf),
    }
}

} // verus!
