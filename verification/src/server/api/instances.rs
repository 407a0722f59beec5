//! Request bodies of the instance endpoints, and the decisions of the
//! DevTools session proxy.
use vstd::prelude::*;
use vstd::string::StringExecFns;
use crate::server::error::{is_business, AppError};

verus! {

/// Body of `POST /api/v1/instances/{id}/tabs`.
#[derive(Debug, Clone, PartialEq, Eq)]
pub struct OpenTabBody {
    pub url: String,
}

/// Body of `POST /api/v1/instances/{id}/navigate` (`tabId` on the wire).
#[derive(Debug, Clone, PartialEq, Eq)]
pub struct NavigateBody {
    pub tab_id: String,
    pub url: String,
}

/// Kinds of paths below a session prefix `/cdp/{instance}/{session}/`.
#[derive(Debug, Clone, PartialEq, Eq)]
pub enum ProxyKind {
    /// `json`.
    Json,
    /// `json/list`.
    JsonList,
    /// `json/version`.
    JsonVersion,
    /// `devtools/...`, with the DevTools path.
    DevToolsWs(String),
    /// Anything else (such as the mutating `json/new`).
    Rejected,
}

/// How a proxied request is served.
#[derive(Debug, Clone, PartialEq, Eq)]
pub enum ProxyTarget {
    /// Fetch this DevTools HTTP endpoint and rewrite its WebSocket URLs.
    HttpJson(&'static str),
    /// Bridge a WebSocket to this DevTools path.
    BridgeWs(String),
}

/// The error for an unknown, expired or foreign session: one answer for
/// all three, so that session keys cannot be probed.
pub open spec fn is_session_not_found(e: AppError) -> bool {
    is_business(
        e,
        404,
        "SESSION_NOT_FOUND"@,
        "CDP 会话不存在或已过期（30 分钟有效）；请重新发放：POST /api/v1/instances/{id}/cdp/sessions"@,
    )
}

/// The refusal of a request whose session did not validate.
pub fn session_not_found() -> (e: AppError)
    ensures
        is_session_not_found(e),
{
    AppError::not_found(
        "SESSION_NOT_FOUND",
        String::from_str(
            "CDP 会话不存在或已过期（30 分钟有效）；请重新发放：POST /api/v1/instances/{id}/cdp/sessions",
        ),
    )
}

/// How a request on a validated session of a running instance is served:
/// the three read-only JSON endpoints over HTTP, DevTools paths only as a
/// WebSocket upgrade, and nothing else.
pub fn proxy_target(kind: ProxyKind, upgrade: bool) -> (r: Result<ProxyTarget, AppError>)
    ensures
        match kind {
            ProxyKind::Json => r matches Ok(ProxyTarget::HttpJson(p)) && p@ == "/json"@,
            ProxyKind::JsonList => r matches Ok(ProxyTarget::HttpJson(p)) && p@ == "/json/list"@,
            ProxyKind::JsonVersion => r matches Ok(ProxyTarget::HttpJson(p)) && p@
                == "/json/version"@,
            ProxyKind::DevToolsWs(path) => if upgrade {
                r matches Ok(ProxyTarget::BridgeWs(p)) && p@ == path@
            } else {
                r matches Err(e) && is_business(
                    e,
                    400,
                    "INVALID_REQUEST"@,
                    "devtools 路径仅支持 WebSocket 连接（HTTP 调试端点仅 /json 家族）"@,
                )
            },
            ProxyKind::Rejected => r matches Err(e) && is_business(
                e,
                400,
                "INVALID_REQUEST"@,
                "非代理端点（仅 GET /json、/json/list、/json/version 与 WS /devtools/*）；开新页请走 REST open_tab，激活请走 focus"@,
            ),
        },
{
    proof {
        reveal_strlit("/json");
        reveal_strlit("/json/list");
        reveal_strlit("/json/version");
    }
    match kind {
        ProxyKind::Json => Ok(ProxyTarget::HttpJson("/json")),
        ProxyKind::JsonList => Ok(ProxyTarget::HttpJson("/json/list")),
        ProxyKind::JsonVersion => Ok(ProxyTarget::HttpJson("/json/version")),
        ProxyKind::DevToolsWs(path) => {
            if upgrade {
                Ok(ProxyTarget::BridgeWs(path))
            } else {
                Err(
                    AppError::invalid_request(
                        String::from_str(
                            "devtools 路径仅支持 WebSocket 连接（HTTP 调试端点仅 /json 家族）",
                        ),
                    ),
                )
            }
        },
        ProxyKind::Rejected => Err(
            AppError::invalid_request(
                String::from_str(
                    "非代理端点（仅 GET /json、/json/list、/json/version 与 WS /devtools/*）；开新页请走 REST open_tab，激活请走 focus",
                ),
            ),
        ),
    }
}

/// The host the client reached the API at (its `Host` header), which the
/// rewritten WebSocket URLs point to; the local API address without one.
pub fn proxy_host(header: Option<&str>) -> (h: String)
    ensures
        h@ == (match header {
            Some(v) => v@,
            None => "127.0.0.1:17890"@,
        }),
{
    match header {
        Some(v) => crate::text::str_to_string(v),
        None => String::from_str("127.0.0.1:17890"),
    }
}

} // verus!
