use chrome_host::server::api::server::listen_addr;
use chrome_host::server::api::environments::{requested_limit, status_counts, InstanceCounts};
use chrome_host::server::api::error::{response_body_fields, response_status};
use chrome_host::server::api::extensions::{register_path, RegisterBody};
use chrome_host::server::api::instances::{
    proxy_host, proxy_target, session_not_found, ProxyKind, ProxyTarget,
};
use chrome_host::server::api::mcp::tool_error_fields;
use chrome_host::server::api::remote_access::token_rotated_event;
use chrome_host::server::api::server::{bind_step, BindStep, MAX_BIND_ATTEMPTS};
use chrome_host::server::application::activity::{event_environment, query_limit};
use chrome_host::server::domain::instance::InstanceStatus;
use chrome_host::server::error::AppError;

#[test]
fn env_status_counts_by_state() {
    let c = status_counts(&[
        InstanceStatus::Running,
        InstanceStatus::Running,
        InstanceStatus::Starting,
        InstanceStatus::Stopped,
        InstanceStatus::Error,
        InstanceStatus::Crashed,
        InstanceStatus::Created,
        InstanceStatus::Stopping,
    ]);
    assert_eq!(c, InstanceCounts { total: 8, running: 2, starting: 1, stopped: 1, error: 2 });
    assert_eq!(status_counts(&[]), InstanceCounts { total: 0, running: 0, starting: 0, stopped: 0, error: 0 });
}

#[test]
fn activity_limits() {
    assert_eq!(requested_limit(None), 50);
    assert_eq!(requested_limit(Some(7)), 7);
    assert_eq!(query_limit(0), 1);
    assert_eq!(query_limit(-5), 1);
    assert_eq!(query_limit(50), 50);
    assert_eq!(query_limit(1000), 200);
    assert_eq!(query_limit(requested_limit(None)), 50);
}

#[test]
fn event_environment_prefers_the_given_one() {
    assert_eq!(event_environment(Some("env_1"), Some("env_2".into())), Some("env_1".to_string()));
    assert_eq!(event_environment(None, Some("env_2".into())), Some("env_2".to_string()));
    assert_eq!(event_environment(None, None), None);
}

#[test]
fn register_path_is_trimmed_and_required() {
    let ok = register_path(&RegisterBody { path: "  /tmp/ext \n".into() }).unwrap();
    assert_eq!(ok, "/tmp/ext");
    let err = register_path(&RegisterBody { path: " \t ".into() }).unwrap_err();
    assert_eq!(err.status(), 400);
    assert_eq!(err.code(), "INVALID_REQUEST");
    assert_eq!(err.to_text(), "path 不能为空");
}

#[test]
fn error_responses() {
    let e = AppError::conflict("PROFILE_IN_USE", "忙".into());
    assert_eq!(response_status(&e), 409);
    assert_eq!(response_body_fields(&e), ("PROFILE_IN_USE".to_string(), "忙".to_string()));
    let e = AppError::Db("locked".into());
    assert_eq!(response_status(&e), 500);
    assert_eq!(
        response_body_fields(&e),
        ("INTERNAL_ERROR".to_string(), "数据库错误: locked".to_string())
    );
    assert_eq!(response_status(&AppError::business(42, "ODD", "x".into())), 500);
    assert_eq!(response_status(&AppError::business(1000, "ODD", "x".into())), 500);
    assert_eq!(response_status(&AppError::business(999, "ODD", "x".into())), 999);
}

#[test]
fn mcp_tool_errors_keep_rest_semantics() {
    let e = AppError::not_found("INSTANCE_NOT_FOUND", "没有".into());
    assert_eq!(tool_error_fields(&e), (404, "INSTANCE_NOT_FOUND".to_string(), "没有".to_string()));
    let e = AppError::Io("disk".into());
    assert_eq!(tool_error_fields(&e), (500, "INTERNAL_ERROR".to_string(), "IO 错误: disk".to_string()));
}

#[test]
fn proxy_routing() {
    assert_eq!(proxy_target(ProxyKind::Json, false).unwrap(), ProxyTarget::HttpJson("/json"));
    assert_eq!(proxy_target(ProxyKind::JsonList, true).unwrap(), ProxyTarget::HttpJson("/json/list"));
    assert_eq!(
        proxy_target(ProxyKind::JsonVersion, false).unwrap(),
        ProxyTarget::HttpJson("/json/version")
    );
    assert_eq!(
        proxy_target(ProxyKind::DevToolsWs("devtools/page/1".into()), true).unwrap(),
        ProxyTarget::BridgeWs("devtools/page/1".into())
    );
    let e = proxy_target(ProxyKind::DevToolsWs("devtools/page/1".into()), false).unwrap_err();
    assert_eq!(e.status(), 400);
    let e = proxy_target(ProxyKind::Rejected, true).unwrap_err();
    assert_eq!(e.code(), "INVALID_REQUEST");
    let e = session_not_found();
    assert_eq!((e.status(), e.code()), (404, "SESSION_NOT_FOUND"));
    assert_eq!(proxy_host(Some("yun:17890")), "yun:17890");
    assert_eq!(proxy_host(None), "127.0.0.1:17890");
}

#[test]
fn token_rotation_event() {
    let e = token_rotated_event(3);
    assert_eq!(e.level, "warn");
    assert_eq!(e.event, "remote_access_token_rotated");
    assert_eq!(e.target_id, None);
    assert_eq!(e.message, "远程访问令牌已轮换（旧令牌立即失效，清空 3 个活跃 CDP 会话）");
}

#[test]
fn bind_retries_then_gives_up() {
    assert_eq!(bind_step(1, true), BindStep::Listen);
    assert_eq!(bind_step(1, false), BindStep::Retry { warn: true });
    assert_eq!(bind_step(2, false), BindStep::Retry { warn: false });
    assert_eq!(bind_step(20, false), BindStep::Retry { warn: true });
    assert_eq!(bind_step(40, false), BindStep::Retry { warn: true });
    assert_eq!(bind_step(59, false), BindStep::Retry { warn: false });
    assert_eq!(bind_step(MAX_BIND_ATTEMPTS, false), BindStep::GiveUp);
    assert_eq!(bind_step(MAX_BIND_ATTEMPTS, true), BindStep::Listen);
}

#[test]
fn listeners_bind_loopback_only() {
    assert_eq!(listen_addr(false), ("127.0.0.1".to_string(), 17890));
    assert_eq!(listen_addr(true), ("127.0.0.1".to_string(), 17891));
}
