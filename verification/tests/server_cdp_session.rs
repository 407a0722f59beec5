use chrome_host::server::application::cdp_session::{CdpSessionService, SESSION_TTL_MS};

#[test]
fn create_validate_roundtrip() {
    let mut svc = CdpSessionService::new();
    let v = svc.create("ins_a");
    assert!(svc.validate("ins_a", &v.session_id), "未过期会话应通过");
    assert_eq!(v.base_url, format!("/cdp/ins_a/{}", v.session_id));
    assert!(v.expires_at > chrono::Utc::now().timestamp_millis());
}

#[test]
fn validate_binds_instance() {
    let mut svc = CdpSessionService::new();
    let v = svc.create("ins_a");
    assert!(!svc.validate("ins_b", &v.session_id), "实例不匹配应拒绝");
    assert!(!svc.validate("ins_a", "not-a-session"), "未知 key 拒绝");
}

#[test]
fn expired_session_rejected_and_cleaned() {
    let mut svc = CdpSessionService::new();
    let v = svc.create_at("ins_a", "sid-a".to_string(), 1_000);
    assert!(!svc.validate_at("ins_a", &v.session_id, v.expires_at), "过期会话应拒绝");
    assert_eq!(svc.clear_all(), 0, "过期条目被惰性清理");
    assert!(svc.take_audit().iter().any(|e| e.event == "cdp_session_expired"));
}

#[test]
fn sweeper_removes_expired_only() {
    let mut svc = CdpSessionService::new();
    let fresh = svc.create_at("ins_a", "sid-fresh".to_string(), 10_000);
    let stale = svc.create_at("ins_b", "sid-stale".to_string(), 0);
    let now = stale.expires_at;
    assert_eq!(svc.sweep_at(now), 1, "只清扫过期项");
    assert!(svc.validate_at("ins_a", &fresh.session_id, now), "未过期保留");
    assert!(!svc.validate_at("ins_b", &stale.session_id, 0));
    assert!(svc.take_audit().iter().any(|e| e.event == "cdp_session_expired"));
}

#[test]
fn clear_all_wipes_sessions() {
    let mut svc = CdpSessionService::new();
    svc.create("ins_a");
    svc.create("ins_b");
    assert_eq!(svc.clear_all(), 2);
    assert_eq!(svc.clear_all(), 0);
}

#[test]
fn session_lives_for_thirty_minutes() {
    let mut svc = CdpSessionService::new();
    let v = svc.create_at("ins_a", "sid".to_string(), 5);
    assert_eq!(SESSION_TTL_MS, 1_800_000);
    assert_eq!(v.expires_at, 5 + SESSION_TTL_MS);
    assert_eq!(v.base_url, "/cdp/ins_a/sid");
    assert!(svc.validate_at("ins_a", "sid", v.expires_at - 1));
    assert!(!svc.validate_at("ins_a", "sid", v.expires_at));
    let events = svc.take_audit();
    assert_eq!(events[0].event, "cdp_session_created");
    assert_eq!(events[0].target_id.as_deref(), Some("ins_a"));
    assert_eq!(events.last().unwrap().event, "cdp_session_expired");
    assert!(svc.take_audit().is_empty());
}

#[test]
fn recreating_a_session_id_replaces_it() {
    let mut svc = CdpSessionService::new();
    svc.create_at("ins_a", "sid".to_string(), 0);
    svc.create_at("ins_b", "sid".to_string(), 0);
    assert!(!svc.validate_at("ins_a", "sid", 1));
    assert!(svc.validate_at("ins_b", "sid", 1));
    assert_eq!(svc.clear_all(), 1);
}
