use chrome_host::cli::login_profile::{capture_needs_confirm, row_cells, status_label, view_kv_pairs};
use chrome_host::cli::model::{LoginProfileRow, LoginProfileStatus, LoginProfileView};

#[test]
fn status_label_renders_snake_case() {
    assert_eq!(status_label(&LoginProfileStatus::NotConfigured), "not_configured");
    assert_eq!(status_label(&LoginProfileStatus::Ready), "ready");
    assert_eq!(status_label(&LoginProfileStatus::Capturing), "capturing");
    assert_eq!(status_label(&LoginProfileStatus::Error), "error");
    assert_eq!(status_label(&LoginProfileStatus::Unknown), "unknown");
}

#[test]
fn view_kv_pairs_matches_json_fields() {
    let view = LoginProfileView {
        id: "lp_1".into(),
        name: "env-1 主目录".into(),
        status: LoginProfileStatus::Ready,
        snapshot_version: 3,
        instances_using: 2,
        last_captured_at: Some(1_700_000_000_000),
        browser_running: true,
        cdp_port: Some(9223),
    };
    let pairs = view_kv_pairs(&view);
    let get = |k: &str| pairs.iter().find(|(key, _)| key == k).map(|(_, v)| v.clone()).unwrap();
    assert_eq!(get("id"), "lp_1");
    assert_eq!(get("status"), "ready");
    assert_eq!(get("snapshotVersion"), "3");
    assert_eq!(get("instancesUsing"), "2");
    assert_eq!(get("lastCapturedAt"), "1700000000000");
    assert_eq!(get("browserRunning"), "true");
    assert_eq!(get("cdpPort"), "9223");

    let mut empty = view.clone();
    empty.last_captured_at = None;
    empty.cdp_port = None;
    empty.browser_running = false;
    let pairs = view_kv_pairs(&empty);
    let get = |k: &str| pairs.iter().find(|(key, _)| key == k).map(|(_, v)| v.clone()).unwrap();
    assert_eq!(get("lastCapturedAt"), "-");
    assert_eq!(get("cdpPort"), "-");
    assert_eq!(get("browserRunning"), "false");
}

#[test]
fn row_cells_render_dash_for_never_captured() {
    let row = LoginProfileRow {
        id: "lp_2".into(),
        environment_id: "env_2".into(),
        environment_name: "qa".into(),
        name: "qa 主目录".into(),
        status: LoginProfileStatus::NotConfigured,
        snapshot_version: 0,
        instances_using: 0,
        last_captured_at: None,
        browser_running: false,
    };
    let cells = row_cells(&row);
    assert_eq!(cells, ["qa", "qa 主目录", "not_configured", "0", "0", "-"]);
}

#[test]
fn capture_confirmation_only_when_overwriting_without_yes() {
    assert!(capture_needs_confirm(false, 1));
    assert!(!capture_needs_confirm(true, 1));
    assert!(!capture_needs_confirm(false, 0));
}
