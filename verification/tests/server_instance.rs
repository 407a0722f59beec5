use chrome_host::server::application::instance_service::{InstanceService, LaunchStage};
use chrome_host::server::error::AppError;
use chrome_host::server::domain::hosts::HostRules;
use chrome_host::server::domain::instance::{Instance, InstanceStatus};

fn instance(status: InstanceStatus, pid: Option<u32>, port: Option<u16>) -> Instance {
    Instance {
        id: "ins_1".into(),
        environment_id: "env_1".into(),
        login_profile_id: None,
        profile_dir: "/tmp/chrome-host/env_1/ins_1".into(),
        pid,
        cdp_port: port,
        status,
        host_rules: None,
        browser_version: None,
        started_at: None,
        stopped_at: None,
        created_at: 1,
        updated_at: 1,
    }
}

#[test]
fn launch_arguments_in_order() {
    let svc = InstanceService::new();
    let rules = HostRules::parse("10.0.0.1 a.test\n");
    let args = svc.launch_args(
        Some(&rules),
        Some("  --lang=zh-CN   --mute-audio "),
        &["/ext/a".to_string(), "/ext/b".to_string()],
        "https://start.test/",
    );
    assert_eq!(
        args,
        [
            "--host-resolver-rules=MAP a.test 10.0.0.1",
            "--no-proxy-server",
            "--lang=zh-CN",
            "--mute-audio",
            "--load-extension=/ext/a,/ext/b",
            "https://start.test/",
        ]
    );
    let args = svc.launch_args(None, None, &[], "about:blank");
    assert_eq!(args, ["about:blank"]);
}

#[test]
fn chrome_index_counts_from_one() {
    let svc = InstanceService::new();
    let ids = ["ins_a".to_string(), "ins_b".to_string()];
    assert_eq!(svc.chrome_index(&ids, "ins_a"), 1);
    assert_eq!(svc.chrome_index(&ids, "ins_b"), 2);
    assert_eq!(svc.chrome_index(&ids, "ins_x"), 0);
}

#[test]
fn start_stop_delete_checks() {
    let svc = InstanceService::new();
    assert!(svc.check_start("ins_1", InstanceStatus::Stopped, true).is_ok());
    assert!(svc.check_start("ins_1", InstanceStatus::Running, false).is_ok(), "a dead process counts as stopped");
    let e = svc.check_start("ins_1", InstanceStatus::Running, true).unwrap_err();
    assert_eq!((e.status(), e.code()), (409, "INSTANCE_ALREADY_RUNNING"));
    assert_eq!(e.to_text(), "实例 ins_1 已在运行");

    assert!(svc.check_stop("ins_1", InstanceStatus::Starting).is_ok());
    let e = svc.check_stop("ins_1", InstanceStatus::Stopped).unwrap_err();
    assert_eq!((e.code(), e.to_text()), ("INSTANCE_NOT_RUNNING", "实例 ins_1 未在运行".to_string()));

    assert!(svc.check_delete("ins_1", InstanceStatus::Crashed).is_ok());
    let e = svc.check_delete("ins_1", InstanceStatus::Running).unwrap_err();
    assert_eq!(e.code(), "INSTANCE_ALREADY_RUNNING");
}

#[test]
fn running_instance_needs_a_port() {
    let svc = InstanceService::new();
    assert_eq!(svc.require_running(&instance(InstanceStatus::Running, Some(5), Some(9333)), " 未运行").unwrap(), 9333);
    let e = svc.require_running(&instance(InstanceStatus::Running, Some(5), None), " 未运行").unwrap_err();
    assert_eq!((e.status(), e.code()), (500, "INTERNAL_ERROR"));
    let e = svc.require_running(&instance(InstanceStatus::Stopped, None, Some(9333)), " 未运行").unwrap_err();
    assert_eq!((e.code(), e.to_text()), ("INSTANCE_NOT_RUNNING", "实例 ins_1 未运行".to_string()));
}

#[test]
fn endpoint_and_errors() {
    let svc = InstanceService::new();
    let ep = svc.cdp_endpoint("ins_1".into(), 9333, None);
    assert_eq!(ep.http_url, "http://127.0.0.1:9333");
    assert_eq!(ep.host, "127.0.0.1");
    assert_eq!(svc.resolve_environment_name(None, "env_gone"), "env_gone");
    assert_eq!(svc.resolve_environment_name(Some("qa".into()), "env_1"), "qa");
    assert_eq!(svc.start_failed("ins_1").code(), "INSTANCE_START_FAILED");
    let e = svc.port_unavailable(9333, "ins_1");
    assert_eq!((e.status(), e.code()), (409, "CDP_PORT_UNAVAILABLE"));
    assert_eq!(e.to_text(), "端口 9333 已被占用，无法启动实例 ins_1");
    assert_eq!(svc.cdp_unreachable(9333).to_text(), "CDP 端口 9333 不可达");
}

#[test]
fn tab_urls_must_be_http() {
    assert!(InstanceService::validate_http_url("https://example.com/").is_ok());
    assert!(InstanceService::validate_http_url("http://example.com").is_ok());
    let e = InstanceService::validate_http_url("not a url").unwrap_err();
    assert_eq!(e.to_text(), "URL 不合法: not a url");
    let e = InstanceService::validate_http_url("file:///etc/passwd").unwrap_err();
    assert_eq!(e.to_text(), "URL 必须 http/https 开头");
}

#[test]
fn only_the_current_process_exit_stops_the_instance() {
    let svc = InstanceService::new();
    assert!(svc.exit_stops(&instance(InstanceStatus::Running, Some(5), Some(1)), 5));
    assert!(!svc.exit_stops(&instance(InstanceStatus::Running, Some(6), Some(1)), 5));
    assert!(!svc.exit_stops(&instance(InstanceStatus::Stopped, Some(5), Some(1)), 5));
}

#[test]
fn launch_outcome_stores_error_on_any_failure_and_running_on_success() {
    let svc = InstanceService::new();
    let r = svc.launch_outcome("ins_1", LaunchStage::Ready);
    assert_eq!(r.status, InstanceStatus::Running);
    assert!(r.result.is_ok() && !r.terminate);

    let r = svc.launch_outcome(
        "ins_1",
        LaunchStage::HostsFailed(AppError::business(502, "HOSTS_FETCH_FAILED", "down".into())),
    );
    assert_eq!(r.status, InstanceStatus::Error);
    let e = r.result.unwrap_err();
    assert_eq!((e.status(), e.code()), (502, "HOSTS_FETCH_FAILED"));

    let r = svc.launch_outcome("ins_1", LaunchStage::KernelFailed("未安装".into()));
    assert_eq!(r.status, InstanceStatus::Error);
    let e = r.result.unwrap_err();
    assert_eq!((e.status(), e.code()), (500, "KERNEL_NOT_READY"));

    let r = svc.launch_outcome("ins_1", LaunchStage::CdpTimeout);
    assert_eq!(r.status, InstanceStatus::Error);
    assert!(r.terminate);
    let e = r.result.unwrap_err();
    assert_eq!((e.status(), e.code()), (500, "INSTANCE_START_FAILED"));

    let r = svc.launch_outcome(
        "ins_1",
        LaunchStage::SpawnFailed(AppError::business(500, "INTERNAL_ERROR", "spawn".into())),
    );
    assert_eq!(r.status, InstanceStatus::Error);
    assert!(r.result.is_err() && !r.terminate);
}
