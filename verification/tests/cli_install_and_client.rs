use chrome_host::cli::client::{
    body_read_error, client_build_error, contract_drift_error, normalize_base_url,
    unpack_response, ResponseShape,
};
use chrome_host::cli::error::CliError;
use chrome_host::cli::exit::ExitCode;
use chrome_host::cli::instance::{cdp_session_kv_pairs, minutes_left, session_full_url};
use chrome_host::cli::missing_command_error;
use chrome_host::cli::model::{CdpSessionView, CftStatus};
use chrome_host::cli::runtime::{
    cancel_needs_confirm, cancel_result_text, download_notice, install_round, progress_line,
    InstallStep,
};

fn snap(installed: bool, downloading: bool) -> CftStatus {
    CftStatus {
        installed,
        version: None,
        pinned_version: "131.0.6778.204".into(),
        upgrade_available: false,
        downloading,
        binary_path: None,
    }
}

#[test]
fn install_round_installed_exits_zero_with_status() {
    let step = install_round(Some(true), &snap(true, false), true, false, 60);
    assert_eq!(step, InstallStep::Finish { code: ExitCode::SUCCESS, show_status: true, notice: None });
}

#[test]
fn install_round_stall_and_timeout_notices() {
    let step = install_round(Some(true), &snap(false, false), false, false, 60);
    assert_eq!(
        step,
        InstallStep::Finish {
            code: ExitCode::RUNTIME,
            show_status: false,
            notice: Some(
                "下载已中止且内核仍未安装（失败或被取消）。可用 `runtime version` 复核状态。".into()
            ),
        }
    );
    let step = install_round(None, &snap(false, true), true, false, 900);
    assert_eq!(
        step,
        InstallStep::Finish {
            code: ExitCode::TIMEOUT,
            show_status: false,
            notice: Some(
                "等待内核安装超时（--timeout 900s），服务端下载仍在后台进行。可用 `runtime install --cancel` 中止服务端下载。"
                    .into()
            ),
        }
    );
    let step = install_round(None, &snap(false, true), true, true, 900);
    assert_eq!(step, InstallStep::Finish { code: ExitCode::TIMEOUT, show_status: true, notice: None });
}

#[test]
fn install_round_waits_and_remembers_downloading() {
    assert_eq!(
        install_round(None, &snap(false, true), false, false, 0),
        InstallStep::Wait { downloading: true }
    );
    assert_eq!(
        install_round(Some(false), &snap(false, false), false, true, 0),
        InstallStep::Wait { downloading: false }
    );
}

#[test]
fn install_texts() {
    assert_eq!(progress_line(12), "下载中… 12s");
    assert!(cancel_needs_confirm(false, false));
    assert!(!cancel_needs_confirm(true, false));
    assert!(!cancel_needs_confirm(false, true));
    assert_eq!(cancel_result_text(true), "已中止内核下载。");
    assert_eq!(cancel_result_text(false), "当前无下载进行。");
    assert_eq!(download_notice(false, false), Some("服务端已在下载中（可能由 GUI 触发），继续等待…"));
    assert_eq!(download_notice(true, false), None);
    assert_eq!(download_notice(false, true), None);
}

#[test]
fn base_url_loses_trailing_slashes() {
    assert_eq!(normalize_base_url("http://127.0.0.1:17890/"), "http://127.0.0.1:17890");
    assert_eq!(normalize_base_url("http://h//"), "http://h");
    assert_eq!(normalize_base_url("http://h"), "http://h");
    assert_eq!(normalize_base_url("///"), "");
}

#[test]
fn responses_unpack_into_errors() {
    assert_eq!(unpack_response(200, &ResponseShape::Other), Ok(()));
    assert_eq!(unpack_response(204, &ResponseShape::Other), Ok(()));
    assert_eq!(
        unpack_response(502, &ResponseShape::Other),
        Err(CliError::Protocol(
            "HTTP 502 响应缺少 {\"error\":{\"code\",\"message\"}} 形状".into()
        ))
    );
    assert_eq!(
        unpack_response(200, &ResponseShape::NotJson("eof".into())),
        Err(CliError::Protocol("响应不是合法 JSON: eof".into()))
    );
    // An error shape is a server error even on a 2xx status.
    assert_eq!(
        unpack_response(
            200,
            &ResponseShape::ApiError { code: "X".into(), message: "m".into() }
        ),
        Err(CliError::Api { status: 200, code: "X".into(), message: "m".into() })
    );
}

#[test]
fn client_side_error_messages() {
    assert_eq!(body_read_error("x"), CliError::Protocol("读取响应体失败: x".into()));
    assert_eq!(
        contract_drift_error("missing field"),
        CliError::Protocol("响应与 DTO 契约不符（服务端可能已改字段）: missing field".into())
    );
    assert_eq!(client_build_error("tls"), CliError::Local("HTTP 客户端构造失败: tls".into()));
    assert_eq!(
        missing_command_error(),
        CliError::Local("缺少子命令：运行 chrome-host --help 查看用法".into())
    );
}

#[test]
fn cdp_session_rendering() {
    let view = CdpSessionView {
        session_id: "sid".into(),
        base_url: "/cdp/ins_a/sid".into(),
        expires_at: 1_800_000,
    };
    assert_eq!(session_full_url("http://127.0.0.1:17890", &view), "http://127.0.0.1:17890/cdp/ins_a/sid");
    let pairs = cdp_session_kv_pairs(&view, 0);
    assert_eq!(
        pairs,
        vec![
            ("sessionId".to_string(), "sid".to_string()),
            ("baseUrl".to_string(), "/cdp/ins_a/sid".to_string()),
            ("expiresAt".to_string(), "1800000".to_string()),
            ("expiresInMin".to_string(), "30".to_string()),
        ]
    );
    assert_eq!(minutes_left(119_999, 0), 1);
    assert_eq!(minutes_left(0, 119_999), -1, "rounds toward zero like Rust's /");
    assert_eq!(minutes_left(0, 59_999), 0);
}
