use chrome_host::cli::diag::{doctor_exit_code, doctor_report_string, status_kv_pairs};
use chrome_host::cli::exit::ExitCode;
use chrome_host::cli::model::{Counts, HealthCheck, HealthReport};

fn report(checks: Vec<HealthCheck>) -> HealthReport {
    HealthReport {
        version: "0.4.2".into(),
        ok: checks.iter().all(|c| c.ok),
        checks,
        counts: Counts { environments: 2, instances: 3, running: 1, extensions: 5 },
    }
}

fn check(name: &str, ok: bool, detail: &str, suggestion: Option<&str>) -> HealthCheck {
    HealthCheck {
        name: name.into(),
        ok,
        detail: detail.into(),
        suggestion: suggestion.map(str::to_string),
    }
}

fn all_ok() -> HealthReport {
    report(vec![
        check("database", true, "SELECT 1 + integrity_check 通过", None),
        check("kernel", true, "Chrome for Testing 131.0.6778.204 已就绪", None),
        check("directories", true, "3 个目录存在且可写", None),
        check("extensions", true, "5 个扩展全部就绪", None),
    ])
}

#[test]
fn doctor_all_ok_renders_check_marks_and_clean_ending() {
    let s = doctor_report_string(&all_ok());
    let expected = "\
✓ database — SELECT 1 + integrity_check 通过
✓ kernel — Chrome for Testing 131.0.6778.204 已就绪
✓ directories — 3 个目录存在且可写
✓ extensions — 5 个扩展全部就绪
No problems found.";
    assert_eq!(s, expected);
}

#[test]
fn doctor_failures_render_cross_suggestion_and_count() {
    let r = report(vec![
        check("database", true, "SELECT 1 + integrity_check 通过", None),
        check(
            "kernel",
            false,
            "内核未安装（期望 131.0.6778.204）",
            Some("运行 chrome-host runtime install 或在 GUI 设置页下载 Chrome for Testing"),
        ),
        check("directories", true, "3 个目录存在且可写", None),
        check(
            "extensions",
            false,
            "1 个扩展状态异常",
            Some("运行 chrome-host extension list 查看具体项"),
        ),
    ]);
    let s = doctor_report_string(&r);
    let expected = "\
✓ database — SELECT 1 + integrity_check 通过
✗ kernel — 内核未安装（期望 131.0.6778.204）
  suggestion: 运行 chrome-host runtime install 或在 GUI 设置页下载 Chrome for Testing
✓ directories — 3 个目录存在且可写
✗ extensions — 1 个扩展状态异常
  suggestion: 运行 chrome-host extension list 查看具体项
2 problem(s) found.";
    assert_eq!(s, expected);
}

#[test]
fn doctor_failure_without_suggestion_omits_indented_line() {
    let r = report(vec![check("kernel", false, "内核未安装", None)]);
    let s = doctor_report_string(&r);
    assert!(s.contains("✗ kernel — 内核未安装\n1 problem(s) found."), "实际:\n{s}");
    assert!(!s.contains("suggestion:"), "无建议时不应出现 suggestion 行:\n{s}");
    assert_eq!(s.lines().count(), 2, "失败行 + 结论行，仅两行:\n{s}");
}

#[test]
fn doctor_exit_code_follows_report_ok() {
    assert_eq!(doctor_exit_code(&all_ok()), ExitCode::SUCCESS);
    let failed = report(vec![check("kernel", false, "未安装", None)]);
    assert_eq!(doctor_exit_code(&failed), ExitCode::GENERAL);
}

#[test]
fn status_kv_pairs_shape_and_kernel_detail() {
    let pairs = status_kv_pairs(&all_ok());
    let keys: Vec<&str> = pairs.iter().map(|(k, _)| k.as_str()).collect();
    assert_eq!(
        keys,
        ["version", "ok", "kernel", "environments", "instances", "running", "extensions"]
    );
    assert_eq!(pairs[2], ("kernel".into(), "Chrome for Testing 131.0.6778.204 已就绪".into()));
    assert_eq!(pairs[3], ("environments".into(), "2".into()));
    assert_eq!(pairs[5], ("running".into(), "1".into()));
}

#[test]
fn status_kv_missing_kernel_check_falls_back_to_dash() {
    let r = report(vec![check("database", true, "ok", None)]);
    let pairs = status_kv_pairs(&r);
    assert_eq!(pairs[2], ("kernel".into(), "-".into()));
}

#[test]
fn doctor_empty_report_has_no_problems() {
    let r = report(vec![]);
    assert_eq!(doctor_report_string(&r), "No problems found.");
    assert_eq!(doctor_exit_code(&r), ExitCode::SUCCESS);
}

#[test]
fn status_kv_values_render_counts_and_ok_flag() {
    let pairs = status_kv_pairs(&all_ok());
    assert_eq!(pairs[0], ("version".into(), "0.4.2".into()));
    assert_eq!(pairs[1], ("ok".into(), "true".into()));
    assert_eq!(pairs[4], ("instances".into(), "3".into()));
    assert_eq!(pairs[6], ("extensions".into(), "5".into()));
    let failed = report(vec![check("kernel", false, "未安装", None)]);
    assert_eq!(status_kv_pairs(&failed)[1], ("ok".into(), "false".into()));
}
