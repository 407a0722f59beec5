use chrome_host::cli::confirm_with_line;
use chrome_host::cli::error::CliError;
use chrome_host::cli::{GlobalArgs, DEFAULT_API_URL};

fn confirm(yes: bool, is_tty: bool, input: &str) -> Result<(), CliError> {
    confirm_with_line(yes, is_tty, "确认?", input)
}

#[test]
fn yes_flag_skips_confirmation_entirely() {
    assert!(confirm(true, false, "").is_ok());
    assert!(confirm(true, true, "n\n").is_ok());
    // Under the test harness stdin is no terminal.
    assert!(confirm(true, false, "").is_ok());
}

#[test]
fn non_tty_without_yes_is_rejected() {
    let err = confirm(false, false, "").unwrap_err();
    assert!(
        matches!(&err, CliError::Local(m) if m.contains("--yes")),
        "应提示需要 --yes，实际 {err:?}"
    );
    assert_eq!(err, CliError::Local("非交互环境执行危险操作需要 --yes：确认?".into()));
}

#[test]
fn tty_answers_accept_only_y_and_yes() {
    assert!(confirm(false, true, "y\n").is_ok());
    assert!(confirm(false, true, "Y\n").is_ok());
    assert!(confirm(false, true, "yes\n").is_ok());
    assert!(confirm(false, true, "  yes  \n").is_ok());

    assert!(matches!(&confirm(false, true, "n\n").unwrap_err(), CliError::Local(m) if m == "已取消"));
    assert!(matches!(&confirm(false, true, "\n").unwrap_err(), CliError::Local(m) if m == "已取消"));
    assert!(matches!(&confirm(false, true, "ok\n").unwrap_err(), CliError::Local(m) if m == "已取消"));
}

#[test]
fn yes_in_any_case_is_accepted() {
    assert!(confirm(false, true, "YeS").is_ok());
    assert!(confirm(false, true, "yess").is_err());
}

fn globals(api_url: Option<&str>) -> GlobalArgs {
    GlobalArgs {
        json: false,
        quiet: false,
        verbose: false,
        no_color: false,
        yes: false,
        api_url: api_url.map(str::to_string),
    }
}

#[test]
fn api_url_flag_over_environment_over_default() {
    assert_eq!(globals(Some("http://a:1")).api_url(Some("http://b:2".into())), "http://a:1");
    assert_eq!(globals(None).api_url(Some("http://b:2".into())), "http://b:2");
    assert_eq!(globals(None).api_url(None), DEFAULT_API_URL);
    assert_eq!(DEFAULT_API_URL, "http://127.0.0.1:17890");
}
