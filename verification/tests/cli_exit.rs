use chrome_host::cli::error::CliError;
use chrome_host::cli::exit::{from_api, from_cli_error, ExitCode};

fn api(status: u16, code: &str) -> CliError {
    CliError::Api { status, code: code.to_string(), message: "msg".to_string() }
}

#[test]
fn exit_code_mapping_table() {
    let cases: &[(&str, CliError, ExitCode)] = &[
        ("连接拒绝", CliError::Unreachable("connection refused".into()), ExitCode::UNAVAILABLE),
        ("connect timeout", CliError::Unreachable("operation timed out".into()), ExitCode::UNAVAILABLE),
        ("响应非合法 JSON", CliError::Protocol("not json".into()), ExitCode::GENERAL),
        (
            "本地校验失败（缺 --yes）",
            CliError::Local("非交互环境需要 --yes".into()),
            ExitCode::INVALID_ARGUMENT,
        ),
        ("400 INVALID_REQUEST", api(400, "INVALID_REQUEST"), ExitCode::VALIDATION),
        ("400 HOSTS_SOURCE_INVALID", api(400, "HOSTS_SOURCE_INVALID"), ExitCode::VALIDATION),
        ("418 未知 4xx 兜底", api(418, "SOME_FUTURE_CODE"), ExitCode::VALIDATION),
        ("401 UNAUTHORIZED", api(401, "UNAUTHORIZED"), ExitCode::UNAUTHORIZED),
        ("403 EXTENSION_SYSTEM_LOCKED", api(403, "EXTENSION_SYSTEM_LOCKED"), ExitCode::PERMISSION),
        ("404 ENVIRONMENT_NOT_FOUND", api(404, "ENVIRONMENT_NOT_FOUND"), ExitCode::NOT_FOUND),
        ("404 INSTANCE_NOT_FOUND", api(404, "INSTANCE_NOT_FOUND"), ExitCode::NOT_FOUND),
        ("404 EXTENSION_NOT_FOUND", api(404, "EXTENSION_NOT_FOUND"), ExitCode::NOT_FOUND),
        (
            "409 ENVIRONMENT_HAS_RUNNING_INSTANCES",
            api(409, "ENVIRONMENT_HAS_RUNNING_INSTANCES"),
            ExitCode::RUNTIME,
        ),
        ("409 INSTANCE_ALREADY_RUNNING", api(409, "INSTANCE_ALREADY_RUNNING"), ExitCode::RUNTIME),
        ("409 INSTANCE_NOT_RUNNING", api(409, "INSTANCE_NOT_RUNNING"), ExitCode::RUNTIME),
        ("409 PROFILE_IN_USE", api(409, "PROFILE_IN_USE"), ExitCode::RUNTIME),
        ("500 KERNEL_NOT_READY", api(500, "KERNEL_NOT_READY"), ExitCode::RUNTIME),
        ("500 INSTANCE_START_FAILED", api(500, "INSTANCE_START_FAILED"), ExitCode::RUNTIME),
        ("500 CDP_PORT_UNAVAILABLE", api(500, "CDP_PORT_UNAVAILABLE"), ExitCode::RUNTIME),
        ("500 CDP_CONNECTION_FAILED", api(500, "CDP_CONNECTION_FAILED"), ExitCode::RUNTIME),
        ("500 HOSTS_FETCH_FAILED", api(500, "HOSTS_FETCH_FAILED"), ExitCode::RUNTIME),
        ("500 INTERNAL_ERROR", api(500, "INTERNAL_ERROR"), ExitCode::GENERAL),
        ("503 未知 5xx 兜底", api(503, "SOME_FUTURE_CODE"), ExitCode::GENERAL),
        (
            "409 PROFILE_ALREADY_EXISTS（预留）",
            api(409, "PROFILE_ALREADY_EXISTS"),
            ExitCode::ALREADY_EXISTS,
        ),
        ("302 非预期状态兜底", api(302, "REDIRECT"), ExitCode::GENERAL),
    ];

    for (name, err, expected) in cases {
        assert_eq!(from_cli_error(err), *expected, "case: {name}, err: {err:?}");
    }
}

#[test]
fn exit_code_values_match_prd() {
    assert_eq!(ExitCode::SUCCESS.as_u8(), 0);
    assert_eq!(ExitCode::GENERAL.as_u8(), 1);
    assert_eq!(ExitCode::INVALID_ARGUMENT.as_u8(), 2);
    assert_eq!(ExitCode::NOT_FOUND.as_u8(), 3);
    assert_eq!(ExitCode::ALREADY_EXISTS.as_u8(), 4);
    assert_eq!(ExitCode::RUNTIME.as_u8(), 5);
    assert_eq!(ExitCode::PERMISSION.as_u8(), 6);
    assert_eq!(ExitCode::VALIDATION.as_u8(), 7);
    assert_eq!(ExitCode::UNAVAILABLE.as_u8(), 8);
    assert_eq!(ExitCode::TIMEOUT.as_u8(), 9);
}

#[test]
fn unauthorized_exit_code_value() {
    assert_eq!(ExitCode::UNAUTHORIZED.as_u8(), 10);
}

#[test]
fn already_exists_suffix_wins_over_status() {
    assert_eq!(from_api(404, "THING_ALREADY_EXISTS"), ExitCode::ALREADY_EXISTS);
    assert_eq!(from_api(400, "_ALREADY_EXISTS"), ExitCode::ALREADY_EXISTS);
    // Outside 4xx the suffix means nothing.
    assert_eq!(from_api(500, "X_ALREADY_EXISTS"), ExitCode::GENERAL);
    assert_eq!(from_api(200, "_ALREADY_EXISTS"), ExitCode::GENERAL);
}

#[test]
fn five_hundred_with_unknown_code_is_general() {
    assert_eq!(from_api(500, "SOMETHING_NEW"), ExitCode::GENERAL);
    assert_eq!(from_api(499, "SOMETHING_NEW"), ExitCode::VALIDATION);
    assert_eq!(from_api(600, "KERNEL_NOT_READY"), ExitCode::GENERAL);
}

#[test]
fn any_byte_is_an_exit_code() {
    for n in 0u8..=255 {
        assert_eq!(ExitCode::from_u8(n).as_u8(), n);
    }
    assert_eq!(ExitCode::from_u8(3), ExitCode::NOT_FOUND);
    assert_eq!(ExitCode::from_u8(42), ExitCode::Other(42));
}
