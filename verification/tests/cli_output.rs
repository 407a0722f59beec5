use chrome_host::cli::error::CliError;
use chrome_host::cli::output::{
    error_body, error_json_string, error_parts, error_text_string, kv_table_string, list_json_string,
    list_quiet_string, list_table_string, OutputCtx, TableRow,
};
use chrome_host::cli::GlobalArgs;
use chrome_host::json::Json;

fn value(text: &str) -> serde_json::Value {
    serde_json::from_str(text).unwrap()
}

fn lib_json(v: serde_json::Value) -> Json {
    match v {
        serde_json::Value::Null => Json::Null,
        serde_json::Value::Bool(b) => Json::Bool(b),
        serde_json::Value::Number(n) => match n.as_i64() {
            Some(i) => Json::Int(i),
            None => Json::UInt(n.as_u64().unwrap()),
        },
        serde_json::Value::String(s) => Json::Str(s),
        serde_json::Value::Array(items) => Json::Array(items.into_iter().map(lib_json).collect()),
        serde_json::Value::Object(map) => {
            Json::Object(map.into_iter().map(|(k, v)| (k, lib_json(v))).collect())
        }
    }
}

fn row_values() -> Vec<serde_json::Value> {
    vec![
        value(r#"{ "id": "env_a", "name": "开发环境（CJK 列宽）", "hostsSourceUrl": null }"#),
        value(r#"{ "id": "env_b", "name": "qa" }"#),
    ]
}

fn sample_rows() -> Vec<TableRow> {
    vec![
        TableRow {
            id: "env_a".into(),
            cells: vec![
                "env_a".into(),
                "开发环境（CJK 列宽）".into(),
                "-".into(),
                "1".into(),
                "2".into(),
            ],
            json: lib_json(row_values()[0].clone()),
        },
        TableRow {
            id: "env_b".into(),
            cells: vec![
                "env_b".into(),
                "qa".into(),
                "https://example.com/hosts".into(),
                "0".into(),
                "0".into(),
            ],
            json: lib_json(row_values()[1].clone()),
        },
    ]
}

fn test_globals(json: bool, quiet: bool) -> GlobalArgs {
    GlobalArgs { json, quiet, verbose: false, no_color: false, yes: false, api_url: None }
}

#[test]
fn list_table_with_cjk_renders_rows_completely() {
    let s = list_table_string(&["ID", "NAME", "HOSTS-SOURCE", "RUNNING", "TOTAL"], &sample_rows());
    assert!(s.contains("开发环境（CJK 列宽）"), "CJK 内容丢失:\n{s}");
    assert!(s.contains("HOSTS-SOURCE"), "表头丢失:\n{s}");
    assert!(s.contains("env_b"), "第二行丢失:\n{s}");
    assert!(s.lines().count() >= 5, "表头 + 分隔 + 2 数据行应至少 5 行:\n{s}");
}

#[test]
fn list_table_empty_outputs_placeholder_not_frame() {
    assert_eq!(list_table_string(&["ID"], &[]), "(empty)");
}

#[test]
fn list_quiet_outputs_id_per_line() {
    assert_eq!(list_quiet_string(&sample_rows()), "env_a\nenv_b");
    assert_eq!(list_quiet_string(&[]), "", "空列表应输出空串（薄壳据此静默）");
}

#[test]
fn list_json_is_pretty_array_equivalent_to_input_values() {
    let s = list_json_string(&sample_rows());
    let parsed: serde_json::Value = serde_json::from_str(&s).expect("应为合法 JSON");
    let expected = serde_json::Value::Array(row_values());
    assert_eq!(parsed, expected, "数组应与输入行的 json 字段等价");
    assert!(s.contains('\n'), "应为 pretty 多行输出");
    assert_eq!(list_json_string(&[]), "[]", "空列表应输出合法 JSON 空数组");
}

#[test]
fn list_json_frame_opens_indented_and_closes_on_own_line() {
    let s = list_json_string(&sample_rows());
    assert!(s.starts_with("[\n  "), "首个元素应在新行并缩进两格: {s}");
    assert!(s.ends_with("\n]"), "结尾应独占一行: {s}");
}

#[test]
fn kv_table_is_key_value_lines() {
    let pairs = vec![
        ("name".to_string(), "测试".to_string()),
        ("keepAlive".to_string(), "true".to_string()),
    ];
    assert_eq!(kv_table_string(&pairs), "name: 测试\nkeepAlive: true");
    assert_eq!(kv_table_string(&[]), "");
}

#[test]
fn error_json_carries_code_per_variant() {
    let api = CliError::Api {
        status: 404,
        code: "ENVIRONMENT_NOT_FOUND".into(),
        message: "not found".into(),
    };
    let v: serde_json::Value = serde_json::from_str(&error_json_string(&api)).expect("应为合法 JSON");
    assert_eq!(v["error"]["code"], "ENVIRONMENT_NOT_FOUND");
    assert_eq!(v["error"]["message"], "not found");

    for (err, want) in [
        (CliError::Local("取消".into()), "CLI_ERROR"),
        (CliError::Unreachable("refused".into()), "UNREACHABLE"),
        (CliError::Protocol("bad".into()), "PROTOCOL_ERROR"),
    ] {
        let v: serde_json::Value =
            serde_json::from_str(&error_json_string(&err)).expect("应为合法 JSON");
        assert_eq!(v["error"]["code"], want, "variant: {err:?}");
    }
}

#[test]
fn error_text_is_stderr_style_line() {
    let err = CliError::Local("已取消".into());
    let text = error_text_string(&err);
    assert!(text.starts_with("Error: "), "实际: {text}");
    assert!(text.contains("已取消"));
}

#[test]
fn output_ctx_from_globals_maps_flags() {
    let ctx = OutputCtx::from_globals(&test_globals(true, false));
    assert!(ctx.json);
    assert!(!ctx.quiet);
    let ctx = OutputCtx::from_globals(&test_globals(false, true));
    assert!(!ctx.json);
    assert!(ctx.quiet);
}

#[test]
fn error_text_describes_each_variant() {
    let api = CliError::Api { status: 409, code: "PROFILE_IN_USE".into(), message: "忙".into() };
    assert_eq!(error_text_string(&api), "Error: [PROFILE_IN_USE] 忙（HTTP 409）");
    assert_eq!(
        error_text_string(&CliError::Protocol("x".into())),
        "Error: Agent API 响应格式异常（x）"
    );
    assert_eq!(
        error_text_string(&CliError::Unreachable("refused".into())),
        "Error: 无法连接 chrome-host Agent API（refused）。请确认 chrome-host 桌面应用已运行。"
    );
}

#[test]
fn error_parts_keep_server_code() {
    let api = CliError::Api { status: 400, code: "INVALID_REQUEST".into(), message: "m".into() };
    assert_eq!(error_parts(&api), ("INVALID_REQUEST".to_string(), "m".to_string()));
    assert_eq!(error_parts(&CliError::Local("l".into())), ("CLI_ERROR".to_string(), "l".to_string()));
}

#[test]
fn list_output_modes() {
    let rows = sample_rows();
    let quiet = OutputCtx { json: false, quiet: true };
    assert_eq!(quiet.list_output(&["ID"], &rows), Some("env_a\nenv_b".to_string()));
    assert_eq!(quiet.list_output(&["ID"], &[]), None);
    let table = OutputCtx { json: false, quiet: false };
    assert_eq!(table.list_output(&["ID"], &[]), Some("(empty)".to_string()));
    let json = OutputCtx { json: true, quiet: false };
    assert_eq!(json.list_output(&["ID"], &[]), Some("[]".to_string()));
}

#[test]
fn kv_and_error_output_modes() {
    let pairs = vec![("id".to_string(), "x".to_string())];
    let table = OutputCtx { json: false, quiet: false };
    assert_eq!(table.kv_output(&pairs, &Json::Null), Some("id: x".to_string()));
    assert_eq!(table.kv_output(&[], &Json::Null), None);
    let json = OutputCtx { json: true, quiet: false };
    let v = value(r#"{"id":"x"}"#);
    let out = json.kv_output(&pairs, &lib_json(v.clone())).unwrap();
    assert_eq!(serde_json::from_str::<serde_json::Value>(&out).unwrap(), v);

    let err = CliError::Local("已取消".into());
    let e = json.error_output(&err);
    assert!(e.to_stdout);
    assert_eq!(e.text, error_json_string(&err));
    let e = table.error_output(&err);
    assert!(!e.to_stdout);
    assert_eq!(e.text, "Error: 已取消");
}

#[test]
fn kv_json_prints_integers_of_both_signs() {
    let json = OutputCtx { json: true, quiet: false };
    let j = Json::Object(vec![
        ("neg".to_string(), Json::Int(-3)),
        ("big".to_string(), Json::UInt(u64::MAX)),
        ("list".to_string(), Json::Array(vec![Json::Bool(true), Json::Null])),
    ]);
    let out = json.kv_output(&[], &j).unwrap();
    let want = value(r#"{"neg": -3, "big": 18446744073709551615, "list": [true, null]}"#);
    assert_eq!(out, serde_json::to_string_pretty(&want).unwrap());
}

#[test]
fn error_body_has_error_code_and_message() {
    let out = OutputCtx { json: true, quiet: false }.kv_output(
        &[],
        &error_body("NOT_FOUND".to_string(), "缺失".to_string()),
    );
    let want = value(r#"{"error": {"code": "NOT_FOUND", "message": "缺失"}}"#);
    assert_eq!(out.unwrap(), serde_json::to_string_pretty(&want).unwrap());
}
