use chrome_host::cli::error::CliError;
use chrome_host::cli::extension::{extension_cells, extension_kv_pairs, system_locked_translated};
use chrome_host::cli::model::{Extension, ExtensionStatus, ExtensionType};

fn fixture(status: ExtensionStatus, ext_type: ExtensionType) -> Extension {
    Extension {
        id: "ext_1".into(),
        name: "测试扩展".into(),
        description: None,
        version: None,
        manifest_version: None,
        extension_type: ext_type,
        source_path: "/tmp/ext".into(),
        enabled: true,
        status,
        created_at: 1,
        updated_at: 2,
    }
}

#[test]
fn kv_pairs_frozen_fields_lowercase_and_dash_placeholders() {
    let pairs = extension_kv_pairs(&fixture(ExtensionStatus::Ready, ExtensionType::User));
    let keys: Vec<&str> = pairs.iter().map(|(k, _)| k.as_str()).collect();
    assert_eq!(
        keys,
        [
            "id",
            "name",
            "type",
            "status",
            "version",
            "manifestVersion",
            "sourcePath",
            "enabled",
            "createdAt",
            "updatedAt"
        ],
        "kv 字段集冻结，顺序即输出顺序"
    );
    let values: Vec<&str> = pairs.iter().map(|(_, v)| v.as_str()).collect();
    assert!(values.contains(&"user"), "type 小写原样: {values:?}");
    assert!(values.contains(&"ready"), "status 小写原样: {values:?}");
    assert_eq!(values.iter().filter(|v| **v == "-").count(), 2);
}

#[test]
fn unknown_variants_render_lowercase_unknown() {
    let pairs = extension_kv_pairs(&fixture(ExtensionStatus::Unknown, ExtensionType::Unknown));
    assert!(pairs.iter().any(|(k, v)| k == "type" && v == "unknown"));
    assert!(pairs.iter().any(|(k, v)| k == "status" && v == "unknown"));
}

#[test]
fn system_locked_translated_keeps_machine_code_and_status() {
    let err = system_locked_translated(
        CliError::Api {
            status: 403,
            code: "EXTENSION_SYSTEM_LOCKED".into(),
            message: "系统扩展不可禁用".into(),
        },
        "启停",
    );
    match err {
        CliError::Api { status, code, message } => {
            assert_eq!(status, 403);
            assert_eq!(code, "EXTENSION_SYSTEM_LOCKED");
            assert!(message.contains("内置扩展锁定"), "人话文案: {message}");
            assert!(message.contains("仅用户注册的扩展可启停"), "能力边界: {message}");
        }
        other => panic!("应保持 Api 变体: {other:?}"),
    }
}

#[test]
fn other_errors_pass_through_untouched() {
    let err = system_locked_translated(
        CliError::Api { status: 403, code: "SOME_FUTURE_CODE".into(), message: "m".into() },
        "启停",
    );
    assert!(matches!(
        &err,
        CliError::Api { code, message, .. } if code == "SOME_FUTURE_CODE" && message == "m"
    ));
    let err = system_locked_translated(
        CliError::Api { status: 404, code: "EXTENSION_NOT_FOUND".into(), message: "m".into() },
        "移除",
    );
    assert!(matches!(err, CliError::Api { status: 404, .. }));
}

#[test]
fn extension_kv_values_in_order() {
    let mut ext = fixture(ExtensionStatus::Missing, ExtensionType::System);
    ext.version = Some("1.2.0".into());
    ext.manifest_version = Some(3);
    ext.enabled = false;
    let pairs = extension_kv_pairs(&ext);
    let values: Vec<&str> = pairs.iter().map(|(_, v)| v.as_str()).collect();
    assert_eq!(
        values,
        ["ext_1", "测试扩展", "system", "missing", "1.2.0", "3", "/tmp/ext", "false", "1", "2"]
    );
}

#[test]
fn extension_cells_follow_list_columns() {
    let cells = extension_cells(&fixture(ExtensionStatus::Invalid, ExtensionType::User));
    assert_eq!(cells, ["测试扩展", "-", "user", "invalid"]);
}

#[test]
fn system_locked_local_errors_pass_through() {
    let err = system_locked_translated(CliError::Local("x".into()), "启停");
    assert_eq!(err, CliError::Local("x".into()));
}
