use chrome_host::server::application::settings_service::{
    validate_ssh_target, validate_start_url, SettingsService, FALLBACK_START_PAGE,
};

fn setup() -> SettingsService {
    SettingsService::new(Vec::new())
}

#[test]
fn developer_mode_roundtrip() {
    let mut s = setup();
    assert!(!s.get().developer_mode, "默认关闭");
    s.update(Some(true), None, None, None, None, None).unwrap();
    assert!(s.get().developer_mode);
    s.update(Some(false), None, None, None, None, None).unwrap();
    assert!(!s.get().developer_mode);
}

#[test]
fn env_label_position_and_color() {
    let mut s = setup();
    let view = s.get();
    assert_eq!(view.env_label_position, "bottom-left", "默认位置");
    assert_eq!(view.env_label_color, "red", "默认颜色");

    s.update(None, Some("top-right".into()), Some("purple".into()), None, None, None).unwrap();
    let view = s.get();
    assert_eq!(view.env_label_position, "top-right");
    assert_eq!(view.env_label_color, "purple");

    let err = s.update(None, Some("middle".into()), None, None, None, None).unwrap_err();
    assert_eq!(err.status(), 400, "非法位置 → 400");
    let err = s.update(None, None, Some("pink".into()), None, None, None).unwrap_err();
    assert_eq!(err.status(), 400, "非法颜色 → 400");
}

#[test]
fn default_start_url_and_resolve() {
    let mut s = setup();
    assert_eq!(s.get().default_start_url, "", "默认为空");
    assert_eq!(s.resolve_start_url(), FALLBACK_START_PAGE, "未配置 → about:blank");

    s.update(None, None, None, Some("https://home.example.com".into()), None, None).unwrap();
    assert_eq!(s.get().default_start_url, "https://home.example.com");
    assert_eq!(s.resolve_start_url(), "https://home.example.com");

    s.update(None, None, None, Some("".into()), None, None).unwrap();
    assert_eq!(s.get().default_start_url, "");
    s.update(None, None, None, Some("https://a.example.com".into()), None, None).unwrap();
    let err = s.update(None, None, None, Some("not-a-url".into()), None, None).unwrap_err();
    assert_eq!(err.status(), 400);
    assert_eq!(s.get().default_start_url, "https://a.example.com");
}

#[test]
fn remote_access_settings_lifecycle() {
    let mut s = setup();
    let view = s.get();
    assert!(!view.remote_access_enabled, "默认关闭");
    assert_eq!(view.remote_access_ssh_target, "");
    assert_eq!(view.remote_access_token, "");

    let err = s.update(None, None, None, None, Some(true), None).unwrap_err();
    assert_eq!(err.status(), 400);
    assert_eq!(err.code(), "REMOTE_ACCESS_TARGET_INVALID");
    assert!(!s.get().remote_access_enabled, "失败不落任何状态");

    for bad in ["a b".to_string(), "-x".to_string(), "a".repeat(256)] {
        let err = s.update(None, None, None, None, None, Some(bad)).unwrap_err();
        assert_eq!(err.status(), 400, "非法目标应被拒绝");
    }

    s.update(None, None, None, None, None, Some("vino@yun".into())).unwrap();
    s.update(None, None, None, None, Some(true), None).unwrap();
    let view = s.get();
    assert!(view.remote_access_enabled);
    assert_eq!(view.remote_access_ssh_target, "vino@yun");
    assert!(!view.remote_access_token.is_empty(), "开启时自动生成令牌");

    let err = s.update(None, None, None, None, None, Some("".into())).unwrap_err();
    assert_eq!(err.status(), 400);

    s.update(None, None, None, None, Some(true), Some("other@host".into())).unwrap();
    assert_eq!(s.get().remote_access_ssh_target, "other@host");

    s.update(None, None, None, None, Some(false), None).unwrap();
    s.update(None, None, None, None, None, Some("".into())).unwrap();
    let token_before = s.get().remote_access_token;
    assert!(!token_before.is_empty(), "关闭不清令牌");
    s.update(None, None, None, None, Some(true), Some("vino@yun".into())).unwrap();
    assert_eq!(s.get().remote_access_token, token_before, "再次开启不换发");

    let rotated = s.rotate_remote_token();
    assert_ne!(rotated, token_before);
    assert_eq!(s.remote_token(), rotated);
    assert_eq!(rotated.chars().count(), 36);
}

#[test]
fn start_url_and_ssh_target_checks() {
    assert_eq!(validate_start_url("  https://x.test/ ").unwrap(), "https://x.test/");
    assert_eq!(validate_start_url("   ").unwrap(), "");
    let e = validate_start_url("ftp://x").unwrap_err();
    assert_eq!((e.status(), e.code()), (400, "INVALID_REQUEST"));
    assert_eq!(validate_ssh_target(" vino@yun ").unwrap(), "vino@yun");
    assert_eq!(validate_ssh_target("").unwrap(), "");
    assert_eq!(validate_ssh_target(&"a".repeat(255)).unwrap().len(), 255);
    let e = validate_ssh_target(&"a".repeat(256)).unwrap_err();
    assert_eq!(e.to_text(), "SSH 目标过长（>255 字符）");
    // Length is counted in UTF-8 bytes: 86 three-byte characters exceed 255.
    assert!(validate_ssh_target(&"界".repeat(86)).is_err());
    assert!(validate_ssh_target(&"界".repeat(85)).is_ok());
}

#[test]
fn partial_update_keeps_fields_stored_before_a_refusal() {
    let mut s = setup();
    // The developer flag is stored before the bad colour is refused.
    let err = s.update(Some(true), None, Some("pink".into()), None, None, None).unwrap_err();
    assert_eq!(err.status(), 400);
    assert!(s.get().developer_mode);
}

#[test]
fn stored_rows_are_read_back() {
    let s = SettingsService::new(vec![
        ("developer_mode".to_string(), "true".to_string()),
        ("env_label_color".to_string(), "blue".to_string()),
    ]);
    let v = s.get();
    assert!(v.developer_mode);
    assert_eq!(v.env_label_color, "blue");
    assert_eq!(v.env_label_position, "bottom-left");
}
