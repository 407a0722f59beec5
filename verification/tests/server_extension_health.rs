use chrome_host::server::application::extension_service::{
    sync_plan, ExtensionService, LoadMode, LoadStep, ManifestInfo, SourceProbe,
};
use chrome_host::server::application::health_service::{
    check_database, check_directories, check_extensions, check_kernel, counts, Counts, DbProbe,
    DirProbe, HealthService, KernelState,
};
use chrome_host::server::domain::environment::Environment;
use chrome_host::server::domain::extension::{Extension, ExtensionStatus, ExtensionType};
use chrome_host::server::domain::instance::InstanceStatus;

fn ext(id: &str, t: ExtensionType, source: &str, enabled: bool) -> Extension {
    Extension {
        id: id.into(),
        name: id.into(),
        description: None,
        version: None,
        manifest_version: Some(3),
        extension_type: t,
        source_path: source.into(),
        enabled,
        status: ExtensionStatus::Ready,
        created_at: 0,
        updated_at: 0,
    }
}

fn env(name: &str) -> Environment {
    Environment {
        id: "env_1".into(),
        name: name.into(),
        hosts_source_url: None,
        icon: None,
        startup_args: None,
        keep_alive: false,
        created_at: 0,
        updated_at: 0,
    }
}

#[test]
fn built_in_extensions_are_locked() {
    let s = ExtensionService::new();
    let sys = ext("ext_s", ExtensionType::System, "/b/environment-label", true);
    let user = ext("ext_u", ExtensionType::User, "/u/x", true);
    let e = s.set_enabled(&sys, false).unwrap_err();
    assert_eq!((e.status(), e.code(), e.to_text()), (403, "EXTENSION_SYSTEM_LOCKED", "系统扩展不可禁用".to_string()));
    assert_eq!(s.delete(&sys).unwrap_err().to_text(), "系统扩展不可移除");
    assert!(s.set_enabled(&user, false).is_ok());
    assert!(s.delete(&user).is_ok());
}

#[test]
fn status_is_recomputed_from_the_source() {
    let s = ExtensionService::new();
    let e = ext("ext_u", ExtensionType::User, "/u/x", true);
    let probe = |d, m| SourceProbe { dir_exists: d, manifest_ok: m };
    assert_eq!(s.get(e.clone(), probe(false, false)).status, ExtensionStatus::Missing);
    assert_eq!(s.get(e.clone(), probe(true, false)).status, ExtensionStatus::Invalid);
    assert_eq!(s.get(e.clone(), probe(true, true)).status, ExtensionStatus::Ready);
    let listed = s.list(vec![e.clone(), e.clone()], &[probe(false, true), probe(true, true)]);
    assert_eq!(listed.iter().map(|x| x.status).collect::<Vec<_>>(), [ExtensionStatus::Missing, ExtensionStatus::Ready]);
}

#[test]
fn resolve_dispatches_by_metadata() {
    let s = ExtensionService::new();
    let rows = vec![
        ext("label", ExtensionType::System, "/b/environment-label", true),
        ext("static", ExtensionType::System, "/b/sample-static", true),
        ext("user", ExtensionType::User, "/u/on", true),
        ext("off", ExtensionType::User, "/u/off", false),
        ext("broken", ExtensionType::User, "/u/broken", true),
        ext("other", ExtensionType::System, "/b/other-gen", true),
        ext("nometa", ExtensionType::System, "/b/nometa", true),
    ];
    let modes = [
        Some(LoadMode::Materialize),
        Some(LoadMode::Static),
        None,
        None,
        None,
        Some(LoadMode::Materialize),
        None,
    ];
    let manifests = [true, true, true, true, false, true, true];
    let plan = s.resolve_for_runtime(&rows, &modes, &manifests, &env("qapub"), 1);
    assert_eq!(
        plan,
        vec![
            LoadStep::EnvironmentLabel {
                source: "/b/environment-label".into(),
                label: "qapub · Chrome #1".into()
            },
            LoadStep::Direct("/b/sample-static".into()),
            LoadStep::Direct("/u/on".into()),
            LoadStep::Skip("扩展 broken 不可加载（跳过）".into()),
            LoadStep::Skip("物化型扩展「other-gen」未实现物化器".into()),
            LoadStep::Skip("扩展 nometa 元数据不可读（跳过）".into()),
        ]
    );
    assert_eq!(s.materialize_env_label(&env("qa"), 12), "qa · Chrome #12");
}

#[test]
fn sync_is_idempotent_and_prunes_missing_built_ins() {
    let dirs = ["/b/environment-label".to_string(), "/b/sample-static".to_string()];
    let plan = sync_plan(&dirs, &[]);
    assert_eq!(plan.register, dirs.to_vec());
    assert!(plan.prune.is_empty());
    // Once registered, nothing more to do.
    let rows = [
        ext("a", ExtensionType::System, "/b/environment-label", true),
        ext("b", ExtensionType::System, "/b/sample-static", true),
    ];
    let plan = sync_plan(&dirs, &rows);
    assert!(plan.register.is_empty() && plan.prune.is_empty());
    // A bundled directory removed: its row is pruned; user rows never are.
    let rows = [
        ext("a", ExtensionType::System, "/b/environment-label", true),
        ext("gone", ExtensionType::System, "/b/removed", true),
        ext("u", ExtensionType::User, "/u/elsewhere", true),
    ];
    let plan = sync_plan(&dirs, &rows);
    assert_eq!(plan.register, ["/b/sample-static".to_string()]);
    assert_eq!(plan.prune, ["gone".to_string()]);
}

fn kernel(installed: bool, downloading: bool) -> KernelState {
    KernelState {
        installed,
        downloading,
        pinned_version: "131.0.6778.204".into(),
        binary_path: if installed { Some("/opt/cft/chrome".into()) } else { None },
    }
}

fn dir(name: &str, exists: bool, write_error: Option<&str>) -> DirProbe {
    DirProbe { name: name.into(), path: format!("/data/{name}"), exists, write_error: write_error.map(str::to_string) }
}

#[test]
fn health_checks() {
    let c = check_database(&DbProbe::Integrity("ok".into()));
    assert!(c.ok);
    assert_eq!(c.detail, "SQLite 完整性校验通过（integrity_check: ok）");
    let c = check_database(&DbProbe::PoolFailed("timeout".into()));
    assert!(!c.ok);
    assert_eq!(c.detail, "连接池获取连接失败: timeout");
    assert!(c.suggestion.is_some());

    let c = check_kernel(&kernel(true, false));
    assert!(c.ok);
    assert_eq!(c.detail, "Chrome for Testing 131.0.6778.204 就绪: /opt/cft/chrome");
    assert!(check_kernel(&kernel(false, true)).ok, "a download in progress is fine");
    let c = check_kernel(&kernel(false, false));
    assert!(!c.ok);
    assert_eq!(c.suggestion.as_deref(), Some("运行 chrome-host runtime install 或在 GUI 设置页下载 Chrome for Testing"));

    let c = check_directories(&[dir("root", true, None), dir("kernel", true, None), dir("environments", true, None)]);
    assert!(c.ok);
    assert_eq!(c.detail, "3 个数据目录均存在且可写");
    let c = check_directories(&[dir("root", false, None), dir("kernel", true, Some("denied")), dir("environments", true, None)]);
    assert!(!c.ok);
    assert_eq!(c.detail, "root 目录不存在: /data/root; kernel 目录不可写: /data/kernel (denied)");

    let c = check_extensions(&Ok(vec![ExtensionStatus::Ready, ExtensionStatus::Missing]));
    assert!(!c.ok);
    assert_eq!(c.detail, "共 2 个扩展注册，1 个状态非 ready");
    assert!(check_extensions(&Ok(vec![])).ok);
    let c = check_extensions(&Err("locked".into()));
    assert_eq!(c.detail, "扩展注册表读取失败: locked");
}

#[test]
fn missing_kernel_fails_only_its_own_check() {
    let svc = HealthService::new("0.0.0-test".into());
    let report = svc.snapshot(
        &DbProbe::Integrity("ok".into()),
        &kernel(false, false),
        &[dir("root", true, None)],
        &Ok(vec![ExtensionStatus::Ready]),
        Counts { environments: 1, instances: 2, running: 1, extensions: 1 },
    );
    assert!(!report.ok);
    assert_eq!(report.version, "0.0.0-test");
    let names: Vec<&str> = report.checks.iter().map(|c| c.name.as_str()).collect();
    assert_eq!(names, ["database", "kernel", "directories", "extensions"]);
    let oks: Vec<bool> = report.checks.iter().map(|c| c.ok).collect();
    assert_eq!(oks, [true, false, true, true]);
}

#[test]
fn counts_use_alive_states_and_zero_for_unreadable() {
    let c = counts(
        Some(2),
        &[InstanceStatus::Running, InstanceStatus::Starting, InstanceStatus::Stopped],
        None,
    );
    assert_eq!(c, Counts { environments: 2, instances: 3, running: 2, extensions: 0 });
}

#[test]
fn registration_makes_an_enabled_user_extension() {
    let s = ExtensionService::new();
    let m = ManifestInfo {
        name: "My Ext".into(),
        description: None,
        version: Some("1.0".into()),
        manifest_version: Some(3),
    };
    let e = s.register_with(m.clone(), "/u/good-ext", "abc", 5);
    assert_eq!(e.id, "ext_abc");
    assert_eq!(e.name, "My Ext");
    assert_eq!(e.extension_type, ExtensionType::User);
    assert!(e.enabled, "注册默认启用");
    assert_eq!(e.status, ExtensionStatus::Ready);
    assert_eq!((e.created_at, e.updated_at), (5, 5));
    let e = s.register(m, "/u/good-ext");
    assert!(e.id.starts_with("ext_"));
    assert_eq!(e.id.chars().count(), 40);
    assert_eq!(e.source_path, "/u/good-ext");
}
