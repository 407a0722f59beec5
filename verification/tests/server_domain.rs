use chrome_host::server::application::environment_service::{
    normalize_optional, source_url_invalid, EnvironmentService,
};
use chrome_host::server::domain::environment::{
    nullable_field_value, CreateEnvironmentInput, Environment, UpdateEnvironmentInput,
};
use chrome_host::server::domain::extension::{ExtensionStatus, ExtensionType};
use chrome_host::server::domain::instance::InstanceStatus;
use chrome_host::server::domain::login_profile::LoginProfileStatus;

#[test]
fn status_names_round_trip() {
    for s in [
        InstanceStatus::Created,
        InstanceStatus::Starting,
        InstanceStatus::Running,
        InstanceStatus::Stopping,
        InstanceStatus::Stopped,
        InstanceStatus::Error,
        InstanceStatus::Crashed,
    ] {
        assert_eq!(InstanceStatus::from_db(s.as_str()), s);
    }
    assert_eq!(InstanceStatus::from_db("weird"), InstanceStatus::Error);
    assert!(InstanceStatus::Running.is_alive_status());
    assert!(InstanceStatus::Starting.is_alive_status());
    assert!(!InstanceStatus::Stopped.is_alive_status());

    for s in [
        LoginProfileStatus::NotConfigured,
        LoginProfileStatus::Ready,
        LoginProfileStatus::Capturing,
        LoginProfileStatus::Error,
    ] {
        assert_eq!(LoginProfileStatus::from_db(s.as_str()), s);
    }
    assert_eq!(LoginProfileStatus::NotConfigured.as_str(), "not_configured");

    for s in [ExtensionStatus::Ready, ExtensionStatus::Missing, ExtensionStatus::Invalid] {
        assert_eq!(ExtensionStatus::from_str_or_ready(status_name(s)), s);
    }
    assert_eq!(ExtensionStatus::from_str_or_ready("???"), ExtensionStatus::Ready);
    assert_eq!(ExtensionType::System.as_str(), "system");
    assert_eq!(ExtensionType::User.as_str(), "user");
}

fn status_name(s: ExtensionStatus) -> &'static str {
    match s {
        ExtensionStatus::Ready => "ready",
        ExtensionStatus::Missing => "missing",
        ExtensionStatus::Invalid => "invalid",
    }
}

fn input(name: &str, url: Option<&str>) -> CreateEnvironmentInput {
    CreateEnvironmentInput { name: name.into(), hosts_source_url: url.map(str::to_string), icon: None }
}

#[test]
fn create_trims_and_validates() {
    let svc = EnvironmentService::new();
    let env = svc.create_with(input("  qa  ", Some(" https://h.test/hosts ")), "abc", 7).unwrap();
    assert_eq!(env.id, "env_abc");
    assert_eq!(env.name, "qa");
    assert_eq!(env.hosts_source_url.as_deref(), Some("https://h.test/hosts"));
    assert!(!env.keep_alive);
    assert_eq!(env.startup_args, None);
    assert_eq!((env.created_at, env.updated_at), (7, 7));

    let env = svc.create_with(input("qa", Some("   ")), "x", 1).unwrap();
    assert_eq!(env.hosts_source_url, None, "blank source means none");

    let e = svc.create_with(input("   ", None), "x", 1).unwrap_err();
    assert_eq!((e.status(), e.code()), (400, "INVALID_REQUEST"));
    let e = svc.create_with(input("qa", Some("ftp://h")), "x", 1).unwrap_err();
    assert_eq!((e.status(), e.code()), (400, "HOSTS_SOURCE_INVALID"));
    assert_eq!(e, source_url_invalid("ftp://h"));

    let env = svc.create(input("qa", None)).unwrap();
    assert!(env.id.starts_with("env_"));
    assert_eq!(env.id.chars().count(), 4 + 36);
}

fn sample_env() -> Environment {
    Environment {
        id: "env_1".into(),
        name: "qa".into(),
        hosts_source_url: Some("https://h.test/a".into()),
        icon: None,
        startup_args: None,
        keep_alive: false,
        created_at: 1,
        updated_at: 1,
    }
}

#[test]
fn update_applies_given_fields_only() {
    let svc = EnvironmentService::new();
    let upd = UpdateEnvironmentInput {
        keep_alive: Some(true),
        startup_args: Some(Some("--lang=zh-CN".into())),
        ..Default::default()
    };
    let env = svc.apply_update(sample_env(), upd, 9).unwrap();
    assert!(env.keep_alive);
    assert_eq!(env.startup_args.as_deref(), Some("--lang=zh-CN"));
    assert_eq!(env.name, "qa");
    assert_eq!(env.hosts_source_url.as_deref(), Some("https://h.test/a"));
    assert_eq!(env.updated_at, 9);

    let upd = UpdateEnvironmentInput { hosts_source_url: Some(None), ..Default::default() };
    let env = svc.apply_update(sample_env(), upd, 9).unwrap();
    assert_eq!(env.hosts_source_url, None, "null clears");

    let upd = UpdateEnvironmentInput { name: Some("  ".into()), ..Default::default() };
    assert_eq!(svc.apply_update(sample_env(), upd, 9).unwrap_err().code(), "INVALID_REQUEST");
    let upd = UpdateEnvironmentInput {
        hosts_source_url: Some(Some("not-a-url".into())),
        ..Default::default()
    };
    assert_eq!(svc.apply_update(sample_env(), upd, 9).unwrap_err().code(), "HOSTS_SOURCE_INVALID");
}

#[test]
fn delete_is_refused_while_instances_run() {
    let svc = EnvironmentService::new();
    assert!(svc.check_delete(0).is_ok());
    let e = svc.check_delete(2).unwrap_err();
    assert_eq!((e.status(), e.code()), (409, "ENVIRONMENT_HAS_RUNNING_INSTANCES"));
}

#[test]
fn summaries_count_instances_per_environment() {
    let svc = EnvironmentService::new();
    let mut other = sample_env();
    other.id = "env_2".into();
    let instances = vec![
        ("env_1".to_string(), InstanceStatus::Running),
        ("env_1".to_string(), InstanceStatus::Starting),
        ("env_1".to_string(), InstanceStatus::Stopped),
        ("env_2".to_string(), InstanceStatus::Crashed),
        ("env_gone".to_string(), InstanceStatus::Running),
    ];
    let sums = svc.summaries(vec![sample_env(), other], &instances);
    assert_eq!(sums.len(), 2);
    assert_eq!((sums[0].running_instances, sums[0].total_instances), (2, 3));
    assert_eq!((sums[1].running_instances, sums[1].total_instances), (0, 1));
}

#[test]
fn optional_fields_normalise_blank_to_none() {
    assert_eq!(normalize_optional(&Some("  x ".into())), Some("x".to_string()));
    assert_eq!(normalize_optional(&Some(" \t".into())), None);
    assert_eq!(normalize_optional(&None), None);
    assert_eq!(nullable_field_value(Some(" y ")), Some("y".to_string()));
    assert_eq!(nullable_field_value(Some("")), None);
    assert_eq!(nullable_field_value(None), None);
}
