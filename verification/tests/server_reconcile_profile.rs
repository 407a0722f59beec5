use chrome_host::server::application::profile_service::{ProfileService, ReapAction, WindowWatch};
use chrome_host::server::application::reconciler::{AfterCdp, EmptyTabTracker, Reconciler, RunningStep};
use chrome_host::server::domain::instance::{Instance, InstanceStatus};
use chrome_host::server::domain::login_profile::{LoginProfile, LoginProfileStatus};

fn instance(status: InstanceStatus, pid: Option<u32>, port: Option<u16>, updated_at: i64) -> Instance {
    Instance {
        id: "ins_1".into(),
        environment_id: "env_1".into(),
        login_profile_id: None,
        profile_dir: "/tmp/p".into(),
        pid,
        cdp_port: port,
        status,
        host_rules: None,
        browser_version: None,
        started_at: None,
        stopped_at: None,
        created_at: 0,
        updated_at,
    }
}

#[test]
fn starting_instances_get_a_grace_period() {
    let r = Reconciler::new();
    let no_pid = instance(InstanceStatus::Starting, None, Some(9333), 0);
    assert!(!r.reconcile_starting(&no_pid, false, 299_999));
    assert!(r.reconcile_starting(&no_pid, false, 300_000));
    let with_pid = instance(InstanceStatus::Starting, Some(5), Some(9333), 0);
    assert!(!r.reconcile_starting(&with_pid, false, 19_999));
    assert!(r.reconcile_starting(&with_pid, false, 20_000));
    assert!(!r.reconcile_starting(&with_pid, true, 1_000_000), "a live process is never failed");
    assert!(r.needs_reconcile(&with_pid));
    assert!(!r.needs_reconcile(&instance(InstanceStatus::Stopped, None, None, 0)));
}

#[test]
fn running_instances_are_checked_twice_before_death() {
    let r = Reconciler::new();
    let ins = instance(InstanceStatus::Running, Some(5), Some(9333), 0);
    assert_eq!(r.running_step(&ins, true), RunningStep::CheckTabs);
    assert_eq!(r.running_step(&ins, false), RunningStep::AskCdp(9333));
    assert_eq!(r.running_step(&instance(InstanceStatus::Running, Some(5), None, 0), false), RunningStep::MarkDead);
    assert_eq!(r.after_cdp(&ins, false, Some(6)), AfterCdp::MarkDead);
    assert_eq!(r.after_cdp(&ins, true, Some(6)), AfterCdp::Reassociate(6));
    assert_eq!(r.after_cdp(&ins, true, Some(5)), AfterCdp::Keep);
    assert_eq!(r.after_cdp(&ins, true, None), AfterCdp::Keep);
}

#[test]
fn death_updates() {
    let r = Reconciler::new();
    let (u, event) = r.dead_update(&instance(InstanceStatus::Starting, Some(5), None, 0), 42);
    assert_eq!((u.status, u.stopped_at, event), (Some(InstanceStatus::Error), None, "instance-error"));
    let (u, event) = r.dead_update(&instance(InstanceStatus::Running, Some(5), None, 0), 42);
    assert_eq!((u.status, u.stopped_at, event), (Some(InstanceStatus::Stopped), Some(42), "instance-stopped"));
    assert_eq!(u.pid, None);
}

#[test]
fn closing_all_windows_needs_two_observations() {
    let mut t = EmptyTabTracker::new();
    // Within ten seconds of the start nothing is decided.
    assert!(!t.observe("ins_1", Some(0), 9_999, Some(0)));
    assert!(!t.observe("ins_1", Some(0), 10_000, Some(0)), "first empty observation");
    assert!(!t.observe("ins_1", Some(0), 12_499, Some(0)));
    assert!(t.observe("ins_1", Some(0), 12_500, Some(0)), "confirmed after 2.5 s");
    // A page seen in between resets the watch.
    assert!(!t.observe("ins_2", Some(0), 20_000, Some(0)));
    assert!(!t.observe("ins_2", Some(0), 21_000, Some(1)));
    assert!(!t.observe("ins_2", Some(0), 30_000, Some(0)));
    assert!(!t.observe("ins_2", Some(0), 31_000, None), "no answer, no decision");
    assert!(t.observe("ins_2", Some(0), 32_500, Some(0)));
}

fn profile(status: LoginProfileStatus, version: i64) -> LoginProfile {
    LoginProfile {
        id: "lp_1".into(),
        environment_id: "env_1".into(),
        name: "qa Login".into(),
        profile_dir: "/tmp/lp".into(),
        snapshot_version: version,
        status,
        last_captured_at: None,
        cdp_port: Some(9223),
        created_at: 0,
        updated_at: 0,
    }
}

#[test]
fn login_profile_rules() {
    let s = ProfileService::new();
    assert_eq!(s.profile_name("qa"), "qa Login");
    assert!(s.check_launch(None).is_ok());
    let e = s.check_launch(Some(77)).unwrap_err();
    assert_eq!((e.status(), e.code()), (409, "PROFILE_IN_USE"));
    assert_eq!(e.to_text(), "登录浏览器已在运行（pid 77）");
    assert_eq!(
        s.check_capture(LoginProfileStatus::Capturing, None).unwrap_err().to_text(),
        "快照捕获已在进行中"
    );
    assert_eq!(
        s.check_capture(LoginProfileStatus::Ready, Some(8)).unwrap_err().to_text(),
        "登录浏览器运行中（pid 8），请先关闭再捕获"
    );
    assert!(s.check_capture(LoginProfileStatus::Ready, None).is_ok());
    assert_eq!(s.captured_version(&profile(LoginProfileStatus::Ready, 3)), 4);
    assert!(s.check_reset(None).is_ok());
    assert_eq!(s.check_reset(Some(9)).unwrap_err().to_text(), "登录浏览器运行中（pid 9），请先关闭再重置");
    assert!(s.check_delete_for_env(false, true, Some(1)).is_ok());
    assert_eq!(
        s.check_delete_for_env(true, true, None).unwrap_err().to_text(),
        "登录 profile 操作进行中，稍后重试"
    );
    assert!(s.check_delete_for_env(true, false, Some(3)).is_err());
    assert!(s.check_delete_for_env(true, false, None).is_ok());
    assert_eq!(s.orphan_survived(5).code(), "PROFILE_SNAPSHOT_FAILED");
}

#[test]
fn instances_clone_only_a_ready_idle_profile() {
    let s = ProfileService::new();
    let ready = profile(LoginProfileStatus::Ready, 2);
    assert_eq!(s.clone_source(false, Some(&ready), false), Some("lp_1".to_string()));
    assert_eq!(s.clone_source(true, Some(&ready), false), None);
    assert_eq!(s.clone_source(false, Some(&ready), true), None);
    assert_eq!(s.clone_source(false, None, false), None);
    assert_eq!(s.clone_source(false, Some(&profile(LoginProfileStatus::NotConfigured, 0)), false), None);
}

#[test]
fn views_copy_the_profile() {
    let s = ProfileService::new();
    let p = profile(LoginProfileStatus::Ready, 2);
    let v = s.to_view(&p, 3, true);
    assert_eq!((v.id.as_str(), v.snapshot_version, v.instances_using, v.browser_running), ("lp_1", 2, 3, true));
    assert_eq!(v.cdp_port, Some(9223));
    let r = s.to_row("qa".into(), p, 1, false);
    assert_eq!((r.environment_name.as_str(), r.environment_id.as_str(), r.instances_using), ("qa", "env_1", 1));
}

#[test]
fn login_browser_terminated_only_on_confirmed_empty_window() {
    let s = ProfileService::new();
    let w0 = WindowWatch { page_seen: false, empty_since: None };
    // Dead process.
    assert_eq!(s.reap_step(w0, false, true, 0, 0, Some(0)), (w0, ReapAction::CleanupDead));
    // Not armed yet: no page seen and within the grace period.
    let (w, a) = s.reap_step(w0, true, true, 5_000, 0, Some(0));
    assert_eq!((w, a), (w0, ReapAction::Nothing));
    // Armed by the grace period: first empty observation.
    let (w1, a) = s.reap_step(w0, true, true, 10_000, 0, Some(0));
    assert_eq!(a, ReapAction::Nothing);
    assert_eq!(w1.empty_since, Some(10_000));
    // Too soon for confirmation.
    assert_eq!(s.reap_step(w1, true, true, 12_000, 0, Some(0)).1, ReapAction::Nothing);
    // Confirmed.
    let (w2, a) = s.reap_step(w1, true, true, 12_500, 0, Some(0));
    assert_eq!(a, ReapAction::Terminate);
    assert_eq!(w2, WindowWatch { page_seen: false, empty_since: None });
    // A page re-arms and clears the empty mark.
    let (w3, a) = s.reap_step(w1, true, true, 11_000, 0, Some(2));
    assert_eq!((w3, a), (WindowWatch { page_seen: true, empty_since: None }, ReapAction::Nothing));
    assert_eq!(s.launch_failed().code(), "INSTANCE_START_FAILED");
}
