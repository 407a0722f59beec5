use chrome_host::server::application::keep_alive::{
    after_crash, after_restart, crash_verdict, probe_step, CrashVerdict, CrashWindow, KeepAliveWatcher, ProbeStep,
};
use chrome_host::server::domain::instance::InstanceStatus;

#[test]
fn three_crashes_within_a_minute_stop_restarts() {
    let mut w = CrashWindow::new();
    assert!(!w.record_crash(1_000));
    assert!(!w.record_crash(20_000));
    assert!(w.record_crash(60_999), "third crash within 60 s trips");
}

#[test]
fn crashes_spaced_beyond_the_window_never_trip() {
    let mut w = CrashWindow::new();
    for i in 0..10i64 {
        assert!(!w.record_crash(i * 60_000));
    }
}

#[test]
fn the_window_forgets_old_crashes() {
    let mut w = CrashWindow::new();
    assert!(!w.record_crash(0));
    assert!(!w.record_crash(1_000));
    // 60.5 s after the first: it has left the window, the second has not.
    assert!(!w.record_crash(60_500));
    assert!(w.record_crash(60_900), "1 000, 60 500 and 60 900 are within 60 s");
}

#[test]
fn probe_steps() {
    assert_eq!(probe_step(true, Some(InstanceStatus::Running), Some(7)), ProbeStep::Exit);
    assert_eq!(probe_step(false, None, None), ProbeStep::Exit);
    assert_eq!(probe_step(false, Some(InstanceStatus::Starting), Some(7)), ProbeStep::Wait);
    assert_eq!(probe_step(false, Some(InstanceStatus::Running), None), ProbeStep::Wait);
    assert_eq!(probe_step(false, Some(InstanceStatus::Running), Some(7)), ProbeStep::ProbeProcess(7));
    assert_eq!(probe_step(false, Some(InstanceStatus::Stopped), Some(7)), ProbeStep::Exit);
}

#[test]
fn crash_needs_both_probes_to_fail() {
    assert_eq!(crash_verdict(true, false, true), CrashVerdict::Alive);
    assert_eq!(crash_verdict(false, true, false), CrashVerdict::Alive);
    assert_eq!(crash_verdict(false, false, true), CrashVerdict::Exit);
    assert_eq!(crash_verdict(false, false, false), CrashVerdict::Crashed);
}

#[test]
fn watcher_generations() {
    let mut w = KeepAliveWatcher::new();
    let g1 = w.register("ins_a").unwrap();
    assert_eq!(w.register("ins_a"), None, "already watched");
    assert!(w.is_current("ins_a", g1));
    assert!(w.cancel("ins_a"));
    assert!(!w.cancel("ins_a"));
    assert!(!w.is_current("ins_a", g1));
    let g2 = w.register("ins_a").unwrap();
    assert_ne!(g1, g2, "a new watch has a new generation");
    assert_eq!(w.record_crash("ins_a", g1, 5), None, "a stale watcher is ignored");
    assert_eq!(w.record_crash("ins_a", g2, 5), Some(false));
    assert_eq!(w.record_crash("ins_a", g2, 6), Some(false));
    assert_eq!(w.record_crash("ins_a", g2, 7), Some(true));
    w.register("ins_b").unwrap();
    w.cancel_all(&["ins_a".to_string(), "ins_b".to_string()]);
    assert!(!w.is_current("ins_a", g2));
    assert_eq!(w.record_crash("ins_b", 0, 1), None);
}

#[test]
fn crash_under_limit_restarts_and_third_gives_up() {
    let r = after_crash(4242, false);
    assert_eq!(r.crashed.level, "error");
    assert_eq!(r.crashed.event, "instance-crashed");
    assert_eq!(r.crashed.message, "进程异常退出（pid 4242），keepAlive 自动恢复");
    assert_eq!(r.final_status, InstanceStatus::Stopped);
    assert!(r.restart);
    assert!(r.gave_up.is_none());

    let r = after_crash(4242, true);
    assert_eq!(r.final_status, InstanceStatus::Error);
    assert!(!r.restart);
    let e = r.gave_up.unwrap();
    assert_eq!((e.level.as_str(), e.event.as_str()), ("error", "instance-error"));
    assert_eq!(e.message, "keepAlive：60s 内连续崩溃 3 次，停止自动重启");

    let (e, keep) = after_restart(None);
    assert_eq!((e.level.as_str(), e.event.as_str(), keep), ("info", "instance-started", true));
    let (e, keep) = after_restart(Some("boom"));
    assert_eq!((e.event.as_str(), e.message.as_str(), keep), ("instance-error", "keepAlive 自动重启失败: boom", false));
}
