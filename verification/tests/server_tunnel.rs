use chrome_host::server::application::tunnel::{
    backoff_secs, build_ssh_args, exit_error, needs_stale_cleanup, next_backoff_index,
    is_ssh_comm, orphan_pids, parse_u32, should_mark_connected, stderr_tail, strip_forward_lines, Current, Desired, StderrRing,
    Supervisor, SupervisorPlan, TunnelFailure, on_failure, LOCAL_LANDING_PORT, REMOTE_PORT, STDERR_RING_CAP,
};

#[test]
fn ssh_args_shape() {
    let args = build_ssh_args("vino@yun", None);
    assert_eq!(args.last().unwrap(), "vino@yun", "target 恒为末位");
    assert!(args.contains(&"-N".to_string()));
    assert!(
        !args.iter().any(|a| a.contains("ClearAllForwardings")),
        "ClearAllForwardings 会连带清除命令行 -R（实测踩坑 B），禁止使用"
    );
    assert_eq!(args.iter().filter(|a| *a == "-R").count(), 1, "仅一条转发规则");
    let r = args.iter().position(|a| a == "-R").unwrap();
    assert_eq!(
        args[r + 1],
        format!("{REMOTE_PORT}:127.0.0.1:{LOCAL_LANDING_PORT}"),
        "转发规格与端口常量一致（防漂移）"
    );
    for opt in [
        "ExitOnForwardFailure=yes",
        "BatchMode=yes",
        "ConnectTimeout=10",
        "ServerAliveInterval=30",
        "ServerAliveCountMax=3",
        "StrictHostKeyChecking=accept-new",
    ] {
        assert!(args.contains(&opt.to_string()), "缺少 -o {opt}");
    }

    let with_cfg = build_ssh_args("t", Some("/tmp/ssh-tunnel-config"));
    assert_eq!(with_cfg[0], "-F");
    assert_eq!(with_cfg[1], "/tmp/ssh-tunnel-config");
}

#[test]
fn strip_forward_lines_removes_only_forwards() {
    let src = "Host yun\n  HostName 10.0.0.1\n  RemoteForward 7890 127.0.0.1:7890\n  remoteforward 9222 x\n  LocalForward 1 2\n  DynamicForward 1080\n  IdentityFile ~/.ssh/k\n";
    let out = strip_forward_lines(src);
    assert!(out.contains("Host yun"));
    assert!(out.contains("HostName 10.0.0.1"));
    assert!(out.contains("IdentityFile"));
    assert!(!out.to_lowercase().contains("forward 7890"));
    assert!(!out.to_lowercase().contains("forward 9222"));
    assert!(!out.contains("LocalForward"));
    assert!(!out.contains("DynamicForward"));
}

#[test]
fn strip_forward_lines_keeps_other_lines_verbatim() {
    let out = strip_forward_lines("Host a\n\tRemoteForward 1 2\n  User me");
    assert_eq!(out, "Host a\n  User me");
    assert_eq!(strip_forward_lines(""), "");
}

#[test]
fn backoff_grows_then_caps() {
    let mut idx = 0usize;
    let mut delays = Vec::new();
    for _ in 0..6 {
        delays.push(backoff_secs(idx));
        idx = next_backoff_index(idx);
    }
    assert_eq!(delays, [3, 6, 12, 30, 30, 30]);
}

#[test]
fn supervisor_plans_and_backoff_reset_on_new_config() {
    let mut desired = Desired::new();
    let mut sup = Supervisor::new();
    assert_eq!(sup.plan(false, &desired), SupervisorPlan::Disable);
    assert!(desired.apply(true, "vino@yun"));
    assert!(!desired.apply(true, "vino@yun"), "same values change nothing");
    assert_eq!(desired.generation, 1);
    assert_eq!(sup.plan(false, &desired), SupervisorPlan::Respawn);
    sup.spawned(desired.generation);
    assert_eq!(sup.plan(false, &desired), SupervisorPlan::Monitor);
    assert_eq!(sup.failed(), 3);
    assert_eq!(sup.failed(), 6);
    assert_eq!(sup.plan(false, &desired), SupervisorPlan::Respawn);
    sup.spawned(desired.generation);
    assert_eq!(sup.backoff_idx, 2, "a crash respawn keeps the back-off");
    assert!(desired.apply(true, "other@host"));
    sup.spawned(desired.generation);
    assert_eq!(sup.backoff_idx, 0, "a new configuration resets the back-off");
    assert_eq!(sup.plan(true, &desired), SupervisorPlan::Exit);
}

#[test]
fn connected_after_grace_period_only_when_connecting() {
    assert!(should_mark_connected("connecting", 0, 20_000));
    assert!(!should_mark_connected("connecting", 0, 19_999));
    assert!(!should_mark_connected("reconnecting", 0, 50_000));
}

#[test]
fn exit_error_and_stale_signature() {
    assert_eq!(exit_error("", "vino@yun"), "ssh 进程退出（目标 vino@yun）");
    assert_eq!(exit_error("boom", "vino@yun"), "boom");
    assert!(needs_stale_cleanup(
        "Warning: remote port forwarding failed for listen port 17890"
    ));
    assert!(!needs_stale_cleanup("Permission denied"));
}

#[test]
fn set_state_reports_transitions() {
    let mut cur = Current {
        state: "disabled".into(),
        last_error: None,
        since: 0,
        pid: None,
        restarts: 0,
    };
    let msg = cur.set_state("connecting", 5, Some(42), None, false);
    assert_eq!(msg.as_deref(), Some("隧道状态: disabled → connecting"));
    assert_eq!(cur.pid, Some(42));
    let msg = cur.set_state("connecting", 6, None, Some("x".into()), true);
    assert_eq!(msg, None);
    assert_eq!(cur.restarts, 1);
    assert_eq!(cur.since, 6);
}

#[test]
fn stderr_tail_truncates_and_clears() {
    let mut ring = StderrRing::new();
    ring.push(&vec![b'a'; 2000]);
    let tail = ring.take_tail();
    assert!(tail.len() <= 500, "截取后不超过 500 字符");
    assert_eq!(ring.len(), 0, "取后清空");
}

#[test]
fn stderr_ring_keeps_the_newest_bytes() {
    let mut ring = StderrRing::new();
    for _ in 0..10 {
        ring.push(&[b'x'; 512]);
    }
    assert_eq!(ring.len(), STDERR_RING_CAP);
    ring.push(b"  bind: remote port forwarding failed for listen port 17890\n");
    assert_eq!(ring.len(), STDERR_RING_CAP);
    let tail = ring.take_tail();
    assert_eq!(tail.len(), 500);
    assert!(tail.ends_with("remote port forwarding failed for listen port 17890"));
    assert!(needs_stale_cleanup(&tail));
}

#[test]
fn stderr_tail_of_short_and_multibyte_text() {
    assert_eq!(stderr_tail("short"), "short");
    // 250 two-byte characters: the last 500 bytes are all of them.
    let s = "é".repeat(300);
    assert_eq!(stderr_tail(&s), "é".repeat(250));
    let mut ring = StderrRing::new();
    ring.push(" \n boom \n".as_bytes());
    assert_eq!(ring.take_tail_checked(), Some("boom".to_string()));
    // 167 three-byte characters are 501 bytes: the last 500 split a character.
    let mut ring = StderrRing::new();
    ring.push("界".repeat(167).as_bytes());
    assert_eq!(ring.take_tail_checked(), None);
    assert_eq!(ring.len(), 0);
    // Invalid UTF-8 reads as U+FFFD.
    let mut ring = StderrRing::new();
    ring.push(&[b'o', b'k', 0xff]);
    assert_eq!(ring.take_tail(), "ok\u{FFFD}");
}

#[test]
fn orphan_candidates_and_ssh_check() {
    assert_eq!(orphan_pids("123\n456\n"), vec![123, 456]);
    assert_eq!(orphan_pids(" 7 x 4294967295 4294967296 +9 "), vec![7, 4294967295, 9]);
    assert_eq!(orphan_pids(""), Vec::<u32>::new());
    assert!(is_ssh_comm("ssh\n"));
    assert!(is_ssh_comm("  ssh  "));
    assert!(!is_ssh_comm("sh\n"));
    assert!(!is_ssh_comm("sshd"));
}

#[test]
fn u32_parsing_matches_std() {
    for s in ["0", "+0", "42", "4294967295", "4294967296", "", "+", "-1", "1a", "007"] {
        let chars: Vec<char> = s.chars().collect();
        assert_eq!(parse_u32(&chars), s.parse::<u32>().ok(), "input {s:?}");
    }
}

#[test]
fn every_failure_reports_reconnecting_and_counts_a_restart() {
    let mut sup = Supervisor::new();
    let mut cur = Current {
        state: "connecting".into(),
        last_error: None,
        since: 0,
        pid: Some(7),
        restarts: 0,
    };
    let (delay, msg) = on_failure(&mut sup, &mut cur, &TunnelFailure::Exited(String::new()), "vino@yun", 10);
    assert_eq!(delay, 3);
    assert_eq!(msg.as_deref(), Some("隧道状态: connecting → reconnecting"));
    assert_eq!(cur.state, "reconnecting");
    assert_eq!(cur.pid, None);
    assert_eq!(cur.restarts, 1);
    assert_eq!(cur.last_error.as_deref(), Some("ssh 进程退出（目标 vino@yun）"));
    let (delay, msg) =
        on_failure(&mut sup, &mut cur, &TunnelFailure::SpawnFailed("no ssh".into()), "vino@yun", 20);
    assert_eq!(delay, 6);
    assert_eq!(msg, None);
    assert_eq!(cur.restarts, 2);
    assert_eq!(cur.last_error.as_deref(), Some("ssh 启动失败: no ssh"));
    let (delay, _) =
        on_failure(&mut sup, &mut cur, &TunnelFailure::ProbeFailed("EIO".into()), "vino@yun", 30);
    assert_eq!(delay, 12);
    assert_eq!(cur.last_error.as_deref(), Some("ssh 状态探测失败: EIO"));
    assert_eq!(cur.since, 30);
}
