use chrome_host::cli::model::CftStatus;
use chrome_host::cli::runtime::{cft_kv_pairs, poll_once, replay, PollVerdict};

fn sample_status() -> CftStatus {
    CftStatus {
        installed: true,
        version: Some("131.0.6778.204".into()),
        pinned_version: "131.0.6778.204".into(),
        upgrade_available: false,
        downloading: false,
        binary_path: Some("/opt/cft/chrome".into()),
    }
}

fn snap(installed: bool, downloading: bool) -> CftStatus {
    CftStatus {
        installed,
        version: None,
        pinned_version: "131.0.6778.204".into(),
        upgrade_available: false,
        downloading,
        binary_path: None,
    }
}

#[test]
fn cft_kv_uses_camel_case_keys_in_frozen_order() {
    let pairs = cft_kv_pairs(&sample_status());
    let keys: Vec<&str> = pairs.iter().map(|(k, _)| k.as_str()).collect();
    assert_eq!(keys, ["pinnedVersion", "version", "installed", "downloading", "binaryPath"]);
}

#[test]
fn cft_kv_option_none_renders_dash() {
    let mut status = sample_status();
    status.version = None;
    status.binary_path = None;
    let pairs = cft_kv_pairs(&status);
    assert_eq!(pairs[1], ("version".into(), "-".into()));
    assert_eq!(pairs[4], ("binaryPath".into(), "-".into()));
}

#[test]
fn cft_kv_values_render_booleans_and_paths() {
    let pairs = cft_kv_pairs(&sample_status());
    let values: Vec<&str> = pairs.iter().map(|(_, v)| v.as_str()).collect();
    assert_eq!(values, ["131.0.6778.204", "131.0.6778.204", "true", "false", "/opt/cft/chrome"]);
}

#[test]
fn poll_once_installed_takes_precedence_over_deadline_and_edge() {
    assert_eq!(poll_once(Some(true), &snap(true, false), true), PollVerdict::Installed);
}

#[test]
fn poll_once_true_to_false_edge_is_stalled_even_at_deadline() {
    assert_eq!(poll_once(Some(true), &snap(false, false), false), PollVerdict::Stalled);
    assert_eq!(poll_once(Some(true), &snap(false, false), true), PollVerdict::Stalled);
}

#[test]
fn poll_once_edge_requires_a_previous_true_snapshot() {
    let cur = snap(false, false);
    assert_eq!(poll_once(None, &cur, false), PollVerdict::Continue);
    assert_eq!(poll_once(Some(false), &cur, false), PollVerdict::Continue);
    assert_eq!(poll_once(None, &cur, true), PollVerdict::Timeout);
}

#[test]
fn poll_once_downloading_continues_until_deadline() {
    let cur = snap(false, true);
    assert_eq!(poll_once(None, &cur, false), PollVerdict::Continue);
    assert_eq!(poll_once(Some(false), &cur, false), PollVerdict::Continue);
    assert_eq!(poll_once(Some(true), &cur, false), PollVerdict::Continue);
    assert_eq!(poll_once(Some(true), &cur, true), PollVerdict::Timeout);
}

#[test]
fn replay_returns_installed_on_final_snapshot() {
    let snaps = [snap(false, true), snap(false, true), snap(true, false)];
    assert_eq!(replay(&snaps, 60, 2), PollVerdict::Installed);
}

#[test]
fn replay_detects_stall_in_the_middle_of_sequence() {
    let snaps = [snap(false, true), snap(false, false)];
    assert_eq!(replay(&snaps, 60, 2), PollVerdict::Stalled);
}

#[test]
fn replay_timeout_only_after_deadline_accumulates() {
    let snaps = [snap(false, true), snap(false, true), snap(false, true)];
    assert_eq!(replay(&snaps, 5, 2), PollVerdict::Continue);
    assert_eq!(replay(&snaps, 4, 2), PollVerdict::Timeout);
}

#[test]
fn replay_with_zero_timeout_never_times_out() {
    let snaps = [snap(false, true), snap(false, true)];
    assert_eq!(replay(&snaps, 0, 2), PollVerdict::Continue);
}

#[test]
fn replay_of_no_snapshots_continues() {
    assert_eq!(replay(&[], 1, 2), PollVerdict::Continue);
}

#[test]
fn replay_first_round_is_at_time_zero() {
    // Round 0 happens at virtual time 0, so any positive deadline is not yet reached.
    assert_eq!(replay(&[snap(false, false)], 1, 2), PollVerdict::Continue);
    // Round 1 at 2s reaches a 2s deadline.
    assert_eq!(replay(&[snap(false, false), snap(false, false)], 2, 2), PollVerdict::Timeout);
}
