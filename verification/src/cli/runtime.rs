//! Kernel (Chrome for Testing) state: its rendering, and the decision of
//! each round of the install wait.
use vstd::prelude::*;
use vstd::string::StringExecFns;
use crate::cli::exit::ExitCode;
use crate::cli::model::CftStatus;
use crate::text::{
    bool_text, bool_to_string, dec, kv, kv_view, or_dash, push_str, push_u64, str_to_string,
    string_from_chars, string_or_dash,
};

verus! {

/// Default install wait in seconds; 0 waits without limit.
pub const DEFAULT_INSTALL_TIMEOUT_SECS: u64 = 900;

/// Seconds between two polls of the kernel state.
pub const POLL_INTERVAL_SECS: u64 = 2;

/// Outcome of one round of the install wait.
#[derive(Debug, Clone, Copy, PartialEq, Eq, Structural)]
pub enum PollVerdict {
    /// The kernel is installed (exit 0).
    Installed,
    /// Downloading went from true to false and nothing is installed: the
    /// download failed or was cancelled (exit 5).
    Stalled,
    /// The deadline passed first (exit 9).
    Timeout,
    /// Poll again.
    Continue,
}

/// The verdict of one round: installed wins over a stall, a stall over the
/// deadline.  A stall needs a previous round that was downloading.
pub open spec fn poll_verdict(
    prev_downloading: Option<bool>,
    installed: bool,
    downloading: bool,
    deadline_reached: bool,
) -> PollVerdict {
    if installed {
        PollVerdict::Installed
    } else if prev_downloading == Some(true) && !downloading {
        PollVerdict::Stalled
    } else if deadline_reached {
        PollVerdict::Timeout
    } else {
        PollVerdict::Continue
    }
}

/// Decides one round of the install wait.
pub fn poll_once(prev_downloading: Option<bool>, cur: &CftStatus, deadline_reached: bool) -> (v:
    PollVerdict)
    ensures
        v == poll_verdict(prev_downloading, cur.installed, cur.downloading, deadline_reached),
{
    if cur.installed {
        return PollVerdict::Installed;
    }
    let was_downloading = match prev_downloading {
        Some(b) => b,
        None => false,
    };
    if was_downloading && !cur.downloading {
        return PollVerdict::Stalled;
    }
    if deadline_reached {
        return PollVerdict::Timeout;
    }
    PollVerdict::Continue
}

/// Whether round `round` (taken every `interval` seconds from 0) is at or
/// past a non-zero deadline of `timeout` seconds.
pub open spec fn round_deadline_reached(round: int, timeout: u64, interval: u64) -> bool {
    timeout > 0 && round * interval >= timeout
}

/// The verdict after the rounds `snaps[from..]`, having last seen
/// `prev` downloading.
pub open spec fn replay_from(
    snaps: Seq<CftStatus>,
    from: int,
    prev: Option<bool>,
    timeout: u64,
    interval: u64,
) -> PollVerdict
    decreases snaps.len() - from,
{
    if from < 0 || from >= snaps.len() {
        PollVerdict::Continue
    } else {
        let v = poll_verdict(
            prev,
            snaps[from].installed,
            snaps[from].downloading,
            round_deadline_reached(from, timeout, interval),
        );
        if v == PollVerdict::Continue {
            replay_from(snaps, from + 1, Some(snaps[from].downloading), timeout, interval)
        } else {
            v
        }
    }
}

/// Plays the install wait over a sequence of snapshots, round `i` at
/// virtual time `i * interval_secs`; `Continue` when they run out.
pub fn replay(snapshots: &[CftStatus], timeout_secs: u64, interval_secs: u64) -> (v: PollVerdict)
    ensures
        v == replay_from(snapshots@, 0, None, timeout_secs, interval_secs),
{
    let mut prev: Option<bool> = None;
    let mut round: usize = 0;
    while round < snapshots.len()
        invariant
            0 <= round <= snapshots.len(),
            replay_from(snapshots@, 0, None, timeout_secs, interval_secs) == replay_from(
                snapshots@,
                round as int,
                prev,
                timeout_secs,
                interval_secs,
            ),
        decreases snapshots.len() - round,
    {
        let r128: u128 = round as u128;
        let i128v: u128 = interval_secs as u128;
        assert(r128 * i128v <= 0xFFFF_FFFF_FFFF_FFFFu128 * 0xFFFF_FFFF_FFFF_FFFFu128) by (nonlinear_arith)
            requires
                r128 <= 0xFFFF_FFFF_FFFF_FFFFu128,
                i128v <= 0xFFFF_FFFF_FFFF_FFFFu128,
        ;
        let elapsed: u128 = r128 * i128v;
        let deadline_reached = timeout_secs > 0 && elapsed >= timeout_secs as u128;
        let cur = &snapshots[round];
        let v = poll_once(prev, cur, deadline_reached);
        match v {
            PollVerdict::Continue => {
                prev = Some(cur.downloading);
            },
            _ => {
                return v;
            },
        }
        round = round + 1;
    }
    PollVerdict::Continue
}

/// With no deadline, the wait never ends in `Timeout`.
pub proof fn lemma_zero_timeout_never_times_out(
    snaps: Seq<CftStatus>,
    from: int,
    prev: Option<bool>,
    interval: u64,
)
    ensures
        replay_from(snaps, from, prev, 0, interval) != PollVerdict::Timeout,
    decreases snaps.len() - from,
{
    if 0 <= from < snaps.len() {
        lemma_zero_timeout_never_times_out(snaps, from + 1, Some(snaps[from].downloading), interval);
    }
}

/// An installed snapshot always ends the wait with success, whatever the
/// previous round and the deadline.
pub proof fn lemma_installed_wins(prev: Option<bool>, downloading: bool, deadline_reached: bool)
    ensures
        poll_verdict(prev, true, downloading, deadline_reached) == PollVerdict::Installed,
{
}

/// A stall is only reported after a round that was downloading.
pub proof fn lemma_stall_needs_previous_download(
    prev: Option<bool>,
    installed: bool,
    downloading: bool,
    deadline_reached: bool,
)
    ensures
        poll_verdict(prev, installed, downloading, deadline_reached) == PollVerdict::Stalled
            ==> prev == Some(true) && !downloading && !installed,
{
}

/// The frozen key/value rendering of the kernel state.
pub open spec fn cft_kv(s: CftStatus) -> Seq<(Seq<char>, Seq<char>)> {
    seq![
        ("pinnedVersion"@, s.pinned_version@),
        ("version"@, or_dash(s.version)),
        ("installed"@, bool_text(s.installed)),
        ("downloading"@, bool_text(s.downloading)),
        ("binaryPath"@, or_dash(s.binary_path)),
    ]
}

/// Kernel state as `key: value` pairs under the JSON field names; absent
/// values render as `-`.
pub fn cft_kv_pairs(status: &CftStatus) -> (r: Vec<(String, String)>)
    ensures
        kv_view(r@) == cft_kv(*status),
{
    let r = vec![
        kv("pinnedVersion", status.pinned_version.clone()),
        kv("version", string_or_dash(&status.version)),
        kv("installed", bool_to_string(status.installed)),
        kv("downloading", bool_to_string(status.downloading)),
        kv("binaryPath", string_or_dash(&status.binary_path)),
    ];
    assert(kv_view(r@) =~= cft_kv(*status));
    r
}

/// What `runtime install` does after one poll.
#[derive(Debug, Clone, PartialEq, Eq)]
pub enum InstallStep {
    /// Stop waiting: print the last status on stdout when `show_status`,
    /// the notice on stderr when there is one, and exit with `code`.
    Finish { code: ExitCode, show_status: bool, notice: Option<String> },
    /// Poll again after the interval, remembering `downloading`.
    Wait { downloading: bool },
}

/// Notice after a download that stopped without installing.
pub open spec fn stalled_notice() -> Seq<char> {
    "下载已中止且内核仍未安装（失败或被取消）。可用 `runtime version` 复核状态。"@
}

/// Notice after the deadline passed.
pub open spec fn timeout_notice(timeout_secs: u64) -> Seq<char> {
    "等待内核安装超时（--timeout "@ + dec(timeout_secs as nat)
        + "s），服务端下载仍在后台进行。可用 `runtime install --cancel` 中止服务端下载。"@
}

/// The decision after one poll of the install wait: an installed kernel
/// exits 0 with its status; a stalled download exits 5 and a passed
/// deadline 9, showing the status in JSON mode and a notice otherwise;
/// anything else waits for the next round.
pub fn install_round(
    prev_downloading: Option<bool>,
    cur: &CftStatus,
    deadline_reached: bool,
    json: bool,
    timeout_secs: u64,
) -> (step: InstallStep)
    ensures
        ({
            let v = poll_verdict(prev_downloading, cur.installed, cur.downloading, deadline_reached);
            match step {
                InstallStep::Finish { code, show_status, notice } => {
                    &&& v != PollVerdict::Continue
                    &&& v == PollVerdict::Installed ==> code == ExitCode::SUCCESS && show_status
                        && notice is None
                    &&& v == PollVerdict::Stalled ==> code == ExitCode::RUNTIME && show_status
                        == json && (if json {
                        notice is None
                    } else {
                        notice matches Some(n) && n@ == stalled_notice()
                    })
                    &&& v == PollVerdict::Timeout ==> code == ExitCode::TIMEOUT && show_status
                        == json && (if json {
                        notice is None
                    } else {
                        notice matches Some(n) && n@ == timeout_notice(timeout_secs)
                    })
                },
                InstallStep::Wait { downloading } => v == PollVerdict::Continue && downloading
                    == cur.downloading,
            }
        }),
{
    match poll_once(prev_downloading, cur, deadline_reached) {
        PollVerdict::Installed => InstallStep::Finish {
            code: ExitCode::SUCCESS,
            show_status: true,
            notice: None,
        },
        PollVerdict::Stalled => {
            let notice = if json {
                None
            } else {
                Some(
                    str_to_string(
                        "下载已中止且内核仍未安装（失败或被取消）。可用 `runtime version` 复核状态。",
                    ),
                )
            };
            InstallStep::Finish { code: ExitCode::RUNTIME, show_status: json, notice }
        },
        PollVerdict::Timeout => {
            let notice = if json {
                None
            } else {
                let mut buf: Vec<char> = Vec::new();
                push_str(&mut buf, "等待内核安装超时（--timeout ");
                push_u64(&mut buf, timeout_secs);
                push_str(
                    &mut buf,
                    "s），服务端下载仍在后台进行。可用 `runtime install --cancel` 中止服务端下载。",
                );
                Some(string_from_chars(&buf))
            };
            InstallStep::Finish { code: ExitCode::TIMEOUT, show_status: json, notice }
        },
        PollVerdict::Continue => InstallStep::Wait { downloading: cur.downloading },
    }
}

/// The progress line printed (off JSON mode) before each wait.
pub fn progress_line(elapsed_secs: u64) -> (s: String)
    ensures
        s@ == "下载中… "@ + dec(elapsed_secs as nat) + "s"@,
{
    let mut buf: Vec<char> = Vec::new();
    push_str(&mut buf, "下载中… ");
    push_u64(&mut buf, elapsed_secs);
    push_str(&mut buf, "s");
    string_from_chars(&buf)
}

/// Whether `install --cancel` must ask first: only when neither the
/// subcommand's nor the global `--yes` was given.
pub fn cancel_needs_confirm(sub_yes: bool, global_yes: bool) -> (b: bool)
    ensures
        b == !(sub_yes || global_yes),
{
    !(sub_yes || global_yes)
}

/// The text-mode line after a cancellation request: whether a download was
/// stopped, or there was none (both exit 0).
pub fn cancel_result_text(ok: bool) -> (s: &'static str)
    ensures
        s@ == (if ok {
            "已中止内核下载。"@
        } else {
            "当前无下载进行。"@
        }),
{
    proof {
        reveal_strlit("已中止内核下载。");
        reveal_strlit("当前无下载进行。");
    }
    if ok {
        "已中止内核下载。"
    } else {
        "当前无下载进行。"
    }
}

/// The notice (text mode only) when the server was already downloading and
/// the command waits for that download instead.
pub fn download_notice(started: bool, json: bool) -> (n: Option<&'static str>)
    ensures
        (started || json) <==> n is None,
        n matches Some(t) ==> t@ == "服务端已在下载中（可能由 GUI 触发），继续等待…"@,
{
    if !started && !json {
        proof {
            reveal_strlit("服务端已在下载中（可能由 GUI 触发），继续等待…");
        }
        Some("服务端已在下载中（可能由 GUI 触发），继续等待…")
    } else {
        None
    }
}

/// The `runtime` subcommands.
#[derive(Debug, Clone, Copy, PartialEq, Eq, Structural)]
pub enum RuntimeCommands {
    /// Kernel state.
    Version,
    /// Kernel versions (one pinned version; same as `Version`).
    List,
    /// Install the kernel and wait, or cancel a download.
    Install { timeout: u64, cancel: bool, yes: bool },
}

} // verus!
