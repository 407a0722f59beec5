//! Login-profile rules: the views, the refusals of launch / capture /
//! reset / environment deletion while the login browser runs, when a new
//! instance gets a copy of the captured login state, and the detection of
//! a login browser whose windows were all closed.  Processes and files are
//! handled by the caller.
use vstd::prelude::*;
use vstd::string::StringExecFns;
use crate::server::domain::login_profile::{LoginProfile, LoginProfileStatus};
use crate::server::error::{is_business, AppError};
use crate::text::{dec, push_str, push_u64, string_from_chars};

verus! {

/// No window check in the first ten seconds after launch.
pub const TAB_CHECK_GRACE_MS: i64 = 10_000;

/// Pages must be seen missing for this long before the browser is closed.
pub const TAB_EMPTY_CONFIRM_MS: i64 = 2_500;

/// A login profile as the API returns it for one environment.
#[derive(Debug, Clone, PartialEq, Eq)]
pub struct LoginProfileView {
    pub id: String,
    pub name: String,
    pub status: LoginProfileStatus,
    pub snapshot_version: i64,
    pub instances_using: i64,
    pub last_captured_at: Option<i64>,
    /// Whether the login browser runs (derived).
    pub browser_running: bool,
    /// DevTools port of the login browser.
    pub cdp_port: Option<u16>,
}

/// A login profile in the list of all profiles.
#[derive(Debug, Clone, PartialEq, Eq)]
pub struct LoginProfileRow {
    pub id: String,
    pub environment_id: String,
    pub environment_name: String,
    pub name: String,
    pub status: LoginProfileStatus,
    pub snapshot_version: i64,
    pub instances_using: i64,
    pub last_captured_at: Option<i64>,
    pub browser_running: bool,
}

/// `PROFILE_IN_USE` refusal text naming a pid.
pub open spec fn pid_message(head: Seq<char>, pid: u32, tail: Seq<char>) -> Seq<char> {
    head + dec(pid as nat) + tail
}

fn pid_text(head: &str, pid: u32, tail: &str) -> (s: String)
    ensures
        s@ == pid_message(head@, pid, tail@),
{
    let mut buf: Vec<char> = Vec::new();
    push_str(&mut buf, head);
    push_u64(&mut buf, pid as u64);
    push_str(&mut buf, tail);
    string_from_chars(&buf)
}

/// What the window watch does after a check.
#[derive(Debug, Clone, Copy, PartialEq, Eq, Structural)]
pub enum ReapAction {
    /// Nothing.
    Nothing,
    /// The process is gone: forget it and mark the browser stopped.
    CleanupDead,
    /// All windows closed (confirmed): terminate the browser, then clean up.
    Terminate,
}

/// Window watch of one login browser.
#[derive(Debug, Clone, Copy, PartialEq, Eq, Structural)]
pub struct WindowWatch {
    /// A page was seen since launch (the check is armed at once then).
    pub page_seen: bool,
    /// First time seen without pages.
    pub empty_since: Option<i64>,
}

/// Login-profile rules.
#[derive(Debug, Clone, Copy, PartialEq, Eq, Structural)]
pub struct ProfileService {}

/// One round of the closed-window watch: a dead process is cleaned up; the
/// check is armed once a page was seen or the grace period passed; an armed
/// check with pages (re)arms, and with none needs a second empty
/// observation at least `TAB_EMPTY_CONFIRM_MS` after the first before the
/// browser is terminated.
pub open spec fn reap_decision(
    watch: WindowWatch,
    alive: bool,
    has_port: bool,
    now: int,
    launched_at: int,
    pages: Option<usize>,
) -> (WindowWatch, ReapAction) {
    if !alive {
        (watch, ReapAction::CleanupDead)
    } else if !(watch.page_seen || now - launched_at >= TAB_CHECK_GRACE_MS) {
        (WindowWatch { page_seen: watch.page_seen, empty_since: None }, ReapAction::Nothing)
    } else if !has_port || pages is None {
        (watch, ReapAction::Nothing)
    } else if pages->0 > 0 {
        (WindowWatch { page_seen: true, empty_since: None }, ReapAction::Nothing)
    } else {
        match watch.empty_since {
            None => (
                WindowWatch { page_seen: watch.page_seen, empty_since: Some(now as i64) },
                ReapAction::Nothing,
            ),
            Some(first) => if now - first < TAB_EMPTY_CONFIRM_MS {
                (watch, ReapAction::Nothing)
            } else {
                (WindowWatch { page_seen: false, empty_since: None }, ReapAction::Terminate)
            },
        }
    }
}

impl ProfileService {
    /// The rules.
    pub fn new() -> (s: Self) {
        ProfileService {  }
    }

    /// The name of an environment's login profile.
    pub fn profile_name(&self, env_name: &str) -> (s: String)
        ensures
            s@ == env_name@ + " Login"@,
    {
        let mut buf: Vec<char> = Vec::new();
        push_str(&mut buf, env_name);
        push_str(&mut buf, " Login");
        string_from_chars(&buf)
    }

    /// The view of a profile.
    pub fn to_view(&self, profile: &LoginProfile, instances_using: i64, browser_running: bool) -> (v: LoginProfileView)
        ensures
            v.id == profile.id,
            v.name == profile.name,
            v.status == profile.status,
            v.snapshot_version == profile.snapshot_version,
            v.instances_using == instances_using,
            v.last_captured_at == profile.last_captured_at,
            v.browser_running == browser_running,
            v.cdp_port == profile.cdp_port,
    {
        LoginProfileView {
            id: profile.id.clone(),
            name: profile.name.clone(),
            status: profile.status,
            snapshot_version: profile.snapshot_version,
            instances_using,
            last_captured_at: profile.last_captured_at,
            browser_running,
            cdp_port: profile.cdp_port,
        }
    }

    /// The list row of a profile.
    pub fn to_row(&self, environment_name: String, profile: LoginProfile, instances_using: i64, browser_running: bool) -> (r: LoginProfileRow)
        ensures
            r.id == profile.id,
            r.environment_id == profile.environment_id,
            r.environment_name == environment_name,
            r.name == profile.name,
            r.status == profile.status,
            r.snapshot_version == profile.snapshot_version,
            r.instances_using == instances_using,
            r.last_captured_at == profile.last_captured_at,
            r.browser_running == browser_running,
    {
        LoginProfileRow {
            environment_name,
            browser_running,
            instances_using,
            id: profile.id,
            environment_id: profile.environment_id,
            name: profile.name,
            status: profile.status,
            snapshot_version: profile.snapshot_version,
            last_captured_at: profile.last_captured_at,
        }
    }

    /// Launch is refused while a login browser runs.
    pub fn check_launch(&self, running_pid: Option<u32>) -> (r: Result<(), AppError>)
        ensures
            running_pid is Some <==> r is Err,
            r matches Err(e) ==> is_business(
                e,
                409,
                "PROFILE_IN_USE"@,
                pid_message("登录浏览器已在运行（pid "@, running_pid->0, "）"@),
            ),
    {
        match running_pid {
            Some(pid) => Err(AppError::conflict("PROFILE_IN_USE", pid_text("登录浏览器已在运行（pid ", pid, "）"))),
            None => Ok(()),
        }
    }

    /// Capture is refused while one is in progress or while the tracked
    /// login browser runs (the user's window is never killed).
    pub fn check_capture(&self, status: LoginProfileStatus, tracked_pid: Option<u32>) -> (r: Result<(), AppError>)
        ensures
            status == LoginProfileStatus::Capturing ==> (r matches Err(e) && is_business(
                e,
                409,
                "PROFILE_IN_USE"@,
                "快照捕获已在进行中"@,
            )),
            status != LoginProfileStatus::Capturing && tracked_pid is Some ==> (r matches Err(e)
                && is_business(
                e,
                409,
                "PROFILE_IN_USE"@,
                pid_message("登录浏览器运行中（pid "@, tracked_pid->0, "），请先关闭再捕获"@),
            )),
            status != LoginProfileStatus::Capturing && tracked_pid is None ==> r is Ok,
    {
        if status == LoginProfileStatus::Capturing {
            return Err(AppError::conflict("PROFILE_IN_USE", String::from_str("快照捕获已在进行中")));
        }
        match tracked_pid {
            Some(pid) => Err(
                AppError::conflict("PROFILE_IN_USE", pid_text("登录浏览器运行中（pid ", pid, "），请先关闭再捕获")),
            ),
            None => Ok(()),
        }
    }

    /// An orphaned login browser found before capture is terminated; if it
    /// is still alive afterwards the capture fails.
    pub fn orphan_survived(&self, pid: u32) -> (e: AppError)
        ensures
            is_business(
                e,
                500,
                "PROFILE_SNAPSHOT_FAILED"@,
                pid_message("遗留登录浏览器（pid "@, pid, "）未能退出，快照未捕获"@),
            ),
    {
        AppError::business(500, "PROFILE_SNAPSHOT_FAILED", pid_text("遗留登录浏览器（pid ", pid, "）未能退出，快照未捕获"))
    }

    /// The snapshot version after a successful capture.
    pub fn captured_version(&self, profile: &LoginProfile) -> (v: i64)
        requires
            profile.snapshot_version < i64::MAX,
        ensures
            v == profile.snapshot_version + 1,
    {
        profile.snapshot_version + 1
    }

    /// Reset is refused while a login browser runs.
    pub fn check_reset(&self, running_pid: Option<u32>) -> (r: Result<(), AppError>)
        ensures
            running_pid is Some <==> r is Err,
            r matches Err(e) ==> is_business(
                e,
                409,
                "PROFILE_IN_USE"@,
                pid_message("登录浏览器运行中（pid "@, running_pid->0, "），请先关闭再重置"@),
            ),
    {
        match running_pid {
            Some(pid) => Err(
                AppError::conflict("PROFILE_IN_USE", pid_text("登录浏览器运行中（pid ", pid, "），请先关闭再重置")),
            ),
            None => Ok(()),
        }
    }

    /// Deleting an environment: nothing to do without a profile; refused
    /// while a profile operation runs or the login browser runs.
    pub fn check_delete_for_env(&self, has_profile: bool, busy: bool, running_pid: Option<u32>) -> (r: Result<(), AppError>)
        ensures
            !has_profile ==> r is Ok,
            has_profile && busy ==> (r matches Err(e) && is_business(
                e,
                409,
                "PROFILE_IN_USE"@,
                "登录 profile 操作进行中，稍后重试"@,
            )),
            has_profile && !busy && running_pid is Some ==> (r matches Err(e) && is_business(
                e,
                409,
                "PROFILE_IN_USE"@,
                pid_message("登录浏览器运行中（pid "@, running_pid->0, "），请先关闭再删除环境"@),
            )),
            has_profile && !busy && running_pid is None ==> r is Ok,
    {
        if !has_profile {
            return Ok(());
        }
        if busy {
            return Err(AppError::conflict("PROFILE_IN_USE", String::from_str("登录 profile 操作进行中，稍后重试")));
        }
        match running_pid {
            Some(pid) => Err(
                AppError::conflict(
                    "PROFILE_IN_USE",
                    pid_text("登录浏览器运行中（pid ", pid, "），请先关闭再删除环境"),
                ),
            ),
            None => Ok(()),
        }
    }

    /// Whether a new instance gets a copy of the captured login state: only
    /// when no profile operation runs, the profile exists and is ready, and
    /// its browser is not running (a live browser may be writing its
    /// databases).  Otherwise the instance starts without login state.
    pub fn clone_source(&self, busy: bool, profile: Option<&LoginProfile>, browser_running: bool) -> (r: Option<String>)
        ensures
            r is Some <==> (!busy && profile is Some && profile->0.status == LoginProfileStatus::Ready
                && !browser_running),
            r matches Some(id) ==> id == profile->0.id,
    {
        if busy {
            return None;
        }
        match profile {
            None => None,
            Some(p) => {
                if p.status != LoginProfileStatus::Ready || browser_running {
                    None
                } else {
                    Some(p.id.clone())
                }
            },
        }
    }

    /// One window check of a running login browser launched at
    /// `launched_at`: a dead process is cleaned up; the check is armed once
    /// a page was seen or ten seconds passed; pages missing for 2.5 s mean
    /// the user closed every window and the browser is terminated.  `pages`
    /// is `None` when DevTools could not be asked (no decision then).
    pub fn reap_step(
        &self,
        watch: WindowWatch,
        alive: bool,
        has_port: bool,
        now: i64,
        launched_at: i64,
        pages: Option<usize>,
    ) -> (r: (WindowWatch, ReapAction))
        ensures
            r == reap_decision(watch, alive, has_port, now as int, launched_at as int, pages),
    {
        if !alive {
            return (watch, ReapAction::CleanupDead);
        }
        let armed = watch.page_seen || (now as i128) - (launched_at as i128) >= TAB_CHECK_GRACE_MS as i128;
        if !armed {
            return (WindowWatch { page_seen: watch.page_seen, empty_since: None }, ReapAction::Nothing);
        }
        if !has_port {
            return (watch, ReapAction::Nothing);
        }
        let n = match pages {
            Some(n) => n,
            None => {
                return (watch, ReapAction::Nothing);
            },
        };
        if n > 0 {
            return (WindowWatch { page_seen: true, empty_since: None }, ReapAction::Nothing);
        }
        match watch.empty_since {
            None => (WindowWatch { page_seen: watch.page_seen, empty_since: Some(now) }, ReapAction::Nothing),
            Some(first) => {
                if (now as i128) - (first as i128) < TAB_EMPTY_CONFIRM_MS as i128 {
                    (watch, ReapAction::Nothing)
                } else {
                    (WindowWatch { page_seen: false, empty_since: None }, ReapAction::Terminate)
                }
            },
        }
    }

    /// The refusal of a login browser whose DevTools port stayed closed.
    pub fn launch_failed(&self) -> (e: AppError)
        ensures
            is_business(
                e,
                500,
                "INSTANCE_START_FAILED"@,
                "登录浏览器启动失败：CDP 端口未在超时内就绪，已回收进程"@,
            ),
    {
        AppError::business(500, "INSTANCE_START_FAILED", String::from_str("登录浏览器启动失败：CDP 端口未在超时内就绪，已回收进程"))
    }
}

/// A login browser is terminated only on a second empty observation: the
/// process is alive, the DevTools port answered with no page, and an
/// earlier empty observation at least `TAB_EMPTY_CONFIRM_MS` ago was
/// recorded.  So the first empty observation never terminates it.
pub proof fn lemma_terminate_needs_confirmed_empty(
    watch: WindowWatch,
    alive: bool,
    has_port: bool,
    now: int,
    launched_at: int,
    pages: Option<usize>,
)
    ensures
        reap_decision(watch, alive, has_port, now, launched_at, pages).1 == ReapAction::Terminate
            ==> {
            &&& alive && has_port
            &&& pages == Some(0usize)
            &&& watch.empty_since is Some
            &&& now - watch.empty_since->0 >= TAB_EMPTY_CONFIRM_MS
        },
        watch.empty_since is None ==> reap_decision(watch, alive, has_port, now, launched_at, pages).1
            != ReapAction::Terminate,
{
}

/// The grace after launch: while no page was seen and less than ten
/// seconds passed since launch, a live browser is left alone, its empty
/// mark cleared, whatever the absolute times; so no browser is ever
/// terminated within ten seconds of launch before a page showed.
pub proof fn lemma_no_reap_within_grace(
    watch: WindowWatch,
    alive: bool,
    has_port: bool,
    now: int,
    launched_at: int,
    pages: Option<usize>,
)
    requires
        !watch.page_seen,
        now - launched_at < 10_000,
    ensures
        alive ==> reap_decision(watch, alive, has_port, now, launched_at, pages) == (
        WindowWatch { page_seen: false, empty_since: None },
        ReapAction::Nothing,
        ),
        reap_decision(watch, alive, has_port, now, launched_at, pages).1 != ReapAction::Terminate,
{
}

} // verus!
