//! Health report: database, kernel, data directories and extensions,
//! checked independently (no short cut: the doctor wants every problem at
//! once), plus resource counts.  The probes themselves (database query,
//! kernel state, directory writes, registry reads) are made by the caller;
//! this module turns their results into the report.
use vstd::prelude::*;
use vstd::string::StringExecFns;
use crate::server::domain::extension::ExtensionStatus;
use crate::server::domain::instance::{is_alive, InstanceStatus};
use crate::text::{
    chars_of, dec, eq_str, join, join_strings, push_str, push_u64, str_to_string,
    string_from_chars, string_views,
};

verus! {

/// One check.
#[derive(Debug, Clone, PartialEq, Eq)]
pub struct HealthCheck {
    pub name: String,
    pub ok: bool,
    pub detail: String,
    pub suggestion: Option<String>,
}

/// Resource counts.
#[derive(Debug, Clone, PartialEq, Eq)]
pub struct Counts {
    pub environments: u64,
    pub instances: u64,
    pub running: u64,
    pub extensions: u64,
}

/// The health report.
#[derive(Debug, Clone, PartialEq, Eq)]
pub struct HealthReport {
    /// Application version.
    pub version: String,
    /// Every check passed.
    pub ok: bool,
    pub checks: Vec<HealthCheck>,
    pub counts: Counts,
}

/// What the database probe found.
#[derive(Debug, Clone, PartialEq, Eq)]
pub enum DbProbe {
    /// No connection from the pool.
    PoolFailed(String),
    /// `PRAGMA integrity_check` could not run.
    QueryFailed(String),
    /// The answer of `PRAGMA integrity_check`.
    Integrity(String),
}

/// The kernel state the check reads.
#[derive(Debug, Clone, PartialEq, Eq)]
pub struct KernelState {
    pub installed: bool,
    pub downloading: bool,
    pub pinned_version: String,
    pub binary_path: Option<String>,
}

/// What the probe of one data directory found.
#[derive(Debug, Clone, PartialEq, Eq)]
pub struct DirProbe {
    /// `root`, `kernel` or `environments`.
    pub name: String,
    /// The path as displayed.
    pub path: String,
    pub exists: bool,
    /// Why a probe file could not be written, if it could not.
    pub write_error: Option<String>,
}

/// A check as plain data: name, result, detail, suggestion.
pub open spec fn check_view(c: HealthCheck) -> (Seq<char>, bool, Seq<char>, Option<Seq<char>>) {
    (
        c.name@,
        c.ok,
        c.detail@,
        match c.suggestion {
            Some(s) => Some(s@),
            None => None,
        },
    )
}

/// The database check.
pub open spec fn database_check(p: DbProbe) -> (Seq<char>, bool, Seq<char>, Option<Seq<char>>) {
    let fix = Some("数据库文件可能损坏，请备份应用数据目录后重装"@);
    match p {
        DbProbe::Integrity(r) => if r@ == "ok"@ {
            ("database"@, true, "SQLite 完整性校验通过（integrity_check: ok）"@, None)
        } else {
            ("database"@, false, "SQLite 完整性校验异常: "@ + r@, fix)
        },
        DbProbe::QueryFailed(e) => (
            "database"@,
            false,
            "PRAGMA integrity_check 执行失败: "@ + e@,
            fix,
        ),
        DbProbe::PoolFailed(e) => ("database"@, false, "连接池获取连接失败: "@ + e@, fix),
    }
}

fn check(name: &str, ok: bool, detail: String, suggestion: Option<&str>) -> (c: HealthCheck)
    ensures
        check_view(c) == (
            name@,
            ok,
            detail@,
            match suggestion {
                Some(s) => Some(s@),
                None => None,
            },
        ),
{
    HealthCheck {
        name: str_to_string(name),
        ok,
        detail,
        suggestion: match suggestion {
            Some(s) => Some(str_to_string(s)),
            None => None,
        },
    }
}

fn concat(a: &str, b: &str) -> (s: String)
    ensures
        s@ == a@ + b@,
{
    let mut buf: Vec<char> = Vec::new();
    push_str(&mut buf, a);
    push_str(&mut buf, b);
    string_from_chars(&buf)
}

/// The database check: the integrity check must answer `ok`.
pub fn check_database(probe: &DbProbe) -> (c: HealthCheck)
    ensures
        check_view(c) == database_check(*probe),
{
    let fix = "数据库文件可能损坏，请备份应用数据目录后重装";
    match probe {
        DbProbe::Integrity(r) => {
            let rc = chars_of(r.as_str());
            if eq_str(&rc, "ok") {
                check("database", true, str_to_string("SQLite 完整性校验通过（integrity_check: ok）"), None)
            } else {
                check("database", false, concat("SQLite 完整性校验异常: ", r.as_str()), Some(fix))
            }
        },
        DbProbe::QueryFailed(e) => check(
            "database",
            false,
            concat("PRAGMA integrity_check 执行失败: ", e.as_str()),
            Some(fix),
        ),
        DbProbe::PoolFailed(e) => check(
            "database",
            false,
            concat("连接池获取连接失败: ", e.as_str()),
            Some(fix),
        ),
    }
}

/// The kernel check: installed is fine, downloading is fine (it is being
/// repaired), anything else fails with install instructions.
pub open spec fn kernel_check(k: KernelState) -> (Seq<char>, bool, Seq<char>, Option<Seq<char>>) {
    if k.installed {
        (
            "kernel"@,
            true,
            "Chrome for Testing "@ + k.pinned_version@ + " 就绪: "@ + match k.binary_path {
                Some(p) => p@,
                None => Seq::empty(),
            },
            None,
        )
    } else if k.downloading {
        ("kernel"@, true, "Chrome for Testing "@ + k.pinned_version@ + " 未安装，正在下载中"@, None)
    } else {
        (
            "kernel"@,
            false,
            "Chrome for Testing "@ + k.pinned_version@ + " 未安装"@,
            Some("运行 chrome-host runtime install 或在 GUI 设置页下载 Chrome for Testing"@),
        )
    }
}

/// The kernel check.
pub fn check_kernel(k: &KernelState) -> (c: HealthCheck)
    ensures
        check_view(c) == kernel_check(*k),
{
    let mut buf: Vec<char> = Vec::new();
    push_str(&mut buf, "Chrome for Testing ");
    push_str(&mut buf, k.pinned_version.as_str());
    if k.installed {
        push_str(&mut buf, " 就绪: ");
        match &k.binary_path {
            Some(p) => push_str(&mut buf, p.as_str()),
            None => {
                assert(buf@ + Seq::<char>::empty() =~= buf@);
            },
        }
        check("kernel", true, string_from_chars(&buf), None)
    } else if k.downloading {
        push_str(&mut buf, " 未安装，正在下载中");
        check("kernel", true, string_from_chars(&buf), None)
    } else {
        push_str(&mut buf, " 未安装");
        check(
            "kernel",
            false,
            string_from_chars(&buf),
            Some("运行 chrome-host runtime install 或在 GUI 设置页下载 Chrome for Testing"),
        )
    }
}

/// The problem a directory probe reports, if any.
pub open spec fn dir_problem(d: DirProbe) -> Option<Seq<char>> {
    if !d.exists {
        Some(d.name@ + " 目录不存在: "@ + d.path@)
    } else {
        match d.write_error {
            Some(e) => Some(d.name@ + " 目录不可写: "@ + d.path@ + " ("@ + e@ + ")"@),
            None => None,
        }
    }
}

/// The problems of the probes, in order.
pub open spec fn dir_problems(ds: Seq<DirProbe>) -> Seq<Seq<char>>
    decreases ds.len(),
{
    if ds.len() == 0 {
        Seq::empty()
    } else {
        match dir_problem(ds.last()) {
            Some(p) => dir_problems(ds.drop_last()).push(p),
            None => dir_problems(ds.drop_last()),
        }
    }
}

/// The directories check: every directory exists and takes a probe file.
pub open spec fn directories_check(ds: Seq<DirProbe>) -> (Seq<char>, bool, Seq<char>, Option<Seq<char>>) {
    if dir_problems(ds).len() == 0 {
        ("directories"@, true, dec(ds.len()) + " 个数据目录均存在且可写"@, None)
    } else {
        (
            "directories"@,
            false,
            join(dir_problems(ds), "; "@),
            Some("首次启动会自动创建所需目录；若持续出现请检查磁盘权限"@),
        )
    }
}

/// The directories check over the probes of the root, kernel and
/// environments directories.
pub fn check_directories(dirs: &[DirProbe]) -> (c: HealthCheck)
    ensures
        check_view(c) == directories_check(dirs@),
{
    let mut problems: Vec<String> = Vec::new();
    let mut i: usize = 0;
    assert(dirs@.take(0) =~= Seq::<DirProbe>::empty());
    while i < dirs.len()
        invariant
            0 <= i <= dirs.len(),
            string_views(problems@) == dir_problems(dirs@.take(i as int)),
        decreases dirs.len() - i,
    {
        let d = &dirs[i];
        proof {
            let t = dirs@.take(i + 1);
            assert(t.drop_last() =~= dirs@.take(i as int));
            assert(t.last() == dirs@[i as int]);
        }
        let ghost prev = string_views(problems@);
        if !d.exists {
            let mut buf: Vec<char> = Vec::new();
            push_str(&mut buf, d.name.as_str());
            push_str(&mut buf, " 目录不存在: ");
            push_str(&mut buf, d.path.as_str());
            problems.push(string_from_chars(&buf));
            assert(string_views(problems@) =~= prev.push(buf@));
        } else {
            match &d.write_error {
                Some(e) => {
                    let mut buf: Vec<char> = Vec::new();
                    push_str(&mut buf, d.name.as_str());
                    push_str(&mut buf, " 目录不可写: ");
                    push_str(&mut buf, d.path.as_str());
                    push_str(&mut buf, " (");
                    push_str(&mut buf, e.as_str());
                    push_str(&mut buf, ")");
                    problems.push(string_from_chars(&buf));
                    assert(string_views(problems@) =~= prev.push(buf@));
                },
                None => {},
            }
        }
        i = i + 1;
    }
    assert(dirs@.take(dirs.len() as int) =~= dirs@);
    if problems.len() == 0 {
        let mut buf: Vec<char> = Vec::new();
        push_u64(&mut buf, dirs.len() as u64);
        push_str(&mut buf, " 个数据目录均存在且可写");
        check("directories", true, string_from_chars(&buf), None)
    } else {
        check(
            "directories",
            false,
            join_strings(&problems, "; "),
            Some("首次启动会自动创建所需目录；若持续出现请检查磁盘权限"),
        )
    }
}

/// Registered extensions whose stored status is not ready.
pub open spec fn not_ready_count(s: Seq<ExtensionStatus>) -> nat
    decreases s.len(),
{
    if s.len() == 0 {
        0
    } else {
        not_ready_count(s.drop_last()) + if s.last() == ExtensionStatus::Ready {
            0nat
        } else {
            1nat
        }
    }
}

/// The extensions check over the stored statuses, or the read error.
pub open spec fn extensions_check(r: Result<Seq<ExtensionStatus>, Seq<char>>) -> (Seq<char>, bool, Seq<char>, Option<Seq<char>>) {
    match r {
        Ok(s) => (
            "extensions"@,
            not_ready_count(s) == 0,
            "共 "@ + dec(s.len()) + " 个扩展注册，"@ + dec(not_ready_count(s)) + " 个状态非 ready"@,
            if not_ready_count(s) > 0 {
                Some("运行 chrome-host extension list 查看状态异常的扩展"@)
            } else {
                None
            },
        ),
        Err(e) => (
            "extensions"@,
            false,
            "扩展注册表读取失败: "@ + e,
            Some("运行 chrome-host extension list 检查注册表"@),
        ),
    }
}

/// The extensions check: every registered extension must be ready.
pub fn check_extensions(rows: &Result<Vec<ExtensionStatus>, String>) -> (c: HealthCheck)
    ensures
        check_view(c) == extensions_check(
            match rows {
                Ok(v) => Ok(v@),
                Err(e) => Err(e@),
            },
        ),
{
    match rows {
        Ok(v) => {
            let mut n: usize = 0;
            let mut i: usize = 0;
            assert(v@.take(0) =~= Seq::<ExtensionStatus>::empty());
            while i < v.len()
                invariant
                    0 <= i <= v.len(),
                    n == not_ready_count(v@.take(i as int)),
                    n <= i,
                decreases v.len() - i,
            {
                proof {
                    let t = v@.take(i + 1);
                    assert(t.drop_last() =~= v@.take(i as int));
                    assert(t.last() == v@[i as int]);
                }
                if v[i] != ExtensionStatus::Ready {
                    n = n + 1;
                }
                i = i + 1;
            }
            assert(v@.take(v.len() as int) =~= v@);
            let mut buf: Vec<char> = Vec::new();
            push_str(&mut buf, "共 ");
            push_u64(&mut buf, v.len() as u64);
            push_str(&mut buf, " 个扩展注册，");
            push_u64(&mut buf, n as u64);
            push_str(&mut buf, " 个状态非 ready");
            let suggestion = if n > 0 {
                Some("运行 chrome-host extension list 查看状态异常的扩展")
            } else {
                None
            };
            check("extensions", n == 0, string_from_chars(&buf), suggestion)
        },
        Err(e) => check(
            "extensions",
            false,
            concat("扩展注册表读取失败: ", e.as_str()),
            Some("运行 chrome-host extension list 检查注册表"),
        ),
    }
}

/// Instances counted as running: running or starting.
pub open spec fn alive_count(s: Seq<InstanceStatus>) -> nat
    decreases s.len(),
{
    if s.len() == 0 {
        0
    } else {
        alive_count(s.drop_last()) + if is_alive(s.last()) {
            1nat
        } else {
            0nat
        }
    }
}

/// A count that could not be read counts as zero.
pub open spec fn count_or_zero(n: Option<usize>) -> nat {
    match n {
        Some(k) => k as nat,
        None => 0,
    }
}

/// Resource counts; a repository that could not be read counts as zero
/// (counts are extra information and never fail the report).
pub fn counts(environments: Option<usize>, instances: &[InstanceStatus], extensions: Option<usize>) -> (c: Counts)
    ensures
        c.environments == count_or_zero(environments),
        c.instances == instances@.len(),
        c.running == alive_count(instances@),
        c.extensions == count_or_zero(extensions),
{
    let mut running: u64 = 0;
    let mut i: usize = 0;
    assert(instances@.take(0) =~= Seq::<InstanceStatus>::empty());
    while i < instances.len()
        invariant
            0 <= i <= instances.len(),
            running == alive_count(instances@.take(i as int)),
            running <= i,
        decreases instances.len() - i,
    {
        proof {
            let t = instances@.take(i + 1);
            assert(t.drop_last() =~= instances@.take(i as int));
            assert(t.last() == instances@[i as int]);
        }
        if instances[i].is_alive_status() {
            running = running + 1;
        }
        i = i + 1;
    }
    assert(instances@.take(instances.len() as int) =~= instances@);
    Counts {
        environments: match environments {
            Some(n) => n as u64,
            None => 0,
        },
        instances: instances.len() as u64,
        running,
        extensions: match extensions {
            Some(n) => n as u64,
            None => 0,
        },
    }
}

/// Builds the health report of the application version it was given.
#[derive(Debug, Clone, PartialEq, Eq)]
pub struct HealthService {
    app_version: String,
}

impl HealthService {
    /// A service reporting `app_version`.
    pub fn new(app_version: String) -> (s: Self)
        ensures
            s.version() == app_version@,
    {
        HealthService { app_version }
    }

    /// The reported application version.
    pub closed spec fn version(self) -> Seq<char> {
        self.app_version@
    }

    /// The report: the four checks in order database, kernel, directories,
    /// extensions; `ok` when all passed.
    pub fn snapshot(
        &self,
        db: &DbProbe,
        kernel: &KernelState,
        dirs: &[DirProbe],
        extensions: &Result<Vec<ExtensionStatus>, String>,
        counts: Counts,
    ) -> (r: HealthReport)
        ensures
            r.version@ == self.version(),
            r.checks@.len() == 4,
            check_view(r.checks@[0]) == database_check(*db),
            check_view(r.checks@[1]) == kernel_check(*kernel),
            check_view(r.checks@[2]) == directories_check(dirs@),
            check_view(r.checks@[3]) == extensions_check(
                match extensions {
                    Ok(v) => Ok(v@),
                    Err(e) => Err(e@),
                },
            ),
            r.ok == (r.checks@[0].ok && r.checks@[1].ok && r.checks@[2].ok && r.checks@[3].ok),
            r.counts == counts,
    {
        let checks = vec![
            check_database(db),
            check_kernel(kernel),
            check_directories(dirs),
            check_extensions(extensions),
        ];
        let ok = checks[0].ok && checks[1].ok && checks[2].ok && checks[3].ok;
        HealthReport { version: self.app_version.clone(), ok, checks, counts }
    }
}

} // verus!
