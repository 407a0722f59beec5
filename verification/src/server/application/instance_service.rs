//! Instance rules: the browser command line of a launch, the state checks
//! of start / stop / delete / DevTools access, the URL check of tabs, and
//! the views returned by the API.  Processes, ports and storage are handled
//! by the caller.
use vstd::prelude::*;
use vstd::string::StringExecFns;
use crate::server::domain::hosts::{is_http_scheme_spec, url_scheme, HostRules, resolver_rules_text};
use crate::server::domain::instance::{is_alive, Instance, InstanceStatus};
use crate::server::error::{is_business, AppError};
use crate::text::{
    chars_eq, chars_of, dec, join, join_strings, push_str, push_u64, split_whitespace,
    str_to_string, string_from_chars, string_views, views, words,
};

verus! {

/// DevTools endpoint of a running instance.
#[derive(Debug, Clone, PartialEq, Eq)]
pub struct CdpEndpoint {
    pub instance_id: String,
    pub host: String,
    pub port: u16,
    pub http_url: String,
    pub web_socket_url: Option<String>,
}

/// An instance with the name of its environment.
#[derive(Debug, Clone, PartialEq, Eq)]
pub struct InstanceView {
    pub instance: Instance,
    pub environment_name: String,
}

/// The browser arguments after the fixed ones: DNS rules together with
/// `--no-proxy-server` when there are host rules, the environment's extra
/// arguments split at whitespace, the extensions to load joined by `,` when
/// there are any, and the start page last.
pub open spec fn launch_args_spec(
    rules: Option<Seq<char>>,
    startup_args: Option<Seq<char>>,
    extensions: Seq<Seq<char>>,
    start_url: Seq<char>,
) -> Seq<Seq<char>> {
    (match rules {
        Some(r) => seq!["--host-resolver-rules="@ + r, "--no-proxy-server"@],
        None => Seq::empty(),
    }) + (match startup_args {
        Some(a) => words(a),
        None => Seq::empty(),
    }) + (if extensions.len() > 0 {
        seq!["--load-extension="@ + join(extensions, ","@)]
    } else {
        Seq::empty()
    }) + seq![start_url]
}

/// Instance rules.
#[derive(Debug, Clone, Copy, PartialEq, Eq, Structural)]
pub struct InstanceService {}

impl InstanceService {
    /// The rules.
    pub fn new() -> (s: Self) {
        InstanceService {  }
    }

    /// The browser arguments of a launch (see [`launch_args_spec`]).
    pub fn launch_args(
        &self,
        rules: Option<&HostRules>,
        startup_args: Option<&str>,
        extensions: &[String],
        start_url: &str,
    ) -> (r: Vec<String>)
        ensures
            string_views(r@) == launch_args_spec(
                match rules {
                    Some(h) => Some(resolver_rules_text(h.pairs())),
                    None => None,
                },
                match startup_args {
                    Some(a) => Some(a@),
                    None => None,
                },
                string_views(extensions@),
                start_url@,
            ),
    {
        let mut args: Vec<String> = Vec::new();
        if let Some(h) = rules {
            let r = h.to_resolver_rules();
            let mut buf: Vec<char> = Vec::new();
            push_str(&mut buf, "--host-resolver-rules=");
            push_str(&mut buf, r.as_str());
            args.push(string_from_chars(&buf));
            args.push(str_to_string("--no-proxy-server"));
        }
        let ghost first = string_views(args@);
        assert(first =~= (match rules {
            Some(h) => seq!["--host-resolver-rules="@ + resolver_rules_text(h.pairs()), "--no-proxy-server"@],
            None => Seq::<Seq<char>>::empty(),
        }));
        let ghost extra = match startup_args {
            Some(a) => words(a@),
            None => Seq::<Seq<char>>::empty(),
        };
        if let Some(a) = startup_args {
            let ac = chars_of(a);
            let ws = split_whitespace(&ac);
            let mut i: usize = 0;
            while i < ws.len()
                invariant
                    0 <= i <= ws.len(),
                    views(ws@) == extra,
                    string_views(args@) == first + extra.take(i as int),
                decreases ws.len() - i,
            {
                let ghost prev = string_views(args@);
                args.push(string_from_chars(&ws[i]));
                assert(string_views(args@) =~= prev.push(ws@[i as int]@));
                assert(extra.take(i + 1) =~= extra.take(i as int).push(extra[i as int]));
                i = i + 1;
            }
            assert(extra.take(ws.len() as int) =~= extra);
        } else {
            assert(first + extra =~= first);
        }
        let ghost second = string_views(args@);
        if extensions.len() > 0 {
            let joined = join_strings(extensions, ",");
            let mut buf: Vec<char> = Vec::new();
            push_str(&mut buf, "--load-extension=");
            push_str(&mut buf, joined.as_str());
            args.push(string_from_chars(&buf));
        }
        args.push(str_to_string(start_url));
        assert(string_views(args@) =~= launch_args_spec(
            match rules {
                Some(h) => Some(resolver_rules_text(h.pairs())),
                None => None,
            },
            match startup_args {
                Some(a) => Some(a@),
                None => None,
            },
            string_views(extensions@),
            start_url@,
        ));
        args
    }

    /// The number of an instance within its environment: its position
    /// among the environment's instances, from 1; 0 when absent.
    pub fn chrome_index(&self, ids: &[String], id: &str) -> (n: usize)
        ensures
            n == 0 ==> forall|j: int| 0 <= j < ids@.len() ==> ids@[j]@ != id@,
            n > 0 ==> n <= ids@.len() && ids@[n - 1]@ == id@ && forall|j: int|
                0 <= j < n - 1 ==> ids@[j]@ != id@,
    {
        let k = chars_of(id);
        let mut i: usize = 0;
        while i < ids.len()
            invariant
                0 <= i <= ids.len(),
                k@ == id@,
                forall|j: int| 0 <= j < i ==> ids@[j]@ != id@,
            decreases ids.len() - i,
        {
            let c = chars_of(ids[i].as_str());
            if chars_eq(&c, &k) {
                return i + 1;
            }
            i = i + 1;
        }
        0
    }

    /// Start is refused (`409 INSTANCE_ALREADY_RUNNING`) when the instance
    /// is in any state but stopped, error or created and its process is
    /// still alive (a process already gone counts as stopped).
    pub fn check_start(&self, id: &str, status: InstanceStatus, process_alive: bool) -> (r: Result<(), AppError>)
        ensures
            (!(status == InstanceStatus::Stopped || status == InstanceStatus::Error || status
                == InstanceStatus::Created) && process_alive) <==> r is Err,
            r matches Err(e) ==> is_business(
                e,
                409,
                "INSTANCE_ALREADY_RUNNING"@,
                "实例 "@ + id@ + " 已在运行"@,
            ),
    {
        match status {
            InstanceStatus::Stopped | InstanceStatus::Error | InstanceStatus::Created => Ok(()),
            _ => {
                if process_alive {
                    Err(AppError::conflict("INSTANCE_ALREADY_RUNNING", sentence("实例 ", id, " 已在运行")))
                } else {
                    Ok(())
                }
            },
        }
    }

    /// Stop needs a running or starting instance (`409 INSTANCE_NOT_RUNNING`).
    pub fn check_stop(&self, id: &str, status: InstanceStatus) -> (r: Result<(), AppError>)
        ensures
            !is_alive(status) <==> r is Err,
            r matches Err(e) ==> is_business(e, 409, "INSTANCE_NOT_RUNNING"@, "实例 "@ + id@ + " 未在运行"@),
    {
        if status.is_alive_status() {
            Ok(())
        } else {
            Err(AppError::conflict("INSTANCE_NOT_RUNNING", sentence("实例 ", id, " 未在运行")))
        }
    }

    /// Delete is refused while the instance runs or starts
    /// (`409 INSTANCE_ALREADY_RUNNING`).
    pub fn check_delete(&self, id: &str, status: InstanceStatus) -> (r: Result<(), AppError>)
        ensures
            is_alive(status) <==> r is Err,
            r matches Err(e) ==> is_business(
                e,
                409,
                "INSTANCE_ALREADY_RUNNING"@,
                "实例 "@ + id@ + " 运行中，必须先停止再删除"@,
            ),
    {
        if status.is_alive_status() {
            Err(
                AppError::conflict(
                    "INSTANCE_ALREADY_RUNNING",
                    sentence("实例 ", id, " 运行中，必须先停止再删除"),
                ),
            )
        } else {
            Ok(())
        }
    }

    /// DevTools access needs a running instance (`409 INSTANCE_NOT_RUNNING`,
    /// with `not_running_tail` closing the message) with a port (`500
    /// INTERNAL_ERROR` otherwise); the port is returned.
    pub fn require_running(&self, ins: &Instance, not_running_tail: &str) -> (r: Result<u16, AppError>)
        ensures
            ins.status != InstanceStatus::Running ==> (r matches Err(e) && is_business(
                e,
                409,
                "INSTANCE_NOT_RUNNING"@,
                "实例 "@ + ins.id@ + not_running_tail@,
            )),
            ins.status == InstanceStatus::Running && ins.cdp_port is None ==> (r matches Err(e)
                && is_business(e, 500, "INTERNAL_ERROR"@, "实例缺少 CDP 端口"@)),
            ins.status == InstanceStatus::Running && ins.cdp_port is Some ==> r == Ok::<
                u16,
                AppError,
            >(ins.cdp_port->0),
    {
        if ins.status != InstanceStatus::Running {
            return Err(AppError::conflict("INSTANCE_NOT_RUNNING", sentence("实例 ", ins.id.as_str(), not_running_tail)));
        }
        match ins.cdp_port {
            Some(p) => Ok(p),
            None => Err(AppError::internal(String::from_str("实例缺少 CDP 端口"))),
        }
    }

    /// The DevTools endpoint of an instance on `port`.
    pub fn cdp_endpoint(&self, instance_id: String, port: u16, web_socket_url: Option<String>) -> (e: CdpEndpoint)
        ensures
            e.instance_id == instance_id,
            e.host@ == "127.0.0.1"@,
            e.port == port,
            e.http_url@ == "http://127.0.0.1:"@ + dec(port as nat),
            e.web_socket_url == web_socket_url,
    {
        let mut url: Vec<char> = Vec::new();
        push_str(&mut url, "http://127.0.0.1:");
        push_u64(&mut url, port as u64);
        CdpEndpoint {
            instance_id,
            host: str_to_string("127.0.0.1"),
            port,
            http_url: string_from_chars(&url),
            web_socket_url,
        }
    }

    /// The environment name shown for an instance; the environment id when
    /// the environment is gone.
    pub fn resolve_environment_name(&self, found: Option<String>, environment_id: &str) -> (n: String)
        ensures
            n@ == (match found {
                Some(s) => s@,
                None => environment_id@,
            }),
    {
        match found {
            Some(s) => s,
            None => str_to_string(environment_id),
        }
    }

    /// The URL a tab may open: it must parse (`400 INVALID_REQUEST` "URL 不合法")
    /// and be `http` or `https`.
    pub fn validate_http_url(url: &str) -> (r: Result<(), AppError>)
        ensures
            url_scheme(url@) is None ==> (r matches Err(e) && is_business(
                e,
                400,
                "INVALID_REQUEST"@,
                "URL 不合法: "@ + url@,
            )),
            url_scheme(url@) is Some && !is_http_scheme_spec(url_scheme(url@)) ==> (r matches Err(e)
                && is_business(e, 400, "INVALID_REQUEST"@, "URL 必须 http/https 开头"@)),
            is_http_scheme_spec(url_scheme(url@)) <==> r is Ok,
    {
        let scheme = crate::server::domain::hosts::parse_url_scheme(url);
        match &scheme {
            None => {
                proof {
                    reveal_strlit("");
                }
                Err(AppError::invalid_request(sentence("URL 不合法: ", url, "")))
            },
            Some(_) => {
                if crate::server::domain::hosts::is_http_scheme(&scheme) {
                    Ok(())
                } else {
                    Err(AppError::invalid_request(String::from_str("URL 必须 http/https 开头")))
                }
            },
        }
    }

    /// Whether a process exit seen for `pid` stops the instance: only when
    /// the row still carries that pid and is running (a late exit of an
    /// older process changes nothing).
    pub fn exit_stops(&self, row: &Instance, pid: u32) -> (b: bool)
        ensures
            b == (row.pid == Some(pid) && row.status == InstanceStatus::Running),
    {
        match row.pid {
            Some(p) => p == pid && row.status == InstanceStatus::Running,
            None => false,
        }
    }

    /// The refusal of a start whose DevTools port stayed closed.
    pub fn start_failed(&self, id: &str) -> (e: AppError)
        ensures
            is_business(
                e,
                500,
                "INSTANCE_START_FAILED"@,
                "实例 "@ + id@ + " 的 CDP 端口未在超时内就绪，已回收进程"@,
            ),
    {
        AppError::business(500, "INSTANCE_START_FAILED", sentence("实例 ", id, " 的 CDP 端口未在超时内就绪，已回收进程"))
    }

    /// The refusal of a start on a port held by another process.
    pub fn port_unavailable(&self, port: u16, id: &str) -> (e: AppError)
        ensures
            is_business(
                e,
                409,
                "CDP_PORT_UNAVAILABLE"@,
                "端口 "@ + dec(port as nat) + " 已被占用，无法启动实例 "@ + id@,
            ),
    {
        let mut buf: Vec<char> = Vec::new();
        push_str(&mut buf, "端口 ");
        push_u64(&mut buf, port as u64);
        push_str(&mut buf, " 已被占用，无法启动实例 ");
        push_str(&mut buf, id);
        AppError::conflict("CDP_PORT_UNAVAILABLE", string_from_chars(&buf))
    }

    /// The refusal of a DevTools port that does not answer.
    pub fn cdp_unreachable(&self, port: u16) -> (e: AppError)
        ensures
            is_business(e, 500, "CDP_CONNECTION_FAILED"@, "CDP 端口 "@ + dec(port as nat) + " 不可达"@),
    {
        let mut buf: Vec<char> = Vec::new();
        push_str(&mut buf, "CDP 端口 ");
        push_u64(&mut buf, port as u64);
        push_str(&mut buf, " 不可达");
        AppError::business(500, "CDP_CONNECTION_FAILED", string_from_chars(&buf))
    }
}

/// `a + b + c` as a `String`.
fn sentence(a: &str, b: &str, c: &str) -> (s: String)
    ensures
        s@ == a@ + b@ + c@,
{
    let mut buf: Vec<char> = Vec::new();
    push_str(&mut buf, a);
    push_str(&mut buf, b);
    push_str(&mut buf, c);
    string_from_chars(&buf)
}

/// How far a launch got.
#[derive(Debug)]
pub enum LaunchStage {
    /// The hosts source could not be resolved (its error).
    HostsFailed(AppError),
    /// The browser kernel is not ready (the reason).
    KernelFailed(String),
    /// The browser process could not be spawned (its error).
    SpawnFailed(AppError),
    /// The process started but its DevTools port did not answer in time.
    CdpTimeout,
    /// The DevTools port answered.
    Ready,
}

/// The end of a launch: the status stored, whether the spawned process is
/// terminated, and what the launch returns.
#[derive(Debug)]
pub struct LaunchOutcome {
    pub status: InstanceStatus,
    pub terminate: bool,
    pub result: Result<(), AppError>,
}

impl InstanceService {
    /// The end of a launch of instance `id`: any failure stores `error` and
    /// returns an error (the stage's own, `500 KERNEL_NOT_READY` with the
    /// reason for the kernel, [`Self::start_failed`] after a DevTools
    /// time-out, which also terminates the process); readiness stores
    /// `running` and succeeds.
    pub fn launch_outcome(&self, id: &str, stage: LaunchStage) -> (r: LaunchOutcome)
        ensures
            (match stage {
                LaunchStage::HostsFailed(e) => r.status == InstanceStatus::Error && !r.terminate
                    && r.result == Err::<(), AppError>(e),
                LaunchStage::KernelFailed(m) => r.status == InstanceStatus::Error && !r.terminate
                    && (r.result matches Err(e) && is_business(e, 500, "KERNEL_NOT_READY"@, m@)),
                LaunchStage::SpawnFailed(e) => r.status == InstanceStatus::Error && !r.terminate
                    && r.result == Err::<(), AppError>(e),
                LaunchStage::CdpTimeout => r.status == InstanceStatus::Error && r.terminate && (
                r.result matches Err(e) && is_business(
                    e,
                    500,
                    "INSTANCE_START_FAILED"@,
                    "实例 "@ + id@ + " 的 CDP 端口未在超时内就绪，已回收进程"@,
                )),
                LaunchStage::Ready => r.status == InstanceStatus::Running && !r.terminate && r.result
                    is Ok,
            }),
    {
        match stage {
            LaunchStage::HostsFailed(e) => LaunchOutcome {
                status: InstanceStatus::Error,
                terminate: false,
                result: Err(e),
            },
            LaunchStage::KernelFailed(m) => LaunchOutcome {
                status: InstanceStatus::Error,
                terminate: false,
                result: Err(AppError::business(500, "KERNEL_NOT_READY", m)),
            },
            LaunchStage::SpawnFailed(e) => LaunchOutcome {
                status: InstanceStatus::Error,
                terminate: false,
                result: Err(e),
            },
            LaunchStage::CdpTimeout => LaunchOutcome {
                status: InstanceStatus::Error,
                terminate: true,
                result: Err(self.start_failed(id)),
            },
            LaunchStage::Ready => LaunchOutcome {
                status: InstanceStatus::Running,
                terminate: false,
                result: Ok(()),
            },
        }
    }
}

/// Where the extensions go on the command line: after the DNS pair (two
/// arguments when there are host rules) and the environment's own words,
/// a non-empty extension list gives exactly one `--load-extension=`
/// argument with every path joined by `,`, followed by the start page,
/// which is always last; an empty list adds no argument at all.
pub proof fn lemma_extensions_are_loaded(
    rules: Option<Seq<char>>,
    startup_args: Option<Seq<char>>,
    extensions: Seq<Seq<char>>,
    start_url: Seq<char>,
)
    ensures
        ({
            let a = launch_args_spec(rules, startup_args, extensions, start_url);
            let before = (if rules is Some {
                2int
            } else {
                0int
            }) + (match startup_args {
                Some(w) => words(w).len() as int,
                None => 0int,
            });
            &&& a.last() == start_url
            &&& extensions.len() > 0 ==> a.len() == before + 2 && a[before] == "--load-extension="@
                + join(extensions, ","@)
            &&& extensions.len() == 0 ==> a.len() == before + 1
        }),
{
    let a = launch_args_spec(rules, startup_args, extensions, start_url);
    let p1: Seq<Seq<char>> = match rules {
        Some(r) => seq!["--host-resolver-rules="@ + r, "--no-proxy-server"@],
        None => Seq::empty(),
    };
    let p2: Seq<Seq<char>> = match startup_args {
        Some(w) => words(w),
        None => Seq::empty(),
    };
    let p3: Seq<Seq<char>> = if extensions.len() > 0 {
        seq!["--load-extension="@ + join(extensions, ","@)]
    } else {
        Seq::empty()
    };
    assert(a == p1 + p2 + p3 + seq![start_url]);
    assert((p1 + p2 + p3 + seq![start_url])[(p1 + p2 + p3).len() as int] == start_url);
    if extensions.len() > 0 {
        assert((p1 + p2 + p3 + seq![start_url])[(p1 + p2).len() as int] == p3[0]);
    }
}

} // verus!
