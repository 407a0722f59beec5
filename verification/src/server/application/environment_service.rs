//! Environment rules: creation and partial update with their checks, the
//! run summary of the list, and the refusal to delete an environment with
//! running instances.  Storage is left to the caller.
use vstd::prelude::*;
use vstd::string::StringExecFns;
use crate::server::clock::{new_uuid, now_ms};
use crate::server::domain::environment::{
    CreateEnvironmentInput, Environment, UpdateEnvironmentInput,
};
use crate::server::domain::hosts::{is_http_scheme_spec, is_valid_source_url, url_scheme};
use crate::server::domain::instance::{is_alive, InstanceStatus};
use crate::server::error::{is_business, AppError};
use crate::text::{chars_eq, chars_of, push_str, string_from_chars, trim, trim_chars};

verus! {

/// An environment with its instance counts.
#[derive(Debug, Clone, PartialEq, Eq)]
pub struct EnvironmentSummary {
    pub environment: Environment,
    pub running_instances: i64,
    pub total_instances: i64,
}

/// An optional string trimmed, absent when blank.
pub open spec fn normalized(v: Option<String>) -> Option<Seq<char>> {
    match v {
        Some(s) => if trim(s@).len() == 0 {
            None
        } else {
            Some(trim(s@))
        },
        None => None,
    }
}

/// An optional string as plain data.
pub open spec fn opt_view(v: Option<String>) -> Option<Seq<char>> {
    match v {
        Some(s) => Some(s@),
        None => None,
    }
}

/// Trims an optional string; blank becomes absent.
pub fn normalize_optional(value: &Option<String>) -> (r: Option<String>)
    ensures
        opt_view(r) == normalized(*value),
{
    match value {
        Some(s) => {
            let c = chars_of(s.as_str());
            let t = trim_chars(&c);
            if t.len() == 0 {
                None
            } else {
                Some(string_from_chars(&t))
            }
        },
        None => None,
    }
}

/// The refusal of a hosts source that is not an `http(s)` URL.
pub open spec fn source_invalid_message(url: Seq<char>) -> Seq<char> {
    "hostsSourceUrl 必须为 http(s):// 开头的合法 URL，实际: "@ + url
}

/// `400 HOSTS_SOURCE_INVALID` for `url`.
pub fn source_url_invalid(url: &str) -> (e: AppError)
    ensures
        is_business(e, 400, "HOSTS_SOURCE_INVALID"@, source_invalid_message(url@)),
{
    let mut buf: Vec<char> = Vec::new();
    push_str(&mut buf, "hostsSourceUrl 必须为 http(s):// 开头的合法 URL，实际: ");
    push_str(&mut buf, url);
    AppError::business(400, "HOSTS_SOURCE_INVALID", string_from_chars(&buf))
}

/// Whether a source URL is accepted.
pub open spec fn source_ok(url: Seq<char>) -> bool {
    is_http_scheme_spec(url_scheme(url))
}

/// A submitted hosts source that is not acceptable.
pub open spec fn bad_source(h: Option<Option<String>>) -> bool {
    h matches Some(Some(u)) && !source_ok(u@)
}

/// The refusal of a blank name.
pub open spec fn blank_name_message() -> Seq<char> {
    "环境名称不能为空"@
}

/// Environment rules.
#[derive(Debug, Clone, Copy, PartialEq, Eq, Structural)]
pub struct EnvironmentService {}

impl EnvironmentService {
    /// The rules.
    pub fn new() -> (s: Self) {
        EnvironmentService {  }
    }

    /// A new environment from `input`, with id `env_<suffix>` and time
    /// `now`: the name is trimmed and must not be blank (`400
    /// INVALID_REQUEST`); the hosts source is trimmed, blank means none,
    /// and it must be an `http(s)` URL (`400 HOSTS_SOURCE_INVALID`).  A new
    /// environment has no start-up arguments and keep-alive off.
    pub fn create_with(&self, input: CreateEnvironmentInput, id_suffix: &str, now: i64) -> (r: Result<Environment, AppError>)
        ensures
            trim(input.name@).len() == 0 ==> (r matches Err(e) && is_business(
                e,
                400,
                "INVALID_REQUEST"@,
                blank_name_message(),
            )),
            trim(input.name@).len() > 0 && normalized(input.hosts_source_url) is Some && !source_ok(
                normalized(input.hosts_source_url)->0,
            ) ==> (r matches Err(e) && is_business(
                e,
                400,
                "HOSTS_SOURCE_INVALID"@,
                source_invalid_message(normalized(input.hosts_source_url)->0),
            )),
            r matches Ok(env) ==> {
                &&& trim(input.name@).len() > 0
                &&& env.id@ == "env_"@ + id_suffix@
                &&& env.name@ == trim(input.name@)
                &&& opt_view(env.hosts_source_url) == normalized(input.hosts_source_url)
                &&& (normalized(input.hosts_source_url) matches Some(u) ==> source_ok(u))
                &&& env.icon == input.icon
                &&& env.startup_args is None
                &&& !env.keep_alive
                &&& env.created_at == now && env.updated_at == now
            },
            trim(input.name@).len() > 0 && (normalized(input.hosts_source_url) matches Some(u) ==> source_ok(u))
                ==> r is Ok,
    {
        let nc = chars_of(input.name.as_str());
        let name = trim_chars(&nc);
        if name.len() == 0 {
            return Err(AppError::invalid_request(String::from_str("环境名称不能为空")));
        }
        let hosts_source_url = normalize_optional(&input.hosts_source_url);
        if let Some(url) = &hosts_source_url {
            if !is_valid_source_url(url.as_str()) {
                return Err(source_url_invalid(url.as_str()));
            }
        }
        let mut id: Vec<char> = Vec::new();
        push_str(&mut id, "env_");
        push_str(&mut id, id_suffix);
        Ok(
            Environment {
                id: string_from_chars(&id),
                name: string_from_chars(&name),
                hosts_source_url,
                icon: input.icon,
                startup_args: None,
                keep_alive: false,
                created_at: now,
                updated_at: now,
            },
        )
    }

    /// A new environment from `input` (see [`Self::create_with`]), with a
    /// fresh UUID in its id and the current time.
    pub fn create(&self, input: CreateEnvironmentInput) -> (r: Result<Environment, AppError>)
        ensures
            trim(input.name@).len() == 0 ==> (r matches Err(e) && is_business(
                e,
                400,
                "INVALID_REQUEST"@,
                blank_name_message(),
            )),
            trim(input.name@).len() > 0 && normalized(input.hosts_source_url) is Some && !source_ok(
                normalized(input.hosts_source_url)->0,
            ) ==> (r matches Err(e) && is_business(
                e,
                400,
                "HOSTS_SOURCE_INVALID"@,
                source_invalid_message(normalized(input.hosts_source_url)->0),
            )),
            trim(input.name@).len() > 0 && (normalized(input.hosts_source_url) matches Some(u) ==> source_ok(u))
                ==> r is Ok,
            r matches Ok(env) ==> {
                &&& env.id@.len() == 40
                &&& env.id@.take(4) == "env_"@
                &&& env.name@ == trim(input.name@)
                &&& opt_view(env.hosts_source_url) == normalized(input.hosts_source_url)
                &&& env.icon == input.icon
                &&& env.startup_args is None
                &&& !env.keep_alive
                &&& env.created_at == env.updated_at
            },
    {
        let suffix = new_uuid();
        let now = now_ms();
        let r = self.create_with(input, suffix.as_str(), now);
        proof {
            reveal_strlit("env_");
            assert(("env_"@ + suffix@).take(4) =~= "env_"@);
        }
        r
    }

    /// `env` with the fields of `input` applied at time `now`: a given name
    /// is trimmed and must not be blank; a given hosts source (already
    /// trimmed, `None` clearing it) must be an `http(s)` URL; icon,
    /// start-up arguments and keep-alive are taken as given.
    pub fn apply_update(&self, env: Environment, input: UpdateEnvironmentInput, now: i64) -> (r: Result<Environment, AppError>)
        ensures
            input.name matches Some(n) && trim(n@).len() == 0 ==> (r matches Err(e) && is_business(
                e,
                400,
                "INVALID_REQUEST"@,
                blank_name_message(),
            )),
            !(input.name matches Some(n) && trim(n@).len() == 0) && bad_source(input.hosts_source_url)
                ==> (r matches Err(e) && is_business(
                e,
                400,
                "HOSTS_SOURCE_INVALID"@,
                source_invalid_message(input.hosts_source_url->0->0@),
            )),
            !(input.name matches Some(n) && trim(n@).len() == 0) && !bad_source(input.hosts_source_url)
                ==> (r matches Ok(out) && {
                &&& out.id == env.id
                &&& out.name@ == (match input.name {
                    Some(n) => trim(n@),
                    None => env.name@,
                })
                &&& out.hosts_source_url == (match input.hosts_source_url {
                    Some(h) => h,
                    None => env.hosts_source_url,
                })
                &&& out.icon == (match input.icon {
                    Some(i) => i,
                    None => env.icon,
                })
                &&& out.startup_args == (match input.startup_args {
                    Some(a) => a,
                    None => env.startup_args,
                })
                &&& out.keep_alive == (match input.keep_alive {
                    Some(k) => k,
                    None => env.keep_alive,
                })
                &&& out.created_at == env.created_at
                &&& out.updated_at == now
            }),
    {
        let mut env = env;
        if let Some(name) = &input.name {
            let nc = chars_of(name.as_str());
            let t = trim_chars(&nc);
            if t.len() == 0 {
                return Err(AppError::invalid_request(String::from_str("环境名称不能为空")));
            }
            env.name = string_from_chars(&t);
        }
        if let Some(hs) = &input.hosts_source_url {
            if let Some(url) = hs {
                if !is_valid_source_url(url.as_str()) {
                    return Err(source_url_invalid(url.as_str()));
                }
            }
        }
        if let Some(hs) = input.hosts_source_url {
            env.hosts_source_url = hs;
        }
        if let Some(icon) = input.icon {
            env.icon = icon;
        }
        if let Some(args) = input.startup_args {
            env.startup_args = args;
        }
        if let Some(on) = input.keep_alive {
            env.keep_alive = on;
        }
        env.updated_at = now;
        Ok(env)
    }

    /// Deleting is refused while instances run (`409
    /// ENVIRONMENT_HAS_RUNNING_INSTANCES`).
    pub fn check_delete(&self, running: u64) -> (r: Result<(), AppError>)
        ensures
            running > 0 <==> r is Err,
            r matches Err(e) ==> is_business(
                e,
                409,
                "ENVIRONMENT_HAS_RUNNING_INSTANCES"@,
                "环境仍有运行中的实例，请先停止"@,
            ),
    {
        if running > 0 {
            return Err(
                AppError::conflict(
                    "ENVIRONMENT_HAS_RUNNING_INSTANCES",
                    String::from_str("环境仍有运行中的实例，请先停止"),
                ),
            );
        }
        Ok(())
    }

    /// The list with run summaries: for each environment, its instances
    /// (`(environment id, state)` after reconciliation) counted in total
    /// and as running (running or starting).
    pub fn summaries(&self, envs: Vec<Environment>, instances: &[(String, InstanceStatus)]) -> (r: Vec<EnvironmentSummary>)
        requires
            instances@.len() < i64::MAX,
        ensures
            r@.len() == envs@.len(),
            forall|i: int|
                0 <= i < r@.len() ==> {
                    &&& (#[trigger] r@[i]).environment == envs@[i]
                    &&& r@[i].total_instances == count_env(instances@, envs@[i].id@)
                    &&& r@[i].running_instances == count_alive(instances@, envs@[i].id@)
                },
    {
        let mut out: Vec<EnvironmentSummary> = Vec::new();
        let mut envs = envs;
        let ghost original = envs@;
        let n = envs.len();
        let mut i: usize = 0;
        while i < n
            invariant
                0 <= i <= n,
                n == original.len(),
                instances@.len() < i64::MAX,
                envs@ == original.skip(i as int),
                out@.len() == i,
                forall|j: int|
                    0 <= j < i ==> {
                        &&& (#[trigger] out@[j]).environment == original[j]
                        &&& out@[j].total_instances == count_env(instances@, original[j].id@)
                        &&& out@[j].running_instances == count_alive(instances@, original[j].id@)
                    },
            decreases n - i,
        {
            let environment = envs.remove(0);
            assert(environment == original[i as int]);
            assert(envs@ =~= original.skip(i + 1));
            let (running, total) = count_for(instances, environment.id.as_str());
            out.push(EnvironmentSummary { environment, running_instances: running, total_instances: total });
            i = i + 1;
        }
        out
    }
}

/// Instances of environment `id`.
pub open spec fn count_env(s: Seq<(String, InstanceStatus)>, id: Seq<char>) -> int
    decreases s.len(),
{
    if s.len() == 0 {
        0
    } else {
        count_env(s.drop_last(), id) + if s.last().0@ == id {
            1int
        } else {
            0
        }
    }
}

/// Running or starting instances of environment `id`.
pub open spec fn count_alive(s: Seq<(String, InstanceStatus)>, id: Seq<char>) -> int
    decreases s.len(),
{
    if s.len() == 0 {
        0
    } else {
        count_alive(s.drop_last(), id) + if s.last().0@ == id && is_alive(s.last().1) {
            1int
        } else {
            0
        }
    }
}

proof fn lemma_counts_bounded(s: Seq<(String, InstanceStatus)>, id: Seq<char>)
    ensures
        0 <= count_alive(s, id) <= count_env(s, id) <= s.len(),
    decreases s.len(),
{
    if s.len() > 0 {
        lemma_counts_bounded(s.drop_last(), id);
    }
}

fn count_for(instances: &[(String, InstanceStatus)], id: &str) -> (r: (i64, i64))
    requires
        instances@.len() < i64::MAX,
    ensures
        r.0 == count_alive(instances@, id@),
        r.1 == count_env(instances@, id@),
{
    let k = chars_of(id);
    let mut running: i64 = 0;
    let mut total: i64 = 0;
    let mut i: usize = 0;
    assert(instances@.take(0) =~= Seq::<(String, InstanceStatus)>::empty());
    while i < instances.len()
        invariant
            0 <= i <= instances.len(),
            instances@.len() < i64::MAX,
            k@ == id@,
            running == count_alive(instances@.take(i as int), id@),
            total == count_env(instances@.take(i as int), id@),
        decreases instances.len() - i,
    {
        proof {
            let t = instances@.take(i + 1);
            assert(t.drop_last() =~= instances@.take(i as int));
            assert(t.last() == instances@[i as int]);
            lemma_counts_bounded(instances@.take(i as int), id@);
        }
        let c = chars_of(instances[i].0.as_str());
        if chars_eq(&c, &k) {
            total = total + 1;
            if instances[i].1.is_alive_status() {
                running = running + 1;
            }
        }
        i = i + 1;
    }
    assert(instances@.take(instances.len() as int) =~= instances@);
    (running, total)
}

/// Running never exceeds total in a summary.
pub proof fn lemma_running_within_total(s: Seq<(String, InstanceStatus)>, id: Seq<char>)
    ensures
        0 <= count_alive(s, id) <= count_env(s, id),
{
    lemma_counts_bounded(s, id);
}

/// What counts as running: with no instances nothing does; an instance of
/// another environment, or one that is neither running nor starting
/// (created, stopped, error), adds nothing; a running or starting instance
/// of the environment adds exactly one.
pub proof fn lemma_running_counts_running_or_starting(
    s: Seq<(String, InstanceStatus)>,
    id: Seq<char>,
    name: String,
    st: InstanceStatus,
)
    ensures
        count_alive(Seq::empty(), id) == 0,
        (name@ != id || !(st == InstanceStatus::Running || st == InstanceStatus::Starting))
            ==> count_alive(s.push((name, st)), id) == count_alive(s, id),
        (name@ == id && (st == InstanceStatus::Running || st == InstanceStatus::Starting))
            ==> count_alive(s.push((name, st)), id) == count_alive(s, id) + 1,
        name@ == id ==> count_env(s.push((name, st)), id) == count_env(s, id) + 1,
        name@ != id ==> count_env(s.push((name, st)), id) == count_env(s, id),
{
    assert(s.push((name, st)).drop_last() =~= s);
}

} // verus!
