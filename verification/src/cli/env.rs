//! Renderings of environments, their activity and run state, and the PATCH
//! body of `env update`.
use vstd::prelude::*;
use vstd::string::StringExecFns;
use crate::cli::error::CliError;
use crate::cli::instance::{delete_conflict_action, is_running_conflict, ConflictAction};
use crate::cli::model::{AppEvent, EnvStatus, Environment, EnvironmentSummary};
use crate::text::{
    bool_text, bool_to_string, dec_int, i64_to_string, kv, kv_view, or_dash, str_to_string,
    string_or_dash,
};

verus! {

/// Events shown by `env activity` when no limit is given.
pub const ACTIVITY_DEFAULT_LIMIT: i64 = 50;

/// The frozen key/value rendering of an environment.
pub open spec fn env_kv(e: Environment) -> Seq<(Seq<char>, Seq<char>)> {
    seq![
        ("id"@, e.id@),
        ("name"@, e.name@),
        ("hostsSourceUrl"@, or_dash(e.hosts_source_url)),
        ("icon"@, or_dash(e.icon)),
        ("keepAlive"@, bool_text(e.keep_alive)),
        ("createdAt"@, dec_int(e.created_at as int)),
        ("updatedAt"@, dec_int(e.updated_at as int)),
    ]
}

/// An environment as key/value pairs under the JSON field names.
pub fn env_kv_pairs(env: &Environment) -> (r: Vec<(String, String)>)
    ensures
        kv_view(r@) == env_kv(*env),
{
    let r = vec![
        kv("id", env.id.clone()),
        kv("name", env.name.clone()),
        kv("hostsSourceUrl", string_or_dash(&env.hosts_source_url)),
        kv("icon", string_or_dash(&env.icon)),
        kv("keepAlive", bool_to_string(env.keep_alive)),
        kv("createdAt", i64_to_string(env.created_at)),
        kv("updatedAt", i64_to_string(env.updated_at)),
    ];
    assert(kv_view(r@) =~= env_kv(*env));
    r
}

/// Table cells of an environment: id, name, hosts source, running, total.
pub open spec fn summary_cells_text(s: EnvironmentSummary) -> Seq<Seq<char>> {
    seq![
        s.environment.id@,
        s.environment.name@,
        or_dash(s.environment.hosts_source_url),
        dec_int(s.running_instances as int),
        dec_int(s.total_instances as int),
    ]
}

/// The `env list` row cells.
pub fn summary_cells(s: &EnvironmentSummary) -> (r: Vec<String>)
    ensures
        r@.map_values(|c: String| c@) == summary_cells_text(*s),
{
    let r = vec![
        s.environment.id.clone(),
        s.environment.name.clone(),
        string_or_dash(&s.environment.hosts_source_url),
        i64_to_string(s.running_instances),
        i64_to_string(s.total_instances),
    ];
    assert(r@.map_values(|c: String| c@) =~= summary_cells_text(*s));
    r
}

/// Table cells of an event: time, level, event, target, message.
pub open spec fn event_cells_text(e: AppEvent) -> Seq<Seq<char>> {
    seq![dec_int(e.ts as int), e.level@, e.event@, or_dash(e.target_id), e.message@]
}

/// The `env activity` row cells (times stay epoch milliseconds).
pub fn event_cells(e: &AppEvent) -> (r: Vec<String>)
    ensures
        r@.map_values(|c: String| c@) == event_cells_text(*e),
{
    let r = vec![
        i64_to_string(e.ts),
        e.level.clone(),
        e.event.clone(),
        string_or_dash(&e.target_id),
        e.message.clone(),
    ];
    assert(r@.map_values(|c: String| c@) =~= event_cells_text(*e));
    r
}

/// The limit sent with `env activity`.
pub fn activity_limit(limit: Option<i64>) -> (n: i64)
    ensures
        n == (match limit {
            Some(l) => l,
            None => ACTIVITY_DEFAULT_LIMIT,
        }),
{
    match limit {
        Some(l) => l,
        None => ACTIVITY_DEFAULT_LIMIT,
    }
}

/// The run-state counts as flat key/value pairs.
pub open spec fn env_status_kv(s: EnvStatus) -> Seq<(Seq<char>, Seq<char>)> {
    seq![
        ("environmentId"@, s.environment_id@),
        ("total"@, dec_int(s.instances.total as int)),
        ("running"@, dec_int(s.instances.running as int)),
        ("starting"@, dec_int(s.instances.starting as int)),
        ("stopped"@, dec_int(s.instances.stopped as int)),
        ("error"@, dec_int(s.instances.error as int)),
    ]
}

/// `env status` as key/value pairs.
pub fn env_status_kv_pairs(status: &EnvStatus) -> (r: Vec<(String, String)>)
    ensures
        kv_view(r@) == env_status_kv(*status),
{
    let c = &status.instances;
    let r = vec![
        kv("environmentId", status.environment_id.clone()),
        kv("total", i64_to_string(c.total)),
        kv("running", i64_to_string(c.running)),
        kv("starting", i64_to_string(c.starting)),
        kv("stopped", i64_to_string(c.stopped)),
        kv("error", i64_to_string(c.error)),
    ];
    assert(kv_view(r@) =~= env_status_kv(*status));
    r
}

/// A value in a PATCH body.
#[derive(Debug, Clone, PartialEq, Eq)]
pub enum PatchValue {
    /// JSON `null`: clear the field.
    Null,
    Str(String),
    Bool(bool),
}

/// A PATCH value as plain data.
pub ghost enum PatchSpec {
    Null,
    Str(Seq<char>),
    Bool(bool),
}

/// The plain data of a PATCH value.
pub open spec fn patch_view(v: PatchValue) -> PatchSpec {
    match v {
        PatchValue::Null => PatchSpec::Null,
        PatchValue::Str(s) => PatchSpec::Str(s@),
        PatchValue::Bool(b) => PatchSpec::Bool(b),
    }
}

/// An optional string flag: the empty string clears the field.
pub open spec fn nullable_spec(v: Seq<char>) -> PatchSpec {
    if v.len() == 0 {
        PatchSpec::Null
    } else {
        PatchSpec::Str(v)
    }
}

/// An optional string flag as a PATCH value: empty means `null` (clear),
/// anything else the string itself.
pub fn nullable(v: &str) -> (r: PatchValue)
    ensures
        patch_view(r) == nullable_spec(v@),
{
    let s = str_to_string(v);
    if s.as_str().unicode_len() == 0 {
        PatchValue::Null
    } else {
        PatchValue::Str(s)
    }
}

/// A PATCH body as plain data.
pub open spec fn patch_body_view(v: Seq<(String, PatchValue)>) -> Seq<(Seq<char>, PatchSpec)> {
    v.map_values(|e: (String, PatchValue)| (e.0@, patch_view(e.1)))
}

/// `key -> value` when the flag was given, else nothing.
pub open spec fn entry_if<T>(key: Seq<char>, flag: Option<T>, value: spec_fn(T) -> PatchSpec) -> Seq<
    (Seq<char>, PatchSpec),
> {
    match flag {
        Some(x) => seq![(key, value(x))],
        None => Seq::empty(),
    }
}

/// The PATCH body `env update` sends for its flags.
pub open spec fn env_patch_spec(
    name: Option<Seq<char>>,
    hosts_source_url: Option<Seq<char>>,
    icon: Option<Seq<char>>,
    startup_args: Option<Seq<char>>,
    keep_alive: Option<bool>,
) -> Seq<(Seq<char>, PatchSpec)> {
    entry_if("name"@, name, |n: Seq<char>| PatchSpec::Str(n))
        + entry_if("hostsSourceUrl"@, hosts_source_url, |h: Seq<char>| nullable_spec(h))
        + entry_if("icon"@, icon, |c: Seq<char>| nullable_spec(c))
        + entry_if("startupArgs"@, startup_args, |a: Seq<char>| nullable_spec(a))
        + entry_if("keepAlive"@, keep_alive, |b: bool| PatchSpec::Bool(b))
}

/// An optional string slice as plain data.
pub open spec fn opt_str(o: Option<&str>) -> Option<Seq<char>> {
    match o {
        Some(s) => Some(s@),
        None => None,
    }
}

/// The PATCH body of `env update`: only the flags given, in the order name,
/// hostsSourceUrl, icon, startupArgs, keepAlive; empty strings clear the
/// nullable fields.
pub fn env_patch_body(
    name: Option<&str>,
    hosts_source_url: Option<&str>,
    icon: Option<&str>,
    startup_args: Option<&str>,
    keep_alive: Option<bool>,
) -> (r: Vec<(String, PatchValue)>)
    ensures
        patch_body_view(r@) == env_patch_spec(
            opt_str(name),
            opt_str(hosts_source_url),
            opt_str(icon),
            opt_str(startup_args),
            keep_alive,
        ),
{
    let mut body: Vec<(String, PatchValue)> = Vec::new();
    let ghost mut expect: Seq<(Seq<char>, PatchSpec)> = Seq::empty();
    if let Some(v) = name {
        body.push((String::from_str("name"), PatchValue::Str(str_to_string(v))));
    }
    proof {
        expect = entry_if("name"@, opt_str(name), |n: Seq<char>| PatchSpec::Str(n));
        assert(patch_body_view(body@) =~= expect);
    }
    if let Some(v) = hosts_source_url {
        body.push((String::from_str("hostsSourceUrl"), nullable(v)));
    }
    proof {
        expect = expect + entry_if(
            "hostsSourceUrl"@,
            opt_str(hosts_source_url),
            |h: Seq<char>| nullable_spec(h),
        );
        assert(patch_body_view(body@) =~= expect);
    }
    if let Some(v) = icon {
        body.push((String::from_str("icon"), nullable(v)));
    }
    proof {
        expect = expect + entry_if("icon"@, opt_str(icon), |c: Seq<char>| nullable_spec(c));
        assert(patch_body_view(body@) =~= expect);
    }
    if let Some(v) = startup_args {
        body.push((String::from_str("startupArgs"), nullable(v)));
    }
    proof {
        expect = expect + entry_if(
            "startupArgs"@,
            opt_str(startup_args),
            |a: Seq<char>| nullable_spec(a),
        );
        assert(patch_body_view(body@) =~= expect);
    }
    if let Some(v) = keep_alive {
        body.push((String::from_str("keepAlive"), PatchValue::Bool(v)));
    }
    proof {
        expect = expect + entry_if("keepAlive"@, keep_alive, |b: bool| PatchSpec::Bool(b));
        assert(patch_body_view(body@) =~= expect);
    }
    body
}

/// The decision after `env delete` failed: an environment with running
/// instances (`409 ENVIRONMENT_HAS_RUNNING_INSTANCES`) has them all stopped
/// first, with the user's consent; every other error is reported as it is.
pub fn env_delete_conflict(err: CliError, yes: bool, is_tty: bool) -> (r: ConflictAction)
    ensures
        !is_running_conflict(err, "ENVIRONMENT_HAS_RUNNING_INSTANCES"@) ==> r
            == ConflictAction::Fail(err),
        is_running_conflict(err, "ENVIRONMENT_HAS_RUNNING_INSTANCES"@) && yes ==> r
            == ConflictAction::StopThenDelete,
        is_running_conflict(err, "ENVIRONMENT_HAS_RUNNING_INSTANCES"@) && !yes && is_tty ==> r
            == ConflictAction::ConfirmThenStop,
        is_running_conflict(err, "ENVIRONMENT_HAS_RUNNING_INSTANCES"@) && !yes && !is_tty ==> (r matches ConflictAction::Fail(
            CliError::Local(m),
        ) && m@ == "环境存在运行中实例，非交互环境需要 --yes 才能停止全部实例并删除"@),
{
    delete_conflict_action(
        err,
        "ENVIRONMENT_HAS_RUNNING_INSTANCES",
        yes,
        is_tty,
        "环境存在运行中实例，非交互环境需要 --yes 才能停止全部实例并删除",
    )
}

/// The `env` subcommands.
#[derive(Debug, Clone, PartialEq, Eq)]
pub enum EnvCommands {
    /// List every environment.
    List,
    /// Show one environment.
    Get { id: String },
    /// Create an environment.
    Create { name: String, hosts_source_url: Option<String>, icon: Option<String> },
    /// Update the fields given; an empty value clears a nullable field.
    Update {
        id: String,
        name: Option<String>,
        hosts_source_url: Option<String>,
        icon: Option<String>,
        startup_args: Option<String>,
        keep_alive: Option<bool>,
    },
    /// Delete an environment (its running instances are stopped first).
    Delete { id: String, yes: bool },
    /// Show the activity of an environment.
    Activity { id: String, limit: Option<i64> },
    /// Show the instance counts of an environment.
    Status { id: String },
}

} // verus!
