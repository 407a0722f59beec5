//! The command-line client: its error model, exit codes, rendering of
//! server payloads, and the decisions its commands make.
pub mod client;
pub mod diag;
pub mod env;
pub mod error;
pub mod exit;
pub mod extension;
pub mod instance;
pub mod login_profile;
pub mod model;
pub mod output;
pub mod runtime;
pub mod settings;

use vstd::prelude::*;
use vstd::string::StringExecFns;
use crate::cli::error::CliError;
use crate::cli::output::OutputCtx;
use crate::text::{
    chars_of, eq_ignore_ascii_case, eq_ignore_case, push_str, str_to_string, string_from_chars,
    trim, trim_chars,
};

verus! {

/// Default agent API base address.
pub const DEFAULT_API_URL: &'static str = "http://127.0.0.1:17890";

/// Environment variable consulted when `--api-url` is absent.
pub const ENV_API_URL: &'static str = "CHROME_HOST_API_URL";

/// Global flags shared by every command.
#[derive(Debug, Clone, PartialEq, Eq)]
pub struct GlobalArgs {
    /// Machine-readable output; errors go to stdout as JSON too.
    pub json: bool,
    /// Print only the main entity id.
    pub quiet: bool,
    /// Print request method, path and time to stderr.
    pub verbose: bool,
    /// Kept for compatibility; nothing is coloured.
    pub no_color: bool,
    /// Skip confirmation of dangerous operations.
    pub yes: bool,
    /// Agent API base address.
    pub api_url: Option<String>,
}

/// The API base address: the flag, else the environment variable, else the
/// default.
pub open spec fn api_url_choice(flag: Option<String>, env_value: Option<String>) -> Seq<char> {
    match flag {
        Some(f) => f@,
        None => match env_value {
            Some(e) => e@,
            None => "http://127.0.0.1:17890"@,
        },
    }
}

impl GlobalArgs {
    /// The API base address, given the value of `CHROME_HOST_API_URL` if it
    /// is set: flag over environment over default.
    pub fn api_url(&self, env_value: Option<String>) -> (r: String)
        ensures
            r@ == api_url_choice(self.api_url, env_value),
    {
        match &self.api_url {
            Some(f) => f.clone(),
            None => match env_value {
                Some(e) => e,
                None => {
                    proof {
                        reveal_strlit("http://127.0.0.1:17890");
                    }
                    str_to_string(DEFAULT_API_URL)
                },
            },
        }
    }
}

impl OutputCtx {
    /// The output modes the global flags select.
    pub fn from_globals(g: &GlobalArgs) -> (r: OutputCtx)
        ensures
            r.json == g.json,
            r.quiet == g.quiet,
    {
        OutputCtx { json: g.json, quiet: g.quiet }
    }
}

/// The refusal of a dangerous operation off a terminal without `--yes`.
pub open spec fn needs_yes_message(msg: Seq<char>) -> Seq<char> {
    "非交互环境执行危险操作需要 --yes："@ + msg
}

/// An answer that accepts: `y` or `yes` in any case, surrounding blanks
/// ignored.
pub open spec fn accepts(line: Seq<char>) -> bool {
    eq_ignore_ascii_case(trim(line), "y"@) || eq_ignore_ascii_case(trim(line), "yes"@)
}

/// The confirmation rule for dangerous operations: `--yes` passes; off a
/// terminal without `--yes` the operation is refused before any request;
/// on a terminal the answer `line` must be `y` or `yes` (default no).
pub fn confirm_with_line(yes: bool, is_tty: bool, msg: &str, line: &str) -> (r: Result<
    (),
    CliError,
>)
    ensures
        yes ==> r is Ok,
        !yes && !is_tty ==> (r matches Err(CliError::Local(m)) && m@ == needs_yes_message(msg@)),
        !yes && is_tty ==> (accepts(line@) <==> r is Ok),
        !yes && is_tty && !accepts(line@) ==> (r matches Err(CliError::Local(m)) && m@ == "已取消"@),
{
    if yes {
        return Ok(());
    }
    if !is_tty {
        let mut buf: Vec<char> = Vec::new();
        push_str(&mut buf, "非交互环境执行危险操作需要 --yes：");
        push_str(&mut buf, msg);
        return Err(CliError::Local(string_from_chars(&buf)));
    }
    let l = chars_of(line);
    let answer = trim_chars(&l);
    if eq_ignore_case(&answer, "y") || eq_ignore_case(&answer, "yes") {
        Ok(())
    } else {
        Err(CliError::Local(String::from_str("已取消")))
    }
}

/// The error when only global flags were given: a usage error (exit 2).
pub fn missing_command_error() -> (e: CliError)
    ensures
        e matches CliError::Local(m) && m@ == "缺少子命令：运行 chrome-host --help 查看用法"@,
{
    CliError::Local(str_to_string("缺少子命令：运行 chrome-host --help 查看用法"))
}

/// The parsed command line.
#[derive(Debug, Clone, PartialEq, Eq)]
pub struct Cli {
    pub globals: GlobalArgs,
    /// `None` when only global flags were given.
    pub command: Option<Commands>,
}

/// The command groups.
#[derive(Debug, Clone, PartialEq, Eq)]
pub enum Commands {
    Env { command: crate::cli::env::EnvCommands },
    Instance { command: crate::cli::instance::InstanceCommands },
    Extension { command: crate::cli::extension::ExtensionCommands },
    LoginProfile { command: crate::cli::login_profile::LoginProfileCommands },
    Settings { command: crate::cli::settings::SettingsCommands },
    Runtime { command: crate::cli::runtime::RuntimeCommands },
    /// Health summary.
    Status,
    /// Full diagnosis.
    Doctor,
}

} // verus!
