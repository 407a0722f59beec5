//! Renderings of extensions, and the wording of the locked built-in
//! extension error.
use vstd::prelude::*;
use vstd::string::StringExecFns;
use crate::cli::error::CliError;
use crate::cli::model::{Extension, ExtensionStatus, ExtensionType};
use crate::text::{
    bool_text, bool_to_string, chars_of, dec_int, eq_str, i64_cell, i64_to_string, kv, kv_view,
    opt_i64, opt_int_text, or_dash, push_str, string_from_chars, string_or_dash,
};

verus! {

/// Wire name of an extension type (lower case; `unknown` for the fallback).
pub open spec fn type_text(t: ExtensionType) -> Seq<char> {
    match t {
        ExtensionType::System => "system"@,
        ExtensionType::User => "user"@,
        ExtensionType::Unknown => "unknown"@,
    }
}

/// Wire name of an extension status (lower case; `unknown` for the fallback).
pub open spec fn ext_status_text(s: ExtensionStatus) -> Seq<char> {
    match s {
        ExtensionStatus::Ready => "ready"@,
        ExtensionStatus::Missing => "missing"@,
        ExtensionStatus::Invalid => "invalid"@,
        ExtensionStatus::Unknown => "unknown"@,
    }
}

/// The wire name of an extension type.
pub fn type_label(t: ExtensionType) -> (s: String)
    ensures
        s@ == type_text(t),
{
    match t {
        ExtensionType::System => String::from_str("system"),
        ExtensionType::User => String::from_str("user"),
        ExtensionType::Unknown => String::from_str("unknown"),
    }
}

/// The wire name of an extension status.
pub fn status_label(s: ExtensionStatus) -> (r: String)
    ensures
        r@ == ext_status_text(s),
{
    match s {
        ExtensionStatus::Ready => String::from_str("ready"),
        ExtensionStatus::Missing => String::from_str("missing"),
        ExtensionStatus::Invalid => String::from_str("invalid"),
        ExtensionStatus::Unknown => String::from_str("unknown"),
    }
}

/// The frozen key/value rendering of an extension.
pub open spec fn extension_kv(e: Extension) -> Seq<(Seq<char>, Seq<char>)> {
    seq![
        ("id"@, e.id@),
        ("name"@, e.name@),
        ("type"@, type_text(e.extension_type)),
        ("status"@, ext_status_text(e.status)),
        ("version"@, or_dash(e.version)),
        ("manifestVersion"@, opt_int_text(opt_i64(e.manifest_version))),
        ("sourcePath"@, e.source_path@),
        ("enabled"@, bool_text(e.enabled)),
        ("createdAt"@, dec_int(e.created_at as int)),
        ("updatedAt"@, dec_int(e.updated_at as int)),
    ]
}

/// An extension as key/value pairs under the JSON field names; absent
/// values render as `-`.
pub fn extension_kv_pairs(ext: &Extension) -> (r: Vec<(String, String)>)
    ensures
        kv_view(r@) == extension_kv(*ext),
{
    let r = vec![
        kv("id", ext.id.clone()),
        kv("name", ext.name.clone()),
        kv("type", type_label(ext.extension_type)),
        kv("status", status_label(ext.status)),
        kv("version", string_or_dash(&ext.version)),
        kv("manifestVersion", i64_cell(ext.manifest_version)),
        kv("sourcePath", ext.source_path.clone()),
        kv("enabled", bool_to_string(ext.enabled)),
        kv("createdAt", i64_to_string(ext.created_at)),
        kv("updatedAt", i64_to_string(ext.updated_at)),
    ];
    assert(kv_view(r@) =~= extension_kv(*ext));
    r
}

/// The table cells of an extension: name, version, type, status.
pub open spec fn extension_cells_text(e: Extension) -> Seq<Seq<char>> {
    seq![e.name@, or_dash(e.version), type_text(e.extension_type), ext_status_text(e.status)]
}

/// The list row cells of an extension.
pub fn extension_cells(ext: &Extension) -> (r: Vec<String>)
    ensures
        r@.map_values(|s: String| s@) == extension_cells_text(*ext),
{
    let r = vec![
        ext.name.clone(),
        string_or_dash(&ext.version),
        type_label(ext.extension_type),
        status_label(ext.status),
    ];
    assert(r@.map_values(|s: String| s@) =~= extension_cells_text(*ext));
    r
}

/// The server's refusal to touch a built-in extension.
pub open spec fn is_system_locked(e: CliError) -> bool {
    e matches CliError::Api { status, code, .. } && status == 403 && code@
        == "EXTENSION_SYSTEM_LOCKED"@
}

/// The message shown for a locked built-in extension.
pub open spec fn locked_message(verb: Seq<char>, server_message: Seq<char>) -> Seq<char> {
    "内置扩展锁定，仅用户注册的扩展可"@ + verb + "（服务端: "@ + server_message + "）"@
}

/// Rewords the server's `EXTENSION_SYSTEM_LOCKED` refusal for people,
/// keeping status and code (so JSON output and the exit code are
/// unchanged); every other error passes through as it is.
pub fn system_locked_translated(err: CliError, verb: &str) -> (r: CliError)
    ensures
        is_system_locked(err) ==> (r matches CliError::Api { status, code, message } && status
            == 403 && code@ == "EXTENSION_SYSTEM_LOCKED"@ && message@ == locked_message(
            verb@,
            err->message@,
        )),
        !is_system_locked(err) ==> r == err,
{
    match err {
        CliError::Api { status, code, message } => {
            let c = chars_of(code.as_str());
            if status == 403 && eq_str(&c, "EXTENSION_SYSTEM_LOCKED") {
                let mut buf: Vec<char> = Vec::new();
                push_str(&mut buf, "内置扩展锁定，仅用户注册的扩展可");
                push_str(&mut buf, verb);
                push_str(&mut buf, "（服务端: ");
                push_str(&mut buf, message.as_str());
                push_str(&mut buf, "）");
                CliError::Api { status: 403, code, message: string_from_chars(&buf) }
            } else {
                CliError::Api { status, code, message }
            }
        },
        other => other,
    }
}

/// The `extension` subcommands.
#[derive(Debug, Clone, PartialEq, Eq)]
pub enum ExtensionCommands {
    /// List every extension (built-in and registered).
    List,
    /// Show one extension.
    Get { id: String },
    /// Register a local extension directory (holding an extension manifest file).
    Add { path: String },
    /// Enable a registered extension.
    Enable { id: String },
    /// Disable a registered extension.
    Disable { id: String },
    /// Remove a registration (the source directory stays).
    Remove { id: String, yes: bool },
}

} // verus!
