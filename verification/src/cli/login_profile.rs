//! Renderings of login profiles and the confirmation rule of `capture`.
use vstd::prelude::*;
use vstd::string::StringExecFns;
use crate::cli::model::{LoginProfileRow, LoginProfileStatus, LoginProfileView};
use crate::text::{
    bool_text, bool_to_string, dec_int, i64_cell, i64_to_string, kv, kv_view, opt_i64,
    opt_int_text, opt_nat_text, opt_u16, u16_cell,
};

verus! {

/// Wire name of a login-profile state (snake case; `unknown` for the
/// fallback).
pub open spec fn profile_status_text(s: LoginProfileStatus) -> Seq<char> {
    match s {
        LoginProfileStatus::NotConfigured => "not_configured"@,
        LoginProfileStatus::Ready => "ready"@,
        LoginProfileStatus::Capturing => "capturing"@,
        LoginProfileStatus::Error => "error"@,
        LoginProfileStatus::Unknown => "unknown"@,
    }
}

/// The wire name of a login-profile state.
pub fn status_label(status: &LoginProfileStatus) -> (s: String)
    ensures
        s@ == profile_status_text(*status),
{
    match status {
        LoginProfileStatus::NotConfigured => String::from_str("not_configured"),
        LoginProfileStatus::Ready => String::from_str("ready"),
        LoginProfileStatus::Capturing => String::from_str("capturing"),
        LoginProfileStatus::Error => String::from_str("error"),
        LoginProfileStatus::Unknown => String::from_str("unknown"),
    }
}

/// The frozen key/value rendering of a login profile.
pub open spec fn view_kv(v: LoginProfileView) -> Seq<(Seq<char>, Seq<char>)> {
    seq![
        ("id"@, v.id@),
        ("name"@, v.name@),
        ("status"@, profile_status_text(v.status)),
        ("snapshotVersion"@, dec_int(v.snapshot_version as int)),
        ("instancesUsing"@, dec_int(v.instances_using as int)),
        ("lastCapturedAt"@, opt_int_text(opt_i64(v.last_captured_at))),
        ("browserRunning"@, bool_text(v.browser_running)),
        ("cdpPort"@, opt_nat_text(opt_u16(v.cdp_port))),
    ]
}

/// A login profile as key/value pairs under the JSON field names.
pub fn view_kv_pairs(view: &LoginProfileView) -> (r: Vec<(String, String)>)
    ensures
        kv_view(r@) == view_kv(*view),
{
    let r = vec![
        kv("id", view.id.clone()),
        kv("name", view.name.clone()),
        kv("status", status_label(&view.status)),
        kv("snapshotVersion", i64_to_string(view.snapshot_version)),
        kv("instancesUsing", i64_to_string(view.instances_using)),
        kv("lastCapturedAt", i64_cell(view.last_captured_at)),
        kv("browserRunning", bool_to_string(view.browser_running)),
        kv("cdpPort", u16_cell(view.cdp_port)),
    ];
    assert(kv_view(r@) =~= view_kv(*view));
    r
}

/// Table cells of a profile row: environment, name, state, snapshot,
/// instances, last capture.
pub open spec fn row_cells_text(p: LoginProfileRow) -> Seq<Seq<char>> {
    seq![
        p.environment_name@,
        p.name@,
        profile_status_text(p.status),
        dec_int(p.snapshot_version as int),
        dec_int(p.instances_using as int),
        opt_int_text(opt_i64(p.last_captured_at)),
    ]
}

/// The `login-profile list` row cells.
pub fn row_cells(p: &LoginProfileRow) -> (r: Vec<String>)
    ensures
        r@.map_values(|c: String| c@) == row_cells_text(*p),
{
    let r = vec![
        p.environment_name.clone(),
        p.name.clone(),
        status_label(&p.status),
        i64_to_string(p.snapshot_version),
        i64_to_string(p.instances_using),
        i64_cell(p.last_captured_at),
    ];
    assert(r@.map_values(|c: String| c@) =~= row_cells_text(*p));
    r
}

/// Whether `capture` must ask first: only when it would overwrite an
/// existing snapshot and `--yes` was not given.
pub fn capture_needs_confirm(yes: bool, current_snapshot_version: i64) -> (b: bool)
    ensures
        b == (!yes && current_snapshot_version > 0),
{
    !yes && current_snapshot_version > 0
}

/// The `login-profile` subcommands.
#[derive(Debug, Clone, PartialEq, Eq)]
pub enum LoginProfileCommands {
    /// List the login profiles of every environment.
    List,
    /// Show the login profile of an environment.
    Get { env_id: String },
    /// Open the login browser.
    Launch { env_id: String },
    /// Capture a snapshot (asks before overwriting one).
    Capture { env_id: String, yes: bool },
    /// Clear the snapshot (always asks).
    Reset { env_id: String, yes: bool },
}

} // verus!
