//! Rendering of the application settings and the PUT body of
//! `settings update`.
use vstd::prelude::*;
use vstd::string::StringExecFns;
use crate::cli::error::CliError;
use crate::cli::env::{entry_if, opt_str, patch_body_view, PatchSpec, PatchValue};
use crate::cli::model::AppSettingsView;
use crate::text::{bool_text, bool_to_string, kv, kv_view, str_to_string};

verus! {

/// The key/value rendering of the settings.
pub open spec fn settings_kv(s: AppSettingsView) -> Seq<(Seq<char>, Seq<char>)> {
    seq![
        ("developerMode"@, bool_text(s.developer_mode)),
        ("envLabelPosition"@, s.env_label_position@),
        ("envLabelColor"@, s.env_label_color@),
        ("defaultStartUrl"@, s.default_start_url@),
    ]
}

/// The settings as key/value pairs under the JSON field names.
pub fn settings_kv_pairs(s: &AppSettingsView) -> (r: Vec<(String, String)>)
    ensures
        kv_view(r@) == settings_kv(*s),
{
    let r = vec![
        kv("developerMode", bool_to_string(s.developer_mode)),
        kv("envLabelPosition", s.env_label_position.clone()),
        kv("envLabelColor", s.env_label_color.clone()),
        kv("defaultStartUrl", s.default_start_url.clone()),
    ];
    assert(kv_view(r@) =~= settings_kv(*s));
    r
}

/// The refusal of an update with no field.
pub open spec fn no_field_message() -> Seq<char> {
    "至少提供一个要更新的字段：--developer-mode / --env-label-position / --env-label-color / --start-url"@
}

/// The PUT body `settings update` sends for its flags (strings as given,
/// the empty start URL included).
pub open spec fn settings_body_spec(
    developer_mode: Option<bool>,
    env_label_position: Option<Seq<char>>,
    env_label_color: Option<Seq<char>>,
    start_url: Option<Seq<char>>,
) -> Seq<(Seq<char>, PatchSpec)> {
    entry_if("developerMode"@, developer_mode, |b: bool| PatchSpec::Bool(b))
        + entry_if("envLabelPosition"@, env_label_position, |p: Seq<char>| PatchSpec::Str(p))
        + entry_if("envLabelColor"@, env_label_color, |c: Seq<char>| PatchSpec::Str(c))
        + entry_if("defaultStartUrl"@, start_url, |u: Seq<char>| PatchSpec::Str(u))
}

fn push_str_entry(body: &mut Vec<(String, PatchValue)>, key: &str, value: Option<&str>)
    ensures
        patch_body_view(final(body)@) == patch_body_view(old(body)@) + entry_if(
            key@,
            opt_str(value),
            |s: Seq<char>| PatchSpec::Str(s),
        ),
{
    if let Some(v) = value {
        body.push((str_to_string(key), PatchValue::Str(str_to_string(v))));
    }
    assert(patch_body_view(body@) =~= patch_body_view(old(body)@) + entry_if(
        key@,
        opt_str(value),
        |s: Seq<char>| PatchSpec::Str(s),
    ));
}

/// The PUT body of `settings update`, holding only the flags given; with
/// no flag at all the update is refused locally (no request is sent).
pub fn settings_update_body(
    developer_mode: Option<bool>,
    env_label_position: Option<&str>,
    env_label_color: Option<&str>,
    start_url: Option<&str>,
) -> (r: Result<Vec<(String, PatchValue)>, CliError>)
    ensures
        (developer_mode is None && env_label_position is None && env_label_color is None
            && start_url is None) <==> r is Err,
        r matches Err(e) ==> e matches CliError::Local(m) && m@ == no_field_message(),
        r matches Ok(body) ==> patch_body_view(body@) == settings_body_spec(
            developer_mode,
            opt_str(env_label_position),
            opt_str(env_label_color),
            opt_str(start_url),
        ),
{
    if developer_mode.is_none() && env_label_position.is_none() && env_label_color.is_none()
        && start_url.is_none() {
        return Err(
            CliError::Local(
                String::from_str(
                    "至少提供一个要更新的字段：--developer-mode / --env-label-position / --env-label-color / --start-url",
                ),
            ),
        );
    }
    let mut body: Vec<(String, PatchValue)> = Vec::new();
    if let Some(v) = developer_mode {
        body.push((String::from_str("developerMode"), PatchValue::Bool(v)));
    }
    assert(patch_body_view(body@) =~= entry_if(
        "developerMode"@,
        developer_mode,
        |b: bool| PatchSpec::Bool(b),
    ));
    push_str_entry(&mut body, "envLabelPosition", env_label_position);
    push_str_entry(&mut body, "envLabelColor", env_label_color);
    push_str_entry(&mut body, "defaultStartUrl", start_url);
    Ok(body)
}

/// The `settings` subcommands.
#[derive(Debug, Clone, PartialEq, Eq)]
pub enum SettingsCommands {
    /// Show the settings.
    Get,
    /// Update the settings given (at least one).
    Update {
        developer_mode: Option<bool>,
        env_label_position: Option<String>,
        env_label_color: Option<String>,
        start_url: Option<String>,
    },
}

} // verus!
