//! Request body of the settings endpoint.
use vstd::prelude::*;

verus! {

/// Body of `PUT /api/v1/settings`: only the fields given are updated.
#[derive(Debug, Clone, PartialEq, Eq)]
pub struct UpdateSettingsBody {
    pub developer_mode: Option<bool>,
    pub env_label_position: Option<String>,
    pub env_label_color: Option<String>,
    pub default_start_url: Option<String>,
}

} // verus!
