//! Response payloads of the agent API as the CLI consumes them: plain data
//! mirroring the server's wire shapes.  Each enum read from the wire has an
//! `Unknown` variant so that a newer server never breaks an older client.
use vstd::prelude::*;

verus! {

/// An environment.
#[derive(Debug, Clone, PartialEq, Eq)]
pub struct Environment {
    pub id: String,
    pub name: String,
    /// Remote hosts source URL, if any.
    pub hosts_source_url: Option<String>,
    pub icon: Option<String>,
    /// Extra browser start-up arguments.
    pub startup_args: Option<String>,
    pub keep_alive: bool,
    pub created_at: i64,
    pub updated_at: i64,
}

/// An environment with its instance counts.
#[derive(Debug, Clone, PartialEq, Eq)]
pub struct EnvironmentSummary {
    pub environment: Environment,
    pub running_instances: i64,
    pub total_instances: i64,
}

/// Instance life-cycle state as the server reports it.
#[derive(Debug, Clone, Copy, PartialEq, Eq, Structural)]
pub enum InstanceStatus {
    Created,
    Starting,
    Running,
    Stopping,
    Stopped,
    Error,
    Crashed,
    /// A state this client does not know.
    Unknown,
}

/// A browser instance.
#[derive(Debug, Clone, PartialEq, Eq)]
pub struct Instance {
    pub id: String,
    pub environment_id: String,
    pub login_profile_id: Option<String>,
    pub profile_dir: String,
    pub pid: Option<u32>,
    pub cdp_port: Option<u16>,
    pub status: InstanceStatus,
    /// Snapshot of the host rules taken at start, as JSON text.
    pub host_rules: Option<String>,
    pub browser_version: Option<String>,
    pub started_at: Option<i64>,
    pub stopped_at: Option<i64>,
    pub created_at: i64,
    pub updated_at: i64,
}

/// An instance with the name of its environment.
#[derive(Debug, Clone, PartialEq, Eq)]
pub struct InstanceView {
    pub instance: Instance,
    /// Falls back to the environment id when the environment is gone.
    pub environment_name: String,
}

/// A granted DevTools session.
#[derive(Debug, Clone, PartialEq, Eq)]
pub struct CdpSessionView {
    pub session_id: String,
    /// Proxy path prefix, to be put after the API base address.
    pub base_url: String,
    /// Expiry, epoch milliseconds.
    pub expires_at: i64,
}

/// DevTools endpoint of a running instance.
#[derive(Debug, Clone, PartialEq, Eq)]
pub struct CdpEndpoint {
    pub instance_id: String,
    pub host: String,
    pub port: u16,
    pub http_url: String,
    pub web_socket_url: Option<String>,
}

/// A DevTools target (tab).
#[derive(Debug, Clone, PartialEq, Eq)]
pub struct CdpTarget {
    pub id: String,
    pub target_type: String,
    pub title: String,
    pub url: String,
}

/// Where an extension comes from.
#[derive(Debug, Clone, Copy, PartialEq, Eq, Structural)]
pub enum ExtensionType {
    System,
    User,
    /// A type this client does not know.
    Unknown,
}

/// Whether an extension's files are usable.
#[derive(Debug, Clone, Copy, PartialEq, Eq, Structural)]
pub enum ExtensionStatus {
    Ready,
    Missing,
    Invalid,
    /// A status this client does not know.
    Unknown,
}

/// A registered extension.
#[derive(Debug, Clone, PartialEq, Eq)]
pub struct Extension {
    pub id: String,
    pub name: String,
    pub description: Option<String>,
    pub version: Option<String>,
    pub manifest_version: Option<i64>,
    pub extension_type: ExtensionType,
    pub source_path: String,
    pub enabled: bool,
    pub status: ExtensionStatus,
    pub created_at: i64,
    pub updated_at: i64,
}

/// Browser kernel state (one pinned version).
#[derive(Debug, Clone, PartialEq, Eq)]
pub struct CftStatus {
    pub installed: bool,
    /// Installed version.
    pub version: Option<String>,
    /// Version the application expects.
    pub pinned_version: String,
    pub upgrade_available: bool,
    pub downloading: bool,
    pub binary_path: Option<String>,
}

/// One health check.
#[derive(Debug, Clone, PartialEq, Eq)]
pub struct HealthCheck {
    pub name: String,
    pub ok: bool,
    pub detail: String,
    pub suggestion: Option<String>,
}

/// Resource counts.
#[derive(Debug, Clone, PartialEq, Eq)]
pub struct Counts {
    pub environments: i64,
    pub instances: i64,
    pub running: i64,
    pub extensions: i64,
}

/// The health report behind `status` and `doctor`.
#[derive(Debug, Clone, PartialEq, Eq)]
pub struct HealthReport {
    /// Application version.
    pub version: String,
    /// Every check passed.
    pub ok: bool,
    pub checks: Vec<HealthCheck>,
    pub counts: Counts,
}

/// An activity event of an environment.
#[derive(Debug, Clone, PartialEq, Eq)]
pub struct AppEvent {
    pub ts: i64,
    pub level: String,
    pub event: String,
    /// `None` when the environment is gone.
    pub environment_id: Option<String>,
    pub target_id: Option<String>,
    pub message: String,
}

/// Instance counts of an environment by state.
#[derive(Debug, Clone, PartialEq, Eq)]
pub struct EnvInstanceCounts {
    pub total: i64,
    pub running: i64,
    pub starting: i64,
    pub stopped: i64,
    /// Error and crashed instances together.
    pub error: i64,
}

/// Run state of an environment.
#[derive(Debug, Clone, PartialEq, Eq)]
pub struct EnvStatus {
    pub environment_id: String,
    pub instances: EnvInstanceCounts,
}

/// Application settings.
#[derive(Debug, Clone, PartialEq, Eq)]
pub struct AppSettingsView {
    pub developer_mode: bool,
    pub env_label_position: String,
    pub env_label_color: String,
    /// Empty means `about:blank`.
    pub default_start_url: String,
    pub remote_access_enabled: bool,
    pub remote_access_ssh_target: String,
    pub remote_access_token: String,
}

/// Login-profile state.
#[derive(Debug, Clone, Copy, PartialEq, Eq, Structural)]
pub enum LoginProfileStatus {
    NotConfigured,
    Ready,
    Capturing,
    Error,
    /// A state this client does not know.
    Unknown,
}

/// A login profile of one environment.
#[derive(Debug, Clone, PartialEq, Eq)]
pub struct LoginProfileView {
    pub id: String,
    pub name: String,
    pub status: LoginProfileStatus,
    pub snapshot_version: i64,
    pub instances_using: i64,
    pub last_captured_at: Option<i64>,
    /// Whether the login browser is running (derived, not stored).
    pub browser_running: bool,
    /// DevTools port of the running login browser.
    pub cdp_port: Option<u16>,
}

/// A login profile in the list of all profiles.
#[derive(Debug, Clone, PartialEq, Eq)]
pub struct LoginProfileRow {
    pub id: String,
    pub environment_id: String,
    pub environment_name: String,
    pub name: String,
    pub status: LoginProfileStatus,
    pub snapshot_version: i64,
    pub instances_using: i64,
    pub last_captured_at: Option<i64>,
    pub browser_running: bool,
}

/// Light-weight state of one instance.
#[derive(Debug, Clone, PartialEq, Eq)]
pub struct InstanceStatusView {
    pub id: String,
    pub status: InstanceStatus,
    pub pid: Option<u32>,
    pub cdp_port: Option<u16>,
    pub browser_version: Option<String>,
}

/// Answer to a kernel download request; `ok == false` means one is already running.
#[derive(Debug, Clone, PartialEq, Eq)]
pub struct KernelDownloadResult {
    pub ok: bool,
    pub downloading: bool,
}

/// Answer to a kernel download cancellation.
#[derive(Debug, Clone, PartialEq, Eq)]
pub struct KernelCancelResult {
    pub ok: bool,
}

} // verus!
