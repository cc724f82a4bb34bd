//! The settings of a run's environment, and the configurations of sandboxes that are made from
//! them.

use vstd::prelude::*;

verus! {

// ---------------------------------------------------------------------------
// Settings
// ---------------------------------------------------------------------------

/// Where a Dockerfile comes from.
#[derive(Debug)]
pub enum DockerfileSource {
    Inline(String),
    Path { path: String },
}

impl Clone for DockerfileSource {
    fn clone(&self) -> (r: DockerfileSource)
        ensures
            r == *self,
    {
        match self {
            DockerfileSource::Inline(text) => DockerfileSource::Inline(text.clone()),
            DockerfileSource::Path { path } => DockerfileSource::Path { path: path.clone() },
        }
    }
}

/// The image of an environment.
#[derive(Debug)]
pub struct EnvironmentImageSettings {
    pub docker: Option<String>,
    pub dockerfile: Option<DockerfileSource>,
}

/// The resources of an environment. Sizes are in bytes.
#[derive(Clone, Copy, Debug)]
pub struct EnvironmentResourcesSettings {
    pub cpu: Option<i32>,
    pub memory: Option<u64>,
    pub disk: Option<u64>,
}

/// How far an environment reaches into the network.
#[derive(Clone, Copy, Debug, PartialEq, Eq, Structural)]
pub enum EnvironmentNetworkMode {
    Block,
    AllowAll,
    CidrAllowList,
}

/// The network of an environment.
#[derive(Debug)]
pub struct EnvironmentNetworkSettings {
    pub mode: EnvironmentNetworkMode,
    pub allow: Vec<String>,
}

/// The lifecycle of an environment.
#[derive(Clone, Copy, Debug)]
pub struct EnvironmentLifecycleSettings {
    /// Seconds.
    pub auto_stop: Option<u64>,
}

/// The egress settings of an ACA environment.
#[derive(Debug)]
pub struct AcaEgressSettings {
    pub allow: Vec<String>,
    pub traffic_inspection: Option<String>,
}

/// What is particular to an ACA environment.
#[derive(Debug)]
pub struct AcaEnvironmentSettings {
    pub region: Option<String>,
    pub resource_group: Option<String>,
    pub sandbox_group: Option<String>,
    pub disk: Option<String>,
    pub region_override: bool,
    pub egress: AcaEgressSettings,
    /// Seconds.
    pub auto_suspend: Option<u64>,
}

impl Default for AcaEnvironmentSettings {
    fn default() -> (r: AcaEnvironmentSettings)
        ensures
            r.region is None,
            r.resource_group is None,
            r.sandbox_group is None,
            r.disk is None,
            !r.region_override,
            r.egress.allow@.len() == 0,
            r.egress.traffic_inspection is None,
            r.auto_suspend is None,
    {
        AcaEnvironmentSettings {
            region: None,
            resource_group: None,
            sandbox_group: None,
            disk: None,
            region_override: false,
            egress: AcaEgressSettings { allow: Vec::new(), traffic_inspection: None },
            auto_suspend: None,
        }
    }
}

/// A piece of a variable's value: text, or a reference to a secret, with the text that it was
/// written as.
#[derive(Debug)]
pub enum ValuePiece {
    Text(String),
    Secret { name: String, source: String },
}

/// A variable of an environment.
#[derive(Debug)]
pub struct EnvSetting {
    pub key: String,
    pub value: Vec<ValuePiece>,
}

/// A label of an environment.
#[derive(Debug)]
pub struct Label {
    pub key: String,
    pub value: String,
}

impl Clone for Label {
    fn clone(&self) -> (r: Label)
        ensures
            r == *self,
    {
        Label { key: self.key.clone(), value: self.value.clone() }
    }
}

/// The kinds of providers.
#[derive(Clone, Copy, Debug, PartialEq, Eq, Structural)]
pub enum SandboxProviderKind {
    Local,
    Docker,
    Daytona,
    Aca,
}

/// The settings of a run's environment.
#[derive(Debug)]
pub struct RunEnvironmentSettings {
    pub id: String,
    pub provider: SandboxProviderKind,
    pub cwd: Option<String>,
    pub image: EnvironmentImageSettings,
    pub resources: EnvironmentResourcesSettings,
    pub network: EnvironmentNetworkSettings,
    pub lifecycle: EnvironmentLifecycleSettings,
    pub labels: Vec<Label>,
    pub env: Vec<EnvSetting>,
    pub aca: AcaEnvironmentSettings,
}

/// Whether and how a run's repository is cloned.
#[derive(Clone, Copy, Debug)]
pub struct RunCloneSettings {
    pub enabled: bool,
    pub depth: Option<i64>,
}

impl RunCloneSettings {
    /// How much history is cloned, where that is limited.
    pub fn depth_limit(&self) -> (r: Option<i64>)
        ensures
            r == self.depth,
    {
        self.depth
    }
}

impl Default for RunCloneSettings {
    fn default() -> (r: RunCloneSettings)
        ensures
            r.enabled,
            r.depth is None,
    {
        RunCloneSettings { enabled: true, depth: None }
    }
}

// ---------------------------------------------------------------------------
// Configurations
// ---------------------------------------------------------------------------

/// What a Daytona snapshot is made from.
#[derive(Debug)]
pub enum DaytonaSnapshotSource {
    Image(String),
    Dockerfile(DockerfileSource),
}

/// The snapshot of a Daytona sandbox. Sizes are in gigabytes.
#[derive(Debug)]
pub struct DaytonaSnapshotSettings {
    pub cpu: Option<i32>,
    pub memory: Option<i32>,
    pub disk: Option<i32>,
    pub source: DaytonaSnapshotSource,
}

/// The network of a Daytona sandbox.
#[derive(Debug)]
pub enum DaytonaNetwork {
    Block,
    AllowAll,
    AllowList(Vec<String>),
}

/// What a Daytona sandbox is created from.
#[derive(Debug)]
pub struct DaytonaConfig {
    /// Minutes.
    pub auto_stop_interval: Option<i32>,
    pub labels: Option<Vec<Label>>,
    pub snapshot: Option<DaytonaSnapshotSettings>,
    pub network: Option<DaytonaNetwork>,
    pub clone_depth: Option<i64>,
    pub skip_clone: bool,
}

/// What a Docker sandbox is created from.
#[derive(Debug)]
pub struct DockerSandboxOptions {
    pub image: String,
    pub network_mode: Option<String>,
    pub memory_limit: Option<i64>,
    pub cpu_quota: Option<i64>,
    pub env_vars: Vec<String>,
    pub clone_depth: Option<usize>,
    pub skip_clone: bool,
}

impl Default for DockerSandboxOptions {
    fn default() -> (r: DockerSandboxOptions)
        ensures
            r.image@.len() == 0,
            r.network_mode is None,
            r.memory_limit is None,
            r.cpu_quota is None,
            r.env_vars@.len() == 0,
            r.clone_depth is None,
            !r.skip_clone,
    {
        DockerSandboxOptions {
            image: String::new(),
            network_mode: None,
            memory_limit: None,
            cpu_quota: None,
            env_vars: Vec::new(),
            clone_depth: None,
            skip_clone: false,
        }
    }
}

/// Where a Docker or Daytona sandbox has its workspace.
pub const WORKING_DIRECTORY: &'static str = "/workspace";

/// Where a Docker or Daytona sandbox has its repositories.
pub const REPOS_ROOT: &'static str = "/repos";

} // verus!
