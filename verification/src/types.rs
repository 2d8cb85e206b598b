//! The data model shared by the daemon, its tools and its services.
//!
//! Points in time are `Timestamp`s (seconds and nanoseconds since the Unix
//! epoch), and string maps are association lists of `(key, value)` pairs.
use vstd::prelude::*;

verus! {

/// A point in time, as seconds and nanoseconds since the Unix epoch.
#[derive(Debug, Clone, Copy, PartialEq, Eq, Structural)]
pub struct Timestamp {
    pub secs: u64,
    pub nanos: u32,
}

/// The state of a container.
#[derive(Debug, Clone)]
pub enum ContainerStatus {
    Creating,
    Running,
    Stopped,
    Paused,
    Error(String),
}

/// When a container is restarted.
#[derive(Debug, Clone)]
pub enum RestartPolicy {
    /// Never restarted.
    NoRestart,
    Always,
    OnFailure(u32),
    UnlessStopped,
}

/// How a container's health is checked.
#[derive(Debug, Clone)]
pub struct HealthCheck {
    pub test: Vec<String>,
    pub interval: u32,
    pub timeout: u32,
    pub retries: u32,
    pub start_period: u32,
}

/// The kind of a mount.
#[derive(Debug, Clone, Copy, PartialEq, Eq, Structural)]
pub enum MountType {
    Bind,
    Volume,
    Tmpfs,
}

/// How the contents of a bind mount are kept consistent.
#[derive(Debug, Clone, Copy, PartialEq, Eq, Structural)]
pub enum Consistency {
    Default,
    Consistent,
    Delegated,
    Cached,
}

/// A mount of a container.
#[derive(Debug, Clone)]
pub struct VolumeMount {
    pub mount_type: MountType,
    pub host_path: Option<String>,
    pub volume_name: Option<String>,
    pub container_path: String,
    pub read_only: bool,
    pub driver: Option<String>,
    pub labels: Option<Vec<(String, String)>>,
    pub consistency: Option<Consistency>,
    pub tmpfs_size: Option<u64>,
    pub tmpfs_mode: Option<u32>,
}

/// How a container is attached to a network.
#[derive(Debug, Clone)]
pub struct NetworkConfig {
    pub network_name: String,
    pub static_ip: Option<String>,
    pub hostname: Option<String>,
    pub aliases: Option<Vec<String>>,
    pub network_mode: Option<String>,
    pub enable_ipv6: bool,
}

/// An image.
#[derive(Debug, Clone)]
pub struct ImageInfo {
    pub id: String,
    pub name: String,
    pub tags: Vec<String>,
    pub size: u64,
    pub created_at: Timestamp,
    pub architecture: String,
    pub os: String,
}

/// A network.
#[derive(Debug, Clone)]
pub struct NetworkConfigInfo {
    pub name: String,
    pub network_type: String,
    pub subnet: String,
    pub gateway: String,
    pub containers: Vec<String>,
}

/// Where and how much the daemon logs.
#[derive(Debug, Clone)]
pub struct LogConfig {
    pub log_level: String,
    pub log_file: String,
    pub max_log_size: u32,
}

/// A volume.
#[derive(Debug, Clone)]
pub struct VolumeInfo {
    pub id: String,
    pub name: String,
    pub size: u64,
    pub created_at: Timestamp,
    pub mount_point: String,
    pub driver: String,
    pub labels: Vec<(String, String)>,
    pub used_by: Vec<String>,
}

/// The host the daemon runs on.
#[derive(Debug, Clone)]
pub struct SystemInfo {
    pub os_type: String,
    pub os_version: String,
    pub kernel_version: String,
    pub architecture: String,
    pub hostname: String,
    pub cpu_cores: u32,
    pub total_memory: u32,
}

/// The state of the daemon.
#[derive(Debug, Clone)]
pub enum DockerDaemonStatus {
    Running,
    Stopped,
    Error(String),
}

/// How many containers run.
#[derive(Debug, Clone, Copy, PartialEq, Eq, Structural)]
pub struct ContainerStats {
    pub running: u32,
    pub stopped: u32,
    pub total: u32,
}

/// The state of a service.
#[derive(Debug, Clone)]
pub enum ServiceStatus {
    Created,
    Running,
    Updating,
    Error(String),
}

/// The role of a swarm node.
#[derive(Debug, Clone, Copy, PartialEq, Eq, Structural)]
pub enum NodeRole {
    Manager,
    Worker,
}

/// Whether a swarm node takes work.
#[derive(Debug, Clone, Copy, PartialEq, Eq, Structural)]
pub enum NodeAvailability {
    Active,
    Pause,
    Drain,
}

/// The health of a swarm node.
#[derive(Debug, Clone, Copy, PartialEq, Eq, Structural)]
pub enum NodeStatus {
    Ready,
    Down,
    Unknown,
}

/// A swarm node.
#[derive(Debug, Clone)]
pub struct NodeInfo {
    pub id: String,
    pub name: String,
    pub role: NodeRole,
    pub availability: NodeAvailability,
    pub status: NodeStatus,
    pub address: String,
    pub version: String,
    pub containers_running: u32,
    pub labels: Vec<(String, String)>,
}

/// A swarm.
#[derive(Debug, Clone)]
pub struct SwarmInfo {
    pub id: String,
    pub name: Option<String>,
    pub managers: u32,
    pub workers: u32,
    pub services: u32,
    pub tasks: u32,
    pub version: String,
    pub created_at: Timestamp,
}

/// A configuration object.
#[derive(Debug, Clone)]
pub struct ConfigInfo {
    pub id: String,
    pub name: String,
    pub data: String,
    pub created_at: Timestamp,
    pub labels: Vec<(String, String)>,
}

/// A secret.
#[derive(Debug, Clone)]
pub struct SecretInfo {
    pub id: String,
    pub name: String,
    pub created_at: Timestamp,
    pub labels: Vec<(String, String)>,
    pub digest: String,
}

/// Where a daemon endpoint runs.
#[derive(Debug, Clone, Copy, PartialEq, Eq, Structural)]
pub enum EndpointType {
    Local,
    Remote,
    Cloud,
}

/// The connection state of a daemon endpoint.
#[derive(Debug, Clone)]
pub enum EndpointStatus {
    Connected,
    Connecting,
    Failed(String),
    Disconnected,
}

/// A daemon endpoint.
#[derive(Debug, Clone)]
pub struct EndpointConfig {
    pub id: String,
    pub name: String,
    pub endpoint_type: EndpointType,
    pub url: String,
    pub use_tls: bool,
    pub tls_cert_path: Option<String>,
    pub tls_key_path: Option<String>,
    pub tls_ca_path: Option<String>,
    pub auth_token: Option<String>,
    pub labels: Vec<(String, String)>,
}

/// A daemon endpoint and its connection.
#[derive(Debug, Clone)]
pub struct EndpointInfo {
    pub config: EndpointConfig,
    pub status: EndpointStatus,
    pub created_at: Timestamp,
    pub last_connected_at: Option<Timestamp>,
    pub connection_info: Option<SystemInfo>,
}

} // verus!
