//! Configuration of the deployment plugin (the `[deploy]` table of `config.toml`).

use vstd::prelude::*;

verus! {

pub struct Configs {
    pub deploy: DeployConfig,
}

pub struct DeployConfig {
    pub group_id: String,
    pub admin_qq: Vec<String>,
    pub remote_image: String,
    pub local_image: String,
    pub older_image: String,
    pub project_dir: String,
    pub pull_retries: u32,
    pub health_timeout_secs: u64,
    pub health_poll_interval_secs: u64,
    pub caddy_import_file: String,
    pub caddy_template: String,
    pub docker_run: DockerRunConfig,
}

pub struct DockerRunConfig {
    pub common_args: Vec<String>,
    pub slots: SlotsConfig,
}

pub struct SlotsConfig {
    pub a: SlotConfig,
    pub b: SlotConfig,
}

pub struct SlotConfig {
    pub name: String,
    pub host_port: u16,
    pub container_port: u16,
}

/// How often an image pull is tried when `pull_retries` is not configured.
pub fn default_pull_retries() -> (r: u32)
    ensures
        r == 5,
{
    5
}

/// Seconds to wait for a new container to become healthy when not configured.
pub fn default_health_timeout() -> (r: u64)
    ensures
        r == 180,
{
    180
}

/// Seconds between two health polls when not configured.
pub fn default_health_poll_interval() -> (r: u64)
    ensures
        r == 3,
{
    3
}

} // verus!
