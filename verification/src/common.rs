//! The daemon's configuration and the policies it is made of.

use vstd::prelude::*;

verus! {

/// What to make of a container that lacks the environment variable.
#[derive(Clone, Copy, Debug, PartialEq, Eq, Structural)]
pub enum MissingEnvVarHandling {
    /// Always an error.
    Report,
    /// Never an error.
    Ignore,
    /// An error for containers that were named explicitly, not for those
    /// that enumeration found.
    Automatic,
}

/// What to make of a container that cannot be inspected.
#[derive(Clone, Copy, Debug, PartialEq, Eq, Structural)]
pub enum MissingContainerHandling {
    /// Always an error.
    Report,
    /// An error only for containers that were named explicitly, and then a
    /// mild one.
    Ignore,
}

/// How loudly an event is written to the log.
#[derive(Clone, Copy, Debug, PartialEq, Eq, Structural)]
pub enum LogLevel {
    Error,
    Warn,
    Info,
    Debug,
}

/// Settings of one run of the daemon. Built once, never changed while the
/// loop runs.
#[derive(Clone, Debug)]
pub struct Config {
    /// Host name or address of the registry.
    pub redis_host: String,
    /// Port of the registry.
    pub redis_port: u16,
    /// Prefix of every key written to the registry.
    pub key_prefix: String,
    /// Where the container runtime listens.
    pub docker_url: String,
    /// Ask the container runtime for all running containers on each pass.
    pub enumerate: bool,
    /// Name of the environment variable that holds the domain specs.
    pub envvar: String,
    /// Inspect, but publish nothing.
    pub dry_run: bool,
    /// Lifetime of a published entry; `None` for entries that stay.
    pub expire_seconds: Option<u32>,
    /// Pause between two passes; `None` runs one pass and stops.
    pub refresh_seconds: Option<u32>,
    /// Route to the container's host name instead of its bridge address.
    pub docker_network: bool,
    pub missing_envvar: MissingEnvVarHandling,
    pub missing_container: MissingContainerHandling,
    /// Talk to the service manager.
    pub systemd: bool,
    /// The service manager's watchdog interval in microseconds; `None`
    /// where it expects no heartbeat.
    pub watchdog_microseconds: Option<u64>,
}

impl Default for Config {
    /// A local registry and container runtime, a pass every 27 seconds with
    /// entries that live for 60, explicit containers only, no service
    /// manager.
    fn default() -> (config: Config)
        ensures
            config.redis_host@ == "localhost"@,
            config.redis_port == 6379,
            config.key_prefix@ == "/beachhead/"@,
            config.docker_url@ == "unix://var/run/docker.sock"@,
            !config.enumerate,
            config.envvar@ == "BEACHHEAD_DOMAINS"@,
            !config.dry_run,
            config.expire_seconds == Some(60u32),
            config.refresh_seconds == Some(27u32),
            !config.docker_network,
            config.missing_envvar == MissingEnvVarHandling::Automatic,
            config.missing_container == MissingContainerHandling::Ignore,
            !config.systemd,
            config.watchdog_microseconds is None,
    {
        Config {
            redis_host: "localhost".to_owned(),
            redis_port: 6379,
            key_prefix: "/beachhead/".to_owned(),
            docker_url: "unix://var/run/docker.sock".to_owned(),
            enumerate: false,
            envvar: "BEACHHEAD_DOMAINS".to_owned(),
            dry_run: false,
            expire_seconds: Some(60),
            refresh_seconds: Some(27),
            docker_network: false,
            missing_envvar: MissingEnvVarHandling::Automatic,
            missing_container: MissingContainerHandling::Ignore,
            systemd: false,
            watchdog_microseconds: None,
        }
    }
}

} // verus!
