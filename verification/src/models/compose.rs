//! The structure of a `docker-compose.yml` file.
//!
//! Maps of the file are held as key/value vectors in key order.
use vstd::prelude::*;
use crate::text::owned;

verus! {

/// Top level of a compose file.
#[derive(Debug, Clone, PartialEq, Eq)]
pub struct DockerCompose {
    /// Compose file version.
    pub version: Option<String>,
    /// Services, by name.
    pub services: Vec<(String, ComposeService)>,
    /// Networks, by name.
    pub networks: Vec<(String, ComposeNetwork)>,
    /// Volumes, by name.
    pub volumes: Vec<(String, ComposeVolume)>,
}

/// A compose service.
#[derive(Debug, Clone, PartialEq, Eq)]
pub struct ComposeService {
    /// Image.
    pub image: Option<String>,
    /// Container name.
    pub container_name: Option<String>,
    /// Command.
    pub command: Option<Vec<String>>,
    /// Restart policy.
    pub restart: Option<String>,
    /// Network mode.
    pub network_mode: Option<String>,
    /// Attached networks, by name.
    pub networks: Option<Vec<(String, ComposeServiceNetwork)>>,
    /// Port mappings as written in the file.
    pub ports: Option<Vec<String>>,
    /// Volume mounts as written in the file.
    pub volumes: Option<Vec<String>>,
    /// Environment entries.
    pub environment: Option<Vec<String>>,
    /// Environment files.
    pub env_file: Option<Vec<String>>,
    /// Container labels.
    pub labels: Option<Vec<String>>,
    /// Dependencies, by service name.
    pub depends_on: Option<Vec<(String, DependsOnCondition)>>,
    /// Health check.
    pub healthcheck: Option<ComposeHealthCheck>,
    /// User to run as.
    pub user: Option<String>,
    /// Logging configuration.
    pub logging: Option<ComposeLogging>,
}

/// A service's attachment to a network.
#[derive(Debug, Clone, PartialEq, Eq)]
pub struct ComposeServiceNetwork {
    /// Aliases on that network.
    pub aliases: Option<Vec<String>>,
}

/// A dependency condition.
#[derive(Debug, Clone, PartialEq, Eq)]
pub struct DependsOnCondition {
    /// Condition, such as `service_started`.
    pub condition: String,
}

/// A health check.
#[derive(Debug, Clone, PartialEq, Eq)]
pub struct ComposeHealthCheck {
    /// Test command.
    pub test: Option<Vec<String>>,
    /// Interval.
    pub interval: Option<String>,
    /// Timeout.
    pub timeout: Option<String>,
    /// Retries.
    pub retries: Option<u32>,
    /// Start period.
    pub start_period: Option<String>,
}

/// Logging configuration.
#[derive(Debug, Clone, PartialEq, Eq)]
pub struct ComposeLogging {
    /// Logging driver.
    pub driver: String,
    /// Driver options, by name.
    pub options: Option<Vec<(String, String)>>,
}

/// A compose network.
#[derive(Debug, Clone, PartialEq, Eq)]
pub struct ComposeNetwork {
    /// Whether the network is external.
    pub external: Option<bool>,
    /// Network name.
    pub name: Option<String>,
    /// Network driver.
    pub driver: Option<String>,
}

/// A compose volume.
#[derive(Debug, Clone, PartialEq, Eq)]
pub struct ComposeVolume {
    /// Whether the volume is external.
    pub external: Option<bool>,
    /// Volume name.
    pub name: Option<String>,
}

/// The views of a list of string pairs.
pub open spec fn pair_views(s: Seq<(String, String)>) -> Seq<(Seq<char>, Seq<char>)> {
    s.map_values(|p: (String, String)| (p.0@, p.1@))
}

impl ComposeLogging {
    /// A `json-file` logging configuration whose files grow to at most `max_size`.
    pub fn json_file(max_size: &str) -> (r: ComposeLogging)
        ensures
            r.driver@ == "json-file"@,
            r.options matches Some(opts) && pair_views(opts@) == seq![("max-size"@, max_size@)],
    {
        let mut opts: Vec<(String, String)> = Vec::new();
        opts.push((owned("max-size"), owned(max_size)));
        assert(pair_views(opts@) =~= seq![("max-size"@, max_size@)]);
        ComposeLogging { driver: owned("json-file"), options: Some(opts) }
    }
}

} // verus!
