//! Applications and their services, as the library models a compose project.
use vstd::prelude::*;
use crate::models::middleware::Middleware;

verus! {

/// One home-lab application: one Docker Compose project.
#[derive(Debug, Clone, PartialEq, Eq)]
pub struct App {
    /// Application name (its directory name).
    pub name: String,
    /// Free-form description.
    pub description: String,
    /// Directory of the application.
    pub path: String,
    /// Data root overriding the global one, if any.
    pub data_root: Option<String>,
    /// The services of the compose project.
    pub services: Vec<Service>,
}

/// One service of a compose project.
#[derive(Debug, Clone, PartialEq, Eq)]
pub struct Service {
    /// Service key in the compose file.
    pub name: String,
    /// Docker image.
    pub image: String,
    /// Command overriding the image default, if any.
    pub command: Option<Vec<String>>,
    /// Ports the container listens on.
    pub internal_ports: Vec<u16>,
    /// Network mode.
    pub network_mode: NetworkMode,
    /// Traefik routes.
    pub routes: Vec<TraefikRoute>,
    /// Host port mappings.
    pub port_mappings: Vec<PortMapping>,
    /// Volume mounts.
    pub volumes: Vec<Volume>,
    /// Mounts of shared resources.
    pub shared_mounts: Vec<SharedResourceMount>,
    /// Environment variables, as key/value pairs with distinct keys.
    pub env_vars: Vec<(String, String)>,
    /// Database configuration.
    pub database: DatabaseConfig,
    /// Traefik file middlewares applied to the service's routers.
    pub middlewares: Vec<Middleware>,
}

/// Network mode of a service.
#[derive(Debug, Clone, PartialEq, Eq)]
pub enum NetworkMode {
    /// Bridge networking.
    Bridge,
    /// Host networking.
    Host,
    /// A named external Docker network.
    External(String),
}

/// A Traefik route of a service.
#[derive(Debug, Clone, PartialEq, Eq)]
pub struct TraefikRoute {
    /// Host name the route answers.
    pub subdomain: String,
    /// URL path prefix, if any.
    pub path_prefix: Option<String>,
    /// Whether the router has TLS enabled.
    pub tls: bool,
}

/// A host port mapped to a container port.
#[derive(Debug, Clone, Copy, PartialEq, Eq, Structural)]
pub struct PortMapping {
    /// Port on the host.
    pub host_port: u16,
    /// Port in the container.
    pub container_port: u16,
    /// Transport protocol.
    pub protocol: PortProtocol,
}

/// Transport protocol of a port mapping.
#[derive(Debug, Clone, Copy, PartialEq, Eq, Structural)]
pub enum PortProtocol {
    /// TCP.
    Tcp,
    /// UDP.
    Udp,
}

/// Database used by a service.
#[derive(Debug, Clone, PartialEq, Eq)]
pub enum DatabaseConfig {
    /// No database managed here.
    NoDatabase,
    /// A database on the shared infrastructure PostgreSQL.
    SharedPostgres {
        /// Database name.
        db_name: String,
        /// Database user.
        user: String,
        /// Whether the database and user are created automatically.
        auto_create: bool,
    },
}

/// A volume mount.
#[derive(Debug, Clone, PartialEq, Eq)]
pub struct Volume {
    /// Path on the host.
    pub host_path: String,
    /// Path in the container.
    pub container_path: String,
    /// Whether the mount is read-only.
    pub read_only: bool,
}

/// A shared resource defined in the global configuration.
#[derive(Debug, Clone, PartialEq, Eq)]
pub struct SharedResource {
    /// Resource name.
    pub name: String,
    /// Resource path on the host.
    pub path: String,
    /// Description.
    pub description: String,
    /// Whether it is mounted read-only.
    pub read_only: bool,
    /// Owning UID.
    pub uid: Option<u32>,
    /// Owning GID.
    pub gid: Option<u32>,
}

/// A service's mount of a shared resource.
#[derive(Debug, Clone, PartialEq, Eq)]
pub struct SharedResourceMount {
    /// Name of the shared resource.
    pub resource_name: String,
    /// Mount point in the container.
    pub container_path: String,
    /// Whether the mount is read-only.
    pub read_only: bool,
}

} // verus!
