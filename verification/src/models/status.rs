//! Runtime state of the containers of an application.
use vstd::prelude::*;

verus! {

/// Runtime state of an application's services.
#[derive(Debug, Clone, PartialEq, Eq)]
pub struct AppStatus {
    /// Application name.
    pub app_name: String,
    /// State of each service.
    pub services: Vec<ServiceStatus>,
}

/// Runtime state of one service.
#[derive(Debug, Clone, PartialEq, Eq)]
pub struct ServiceStatus {
    /// Service name.
    pub name: String,
    /// Container state.
    pub state: ContainerState,
    /// Host names routed to the service.
    pub routes: Vec<String>,
}

/// State of a container.
#[derive(Debug, Clone, Copy, PartialEq, Eq, Structural)]
pub enum ContainerState {
    /// Running.
    Running,
    /// Stopped or exited.
    Stopped,
    /// Paused.
    Paused,
    /// No container found.
    NotFound,
    /// A state Docker reported that is not recognised.
    Unknown,
}

} // verus!
