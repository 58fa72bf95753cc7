//! The observed service: its running state and the commands that change it.
//!
//! Nothing here talks to a service manager. The caller probes and issues
//! commands; this module names the states and commands and says which command
//! a toggle calls for.

use vstd::prelude::*;
use vstd::string::*;

verus! {

/// Whether the service is running, as the service manager reported it at the
/// instant of a probe.
#[derive(Clone, Copy, Debug, PartialEq, Eq, Structural)]
pub enum ServiceState {
    Active,
    Inactive,
}

impl ServiceState {
    /// The other state.
    pub open spec fn spec_complement(self) -> ServiceState {
        match self {
            ServiceState::Active => ServiceState::Inactive,
            ServiceState::Inactive => ServiceState::Active,
        }
    }

    /// The state that stands for a probe's boolean answer.
    pub open spec fn spec_from_active(is_active: bool) -> ServiceState {
        if is_active {
            ServiceState::Active
        } else {
            ServiceState::Inactive
        }
    }

    /// Whether this is the running state.
    pub open spec fn spec_is_active(self) -> bool {
        self == ServiceState::Active
    }

    /// The other state: what a successful toggle leads to.
    #[verifier::when_used_as_spec(spec_complement)]
    pub fn complement(self) -> (next: ServiceState)
        ensures
            next == self.spec_complement(),
    {
        match self {
            ServiceState::Active => ServiceState::Inactive,
            ServiceState::Inactive => ServiceState::Active,
        }
    }

    /// Turns the boolean answer of a probe into a state.
    #[verifier::when_used_as_spec(spec_from_active)]
    pub fn from_active(is_active: bool) -> (state: ServiceState)
        ensures
            state == ServiceState::spec_from_active(is_active),
    {
        if is_active {
            ServiceState::Active
        } else {
            ServiceState::Inactive
        }
    }

    /// Whether this is the running state.
    #[verifier::when_used_as_spec(spec_is_active)]
    pub fn is_active(self) -> (active: bool)
        ensures
            active == self.spec_is_active(),
    {
        match self {
            ServiceState::Active => true,
            ServiceState::Inactive => false,
        }
    }
}

/// A lifecycle command for the service manager.
#[derive(Clone, Copy, Debug, PartialEq, Eq, Structural)]
pub enum ServiceCommand {
    Stop,
    Restart,
}

impl ServiceCommand {
    /// The command that toggles a service found in `state`: a running service
    /// is stopped, a stopped one is restarted so that a clean instance comes up.
    pub open spec fn spec_toggling(state: ServiceState) -> ServiceCommand {
        match state {
            ServiceState::Active => ServiceCommand::Stop,
            ServiceState::Inactive => ServiceCommand::Restart,
        }
    }

    /// The command that toggles a service found in `state`.
    #[verifier::when_used_as_spec(spec_toggling)]
    pub fn toggling(state: ServiceState) -> (command: ServiceCommand)
        ensures
            command == ServiceCommand::spec_toggling(state),
    {
        match state {
            ServiceState::Active => ServiceCommand::Stop,
            ServiceState::Inactive => ServiceCommand::Restart,
        }
    }
}

/// The unit under observation, known by its name.
pub struct Service {
    name: String,
}

impl Service {
    /// The unit's name.
    pub closed spec fn spec_name(&self) -> Seq<char> {
        self.name@
    }

    /// A handle on the unit called `name`.
    pub fn new(name: &str) -> (service: Service)
        ensures
            service.spec_name() == name@,
    {
        Service { name: String::from_str(name) }
    }

    /// The unit's name.
    pub fn name(&self) -> (name: &str)
        ensures
            name@ == self.spec_name(),
    {
        self.name.as_str()
    }
}

} // verus!
