use vstd::prelude::*;

verus! {

/// Failure to talk to a machine's agent.
#[derive(Clone, Debug, PartialEq, Eq)]
pub enum AgentComunicationError {
    /// No agent is connected for the machine.
    NotConnected,
    /// The transport refused the message; the text says why.
    SendFailed(String),
}

/// Failure to open a remote desktop session on a machine.
#[derive(Clone, Debug, PartialEq, Eq)]
pub enum OpenVdiError {
    AgentComunicationError(AgentComunicationError),
    /// A session is already open and has not been reported closed.
    AlreadyOpened,
}

} // verus!
