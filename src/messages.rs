use vstd::prelude::*;
use crate::application::ApplicationInfo;

verus! {

/// First message of an agent: which machine it runs on and what is installed.
#[derive(Clone, Debug, PartialEq, Eq)]
pub struct AgentHello {
    pub machine_name: String,
    pub applications: Vec<ApplicationInfo>,
}

/// Messages from an agent to the backend.
#[derive(Clone, Debug, PartialEq, Eq)]
pub enum AgentMessage {
    Hello(AgentHello),
    VdiCertificateHash(Vec<u8>),
    VdiClosed,
}

/// Messages from the backend to an agent.
#[derive(Clone, Copy, Debug, PartialEq, Eq, Structural)]
pub enum ServerMessage {
    OpenVdi,
}

} // verus!
