use vstd::prelude::*;

verus! {

/// One task that a machine can be asked to run over ssh.
#[derive(Clone, Debug, PartialEq, Eq)]
pub struct TaskCfg {
    /// Program and arguments run on the machine.
    pub command: Vec<String>,
    pub icon_url: String,
    pub name: String,
}

/// Configuration of one machine.
#[derive(Clone, Debug, PartialEq, Eq)]
pub struct MachineCfg {
    /// Host, or `host:port`, of the machine.
    pub ip: String,
    /// MAC address that wake packets are sent to.
    pub mac: String,
    pub ssh_port: u16,
    /// The tasks that `Task::id` indexes.
    pub tasks: Vec<TaskCfg>,
}

#[derive(Clone, Debug, PartialEq, Eq)]
pub struct SshConfig {
    /// Private key used for outbound ssh connections.
    pub private_key_file: String,
}

/// Process-wide configuration: the machines by name, and the ssh settings.
#[derive(Clone, Debug, PartialEq, Eq)]
pub struct Config {
    pub machines: Vec<(String, MachineCfg)>,
    pub ssh: SshConfig,
}

/// The ssh port used when the configuration names none.
pub fn default_ssh_port() -> (r: u16)
    ensures
        r == 22,
{
    22
}

} // verus!
