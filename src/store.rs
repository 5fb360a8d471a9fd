use vstd::prelude::*;
use crate::config::Config;
use crate::application::catalog_grouped;
use crate::machine::{Endpoint, MachineInfos, shutdown_command, Machine, PushedTask, Task};
use crate::messages::{AgentMessage, ServerMessage};
use crate::responses::OpenVdiError;
use crate::state::State;
use crate::text::join;
use crate::wol::sent_as;

verus! {

/// Why an agent's first message was turned away.
#[derive(Clone, Debug, PartialEq, Eq)]
pub enum AgentHelloError {
    /// The first message was not a hello.
    NotHello,
    /// The hello named no configured machine.
    UnknownMachine(String),
}

/// Text of the error for a machine whose wake timeouts cannot be counted.
pub open spec fn wake_overflow_text(name: Seq<char>) -> Seq<char> {
    "Too many wake requests pending for machine "@ + name
}

/// All managed machines.
#[derive(Debug)]
pub struct StoreInner {
    pub machines: Vec<Machine>,
}

impl StoreInner {
    pub open spec fn wf(&self) -> bool {
        forall|i: int| 0 <= i < self.machines@.len() ==> (#[trigger] self.machines@[i]).wf()
    }

    /// `i` is the first machine with this name.
    pub open spec fn named(&self, name: Seq<char>, i: int) -> bool {
        &&& 0 <= i < self.machines@.len()
        &&& self.machines@[i].infos.name@ == name
        &&& forall|j: int| 0 <= j < i ==> (#[trigger] self.machines@[j]).infos.name@ != name
    }

    /// Whether some machine has this name.
    pub open spec fn has(&self, name: Seq<char>) -> bool {
        exists|i: int| 0 <= i < self.machines@.len() && (#[trigger] self.machines@[i]).infos.name@ == name
    }

    pub fn new(machines: Vec<Machine>) -> (r: StoreInner)
        requires
            forall|i: int| 0 <= i < machines@.len() ==> (#[trigger] machines@[i]).wf(),
        ensures
            r.wf(),
            r.machines == machines,
    {
        StoreInner { machines }
    }

    /// The registry of a configuration: one machine per configured entry,
    /// in order, with the entry's name and settings, the endpoint resolved
    /// for it, and the configured ssh key.
    pub fn from_config(config: Config, endpoints: Vec<Endpoint>) -> (r: StoreInner)
        requires
            endpoints@.len() == config.machines@.len(),
        ensures
            r.wf(),
            r.machines@.len() == config.machines@.len(),
            forall|k: int|
                0 <= k < r.machines@.len() ==> Machine::is_fresh(
                    #[trigger] r.machines@[k],
                    config.machines@[k].1,
                    config.machines@[k].0,
                    endpoints@[k],
                    config.ssh.private_key_file,
                ),
    {
        let ghost entries = config.machines@;
        let ghost addrs = endpoints@;
        let key = config.ssh.private_key_file;
        let mut rest = config.machines;
        let mut rest_addrs = endpoints;
        let n = rest.len();
        let mut machines: Vec<Machine> = Vec::new();
        let mut k: usize = 0;
        while k < n
            invariant
                n == entries.len(),
                n == addrs.len(),
                k <= n,
                rest@ == entries.subrange(k as int, n as int),
                rest_addrs@ == addrs.subrange(k as int, n as int),
                machines@.len() == k,
                forall|j: int| 0 <= j < k ==> (#[trigger] machines@[j]).wf(),
                forall|j: int|
                    0 <= j < k ==> Machine::is_fresh(
                        #[trigger] machines@[j],
                        entries[j].1,
                        entries[j].0,
                        addrs[j],
                        key,
                    ),
            decreases n - k,
        {
            assert(rest@[0] == entries[k as int]);
            assert(rest_addrs@[0] == addrs[k as int]);
            let (name, cfg) = rest.remove(0);
            let addr = rest_addrs.remove(0);
            let m = Machine::new(cfg, name, addr, key.clone());
            machines.push(m);
            assert(rest@ =~= entries.subrange(k + 1, n as int));
            assert(rest_addrs@ =~= addrs.subrange(k + 1, n as int));
            k = k + 1;
        }
        StoreInner { machines }
    }

    /// Index of the first machine with this name.
    pub fn position(&self, name: &str) -> (r: Option<usize>)
        ensures
            r matches Some(i) ==> self.named(name@, i as int),
            r is None <==> !self.has(name@),
    {
        let target = String::from_str(name);
        let mut i: usize = 0;
        while i < self.machines.len()
            invariant
                i <= self.machines@.len(),
                target@ == name@,
                forall|j: int| 0 <= j < i ==> (#[trigger] self.machines@[j]).infos.name@ != name@,
            decreases self.machines@.len() - i,
        {
            if self.machines[i].infos.name == target {
                return Some(i);
            }
            i = i + 1;
        }
        None
    }

    /// The first machine with this name.
    pub fn by_name(&self, name: &str) -> (r: Option<&Machine>)
        ensures
            r matches Some(m) ==> exists|i: int| self.named(name@, i) && self.machines@[i] == *m,
            r is None <==> !self.has(name@),
    {
        match self.position(name) {
            Some(i) => Some(&self.machines[i]),
            None => None,
        }
    }

    /// Wakes the machine with this name (see `Machine::wake`); `None` when
    /// there is none.
    pub fn wake(&mut self, name: &str, dry_run: bool) -> (r: Option<Result<Option<Vec<u8>>, String>>)
        requires
            old(self).wf(),
        ensures
            final(self).wf(),
            r is None <==> !old(self).has(name@),
            r is None ==> final(self).machines@ == old(self).machines@,
            forall|i: int|
                old(self).named(name@, i) ==> {
                    let m = old(self).machines@[i];
                    &&& m.wake_checks < u64::MAX ==> {
                        &&& final(self).machines@ == old(self).machines@.update(i, Machine::after_wake(m))
                        &&& r matches Some(x) && sent_as(m.infos.config.mac@, dry_run, x)
                    }
                    &&& m.wake_checks == u64::MAX ==> {
                        &&& final(self).machines@ == old(self).machines@
                        &&& r matches Some(Err(e)) && e@ == wake_overflow_text(name@)
                    }
                },
    {
        let i = match self.position(name) {
            None => {
                return None;
            },
            Some(i) => i,
        };
        if self.machines[i].wake_checks == u64::MAX {
            proof {
                reveal_strlit("Too many wake requests pending for machine ");
            }
            return Some(Err(join("Too many wake requests pending for machine ", name)));
        }
        let r = self.machines[i].wake(dry_run);
        Some(r)
    }

    /// Expiry of a wake timeout of the machine with this name (see
    /// `Machine::wake_timeout_expired`); nothing when there is none.
    pub fn wake_timeout_expired(&mut self, name: &str)
        requires
            old(self).wf(),
        ensures
            final(self).wf(),
            !old(self).has(name@) ==> final(self).machines@ == old(self).machines@,
            forall|i: int|
                old(self).named(name@, i) ==> final(self).machines@ == old(self).machines@.update(
                    i,
                    Machine::after_wake_timeout(old(self).machines@[i]),
                ),
    {
        match self.position(name) {
            None => {},
            Some(i) => {
                self.machines[i].wake_timeout_expired();
            },
        }
    }

    /// Shuts down the machine with this name (see `Machine::shutdown`);
    /// `None` when there is none.
    pub fn shutdown(&mut self, name: &str, dry_run: bool) -> (r: Option<Option<Vec<String>>>)
        requires
            old(self).wf(),
        ensures
            final(self).wf(),
            r is None <==> !old(self).has(name@),
            r is None ==> final(self).machines@ == old(self).machines@,
            forall|i: int|
                old(self).named(name@, i) ==> {
                    &&& final(self).machines@ == old(self).machines@.update(
                        i,
                        Machine::after_shutdown(old(self).machines@[i]),
                    )
                    &&& (r matches Some(c) && (c is None <==> dry_run))
                    &&& (r matches Some(Some(c)) ==> c.deep_view() == shutdown_command(
                        old(self).machines@[i],
                    ))
                },
    {
        match self.position(name) {
            None => None,
            Some(i) => Some(self.machines[i].shutdown(dry_run)),
        }
    }

    /// Queues a task on the machine with this name (see
    /// `Machine::push_task`); `None` when there is none.
    pub fn push_task(&mut self, name: &str, task: Task, dry_run: bool) -> (r: Option<
        Result<PushedTask, String>,
    >)
        requires
            old(self).wf(),
        ensures
            final(self).wf(),
            r is None <==> !old(self).has(name@),
            r is None ==> final(self).machines@ == old(self).machines@,
            forall|i: int|
                old(self).named(name@, i) ==> {
                    let m = old(self).machines@[i];
                    ||| m.infos.state == State::Off && m.wake_checks == u64::MAX && task.id < m.infos.config.tasks@.len()
                        && final(self).machines@ == old(self).machines@
                        && (r matches Some(Err(e)) && e@ == wake_overflow_text(name@))
                    ||| !(m.infos.state == State::Off && m.wake_checks == u64::MAX && task.id < m.infos.config.tasks@.len())
                        && final(self).machines@.len() == old(self).machines@.len()
                        && (forall|j: int| 0 <= j < old(self).machines@.len() && j != i ==> final(self).machines@[j] == old(self).machines@[j])
                        && (r matches Some(x) && Machine::push_task_post(m, final(self).machines@[i], task, dry_run, x))
                },
    {
        let i = match self.position(name) {
            None => {
                return None;
            },
            Some(i) => i,
        };
        if self.machines[i].wake_checks == u64::MAX && self.machines[i].infos.state == State::Off
            && task.id < self.machines[i].infos.config.tasks.len() {
            proof {
                reveal_strlit("Too many wake requests pending for machine ");
            }
            return Some(Err(join("Too many wake requests pending for machine ", name)));
        }
        let r = self.machines[i].push_task(task, dry_run);
        proof {
            if task.id >= old(self).machines@[i as int].infos.config.tasks@.len() {
                assert(self.machines@ =~= old(self).machines@);
            }
        }
        Some(r)
    }

    /// Asks the machine with this name to open a remote desktop (see
    /// `Machine::open_vdi`); `None` when there is none.
    pub fn open_vdi(&mut self, name: &str) -> (r: Option<Result<ServerMessage, OpenVdiError>>)
        requires
            old(self).wf(),
        ensures
            final(self).wf(),
            r is None <==> !old(self).has(name@),
            r is None ==> final(self).machines@ == old(self).machines@,
            forall|i: int|
                old(self).named(name@, i) ==> {
                    let m = old(self).machines@[i];
                    &&& final(self).machines@ == old(self).machines@.update(i, Machine::after_open_vdi(m))
                    &&& r == Some(Machine::open_vdi_result(m))
                },
    {
        match self.position(name) {
            None => None,
            Some(i) => Some(self.machines[i].open_vdi()),
        }
    }

    /// Takes an agent's first message on a new connection. A hello for a
    /// known machine attaches the connection and replaces the machine's
    /// application catalog; the replaced connection, if any, is returned
    /// for the caller to tear down. Anything else changes nothing.
    pub fn accept_agent(&mut self, first: AgentMessage, connection: u64) -> (r: Result<
        Option<u64>,
        AgentHelloError,
    >)
        requires
            old(self).wf(),
        ensures
            final(self).wf(),
            !(first is Hello) ==> r == Err::<Option<u64>, AgentHelloError>(AgentHelloError::NotHello)
                && final(self).machines@ == old(self).machines@,
            first matches AgentMessage::Hello(h) ==> {
                &&& !old(self).has(h.machine_name@) ==> final(self).machines@ == old(self).machines@ && r == Err::<
                    Option<u64>,
                    AgentHelloError,
                >(AgentHelloError::UnknownMachine(h.machine_name))
                &&& forall|i: int|
                    old(self).named(h.machine_name@, i) ==> {
                        let m = old(self).machines@[i];
                        let n = final(self).machines@[i];
                        &&& r == Ok::<Option<u64>, AgentHelloError>(m.connection)
                        &&& final(self).machines@ == old(self).machines@.update(i, n)
                        &&& n == (Machine {
                            infos: MachineInfos { applications: n.infos.applications, ..m.infos },
                            applications_list: Some(h.applications),
                            connection: Some(connection),
                            ..m
                        })
                        &&& (n.infos.applications matches Some(g) && catalog_grouped(g, h.applications@))
                    }
            },
    {
        let hello = match first {
            AgentMessage::Hello(h) => h,
            _ => {
                return Err(AgentHelloError::NotHello);
            },
        };
        match self.position(hello.machine_name.as_str()) {
            None => Err(AgentHelloError::UnknownMachine(hello.machine_name)),
            Some(i) => {
                self.machines[i].set_applications(hello.applications);
                let previous = self.machines[i].set_connection(connection);
                Ok(previous)
            },
        }
    }
}

} // verus!
