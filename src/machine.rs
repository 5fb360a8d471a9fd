use vstd::prelude::*;
use crate::config::MachineCfg;
use crate::application::{catalog_grouped, ApplicationInfo, GroupedApplication};
use crate::messages::{AgentMessage, ServerMessage};
use crate::responses::{AgentComunicationError, OpenVdiError};
use crate::session::SSH_USER;
use crate::state::{next_state_spec, State};
use crate::text::{decimal, join, to_decimal};
use crate::wol::{send, sent_as};

verus! {

/// A request to run the configured task with this index.
#[derive(Clone, Copy, Debug, PartialEq, Eq, Structural, Hash)]
pub struct Task {
    pub id: usize,
}

/// Resolved network endpoint of a machine: its IP address and ssh port.
#[derive(Clone, Debug, PartialEq, Eq)]
pub struct Endpoint {
    pub ip: String,
    pub port: u16,
}

/// What clients see of a machine.
#[derive(Clone, Debug, PartialEq, Eq)]
pub struct MachineInfos {
    pub name: String,
    pub state: State,
    /// Tasks waiting for the machine to be on, oldest first.
    pub tasks: Vec<Task>,
    /// True between an accepted request to open a remote desktop and the
    /// agent's notice that it closed.
    pub vdi_opened: bool,
    pub config: MachineCfg,
    pub applications: Option<GroupedApplication>,
}

/// One managed machine.
#[derive(Debug)]
pub struct Machine {
    pub infos: MachineInfos,
    pub addr: Endpoint,
    /// Private key file used for ssh.
    pub credentials: String,
    /// Applications last reported by the agent.
    pub applications_list: Option<Vec<ApplicationInfo>>,
    /// Handle of the live connection with the machine's agent.
    pub connection: Option<u64>,
    /// Wake timeouts armed and not yet expired.
    pub wake_checks: u64,
    /// Failures of the tasks run at the last drain of the queue.
    pub task_errors: Vec<String>,
}

/// Text of the remote user and host for ssh: `user@ip`.
pub open spec fn ssh_target(ip: Seq<char>) -> Seq<char> {
    SSH_USER@ + "@"@ + ip
}

/// Arguments of `ssh` that reach the machine.
pub open spec fn ssh_args_spec(m: Machine) -> Seq<Seq<char>> {
    seq![
        "-i"@,
        m.credentials@,
        "-o"@,
        "StrictHostKeyChecking=no"@,
        "-p"@,
        decimal(m.addr.port as nat),
        ssh_target(m.addr.ip@),
    ]
}

/// Arguments of `ssh` that power the machine off.
pub open spec fn shutdown_command(m: Machine) -> Seq<Seq<char>> {
    ssh_args_spec(m) + seq!["sudo"@, "poweroff"@]
}

/// Error text for a task id out of range.
pub open spec fn task_out_of_bound_text(id: nat, name: Seq<char>, count: nat) -> Seq<char> {
    "Task id "@ + decimal(id) + " is out of bound for machine "@ + name + " which has "@
        + decimal(count) + " tasks"@
}

/// Answer text for a task accepted into the queue.
pub open spec fn task_pushed_text(task_name: Seq<char>) -> Seq<char> {
    "Pushed task '"@ + task_name + "' successfully"@
}

/// The outcome of a task accepted into the queue.
#[derive(Debug)]
pub struct PushedTask {
    pub message: String,
    /// Address bytes for a wake packet, when the push woke the machine.
    pub wake: Option<Vec<u8>>,
}

impl Machine {
    /// Tasks in the queue name configured tasks; a remote desktop is open
    /// only while an agent is connected.
    pub open spec fn wf(&self) -> bool {
        &&& self.infos.vdi_opened ==> self.connection is Some
        &&& forall|i: int|
            0 <= i < self.infos.tasks@.len() ==> #[trigger] self.infos.tasks@[i].id
                < self.infos.config.tasks@.len()
    }

    /// `m` is a newly configured machine: state `Unknown`, nothing queued,
    /// no agent, no catalog, no timeout armed.
    pub open spec fn is_fresh(
        m: Machine,
        config: MachineCfg,
        name: String,
        addr: Endpoint,
        credentials: String,
    ) -> bool {
        &&& m.infos.name == name
        &&& m.infos.config == config
        &&& m.infos.state == State::Unknown
        &&& m.infos.tasks@.len() == 0
        &&& !m.infos.vdi_opened
        &&& m.infos.applications is None
        &&& m.addr == addr
        &&& m.credentials == credentials
        &&& m.applications_list is None
        &&& m.connection is None
        &&& m.wake_checks == 0
        &&& m.task_errors@.len() == 0
    }

    pub fn new(config: MachineCfg, name: String, addr: Endpoint, credentials: String) -> (r: Machine)
        ensures
            r.wf(),
            Self::is_fresh(r, config, name, addr, credentials),
    {
        Machine {
            infos: MachineInfos {
                name,
                state: State::Unknown,
                tasks: Vec::new(),
                vdi_opened: false,
                config,
                applications: None,
            },
            addr,
            credentials,
            applications_list: None,
            connection: None,
            wake_checks: 0,
            task_errors: Vec::new(),
        }
    }

    /// Next reachability state from the probe results and the current state.
    pub fn next_state(ssh_ok: bool, ping_ok: bool, state: State) -> (r: State)
        ensures
            r == next_state_spec(ssh_ok, ping_ok, state),
    {
        if ssh_ok {
            State::On
        } else if ping_ok {
            match state {
                State::PendingOff | State::On => State::PendingOff,
                State::Off | State::PendingOn => State::PendingOn,
                State::Unknown => State::Unknown,
            }
        } else {
            match state {
                State::PendingOn => State::PendingOn,
                _ => State::Off,
            }
        }
    }

    /// Arguments of `ssh` that reach the machine; the remote command follows them.
    pub fn ssh_args(&self) -> (r: Vec<String>)
        ensures
            r.deep_view() == ssh_args_spec(*self),
    {
        proof {
            reveal_strlit("-i");
            reveal_strlit("-o");
            reveal_strlit("StrictHostKeyChecking=no");
            reveal_strlit("-p");
            reveal_strlit("oscar");
            reveal_strlit("@");
        }
        let mut r: Vec<String> = Vec::new();
        r.push(String::from_str("-i"));
        r.push(self.credentials.clone());
        r.push(String::from_str("-o"));
        r.push(String::from_str("StrictHostKeyChecking=no"));
        r.push(String::from_str("-p"));
        r.push(to_decimal(self.addr.port as u64));
        let user = join(SSH_USER, "@");
        r.push(join(user.as_str(), self.addr.ip.as_str()));
        assert(r.deep_view() =~= ssh_args_spec(*self));
        r
    }

    /// The machine after a wake request: `PendingOn`, with one more wake
    /// timeout armed, whatever its state was.
    pub open spec fn after_wake(m: Machine) -> Machine {
        Machine {
            infos: MachineInfos { state: State::PendingOn, ..m.infos },
            wake_checks: (m.wake_checks + 1) as u64,
            ..m
        }
    }

    /// Marks the machine as starting, arms one wake timeout, and prepares
    /// the wake packet for its MAC address.
    pub fn wake(&mut self, dry_run: bool) -> (r: Result<Option<Vec<u8>>, String>)
        requires
            old(self).wf(),
            old(self).wake_checks < u64::MAX,
        ensures
            final(self).wf(),
            *final(self) == Self::after_wake(*old(self)),
            sent_as(old(self).infos.config.mac@, dry_run, r),
    {
        self.infos.state = State::PendingOn;
        self.wake_checks = self.wake_checks + 1;
        send(self.infos.config.mac.as_str(), dry_run)
    }

    /// The machine after a shutdown request: `PendingOff` until a refresh
    /// sees it go.
    pub open spec fn after_shutdown(m: Machine) -> Machine {
        Machine { infos: MachineInfos { state: State::PendingOff, ..m.infos }, ..m }
    }

    /// Marks the machine as stopping and gives the arguments of `ssh` that
    /// power it off, or `None` in a dry run.
    pub fn shutdown(&mut self, dry_run: bool) -> (r: Option<Vec<String>>)
        requires
            old(self).wf(),
        ensures
            final(self).wf(),
            *final(self) == Self::after_shutdown(*old(self)),
            r is None <==> dry_run,
            r matches Some(c) ==> c.deep_view() == shutdown_command(*old(self)),
    {
        self.infos.state = State::PendingOff;
        if dry_run {
            return None;
        }
        proof {
            reveal_strlit("sudo");
            reveal_strlit("poweroff");
        }
        let mut c = self.ssh_args();
        c.push(String::from_str("sudo"));
        c.push(String::from_str("poweroff"));
        assert(c.deep_view() =~= shutdown_command(*old(self)));
        Some(c)
    }

    /// How a push of `task` relates the machine before (`m`) and after (`n`)
    /// to the answer `r`.
    pub open spec fn push_task_post(
        m: Machine,
        n: Machine,
        task: Task,
        dry_run: bool,
        r: Result<PushedTask, String>,
    ) -> bool {
        &&& (task.id >= m.infos.config.tasks@.len() ==> n == m
                && (r matches Err(e) && e@ == task_out_of_bound_text(
                task.id as nat,
                m.infos.name@,
                m.infos.config.tasks@.len(),
            )))
        &&& (task.id < m.infos.config.tasks@.len() ==> {
                &&& n.infos.tasks@ == m.infos.tasks@.push(task)
                &&& m.infos.state == State::Off ==> {
                    &&& n.infos.state == State::PendingOn
                    &&& n.wake_checks == m.wake_checks + 1
                    &&& match r {
                        Ok(p) => sent_as(m.infos.config.mac@, dry_run, Ok(p.wake)) && p.message@
                            == task_pushed_text(m.infos.config.tasks@[task.id as int].name@),
                        Err(e) => sent_as(m.infos.config.mac@, dry_run, Err(e)),
                    }
                }
                &&& m.infos.state != State::Off ==> {
                    &&& n.infos.state == m.infos.state
                    &&& n.wake_checks == m.wake_checks
                    &&& (r matches Ok(p) && p.wake is None && p.message@ == task_pushed_text(
                        m.infos.config.tasks@[task.id as int].name@,
                    ))
                }
            })
        &&& (n.infos.name == m.infos.name)
        &&& (n.infos.config == m.infos.config)
        &&& (n.infos.vdi_opened == m.infos.vdi_opened)
        &&& (n.infos.applications == m.infos.applications)
        &&& (n.addr == m.addr)
        &&& (n.credentials == m.credentials)
        &&& (n.applications_list == m.applications_list)
        &&& (n.connection == m.connection)
        &&& (n.task_errors == m.task_errors)
    }

    /// Queues a task after checking its id against the configured tasks; a
    /// machine that is off is woken for it. An id out of range changes
    /// nothing, and the error names the machine and the number of tasks.
    pub fn push_task(&mut self, task: Task, dry_run: bool) -> (r: Result<PushedTask, String>)
        requires
            old(self).wf(),
            old(self).infos.state == State::Off && task.id < old(self).infos.config.tasks@.len()
                ==> old(self).wake_checks < u64::MAX,
        ensures
            final(self).wf(),
            Self::push_task_post(*old(self), *final(self), task, dry_run, r),
    {
        let count = self.infos.config.tasks.len();
        if task.id >= count {
            proof {
                reveal_strlit("Task id ");
                reveal_strlit(" is out of bound for machine ");
                reveal_strlit(" which has ");
                reveal_strlit(" tasks");
            }
            let id_text = to_decimal(task.id as u64);
            let count_text = to_decimal(count as u64);
            let s = join("Task id ", id_text.as_str());
            let s = join(s.as_str(), " is out of bound for machine ");
            let s = join(s.as_str(), self.infos.name.as_str());
            let s = join(s.as_str(), " which has ");
            let s = join(s.as_str(), count_text.as_str());
            let s = join(s.as_str(), " tasks");
            return Err(s);
        }
        proof {
            reveal_strlit("Pushed task '");
            reveal_strlit("' successfully");
        }
        let s = join("Pushed task '", self.infos.config.tasks[task.id].name.as_str());
        let message = join(s.as_str(), "' successfully");
        self.infos.tasks.push(task);
        let mut wake: Option<Vec<u8>> = None;
        if self.infos.state == State::Off {
            match self.wake(dry_run) {
                Ok(p) => {
                    wake = p;
                },
                Err(e) => {
                    return Err(e);
                },
            }
        }
        Ok(PushedTask { message, wake })
    }

    /// The state after one refresh: the transition table, with ssh counted
    /// as failed when ping failed (it is then not probed).
    pub open spec fn refreshed_state(ping_ok: bool, ssh_ok: bool, state: State) -> State {
        next_state_spec(ping_ok && ssh_ok, ping_ok, state)
    }

    /// Whether a refresh must probe ssh after the ping result `ping_ok`:
    /// exactly when the machine answered ping.
    pub fn needs_ssh_probe(&self, ping_ok: bool) -> (r: bool)
        ensures
            r == ping_ok,
    {
        ping_ok
    }

    /// Applies the probe results of one refresh. When the machine ends up
    /// `On`, its whole queue is drained and returned, oldest task first.
    pub fn update_status(&mut self, ping_ok: bool, ssh_ok: bool) -> (r: Vec<Task>)
        requires
            old(self).wf(),
        ensures
            final(self).wf(),
            final(self).infos.state == Self::refreshed_state(ping_ok, ssh_ok, old(self).infos.state),
            final(self).infos.state == State::On ==> r@ == old(self).infos.tasks@
                && final(self).infos.tasks@.len() == 0,
            final(self).infos.state != State::On ==> r@.len() == 0 && final(self).infos.tasks
                == old(self).infos.tasks,
            final(self).infos.name == old(self).infos.name,
            final(self).infos.config == old(self).infos.config,
            final(self).infos.vdi_opened == old(self).infos.vdi_opened,
            final(self).infos.applications == old(self).infos.applications,
            final(self).addr == old(self).addr,
            final(self).credentials == old(self).credentials,
            final(self).applications_list == old(self).applications_list,
            final(self).connection == old(self).connection,
            final(self).wake_checks == old(self).wake_checks,
            final(self).task_errors == old(self).task_errors,
    {
        self.infos.state = Self::next_state(ping_ok && ssh_ok, ping_ok, self.infos.state);
        let mut drained: Vec<Task> = Vec::new();
        if self.infos.state == State::On {
            drained.append(&mut self.infos.tasks);
        }
        drained
    }

    /// Arguments of `ssh` that run a queued task on the machine.
    pub fn task_command(&self, task: Task) -> (r: Vec<String>)
        requires
            task.id < self.infos.config.tasks@.len(),
        ensures
            r.deep_view() == ssh_args_spec(*self) + self.infos.config.tasks@[task.id as int].command.deep_view(),
    {
        let mut r = self.ssh_args();
        let command = &self.infos.config.tasks[task.id].command;
        let mut i: usize = 0;
        while i < command.len()
            invariant
                i <= command@.len(),
                r.deep_view() == ssh_args_spec(*self) + command.deep_view().subrange(0, i as int),
            decreases command@.len() - i,
        {
            let ghost prev = r.deep_view();
            r.push(command[i].clone());
            assert(r.deep_view() =~= prev.push(command[i as int]@));
            assert(command.deep_view().subrange(0, i + 1) =~= command.deep_view().subrange(0, i as int).push(command[i as int]@));
            assert(r.deep_view() =~= ssh_args_spec(*self) + command.deep_view().subrange(0, i + 1));
            i = i + 1;
        }
        assert(command.deep_view().subrange(0, i as int) =~= command.deep_view());
        r
    }

    /// Arguments of `ssh` that run the task with index `id` on `m`.
    pub open spec fn task_command_spec(m: Machine, id: int) -> Seq<Seq<char>> {
        ssh_args_spec(m) + m.infos.config.tasks@[id].command.deep_view()
    }

    /// One refresh tick: looks at the agent link (see `check_agent_msg`),
    /// applies the probe results (see `update_status`), and returns the
    /// arguments of `ssh` for each drained task, oldest first.
    pub fn update_state(
        &mut self,
        listener_finished: bool,
        msg: Option<AgentMessage>,
        ping_ok: bool,
        ssh_ok: bool,
    ) -> (r: Vec<Vec<String>>)
        requires
            old(self).wf(),
        ensures
            final(self).wf(),
            ({
                let m = Self::after_agent_check(*old(self), listener_finished, msg);
                &&& final(self).infos.state == Self::refreshed_state(ping_ok, ssh_ok, m.infos.state)
                &&& final(self).infos.state == State::On ==> final(self).infos.tasks@.len() == 0
                    && r@.len() == m.infos.tasks@.len() && forall|k: int|
                    0 <= k < r@.len() ==> (#[trigger] r@[k]).deep_view() == Self::task_command_spec(
                        m,
                        m.infos.tasks@[k].id as int,
                    )
                &&& final(self).infos.state != State::On ==> final(self).infos.tasks == m.infos.tasks
                    && r@.len() == 0
                &&& final(self).infos.name == m.infos.name
                &&& final(self).infos.config == m.infos.config
                &&& final(self).infos.vdi_opened == m.infos.vdi_opened
                &&& final(self).infos.applications == m.infos.applications
                &&& final(self).addr == m.addr
                &&& final(self).credentials == m.credentials
                &&& final(self).applications_list == m.applications_list
                &&& final(self).connection == m.connection
                &&& final(self).wake_checks == m.wake_checks
                &&& final(self).task_errors == m.task_errors
            }),
    {
        self.check_agent_msg(listener_finished, msg);
        let ghost m = *self;
        let tasks = self.update_status(ping_ok, ssh_ok);
        let mut r: Vec<Vec<String>> = Vec::new();
        let mut k: usize = 0;
        while k < tasks.len()
            invariant
                k <= tasks@.len(),
                m.wf(),
                tasks@.len() > 0 ==> tasks@ == m.infos.tasks@,
                self.infos.config == m.infos.config,
                self.credentials == m.credentials,
                self.addr == m.addr,
                r@.len() == k,
                forall|j: int|
                    0 <= j < k ==> (#[trigger] r@[j]).deep_view() == Self::task_command_spec(
                        m,
                        tasks@[j].id as int,
                    ),
            decreases tasks@.len() - k,
        {
            assert(m.infos.tasks@[k as int] == tasks@[k as int]);
            let c = self.task_command(tasks[k]);
            r.push(c);
            k = k + 1;
        }
        r
    }

    /// Keeps the failures of the tasks run at the last drain.
    pub fn record_task_errors(&mut self, errors: Vec<String>)
        ensures
            final(self).task_errors == errors,
            final(self).infos == old(self).infos,
            final(self).addr == old(self).addr,
            final(self).credentials == old(self).credentials,
            final(self).applications_list == old(self).applications_list,
            final(self).connection == old(self).connection,
            final(self).wake_checks == old(self).wake_checks,
    {
        self.task_errors = errors;
    }

    /// The machine when a wake timeout expires: still `PendingOn` means
    /// the wake failed, and the machine is `Off`.
    pub open spec fn after_wake_timeout(m: Machine) -> Machine {
        Machine {
            infos: if m.infos.state == State::PendingOn {
                MachineInfos { state: State::Off, ..m.infos }
            } else {
                m.infos
            },
            wake_checks: if m.wake_checks > 0 {
                (m.wake_checks - 1) as u64
            } else {
                0
            },
            ..m
        }
    }

    /// Expiry of a wake timeout: a machine still `PendingOn` is declared `Off`.
    pub fn wake_timeout_expired(&mut self)
        requires
            old(self).wf(),
        ensures
            final(self).wf(),
            *final(self) == Self::after_wake_timeout(*old(self)),
    {
        if self.infos.state == State::PendingOn {
            self.infos.state = State::Off;
        }
        if self.wake_checks > 0 {
            self.wake_checks = self.wake_checks - 1;
        }
    }

    /// What a request to open a remote desktop answers on this machine.
    pub open spec fn open_vdi_result(m: Machine) -> Result<ServerMessage, OpenVdiError> {
        if m.infos.vdi_opened {
            Err(OpenVdiError::AlreadyOpened)
        } else if m.connection is None {
            Err(OpenVdiError::AgentComunicationError(AgentComunicationError::NotConnected))
        } else {
            Ok(ServerMessage::OpenVdi)
        }
    }

    /// The machine after a request to open a remote desktop.
    pub open spec fn after_open_vdi(m: Machine) -> Machine {
        if Self::open_vdi_result(m) is Ok {
            Machine { infos: MachineInfos { vdi_opened: true, ..m.infos }, ..m }
        } else {
            m
        }
    }

    /// Accepts a request to open a remote desktop: refused while one is open
    /// or when no agent is connected; otherwise the session counts as open
    /// and the message for the agent is returned. When sending it fails,
    /// report that with `open_vdi_failed`.
    pub fn open_vdi(&mut self) -> (r: Result<ServerMessage, OpenVdiError>)
        requires
            old(self).wf(),
        ensures
            final(self).wf(),
            r == Self::open_vdi_result(*old(self)),
            *final(self) == Self::after_open_vdi(*old(self)),
    {
        if self.infos.vdi_opened {
            return Err(OpenVdiError::AlreadyOpened);
        }
        if self.connection.is_none() {
            return Err(OpenVdiError::AgentComunicationError(AgentComunicationError::NotConnected));
        }
        self.infos.vdi_opened = true;
        Ok(ServerMessage::OpenVdi)
    }

    /// The message accepted by `open_vdi` could not be sent: the session
    /// is not open, and the error carries the transport's reason.
    pub fn open_vdi_failed(&mut self, detail: String) -> (r: OpenVdiError)
        requires
            old(self).wf(),
        ensures
            final(self).wf(),
            r == OpenVdiError::AgentComunicationError(AgentComunicationError::SendFailed(detail)),
            *final(self) == (Machine {
                infos: MachineInfos { vdi_opened: false, ..old(self).infos },
                ..*old(self)
            }),
    {
        self.infos.vdi_opened = false;
        OpenVdiError::AgentComunicationError(AgentComunicationError::SendFailed(detail))
    }

    /// Attaches a new agent connection and returns the one it replaces,
    /// which the caller tears down.
    pub fn set_connection(&mut self, connection: u64) -> (r: Option<u64>)
        requires
            old(self).wf(),
        ensures
            final(self).wf(),
            r == old(self).connection,
            *final(self) == (Machine { connection: Some(connection), ..*old(self) }),
    {
        let previous = self.connection;
        self.connection = Some(connection);
        previous
    }

    /// Replaces the application catalog with the one an agent reported, and
    /// what clients see of it.
    pub fn set_applications(&mut self, applications: Vec<ApplicationInfo>)
        requires
            old(self).wf(),
        ensures
            final(self).wf(),
            *final(self) == (Machine {
                infos: MachineInfos { applications: final(self).infos.applications, ..old(self).infos },
                applications_list: Some(applications),
                ..*old(self)
            }),
            final(self).infos.applications matches Some(g) && catalog_grouped(g, applications@),
    {
        self.infos.applications = Some(GroupedApplication::from_catalog(&applications));
        self.applications_list = Some(applications);
    }

    /// The machine after a message of its agent: a closed remote desktop
    /// is no longer open; any other message breaks the protocol and is ignored.
    pub open spec fn after_agent_msg(m: Machine, msg: AgentMessage) -> Machine {
        match msg {
            AgentMessage::VdiClosed => Machine {
                infos: MachineInfos { vdi_opened: false, ..m.infos },
                ..m
            },
            _ => m,
        }
    }

    /// Handles one message that the agent sent after its hello.
    pub fn handle_agent_msg(&mut self, msg: AgentMessage)
        requires
            old(self).wf(),
        ensures
            final(self).wf(),
            *final(self) == Self::after_agent_msg(*old(self), msg),
    {
        match msg {
            AgentMessage::VdiClosed => {
                self.infos.vdi_opened = false;
            },
            AgentMessage::Hello(_) => {},
            AgentMessage::VdiCertificateHash(_) => {},
        }
    }

    /// The machine after a refresh looked at its agent link.
    pub open spec fn after_agent_check(
        m: Machine,
        listener_finished: bool,
        msg: Option<AgentMessage>,
    ) -> Machine {
        let m1 = if listener_finished {
            Machine {
                infos: MachineInfos { vdi_opened: false, ..m.infos },
                connection: None,
                ..m
            }
        } else {
            m
        };
        match msg {
            Some(x) => Self::after_agent_msg(m1, x),
            None => m1,
        }
    }

    /// Looks at the agent link during a refresh. When the receive loop has
    /// ended the connection is dropped, and an open remote desktop is taken
    /// to have died with the agent; then the next received message, if any,
    /// is handled.
    pub fn check_agent_msg(&mut self, listener_finished: bool, msg: Option<AgentMessage>)
        requires
            old(self).wf(),
        ensures
            final(self).wf(),
            *final(self) == Self::after_agent_check(*old(self), listener_finished, msg),
    {
        if listener_finished {
            self.connection = None;
            self.infos.vdi_opened = false;
        }
        match msg {
            Some(x) => self.handle_agent_msg(x),
            None => {},
        }
    }

    /// `i` is the first application of the catalog with this name.
    pub open spec fn first_app_named(m: Machine, name: Seq<char>, i: int) -> bool {
        &&& m.applications_list matches Some(apps)
        &&& 0 <= i < apps@.len()
        &&& apps@[i].name@ == name
        &&& forall|j: int| 0 <= j < i ==> (#[trigger] apps@[j]).name@ != name
    }

    /// The first application of the catalog with this name.
    pub fn find_application(&self, application_name: &str) -> (r: Option<&ApplicationInfo>)
        ensures
            r matches Some(a) ==> exists|i: int|
                Self::first_app_named(*self, application_name@, i) && self.applications_list->Some_0@[i]
                    == *a,
            r is None ==> forall|i: int| !Self::first_app_named(*self, application_name@, i),
    {
        match &self.applications_list {
            None => None,
            Some(apps) => {
                let target = String::from_str(application_name);
                let mut i: usize = 0;
                while i < apps.len()
                    invariant
                        i <= apps@.len(),
                        self.applications_list == Some(*apps),
                        target@ == application_name@,
                        forall|j: int| 0 <= j < i ==> (#[trigger] apps@[j]).name@ != application_name@,
                    decreases apps@.len() - i,
                {
                    if apps[i].name == target {
                        assert(Self::first_app_named(*self, application_name@, i as int));
                        return Some(&apps[i]);
                    }
                    i = i + 1;
                }
                None
            },
        }
    }

    /// Text of the error for an application missing from the catalog.
    pub open spec fn no_app_text(name: Seq<char>) -> Seq<char> {
        "No application found with name "@ + name
    }

    /// Remote command that starts an application on the machine's display,
    /// detached from the ssh session.
    pub open spec fn desktop_command(command: Seq<char>) -> Seq<char> {
        "DISPLAY=:0 "@ + command + " >/dev/null 2>&1 & disown"@
    }

    /// Prepares the start of an application of the catalog: the arguments
    /// of `ssh` that start it, or `None` in a dry run.
    pub fn open_app(&self, application_name: &str, dry_run: bool) -> (r: Result<Option<Vec<String>>, String>)
        ensures
            r matches Err(e) ==> e@ == Self::no_app_text(application_name@) && forall|i: int|
                !Self::first_app_named(*self, application_name@, i),
            r matches Ok(c) ==> exists|i: int|
                {
                    &&& Self::first_app_named(*self, application_name@, i)
                    &&& (c is None <==> dry_run)
                    &&& c matches Some(args) ==> args.deep_view() == ssh_args_spec(*self) + seq![
                        Self::desktop_command(self.applications_list->Some_0@[i].command@),
                    ]
                },
    {
        proof {
            reveal_strlit("No application found with name ");
            reveal_strlit("DISPLAY=:0 ");
            reveal_strlit(" >/dev/null 2>&1 & disown");
        }
        let app = match self.find_application(application_name) {
            None => {
                return Err(join("No application found with name ", application_name));
            },
            Some(a) => a,
        };
        if dry_run {
            return Ok(None);
        }
        let mut args = self.ssh_args();
        let s = join("DISPLAY=:0 ", app.command.as_str());
        let line = join(s.as_str(), " >/dev/null 2>&1 & disown");
        let ghost prev = args.deep_view();
        args.push(line);
        assert(args.deep_view() =~= prev.push(line@));
        Ok(Some(args))
    }
}

/// Text of a successful wake.
pub open spec fn woke_text() -> Seq<char> {
    "Sent wake on lan successfully"@
}

/// Answer to a wake request once the packet went out, or failed to.
pub fn wake_reply(sent: Result<(), String>) -> (r: Result<String, String>)
    ensures
        sent is Ok ==> (r matches Ok(t) && t@ == woke_text()),
        sent matches Err(e) ==> r == Err::<String, String>(e),
{
    proof {
        reveal_strlit("Sent wake on lan successfully");
    }
    match sent {
        Ok(()) => Ok(String::from_str("Sent wake on lan successfully")),
        Err(e) => Err(e),
    }
}

/// Text of a shutdown command that was issued.
pub open spec fn shutdown_sent_text() -> Seq<char> {
    "Send shutdown command to machine successfully"@
}

/// Answer to a shutdown request once its command ran, or failed to start.
pub fn shutdown_reply(run: Result<(), String>) -> (r: String)
    ensures
        run is Ok ==> r@ == shutdown_sent_text(),
        run matches Err(e) ==> r@ == "ssh command failed: "@ + e@,
{
    proof {
        reveal_strlit("Send shutdown command to machine successfully");
        reveal_strlit("ssh command failed: ");
    }
    match run {
        Ok(()) => String::from_str("Send shutdown command to machine successfully"),
        Err(e) => join("ssh command failed: ", e.as_str()),
    }
}


/// A second request to open a remote desktop, with no closed notice in
/// between, is refused as already opened and leaves the session open. This
/// holds on every machine with a connected agent (without one, both
/// requests are refused as not connected).
pub proof fn lemma_open_vdi_twice(m: Machine)
    requires
        m.wf(),
        m.connection is Some,
    ensures
        Machine::after_open_vdi(m).infos.vdi_opened,
        Machine::open_vdi_result(Machine::after_open_vdi(m)) == Err::<ServerMessage, OpenVdiError>(
            OpenVdiError::AlreadyOpened,
        ),
        Machine::after_open_vdi(Machine::after_open_vdi(m)) == Machine::after_open_vdi(m),
{
}

/// The expiry of a wake timeout never undoes a transition that happened
/// since the wake: only a machine still `PendingOn` changes state.
pub proof fn lemma_wake_timeout_keeps_settled_state(m: Machine)
    requires
        m.infos.state != State::PendingOn,
    ensures
        Machine::after_wake_timeout(m).infos == m.infos,
{
}


/// A wake request leaves every machine `PendingOn`, whatever its state was,
/// with exactly one more wake timeout armed and nothing else changed.
pub proof fn lemma_wake_always_pending_on(m: Machine)
    requires
        m.wake_checks < u64::MAX,
    ensures
        Machine::after_wake(m).infos.state == State::PendingOn,
        Machine::after_wake(m).wake_checks == m.wake_checks + 1,
        Machine::after_wake(m).infos.tasks == m.infos.tasks,
        Machine::after_wake(m).connection == m.connection,
{
}

/// Where the machine's name and the number of configured tasks stand in
/// the error for a task id out of range.
pub open spec fn name_position(id: nat) -> int {
    ("Task id "@.len() + decimal(id).len() + " is out of bound for machine "@.len()) as int
}

/// The error for a task id out of range names the machine and the number
/// of configured tasks.
pub proof fn lemma_rejected_task_text(id: nat, name: Seq<char>, count: nat)
    ensures
        ({
            let t = task_out_of_bound_text(id, name, count);
            let p = name_position(id);
            let q = p + name.len() + " which has "@.len();
            &&& t.subrange(p, p + name.len()) == name
            &&& t.subrange(q, q + decimal(count).len()) == decimal(count)
        }),
{
    reveal_strlit("Task id ");
    reveal_strlit(" is out of bound for machine ");
    reveal_strlit(" which has ");
    reveal_strlit(" tasks");
    let t = task_out_of_bound_text(id, name, count);
    let p = name_position(id);
    let q = p + name.len() + " which has "@.len();
    assert(t.subrange(p, p + name.len()) =~= name);
    assert(t.subrange(q, q + decimal(count).len()) =~= decimal(count));
}

/// A push of a task id out of range changes nothing, not the queue and not
/// the state, and fails with an error that names the machine and the
/// number of configured tasks.
pub proof fn lemma_push_out_of_range(
    m: Machine,
    n: Machine,
    task: Task,
    dry_run: bool,
    r: Result<PushedTask, String>,
)
    requires
        Machine::push_task_post(m, n, task, dry_run, r),
        task.id >= m.infos.config.tasks@.len(),
    ensures
        n == m,
        r matches Err(e) && {
            let p = name_position(task.id as nat);
            let q = p + m.infos.name@.len() + " which has "@.len();
            &&& e@.subrange(p, p + m.infos.name@.len()) == m.infos.name@
            &&& e@.subrange(q, q + decimal(m.infos.config.tasks@.len()).len()) == decimal(
                m.infos.config.tasks@.len(),
            )
        },
{
    lemma_rejected_task_text(task.id as nat, m.infos.name@, m.infos.config.tasks@.len());
}


/// Once the agent's receive loop has ended, the next refresh tick leaves
/// the machine without agent connection and without an open remote
/// desktop, whatever message came with it.
pub proof fn lemma_agent_gone(m: Machine, msg: Option<AgentMessage>)
    ensures
        Machine::after_agent_check(m, true, msg).connection is None,
        !Machine::after_agent_check(m, true, msg).infos.vdi_opened,
{
}

} // verus!
