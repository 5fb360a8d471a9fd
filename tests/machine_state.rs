use wol_relay::config::{Config, MachineCfg, SshConfig, TaskCfg};
use wol_relay::machine::{shutdown_reply, wake_reply, Endpoint, Machine, Task};
use wol_relay::state::State;
use wol_relay::store::StoreInner;
use wol_relay::wol::{send, wake_packet};

fn task_cfg(name: &str, command: &[&str]) -> TaskCfg {
    TaskCfg {
        command: command.iter().map(|s| s.to_string()).collect(),
        icon_url: String::new(),
        name: name.to_string(),
    }
}

fn machine(name: &str, mac: &str) -> Machine {
    let config = MachineCfg {
        ip: "127.0.0.1:2222".to_string(),
        mac: mac.to_string(),
        ssh_port: 2222,
        tasks: vec![task_cfg("hello", &["echo", "hello"])],
    };
    Machine::new(
        config,
        name.to_string(),
        Endpoint { ip: "127.0.0.1".to_string(), port: 2222 },
        "/keys/id_ed25519".to_string(),
    )
}

#[test]
fn test_next_state() {
    let cases = [
        (false, false, State::Unknown, State::Off),
        (false, false, State::Off, State::Off),
        (false, false, State::On, State::Off),
        (false, false, State::PendingOff, State::Off),
        (false, false, State::PendingOn, State::PendingOn),
        (false, true, State::Unknown, State::Unknown),
        (false, true, State::PendingOff, State::PendingOff),
        (false, true, State::PendingOn, State::PendingOn),
        (false, true, State::On, State::PendingOff),
        (false, true, State::Off, State::PendingOn),
        (true, true, State::Unknown, State::On),
        (true, true, State::On, State::On),
        (true, true, State::Off, State::On),
        (true, true, State::PendingOn, State::On),
        (true, true, State::PendingOff, State::On),
        (true, false, State::Unknown, State::On),
        (true, false, State::On, State::On),
        (true, false, State::Off, State::On),
        (true, false, State::PendingOn, State::On),
        (true, false, State::PendingOff, State::On),
    ];
    for (ssh_ok, ping_ok, state, expected) in cases {
        assert_eq!(Machine::next_state(ssh_ok, ping_ok, state), expected);
        assert_eq!(Machine::next_state(ssh_ok, ping_ok, state), expected);
    }
}

#[test]
fn unknown_machine_unreachable_is_off() {
    assert_eq!(Machine::next_state(false, false, State::Unknown), State::Off);
}

#[test]
fn on_machine_pinging_without_ssh_is_stopping() {
    assert_eq!(Machine::next_state(false, true, State::On), State::PendingOff);
}

#[test]
fn default_state_is_unknown() {
    assert_eq!(State::default(), State::Unknown);
}

#[test]
fn wake_dry_run_sets_pending_on() {
    let mut store = StoreInner::new(vec![machine("m1", "02:42:ac:12:00:02")]);
    let r = store.wake("m1", true).expect("m1 is known");
    assert_eq!(r, Ok(None));
    assert_eq!(store.machines[0].infos.state, State::PendingOn);
    assert_eq!(store.machines[0].wake_checks, 1);
    assert_eq!(
        wake_reply(Ok(())),
        Ok("Sent wake on lan successfully".to_string())
    );
}

#[test]
fn wake_gives_mac_bytes_to_send() {
    let mut m = machine("m1", "02:42:ac:12:00:02");
    m.infos.state = State::On;
    let r = m.wake(false);
    assert_eq!(r, Ok(Some(vec![0x02, 0x42, 0xac, 0x12, 0x00, 0x02])));
    assert_eq!(m.infos.state, State::PendingOn);
}

#[test]
fn wake_arms_one_timeout_each_time() {
    let mut m = machine("m1", "02:42:ac:12:00:02");
    m.wake(true).unwrap();
    m.wake(true).unwrap();
    assert_eq!(m.wake_checks, 2);
    assert_eq!(m.infos.state, State::PendingOn);
}

#[test]
fn wake_with_bad_mac_fails_but_is_pending() {
    let mut m = machine("m1", "not a mac");
    assert_eq!(m.wake(true), Err("Invalid mac address".to_string()));
    assert_eq!(m.infos.state, State::PendingOn);
}

#[test]
fn wake_unknown_machine_is_none() {
    let mut store = StoreInner::new(vec![machine("m1", "02:42:ac:12:00:02")]);
    assert!(store.wake("m2", true).is_none());
    assert_eq!(store.machines[0].infos.state, State::Unknown);
}

#[test]
fn wake_reply_passes_transport_error() {
    assert_eq!(
        wake_reply(Err("Could not send wold".to_string())),
        Err("Could not send wold".to_string())
    );
}

#[test]
fn wake_timeout_turns_pending_machine_off() {
    let mut store = StoreInner::new(vec![machine("m1", "02:42:ac:12:00:02")]);
    store.wake("m1", true);
    store.wake_timeout_expired("m1");
    assert_eq!(store.machines[0].infos.state, State::Off);
    assert_eq!(store.machines[0].wake_checks, 0);
}

#[test]
fn wake_timeout_after_success_is_harmless() {
    let mut m = machine("m1", "02:42:ac:12:00:02");
    m.wake(true).unwrap();
    m.update_status(true, true);
    assert_eq!(m.infos.state, State::On);
    m.wake_timeout_expired();
    assert_eq!(m.infos.state, State::On);
}

#[test]
fn push_task_out_of_range_is_rejected() {
    let mut m = machine("m1", "02:42:ac:12:00:02");
    let r = m.push_task(Task { id: 3 }, true);
    assert_eq!(
        r.unwrap_err(),
        "Task id 3 is out of bound for machine m1 which has 1 tasks"
    );
    assert!(m.infos.tasks.is_empty());
    assert_eq!(m.infos.state, State::Unknown);
}

#[test]
fn push_task_at_bound_is_rejected() {
    let mut store = StoreInner::new(vec![machine("m1", "02:42:ac:12:00:02")]);
    let r = store.push_task("m1", Task { id: 1 }, true).unwrap();
    assert!(r.unwrap_err().contains("m1"));
    assert!(store.machines[0].infos.tasks.is_empty());
}

#[test]
fn push_task_queues_and_names_task() {
    let mut m = machine("m1", "02:42:ac:12:00:02");
    m.infos.state = State::On;
    let r = m.push_task(Task { id: 0 }, true).unwrap();
    assert_eq!(r.message, "Pushed task 'hello' successfully");
    assert_eq!(r.wake, None);
    assert_eq!(m.infos.tasks, vec![Task { id: 0 }]);
    assert_eq!(m.infos.state, State::On);
}

#[test]
fn push_task_wakes_machine_that_is_off() {
    let mut m = machine("m1", "02:42:ac:12:00:02");
    m.infos.state = State::Off;
    let r = m.push_task(Task { id: 0 }, false).unwrap();
    assert_eq!(r.wake, Some(vec![0x02, 0x42, 0xac, 0x12, 0x00, 0x02]));
    assert_eq!(m.infos.state, State::PendingOn);
    assert_eq!(m.wake_checks, 1);
}

#[test]
fn refresh_drains_queue_oldest_first_when_on() {
    let mut m = machine("m1", "02:42:ac:12:00:02");
    m.infos.config.tasks.push(task_cfg("second", &["true"]));
    m.push_task(Task { id: 1 }, true).unwrap();
    m.push_task(Task { id: 0 }, true).unwrap();
    let drained = m.update_status(true, false);
    assert!(drained.is_empty());
    assert_eq!(m.infos.state, State::Unknown);
    assert_eq!(m.infos.tasks.len(), 2);
    let drained = m.update_status(true, true);
    assert_eq!(drained, vec![Task { id: 1 }, Task { id: 0 }]);
    assert_eq!(m.infos.state, State::On);
    assert!(m.infos.tasks.is_empty());
}

#[test]
fn refresh_of_on_machine_probes_ssh() {
    let mut m = machine("m1", "02:42:ac:12:00:02");
    m.infos.state = State::On;
    assert!(m.needs_ssh_probe(true));
    assert!(!m.needs_ssh_probe(false));
    m.update_status(true, true);
    assert_eq!(m.infos.state, State::On);
    m.update_status(true, false);
    assert_eq!(m.infos.state, State::PendingOff);
    m.infos.state = State::On;
    m.update_status(false, true);
    assert_eq!(m.infos.state, State::Off);
}

#[test]
fn ssh_arguments() {
    let m = machine("m1", "02:42:ac:12:00:02");
    assert_eq!(
        m.ssh_args(),
        vec![
            "-i",
            "/keys/id_ed25519",
            "-o",
            "StrictHostKeyChecking=no",
            "-p",
            "2222",
            "oscar@127.0.0.1"
        ]
    );
    let c = m.task_command(Task { id: 0 });
    assert_eq!(c[7..].to_vec(), vec!["echo".to_string(), "hello".to_string()]);
    assert_eq!(c.len(), 9);
}

#[test]
fn shutdown_sets_pending_off() {
    let mut m = machine("m1", "02:42:ac:12:00:02");
    m.infos.state = State::On;
    assert_eq!(m.shutdown(true), None);
    assert_eq!(m.infos.state, State::PendingOff);
    let c = m.shutdown(false).unwrap();
    assert_eq!(c[7..].to_vec(), vec!["sudo".to_string(), "poweroff".to_string()]);
    assert_eq!(
        shutdown_reply(Ok(())),
        "Send shutdown command to machine successfully"
    );
    assert_eq!(
        shutdown_reply(Err("no route".to_string())),
        "ssh command failed: no route"
    );
}

#[test]
fn machine_wake_shutdown_test_dry_run() {
    let mut store = StoreInner::new(vec![machine("machine1", "02:42:ac:12:00:02")]);
    let i = store.position("machine1").unwrap();
    let m = &mut store.machines[i];
    assert_eq!(m.infos.name, "machine1");
    assert_eq!(m.infos.config.mac, "02:42:ac:12:00:02");
    assert_eq!(m.infos.config.ip, "127.0.0.1:2222");
    assert_eq!(m.infos.state, State::Unknown);
    m.wake(true).expect("failed to wake the machine in dry_run mode");
    assert_eq!(m.infos.state, State::PendingOn);
    m.update_status(true, true);
    assert_eq!(m.infos.state, State::On);
    m.shutdown(true);
    assert_eq!(m.infos.state, State::PendingOff);
    m.update_status(true, false);
    assert_eq!(m.infos.state, State::PendingOff);
}

#[test]
fn refresh_tick_gives_task_commands() {
    let mut m = machine("m1", "02:42:ac:12:00:02");
    m.push_task(Task { id: 0 }, true).unwrap();
    m.set_connection(5);
    let commands = m.update_state(false, None, true, true);
    assert_eq!(m.infos.state, State::On);
    assert!(m.infos.tasks.is_empty());
    assert_eq!(commands.len(), 1);
    assert_eq!(commands[0][5..].to_vec(), vec!["2222", "oscar@127.0.0.1", "echo", "hello"]);
    assert_eq!(m.connection, Some(5));
    m.record_task_errors(vec!["return code: 1".to_string()]);
    assert_eq!(m.task_errors, vec!["return code: 1".to_string()]);
}

#[test]
fn wake_packet_decisions() {
    assert_eq!(
        wake_packet(None, false),
        Err("Invalid mac address".to_string())
    );
    assert_eq!(wake_packet(Some(vec![1, 2, 3, 4, 5, 6]), true), Ok(None));
    assert_eq!(
        wake_packet(Some(vec![1, 2, 3, 4, 5, 6]), false),
        Ok(Some(vec![1, 2, 3, 4, 5, 6]))
    );
}

#[test]
fn send_parses_mac_forms() {
    assert_eq!(send("00-01-11-34-88-99", false), Ok(Some(vec![0x00, 0x01, 0x11, 0x34, 0x88, 0x99])));
    assert_eq!(send("00:01:11:34:88:99", true), Ok(None));
    assert_eq!(send("00:01:11", true), Err("Invalid mac address".to_string()));
}

#[test]
fn registry_from_config() {
    let cfg = |ip: &str| MachineCfg {
        ip: ip.to_string(),
        mac: "02:42:ac:12:00:02".to_string(),
        ssh_port: 22,
        tasks: vec![],
    };
    let config = Config {
        machines: vec![("a".to_string(), cfg("10.0.0.1")), ("b".to_string(), cfg("10.0.0.2"))],
        ssh: SshConfig { private_key_file: "/keys/id".to_string() },
    };
    let endpoints = vec![
        Endpoint { ip: "10.0.0.1".to_string(), port: 22 },
        Endpoint { ip: "10.0.0.2".to_string(), port: 22 },
    ];
    let store = StoreInner::from_config(config, endpoints);
    assert_eq!(store.machines.len(), 2);
    assert_eq!(store.machines[1].infos.name, "b");
    assert_eq!(store.machines[1].infos.config, cfg("10.0.0.2"));
    assert_eq!(store.machines[1].addr, Endpoint { ip: "10.0.0.2".to_string(), port: 22 });
    assert_eq!(store.machines[1].credentials, "/keys/id");
    assert_eq!(store.machines[0].infos.state, State::Unknown);
    assert!(store.machines[0].connection.is_none());
    assert_eq!(store.position("b"), Some(1));
}
