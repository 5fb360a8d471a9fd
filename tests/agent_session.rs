use wol_relay::config::{default_ssh_port, MachineCfg};
use wol_relay::application::{ApplicationDisplay, ApplicationInfo, GroupedApplication};
use wol_relay::machine::{Endpoint, Machine};
use wol_relay::messages::{AgentHello, AgentMessage, ServerMessage};
use wol_relay::responses::{AgentComunicationError, OpenVdiError};
use wol_relay::session::{
    setup_error_frame, ProxyAction, ProxyEvent, SessionProxy, SessionSetupError,
    SshClientMessage, SshClientMessageType, SshServerMessageType,
};
use wol_relay::store::{AgentHelloError, StoreInner};
use wol_relay::text::to_decimal;

fn machine(name: &str) -> Machine {
    let config = MachineCfg {
        ip: "10.0.0.2".to_string(),
        mac: "02:42:ac:12:00:02".to_string(),
        ssh_port: 22,
        tasks: vec![],
    };
    Machine::new(
        config,
        name.to_string(),
        Endpoint { ip: "10.0.0.2".to_string(), port: 22 },
        "/keys/id".to_string(),
    )
}

fn app(name: &str, command: &str) -> ApplicationInfo {
    ApplicationInfo {
        name: name.to_string(),
        icon_bytes: None,
        icon_name: "no-icon".to_string(),
        command: command.to_string(),
        category: "Misc".to_string(),
    }
}

fn hello(name: &str, applications: Vec<ApplicationInfo>) -> AgentMessage {
    AgentMessage::Hello(AgentHello { machine_name: name.to_string(), applications })
}

#[test]
fn agent_hello_then_disconnect() {
    let mut store = StoreInner::new(vec![machine("m1")]);
    assert_eq!(store.accept_agent(hello("m1", vec![]), 7), Ok(None));
    assert_eq!(store.machines[0].applications_list, Some(vec![]));
    assert_eq!(
        store.machines[0].infos.applications,
        Some(GroupedApplication { groups: vec![] })
    );
    assert_eq!(store.machines[0].connection, Some(7));
    assert_eq!(store.open_vdi("m1").unwrap(), Ok(ServerMessage::OpenVdi));
    let commands = store.machines[0].update_state(true, None, false, false);
    assert!(commands.is_empty());
    assert_eq!(store.machines[0].connection, None);
    assert!(!store.machines[0].infos.vdi_opened);
    assert_eq!(store.machines[0].infos.state, wol_relay::state::State::Off);
}

#[test]
fn agent_hello_replaces_connection() {
    let mut store = StoreInner::new(vec![machine("m1")]);
    store.accept_agent(hello("m1", vec![app("a", "a")]), 1).unwrap();
    assert_eq!(store.accept_agent(hello("m1", vec![]), 2), Ok(Some(1)));
    assert_eq!(store.machines[0].connection, Some(2));
    assert_eq!(store.machines[0].applications_list, Some(vec![]));
}

#[test]
fn agent_hello_for_unknown_machine_changes_nothing() {
    let mut store = StoreInner::new(vec![machine("m1")]);
    assert_eq!(
        store.accept_agent(hello("m9", vec![]), 3),
        Err(AgentHelloError::UnknownMachine("m9".to_string()))
    );
    assert_eq!(store.machines[0].connection, None);
    assert_eq!(store.machines[0].applications_list, None);
}

#[test]
fn agent_first_message_must_be_hello() {
    let mut store = StoreInner::new(vec![machine("m1")]);
    assert_eq!(
        store.accept_agent(AgentMessage::VdiClosed, 3),
        Err(AgentHelloError::NotHello)
    );
    assert_eq!(store.machines[0].connection, None);
}

#[test]
fn open_vdi_twice_is_already_opened() {
    let mut m = machine("m1");
    m.set_connection(4);
    assert_eq!(m.open_vdi(), Ok(ServerMessage::OpenVdi));
    assert!(m.infos.vdi_opened);
    assert_eq!(m.open_vdi(), Err(OpenVdiError::AlreadyOpened));
    assert!(m.infos.vdi_opened);
}

#[test]
fn open_vdi_without_agent_is_not_connected() {
    let mut store = StoreInner::new(vec![machine("m1")]);
    assert_eq!(
        store.open_vdi("m1").unwrap(),
        Err(OpenVdiError::AgentComunicationError(
            AgentComunicationError::NotConnected
        ))
    );
    assert!(!store.machines[0].infos.vdi_opened);
    assert!(store.open_vdi("nobody").is_none());
}

#[test]
fn open_vdi_send_failure_is_reported() {
    let mut m = machine("m1");
    m.set_connection(4);
    m.open_vdi().unwrap();
    let e = m.open_vdi_failed("broken pipe".to_string());
    assert_eq!(
        e,
        OpenVdiError::AgentComunicationError(AgentComunicationError::SendFailed(
            "broken pipe".to_string()
        ))
    );
    assert!(!m.infos.vdi_opened);
}

#[test]
fn vdi_closed_notice_reopens() {
    let mut m = machine("m1");
    m.set_connection(4);
    m.open_vdi().unwrap();
    m.check_agent_msg(false, Some(AgentMessage::VdiClosed));
    assert!(!m.infos.vdi_opened);
    assert_eq!(m.connection, Some(4));
    assert_eq!(m.open_vdi(), Ok(ServerMessage::OpenVdi));
    m.handle_agent_msg(AgentMessage::VdiCertificateHash(vec![1, 2]));
    m.handle_agent_msg(hello("m1", vec![]));
    assert!(m.infos.vdi_opened);
}

#[test]
fn open_app_from_catalog() {
    let mut m = machine("m1");
    m.set_applications(vec![app("Firefox", "firefox %u"), app("Firefox", "other")]);
    assert_eq!(m.find_application("Firefox").unwrap().command, "firefox %u");
    assert!(m.find_application("Gimp").is_none());
    assert_eq!(m.open_app("Firefox", true), Ok(None));
    let args = m.open_app("Firefox", false).unwrap().unwrap();
    assert_eq!(
        args.last().unwrap(),
        "DISPLAY=:0 firefox %u >/dev/null 2>&1 & disown"
    );
    assert_eq!(
        m.open_app("Gimp", false),
        Err("No application found with name Gimp".to_string())
    );
}

#[test]
fn session_change_size_resizes_only() {
    let mut p = SessionProxy::new();
    let ev = ProxyEvent::FrontText(SshClientMessage {
        message: SshClientMessageType::ChangeSize(120, 40),
    });
    assert_eq!(p.handle(ev), vec![ProxyAction::BackResize(120, 40)]);
    assert!(p.open);
}

#[test]
fn session_forwards_both_ways() {
    let mut p = SessionProxy::new();
    assert_eq!(
        p.handle(ProxyEvent::FrontBinary(vec![3, 4])),
        vec![ProxyAction::BackInput(vec![3, 4])]
    );
    assert_eq!(
        p.handle(ProxyEvent::FrontText(SshClientMessage {
            message: SshClientMessageType::Input("ls\n".to_string()),
        })),
        vec![ProxyAction::BackInputText("ls\n".to_string())]
    );
    assert_eq!(
        p.handle(ProxyEvent::BackData(vec![65])),
        vec![ProxyAction::FrontBinary(vec![65])]
    );
    assert_eq!(p.handle(ProxyEvent::BackOther), vec![]);
    assert!(p.open);
}

#[test]
fn session_ends_on_close_exit_or_bad_frame() {
    let mut p = SessionProxy::new();
    assert_eq!(p.handle(ProxyEvent::FrontClosed), vec![ProxyAction::BackEof]);
    assert!(!p.open);
    assert_eq!(p.handle(ProxyEvent::BackData(vec![1])), vec![]);

    let mut p = SessionProxy::new();
    assert_eq!(p.handle(ProxyEvent::BackExit(0)), vec![ProxyAction::BackEof]);
    assert!(!p.open);

    let mut p = SessionProxy::new();
    assert_eq!(p.handle(ProxyEvent::FrontMalformed), vec![]);
    assert!(!p.open);
}

#[test]
fn session_setup_error_frames() {
    let text = |e| match setup_error_frame(e).message {
        SshServerMessageType::Error(t) => t,
    };
    assert_eq!(
        text(SessionSetupError::UnknownMachine("m1".to_string())),
        "Machine m1 does not exist"
    );
    assert_eq!(
        text(SessionSetupError::KeyLoad("no file".to_string())),
        "SSH error while loading keys: no file"
    );
    assert_eq!(
        text(SessionSetupError::Connect("refused".to_string())),
        "SSH connection failed: refused"
    );
    assert_eq!(
        text(SessionSetupError::Auth("eof".to_string())),
        "SSH authentication failed: eof"
    );
    assert_eq!(
        text(SessionSetupError::AuthRejected),
        "SSH authentication (with publickey) failed"
    );
    assert_eq!(
        text(SessionSetupError::Channel("closed".to_string())),
        "SSH channel setup failed: closed"
    );
}

#[test]
fn decimal_text() {
    assert_eq!(to_decimal(0), "0");
    assert_eq!(to_decimal(7), "7");
    assert_eq!(to_decimal(120), "120");
    assert_eq!(to_decimal(u64::MAX), u64::MAX.to_string());
}

#[test]
fn small_getters() {
    assert_eq!(default_ssh_port(), 22);
    assert_eq!(app("a", "b").icon_name(), "no-icon");
}

#[test]
fn applications_grouped_by_category() {
    let d = |n: &str| ApplicationDisplay { name: n.to_string(), icon: format!("/icons/{n}.png") };
    let items = vec![
        ("Game".to_string(), d("a")),
        ("Misc".to_string(), d("b")),
        ("Game".to_string(), d("c")),
    ];
    let g = GroupedApplication::from_list(items);
    assert_eq!(g.groups.len(), 2);
    assert_eq!(g.groups[0].category, "Game");
    assert_eq!(g.groups[0].applications, vec![d("a"), d("c")]);
    assert_eq!(g.groups[1].category, "Misc");
    assert_eq!(g.groups[1].applications, vec![d("b")]);
    assert!(GroupedApplication::from_list(vec![]).groups.is_empty());
}

#[test]
fn agent_catalog_is_grouped_for_clients() {
    let mut store = StoreInner::new(vec![machine("m1")]);
    let mut game = app("Chess", "chess");
    game.category = "Game".to_string();
    store
        .accept_agent(hello("m1", vec![app("Editor", "ed"), game, app("Shell", "sh")]), 1)
        .unwrap();
    let g = store.machines[0].infos.applications.clone().unwrap();
    assert_eq!(g.groups.len(), 2);
    assert_eq!(g.groups[0].category, "Misc");
    let names: Vec<String> = g.groups[0].applications.iter().map(|a| a.name.clone()).collect();
    assert_eq!(names, vec!["Editor".to_string(), "Shell".to_string()]);
    assert_eq!(g.groups[1].category, "Game");
    assert_eq!(g.groups[1].applications[0].name, "Chess");
    assert_eq!(g.groups[1].applications[0].icon, "");
}
