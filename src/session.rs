use vstd::prelude::*;
use crate::text::join;

verus! {

/// Size given to the remote terminal before the client reports its own.
pub const INITIAL_COLS: u32 = 80;

pub const INITIAL_ROWS: u32 = 60;

/// Terminal type requested for the remote shell.
pub const TERMINAL: &'static str = "xterm";

/// Account that sessions log in as.
pub const SSH_USER: &'static str = "oscar";

/// What the client's terminal says in a text frame.
#[derive(Clone, Debug, PartialEq, Eq)]
pub enum SshClientMessageType {
    /// The terminal now has this many columns and rows.
    ChangeSize(u32, u32),
    /// Text typed in the terminal.
    Input(String),
}

/// A text frame from the client's terminal.
#[derive(Clone, Debug, PartialEq, Eq)]
pub struct SshClientMessage {
    pub message: SshClientMessageType,
}

#[derive(Clone, Debug, PartialEq, Eq)]
pub enum SshServerMessageType {
    Error(String),
}

/// A text frame sent to the client's terminal.
#[derive(Clone, Debug, PartialEq, Eq)]
pub struct SshServerMessage {
    pub message: SshServerMessageType,
}

/// Something that happened on one of the two channels of a session.
#[derive(Clone, Debug, PartialEq, Eq)]
pub enum ProxyEvent {
    /// The client sent raw keystroke bytes.
    FrontBinary(Vec<u8>),
    /// The client sent a text frame that decoded to a message.
    FrontText(SshClientMessage),
    /// The client sent a frame that could not be decoded.
    FrontMalformed,
    /// The client's channel reached its end.
    FrontClosed,
    /// The remote shell wrote output.
    BackData(Vec<u8>),
    /// The remote command exited with this status.
    BackExit(u32),
    /// Any other notice of the remote channel.
    BackOther,
}

/// Something the session must do on one of its channels.
#[derive(Clone, Debug, PartialEq, Eq)]
pub enum ProxyAction {
    /// Write these bytes to the remote shell's input.
    BackInput(Vec<u8>),
    /// Write this text to the remote shell's input.
    BackInputText(String),
    /// Resize the remote terminal to these columns and rows.
    BackResize(u32, u32),
    /// Signal the end of input to the remote shell.
    BackEof,
    /// Send these bytes to the client as a binary frame.
    FrontBinary(Vec<u8>),
}

/// The actions one event calls for.
pub open spec fn step_actions(e: ProxyEvent) -> Seq<ProxyAction> {
    match e {
        ProxyEvent::FrontBinary(b) => seq![ProxyAction::BackInput(b)],
        ProxyEvent::FrontText(m) => match m.message {
            SshClientMessageType::Input(s) => seq![ProxyAction::BackInputText(s)],
            SshClientMessageType::ChangeSize(cols, rows) => seq![ProxyAction::BackResize(cols, rows)],
        },
        ProxyEvent::FrontMalformed => seq![],
        ProxyEvent::FrontClosed => seq![ProxyAction::BackEof],
        ProxyEvent::BackData(b) => seq![ProxyAction::FrontBinary(b)],
        ProxyEvent::BackExit(_) => seq![ProxyAction::BackEof],
        ProxyEvent::BackOther => seq![],
    }
}

/// Whether the session ends after the event: when the client leaves, when
/// the remote command exits, or when a frame cannot be translated.
pub open spec fn step_ends(e: ProxyEvent) -> bool {
    match e {
        ProxyEvent::FrontMalformed | ProxyEvent::FrontClosed | ProxyEvent::BackExit(_) => true,
        _ => false,
    }
}

/// The relay between a client's terminal and a remote shell.
#[derive(Clone, Copy, Debug, PartialEq, Eq, Structural)]
pub struct SessionProxy {
    /// False once the session has ended; nothing is relayed after that.
    pub open: bool,
}

impl SessionProxy {
    pub fn new() -> (r: SessionProxy)
        ensures
            r.open,
    {
        SessionProxy { open: true }
    }

    /// Translates one event into the actions it calls for.
    pub fn handle(&mut self, event: ProxyEvent) -> (r: Vec<ProxyAction>)
        ensures
            !old(self).open ==> r@ == Seq::<ProxyAction>::empty() && !final(self).open,
            old(self).open ==> r@ == step_actions(event) && final(self).open == !step_ends(event),
    {
        let mut r: Vec<ProxyAction> = Vec::new();
        if !self.open {
            return r;
        }
        let ends = match &event {
            ProxyEvent::FrontMalformed | ProxyEvent::FrontClosed | ProxyEvent::BackExit(_) => true,
            _ => false,
        };
        match event {
            ProxyEvent::FrontBinary(b) => r.push(ProxyAction::BackInput(b)),
            ProxyEvent::FrontText(m) => match m.message {
                SshClientMessageType::Input(s) => r.push(ProxyAction::BackInputText(s)),
                SshClientMessageType::ChangeSize(cols, rows) => r.push(
                    ProxyAction::BackResize(cols, rows),
                ),
            },
            ProxyEvent::FrontMalformed => {},
            ProxyEvent::FrontClosed => r.push(ProxyAction::BackEof),
            ProxyEvent::BackData(b) => r.push(ProxyAction::FrontBinary(b)),
            ProxyEvent::BackExit(_) => r.push(ProxyAction::BackEof),
            ProxyEvent::BackOther => {},
        }
        if ends {
            self.open = false;
        }
        assert(r@ =~= step_actions(event));
        r
    }
}

/// Where the setup of a session failed, with the underlying error's text.
#[derive(Clone, Debug, PartialEq, Eq)]
pub enum SessionSetupError {
    /// The private key could not be loaded.
    KeyLoad(String),
    /// No machine has this name.
    UnknownMachine(String),
    /// The ssh connection could not be made.
    Connect(String),
    /// Authentication could not be carried out.
    Auth(String),
    /// The server refused the key.
    AuthRejected,
    /// The shell channel could not be opened or prepared.
    Channel(String),
}

/// Text of the error frame for a setup failure.
pub open spec fn setup_error_text(e: SessionSetupError) -> Seq<char> {
    match e {
        SessionSetupError::KeyLoad(d) => "SSH error while loading keys: "@ + d@,
        SessionSetupError::UnknownMachine(n) => "Machine "@ + n@ + " does not exist"@,
        SessionSetupError::Connect(d) => "SSH connection failed: "@ + d@,
        SessionSetupError::Auth(d) => "SSH authentication failed: "@ + d@,
        SessionSetupError::AuthRejected => "SSH authentication (with publickey) failed"@,
        SessionSetupError::Channel(d) => "SSH channel setup failed: "@ + d@,
    }
}

/// The error frame that tells the client why its session could not start.
pub fn setup_error_frame(e: SessionSetupError) -> (r: SshServerMessage)
    ensures
        r.message matches SshServerMessageType::Error(t) && t@ == setup_error_text(e),
{
    proof {
        reveal_strlit("SSH error while loading keys: ");
        reveal_strlit("Machine ");
        reveal_strlit(" does not exist");
        reveal_strlit("SSH connection failed: ");
        reveal_strlit("SSH authentication failed: ");
        reveal_strlit("SSH authentication (with publickey) failed");
        reveal_strlit("SSH channel setup failed: ");
    }
    let t = match &e {
        SessionSetupError::KeyLoad(d) => join("SSH error while loading keys: ", d.as_str()),
        SessionSetupError::UnknownMachine(n) => {
            let s = join("Machine ", n.as_str());
            join(s.as_str(), " does not exist")
        },
        SessionSetupError::Connect(d) => join("SSH connection failed: ", d.as_str()),
        SessionSetupError::Auth(d) => join("SSH authentication failed: ", d.as_str()),
        SessionSetupError::AuthRejected => String::from_str(
            "SSH authentication (with publickey) failed",
        ),
        SessionSetupError::Channel(d) => join("SSH channel setup failed: ", d.as_str()),
    };
    SshServerMessage { message: SshServerMessageType::Error(t) }
}

} // verus!
