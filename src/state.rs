use vstd::prelude::*;

verus! {

/// Reachability state of one machine.
#[derive(Clone, Copy, Debug, PartialEq, Eq, Structural, Hash)]
pub enum State {
    Unknown,
    On,
    Off,
    PendingOn,
    PendingOff,
}

impl Default for State {
    fn default() -> (r: State)
        ensures
            r == State::Unknown,
    {
        State::Unknown
    }
}

/// The transition table, rule by rule in priority order: a working ssh
/// probe means `On`; a machine that answers ping but not ssh keeps or
/// enters a pending state (`Unknown` stays, as the direction is unclear);
/// a machine that answers nothing is `Off`, unless a wake is pending.
pub open spec fn next_state_spec(ssh_ok: bool, ping_ok: bool, state: State) -> State {
    if ssh_ok {
        State::On
    } else if ping_ok {
        match state {
            State::PendingOff => State::PendingOff,
            State::On => State::PendingOff,
            State::Off => State::PendingOn,
            State::PendingOn => State::PendingOn,
            State::Unknown => State::Unknown,
        }
    } else if state == State::PendingOn {
        State::PendingOn
    } else {
        State::Off
    }
}

} // verus!
