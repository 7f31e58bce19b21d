//! Network-management (NMT) states and commands and their wire encoding.

use vstd::prelude::*;

verus! {

/// NMT state of a node. `Unknown` is a decode-only fallback for
/// unrecognized wire values; the state machine never assigns it on its own.
#[derive(Clone, Copy, Debug, PartialEq, Eq, Structural)]
pub enum NmtState {
    Unknown,
    Initializing,
    Stopped,
    Operational,
    PreOperational,
}

/// NMT command carried in the first byte of an NMT frame. `Unknown` is the
/// decode fallback for any unrecognized byte value.
#[derive(Clone, Copy, Debug, PartialEq, Eq, Structural)]
pub enum NmtCommand {
    Unknown,
    EnterOperational,
    EnterStopped,
    EnterPreOperational,
    ResetDevice,
    ResetCommunication,
}

/// Wire code of an NMT state, as carried in a heartbeat payload.
pub open spec fn spec_state_to_byte(s: NmtState) -> u8 {
    match s {
        NmtState::Initializing => 0,
        NmtState::Operational => 5,
        NmtState::Stopped => 4,
        NmtState::PreOperational => 127,
        NmtState::Unknown => 0xff,
    }
}

/// NMT state decoded from one wire byte; unrecognized bytes decode to `Unknown`.
pub open spec fn spec_state_from_byte(b: u8) -> NmtState {
    if b == 0 {
        NmtState::Initializing
    } else if b == 5 {
        NmtState::Operational
    } else if b == 4 {
        NmtState::Stopped
    } else if b == 127 {
        NmtState::PreOperational
    } else {
        NmtState::Unknown
    }
}

/// Wire code of an NMT command.
pub open spec fn spec_command_to_byte(c: NmtCommand) -> u8 {
    match c {
        NmtCommand::EnterOperational => 1,
        NmtCommand::EnterStopped => 2,
        NmtCommand::EnterPreOperational => 128,
        NmtCommand::ResetDevice => 129,
        NmtCommand::ResetCommunication => 130,
        NmtCommand::Unknown => 0xff,
    }
}

/// NMT command decoded from one wire byte; unrecognized bytes decode to `Unknown`.
pub open spec fn spec_command_from_byte(b: u8) -> NmtCommand {
    if b == 1 {
        NmtCommand::EnterOperational
    } else if b == 2 {
        NmtCommand::EnterStopped
    } else if b == 128 {
        NmtCommand::EnterPreOperational
    } else if b == 129 {
        NmtCommand::ResetDevice
    } else if b == 130 {
        NmtCommand::ResetCommunication
    } else {
        NmtCommand::Unknown
    }
}

impl NmtState {
    /// Decode a state from its wire byte.
    pub fn from_byte(value: u8) -> (r: NmtState)
        ensures
            r == spec_state_from_byte(value),
    {
        match value {
            0 => NmtState::Initializing,
            5 => NmtState::Operational,
            4 => NmtState::Stopped,
            127 => NmtState::PreOperational,
            _ => NmtState::Unknown,
        }
    }

    /// Encode this state as its wire byte.
    pub fn to_byte(self) -> (r: u8)
        ensures
            r == spec_state_to_byte(self),
    {
        match self {
            NmtState::Initializing => 0,
            NmtState::Operational => 5,
            NmtState::Stopped => 4,
            NmtState::PreOperational => 127,
            NmtState::Unknown => 0xff,
        }
    }
}

impl NmtCommand {
    /// Decode a command from its wire byte.
    pub fn from_byte(value: u8) -> (r: NmtCommand)
        ensures
            r == spec_command_from_byte(value),
    {
        match value {
            1 => NmtCommand::EnterOperational,
            2 => NmtCommand::EnterStopped,
            128 => NmtCommand::EnterPreOperational,
            129 => NmtCommand::ResetDevice,
            130 => NmtCommand::ResetCommunication,
            _ => NmtCommand::Unknown,
        }
    }

    /// Encode this command as its wire byte.
    pub fn to_byte(self) -> (r: u8)
        ensures
            r == spec_command_to_byte(self),
    {
        match self {
            NmtCommand::Unknown => 0xff,
            NmtCommand::EnterOperational => 1,
            NmtCommand::EnterStopped => 2,
            NmtCommand::EnterPreOperational => 128,
            NmtCommand::ResetDevice => 129,
            NmtCommand::ResetCommunication => 130,
        }
    }
}

/// Decoding the encoding of any NMT state yields that state back.
pub proof fn lemma_state_round_trip(s: NmtState)
    ensures
        spec_state_from_byte(spec_state_to_byte(s)) == s,
{
}

/// Decoding the encoding of any NMT command yields that command back.
pub proof fn lemma_command_round_trip(c: NmtCommand)
    ensures
        spec_command_from_byte(spec_command_to_byte(c)) == c,
{
}

} // verus!
