//! The serial side channel: single-byte commands that stand in for remote
//! buttons during bench work.  Reading the port is the application layer's
//! job; the library maps the byte to an action.

use vstd::prelude::*;

verus! {

use crate::remote::RemoteAction;

/// The serial command task; it owns no state of its own.
#[derive(Debug)]
pub struct UartTask {}

impl UartTask {
    pub fn init() -> (t: UartTask) {
        UartTask {}
    }
}

/// The action a command byte stands for: digits map to the digit keys, and
/// a letter picks each named key.
pub open spec fn uart_action_spec(byte: u8) -> Option<RemoteAction> {
    if byte == 49 {  // '1'
        Some(RemoteAction::One)
    } else if byte == 50 {  // '2'
        Some(RemoteAction::Two)
    } else if byte == 51 {  // '3'
        Some(RemoteAction::Three)
    } else if byte == 52 {  // '4'
        Some(RemoteAction::Four)
    } else if byte == 53 {  // '5'
        Some(RemoteAction::Five)
    } else if byte == 54 {  // '6'
        Some(RemoteAction::Six)
    } else if byte == 55 {  // '7'
        Some(RemoteAction::Seven)
    } else if byte == 56 {  // '8'
        Some(RemoteAction::Eight)
    } else if byte == 57 {  // '9'
        Some(RemoteAction::Nine)
    } else if byte == 48 {  // '0'
        Some(RemoteAction::Zero)
    } else if byte == 115 {  // 's'
        Some(RemoteAction::Stop)
    } else if byte == 112 {  // 'p'
        Some(RemoteAction::PlayPause)
    } else if byte == 116 {  // 't'
        Some(RemoteAction::Time)
    } else if byte == 120 {  // 'x'
        Some(RemoteAction::Teletext)
    } else if byte == 114 {  // 'r'
        Some(RemoteAction::Repeat)
    } else if byte == 63 {  // '?'
        Some(RemoteAction::Random)
    } else if byte == 103 {  // 'g'
        Some(RemoteAction::Prog)
    } else if byte == 60 {  // '<'
        Some(RemoteAction::Prev)
    } else if byte == 62 {  // '>'
        Some(RemoteAction::Next)
    } else if byte == 91 {  // '['
        Some(RemoteAction::Rewind)
    } else if byte == 93 {  // ']'
        Some(RemoteAction::Forward)
    } else {
        None
    }
}

/// Decodes one serial command byte into a remote action.
pub fn uart_action(byte: u8) -> (r: Option<RemoteAction>)
    ensures
        r == uart_action_spec(byte),
{
    match byte {
        49 => Some(RemoteAction::One),
        50 => Some(RemoteAction::Two),
        51 => Some(RemoteAction::Three),
        52 => Some(RemoteAction::Four),
        53 => Some(RemoteAction::Five),
        54 => Some(RemoteAction::Six),
        55 => Some(RemoteAction::Seven),
        56 => Some(RemoteAction::Eight),
        57 => Some(RemoteAction::Nine),
        48 => Some(RemoteAction::Zero),
        115 => Some(RemoteAction::Stop),
        112 => Some(RemoteAction::PlayPause),
        116 => Some(RemoteAction::Time),
        120 => Some(RemoteAction::Teletext),
        114 => Some(RemoteAction::Repeat),
        63 => Some(RemoteAction::Random),
        103 => Some(RemoteAction::Prog),
        60 => Some(RemoteAction::Prev),
        62 => Some(RemoteAction::Next),
        91 => Some(RemoteAction::Rewind),
        93 => Some(RemoteAction::Forward),
        _ => None,
    }
}

} // verus!
