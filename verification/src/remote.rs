//! The decoded remote-control input model.
//!
//! Decoding the infrared signal itself (edge timestamps to command codes) is
//! the application layer's job; the library works from the decoded button
//! identity.  `NadRc512` holds the canonical handset's command-code table;
//! `RemoteKey` is the key set of the second supported handset, mapped by the
//! application layer's own driver.

use vstd::prelude::*;

verus! {

/// A decoded remote-control button.
#[derive(Clone, Copy, Debug, PartialEq, Eq, Structural)]
pub enum RemoteAction {
    Zero,
    One,
    Two,
    Three,
    Four,
    Five,
    Six,
    Seven,
    Eight,
    Nine,
    Stop,
    PlayPause,
    Time,
    Random,
    Repeat,
    Teletext,
    Prog,
    Prev,
    Next,
    Rewind,
    Forward,
}

/// The keys of the secondary handset (a small card-style remote); its
/// GPIO driver in the application layer produces these.
#[derive(Clone, Copy, Debug, PartialEq, Eq, Structural)]
pub enum RemoteKey {
    ChannelMinus,
    Channel,
    ChannelPlus,
    Prev,
    Next,
    PlayPause,
    VolumeMinus,
    VolumePlus,
    Eq,
    Num0,
    Num100Plus,
    Num200Plus,
    Num1,
    Num2,
    Num3,
    Num4,
    Num5,
    Num6,
    Num7,
    Num8,
    Num9,
}

/// The canonical handset: an NEC-protocol remote at device address 135.
#[derive(Clone, Copy, Debug, Default)]
pub struct NadRc512;

/// The device address the handset transmits under.
pub const NAD_RC512_ADDRESS: u32 = 135;

/// The button an NEC command code of the canonical handset stands for.
pub open spec fn nad_rc512_action_spec(command: u32) -> Option<RemoteAction> {
    if command == 2 {
        Some(RemoteAction::Stop)
    } else if command == 1 {
        Some(RemoteAction::PlayPause)
    } else if command == 3 {
        Some(RemoteAction::Random)
    } else if command == 8 {
        Some(RemoteAction::Time)
    } else if command == 10 {
        Some(RemoteAction::Repeat)
    } else if command == 12 {
        Some(RemoteAction::One)
    } else if command == 13 {
        Some(RemoteAction::Two)
    } else if command == 14 {
        Some(RemoteAction::Three)
    } else if command == 15 {
        Some(RemoteAction::Four)
    } else if command == 16 {
        Some(RemoteAction::Five)
    } else if command == 17 {
        Some(RemoteAction::Six)
    } else if command == 18 {
        Some(RemoteAction::Seven)
    } else if command == 19 {
        Some(RemoteAction::Eight)
    } else if command == 21 {
        Some(RemoteAction::Nine)
    } else if command == 77 {
        Some(RemoteAction::Teletext)
    } else if command == 76 {
        Some(RemoteAction::Zero)
    } else if command == 11 {
        Some(RemoteAction::Prog)
    } else if command == 5 {
        Some(RemoteAction::Prev)
    } else if command == 6 {
        Some(RemoteAction::Next)
    } else if command == 4 {
        Some(RemoteAction::Rewind)
    } else if command == 7 {
        Some(RemoteAction::Forward)
    } else {
        None
    }
}

impl NadRc512 {
    /// Looks a decoded NEC frame up in the handset's button table; frames
    /// addressed to another device are not ours.
    pub fn action_for(address: u32, command: u32) -> (r: Option<RemoteAction>)
        ensures
            r == if address == NAD_RC512_ADDRESS {
                nad_rc512_action_spec(command)
            } else {
                None::<RemoteAction>
            },
    {
        if address != NAD_RC512_ADDRESS {
            return None;
        }
        match command {
            2 => Some(RemoteAction::Stop),
            1 => Some(RemoteAction::PlayPause),
            3 => Some(RemoteAction::Random),
            8 => Some(RemoteAction::Time),
            10 => Some(RemoteAction::Repeat),
            12 => Some(RemoteAction::One),
            13 => Some(RemoteAction::Two),
            14 => Some(RemoteAction::Three),
            15 => Some(RemoteAction::Four),
            16 => Some(RemoteAction::Five),
            17 => Some(RemoteAction::Six),
            18 => Some(RemoteAction::Seven),
            19 => Some(RemoteAction::Eight),
            21 => Some(RemoteAction::Nine),
            77 => Some(RemoteAction::Teletext),
            76 => Some(RemoteAction::Zero),
            11 => Some(RemoteAction::Prog),
            5 => Some(RemoteAction::Prev),
            6 => Some(RemoteAction::Next),
            4 => Some(RemoteAction::Rewind),
            7 => Some(RemoteAction::Forward),
            _ => None,
        }
    }
}

} // verus!
