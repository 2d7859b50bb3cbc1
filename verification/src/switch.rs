//! The switch: what its position lights up, and what it says on the
//! serial line.

use vstd::prelude::*;
use crate::runner::SerialEvent;

verus! {

/// What the switch shows and says in one position.
#[derive(Clone, Copy, Debug, PartialEq, Eq, Structural)]
pub struct Signal {
    /// Whether the red lamp is lit.
    pub red: bool,
    /// Whether the blue lamp is lit.
    pub blue: bool,
    /// What goes out on the serial line.
    pub event: SerialEvent,
}

/// The signal of a switch whose input reads low, or high. Low is off: the
/// red lamp and `Turn Off`; high is on: the blue lamp and `Turn On`.
pub fn signal(low: bool) -> (signal: Signal)
    ensures
        signal == if low {
            (Signal { red: true, blue: false, event: SerialEvent::TurnOff })
        } else {
            (Signal { red: false, blue: true, event: SerialEvent::TurnOn })
        },
{
    if low {
        Signal { red: true, blue: false, event: SerialEvent::TurnOff }
    } else {
        Signal { red: false, blue: true, event: SerialEvent::TurnOn }
    }
}

/// The line that says `event` on the serial line; nothing for what the
/// switch never says.
pub fn word(event: SerialEvent) -> (line: Option<String>)
    ensures
        match event {
            SerialEvent::TurnOn => line matches Some(text) && text@ == "Turn On"@,
            SerialEvent::TurnOff => line matches Some(text) && text@ == "Turn Off"@,
            SerialEvent::Unrecognized => line is None,
        },
{
    match event {
        SerialEvent::TurnOn => Some(String::from_str("Turn On")),
        SerialEvent::TurnOff => Some(String::from_str("Turn Off")),
        SerialEvent::Unrecognized => None,
    }
}

} // verus!
