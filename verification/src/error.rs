//! What can go wrong, and what becomes of each failure.

use vstd::prelude::*;

verus! {

/// The failures this crate knows.
#[derive(Clone, Copy, Debug, PartialEq, Eq, Structural)]
pub enum Error {
    /// No enumerated HID interface is the receiver's.
    DeviceNotFound,
    /// No keyboard input device could be found.
    KeyboardNotFound,
    /// The requested channel is none of the receiver's.
    InvalidChannel,
    /// One write to the device failed.
    IoWriteFailed,
    /// The receiver was not found again while reconnecting.
    ReconnectFailed,
    /// The retry budget of a switch is spent.
    SwitchFailed,
    /// The desktop notification could not be shown.
    NotificationFailed,
}

/// What is done about a failure.
#[derive(Clone, Copy, Debug, PartialEq, Eq, Structural)]
pub enum Handling {
    /// The process cannot go on and exits with an error.
    Fatal,
    /// Recovered from on the spot, by reconnecting and retrying within the budget.
    Retried,
    /// Handed to the caller; the process keeps running.
    Reported,
    /// Written to the log and otherwise ignored.
    Logged,
}

impl Error {
    /// How each failure is handled: only a missing receiver or keyboard at
    /// startup ends the process.
    pub open spec fn spec_handling(self) -> Handling {
        match self {
            Error::DeviceNotFound => Handling::Fatal,
            Error::KeyboardNotFound => Handling::Fatal,
            Error::InvalidChannel => Handling::Reported,
            Error::IoWriteFailed => Handling::Retried,
            Error::ReconnectFailed => Handling::Retried,
            Error::SwitchFailed => Handling::Reported,
            Error::NotificationFailed => Handling::Logged,
        }
    }

    /// What is done about this failure.
    pub fn handling(&self) -> (h: Handling)
        ensures
            h == self.spec_handling(),
    {
        match self {
            Error::DeviceNotFound | Error::KeyboardNotFound => Handling::Fatal,
            Error::IoWriteFailed | Error::ReconnectFailed => Handling::Retried,
            Error::InvalidChannel | Error::SwitchFailed => Handling::Reported,
            Error::NotificationFailed => Handling::Logged,
        }
    }

    /// Whether the process must exit on this failure.
    pub fn is_fatal(&self) -> (fatal: bool)
        ensures
            fatal <==> self.spec_handling() == Handling::Fatal,
    {
        match self {
            Error::DeviceNotFound | Error::KeyboardNotFound => true,
            _ => false,
        }
    }
}

} // verus!
