//! The settings of a run, fixed once at startup and handed to whoever needs
//! them.

use vstd::prelude::*;
use crate::error::Error;
use crate::gesture::{InputObserver, ObserverState, OtherDigit, Scheme};
use crate::keys::Backend;
use crate::locator::{spec_receiver, DeviceIdentity};
use crate::switcher::{ChannelSwitcher, Probe, SwitcherState};

verus! {

/// The settings of a run.
#[derive(Clone, Copy, Debug, PartialEq, Eq, Structural)]
pub struct Config {
    /// Whether the caller logs what it does in detail.
    pub debug: bool,
    /// Whether a desktop is there to show notifications on.
    pub notify: bool,
    /// The sub-device indices a switch addresses.
    pub probe: Probe,
    /// The gesture that asks for a switch.
    pub scheme: Scheme,
    /// What the press of another digit does to an armed observer.
    pub other_digit: OtherDigit,
    /// Where the key state comes from.
    pub backend: Backend,
}

impl Config {
    /// The settings that follow from what the process finds at startup.
    pub open spec fn spec_from_environment(
        debug_set: bool,
        display_set: bool,
        raw_events_offered: bool,
    ) -> Config {
        Config {
            debug: debug_set,
            notify: display_set,
            probe: Probe::Both,
            scheme: Scheme::DoublePress,
            other_digit: OtherDigit::Rearm,
            backend: if raw_events_offered {
                Backend::RawEvents
            } else {
                Backend::Polled
            },
        }
    }

    /// Builds the settings from what the process finds at startup: whether
    /// the debug variable is set, whether a display variable is set, and
    /// whether the platform offers raw event devices. Both sub-device indices
    /// are addressed, and the gesture is the double press on which another
    /// digit arms anew.
    pub fn from_environment(debug_set: bool, display_set: bool, raw_events_offered: bool) -> (config:
        Config)
        ensures
            config == Config::spec_from_environment(debug_set, display_set, raw_events_offered),
    {
        Config {
            debug: debug_set,
            notify: display_set,
            probe: Probe::Both,
            scheme: Scheme::DoublePress,
            other_digit: OtherDigit::Rearm,
            backend: Backend::select(raw_events_offered),
        }
    }

    /// Creates the switcher of this run for the receiver found among
    /// `interfaces`, and says which of them is to be opened.
    pub fn switcher(&self, interfaces: &Vec<DeviceIdentity>) -> (made: Result<
        (ChannelSwitcher, usize),
        Error,
    >)
        ensures
            match made {
                Ok((switcher, i)) => {
                    &&& switcher@ == SwitcherState::initial(self.probe, self.notify)
                    &&& i < interfaces.len()
                    &&& interfaces[i as int] == spec_receiver()
                    &&& forall|j: int| 0 <= j < i ==> interfaces[j] != spec_receiver()
                },
                Err(e) => {
                    &&& e == Error::DeviceNotFound
                    &&& forall|j: int|
                        0 <= j < interfaces.len() ==> interfaces[j] != spec_receiver()
                },
            },
    {
        ChannelSwitcher::new(interfaces, self.probe, self.notify)
    }

    /// Creates the observer of this run.
    pub fn observer(&self) -> (observer: InputObserver)
        ensures
            observer@ == ObserverState::initial(self.scheme, self.other_digit),
    {
        InputObserver::new(self.scheme, self.other_digit)
    }
}

} // verus!
