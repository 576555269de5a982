//! Telling a request to switch from ordinary typing.
//!
//! The observer is shown, poll after poll, which watched keys are down, and
//! answers with the channel to switch to when it has seen the gesture. Two
//! gestures are known. With the modifier scheme Alt held together with a
//! digit is the request. With the double-press scheme the same digit has to
//! go down twice within half a second; a single press arms the observer, and a
//! press of another digit or a second press that comes too late never fires.

use vstd::prelude::*;
use crate::keys::{Backend, Keys};

verus! {

/// Milliseconds within which the second press of a digit has to follow the
/// first.
pub const DOUBLE_PRESS_WINDOW_MS: u64 = 500;

/// Milliseconds to pause after a gesture was acted on, so that key repeat
/// does not fire it again.
pub const COOLDOWN_MS: u64 = 300;

/// The gesture that asks for a switch.
#[derive(Clone, Copy, Debug, PartialEq, Eq, Structural)]
pub enum Scheme {
    /// Alt together with a digit.
    Modifier,
    /// The same digit twice within the window.
    DoublePress,
}

/// What the press of another digit does to an observer that is armed.
#[derive(Clone, Copy, Debug, PartialEq, Eq, Structural)]
pub enum OtherDigit {
    /// The new press arms the observer in place of the old one.
    Rearm,
    /// The observer forgets the old press and is not armed by the new one.
    Reset,
}

/// The press of a digit that armed the observer.
#[derive(Clone, Copy, Debug, PartialEq, Eq, Structural)]
pub struct Press {
    /// The channel of the digit.
    pub channel: u8,
    /// When it went down, in milliseconds of a monotonic clock.
    pub at_ms: u64,
}

impl Press {
    /// Whether `now_ms` lies within the window that this press opened.
    pub open spec fn in_window(self, now_ms: u64) -> bool {
        self.at_ms <= now_ms && now_ms - self.at_ms <= 500
    }
}

/// All there is to know of an observer: its settings, the press it is armed
/// with, and whether a digit was down at the last poll.
#[derive(Clone, Copy, Debug, PartialEq, Eq, Structural)]
pub struct ObserverState {
    /// The gesture to look for.
    pub scheme: Scheme,
    /// What the press of another digit does when armed.
    pub other_digit: OtherDigit,
    /// The press that armed the observer, if it is armed.
    pub armed: Option<Press>,
    /// Whether a digit was down at the last poll. While one stays down no new
    /// press is counted.
    pub key_down: bool,
}

impl ObserverState {
    /// The state of a fresh observer: idle, no key down.
    pub open spec fn initial(scheme: Scheme, other_digit: OtherDigit) -> ObserverState {
        ObserverState { scheme, other_digit, armed: None, key_down: false }
    }

    /// What holds of every state the observer reaches.
    pub open spec fn wf(self) -> bool {
        self.armed matches Some(press) ==> press.channel <= 2
    }

    /// The press the observer is still armed with at `now_ms`: an arming
    /// lapses when its window has passed.
    pub open spec fn armed_at(self, now_ms: u64) -> Option<Press> {
        match self.armed {
            Some(press) if press.in_window(now_ms) => Some(press),
            _ => None,
        }
    }

    /// What the double-press scheme makes of the fresh press of the digit for
    /// `channel` at `now_ms`: the second press of the armed digit fires and
    /// disarms; any other press fires nothing.
    pub open spec fn double_press(self, channel: u8, now_ms: u64) -> (Option<Press>, Option<u8>) {
        match self.armed_at(now_ms) {
            Some(press) if press.channel == channel => (None, Some(channel)),
            Some(_) => match self.other_digit {
                OtherDigit::Rearm => (Some(Press { channel, at_ms: now_ms }), None),
                OtherDigit::Reset => (None, None),
            },
            None => (Some(Press { channel, at_ms: now_ms }), None),
        }
    }

    /// The next state and the channel to switch to, if any, once the observer
    /// has been shown `keys` at `now_ms`.
    pub open spec fn observe(self, keys: Keys, now_ms: u64) -> (ObserverState, Option<u8>) {
        match keys.spec_channel() {
            None => (ObserverState { armed: self.armed_at(now_ms), key_down: false, ..self }, None),
            Some(channel) => match self.scheme {
                Scheme::Modifier => (
                    ObserverState { armed: None, key_down: true, ..self },
                    if keys.modifier {
                        Some(channel)
                    } else {
                        None
                    },
                ),
                Scheme::DoublePress => if self.key_down {
                    (ObserverState { armed: self.armed_at(now_ms), ..self }, None)
                } else {
                    let (armed, intent) = self.double_press(channel, now_ms);
                    (ObserverState { armed, key_down: true, ..self }, intent)
                },
            },
        }
    }
}

/// The observer of the watched keys.
pub struct InputObserver {
    state: ObserverState,
}

impl View for InputObserver {
    type V = ObserverState;

    closed spec fn view(&self) -> ObserverState {
        self.state
    }
}

impl InputObserver {
    #[verifier::type_invariant]
    spec fn inv(self) -> bool {
        self.state.wf()
    }

    /// Creates an idle observer that looks for the gesture of `scheme`.
    pub fn new(scheme: Scheme, other_digit: OtherDigit) -> (observer: InputObserver)
        ensures
            observer@ == ObserverState::initial(scheme, other_digit),
    {
        InputObserver { state: ObserverState { scheme, other_digit, armed: None, key_down: false } }
    }

    /// All there is to know of the observer.
    pub fn state(&self) -> (state: ObserverState)
        ensures
            state == self@,
            state.wf(),
    {
        proof {
            use_type_invariant(self);
        }
        self.state
    }

    /// The digit's channel and the time of the press the observer is armed
    /// with, if it is armed.
    pub fn armed(&self) -> (armed: Option<Press>)
        ensures
            armed == self@.armed,
    {
        self.state.armed
    }

    /// Shows the observer the keys that are down at `now_ms`, and returns the
    /// channel to switch to if this completes the gesture.
    pub fn observe(&mut self, keys: Keys, now_ms: u64) -> (intent: Option<u8>)
        ensures
            (final(self)@, intent) == old(self)@.observe(keys, now_ms),
            final(self)@.wf(),
            intent matches Some(channel) ==> channel <= 2,
    {
        proof {
            use_type_invariant(&*self);
        }
        let state = self.state;
        let still_armed = match state.armed {
            Some(press) => if press.at_ms <= now_ms && now_ms - press.at_ms
                <= DOUBLE_PRESS_WINDOW_MS {
                Some(press)
            } else {
                None
            },
            None => None,
        };
        let (next, intent) = match keys.channel() {
            None => (ObserverState { armed: still_armed, key_down: false, ..state }, None),
            Some(channel) => match state.scheme {
                Scheme::Modifier => {
                    let intent = if keys.modifier {
                        Some(channel)
                    } else {
                        None
                    };
                    (ObserverState { armed: None, key_down: true, ..state }, intent)
                },
                Scheme::DoublePress => if state.key_down {
                    (ObserverState { armed: still_armed, ..state }, None)
                } else {
                    let fresh = Some(Press { channel, at_ms: now_ms });
                    let (armed, intent) = match still_armed {
                        None => (fresh, None),
                        Some(press) => if press.channel == channel {
                            (None, Some(channel))
                        } else {
                            match state.other_digit {
                                OtherDigit::Rearm => (fresh, None),
                                OtherDigit::Reset => (None, None),
                            }
                        },
                    };
                    (ObserverState { armed, key_down: true, ..state }, intent)
                },
            },
        };
        self.state = next;
        intent
    }
}

/// How long the polling loop sleeps after a poll: the cooldown if the poll
/// fired a switch, else the interval of the key source.
pub fn pause_after(intent: Option<u8>, backend: Backend) -> (ms: u64)
    ensures
        ms == (match intent {
            Some(_) => 300u64,
            None => match backend {
                Backend::RawEvents => 10u64,
                Backend::Polled => 50u64,
            },
        }),
{
    match intent {
        Some(_) => COOLDOWN_MS,
        None => backend.poll_interval_ms(),
    }
}

/// Under the double-press scheme a switch to a channel is fired only by a
/// fresh press of that channel's digit, and only while the observer is armed
/// with an earlier press of the same digit that is at most half a second old.
/// Firing disarms the observer.
pub proof fn lemma_fires_only_on_second_press(
    state: ObserverState,
    keys: Keys,
    now_ms: u64,
    channel: u8,
)
    requires
        state.scheme is DoublePress,
        state.observe(keys, now_ms).1 == Some(channel),
    ensures
        keys.spec_channel() == Some(channel),
        !state.key_down,
        state.armed is Some,
        state.armed->0.channel == channel,
        state.armed->0.at_ms <= now_ms <= state.armed->0.at_ms + 500,
        state.observe(keys, now_ms).0.armed is None,
{
}

/// Two presses of the same digit, with a release between them: the first arms
/// an idle observer and fires nothing, the release fires nothing, and the
/// second press fires the digit's channel if and only if it comes no more than
/// half a second after the first. If it comes later, it fires nothing and
/// leaves the observer armed with the second press.
pub proof fn lemma_double_press(
    state: ObserverState,
    first: Keys,
    first_ms: u64,
    released_ms: u64,
    second: Keys,
    second_ms: u64,
    channel: u8,
)
    requires
        state.scheme is DoublePress,
        state.armed is None,
        !state.key_down,
        first.spec_channel() == Some(channel),
        second.spec_channel() == Some(channel),
        first_ms <= released_ms <= second_ms,
    ensures
        ({
            let (armed, on_first) = state.observe(first, first_ms);
            let (released, on_release) = armed.observe(Keys::spec_none(), released_ms);
            let (after, on_second) = released.observe(second, second_ms);
            &&& on_first is None
            &&& on_release is None
            &&& armed.armed == Some(Press { channel, at_ms: first_ms })
            &&& second_ms - first_ms <= 500 ==> on_second == Some(channel) && after.armed is None
            &&& second_ms - first_ms > 500 ==> on_second is None && after.armed == Some(
                Press { channel, at_ms: second_ms },
            )
        }),
{
}

/// Different digits never combine. Whatever the observer has seen before: when
/// one digit is pressed and released and then another digit is pressed, at any
/// times at all, neither the release nor the second press fires a switch, and
/// the first press fires none unless the observer was already armed.
pub proof fn lemma_different_digits_never_combine(
    state: ObserverState,
    first: Keys,
    first_ms: u64,
    released_ms: u64,
    second: Keys,
    second_ms: u64,
)
    requires
        state.scheme is DoublePress,
        !state.key_down,
        first.spec_channel() is Some,
        second.spec_channel() is Some,
        first.spec_channel() != second.spec_channel(),
    ensures
        ({
            let (armed, on_first) = state.observe(first, first_ms);
            let (released, on_release) = armed.observe(Keys::spec_none(), released_ms);
            let (after, on_second) = released.observe(second, second_ms);
            &&& state.armed is None ==> on_first is None
            &&& on_release is None
            &&& on_second is None
        }),
{
}

/// A digit that is held down counts once: as long as polls keep showing a
/// digit down, no poll after the first fires a switch under the double-press
/// scheme.
pub proof fn lemma_held_key_fires_nothing(state: ObserverState, keys: Keys, now_ms: u64)
    requires
        state.scheme is DoublePress,
        state.key_down,
    ensures
        state.observe(keys, now_ms).1 is None,
{
}

/// The modifier scheme keeps nothing in mind: whether a poll fires depends on
/// the keys it shows alone, not on what was seen before or when. It fires the
/// channel of the digit that is down if and only if Alt is down with it, and
/// it never arms the observer.
pub proof fn lemma_modifier_scheme(state: ObserverState, keys: Keys, now_ms: u64)
    requires
        state.scheme is Modifier,
    ensures
        state.observe(keys, now_ms).1 == (if keys.modifier {
            keys.spec_channel()
        } else {
            None
        }),
        state.armed is None ==> state.observe(keys, now_ms).0.armed is None,
{
}

} // verus!
