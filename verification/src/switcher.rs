//! The channel switch as a machine that is told how each step went.
//!
//! A switch writes one report per addressed sub-device, rests after each
//! write, reconnects before every retry and gives up when its budget is
//! spent. Writing, reconnecting and sleeping are the caller's business: the
//! machine names the next [`Action`], the caller performs it and reports the
//! [`Outcome`], and so on until the machine answers [`Action::Finished`].

use vstd::prelude::*;
use crate::command::{DeviceCommand, MAX_CHANNEL};
use crate::error::Error;
use crate::locator::{locate, spec_receiver, DeviceIdentity};
use crate::retry::RetryPolicy;

verus! {

/// Milliseconds to rest after a write that went through.
pub const SETTLE_MS: u64 = 500;

/// Milliseconds to wait after a reconnect that did not find the receiver.
pub const RECONNECT_FAILED_MS: u64 = 1000;

/// Which sub-device indices a switch addresses.
#[derive(Clone, Copy, Debug, PartialEq, Eq, Structural)]
pub enum Probe {
    /// The keyboard under index 1 and the mouse under index 2.
    Paired,
    /// Keyboard and mouse each under both indices, for receivers that
    /// enumerate their peripherals the other way round.
    Both,
}

/// How the action the machine asked for went.
#[derive(Clone, Copy, Debug, PartialEq, Eq, Structural)]
pub enum Outcome {
    /// It was carried out.
    Completed,
    /// It met an error.
    Failed,
}

/// What the caller is to do next.
#[derive(Clone, Copy, Debug, PartialEq, Eq)]
pub enum Action {
    /// Write the report of this command to the open handle.
    Write(DeviceCommand),
    /// Drop the handle, locate the receiver anew and open it.
    Reconnect,
    /// Sleep for this many milliseconds.
    Pause(u64),
    /// Tell the user, as well as can be done, that the receiver is now on this
    /// channel.
    Notify(u8),
    /// The switch is over; this is its result.
    Finished(Result<(), Error>),
    /// No switch is under way: there is nothing to do.
    Idle,
}

impl Action {
    /// The failure that a failed action stands for, as a value of
    /// specifications.
    pub open spec fn spec_failure(self) -> Option<Error> {
        match self {
            Action::Write(_) => Some(Error::IoWriteFailed),
            Action::Reconnect => Some(Error::ReconnectFailed),
            Action::Notify(_) => Some(Error::NotificationFailed),
            _ => None,
        }
    }

    /// Names the failure that this action stands for when it fails: a write,
    /// a reconnect and a notification can fail, the other actions cannot.
    pub fn failure(&self) -> (failure: Option<Error>)
        ensures
            failure == self.spec_failure(),
    {
        match self {
            Action::Write(_) => Some(Error::IoWriteFailed),
            Action::Reconnect => Some(Error::ReconnectFailed),
            Action::Notify(_) => Some(Error::NotificationFailed),
            _ => None,
        }
    }
}

/// Which action of the machine is out with the caller.
#[derive(Clone, Copy, Debug, PartialEq, Eq, Structural)]
pub enum Phase {
    /// None: no switch is under way.
    Idle,
    /// A reconnect.
    Reconnecting,
    /// The rest after a reconnect that found the receiver.
    Settling,
    /// The wait after a reconnect that did not.
    BackingOff,
    /// The write of the command under the cursor.
    Writing,
    /// The rest after that write.
    Resting,
    /// The wait between two attempts.
    Waiting,
    /// The notification of the user.
    Notifying,
}

/// The commands of one pass over the device, in the order they are written.
pub open spec fn commands(probe: Probe, channel: u8) -> Seq<DeviceCommand> {
    match probe {
        Probe::Paired => seq![
            DeviceCommand::spec_keyboard(1, channel),
            DeviceCommand::spec_mouse(2, channel),
        ],
        Probe::Both => seq![
            DeviceCommand::spec_keyboard(1, channel),
            DeviceCommand::spec_keyboard(2, channel),
            DeviceCommand::spec_mouse(1, channel),
            DeviceCommand::spec_mouse(2, channel),
        ],
    }
}

/// All there is to know of a switcher: the channel it was last asked for, its
/// settings, and how far the switch under way has come.
#[derive(Clone, Copy, Debug, PartialEq, Eq)]
pub struct SwitcherState {
    /// The channel last asked for, whether or not the switch went through.
    /// The receiver acknowledges nothing, so this is the channel requested,
    /// never one that was confirmed, and a failed switch does not bring the
    /// old value back.
    pub channel: u8,
    /// The sub-device indices to address.
    pub probe: Probe,
    /// Whether a successful switch is announced to the user.
    pub notify: bool,
    /// The action that is out with the caller.
    pub phase: Phase,
    /// Number of the attempt under way, from 1.
    pub attempt: u8,
    /// Number of the pass over the device within this attempt, from 1.
    pub cycle: u8,
    /// Position, among the commands of a pass, of the one being written.
    pub cursor: usize,
}

impl SwitcherState {
    /// The state of a fresh switcher: on channel 0, with nothing under way.
    pub open spec fn initial(probe: Probe, notify: bool) -> SwitcherState {
        SwitcherState {
            channel: 0,
            probe,
            notify,
            phase: Phase::Idle,
            attempt: 1,
            cycle: 1,
            cursor: 0,
        }
    }

    /// The commands of one pass over the device.
    pub open spec fn commands(self) -> Seq<DeviceCommand> {
        commands(self.probe, self.channel)
    }

    /// What holds of every state the machine reaches: the counters stay
    /// within the budget, the cursor within the pass, and the first pass of a
    /// switch never reconnects.
    pub open spec fn wf(self) -> bool {
        &&& self.channel <= 2
        &&& 1 <= self.attempt <= 3
        &&& 1 <= self.cycle <= 3
        &&& self.cursor < self.commands().len()
        &&& self.phase is Waiting ==> self.attempt < 3
        &&& self.attempt == 1 && self.cycle == 1 ==> !(self.phase is Reconnecting
            || self.phase is Settling || self.phase is BackingOff)
    }

    /// Whether a switch is under way.
    pub open spec fn busy(self) -> bool {
        !(self.phase is Idle)
    }

    /// The state and first action of a switch to `channel`: the channel is
    /// taken over at once, and the first pass starts writing without a
    /// reconnect.
    pub open spec fn start(self, channel: u8) -> (SwitcherState, Action) {
        (SwitcherState { channel, attempt: 1, cycle: 1, ..self }).write_at(0)
    }

    /// Goes on to write the command at `cursor`.
    pub open spec fn write_at(self, cursor: usize) -> (SwitcherState, Action) {
        let next = SwitcherState { phase: Phase::Writing, cursor, ..self };
        (next, Action::Write(next.commands()[cursor as int]))
    }

    /// Opens a pass over the device. Every pass but the very first of a switch
    /// is a retry and starts by reconnecting.
    pub open spec fn open_cycle(self) -> (SwitcherState, Action) {
        if self.attempt > 1 || self.cycle > 1 {
            (SwitcherState { phase: Phase::Reconnecting, cursor: 0, ..self }, Action::Reconnect)
        } else {
            self.write_at(0)
        }
    }

    /// What follows a pass that failed: the next pass, or the end of the
    /// attempt once the third pass has failed.
    pub open spec fn cycle_failed(self) -> (SwitcherState, Action) {
        match RetryPolicy::spec_standard().spec_after_failure(self.cycle) {
            Some(_) => (SwitcherState { cycle: (self.cycle + 1) as u8, ..self }).open_cycle(),
            None => self.attempt_failed(),
        }
    }

    /// What follows an attempt that failed: a wait and then the next attempt,
    /// or the end of the switch once the third attempt has failed.
    pub open spec fn attempt_failed(self) -> (SwitcherState, Action) {
        match RetryPolicy::spec_standard().spec_after_failure(self.attempt) {
            Some(wait) => (SwitcherState { phase: Phase::Waiting, ..self }, Action::Pause(wait)),
            None => (
                SwitcherState { phase: Phase::Idle, ..self },
                Action::Finished(Err(Error::SwitchFailed)),
            ),
        }
    }

    /// What follows the last rest of a pass: every write went through.
    pub open spec fn succeeded(self) -> (SwitcherState, Action) {
        if self.notify {
            (SwitcherState { phase: Phase::Notifying, ..self }, Action::Notify(self.channel))
        } else {
            (SwitcherState { phase: Phase::Idle, ..self }, Action::Finished(Ok(())))
        }
    }

    /// The next state and action once the action that was out has ended with
    /// `outcome`. A pause cannot fail, and a notification that fails is let
    /// go: for those the outcome is not looked at.
    pub open spec fn advance(self, outcome: Outcome) -> (SwitcherState, Action) {
        match self.phase {
            Phase::Idle => (self, Action::Idle),
            Phase::Reconnecting => match outcome {
                Outcome::Completed => (
                    SwitcherState { phase: Phase::Settling, ..self },
                    Action::Pause(RetryPolicy::spec_standard().backoff_ms),
                ),
                Outcome::Failed => (
                    SwitcherState { phase: Phase::BackingOff, ..self },
                    Action::Pause(RECONNECT_FAILED_MS),
                ),
            },
            Phase::Settling => self.write_at(0),
            Phase::BackingOff => self.cycle_failed(),
            Phase::Writing => match outcome {
                Outcome::Completed => (
                    SwitcherState { phase: Phase::Resting, ..self },
                    Action::Pause(SETTLE_MS),
                ),
                Outcome::Failed => self.cycle_failed(),
            },
            Phase::Resting => if self.cursor + 1 < self.commands().len() {
                self.write_at((self.cursor + 1) as usize)
            } else {
                self.succeeded()
            },
            Phase::Waiting => (SwitcherState {
                attempt: (self.attempt + 1) as u8,
                cycle: 1,
                ..self
            }).open_cycle(),
            Phase::Notifying => (
                SwitcherState { phase: Phase::Idle, ..self },
                Action::Finished(Ok(())),
            ),
        }
    }

    /// A bound on the number of outcomes the machine still takes before it
    /// comes to rest.
    pub open spec fn remaining(self) -> int {
        let ahead = 10 * (3 - self.cycle) + 31 * (3 - self.attempt) + 3;
        match self.phase {
            Phase::Idle => 0,
            Phase::Notifying => 1,
            Phase::Waiting => 31 * (3 - self.attempt) + 3,
            Phase::Reconnecting => 10 + ahead,
            Phase::Settling => 9 + ahead,
            Phase::BackingOff => 1 + ahead,
            Phase::Writing => 8 - 2 * self.cursor + ahead,
            Phase::Resting => 7 - 2 * self.cursor + ahead,
        }
    }
}

/// The switcher: the receiver's current channel and the switch under way.
pub struct ChannelSwitcher {
    state: SwitcherState,
}

impl View for ChannelSwitcher {
    type V = SwitcherState;

    closed spec fn view(&self) -> SwitcherState {
        self.state
    }
}

impl ChannelSwitcher {
    #[verifier::type_invariant]
    spec fn inv(self) -> bool {
        self.state.wf()
    }

    /// Creates the switcher for the receiver found among `interfaces`, on
    /// channel 0, and says which of the interfaces is to be opened. Without a
    /// receiver there is no switcher.
    pub fn new(interfaces: &Vec<DeviceIdentity>, probe: Probe, notify: bool) -> (made: Result<
        (ChannelSwitcher, usize),
        Error,
    >)
        ensures
            match made {
                Ok((switcher, i)) => {
                    &&& switcher@ == SwitcherState::initial(probe, notify)
                    &&& i < interfaces.len()
                    &&& interfaces[i as int] == spec_receiver()
                    &&& forall|j: int| 0 <= j < i ==> interfaces[j] != spec_receiver()
                },
                Err(e) => {
                    &&& e == Error::DeviceNotFound
                    &&& forall|j: int|
                        0 <= j < interfaces.len() ==> interfaces[j] != spec_receiver()
                },
            },
    {
        match locate(interfaces) {
            Ok(i) => {
                let state = SwitcherState {
                    channel: 0,
                    probe,
                    notify,
                    phase: Phase::Idle,
                    attempt: 1,
                    cycle: 1,
                    cursor: 0,
                };
                Ok((ChannelSwitcher { state }, i))
            },
            Err(e) => Err(e),
        }
    }

    /// The channel last asked for.
    pub fn current_channel(&self) -> (channel: u8)
        ensures
            channel == self@.channel,
            channel <= 2,
    {
        proof {
            use_type_invariant(self);
        }
        self.state.channel
    }

    /// All there is to know of the switcher.
    pub fn state(&self) -> (state: SwitcherState)
        ensures
            state == self@,
            state.wf(),
    {
        proof {
            use_type_invariant(self);
        }
        self.state
    }

    /// Whether a switch is under way.
    pub fn is_busy(&self) -> (busy: bool)
        ensures
            busy == self@.busy(),
    {
        !matches!(self.state.phase, Phase::Idle)
    }

    /// Starts a switch to `channel` and names its first action. A channel
    /// above 2 is turned down before anything is asked of the device, and the
    /// switcher stays as it was. Otherwise the channel is taken over at once,
    /// however the switch ends, and a switch that was under way is dropped.
    pub fn switch_to_channel(&mut self, channel: u8) -> (first: Result<Action, Error>)
        ensures
            final(self)@.wf(),
            channel > 2 ==> first == Err::<Action, Error>(Error::InvalidChannel),
            channel > 2 ==> final(self)@ == old(self)@,
            channel <= 2 ==> first == Ok::<Action, Error>(old(self)@.start(channel).1),
            channel <= 2 ==> final(self)@ == old(self)@.start(channel).0,
    {
        proof {
            use_type_invariant(&*self);
        }
        if channel > MAX_CHANNEL {
            return Err(Error::InvalidChannel);
        }
        let fresh = SwitcherState { channel, attempt: 1, cycle: 1, ..self.state };
        let (next, action) = write_at(fresh, 0);
        self.state = next;
        Ok(action)
    }

    /// Takes the outcome of the action that was out and names the next one.
    /// The channel is never touched, and every call brings the switch nearer
    /// to its end.
    pub fn advance(&mut self, outcome: Outcome) -> (action: Action)
        ensures
            (final(self)@, action) == old(self)@.advance(outcome),
            final(self)@.wf(),
            final(self)@.channel == old(self)@.channel,
            old(self)@.busy() ==> final(self)@.remaining() < old(self)@.remaining(),
    {
        proof {
            use_type_invariant(&*self);
        }
        let state = self.state;
        let (next, action) = match state.phase {
            Phase::Idle => (state, Action::Idle),
            Phase::Reconnecting => match outcome {
                Outcome::Completed => (
                    SwitcherState { phase: Phase::Settling, ..state },
                    Action::Pause(RetryPolicy::standard().backoff_ms),
                ),
                Outcome::Failed => (
                    SwitcherState { phase: Phase::BackingOff, ..state },
                    Action::Pause(RECONNECT_FAILED_MS),
                ),
            },
            Phase::Settling => write_at(state, 0),
            Phase::BackingOff => cycle_failed(state),
            Phase::Writing => match outcome {
                Outcome::Completed => (
                    SwitcherState { phase: Phase::Resting, ..state },
                    Action::Pause(SETTLE_MS),
                ),
                Outcome::Failed => cycle_failed(state),
            },
            Phase::Resting => if state.cursor + 1 < command_count(state.probe) {
                write_at(state, state.cursor + 1)
            } else if state.notify {
                (SwitcherState { phase: Phase::Notifying, ..state }, Action::Notify(state.channel))
            } else {
                (SwitcherState { phase: Phase::Idle, ..state }, Action::Finished(Ok(())))
            },
            Phase::Waiting => open_cycle(
                SwitcherState { attempt: state.attempt + 1, cycle: 1, ..state },
            ),
            Phase::Notifying => (
                SwitcherState { phase: Phase::Idle, ..state },
                Action::Finished(Ok(())),
            ),
        };
        self.state = next;
        action
    }
}

/// Number of commands in one pass over the device.
fn command_count(probe: Probe) -> (n: usize)
    ensures
        forall|channel: u8| n == #[trigger] commands(probe, channel).len(),
{
    match probe {
        Probe::Paired => 2,
        Probe::Both => 4,
    }
}

/// The command at `cursor` of a pass.
fn command_at(probe: Probe, channel: u8, cursor: usize) -> (cmd: DeviceCommand)
    requires
        cursor < commands(probe, channel).len(),
    ensures
        cmd == commands(probe, channel)[cursor as int],
{
    match probe {
        Probe::Paired => if cursor == 0 {
            DeviceCommand::keyboard(1, channel)
        } else {
            DeviceCommand::mouse(2, channel)
        },
        Probe::Both => if cursor < 2 {
            DeviceCommand::keyboard((cursor + 1) as u8, channel)
        } else {
            DeviceCommand::mouse((cursor - 1) as u8, channel)
        },
    }
}

fn write_at(state: SwitcherState, cursor: usize) -> (step: (SwitcherState, Action))
    requires
        cursor < state.commands().len(),
    ensures
        step == state.write_at(cursor),
{
    let next = SwitcherState { phase: Phase::Writing, cursor, ..state };
    (next, Action::Write(command_at(next.probe, next.channel, cursor)))
}

fn open_cycle(state: SwitcherState) -> (step: (SwitcherState, Action))
    ensures
        step == state.open_cycle(),
{
    if state.attempt > 1 || state.cycle > 1 {
        (SwitcherState { phase: Phase::Reconnecting, cursor: 0, ..state }, Action::Reconnect)
    } else {
        write_at(state, 0)
    }
}

fn cycle_failed(state: SwitcherState) -> (step: (SwitcherState, Action))
    requires
        state.cycle <= 3,
    ensures
        step == state.cycle_failed(),
{
    let policy = RetryPolicy::standard();
    match policy.after_failure(state.cycle) {
        Some(_) => open_cycle(SwitcherState { cycle: state.cycle + 1, ..state }),
        None => match policy.after_failure(state.attempt) {
            Some(wait) => (SwitcherState { phase: Phase::Waiting, ..state }, Action::Pause(wait)),
            None => (
                SwitcherState { phase: Phase::Idle, ..state },
                Action::Finished(Err(Error::SwitchFailed)),
            ),
        },
    }
}

} // verus!
