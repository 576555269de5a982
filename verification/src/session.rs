//! Whole switches: what the machine asks for over a run of outcomes.
//!
//! A caller drives a switch by handing the machine the outcome of each action
//! in turn. The functions here speak of such a run as one value, and the
//! lemmas state what holds of every run: that it ends, what a device that
//! takes every write makes of it, and what a device that takes none does.

use vstd::prelude::*;
use crate::error::Error;
use crate::switcher::{commands, Action, Outcome, Phase, Probe, SwitcherState};

verus! {

/// The state reached and the actions asked for when the outcomes of
/// `outcomes` are handed to the machine in turn, one for each action.
pub open spec fn run(state: SwitcherState, outcomes: Seq<Outcome>) -> (SwitcherState, Seq<Action>)
    decreases outcomes.len(),
{
    if outcomes.len() == 0 {
        (state, Seq::empty())
    } else {
        let (before, actions) = run(state, outcomes.drop_last());
        let (after, action) = before.advance(outcomes.last());
        (after, actions.push(action))
    }
}

/// A switch to `channel` from its start: the state reached and every action
/// asked for, the first one included.
pub open spec fn switch(state: SwitcherState, channel: u8, outcomes: Seq<Outcome>) -> (
    SwitcherState,
    Seq<Action>,
) {
    let (started, first) = state.start(channel);
    let (ended, rest) = run(started, outcomes);
    (ended, seq![first] + rest)
}

/// Whether every write that the machine asks for during the run fails.
/// Reconnects, pauses and notifications may go either way.
pub open spec fn every_write_fails(state: SwitcherState, outcomes: Seq<Outcome>) -> bool {
    forall|i: int|
        0 <= i < outcomes.len() && (#[trigger] run(state, outcomes.take(i))).0.phase is Writing
            ==> outcomes[i] is Failed
}

/// `n` outcomes of a device on which nothing fails.
pub open spec fn all_completed(n: nat) -> Seq<Outcome> {
    Seq::new(n, |i: int| Outcome::Completed)
}

/// The actions of a switch to `channel` on which nothing fails: each command
/// of one pass is written and followed by a rest, the user is told if the
/// switcher is set to do so, and the switch ends well.
pub open spec fn smooth_switch(probe: Probe, notify: bool, channel: u8) -> Seq<Action> {
    let writes = match probe {
        Probe::Paired => seq![
            Action::Write(commands(probe, channel)[0]),
            Action::Pause(500),
            Action::Write(commands(probe, channel)[1]),
            Action::Pause(500),
        ],
        Probe::Both => seq![
            Action::Write(commands(probe, channel)[0]),
            Action::Pause(500),
            Action::Write(commands(probe, channel)[1]),
            Action::Pause(500),
            Action::Write(commands(probe, channel)[2]),
            Action::Pause(500),
            Action::Write(commands(probe, channel)[3]),
            Action::Pause(500),
        ],
    };
    if notify {
        writes + seq![Action::Notify(channel), Action::Finished(Ok(()))]
    } else {
        writes + seq![Action::Finished(Ok(()))]
    }
}

/// Handing the machine one more outcome extends the run by one step.
pub proof fn lemma_run_push(state: SwitcherState, outcomes: Seq<Outcome>, outcome: Outcome)
    ensures
        run(state, outcomes.push(outcome)) == ({
            let (before, actions) = run(state, outcomes);
            let (after, action) = before.advance(outcome);
            (after, actions.push(action))
        }),
{
    assert(outcomes.push(outcome).drop_last() =~= outcomes);
}

/// One step keeps a well-formed state well-formed, leaves channel and
/// settings alone and, while a switch is under way, brings it nearer to its
/// end.
pub proof fn lemma_advance(state: SwitcherState, outcome: Outcome)
    requires
        state.wf(),
    ensures
        state.advance(outcome).0.wf(),
        state.advance(outcome).0.channel == state.channel,
        state.advance(outcome).0.probe == state.probe,
        state.advance(outcome).0.notify == state.notify,
        state.busy() ==> state.advance(outcome).0.remaining() < state.remaining(),
        !state.busy() ==> state.advance(outcome) == (state, Action::Idle),
        0 <= state.remaining() <= 93,
        state.remaining() == 0 <==> !state.busy(),
{
}

/// A run keeps a well-formed state well-formed and never touches the channel
/// or the settings: the channel a switch was started for stays, however the
/// switch goes.
pub proof fn lemma_run_keeps_channel(state: SwitcherState, outcomes: Seq<Outcome>)
    requires
        state.wf(),
    ensures
        run(state, outcomes).0.wf(),
        run(state, outcomes).0.channel == state.channel,
        run(state, outcomes).0.probe == state.probe,
        run(state, outcomes).0.notify == state.notify,
        run(state, outcomes).1.len() == outcomes.len(),
    decreases outcomes.len(),
{
    if outcomes.len() > 0 {
        lemma_run_keeps_channel(state, outcomes.drop_last());
        lemma_advance(run(state, outcomes.drop_last()).0, outcomes.last());
    }
}

/// Every switch ends. Whatever the outcomes are, each one brings the machine
/// nearer to rest, and after 93 of them at the latest no switch is under way
/// any more.
pub proof fn lemma_run_ends(state: SwitcherState, outcomes: Seq<Outcome>)
    requires
        state.wf(),
    ensures
        run(state, outcomes).0.remaining() <= state.remaining(),
        run(state, outcomes).0.busy() ==> run(state, outcomes).0.remaining() + outcomes.len()
            <= state.remaining(),
        outcomes.len() >= 93 ==> !run(state, outcomes).0.busy(),
    decreases outcomes.len(),
{
    lemma_advance(state, Outcome::Completed);
    if outcomes.len() > 0 {
        let before = run(state, outcomes.drop_last()).0;
        lemma_run_ends(state, outcomes.drop_last());
        lemma_run_keeps_channel(state, outcomes.drop_last());
        lemma_advance(before, outcomes.last());
    }
}

/// The states of a switch on which no write has gone through yet.
spec fn stuck(state: SwitcherState, channel: u8) -> bool {
    &&& state.wf()
    &&& state.channel == channel
    &&& match state.phase {
        Phase::Reconnecting | Phase::Settling | Phase::BackingOff | Phase::Waiting => true,
        Phase::Writing => state.cursor == 0,
        _ => false,
    }
}

/// From a stuck state a failed write leads to another stuck state or to the
/// end of the switch, and then the third attempt has just failed.
proof fn lemma_stuck_step(state: SwitcherState, channel: u8, outcome: Outcome)
    requires
        stuck(state, channel),
        state.phase is Writing ==> outcome is Failed,
    ensures
        ({
            let (after, action) = state.advance(outcome);
            ||| stuck(after, channel)
            ||| {
                &&& !after.busy()
                &&& action == Action::Finished(Err(Error::SwitchFailed))
                &&& after.attempt == 3
                &&& after.cycle == 3
                &&& after.channel == channel
            }
        }),
{
}

/// As long as every write fails, a switch that is still under way is stuck.
proof fn lemma_stuck_run(state: SwitcherState, channel: u8, outcomes: Seq<Outcome>)
    requires
        stuck(state, channel),
        every_write_fails(state, outcomes),
    ensures
        run(state, outcomes).0.busy() ==> stuck(run(state, outcomes).0, channel),
    decreases outcomes.len(),
{
    if outcomes.len() > 0 {
        let shorter = outcomes.drop_last();
        assert forall|i: int|
            0 <= i < shorter.len() && (#[trigger] run(state, shorter.take(i))).0.phase
                is Writing implies shorter[i] is Failed by {
            assert(shorter.take(i) =~= outcomes.take(i));
        }
        lemma_stuck_run(state, channel, shorter);
        let before = run(state, shorter).0;
        if before.busy() {
            assert(outcomes.take(outcomes.len() - 1) =~= shorter);
            lemma_stuck_step(before, channel, outcomes.last());
        }
    }
}

/// A device that takes no write is given up on after exactly three attempts.
/// When every write of a switch to `channel` fails, whatever comes of the
/// reconnects, the last action of the switch reports `SwitchFailed`, the
/// third pass of the third attempt has just failed, and the switcher still
/// holds `channel` as its current channel.
pub proof fn lemma_dead_device_is_given_up(
    state: SwitcherState,
    channel: u8,
    outcomes: Seq<Outcome>,
)
    requires
        state.wf(),
        channel <= 2,
        outcomes.len() > 0,
        every_write_fails(state.start(channel).0, outcomes),
        run(state.start(channel).0, outcomes.drop_last()).0.busy(),
        !run(state.start(channel).0, outcomes).0.busy(),
    ensures
        switch(state, channel, outcomes).1.last() == Action::Finished(Err(Error::SwitchFailed)),
        switch(state, channel, outcomes).0.attempt == 3,
        switch(state, channel, outcomes).0.cycle == 3,
        switch(state, channel, outcomes).0.channel == channel,
{
    let started = state.start(channel).0;
    let shorter = outcomes.drop_last();
    assert forall|i: int|
        0 <= i < shorter.len() && (#[trigger] run(started, shorter.take(i))).0.phase
            is Writing implies shorter[i] is Failed by {
        assert(shorter.take(i) =~= outcomes.take(i));
    }
    lemma_stuck_run(started, channel, shorter);
    assert(outcomes.take(outcomes.len() - 1) =~= shorter);
    lemma_stuck_step(run(started, shorter).0, channel, outcomes.last());
}

/// A device that takes every write is switched in one pass, and as often as
/// it is asked. A switch to `channel` on which nothing fails asks for exactly
/// the actions of `smooth_switch`, with no reconnect among them, ends well and
/// leaves the switcher at rest on `channel`; a second switch to the same
/// channel right after it asks for the same actions again and leaves the
/// switcher in the same state.
pub proof fn lemma_healthy_switch_repeats(state: SwitcherState, channel: u8)
    requires
        state.wf(),
        channel <= 2,
    ensures
        ({
            let expected = smooth_switch(state.probe, state.notify, channel);
            let outcomes = all_completed((expected.len() - 1) as nat);
            let first = switch(state, channel, outcomes);
            let second = switch(first.0, channel, outcomes);
            &&& first.1 == expected
            &&& second.1 == expected
            &&& !first.0.busy()
            &&& first.0.channel == channel
            &&& first.0.attempt == 1
            &&& first.0.cycle == 1
            &&& second.0 == first.0
        }),
{
    lemma_healthy_switch(state, channel);
    lemma_healthy_switch(
        switch(
            state,
            channel,
            all_completed((smooth_switch(state.probe, state.notify, channel).len() - 1) as nat),
        ).0,
        channel,
    );
}

/// One switch on which nothing fails.
proof fn lemma_healthy_switch(state: SwitcherState, channel: u8)
    requires
        state.wf(),
        channel <= 2,
    ensures
        ({
            let expected = smooth_switch(state.probe, state.notify, channel);
            let outcomes = all_completed((expected.len() - 1) as nat);
            let ended = switch(state, channel, outcomes);
            &&& ended.1 == expected
            &&& ended.0 == SwitcherState {
                channel,
                phase: Phase::Idle,
                attempt: 1,
                cycle: 1,
                cursor: (commands(state.probe, channel).len() - 1) as usize,
                ..state
            }
        }),
{
    let expected = smooth_switch(state.probe, state.notify, channel);
    let n = (expected.len() - 1) as nat;
    let started = state.start(channel).0;
    let done = Outcome::Completed;
    assert forall|k: nat| k < n implies #[trigger] all_completed(k + 1) == all_completed(k).push(
        done,
    ) by {
        assert(all_completed(k + 1) =~= all_completed(k).push(done));
    }
    lemma_run_push(started, all_completed(0), done);
    lemma_run_push(started, all_completed(1), done);
    lemma_run_push(started, all_completed(2), done);
    lemma_run_push(started, all_completed(3), done);
    lemma_run_push(started, all_completed(4), done);
    lemma_run_push(started, all_completed(5), done);
    lemma_run_push(started, all_completed(6), done);
    lemma_run_push(started, all_completed(7), done);
    lemma_run_push(started, all_completed(8), done);
    let ended = switch(state, channel, all_completed(n));
    assert(ended.1 =~= expected);
}

/// Whether `action` is one that a switch to the channel of `state` may ask
/// for: a write carries that channel to the keyboard or the mouse under index
/// 1 or 2, a notification names that channel, and a pause lasts half a second
/// or a whole one.
pub open spec fn fits(action: Action, state: SwitcherState) -> bool {
    match action {
        Action::Write(command) => {
            &&& command.channel == state.channel
            &&& command.id == 0x09 || command.id == 0x0A
            &&& command.index == 1 || command.index == 2
            &&& state.commands().contains(command)
        },
        Action::Notify(channel) => channel == state.channel && state.notify,
        Action::Pause(ms) => ms == 500 || ms == 1000,
        _ => true,
    }
}

/// Number of reconnects carried out during the run.
pub open spec fn reconnects(state: SwitcherState, outcomes: Seq<Outcome>) -> nat
    decreases outcomes.len(),
{
    if outcomes.len() == 0 {
        0
    } else {
        let before = run(state, outcomes.drop_last()).0;
        reconnects(state, outcomes.drop_last()) + if before.phase is Reconnecting {
            1nat
        } else {
            0nat
        }
    }
}

/// Number of writes and reconnects that failed during the run.
pub open spec fn failures(state: SwitcherState, outcomes: Seq<Outcome>) -> nat
    decreases outcomes.len(),
{
    if outcomes.len() == 0 {
        0
    } else {
        let before = run(state, outcomes.drop_last()).0;
        failures(state, outcomes.drop_last()) + if (before.phase is Reconnecting || before.phase
            is Writing) && outcomes.last() is Failed {
            1nat
        } else {
            0nat
        }
    }
}

/// No switch ever writes for another channel. Every action of a run fits the
/// channel and the settings that the switcher holds.
pub proof fn lemma_run_addresses_channel(state: SwitcherState, outcomes: Seq<Outcome>)
    requires
        state.wf(),
    ensures
        forall|i: int|
            0 <= i < outcomes.len() ==> fits(#[trigger] run(state, outcomes).1[i], state),
    decreases outcomes.len(),
{
    if outcomes.len() > 0 {
        let shorter = outcomes.drop_last();
        lemma_run_addresses_channel(state, shorter);
        lemma_run_keeps_channel(state, shorter);
        let before = run(state, shorter).0;
        let action = before.advance(outcomes.last()).1;
        assert(fits(action, before)) by {
            lemma_step_fits(before, outcomes.last());
        }
        assert(before.commands() == state.commands());
        assert forall|i: int| 0 <= i < outcomes.len() implies fits(
            #[trigger] run(state, outcomes).1[i],
            state,
        ) by {
            if i < shorter.len() {
                assert(run(state, outcomes).1[i] == run(state, shorter).1[i]);
            }
        }
    }
}

/// One step asks for an action that fits the state it starts from.
proof fn lemma_step_fits(state: SwitcherState, outcome: Outcome)
    requires
        state.wf(),
    ensures
        fits(state.advance(outcome).1, state),
{
    let action = state.advance(outcome).1;
    let commands = state.commands();
    if action is Write {
        let next = state.advance(outcome).0;
        assert(action->Write_0 == commands[next.cursor as int]);
    }
}

/// How reconnects and failures stand to the counters of a switch under way:
/// before the pass under way, one pass has failed and one reconnect was made
/// for each pass but the first.
spec fn accounted(state: SwitcherState, reconnects: nat, failures: nat) -> bool {
    let passes_before = 3 * (state.attempt - 1) + (state.cycle - 1);
    match state.phase {
        Phase::Idle => true,
        Phase::Reconnecting => reconnects + 1 == passes_before && failures == passes_before,
        Phase::BackingOff => reconnects == passes_before && failures == passes_before + 1,
        Phase::Waiting => state.cycle == 3 && reconnects == passes_before && failures
            == passes_before + 1,
        _ => reconnects == passes_before && failures == passes_before,
    }
}

/// The account is kept by every step, and settled when the switch ends.
proof fn lemma_accounted_step(
    state: SwitcherState,
    outcome: Outcome,
    reconnects: nat,
    failures: nat,
)
    requires
        state.wf(),
        state.busy(),
        accounted(state, reconnects, failures),
    ensures
        ({
            let (after, action) = state.advance(outcome);
            let made = reconnects + if state.phase is Reconnecting {
                1nat
            } else {
                0nat
            };
            let failed = failures + if (state.phase is Reconnecting || state.phase is Writing)
                && outcome is Failed {
                1nat
            } else {
                0nat
            };
            &&& after.busy() ==> accounted(after, made, failed)
            &&& !after.busy() ==> {
                ||| action == Action::Finished(Ok(())) && made == failed && failed <= 8
                ||| action == Action::Finished(Err(Error::SwitchFailed)) && made == 8 && failed
                    == 9
            }
        }),
{
}

/// The account is kept along a run.
proof fn lemma_accounted_run(state: SwitcherState, outcomes: Seq<Outcome>)
    requires
        state.wf(),
        accounted(state, 0, 0),
    ensures
        accounted(run(state, outcomes).0, reconnects(state, outcomes), failures(state, outcomes)),
    decreases outcomes.len(),
{
    if outcomes.len() > 0 {
        let shorter = outcomes.drop_last();
        lemma_accounted_run(state, shorter);
        lemma_run_keeps_channel(state, shorter);
        let before = run(state, shorter).0;
        if before.busy() {
            lemma_accounted_step(
                before,
                outcomes.last(),
                reconnects(state, shorter),
                failures(state, shorter),
            );
        }
    }
}

/// Every failure but the last is answered by one reconnect, and nine failures
/// end a switch. A switch ends well or with `SwitchFailed`. It ends well if
/// and only if fewer than nine of its writes and reconnects failed, and has
/// then reconnected exactly once for each failure; it fails on the ninth
/// failure, after eight reconnects. So a device that fails twice and then
/// takes every write is switched with exactly two reconnects.
pub proof fn lemma_one_reconnect_per_failure(
    state: SwitcherState,
    channel: u8,
    outcomes: Seq<Outcome>,
)
    requires
        state.wf(),
        channel <= 2,
        outcomes.len() > 0,
        run(state.start(channel).0, outcomes.drop_last()).0.busy(),
        !run(state.start(channel).0, outcomes).0.busy(),
    ensures
        ({
            let started = state.start(channel).0;
            let last = switch(state, channel, outcomes).1.last();
            let made = reconnects(started, outcomes);
            let failed = failures(started, outcomes);
            &&& last == Action::Finished(Ok(())) || last == Action::Finished(
                Err(Error::SwitchFailed),
            )
            &&& last == Action::Finished(Ok(())) <==> failed < 9
            &&& last == Action::Finished(Ok(())) ==> made == failed
            &&& last == Action::Finished(Err(Error::SwitchFailed)) ==> made == 8 && failed == 9
        }),
{
    let started = state.start(channel).0;
    let shorter = outcomes.drop_last();
    lemma_accounted_run(started, shorter);
    lemma_run_keeps_channel(started, shorter);
    lemma_accounted_step(
        run(started, shorter).0,
        outcomes.last(),
        reconnects(started, shorter),
        failures(started, shorter),
    );
}

} // verus!
