use logi_switch::gesture::{
    pause_after, InputObserver, ObserverState, OtherDigit, Press, Scheme, COOLDOWN_MS,
    DOUBLE_PRESS_WINDOW_MS,
};
use logi_switch::keys::{Backend, Keys};

fn nothing() -> Keys {
    Keys { one: false, two: false, three: false, modifier: false }
}

fn digit(n: u8) -> Keys {
    Keys { one: n == 1, two: n == 2, three: n == 3, modifier: false }
}

fn alt_digit(n: u8) -> Keys {
    Keys { modifier: true, ..digit(n) }
}

fn double_press() -> InputObserver {
    InputObserver::new(Scheme::DoublePress, OtherDigit::Rearm)
}

/// Presses and releases `keys`: the press is seen at `at_ms`, the release 30 ms on.
fn tap(observer: &mut InputObserver, keys: Keys, at_ms: u64) -> Option<u8> {
    let fired = observer.observe(keys, at_ms);
    assert_eq!(observer.observe(nothing(), at_ms + 30), None);
    fired
}

#[test]
fn a_fresh_observer_is_idle() {
    let o = double_press();
    assert_eq!(
        o.state(),
        ObserverState {
            scheme: Scheme::DoublePress,
            other_digit: OtherDigit::Rearm,
            armed: None,
            key_down: false,
        }
    );
    assert_eq!(o.armed(), None);
}

#[test]
fn double_press_within_window_fires_once() {
    let mut o = double_press();
    let mut fired: Vec<u8> = Vec::new();
    fired.extend(tap(&mut o, digit(1), 1_000));
    fired.extend(tap(&mut o, digit(1), 1_200));
    assert_eq!(fired, vec![0]);
    assert_eq!(o.armed(), None);
}

#[test]
fn double_press_after_window_fires_nothing_and_arms_anew() {
    let mut o = double_press();
    assert_eq!(tap(&mut o, digit(1), 1_000), None);
    assert_eq!(o.observe(digit(1), 1_600), None);
    assert_eq!(o.armed(), Some(Press { channel: 0, at_ms: 1_600 }));
    assert_eq!(o.observe(nothing(), 1_650), None);
    assert_eq!(o.observe(digit(1), 1_900), Some(0));
}

#[test]
fn window_is_five_hundred_ms_inclusive() {
    assert_eq!(DOUBLE_PRESS_WINDOW_MS, 500);
    let mut o = double_press();
    assert_eq!(tap(&mut o, digit(2), 10_000), None);
    assert_eq!(o.observe(digit(2), 10_500), Some(1));

    let mut late = double_press();
    assert_eq!(tap(&mut late, digit(2), 10_000), None);
    assert_eq!(late.observe(digit(2), 10_501), None);
    assert_eq!(late.armed(), Some(Press { channel: 1, at_ms: 10_501 }));
}

#[test]
fn each_digit_has_its_channel() {
    let mut n: u8 = 1;
    while n <= 3 {
        let mut o = double_press();
        assert_eq!(tap(&mut o, digit(n), 100), None);
        assert_eq!(tap(&mut o, digit(n), 300), Some(n - 1));
        n += 1;
    }
}

#[test]
fn different_digits_do_not_combine() {
    let mut o = double_press();
    assert_eq!(tap(&mut o, digit(1), 1_000), None);
    assert_eq!(o.observe(digit(2), 1_200), None);
    assert_eq!(o.armed(), Some(Press { channel: 1, at_ms: 1_200 }));
    assert_eq!(o.observe(nothing(), 1_230), None);
}

#[test]
fn another_digit_arms_anew_and_can_then_fire() {
    let mut o = double_press();
    assert_eq!(tap(&mut o, digit(1), 1_000), None);
    assert_eq!(tap(&mut o, digit(2), 1_200), None);
    assert_eq!(tap(&mut o, digit(2), 1_400), Some(1));
}

#[test]
fn another_digit_resets_under_the_reset_policy() {
    let mut o = InputObserver::new(Scheme::DoublePress, OtherDigit::Reset);
    assert_eq!(tap(&mut o, digit(1), 1_000), None);
    assert_eq!(o.observe(digit(2), 1_200), None);
    assert_eq!(o.armed(), None);
    assert_eq!(o.observe(nothing(), 1_230), None);
    assert_eq!(tap(&mut o, digit(2), 1_400), None);
    assert_eq!(o.armed(), Some(Press { channel: 1, at_ms: 1_400 }));
    assert_eq!(tap(&mut o, digit(2), 1_600), Some(1));
}

#[test]
fn a_held_key_counts_once() {
    let mut o = double_press();
    let mut now: u64 = 1_000;
    while now <= 1_400 {
        assert_eq!(o.observe(digit(3), now), None);
        now += 50;
    }
    assert_eq!(o.armed(), Some(Press { channel: 2, at_ms: 1_000 }));
    assert!(o.state().key_down);
    assert_eq!(o.observe(nothing(), 1_450), None);
    assert!(!o.state().key_down);
    assert_eq!(o.observe(digit(3), 1_480), Some(2));
}

#[test]
fn a_second_digit_joining_a_held_one_is_no_press() {
    let mut o = double_press();
    assert_eq!(o.observe(digit(1), 1_000), None);
    let both = Keys { one: true, two: true, three: false, modifier: false };
    assert_eq!(o.observe(both, 1_050), None);
    assert_eq!(o.observe(digit(2), 1_100), None);
    assert_eq!(o.armed(), Some(Press { channel: 0, at_ms: 1_000 }));
}

#[test]
fn the_lowest_digit_wins() {
    let mut o = double_press();
    let all = Keys { one: true, two: true, three: true, modifier: false };
    assert_eq!(tap(&mut o, all, 100), None);
    assert_eq!(tap(&mut o, digit(1), 200), Some(0));
    let upper = Keys { one: false, two: true, three: true, modifier: false };
    assert_eq!(tap(&mut o, upper, 1_000), None);
    assert_eq!(tap(&mut o, upper, 1_100), Some(1));
}

#[test]
fn an_arming_lapses_with_its_window() {
    let mut o = double_press();
    assert_eq!(tap(&mut o, digit(1), 1_000), None);
    assert_eq!(o.armed(), Some(Press { channel: 0, at_ms: 1_000 }));
    assert_eq!(o.observe(nothing(), 1_500), None);
    assert_eq!(o.armed(), Some(Press { channel: 0, at_ms: 1_000 }));
    assert_eq!(o.observe(nothing(), 1_501), None);
    assert_eq!(o.armed(), None);
}

#[test]
fn a_clock_that_runs_backwards_fires_nothing() {
    let mut o = double_press();
    assert_eq!(o.observe(digit(1), 5_000), None);
    assert_eq!(o.observe(nothing(), 5_010), None);
    assert_eq!(o.observe(digit(1), 4_900), None);
    assert_eq!(o.armed(), Some(Press { channel: 0, at_ms: 4_900 }));
}

#[test]
fn firing_disarms() {
    let mut o = double_press();
    assert_eq!(tap(&mut o, digit(1), 1_000), None);
    assert_eq!(tap(&mut o, digit(1), 1_100), Some(0));
    assert_eq!(tap(&mut o, digit(1), 1_200), None);
    assert_eq!(tap(&mut o, digit(1), 1_300), Some(0));
}

#[test]
fn alt_alone_does_not_matter_to_the_double_press() {
    let mut o = double_press();
    assert_eq!(o.observe(Keys { modifier: true, ..nothing() }, 900), None);
    assert_eq!(tap(&mut o, alt_digit(1), 1_000), None);
    assert_eq!(tap(&mut o, digit(1), 1_100), Some(0));
}

#[test]
fn modifier_scheme_fires_at_once() {
    let mut o = InputObserver::new(Scheme::Modifier, OtherDigit::Rearm);
    assert_eq!(o.observe(alt_digit(2), 1_000), Some(1));
    assert_eq!(o.armed(), None);
    assert_eq!(o.observe(nothing(), 1_050), None);
    assert_eq!(o.observe(alt_digit(3), 9_000), Some(2));
    assert_eq!(o.observe(alt_digit(1), 9_050), Some(0));
}

#[test]
fn modifier_scheme_wants_the_modifier() {
    let mut o = InputObserver::new(Scheme::Modifier, OtherDigit::Reset);
    assert_eq!(tap(&mut o, digit(1), 1_000), None);
    assert_eq!(tap(&mut o, digit(1), 1_100), None);
    assert_eq!(o.observe(Keys { modifier: true, ..nothing() }, 1_200), None);
    assert_eq!(o.armed(), None);
}

#[test]
fn pause_after_a_poll() {
    assert_eq!(COOLDOWN_MS, 300);
    assert_eq!(pause_after(Some(0), Backend::Polled), 300);
    assert_eq!(pause_after(Some(2), Backend::RawEvents), 300);
    assert_eq!(pause_after(None, Backend::Polled), 50);
    assert_eq!(pause_after(None, Backend::RawEvents), 10);
}
