use logi_switch::error::Error;
use logi_switch::keys::{
    is_keyboard_name, next_keyboard, Backend, Key, Keys, RawEvent, EV_KEY, KEY_1, KEY_2, KEY_3,
    KEY_LEFTALT, KEY_RIGHTALT,
};

fn nothing() -> Keys {
    Keys { one: false, two: false, three: false, modifier: false }
}

fn key_event(code: u16, value: i32) -> RawEvent {
    RawEvent { kind: 1, code, value }
}

#[test]
fn no_keys() {
    assert_eq!(Keys::none(), nothing());
    assert_eq!(Keys::none().channel(), None);
}

#[test]
fn pressed_keys_make_the_set() {
    assert_eq!(Keys::from_pressed(&Vec::new()), nothing());
    assert_eq!(Keys::from_pressed(&vec![Key::One]), Keys { one: true, ..nothing() });
    assert_eq!(
        Keys::from_pressed(&vec![Key::Three, Key::Modifier, Key::Three]),
        Keys { three: true, modifier: true, ..nothing() }
    );
    assert_eq!(
        Keys::from_pressed(&vec![Key::Two, Key::One, Key::Modifier, Key::Three]),
        Keys { one: true, two: true, three: true, modifier: true }
    );
}

#[test]
fn channel_of_the_lowest_digit() {
    assert_eq!(Keys { one: true, ..nothing() }.channel(), Some(0));
    assert_eq!(Keys { two: true, ..nothing() }.channel(), Some(1));
    assert_eq!(Keys { three: true, ..nothing() }.channel(), Some(2));
    assert_eq!(Keys { two: true, three: true, ..nothing() }.channel(), Some(1));
    assert_eq!(Keys { one: true, three: true, modifier: true, ..nothing() }.channel(), Some(0));
    assert_eq!(Keys { modifier: true, ..nothing() }.channel(), None);
}

#[test]
fn key_codes() {
    assert_eq!(EV_KEY, 1);
    assert_eq!(KEY_1, 2);
    assert_eq!(KEY_2, 3);
    assert_eq!(KEY_3, 4);
    assert_eq!(KEY_LEFTALT, 56);
    assert_eq!(KEY_RIGHTALT, 100);
}

#[test]
fn press_and_release_events_move_the_set() {
    let keys = nothing().apply(&key_event(2, 1));
    assert_eq!(keys, Keys { one: true, ..nothing() });
    let keys = keys.apply(&key_event(4, 1));
    assert_eq!(keys, Keys { one: true, three: true, ..nothing() });
    let keys = keys.apply(&key_event(2, 0));
    assert_eq!(keys, Keys { three: true, ..nothing() });
    let keys = keys.apply(&key_event(3, 1)).apply(&key_event(4, 0));
    assert_eq!(keys, Keys { two: true, ..nothing() });
    let keys = keys.apply(&key_event(3, 0));
    assert_eq!(keys, nothing());
}

#[test]
fn either_alt_is_the_modifier() {
    assert_eq!(nothing().apply(&key_event(56, 1)), Keys { modifier: true, ..nothing() });
    assert_eq!(nothing().apply(&key_event(100, 1)), Keys { modifier: true, ..nothing() });
    let held = Keys { modifier: true, one: true, ..nothing() };
    assert_eq!(held.apply(&key_event(100, 0)), Keys { one: true, ..nothing() });
}

#[test]
fn other_events_leave_the_set_alone() {
    let keys = Keys { one: true, modifier: true, ..nothing() };
    // autorepeat
    assert_eq!(keys.apply(&key_event(2, 2)), keys);
    assert_eq!(keys.apply(&key_event(3, 2)), keys);
    assert_eq!(keys.apply(&key_event(3, -1)), keys);
    // keys that are not watched
    assert_eq!(keys.apply(&key_event(5, 1)), keys);
    assert_eq!(keys.apply(&key_event(30, 0)), keys);
    assert_eq!(keys.apply(&key_event(0, 1)), keys);
    // events that are no key events
    assert_eq!(keys.apply(&RawEvent { kind: 0, code: 2, value: 0 }), keys);
    assert_eq!(keys.apply(&RawEvent { kind: 4, code: 4, value: 1 }), keys);
    assert_eq!(keys.apply(&RawEvent { kind: 2, code: 3, value: 1 }), keys);
}

#[test]
fn backend_selection_and_intervals() {
    assert_eq!(Backend::select(true), Backend::RawEvents);
    assert_eq!(Backend::select(false), Backend::Polled);
    assert_eq!(Backend::RawEvents.poll_interval_ms(), 10);
    assert_eq!(Backend::Polled.poll_interval_ms(), 50);
}

fn name(text: &str) -> Vec<u8> {
    text.as_bytes().to_vec()
}

#[test]
fn keyboard_names() {
    assert!(is_keyboard_name(&name("/dev/input/by-id/usb-Logitech_USB_Receiver-event-kbd")));
    assert!(is_keyboard_name(&name("kbd")));
    assert!(is_keyboard_name(&name("kbd-0")));
    assert!(is_keyboard_name(&name("kkbd")));
    assert!(is_keyboard_name(&name("kbkbd")));
    assert!(!is_keyboard_name(&name("/dev/input/by-id/usb-Logitech_USB_Receiver-event-mouse")));
    assert!(!is_keyboard_name(&name("")));
    assert!(!is_keyboard_name(&name("kb")));
    assert!(!is_keyboard_name(&name("kb-d")));
    assert!(!is_keyboard_name(&name("KBD")));
    assert!(!is_keyboard_name(&name("dbk")));
}

#[test]
fn next_keyboard_walks_the_names() {
    let names = vec![
        name("usb-mouse-event-mouse"),
        name("usb-first-event-kbd"),
        name("usb-joystick"),
        name("usb-second-event-kbd"),
    ];
    assert_eq!(next_keyboard(&names, 0), Ok(1));
    assert_eq!(next_keyboard(&names, 1), Ok(1));
    assert_eq!(next_keyboard(&names, 2), Ok(3));
    assert_eq!(next_keyboard(&names, 3), Ok(3));
    assert_eq!(next_keyboard(&names, 4), Err(Error::KeyboardNotFound));
    assert_eq!(next_keyboard(&names, 100), Err(Error::KeyboardNotFound));
}

#[test]
fn no_keyboard_among_the_names() {
    assert_eq!(next_keyboard(&Vec::new(), 0), Err(Error::KeyboardNotFound));
    let names = vec![name("usb-mouse-event-mouse"), name("usb-joystick")];
    assert_eq!(next_keyboard(&names, 0), Err(Error::KeyboardNotFound));
}
