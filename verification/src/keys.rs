//! The keys the observer watches, and the two ways of learning which are down.
//!
//! Whatever the source, the observer is handed the same thing: the set of
//! watched keys that are down right now. A polled source reports that set
//! whole; a raw event source reports presses and releases one by one, and the
//! set is kept up to date from them.

use vstd::prelude::*;
use crate::error::Error;

verus! {

/// Event type of key events on an event device.
pub const EV_KEY: u16 = 1;

/// Key code of the digit "1".
pub const KEY_1: u16 = 2;

/// Key code of the digit "2".
pub const KEY_2: u16 = 3;

/// Key code of the digit "3".
pub const KEY_3: u16 = 4;

/// Key code of the left Alt key.
pub const KEY_LEFTALT: u16 = 56;

/// Key code of the right Alt key.
pub const KEY_RIGHTALT: u16 = 100;

/// A watched key.
#[derive(Clone, Copy, Debug, PartialEq, Eq, Structural)]
pub enum Key {
    /// The digit "1", for channel 0.
    One,
    /// The digit "2", for channel 1.
    Two,
    /// The digit "3", for channel 2.
    Three,
    /// Alt (Option).
    Modifier,
}

/// The watched keys that are down.
#[derive(Clone, Copy, Debug, PartialEq, Eq, Structural)]
pub struct Keys {
    pub one: bool,
    pub two: bool,
    pub three: bool,
    pub modifier: bool,
}

/// One event read from an event device.
#[derive(Clone, Copy, Debug, PartialEq, Eq, Structural)]
pub struct RawEvent {
    /// Event type.
    pub kind: u16,
    /// Key code, for a key event.
    pub code: u16,
    /// 0 for a release, 1 for a press, 2 for an autorepeat.
    pub value: i32,
}

/// The watched key behind a key code, if it is one.
pub open spec fn key_of_code(code: u16) -> Option<Key> {
    if code == 2 {
        Some(Key::One)
    } else if code == 3 {
        Some(Key::Two)
    } else if code == 4 {
        Some(Key::Three)
    } else if code == 56 || code == 100 {
        Some(Key::Modifier)
    } else {
        None
    }
}

impl Keys {
    /// No key is down.
    pub open spec fn spec_none() -> Keys {
        Keys { one: false, two: false, three: false, modifier: false }
    }

    /// Whether `key` is down.
    pub open spec fn has(self, key: Key) -> bool {
        match key {
            Key::One => self.one,
            Key::Two => self.two,
            Key::Three => self.three,
            Key::Modifier => self.modifier,
        }
    }

    /// The set with `key` down or up and the others as they are.
    pub open spec fn with(self, key: Key, down: bool) -> Keys {
        match key {
            Key::One => Keys { one: down, ..self },
            Key::Two => Keys { two: down, ..self },
            Key::Three => Keys { three: down, ..self },
            Key::Modifier => Keys { modifier: down, ..self },
        }
    }

    /// The channel asked for by the digits that are down: that of the lowest
    /// digit, `None` if no digit is down.
    pub open spec fn spec_channel(self) -> Option<u8> {
        if self.one {
            Some(0u8)
        } else if self.two {
            Some(1u8)
        } else if self.three {
            Some(2u8)
        } else {
            None
        }
    }

    /// The set after `event`. Only a press or a release of a watched key
    /// changes it: other event types, other keys and autorepeats do not.
    pub open spec fn spec_apply(self, event: RawEvent) -> Keys {
        match key_of_code(event.code) {
            Some(key) if event.kind == 1 && (event.value == 0 || event.value == 1) => self.with(
                key,
                event.value == 1,
            ),
            _ => self,
        }
    }

    /// The empty set.
    pub fn none() -> (keys: Keys)
        ensures
            keys == Keys::spec_none(),
    {
        Keys { one: false, two: false, three: false, modifier: false }
    }

    /// The set that a polled source reports: a watched key is down if and
    /// only if it occurs in `pressed`.
    pub fn from_pressed(pressed: &Vec<Key>) -> (keys: Keys)
        ensures
            forall|key: Key| keys.has(key) <==> pressed@.contains(key),
    {
        let mut keys = Keys::none();
        let mut i: usize = 0;
        while i < pressed.len()
            invariant
                i <= pressed.len(),
                forall|key: Key| keys.has(key) <==> pressed@.take(i as int).contains(key),
            decreases pressed.len() - i,
        {
            let ghost before = keys;
            match pressed[i] {
                Key::One => {
                    keys.one = true;
                },
                Key::Two => {
                    keys.two = true;
                },
                Key::Three => {
                    keys.three = true;
                },
                Key::Modifier => {
                    keys.modifier = true;
                },
            }
            proof {
                let head = pressed@.take(i as int);
                let longer = pressed@.take(i as int + 1);
                assert(longer =~= head.push(pressed@[i as int]));
                assert forall|key: Key| keys.has(key) <==> longer.contains(key) by {
                    if longer.contains(key) {
                        let j = choose|j: int| 0 <= j < longer.len() && longer[j] == key;
                        if j < i {
                            assert(head[j] == key);
                            assert(head.contains(key));
                        }
                    }
                    if head.contains(key) {
                        let j = choose|j: int| 0 <= j < head.len() && head[j] == key;
                        assert(longer[j] == key);
                    }
                    if key == pressed@[i as int] {
                        assert(longer[i as int] == key);
                    }
                    assert(before.has(key) <==> head.contains(key));
                }
            }
            i += 1;
        }
        assert(pressed@.take(i as int) =~= pressed@);
        keys
    }

    /// Brings the set up to date with one event of a raw event source.
    pub fn apply(&self, event: &RawEvent) -> (keys: Keys)
        ensures
            keys == self.spec_apply(*event),
    {
        if event.kind != EV_KEY || (event.value != 0 && event.value != 1) {
            return *self;
        }
        let down = event.value == 1;
        if event.code == KEY_1 {
            Keys { one: down, ..*self }
        } else if event.code == KEY_2 {
            Keys { two: down, ..*self }
        } else if event.code == KEY_3 {
            Keys { three: down, ..*self }
        } else if event.code == KEY_LEFTALT || event.code == KEY_RIGHTALT {
            Keys { modifier: down, ..*self }
        } else {
            *self
        }
    }

    /// The channel asked for by the digits that are down: that of the lowest
    /// digit, `None` if no digit is down.
    pub fn channel(&self) -> (channel: Option<u8>)
        ensures
            channel == self.spec_channel(),
    {
        if self.one {
            Some(0)
        } else if self.two {
            Some(1)
        } else if self.three {
            Some(2)
        } else {
            None
        }
    }
}

/// Where the key state comes from.
#[derive(Clone, Copy, Debug, PartialEq, Eq, Structural)]
pub enum Backend {
    /// The operating system is asked which keys are down.
    Polled,
    /// Presses and releases are read from an event device.
    RawEvents,
}

impl Backend {
    /// The source to use: the raw one where the platform offers event
    /// devices, the polled one elsewhere.
    pub fn select(raw_events_offered: bool) -> (backend: Backend)
        ensures
            backend == (if raw_events_offered {
                Backend::RawEvents
            } else {
                Backend::Polled
            }),
    {
        if raw_events_offered {
            Backend::RawEvents
        } else {
            Backend::Polled
        }
    }

    /// Milliseconds between two looks at the keys: 10 for the raw source, 50
    /// for the polled one.
    pub fn poll_interval_ms(&self) -> (ms: u64)
        ensures
            ms == (match *self {
                Backend::RawEvents => 10u64,
                Backend::Polled => 50u64,
            }),
    {
        match self {
            Backend::RawEvents => 10,
            Backend::Polled => 50,
        }
    }
}

/// Whether the name of an input device node marks it as a keyboard: it holds
/// the letters `kbd`.
pub open spec fn names_keyboard(name: Seq<u8>) -> bool {
    exists|i: int|
        0 <= i && i + 3 <= name.len() && #[trigger] name[i] == 0x6B && name[i + 1] == 0x62
            && name[i + 2] == 0x64
}

/// Whether the name of an input device node marks it as a keyboard.
pub fn is_keyboard_name(name: &Vec<u8>) -> (keyboard: bool)
    ensures
        keyboard == names_keyboard(name@),
{
    if name.len() < 3 {
        return false;
    }
    let last: usize = name.len() - 3;
    let mut i: usize = 0;
    while i <= last
        invariant
            last + 3 == name.len(),
            i <= last + 1,
            forall|j: int|
                0 <= j < i ==> !(#[trigger] name[j] == 0x6B && name[j + 1] == 0x62 && name[j + 2]
                    == 0x64),
        decreases last + 1 - i,
    {
        if name[i] == 0x6B && name[i + 1] == 0x62 && name[i + 2] == 0x64 {
            return true;
        }
        i += 1;
    }
    false
}

/// Finds the next keyboard among the names of the input device nodes, from
/// position `from` on. The caller opens it, and asks again from the position
/// behind it if it cannot be opened. That none is left is fatal.
pub fn next_keyboard(names: &Vec<Vec<u8>>, from: usize) -> (found: Result<usize, Error>)
    ensures
        match found {
            Ok(i) => {
                &&& from <= i < names.len()
                &&& names_keyboard(names[i as int]@)
                &&& forall|j: int| from <= j < i ==> !names_keyboard(#[trigger] names[j]@)
            },
            Err(e) => {
                &&& e == Error::KeyboardNotFound
                &&& forall|j: int|
                    from <= j < names.len() ==> !names_keyboard(#[trigger] names[j]@)
            },
        },
{
    let mut i: usize = from;
    while i < names.len()
        invariant
            from <= i,
            forall|j: int| from <= j < i ==> !names_keyboard(#[trigger] names[j]@),
        decreases names.len() - i,
    {
        if is_keyboard_name(&names[i]) {
            return Ok(i);
        }
        i += 1;
    }
    Err(Error::KeyboardNotFound)
}

} // verus!
