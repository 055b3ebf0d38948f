use vstd::prelude::*;

verus! {

/// One of the sixteen keys of the hexadecimal keypad.
#[derive(Copy, Clone, Debug, PartialEq, Eq, Structural)]
pub enum Key {
    Key0,
    Key1,
    Key2,
    Key3,
    Key4,
    Key5,
    Key6,
    Key7,
    Key8,
    Key9,
    A,
    B,
    C,
    D,
    E,
    F,
}

/// The code `0x0..=0xF` of a key.
pub open spec fn code_of(k: Key) -> u8 {
    match k {
        Key::Key0 => 0,
        Key::Key1 => 1,
        Key::Key2 => 2,
        Key::Key3 => 3,
        Key::Key4 => 4,
        Key::Key5 => 5,
        Key::Key6 => 6,
        Key::Key7 => 7,
        Key::Key8 => 8,
        Key::Key9 => 9,
        Key::A => 10,
        Key::B => 11,
        Key::C => 12,
        Key::D => 13,
        Key::E => 14,
        Key::F => 15,
    }
}

/// The label shown for a key: its hexadecimal digit.
pub open spec fn label_of(k: Key) -> Seq<char> {
    seq![
        if code_of(k) < 10 {
            ('0' as u8 + code_of(k)) as char
        } else {
            ('A' as u8 + code_of(k) - 10) as char
        },
    ]
}

impl Key {
    /// The key with the given code.
    pub fn from_code(code: u8) -> (r: Key)
        requires
            code < 16,
        ensures
            code_of(r) == code,
    {
        match code {
            0 => Key::Key0,
            1 => Key::Key1,
            2 => Key::Key2,
            3 => Key::Key3,
            4 => Key::Key4,
            5 => Key::Key5,
            6 => Key::Key6,
            7 => Key::Key7,
            8 => Key::Key8,
            9 => Key::Key9,
            10 => Key::A,
            11 => Key::B,
            12 => Key::C,
            13 => Key::D,
            14 => Key::E,
            _ => Key::F,
        }
    }

    /// The code of this key.
    pub fn code(&self) -> (r: u8)
        ensures
            r == code_of(*self),
            r < 16,
    {
        match self {
            Key::Key0 => 0,
            Key::Key1 => 1,
            Key::Key2 => 2,
            Key::Key3 => 3,
            Key::Key4 => 4,
            Key::Key5 => 5,
            Key::Key6 => 6,
            Key::Key7 => 7,
            Key::Key8 => 8,
            Key::Key9 => 9,
            Key::A => 10,
            Key::B => 11,
            Key::C => 12,
            Key::D => 13,
            Key::E => 14,
            Key::F => 15,
        }
    }
}

/// The text a front end shows for a key.
pub fn key_to_string(key: Key) -> (r: &'static str)
    ensures
        r@ == label_of(key),
{
    proof {
        reveal_strlit("0");
        reveal_strlit("1");
        reveal_strlit("2");
        reveal_strlit("3");
        reveal_strlit("4");
        reveal_strlit("5");
        reveal_strlit("6");
        reveal_strlit("7");
        reveal_strlit("8");
        reveal_strlit("9");
        reveal_strlit("A");
        reveal_strlit("B");
        reveal_strlit("C");
        reveal_strlit("D");
        reveal_strlit("E");
        reveal_strlit("F");
    }
    match key {
        Key::Key0 => "0",
        Key::Key1 => "1",
        Key::Key2 => "2",
        Key::Key3 => "3",
        Key::Key4 => "4",
        Key::Key5 => "5",
        Key::Key6 => "6",
        Key::Key7 => "7",
        Key::Key8 => "8",
        Key::Key9 => "9",
        Key::A => "A",
        Key::B => "B",
        Key::C => "C",
        Key::D => "D",
        Key::E => "E",
        Key::F => "F",
    }
}

/// The pressed state of the sixteen keys.
pub(crate) struct Keyboard {
    keys: [bool; 16],
}

impl View for Keyboard {
    type V = Seq<bool>;

    closed spec fn view(&self) -> Seq<bool> {
        self.keys@
    }
}

impl Keyboard {
    pub(crate) fn new() -> (r: Keyboard)
        ensures
            r@ == Seq::new(16, |i: int| false),
    {
        let r = Keyboard { keys: [false; 16] };
        assert(r@ =~= Seq::new(16, |i: int| false));
        r
    }

    pub(crate) fn set_pressed(&mut self, key: Key, pressed: bool)
        ensures
            final(self)@ == old(self)@.update(code_of(key) as int, pressed),
    {
        self.keys[key.code() as usize] = pressed;
    }

    pub(crate) fn is_pressed(&self, key: Key) -> (r: bool)
        ensures
            r == self@[code_of(key) as int],
    {
        self.keys[key.code() as usize]
    }

    pub(crate) fn reset(&mut self)
        ensures
            final(self)@ == Seq::new(16, |i: int| false),
    {
        self.keys = [false; 16];
        assert(self@ =~= Seq::new(16, |i: int| false));
    }
}

pub proof fn lemma_keyboard_len(k: &Keyboard)
    ensures
        k@.len() == 16,
{
}

/// Where the "wait for a key" instruction stands.
#[derive(Copy, Clone, Debug, PartialEq, Eq, Structural)]
pub enum KeyboardBlockerState {
    /// No wait is pending.
    Idle,
    /// Waiting for a fresh key press.
    Locked,
    /// A press was seen; waiting for that key to be released.
    WaitingForRelease,
    /// The release was seen; the next tick commits the key.
    Unlocked,
}

/// The state after a key goes down.
pub open spec fn after_press(s: KeyboardBlockerState) -> KeyboardBlockerState {
    match s {
        KeyboardBlockerState::Locked => KeyboardBlockerState::WaitingForRelease,
        _ => s,
    }
}

/// The state after one execution of the wait instruction, given whether the
/// last key pressed is still held.
pub open spec fn after_wait_tick(s: KeyboardBlockerState, held: bool) -> KeyboardBlockerState {
    match s {
        KeyboardBlockerState::Idle => KeyboardBlockerState::Locked,
        KeyboardBlockerState::Locked => KeyboardBlockerState::Locked,
        KeyboardBlockerState::WaitingForRelease => if held {
            KeyboardBlockerState::WaitingForRelease
        } else {
            KeyboardBlockerState::Unlocked
        },
        KeyboardBlockerState::Unlocked => KeyboardBlockerState::Idle,
    }
}

impl KeyboardBlockerState {
    /// Transition on a key press.
    pub fn on_press(self) -> (r: KeyboardBlockerState)
        ensures
            r == after_press(self),
    {
        match self {
            KeyboardBlockerState::Locked => KeyboardBlockerState::WaitingForRelease,
            s => s,
        }
    }

    /// Transition on one execution of the wait instruction.
    pub fn on_wait_tick(self, held: bool) -> (r: KeyboardBlockerState)
        ensures
            r == after_wait_tick(self, held),
    {
        match self {
            KeyboardBlockerState::Idle => KeyboardBlockerState::Locked,
            KeyboardBlockerState::Locked => KeyboardBlockerState::Locked,
            KeyboardBlockerState::WaitingForRelease => {
                if held {
                    KeyboardBlockerState::WaitingForRelease
                } else {
                    KeyboardBlockerState::Unlocked
                }
            },
            KeyboardBlockerState::Unlocked => KeyboardBlockerState::Idle,
        }
    }

    /// Whether the wait instruction completes on this execution, so that the
    /// program counter moves past it.
    pub fn completes(self) -> (r: bool)
        ensures
            r == (self == KeyboardBlockerState::Unlocked),
    {
        match self {
            KeyboardBlockerState::Unlocked => true,
            _ => false,
        }
    }
}

} // verus!
