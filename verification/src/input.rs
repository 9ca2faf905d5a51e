//! From the host's keyboard and window events to what the player asked for.

use vstd::prelude::*;

use crate::keyboard::KEYS;

verus! {

/// What the player asked for.
#[derive(Clone, Copy, Debug, PartialEq, Eq, Structural)]
pub enum Action {
    /// Stop the machine.
    Quit,
    /// A keypad key went down.
    Press(u8),
    /// A keypad key came up.
    Release(u8),
}

/// A key of the host's keyboard, as far as the keypad tells keys apart.
#[derive(Clone, Copy, Debug, PartialEq, Eq, Structural)]
pub enum HostKey {
    Num1,
    Num2,
    Num3,
    Num4,
    Q,
    W,
    E,
    R,
    A,
    S,
    D,
    F,
    Z,
    X,
    C,
    V,
    Escape,
    /// Any other key.
    Other,
}

/// An event of the host's window, as far as the machine cares.
#[derive(Clone, Copy, Debug, PartialEq, Eq, Structural)]
pub enum HostEvent {
    /// The window was asked to close.
    Quit,
    /// A key went down.
    KeyDown(HostKey),
    /// A key came up.
    KeyUp(HostKey),
    /// Anything else, a key event that names no key included.
    Other,
}

/// What one event settles.
#[derive(Clone, Copy, Debug, PartialEq, Eq, Structural)]
pub enum Verdict {
    /// The event says nothing; the next one is looked at.
    Ignored,
    /// The event ends the search with this answer.
    Settled(Option<Action>),
}

/// The keypad key that a host key stands for. The left block of the keyboard
/// mirrors the keypad's four rows: `1 2 3 C`, `4 5 6 D`, `7 8 9 E`, `A 0 B F`.
pub open spec fn spec_keypad_key(key: HostKey) -> Option<u8> {
    match key {
        HostKey::Num1 => Some(0x1u8),
        HostKey::Num2 => Some(0x2u8),
        HostKey::Num3 => Some(0x3u8),
        HostKey::Num4 => Some(0xCu8),
        HostKey::Q => Some(0x4u8),
        HostKey::W => Some(0x5u8),
        HostKey::E => Some(0x6u8),
        HostKey::R => Some(0xDu8),
        HostKey::A => Some(0x7u8),
        HostKey::S => Some(0x8u8),
        HostKey::D => Some(0x9u8),
        HostKey::F => Some(0xEu8),
        HostKey::Z => Some(0xAu8),
        HostKey::X => Some(0x0u8),
        HostKey::C => Some(0xBu8),
        HostKey::V => Some(0xFu8),
        HostKey::Escape => None,
        HostKey::Other => None,
    }
}

/// What one event settles: a close request or the escape key going down asks
/// to quit; any other key going down or coming up ends the search, with a
/// press or release if the key belongs to the keypad and with nothing if not;
/// every other event is passed over.
pub open spec fn spec_interpret_event(event: HostEvent) -> Verdict {
    match event {
        HostEvent::Quit => Verdict::Settled(Some(Action::Quit)),
        HostEvent::KeyDown(HostKey::Escape) => Verdict::Settled(Some(Action::Quit)),
        HostEvent::KeyDown(key) => Verdict::Settled(
            match spec_keypad_key(key) {
                Some(k) => Some(Action::Press(k)),
                None => None,
            },
        ),
        HostEvent::KeyUp(key) => Verdict::Settled(
            match spec_keypad_key(key) {
                Some(k) => Some(Action::Release(k)),
                None => None,
            },
        ),
        HostEvent::Other => Verdict::Ignored,
    }
}

/// What a run of events asks for: the answer of the first event that is not
/// passed over, and nothing if all are.
pub open spec fn spec_check_input(events: Seq<HostEvent>) -> Option<Action>
    decreases events.len(),
{
    if events.len() == 0 {
        None
    } else {
        match spec_interpret_event(events[0]) {
            Verdict::Settled(answer) => answer,
            Verdict::Ignored => spec_check_input(events.drop_first()),
        }
    }
}

/// Whether an action names a key of the keypad, if it names a key at all.
pub open spec fn action_wf(action: Action) -> bool {
    match action {
        Action::Quit => true,
        Action::Press(key) => key < KEYS,
        Action::Release(key) => key < KEYS,
    }
}

/// The host key that stands for a keypad key.
pub open spec fn spec_host_key(key: u8) -> HostKey {
    if key == 0x0 {
        HostKey::X
    } else if key == 0x1 {
        HostKey::Num1
    } else if key == 0x2 {
        HostKey::Num2
    } else if key == 0x3 {
        HostKey::Num3
    } else if key == 0x4 {
        HostKey::Q
    } else if key == 0x5 {
        HostKey::W
    } else if key == 0x6 {
        HostKey::E
    } else if key == 0x7 {
        HostKey::A
    } else if key == 0x8 {
        HostKey::S
    } else if key == 0x9 {
        HostKey::D
    } else if key == 0xA {
        HostKey::Z
    } else if key == 0xB {
        HostKey::C
    } else if key == 0xC {
        HostKey::Num4
    } else if key == 0xD {
        HostKey::R
    } else if key == 0xE {
        HostKey::F
    } else {
        HostKey::V
    }
}

/// Every keypad key has exactly one host key, and no host key stands for
/// anything but a keypad key.
pub proof fn lemma_keypad_layout()
    ensures
        forall|k: u8| k < KEYS ==> spec_keypad_key(#[trigger] spec_host_key(k)) == Some(k),
        forall|a: HostKey|
            #[trigger] spec_keypad_key(a) matches Some(k) ==> k < KEYS && spec_host_key(k) == a,
{
}

/// An action that an event gives always names a key of the keypad.
pub proof fn lemma_events_give_keys(events: Seq<HostEvent>)
    ensures
        spec_check_input(events) matches Some(action) ==> action_wf(action),
    decreases events.len(),
{
    if events.len() > 0 {
        lemma_events_give_keys(events.drop_first());
    }
}

/// The keypad key that a host key stands for, if it stands for one.
pub fn keypad_key(key: HostKey) -> (mapped: Option<u8>)
    ensures
        mapped == spec_keypad_key(key),
        mapped matches Some(k) ==> k < KEYS,
{
    match key {
        HostKey::Num1 => Some(0x1),
        HostKey::Num2 => Some(0x2),
        HostKey::Num3 => Some(0x3),
        HostKey::Num4 => Some(0xC),
        HostKey::Q => Some(0x4),
        HostKey::W => Some(0x5),
        HostKey::E => Some(0x6),
        HostKey::R => Some(0xD),
        HostKey::A => Some(0x7),
        HostKey::S => Some(0x8),
        HostKey::D => Some(0x9),
        HostKey::F => Some(0xE),
        HostKey::Z => Some(0xA),
        HostKey::X => Some(0x0),
        HostKey::C => Some(0xB),
        HostKey::V => Some(0xF),
        HostKey::Escape => None,
        HostKey::Other => None,
    }
}

/// The press that a key going down means, if the key belongs to the keypad.
pub fn check_key_down(key: HostKey) -> (action: Option<Action>)
    ensures
        action == match spec_keypad_key(key) {
            Some(k) => Some(Action::Press(k)),
            None => None,
        },
{
    match keypad_key(key) {
        Some(k) => Some(Action::Press(k)),
        None => None,
    }
}

/// The release that a key coming up means, if the key belongs to the keypad.
pub fn check_key_up(key: HostKey) -> (action: Option<Action>)
    ensures
        action == match spec_keypad_key(key) {
            Some(k) => Some(Action::Release(k)),
            None => None,
        },
{
    match keypad_key(key) {
        Some(k) => Some(Action::Release(k)),
        None => None,
    }
}

/// What one event settles.
pub fn interpret_event(event: HostEvent) -> (verdict: Verdict)
    ensures
        verdict == spec_interpret_event(event),
        verdict matches Verdict::Settled(Some(action)) ==> action_wf(action),
{
    match event {
        HostEvent::Quit => Verdict::Settled(Some(Action::Quit)),
        HostEvent::KeyDown(HostKey::Escape) => Verdict::Settled(Some(Action::Quit)),
        HostEvent::KeyDown(key) => Verdict::Settled(check_key_down(key)),
        HostEvent::KeyUp(key) => Verdict::Settled(check_key_up(key)),
        HostEvent::Other => Verdict::Ignored,
    }
}

/// What a run of events asks for: the answer of the first event that is not
/// passed over.
pub fn check_input(events: &[HostEvent]) -> (action: Option<Action>)
    ensures
        action == spec_check_input(events@),
        action matches Some(a) ==> action_wf(a),
{
    let mut i: usize = 0;
    assert(events@.skip(0) =~= events@);
    while i < events.len()
        invariant
            i <= events@.len(),
            spec_check_input(events@) == spec_check_input(events@.skip(i as int)),
        decreases events@.len() - i,
    {
        let ghost rest = events@.skip(i as int);
        assert(rest[0] == events@[i as int]);
        assert(rest.drop_first() =~= events@.skip(i + 1));
        match interpret_event(events[i]) {
            Verdict::Settled(answer) => {
                return answer;
            },
            Verdict::Ignored => {},
        }
        i += 1;
    }
    assert(events@.skip(i as int).len() == 0);
    None
}

} // verus!
