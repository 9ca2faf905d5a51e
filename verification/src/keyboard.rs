use vstd::prelude::*;

verus! {

/// Number of keys on the keypad.
pub const KEYS: usize = 16;

/// The lowest key at or above `from` that is held down, if there is one.
pub open spec fn lowest_pressed_from(keys: Seq<bool>, from: int) -> Option<u8>
    decreases keys.len() - from,
{
    if from < 0 || from >= keys.len() {
        None
    } else if keys[from] {
        Some(from as u8)
    } else {
        lowest_pressed_from(keys, from + 1)
    }
}

/// The lowest key that is held down, if there is one.
pub open spec fn lowest_pressed(keys: Seq<bool>) -> Option<u8> {
    lowest_pressed_from(keys, 0)
}

/// `lowest_pressed_from` names a pressed key with no pressed key between
/// `from` and it, and is `None` exactly when nothing from `from` on is pressed.
pub proof fn lemma_lowest_pressed_from(keys: Seq<bool>, from: int)
    requires
        0 <= from,
        keys.len() <= 256,
    ensures
        match lowest_pressed_from(keys, from) {
            Some(k) => from <= k < keys.len() && keys[k as int] && forall|j: int|
                from <= j < k ==> !keys[j],
            None => forall|j: int| from <= j < keys.len() ==> !keys[j],
        },
    decreases keys.len() - from,
{
    if from < keys.len() && !keys[from] {
        lemma_lowest_pressed_from(keys, from + 1);
    }
}

/// The sixteen key flags.
pub struct Keyboard {
    keys: [bool; 16],
}

impl View for Keyboard {
    type V = Seq<bool>;

    /// One flag per key, by key number; `true` means held down.
    closed spec fn view(&self) -> Seq<bool> {
        self.keys@
    }
}

impl Keyboard {
    /// A keypad with no key held down.
    pub fn new() -> (k: Keyboard)
        ensures
            k@ == Seq::new(KEYS as nat, |i: int| false),
    {
        let k = Keyboard { keys: [false; 16] };
        assert(k@ =~= Seq::new(KEYS as nat, |i: int| false));
        k
    }

    /// The view always has one flag per key.
    pub proof fn lemma_shape(&self)
        ensures
            self@.len() == KEYS,
    {
    }

    /// Records that `key` went down or came up.
    pub fn set_key(&mut self, key: u8, pressed: bool)
        requires
            key < KEYS,
        ensures
            final(self)@ == old(self)@.update(key as int, pressed),
    {
        self.keys[key as usize] = pressed;
    }

    /// Whether `key` is held down.
    pub fn is_pressed(&self, key: u8) -> (down: bool)
        requires
            key < KEYS,
        ensures
            down == self@[key as int],
    {
        self.keys[key as usize]
    }

    /// The keys held down, lowest first.
    pub fn keys_pressed(&self) -> (pressed: Vec<u8>)
        ensures
            forall|i: int| 0 <= i < pressed@.len() ==> pressed@[i] < KEYS && self@[pressed@[i] as int],
            forall|k: u8| k < KEYS && self@[k as int] ==> pressed@.contains(k),
            forall|i: int, j: int| 0 <= i < j < pressed@.len() ==> pressed@[i] < pressed@[j],
            pressed@.len() == 0 <==> lowest_pressed(self@) is None,
            pressed@.len() > 0 ==> lowest_pressed(self@) == Some(pressed@[0]),
    {
        let mut pressed: Vec<u8> = Vec::new();
        let mut k: u8 = 0;
        while k < 16
            invariant
                k <= 16,
                forall|i: int|
                    0 <= i < pressed@.len() ==> pressed@[i] < k && self@[pressed@[i] as int],
                forall|c: u8| c < k && self@[c as int] ==> pressed@.contains(c),
                forall|i: int, j: int| 0 <= i < j < pressed@.len() ==> pressed@[i] < pressed@[j],
            decreases 16 - k,
        {
            if self.keys[k as usize] {
                let ghost before = pressed@;
                pressed.push(k);
                assert(pressed@[before.len() as int] == k);
                assert forall|c: u8| c < k + 1 && self@[c as int] implies pressed@.contains(c) by {
                    if c < k {
                        let i = choose|i: int| 0 <= i < before.len() && before[i] == c;
                        assert(pressed@[i] == c);
                    }
                }
            }
            k += 1;
        }
        proof {
            lemma_lowest_pressed_from(self@, 0);
            if pressed@.len() > 0 {
                let first = pressed@[0];
                let low = lowest_pressed(self@);
                assert(low is Some) by {
                    if low is None {
                        assert(!self@[first as int]);
                    }
                }
                let l = low->0;
                assert(pressed@.contains(l));
                let i = choose|i: int| 0 <= i < pressed@.len() && pressed@[i] == l;
                assert(first <= l);
                assert(l <= first);
            }
        }
        pressed
    }
}

} // verus!
