//! The state of the sixteen keys of the hexadecimal keypad.

use vstd::prelude::*;

verus! {

/// Number of keys on the keypad.
pub const KEY_COUNT: usize = 16;

/// Sixteen pressed flags, one for each key `0x0` to `0xF`.
pub struct Keypad {
    inputs: [bool; 16],
}

/// The lowest pressed key that is at least `from`, if there is one.
pub open spec fn lowest_pressed_from(keys: Seq<bool>, from: int) -> Option<u8>
    decreases KEY_COUNT - from,
{
    if from < 0 || from >= KEY_COUNT {
        None
    } else if keys[from] {
        Some(from as u8)
    } else {
        lowest_pressed_from(keys, from + 1)
    }
}

/// The lowest pressed key, if any key is pressed.
pub open spec fn lowest_pressed(keys: Seq<bool>) -> Option<u8> {
    lowest_pressed_from(keys, 0)
}

/// `lowest_pressed_from` names a pressed key with no pressed key between `from` and it,
/// and it is `None` only when no key from `from` on is pressed.
pub proof fn lemma_lowest_pressed_from(keys: Seq<bool>, from: int)
    requires
        0 <= from <= KEY_COUNT,
    ensures
        match lowest_pressed_from(keys, from) {
            Some(key) => from <= key < KEY_COUNT && keys[key as int] && forall|k: int|
                from <= k < key ==> !keys[k],
            None => forall|k: int| from <= k < KEY_COUNT ==> !keys[k],
        },
    decreases KEY_COUNT - from,
{
    if from < KEY_COUNT && !keys[from] {
        lemma_lowest_pressed_from(keys, from + 1);
    }
}

impl View for Keypad {
    type V = Seq<bool>;

    /// The pressed flags by key index.
    closed spec fn view(&self) -> Seq<bool> {
        self.inputs@
    }
}

impl Keypad {
    /// The view of a keypad always has one flag for each of the sixteen keys.
    pub proof fn lemma_view_len(&self)
        ensures
            self@.len() == KEY_COUNT,
    {
    }

    /// A keypad on which no key is pressed.
    pub fn new() -> (keypad: Self)
        ensures
            keypad@ == Seq::new(KEY_COUNT as nat, |k: int| false),
    {
        let keypad = Self { inputs: [false;16] };
        assert(keypad@ =~= Seq::new(KEY_COUNT as nat, |k: int| false));
        keypad
    }

    /// Whether `key` is pressed at the moment.
    pub fn is_pressed(&self, key: u8) -> (pressed: bool)
        requires
            key < KEY_COUNT,
        ensures
            pressed == self@[key as int],
    {
        self.inputs[key as usize]
    }

    /// Records that `key` went down (`pressed`) or up; the other keys keep their state.
    pub fn set_key(&mut self, key: u8, pressed: bool)
        requires
            key < KEY_COUNT,
        ensures
            final(self)@ == old(self)@.update(key as int, pressed),
    {
        self.inputs[key as usize] = pressed;
    }

    /// The lowest key that is pressed, or `None` when no key is down.
    pub fn first_pressed(&self) -> (found: Option<u8>)
        ensures
            found == lowest_pressed(self@),
    {
        let mut key: u8 = 0;
        while key < 16
            invariant
                key <= 16,
                lowest_pressed(self@) == lowest_pressed_from(self@, key as int),
            decreases 16 - key,
        {
            if self.inputs[key as usize] {
                return Some(key);
            }
            key += 1;
        }
        None
    }
}

} // verus!
