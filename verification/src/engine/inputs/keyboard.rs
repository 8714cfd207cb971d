//! The state of the keys.
//!
//! A key is named by its GLFW key code. Each key that the engine follows has
//! a slot, and the slot holds the key's state as two bits: whether the key
//! is down, and whether it was let go in this frame.

use vstd::prelude::*;

verus! {

/// The number of slots.
pub const KEY_SLOTS: usize = 117;

/// The bit of a key state that says the key is down.
pub const PRESSED_BIT: i32 = 1;

/// The bit of a key state that says the key was let go in this frame.
pub const RELEASED_BIT: i32 = 2;

/// The key code that stands for a key that the window system does not know.
pub const KEY_UNKNOWN: i32 = -1;

/// What happened to a key.
#[derive(Debug, Copy, Clone, PartialEq, Eq, Structural)]
pub enum KeyAction {
    Release,
    Press,
    Repeat,
}

/// The states of all keys that have a slot.
#[derive(Debug)]
pub struct Keyboard {
    keys_state_lookup: [i32; 117],
}

pub fn is_release(state: i32) -> (r: bool)
    ensures
        r == (state & RELEASED_BIT != 0),
{
    assert(1i32 << 1u32 == 2i32) by (bit_vector);
    return state & (1 << 1) != 0;
}

pub fn is_pressed(state: i32) -> (r: bool)
    ensures
        r == (state & PRESSED_BIT != 0),
{
    return (state & 1) != 0;
}

/// The state that an action leaves a key in: down after a press, let go
/// after a release, neither after a repeat.
pub open spec fn state_after(action: KeyAction) -> i32 {
    match action {
        KeyAction::Press => PRESSED_BIT,
        KeyAction::Release => RELEASED_BIT,
        KeyAction::Repeat => 0,
    }
}

pub fn compute_state(action: KeyAction, _modifier: i32) -> (result: i32)
    ensures
        result == state_after(action),
{
    let mut result: i32 = 0;
    assert(0i32 | 1i32 == 1i32) by (bit_vector);
    assert(0i32 | (1i32 << 1u32) == 2i32) by (bit_vector);
    if action == KeyAction::Press {
        result = result | 1;
    } else if action == KeyAction::Release {
        result = result | (1 << 1);
    }
    result
}

/// The slot of a key, for the keys that have one: the printable keys but
/// the letters W to Z, the function and navigation keys, the keypad, the
/// modifiers, and last the unknown key.
pub open spec fn key_slot_spec(code: int) -> Option<int> {
    if code == 32 {
        Some(0)
    } else if code == 39 {
        Some(1)
    } else if 44 <= code <= 57 {
        Some(code - 42)
    } else if code == 59 {
        Some(16)
    } else if code == 61 {
        Some(17)
    } else if 65 <= code <= 86 {
        Some(code - 47)
    } else if 91 <= code <= 93 {
        Some(code - 51)
    } else if code == 96 {
        Some(43)
    } else if code == 161 {
        Some(44)
    } else if code == 162 {
        Some(45)
    } else if 256 <= code <= 269 {
        Some(code - 210)
    } else if 280 <= code <= 284 {
        Some(code - 220)
    } else if 290 <= code <= 314 {
        Some(code - 225)
    } else if 320 <= code <= 336 {
        Some(code - 230)
    } else if 340 <= code <= 348 {
        Some(code - 233)
    } else if code == KEY_UNKNOWN {
        Some(116)
    } else {
        None
    }
}

/// No two keys share a slot, and every slot is below the number of slots.
pub proof fn lemma_key_slots_distinct(a: int, b: int)
    requires
        key_slot_spec(a) is Some,
        key_slot_spec(a) == key_slot_spec(b),
    ensures
        a == b,
        0 <= key_slot_spec(a)->0 < KEY_SLOTS,
{
}

pub fn key_slot(code: i32) -> (slot: Option<usize>)
    ensures
        match slot {
            Some(s) => key_slot_spec(code as int) == Some(s as int) && s < KEY_SLOTS,
            None => key_slot_spec(code as int) is None,
        },
{
    let offset: i32 = if code == 32 {
        32
    } else if code == 39 {
        38
    } else if 44 <= code && code <= 57 {
        42
    } else if code == 59 {
        43
    } else if code == 61 {
        44
    } else if 65 <= code && code <= 86 {
        47
    } else if 91 <= code && code <= 93 {
        51
    } else if code == 96 {
        53
    } else if code == 161 || code == 162 {
        117
    } else if 256 <= code && code <= 269 {
        210
    } else if 280 <= code && code <= 284 {
        220
    } else if 290 <= code && code <= 314 {
        225
    } else if 320 <= code && code <= 336 {
        230
    } else if 340 <= code && code <= 348 {
        233
    } else if code == KEY_UNKNOWN {
        -117
    } else {
        return None;
    };
    Some((code - offset) as usize)
}

impl Keyboard {
    /// The state of the key in each slot.
    pub closed spec fn states(&self) -> Seq<i32> {
        self.keys_state_lookup@
    }

    /// A keyboard on which no key is down and none was let go.
    pub fn new() -> (keyboard: Keyboard)
        ensures
            keyboard.states().len() == KEY_SLOTS,
            forall|i: int| 0 <= i < KEY_SLOTS ==> keyboard.states()[i] == 0,
    {
        Keyboard { keys_state_lookup: [0i32;117] }
    }

    /// The state of a key; that of a key without a slot is 0.
    pub open spec fn state_of(&self, code: int) -> i32 {
        match key_slot_spec(code) {
            Some(slot) => self.states()[slot],
            None => 0,
        }
    }

    /// Whether the key was let go in this frame. A key without a slot never was.
    pub fn is_key_released(&self, key: i32) -> (r: bool)
        ensures
            r == (self.state_of(key as int) & RELEASED_BIT != 0),
    {
        assert(0i32 & 2i32 == 0i32) by (bit_vector);
        match key_slot(key) {
            Some(key_index) => {
                let state: i32 = self.keys_state_lookup[key_index];
                is_release(state)
            },
            None => false,
        }
    }

    /// Whether the key is down. A key without a slot never is.
    pub fn is_key_pressed(&self, key: i32) -> (r: bool)
        ensures
            r == (self.state_of(key as int) & PRESSED_BIT != 0),
    {
        assert(0i32 & 1i32 == 0i32) by (bit_vector);
        match key_slot(key) {
            Some(key_index) => {
                let state: i32 = self.keys_state_lookup[key_index];
                is_pressed(state)
            },
            None => false,
        }
    }

    /// Records what happened to a key. Nothing is recorded for a key without a slot.
    pub fn update_key_state(&mut self, key: i32, action: KeyAction, modifier: i32)
        ensures
            final(self).states() == (match key_slot_spec(key as int) {
                Some(slot) => old(self).states().update(slot, state_after(action)),
                None => old(self).states(),
            }),
    {
        match key_slot(key) {
            Some(index) => {
                self.keys_state_lookup[index] = compute_state(action, modifier);
            },
            None => {},
        }
    }

    /// Starts a frame: a key that was let go in the last frame no longer counts as let go.
    pub fn pre_update_states(&mut self)
        ensures
            final(self).states().len() == old(self).states().len(),
            forall|i: int|
                0 <= i < KEY_SLOTS ==> #[trigger] final(self).states()[i] == old(self).states()[i]
                    & !RELEASED_BIT,
    {
        let mut i: usize = 0;
        while i < 117
            invariant
                0 <= i <= 117,
                self.states().len() == 117,
                forall|j: int|
                    0 <= j < i ==> #[trigger] self.states()[j] == old(self).states()[j]
                        & !RELEASED_BIT,
                forall|j: int| i <= j < 117 ==> self.states()[j] == old(self).states()[j],
            decreases 117 - i,
        {
            let key: i32 = self.keys_state_lookup[i];
            assert(1i32 << 1u32 == 2i32) by (bit_vector);
            assert(key & 2i32 == 0i32 ==> key & !2i32 == key) by (bit_vector);
            if is_release(key) {
                let release_idx: i32 = 1 << 1;
                self.keys_state_lookup[i] = key & !release_idx;
            }
            i += 1;
        }
    }
}

} // verus!
