//! The raw platform event for one tick, modelled as plain values.
//!
//! The windowing layer produces one event per tick; this module holds the
//! library's own picture of it: idle (nothing happened), a key press carrying
//! the key's code, or some other, non-keyboard event whose details the
//! arbiter never reads.

use vstd::prelude::*;

verus! {

/// A key on the keyboard, identified by its platform key code.
///
/// The digit keys `'1'` to `'9'` carry their ASCII codes, 49 to 57; every
/// other key carries whatever code the platform assigns it.
#[derive(Clone, Copy, PartialEq, Eq, Structural, Hash, Debug)]
pub struct Key {
    pub code: u32,
}

/// The single raw input event of one tick.
#[derive(Clone, Copy, PartialEq, Eq, Structural, Debug)]
pub enum Event {
    /// Nothing happened this tick, or the real event was already claimed.
    Idle,
    /// A key was pressed.
    KeyPress(Key),
    /// A non-keyboard event (pointer motion, window resize, ...).
    Other,
}

/// The ASCII code of the digit `'0'`; digit `d` has code `ZERO_CODE + d`.
pub const ZERO_CODE: u32 = 48;

/// The key that carries digit `d`, for `d` between 1 and 9.
pub open spec fn digit_key(d: int) -> Key
    recommends
        1 <= d <= 9,
{
    Key { code: (ZERO_CODE + d) as u32 }
}

/// Builds the key that carries digit `d`.
pub fn make_digit_key(d: usize) -> (k: Key)
    requires
        1 <= d <= 9,
    ensures
        k == digit_key(d as int),
{
    Key { code: ZERO_CODE + d as u32 }
}

/// The digit an event presses, if it is a key press of `'1'` to `'9'`.
pub open spec fn event_digit(e: Event) -> Option<int> {
    match e {
        Event::KeyPress(k) => if ZERO_CODE + 1 <= k.code <= ZERO_CODE + 9 {
            Some(k.code - ZERO_CODE)
        } else {
            None
        },
        _ => None,
    }
}

} // verus!
