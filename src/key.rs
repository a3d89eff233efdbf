use vstd::prelude::*;

verus! {

/// Number of MIDI keys; valid keys are `0..KEY_COUNT`.
pub const KEY_COUNT: u8 = 128;

/// A key number that MIDI can carry.
pub open spec fn is_midi_key(key: int) -> bool {
    0 <= key < KEY_COUNT as int
}

/// The single way a key can be refused.
#[derive(Clone, Copy, Debug, PartialEq, Eq, Structural)]
pub enum KeyError {
    /// The key lies outside `0..=127`.
    OutOfRange,
}

/// Accepts a key in `0..=127` unchanged and refuses any other.
pub fn validate_key(key: u8) -> (r: Result<u8, KeyError>)
    ensures
        is_midi_key(key as int) ==> r == Ok::<u8, KeyError>(key),
        !is_midi_key(key as int) ==> r == Err::<u8, KeyError>(KeyError::OutOfRange),
{
    if key < KEY_COUNT {
        Ok(key)
    } else {
        Err(KeyError::OutOfRange)
    }
}

} // verus!
