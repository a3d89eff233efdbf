use vstd::prelude::*;

use crate::key::{is_midi_key, validate_key, KeyError};

verus! {

/// Where octave boundaries fall when a key is split into index and octave.
///
/// Each convention goes with its own coefficient table: the top-aligned one
/// serves frequency, the bottom-aligned one serves period.
#[derive(Clone, Copy, Debug, PartialEq, Eq, Structural)]
pub enum Alignment {
    /// Octave 0 starts at key 116; the octave number grows as keys fall.
    Top,
    /// Octave 0 starts at key 0 (a C); the octave number counts up.
    Bottom,
}

/// Sub-octave index of `key` when octaves are aligned to key 116.
pub open spec fn top_index(key: int) -> int {
    (key + 120 - 116) % 12
}

/// Octave number of `key` when octaves are aligned to key 116.
pub open spec fn top_octave(key: int) -> int {
    10 - (key + 12 - top_index(key)) / 12
}

/// Sub-octave index of `key` when octaves start at key 0.
pub open spec fn bottom_index(key: int) -> int {
    key % 12
}

/// Octave number of `key` when octaves start at key 0.
pub open spec fn bottom_octave(key: int) -> int {
    key / 12
}

/// The key that a top-aligned index and octave stand for.
pub open spec fn top_key(index: int, octave: int) -> int {
    116 + index - 12 * octave
}

/// The key that a bottom-aligned index and octave stand for.
pub open spec fn bottom_key(index: int, octave: int) -> int {
    12 * octave + index
}

/// Sub-octave index of `key` under `alignment`.
pub open spec fn index_of(alignment: Alignment, key: int) -> int {
    match alignment {
        Alignment::Top => top_index(key),
        Alignment::Bottom => bottom_index(key),
    }
}

/// Octave number of `key` under `alignment`.
pub open spec fn octave_of(alignment: Alignment, key: int) -> int {
    match alignment {
        Alignment::Top => top_octave(key),
        Alignment::Bottom => bottom_octave(key),
    }
}

/// The key that `index` and `octave` stand for under `alignment`.
pub open spec fn key_of(alignment: Alignment, index: int, octave: int) -> int {
    match alignment {
        Alignment::Top => top_key(index, octave),
        Alignment::Bottom => bottom_key(index, octave),
    }
}

/// An index and octave that stand for a MIDI key under `alignment`.
pub open spec fn is_params(alignment: Alignment, index: int, octave: int) -> bool {
    &&& 0 <= index < 12
    &&& 0 <= octave
    &&& is_midi_key(key_of(alignment, index, octave))
}

/// Splits `key` into (index, octave) with octaves aligned to key 116.
pub fn key_to_params_top(key: u8) -> (r: (u8, u8))
    requires
        is_midi_key(key as int),
    ensures
        r.0 as int == top_index(key as int),
        r.1 as int == top_octave(key as int),
{
    let m: u8 = (key + 120 - 116) % 12;
    let o: u8 = 10 - (key + 12 - m) / 12;
    (m, o)
}

/// Splits `key` into (index, octave) with octaves starting at key 0.
pub fn key_to_params_bottom(key: u8) -> (r: (u8, u8))
    requires
        is_midi_key(key as int),
    ensures
        r.0 as int == bottom_index(key as int),
        r.1 as int == bottom_octave(key as int),
{
    let m: u8 = key % 12;
    let o: u8 = key / 12;
    (m, o)
}

/// Splits `key` under `alignment`, refusing a key outside `0..=127`.
pub fn decompose(key: u8, alignment: Alignment) -> (r: Result<(u8, u8), KeyError>)
    ensures
        is_midi_key(key as int) <==> r is Ok,
        !is_midi_key(key as int) ==> r == Err::<(u8, u8), KeyError>(KeyError::OutOfRange),
        r matches Ok((index, octave)) ==> index as int == index_of(alignment, key as int)
            && octave as int == octave_of(alignment, key as int),
{
    let key = validate_key(key)?;
    match alignment {
        Alignment::Top => Ok(key_to_params_top(key)),
        Alignment::Bottom => Ok(key_to_params_bottom(key)),
    }
}

/// The key that a top-aligned (index, octave) pair stands for.
pub fn params_to_key_top(index: u8, octave: u8) -> (r: u8)
    requires
        is_params(Alignment::Top, index as int, octave as int),
    ensures
        r as int == top_key(index as int, octave as int),
{
    116 + index - 12 * octave
}

/// The key that a bottom-aligned (index, octave) pair stands for.
pub fn params_to_key_bottom(index: u8, octave: u8) -> (r: u8)
    requires
        is_params(Alignment::Bottom, index as int, octave as int),
    ensures
        r as int == bottom_key(index as int, octave as int),
{
    12 * octave + index
}

/// Rebuilds a key from its index and octave under `alignment`, refusing a
/// pair that stands for no MIDI key.
pub fn params_to_key(index: u8, octave: u8, alignment: Alignment) -> (r: Result<u8, KeyError>)
    ensures
        is_params(alignment, index as int, octave as int) <==> r is Ok,
        !is_params(alignment, index as int, octave as int) ==> r == Err::<u8, KeyError>(
            KeyError::OutOfRange,
        ),
        r matches Ok(key) ==> key as int == key_of(alignment, index as int, octave as int),
{
    if index >= 12 {
        return Err(KeyError::OutOfRange);
    }
    match alignment {
        Alignment::Top => {
            if octave > 10 || 12 * octave > 116 + index {
                Err(KeyError::OutOfRange)
            } else {
                Ok(params_to_key_top(index, octave))
            }
        },
        Alignment::Bottom => {
            if octave > 10 || 12 * octave + index >= 128 {
                Err(KeyError::OutOfRange)
            } else {
                Ok(params_to_key_bottom(index, octave))
            }
        },
    }
}

/// Decomposing a MIDI key under either alignment gives a valid index and
/// octave, and the alignment's inverse formula gives the key back.
pub proof fn lemma_key_round_trip(alignment: Alignment, key: int)
    requires
        is_midi_key(key),
    ensures
        is_params(alignment, index_of(alignment, key), octave_of(alignment, key)),
        key_of(alignment, index_of(alignment, key), octave_of(alignment, key)) == key,
{
}

/// Rebuilding a key from a valid index and octave and decomposing it again
/// under the same alignment gives the same index and octave.
pub proof fn lemma_params_round_trip(alignment: Alignment, index: int, octave: int)
    requires
        is_params(alignment, index, octave),
    ensures
        index_of(alignment, key_of(alignment, index, octave)) == index,
        octave_of(alignment, key_of(alignment, index, octave)) == octave,
{
}

/// A higher key lies in a higher octave band, or in the same band at a higher
/// index: under the top alignment higher bands have smaller octave numbers,
/// under the bottom alignment larger ones.
pub proof fn lemma_order_kept(alignment: Alignment, low: int, high: int)
    requires
        is_midi_key(low),
        is_midi_key(high),
        low < high,
    ensures
        match alignment {
            Alignment::Top => top_octave(low) > top_octave(high) || (top_octave(low)
                == top_octave(high) && top_index(low) < top_index(high)),
            Alignment::Bottom => bottom_octave(low) < bottom_octave(high) || (bottom_octave(low)
                == bottom_octave(high) && bottom_index(low) < bottom_index(high)),
        },
{
}

} // verus!
