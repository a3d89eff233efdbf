//! MIDI key numbers and their position within the octave.
//!
//! A MIDI key is an integer in `0..=127`, key 69 being concert A at 440 Hz.
//! The frequency of a key follows equal temperament,
//! `440 * 2^((key - 69) / 12)`. Approximate evaluation splits a key into a
//! sub-octave index in `0..=11` and an octave number: a short Chebyshev series
//! then covers one octave, and a power of two covers the octave shift. This
//! crate holds the integer side of that scheme: key validation and the two
//! octave decompositions, with their inverses and the laws that tie them.

pub mod key;
pub mod octave;

pub use key::{validate_key, KeyError};
pub use octave::{
    decompose, key_to_params_bottom, key_to_params_top, params_to_key, params_to_key_bottom,
    params_to_key_top, Alignment,
};
