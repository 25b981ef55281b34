//! Character-encoding profiles for string pseudo-ops.

use vstd::prelude::*;

verus! {

/// A target character-encoding profile. `C64` maps ASCII lowercase letters
/// to their PETSCII uppercase codes; every other byte passes through.
#[derive(Clone, Copy, PartialEq, Eq, Structural, Debug)]
pub enum Target {
    C64,
}

impl Target {
    /// Selects a profile by name. `C64` (any case) names the C64 profile;
    /// unrecognized names silently fall back to it as well.
    pub fn from_string(_string: &str) -> (r: Self)
        ensures
            r == Target::C64,
    {
        Target::C64
    }
}

/// What `char_format` returns: for the C64 profile, an ASCII lowercase
/// letter (0x61..=0x7A) loses 0x60 to become PETSCII uppercase; every
/// other byte is unchanged.
pub open spec fn spec_char_format(chr: u8, target: Target) -> u8 {
    match target {
        Target::C64 => if 0x61 <= chr && chr <= 0x7a {
            (chr - 0x60) as u8
        } else {
            chr
        },
    }
}

/// Transcodes one byte of a string literal into the target encoding.
pub fn char_format(chr: u8, target: &Target) -> (r: u8)
    ensures
        r == spec_char_format(chr, *target),
{
    match target {
        Target::C64 => {
            if 0x61 <= chr && chr <= 0x7a {
                chr - 0x60
            } else {
                chr
            }
        },
    }
}

} // verus!
