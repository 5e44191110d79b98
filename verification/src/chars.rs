//! Byte-level classification and case mapping for ASCII text.
//!
//! Project names are restricted to ASCII letters, digits, hyphens and
//! underscores, so all derived forms can be computed byte by byte.
use vstd::prelude::*;

verus! {

/// ASCII `-`
pub const HYPHEN: u8 = 45;

/// ASCII `_`
pub const UNDERSCORE: u8 = 95;

/// ASCII space
pub const SPACE: u8 = 32;

/// ASCII whitespace: space, tab, line feed, form feed, carriage return.
pub open spec fn is_ws(b: u8) -> bool {
    b == SPACE || b == 9 || b == 10 || b == 12 || b == 13
}

/// ASCII letter or digit.
pub open spec fn is_alnum_spec(b: u8) -> bool {
    (48 <= b && b <= 57) || (97 <= b && b <= 122) || (65 <= b && b <= 90)
}

/// A byte allowed in a normalized project name.
pub open spec fn is_name_byte_spec(b: u8) -> bool {
    is_alnum_spec(b) || b == HYPHEN || b == UNDERSCORE
}

/// Lower-case an ASCII letter; other bytes are unchanged.
pub open spec fn to_lower_spec(b: u8) -> u8 {
    if 65 <= b && b <= 90 {
        (b + 32) as u8
    } else {
        b
    }
}

/// Upper-case an ASCII letter; other bytes are unchanged.
pub open spec fn to_upper_spec(b: u8) -> u8 {
    if 97 <= b && b <= 122 {
        (b - 32) as u8
    } else {
        b
    }
}

/// A space becomes a hyphen; other bytes are unchanged.
pub open spec fn space_to_hyphen_spec(b: u8) -> u8 {
    if b == SPACE {
        HYPHEN
    } else {
        b
    }
}

pub fn is_name_byte(b: u8) -> (r: bool)
    ensures
        r == is_name_byte_spec(b),
{
    (48 <= b && b <= 57) || (97 <= b && b <= 122) || (65 <= b && b <= 90) || b == HYPHEN || b
        == UNDERSCORE
}

pub fn to_lower_byte(b: u8) -> (r: u8)
    ensures
        r == to_lower_spec(b),
{
    if 65 <= b && b <= 90 {
        b + 32
    } else {
        b
    }
}

pub fn to_upper_byte(b: u8) -> (r: u8)
    ensures
        r == to_upper_spec(b),
{
    if 97 <= b && b <= 122 {
        b - 32
    } else {
        b
    }
}

pub fn space_to_hyphen(b: u8) -> (r: u8)
    ensures
        r == space_to_hyphen_spec(b),
{
    if b == SPACE {
        HYPHEN
    } else {
        b
    }
}

} // verus!
