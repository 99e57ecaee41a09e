//! Decoding of the 32-bit variable-length unsigned integers used by
//! the custom `name` section.
//!
//! An encoded integer is a little-endian base-128 sequence: each byte
//! contributes its low seven bits, and its high bit says whether
//! another byte follows. A 32-bit value takes at most five bytes; a
//! fifth byte must leave no bit above position 31 set.

use vstd::prelude::*;

verus! {

/// Exclusive upper bound on the value a decode contributes when its
/// first byte sits at bit position `shift`: two to the power of
/// `32 - shift`, for the shifts a 32-bit decode can reach.
pub open spec fn vu32_bound(shift: nat) -> nat {
    if shift == 0 {
        0x1_0000_0000
    } else if shift == 7 {
        0x200_0000
    } else if shift == 14 {
        0x4_0000
    } else if shift == 21 {
        0x800
    } else {
        16
    }
}

/// Decode a variable-length unsigned 32-bit integer from `bytes`
/// within the window `[p, end)`, with the next byte contributing bits
/// starting at position `shift`. Yields the decoded value and the
/// position just past it, or `None` when the window is exhausted, a
/// sixth byte would be needed, or a fifth byte carries bits beyond
/// the 32-bit range.
pub open spec fn spec_vu32_at(bytes: Seq<u8>, p: int, end: int, shift: nat) -> Option<(nat, int)>
    decreases 40 - shift,
{
    if shift > 31 {
        None
    } else if p < 0 || end > bytes.len() || p >= end {
        None
    } else {
        let b = bytes[p];
        if b >= 128 {
            match spec_vu32_at(bytes, p + 1, end, shift + 7) {
                Some(t) => Some((((b - 128) as nat) + 128 * t.0, t.1)),
                None => None,
            }
        } else {
            if shift + 7 >= 32 && b >= 16 {
                None
            } else {
                Some((b as nat, p + 1))
            }
        }
    }
}

/// A successful decode stays inside its window, consumes at least one
/// byte, and produces a value below the bound for its starting shift.
pub proof fn lemma_vu32_at_props(bytes: Seq<u8>, p: int, end: int, shift: nat)
    requires
        shift % 7 == 0,
    ensures
        spec_vu32_at(bytes, p, end, shift) matches Some(t) ==> {
            &&& t.0 < vu32_bound(shift)
            &&& p < t.1 <= end
        },
    decreases 40 - shift,
{
    if shift <= 31 && 0 <= p < end && end <= bytes.len() {
        let b = bytes[p];
        if b >= 128 {
            lemma_vu32_at_props(bytes, p + 1, end, shift + 7);
        }
    }
}

/// Decode a variable-length unsigned 32-bit integer from `bytes`
/// within `[pos, end)`, continuing at bit position `shift`.
pub fn decode_vu32_at(bytes: &Vec<u8>, pos: usize, end: usize, shift: u32) -> (r: Option<
    (u32, usize),
>)
    requires
        end <= bytes@.len(),
        shift % 7 == 0,
    ensures
        match spec_vu32_at(bytes@, pos as int, end as int, shift as nat) {
            Some(t) => r matches Some(e) && e.0 as nat == t.0 && e.1 as int == t.1,
            None => r is None,
        },
    decreases 40 - shift,
{
    if shift > 31 {
        return None;
    }
    if pos >= end {
        return None;
    }
    let b = bytes[pos];
    if b >= 128 {
        match decode_vu32_at(bytes, pos + 1, end, shift + 7) {
            Some((rest, np)) => {
                proof {
                    lemma_vu32_at_props(bytes@, pos as int + 1, end as int, (shift + 7) as nat);
                }
                Some(((b - 128) as u32 + 128 * rest, np))
            },
            None => None,
        }
    } else {
        if shift + 7 >= 32 && b >= 16 {
            None
        } else {
            Some((b as u32, pos + 1))
        }
    }
}

/// Decode one variable-length unsigned 32-bit integer starting at
/// `pos` within `[pos, end)`.
pub fn decode_u32(bytes: &Vec<u8>, pos: usize, end: usize) -> (r: Option<(u32, usize)>)
    requires
        end <= bytes@.len(),
    ensures
        match spec_vu32_at(bytes@, pos as int, end as int, 0) {
            Some(t) => r matches Some(e) && e.0 as nat == t.0 && e.1 as int == t.1,
            None => r is None,
        },
{
    decode_vu32_at(bytes, pos, end, 0)
}

} // verus!
