//! Decoding of the custom `name` section's function-names subsection.
//!
//! The payload of a `name` section is a sequence of subsections, each
//! introduced by a one-byte kind and a variable-length byte count. The
//! first subsection of kind `1` holds the function names: a
//! variable-length entry count followed by that many pairs of a
//! variable-length function index and a length-prefixed UTF-8 name
//! (decoded leniently). Indices are normalized by subtracting the
//! number of imported functions, saturating at zero, so that the
//! resulting map is keyed by zero-based defined-function index.
//!
//! Decoding never fails loudly: a payload that cannot be decoded — a
//! truncated integer, a subsection or name length that overruns the
//! payload — yields "no names available" rather than an error, and a
//! payload with no kind-1 subsection yields an empty map.

use vstd::prelude::*;

use crate::leb::decode_u32;
use crate::leb::lemma_vu32_at_props;
use crate::leb::spec_vu32_at;

verus! {

/// The characters that lenient UTF-8 decoding yields for the given
/// bytes: each invalid sequence is replaced rather than rejected.
pub uninterp spec fn utf8_lossy_of(bytes: Seq<u8>) -> Seq<char>;

/// Relies on `String::from_utf8_lossy` of std: the result is a
/// function of the input bytes alone, with invalid sequences replaced
/// by the replacement character. Bytes that are all ASCII are valid
/// UTF-8 and decode to themselves, one character per byte.
#[verifier::external_body]
fn utf8_lossy_range(bytes: &Vec<u8>, start: usize, end: usize) -> (r: String)
    requires
        start <= end <= bytes@.len(),
    ensures
        r@ == utf8_lossy_of(bytes@.subrange(start as int, end as int)),
        (forall|i: int|
            0 <= i < end - start ==> bytes@.subrange(start as int, end as int)[i] < 128) ==> r@
            == bytes@.subrange(start as int, end as int).map_values(|b: u8| b as char),
{
    String::from_utf8_lossy(&bytes[start..end]).into_owned()
}

/// One entry of the decoded name map: a zero-based defined-function
/// index and the name recorded for it.
#[derive(Clone, Debug)]
pub struct NameEntry {
    /// The zero-based index among the defined functions.
    pub index: u32,
    /// The recorded name.
    pub name: String,
}

/// The specification-level value of a [`NameEntry`].
pub ghost struct NameEntryV {
    /// The zero-based index among the defined functions.
    pub index: u32,
    /// The recorded name.
    pub name: Seq<char>,
}

impl View for NameEntry {
    type V = NameEntryV;

    open spec fn view(&self) -> NameEntryV {
        NameEntryV { index: self.index, name: self.name@ }
    }
}

/// A decoded function index, normalized to the defined-function index
/// space by subtracting the number of imported functions, saturating
/// at zero.
pub open spec fn norm_index(idx: nat, num_imports: int) -> u32 {
    if idx >= num_imports {
        (idx - num_imports) as u32
    } else {
        0
    }
}

/// Decode `count` (index, name) pairs from `bytes` within
/// `[p, end)`. Entries keep payload order; `None` means the payload is
/// malformed.
pub open spec fn spec_name_entries(
    bytes: Seq<u8>,
    p: int,
    end: int,
    num_imports: int,
    count: nat,
) -> Option<Seq<NameEntryV>>
    decreases count,
{
    if count == 0 {
        Some(Seq::empty())
    } else {
        match spec_vu32_at(bytes, p, end, 0) {
            None => None,
            Some(ti) => match spec_vu32_at(bytes, ti.1, end, 0) {
                None => None,
                Some(tl) => {
                    let nend = tl.1 + tl.0;
                    if nend > end {
                        None
                    } else {
                        let entry = NameEntryV {
                            index: norm_index(ti.0, num_imports),
                            name: utf8_lossy_of(bytes.subrange(tl.1, nend)),
                        };
                        match spec_name_entries(bytes, nend, end, num_imports, (count - 1) as nat) {
                            None => None,
                            Some(rest) => Some(seq![entry] + rest),
                        }
                    }
                },
            },
        }
    }
}

/// Decode a whole function-names subsection within `[p, end)`: an
/// entry count followed by that many entries.
pub open spec fn spec_func_names(bytes: Seq<u8>, p: int, end: int, num_imports: int) -> Option<
    Seq<NameEntryV>,
> {
    match spec_vu32_at(bytes, p, end, 0) {
        None => None,
        Some(tc) => spec_name_entries(bytes, tc.1, end, num_imports, tc.0),
    }
}

/// Scan the subsections of a `name` section payload within `[p, end)`
/// and decode the first subsection of kind `1`. `Some(empty)` when no
/// such subsection exists; `None` when the payload is malformed.
pub open spec fn spec_scan_subsections(bytes: Seq<u8>, p: int, end: int, num_imports: int) -> Option<
    Seq<NameEntryV>,
>
    decreases end - p,
    when p >= end || (0 <= p && end <= bytes.len())
    via spec_scan_subsections_decreases
{
    if p >= end {
        Some(Seq::empty())
    } else {
        let kind = bytes[p];
        match spec_vu32_at(bytes, p + 1, end, 0) {
            None => None,
            Some(tl) => {
                let send = tl.1 + tl.0;
                if send > end {
                    None
                } else if kind == 1 {
                    spec_func_names(bytes, tl.1, send, num_imports)
                } else {
                    spec_scan_subsections(bytes, send, end, num_imports)
                }
            },
        }
    }
}

#[via_fn]
proof fn spec_scan_subsections_decreases(bytes: Seq<u8>, p: int, end: int, num_imports: int) {
    if p < end {
        lemma_vu32_at_props(bytes, p + 1, end, 0);
    }
}

/// What decoding a `name` section payload yields: the function-name
/// entries of the first kind-1 subsection, in payload order, with
/// normalized indices; an empty sequence when no kind-1 subsection
/// exists; `None` when the payload is malformed.
pub open spec fn spec_name_map(bytes: Seq<u8>, num_imports: int) -> Option<Seq<NameEntryV>> {
    spec_scan_subsections(bytes, 0, bytes.len() as int, num_imports)
}

/// Decode the function-name map from a `name` section payload.
/// `num_imports` is the number of imported functions, which decoded
/// indices are relative to.
pub fn decode_name_map(bytes: &Vec<u8>, num_imports: usize) -> (r: Option<Vec<NameEntry>>)
    ensures
        match spec_name_map(bytes@, num_imports as int) {
            Some(s) => r matches Some(v) && v@.map_values(|e: NameEntry| e@) == s,
            None => r is None,
        },
{
    let end = bytes.len();
    let mut p: usize = 0;
    while p < end
        invariant
            p <= end,
            end == bytes@.len(),
            spec_name_map(bytes@, num_imports as int) == spec_scan_subsections(
                bytes@,
                p as int,
                end as int,
                num_imports as int,
            ),
        decreases end - p,
    {
        let kind = bytes[p];
        match decode_u32(bytes, p + 1, end) {
            None => {
                return None;
            },
            Some((plen, q)) => {
                proof {
                    lemma_vu32_at_props(bytes@, p as int + 1, end as int, 0);
                }
                if (plen as u64) > ((end - q) as u64) {
                    return None;
                }
                let send = q + (plen as usize);
                if kind == 1 {
                    return decode_func_names(bytes, q, send, num_imports);
                }
                p = send;
            },
        }
    }
    Some(Vec::new())
}

/// Decode the function-names subsection found at `[p, end)`.
fn decode_func_names(bytes: &Vec<u8>, p: usize, end: usize, num_imports: usize) -> (r: Option<
    Vec<NameEntry>,
>)
    requires
        p <= end <= bytes@.len(),
    ensures
        match spec_func_names(bytes@, p as int, end as int, num_imports as int) {
            Some(s) => r matches Some(v) && v@.map_values(|e: NameEntry| e@) == s,
            None => r is None,
        },
{
    let ghost whole = spec_func_names(bytes@, p as int, end as int, num_imports as int);
    match decode_u32(bytes, p, end) {
        None => None,
        Some((count, start)) => {
            proof {
                lemma_vu32_at_props(bytes@, p as int, end as int, 0);
            }
            let mut entries: Vec<NameEntry> = Vec::new();
            let mut ep = start;
            let mut j: u32 = 0;
            while j < count
                invariant
                    j <= count,
                    ep <= end <= bytes@.len(),
                    whole == spec_func_names(
                        bytes@,
                        p as int,
                        end as int,
                        num_imports as int,
                    ),
                    whole == match spec_name_entries(
                        bytes@,
                        ep as int,
                        end as int,
                        num_imports as int,
                        (count - j) as nat,
                    ) {
                        Some(rest) => Some(entries@.map_values(|e: NameEntry| e@) + rest),
                        None => None::<Seq<NameEntryV>>,
                    },
                decreases count - j,
            {
                let ghost before = entries@.map_values(|e: NameEntry| e@);
                match decode_u32(bytes, ep, end) {
                    None => {
                        return None;
                    },
                    Some((idx, p2)) => {
                        proof {
                            lemma_vu32_at_props(bytes@, ep as int, end as int, 0);
                        }
                        match decode_u32(bytes, p2, end) {
                            None => {
                                return None;
                            },
                            Some((nlen, p3)) => {
                                proof {
                                    lemma_vu32_at_props(bytes@, p2 as int, end as int, 0);
                                }
                                if (nlen as u64) > ((end - p3) as u64) {
                                    return None;
                                }
                                let nend = p3 + (nlen as usize);
                                let name = utf8_lossy_range(bytes, p3, nend);
                                let norm: u32 = if (num_imports as u64) <= (idx as u64) {
                                    (idx as u64 - num_imports as u64) as u32
                                } else {
                                    0
                                };
                                let entry = NameEntry { index: norm, name };
                                proof {
                                    assert(entry@ == NameEntryV {
                                        index: norm_index(idx as nat, num_imports as int),
                                        name: utf8_lossy_of(
                                            bytes@.subrange(p3 as int, nend as int),
                                        ),
                                    });
                                }
                                entries.push(entry);
                                proof {
                                    assert(entries@.map_values(|e: NameEntry| e@) =~= before.push(
                                        entry@,
                                    ));
                                    assert forall|rest: Seq<NameEntryV>|
                                        before + (seq![entry@] + rest) =~= (before.push(entry@))
                                            + rest by {};
                                }
                                ep = nend;
                                j = j + 1;
                            },
                        }
                    },
                }
            }
            proof {
                assert(spec_name_entries(
                    bytes@,
                    ep as int,
                    end as int,
                    num_imports as int,
                    0,
                ) == Some(Seq::<NameEntryV>::empty()));
                assert(entries@.map_values(|e: NameEntry| e@) + Seq::<NameEntryV>::empty()
                    =~= entries@.map_values(|e: NameEntry| e@));
            }
            Some(entries)
        },
    }
}

/// Look a defined-function index up in a decoded name map. When two
/// entries carry the same index, the later one wins, as a map built by
/// insertion in payload order would have it.
pub open spec fn spec_name_lookup(entries: Seq<NameEntryV>, idx: int) -> Option<Seq<char>>
    decreases entries.len(),
{
    if entries.len() == 0 {
        None
    } else if entries.last().index == idx {
        Some(entries.last().name)
    } else {
        spec_name_lookup(entries.drop_last(), idx)
    }
}

/// Find the name recorded for defined-function index `idx`, the
/// latest entry for that index winning.
pub fn name_lookup(entries: &Vec<NameEntry>, idx: usize) -> (r: Option<String>)
    ensures
        match spec_name_lookup(entries@.map_values(|e: NameEntry| e@), idx as int) {
            Some(n) => r matches Some(s) && s@ == n,
            None => r is None,
        },
{
    let ghost mapped = entries@.map_values(|e: NameEntry| e@);
    let mut i = entries.len();
    proof {
        assert(mapped.take(i as int) =~= mapped);
    }
    while i > 0
        invariant
            i <= entries@.len(),
            mapped == entries@.map_values(|e: NameEntry| e@),
            spec_name_lookup(mapped, idx as int) == spec_name_lookup(
                mapped.take(i as int),
                idx as int,
            ),
        decreases i,
    {
        i = i - 1;
        proof {
            assert(mapped.take(i as int + 1).last() == mapped[i as int]);
            assert(mapped.take(i as int + 1).drop_last() =~= mapped.take(i as int));
        }
        if (entries[i].index as u64) == (idx as u64) {
            return Some(entries[i].name.clone());
        }
    }
    proof {
        assert(mapped.take(0) =~= Seq::<NameEntryV>::empty());
    }
    None
}

} // verus!
