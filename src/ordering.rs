use crate::value::{chars_of, SteelVal};
use std::cmp::Ordering;
use vstd::prelude::*;

verus! {

/// The order of two integers.
pub open spec fn int_cmp(a: int, b: int) -> Ordering {
    if a < b {
        Ordering::Less
    } else if a > b {
        Ordering::Greater
    } else {
        Ordering::Equal
    }
}

/// Lexicographic order of two character sequences, by code point.
pub open spec fn text_cmp(a: Seq<char>, b: Seq<char>) -> Ordering
    decreases a.len(),
{
    if a.len() == 0 {
        if b.len() == 0 {
            Ordering::Equal
        } else {
            Ordering::Less
        }
    } else if b.len() == 0 {
        Ordering::Greater
    } else if a[0] != b[0] {
        int_cmp(a[0] as u32 as int, b[0] as u32 as int)
    } else {
        text_cmp(a.drop_first(), b.drop_first())
    }
}

/// A binary64 bit pattern that encodes a NaN.
pub open spec fn float_is_nan(bits: u64) -> bool {
    (bits & 0x7ff0_0000_0000_0000u64) == 0x7ff0_0000_0000_0000u64 && (bits
        & 0x000f_ffff_ffff_ffffu64) != 0
}

/// Where a non-NaN binary64 value stands on the number line: its magnitude
/// bits, negated for a negative sign. Both zeros stand at 0.
pub open spec fn float_rank(bits: u64) -> int {
    let magnitude = (bits & 0x7fff_ffff_ffff_ffffu64) as int;
    if bits & 0x8000_0000_0000_0000u64 != 0 {
        -magnitude
    } else {
        magnitude
    }
}

/// The IEEE-754 partial order of two binary64 values: NaN is unordered,
/// and the two zeros are equal.
pub open spec fn float_cmp(a: u64, b: u64) -> Option<Ordering> {
    if float_is_nan(a) || float_is_nan(b) {
        None
    } else {
        Some(int_cmp(float_rank(a), float_rank(b)))
    }
}

/// The partial order of values: numbers, strings, characters and integers
/// compare with their own kind; every other pairing is unordered.
pub open spec fn value_cmp(a: SteelVal, b: SteelVal) -> Option<Ordering> {
    match (a, b) {
        (SteelVal::NumV(n), SteelVal::NumV(o)) => float_cmp(n, o),
        (SteelVal::StringV(s), SteelVal::StringV(o)) => Some(text_cmp(s@, o@)),
        (SteelVal::CharV(l), SteelVal::CharV(r)) => Some(int_cmp(l as u32 as int, r as u32 as int)),
        (SteelVal::IntV(l), SteelVal::IntV(r)) => Some(int_cmp(l as int, r as int)),
        _ => None,
    }
}

fn compare_ints(a: i128, b: i128) -> (r: Ordering)
    ensures
        r == int_cmp(a as int, b as int),
{
    if a < b {
        Ordering::Less
    } else if a > b {
        Ordering::Greater
    } else {
        Ordering::Equal
    }
}

fn float_rank_of(bits: u64) -> (r: i128)
    ensures
        r as int == float_rank(bits),
{
    let magnitude = (bits & 0x7fff_ffff_ffff_ffffu64) as i128;
    if bits & 0x8000_0000_0000_0000u64 != 0 {
        -magnitude
    } else {
        magnitude
    }
}

pub(crate) fn compare_floats(a: u64, b: u64) -> (r: Option<Ordering>)
    ensures
        r == float_cmp(a, b),
{
    let a_nan = (a & 0x7ff0_0000_0000_0000u64) == 0x7ff0_0000_0000_0000u64 && (a
        & 0x000f_ffff_ffff_ffffu64) != 0;
    let b_nan = (b & 0x7ff0_0000_0000_0000u64) == 0x7ff0_0000_0000_0000u64 && (b
        & 0x000f_ffff_ffff_ffffu64) != 0;
    if a_nan || b_nan {
        None
    } else {
        Some(compare_ints(float_rank_of(a), float_rank_of(b)))
    }
}

proof fn lemma_text_cmp_skip(a: Seq<char>, b: Seq<char>, i: int)
    requires
        0 <= i < a.len(),
        i < b.len(),
        a[i] == b[i],
    ensures
        text_cmp(a.skip(i), b.skip(i)) == text_cmp(a.skip(i + 1), b.skip(i + 1)),
{
    assert(a.skip(i).drop_first() =~= a.skip(i + 1));
    assert(b.skip(i).drop_first() =~= b.skip(i + 1));
}

fn compare_text(a: &Vec<char>, b: &Vec<char>) -> (r: Ordering)
    ensures
        r == text_cmp(a@, b@),
{
    let mut i: usize = 0;
    proof {
        assert(a@.skip(0) =~= a@);
        assert(b@.skip(0) =~= b@);
    }
    while i < a.len() && i < b.len()
        invariant
            i <= a@.len(),
            i <= b@.len(),
            text_cmp(a@, b@) == text_cmp(a@.skip(i as int), b@.skip(i as int)),
        decreases a@.len() - i,
    {
        if a[i] != b[i] {
            proof {
                assert(a@.skip(i as int)[0] == a@[i as int]);
                assert(b@.skip(i as int)[0] == b@[i as int]);
            }
            return compare_ints(a[i] as u32 as i128, b[i] as u32 as i128);
        }
        proof {
            lemma_text_cmp_skip(a@, b@, i as int);
        }
        i += 1;
    }
    if i < b.len() {
        Ordering::Less
    } else if i < a.len() {
        Ordering::Greater
    } else {
        Ordering::Equal
    }
}

impl PartialOrd for SteelVal {
    fn partial_cmp(&self, other: &SteelVal) -> (r: Option<Ordering>)
        ensures
            r == value_cmp(*self, *other),
    {
        match (self, other) {
            (SteelVal::NumV(n), SteelVal::NumV(o)) => compare_floats(*n, *o),
            (SteelVal::StringV(s), SteelVal::StringV(o)) => {
                let x = chars_of(s.as_str());
                let y = chars_of(o.as_str());
                Some(compare_text(&x, &y))
            },
            (SteelVal::CharV(l), SteelVal::CharV(r)) => Some(
                compare_ints(*l as u32 as i128, *r as u32 as i128),
            ),
            (SteelVal::IntV(l), SteelVal::IntV(r)) => Some(compare_ints(*l as i128, *r as i128)),
            _ => None,
        }
    }
}

impl vstd::std_specs::cmp::PartialOrdSpecImpl for SteelVal {
    open spec fn obeys_partial_cmp_spec() -> bool {
        true
    }

    open spec fn partial_cmp_spec(&self, other: &SteelVal) -> Option<Ordering> {
        value_cmp(*self, *other)
    }
}

} // verus!
