use crate::equality::{has_entry_from, has_entry_in, has_equal_from, has_equal_in, value_eq};
use crate::ordering::{float_cmp, float_rank};
use std::cmp::Ordering;
use crate::error::{ErrorKind, SteelErr};
use crate::value::{chars_of, elements, lemma_element_decreases, lemma_entry_decreases, SteelVal};
use vstd::prelude::*;
use vstd::wrapping::u64_specs;

verus! {

broadcast use vstd::std_specs::vec::group_vec_axioms, vstd::seq::group_seq_axioms;

/// The multiplier of the hash mix.
pub const HASH_MULTIPLIER: u64 = 0x0000_0100_0000_01b3;

/// The hash of an empty sequence.
pub const HASH_SEED: u64 = 0xcbf2_9ce4_8422_2325;

/// One step of the hash: the running hash times the multiplier, plus `x`,
/// both modulo 2^64.
#[verifier::opaque]
pub open spec fn mix(h: u64, x: u64) -> u64 {
    u64_specs::wrapping_add(u64_specs::wrapping_mul(h, HASH_MULTIPLIER), x)
}

fn mix_exec(h: u64, x: u64) -> (r: u64)
    ensures
        r == mix(h, x),
{
    proof {
        reveal(mix);
    }
    h.wrapping_mul(HASH_MULTIPLIER).wrapping_add(x)
}

/// The hash of a text, character by character.
pub open spec fn text_hash(s: Seq<char>) -> u64
    decreases s.len(),
{
    if s.len() == 0 {
        HASH_SEED
    } else {
        mix(text_hash(s.drop_last()), s.last() as u32 as u64)
    }
}

/// Whether a value can be hashed: the variants that equality compares by
/// content or identity and that may be keys, with elements, keys and values
/// that can be hashed. Numbers hash by their bit pattern.
pub open spec fn hash_defined(v: SteelVal) -> bool
    decreases v,
{
    match v {
        SteelVal::BoolV(_) | SteelVal::NumV(_) | SteelVal::IntV(_) | SteelVal::CharV(_)
        | SteelVal::Void | SteelVal::StringV(_) | SteelVal::SymbolV(_) | SteelVal::FuncV(_)
        | SteelVal::CustomStruct(_) | SteelVal::Closure(_) | SteelVal::IterV(_) => true,
        SteelVal::VectorV(l) => forall|i: int| #![trigger l@[i]] 0 <= i < l@.len() ==> hash_defined(l@[i]),
        SteelVal::ListV(l) => forall|i: int| #![trigger l@[i]] 0 <= i < l@.len() ==> hash_defined(l@[i]),
        SteelVal::HashSetV(l) => forall|i: int| #![trigger l@[i]] 0 <= i < l@.len() ==> hash_defined(l@[i]),
        SteelVal::HashMapV(m) => forall|i: int|
            #![trigger m@[i]]
            0 <= i < m@.len() ==> hash_defined(m@[i].0) && hash_defined(m@[i].1),
        _ => false,
    }
}

/// The bits that a number hashes by: both zeros hash as +0.0, since they
/// are equal.
pub open spec fn float_key(bits: u64) -> u64 {
    if bits & 0x7fff_ffff_ffff_ffffu64 == 0 {
        0
    } else {
        bits
    }
}

fn float_key_of(bits: u64) -> (r: u64)
    ensures
        r == float_key(bits),
{
    if bits & 0x7fff_ffff_ffff_ffffu64 == 0 {
        0
    } else {
        bits
    }
}

pub open spec fn max_u64(a: u64, b: u64) -> u64 {
    if a >= b {
        a
    } else {
        b
    }
}

/// The hash of a value. Sets and maps, whose equality ignores the order and
/// the repetition of their members, hash by the largest hash of a member.
pub open spec fn value_hash(v: SteelVal) -> u64
    decreases v, 0nat,
{
    match v {
        SteelVal::BoolV(b) => mix(1, if b {
            1
        } else {
            0
        }),
        SteelVal::NumV(n) => mix(2, float_key(n)),
        SteelVal::IntV(i) => mix(3, #[verifier::truncate] (i as u64)),
        SteelVal::CharV(c) => mix(4, c as u32 as u64),
        SteelVal::Void => mix(5, 0),
        SteelVal::StringV(s) => mix(6, text_hash(s@)),
        SteelVal::SymbolV(s) => mix(7, text_hash(s@)),
        SteelVal::FuncV(h) => mix(8, h.addr),
        SteelVal::CustomStruct(h) => mix(9, h.addr),
        SteelVal::Closure(c) => mix(10, c.addr),
        SteelVal::IterV(h) => mix(11, h.addr),
        SteelVal::HashMapV(m) => mix(12, entries_max(m@)),
        SteelVal::HashSetV(l) => mix(13, members_max(l@)),
        SteelVal::VectorV(l) => mix(14, seq_hash(l@)),
        SteelVal::ListV(l) => mix(15, seq_hash(l@)),
        _ => 0,
    }
}

/// The largest hash of a member, or 0 for none.
pub open spec fn members_max(s: Seq<SteelVal>) -> u64
    decreases s, 1nat,
{
    if s.len() == 0 {
        0
    } else {
        max_u64(members_max(s.drop_last()), value_hash(s.last()))
    }
}

/// The largest hash of an entry, its key's hash mixed with its value's, or
/// 0 for none.
pub open spec fn entries_max(s: Seq<(SteelVal, SteelVal)>) -> u64
    decreases s, 1nat,
{
    if s.len() == 0 {
        0
    } else {
        max_u64(entries_max(s.drop_last()), mix(value_hash(s.last().0), value_hash(s.last().1)))
    }
}

/// The hash of a sequence of values, element by element.
pub open spec fn seq_hash(s: Seq<SteelVal>) -> u64
    decreases s, 1nat,
{
    if s.len() == 0 {
        HASH_SEED
    } else {
        mix(seq_hash(s.drop_last()), value_hash(s.last()))
    }
}

} // verus!

verus! {

fn text_hash_of(s: &str) -> (r: u64)
    ensures
        r == text_hash(s@),
{
    let cs = chars_of(s);
    let mut h: u64 = HASH_SEED;
    let mut i: usize = 0;
    proof {
        assert(cs@.take(0) =~= Seq::<char>::empty());
    }
    while i < cs.len()
        invariant
            i <= cs@.len(),
            h == text_hash(cs@.take(i as int)),
        decreases cs@.len() - i,
    {
        proof {
            assert(cs@.take(i + 1).drop_last() =~= cs@.take(i as int));
        }
        h = mix_exec(h, cs[i] as u32 as u64);
        i += 1;
    }
    proof {
        assert(cs@.take(i as int) =~= cs@);
    }
    h
}

fn not_hashable(v: &SteelVal) -> (e: SteelErr)
    ensures
        e.kind == ErrorKind::TypeMismatch,
{
    SteelErr::from_str(ErrorKind::TypeMismatch, "value cannot be hashed")
}

/// The running hash of the elements of `outer`, or the first error.
fn hash_elements(outer: &SteelVal, l: &Vec<SteelVal>) -> (r: Result<(u64, u64), SteelErr>)
    requires
        l@ == elements(*outer),
    ensures
        r is Ok <==> forall|i: int| #![trigger l@[i]] 0 <= i < l@.len() ==> hash_defined(l@[i]),
        r matches Ok(h) ==> h.0 == seq_hash(l@) && h.1 == members_max(l@),
        r matches Err(e) ==> e.kind == ErrorKind::TypeMismatch,
    decreases *outer, 0nat,
{
    let mut h: u64 = HASH_SEED;
    let mut top: u64 = 0;
    let mut i: usize = 0;
    proof {
        assert(l@.take(0) =~= Seq::<SteelVal>::empty());
    }
    while i < l.len()
        invariant
            l@ == elements(*outer),
            i <= l@.len(),
            h == seq_hash(l@.take(i as int)),
            top == members_max(l@.take(i as int)),
            forall|k: int| #![trigger l@[k]] 0 <= k < i ==> hash_defined(l@[k]),
        decreases l@.len() - i,
    {
        proof {
            lemma_element_decreases(*outer, i as int);
            assert(l@.take(i + 1).drop_last() =~= l@.take(i as int));
        }
        match hash_ref(&l[i]) {
            Ok(x) => {
                h = mix_exec(h, x);
                if x > top {
                    top = x;
                }
            },
            Err(e) => {
                assert(!hash_defined(l@[i as int]));
                return Err(e);
            },
        }
        i += 1;
    }
    proof {
        assert(l@.take(i as int) =~= l@);
    }
    Ok((h, top))
}

fn hash_entries(outer: &SteelVal, m: &Vec<(SteelVal, SteelVal)>) -> (r: Result<u64, SteelErr>)
    requires
        outer is HashMapV && m@ == outer->HashMapV_0@,
    ensures
        r is Ok <==> forall|i: int|
            #![trigger m@[i]]
            0 <= i < m@.len() ==> hash_defined(m@[i].0) && hash_defined(m@[i].1),
        r matches Ok(h) ==> h == entries_max(m@),
        r matches Err(e) ==> e.kind == ErrorKind::TypeMismatch,
    decreases *outer, 0nat,
{
    let mut top: u64 = 0;
    let mut i: usize = 0;
    proof {
        assert(m@.take(0) =~= Seq::<(SteelVal, SteelVal)>::empty());
    }
    while i < m.len()
        invariant
            outer is HashMapV && m@ == outer->HashMapV_0@,
            i <= m@.len(),
            top == entries_max(m@.take(i as int)),
            forall|k: int|
                #![trigger m@[k]]
                0 <= k < i ==> hash_defined(m@[k].0) && hash_defined(m@[k].1),
        decreases m@.len() - i,
    {
        proof {
            lemma_entry_decreases(*outer, i as int);
            assert(m@.take(i + 1).drop_last() =~= m@.take(i as int));
        }
        let k = match hash_ref(&m[i].0) {
            Ok(k) => k,
            Err(e) => return Err(e),
        };
        let x = match hash_ref(&m[i].1) {
            Ok(x) => x,
            Err(e) => return Err(e),
        };
        let entry = mix_exec(k, x);
        if entry > top {
            top = entry;
        }
        i += 1;
    }
    proof {
        assert(m@.take(i as int) =~= m@);
    }
    Ok(top)
}

fn hash_ref(v: &SteelVal) -> (r: Result<u64, SteelErr>)
    ensures
        r is Ok <==> hash_defined(*v),
        r matches Ok(h) ==> h == value_hash(*v),
        r matches Err(e) ==> e.kind == ErrorKind::TypeMismatch,
    decreases *v, 1nat,
{
    match v {
        SteelVal::BoolV(b) => Ok(mix_exec(1, if *b {
            1
        } else {
            0
        })),
        SteelVal::NumV(n) => Ok(mix_exec(2, float_key_of(*n))),
        SteelVal::IntV(i) => Ok(mix_exec(3, #[verifier::truncate] (*i as u64))),
        SteelVal::CharV(c) => Ok(mix_exec(4, *c as u32 as u64)),
        SteelVal::Void => Ok(mix_exec(5, 0)),
        SteelVal::StringV(s) => Ok(mix_exec(6, text_hash_of(s.as_str()))),
        SteelVal::SymbolV(s) => Ok(mix_exec(7, text_hash_of(s.as_str()))),
        SteelVal::FuncV(h) => Ok(mix_exec(8, h.addr)),
        SteelVal::CustomStruct(h) => Ok(mix_exec(9, h.addr)),
        SteelVal::Closure(c) => Ok(mix_exec(10, c.addr)),
        SteelVal::IterV(h) => Ok(mix_exec(11, h.addr)),
        SteelVal::HashMapV(m) => match hash_entries(v, &**m) {
            Ok(top) => Ok(mix_exec(12, top)),
            Err(e) => Err(e),
        },
        SteelVal::HashSetV(l) => match hash_elements(v, &**l) {
            Ok(h) => Ok(mix_exec(13, h.1)),
            Err(e) => Err(e),
        },
        SteelVal::VectorV(l) => match hash_elements(v, &**l) {
            Ok(h) => Ok(mix_exec(14, h.0)),
            Err(e) => Err(e),
        },
        SteelVal::ListV(l) => match hash_elements(v, &**l) {
            Ok(h) => Ok(mix_exec(15, h.0)),
            Err(e) => Err(e),
        },
        _ => Err(not_hashable(v)),
    }
}

impl SteelVal {
    /// The hash of this value, which agrees with structural equality, or a
    /// type mismatch for a value that holds anything that cannot be hashed.
    pub fn hash_code(&self) -> (r: Result<u64, SteelErr>)
        ensures
            r is Ok <==> hash_defined(*self),
            r matches Ok(h) ==> h == value_hash(*self),
            r matches Err(e) ==> e.kind == ErrorKind::TypeMismatch,
    {
        hash_ref(self)
    }
}

proof fn lemma_seq_hash_agrees(x: Seq<SteelVal>, y: Seq<SteelVal>)
    requires
        x.len() == y.len(),
        forall|i: int| #![trigger x[i]] 0 <= i < x.len() ==> value_hash(x[i]) == value_hash(y[i]),
    ensures
        seq_hash(x) == seq_hash(y),
    decreases x.len(),
{
    if x.len() > 0 {
        lemma_seq_hash_agrees(x.drop_last(), y.drop_last());
        assert(value_hash(x[x.len() - 1]) == value_hash(y[y.len() - 1]));
    }
}

proof fn lemma_members_max_bound(s: Seq<SteelVal>, i: int)
    requires
        0 <= i < s.len(),
    ensures
        value_hash(s[i]) <= members_max(s),
    decreases s.len(),
{
    if i < s.len() - 1 {
        lemma_members_max_bound(s.drop_last(), i);
    }
}

proof fn lemma_members_max_attained(s: Seq<SteelVal>)
    requires
        s.len() > 0,
    ensures
        exists|i: int| 0 <= i < s.len() && members_max(s) == value_hash(s[i]),
    decreases s.len(),
{
    if s.len() == 1 {
        assert(members_max(s.drop_last()) == 0);
        assert(members_max(s) == value_hash(s[0]));
    } else if members_max(s) != value_hash(s.last()) {
        lemma_members_max_attained(s.drop_last());
        let i = choose|i: int| 0 <= i < s.len() - 1 && members_max(s.drop_last()) == value_hash(s.drop_last()[i]);
        assert(members_max(s) == value_hash(s[i]));
    } else {
        assert(members_max(s) == value_hash(s[s.len() - 1]));
    }
}

proof fn lemma_entries_max_bound(s: Seq<(SteelVal, SteelVal)>, i: int)
    requires
        0 <= i < s.len(),
    ensures
        mix(value_hash(s[i].0), value_hash(s[i].1)) <= entries_max(s),
    decreases s.len(),
{
    if i < s.len() - 1 {
        lemma_entries_max_bound(s.drop_last(), i);
    }
}

proof fn lemma_entries_max_attained(s: Seq<(SteelVal, SteelVal)>)
    requires
        s.len() > 0,
    ensures
        exists|i: int| 0 <= i < s.len() && entries_max(s) == mix(value_hash(s[i].0), value_hash(s[i].1)),
    decreases s.len(),
{
    if s.len() == 1 {
        assert(entries_max(s.drop_last()) == 0);
        assert(entries_max(s) == mix(value_hash(s[0].0), value_hash(s[0].1)));
    } else if entries_max(s) != mix(value_hash(s.last().0), value_hash(s.last().1)) {
        lemma_entries_max_attained(s.drop_last());
        let i = choose|i: int|
            0 <= i < s.len() - 1 && entries_max(s.drop_last()) == mix(
                value_hash(s.drop_last()[i].0),
                value_hash(s.drop_last()[i].1),
            );
        assert(entries_max(s) == mix(value_hash(s[i].0), value_hash(s[i].1)));
    } else {
        assert(entries_max(s) == mix(value_hash(s[s.len() - 1].0), value_hash(s[s.len() - 1].1)));
    }
}

proof fn lemma_equal_floats_same_key(a: u64, b: u64)
    requires
        float_cmp(a, b) == Some(Ordering::Equal),
    ensures
        float_key(a) == float_key(b),
{
    assert(float_rank(a) == float_rank(b));
    if (a & 0x7fff_ffff_ffff_ffffu64) != 0 && (b & 0x7fff_ffff_ffff_ffffu64) != 0 {
        assert((a & 0x8000_0000_0000_0000u64 != 0) == (b & 0x8000_0000_0000_0000u64 != 0));
        assert((a & 0x7fff_ffff_ffff_ffffu64) == (b & 0x7fff_ffff_ffff_ffffu64));
        assert(((a & 0x7fff_ffff_ffff_ffffu64) == (b & 0x7fff_ffff_ffff_ffffu64) && ((a
            & 0x8000_0000_0000_0000u64) != 0) == ((b & 0x8000_0000_0000_0000u64) != 0)) ==> a == b)
            by (bit_vector);
    }
}

/// Hashing agrees with equality: a value equal to a hashable value is
/// hashable, and the two hash alike.
pub proof fn hash_agrees_with_eq(a: SteelVal, b: SteelVal)
    requires
        value_eq(a, b),
        hash_defined(a),
    ensures
        hash_defined(b),
        value_hash(a) == value_hash(b),
    decreases a,
{
    match (a, b) {
        (SteelVal::NumV(x), SteelVal::NumV(y)) => {
            lemma_equal_floats_same_key(x, y);
        },
        (SteelVal::VectorV(x), SteelVal::VectorV(y)) | (SteelVal::ListV(x), SteelVal::ListV(y)) => {
            assert forall|i: int| #![trigger x@[i]] 0 <= i < x@.len() implies hash_defined(y@[i])
                && value_hash(x@[i]) == value_hash(y@[i]) by {
                lemma_element_decreases(a, i);
                hash_agrees_with_eq(x@[i], y@[i]);
            }
            assert forall|i: int| #![trigger y@[i]] 0 <= i < y@.len() implies hash_defined(y@[i]) by {
                assert(hash_defined(x@[i]));
            }
            lemma_seq_hash_agrees(x@, y@);
        },
        (SteelVal::HashSetV(x), SteelVal::HashSetV(y)) => {
            assert forall|j: int| #![trigger y@[j]] 0 <= j < y@.len() implies hash_defined(y@[j]) by {
                assert(has_equal_from(x@, y@[j]));
                let i = choose|i: int| 0 <= i < x@.len() && value_eq(x@[i], y@[j]);
                lemma_element_decreases(a, i);
                hash_agrees_with_eq(x@[i], y@[j]);
            }
            assert forall|i: int, j: int|
                0 <= i < x@.len() && 0 <= j < y@.len() && value_eq(x@[i], y@[j]) implies value_hash(
                x@[i],
            ) == value_hash(y@[j]) by {
                lemma_element_decreases(a, i);
                hash_agrees_with_eq(x@[i], y@[j]);
            }
            if x@.len() > 0 {
                lemma_members_max_attained(x@);
                let i = choose|i: int| 0 <= i < x@.len() && members_max(x@) == value_hash(x@[i]);
                assert(has_equal_in(x@[i], y@));
                let j = choose|j: int| 0 <= j < y@.len() && value_eq(x@[i], y@[j]);
                lemma_members_max_bound(y@, j);
            }
            if y@.len() > 0 {
                lemma_members_max_attained(y@);
                let j = choose|j: int| 0 <= j < y@.len() && members_max(y@) == value_hash(y@[j]);
                assert(has_equal_from(x@, y@[j]));
                let i = choose|i: int| 0 <= i < x@.len() && value_eq(x@[i], y@[j]);
                lemma_members_max_bound(x@, i);
            }
        },
        (SteelVal::HashMapV(x), SteelVal::HashMapV(y)) => {
            assert forall|j: int| #![trigger y@[j]] 0 <= j < y@.len() implies hash_defined(y@[j].0)
                && hash_defined(y@[j].1) by {
                assert(has_entry_from(x@, y@[j]));
                let i = choose|i: int|
                    0 <= i < x@.len() && value_eq(x@[i].0, y@[j].0) && value_eq(x@[i].1, y@[j].1);
                lemma_entry_decreases(a, i);
                hash_agrees_with_eq(x@[i].0, y@[j].0);
                hash_agrees_with_eq(x@[i].1, y@[j].1);
            }
            assert forall|i: int, j: int|
                0 <= i < x@.len() && 0 <= j < y@.len() && value_eq(x@[i].0, y@[j].0) && value_eq(
                    x@[i].1,
                    y@[j].1,
                ) implies mix(value_hash(x@[i].0), value_hash(x@[i].1)) == mix(
                value_hash(y@[j].0),
                value_hash(y@[j].1),
            ) by {
                lemma_entry_decreases(a, i);
                hash_agrees_with_eq(x@[i].0, y@[j].0);
                hash_agrees_with_eq(x@[i].1, y@[j].1);
            }
            if x@.len() > 0 {
                lemma_entries_max_attained(x@);
                let i = choose|i: int|
                    0 <= i < x@.len() && entries_max(x@) == mix(value_hash(x@[i].0), value_hash(x@[i].1));
                assert(has_entry_in(x@[i], y@));
                let j = choose|j: int|
                    0 <= j < y@.len() && value_eq(x@[i].0, y@[j].0) && value_eq(x@[i].1, y@[j].1);
                lemma_entries_max_bound(y@, j);
            }
            if y@.len() > 0 {
                lemma_entries_max_attained(y@);
                let j = choose|j: int|
                    0 <= j < y@.len() && entries_max(y@) == mix(value_hash(y@[j].0), value_hash(y@[j].1));
                assert(has_entry_from(x@, y@[j]));
                let i = choose|i: int|
                    0 <= i < x@.len() && value_eq(x@[i].0, y@[j].0) && value_eq(x@[i].1, y@[j].1);
                lemma_entries_max_bound(x@, i);
            }
        },
        _ => {},
    }
}

} // verus!
