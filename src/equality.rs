use crate::value::{
    bigint_eq, bigint_value, elements, entries, lemma_element_decreases, lemma_entry_decreases,
    SteelVal,
};
use crate::ordering::{compare_floats, float_cmp, float_is_nan};
use std::cmp::Ordering;
use vstd::prelude::*;

verus! {

broadcast use vstd::std_specs::vec::group_vec_axioms, vstd::seq::group_seq_axioms;

/// Structural equality. Scalars compare by value (floating-point numbers by
/// IEEE-754 equality, so NaN equals nothing and the two zeros are equal),
/// strings and symbols by their text, lists and vectors
/// element by element, sets and maps by mutual inclusion, closures,
/// contracts and structs by identity. Every other pairing, of one variant
/// or of two, is unequal.
pub open spec fn value_eq(a: SteelVal, b: SteelVal) -> bool
    decreases a, 0nat,
{
    match (a, b) {
        (SteelVal::Void, SteelVal::Void) => true,
        (SteelVal::BoolV(l), SteelVal::BoolV(r)) => l == r,
        (SteelVal::NumV(l), SteelVal::NumV(r)) => float_cmp(l, r) == Some(Ordering::Equal),
        (SteelVal::BigNum(l), SteelVal::BigNum(r)) => bigint_value(*l) == bigint_value(*r),
        (SteelVal::IntV(l), SteelVal::IntV(r)) => l == r,
        (SteelVal::StringV(l), SteelVal::StringV(r)) => l@ == r@,
        (SteelVal::SymbolV(l), SteelVal::SymbolV(r)) => l@ == r@,
        (SteelVal::CharV(l), SteelVal::CharV(r)) => l == r,
        (SteelVal::VectorV(x), SteelVal::VectorV(y)) => x@.len() == y@.len() && forall|i: int|
            #![trigger x@[i]]
            0 <= i < x@.len() ==> value_eq(x@[i], y@[i]),
        (SteelVal::ListV(x), SteelVal::ListV(y)) => x@.len() == y@.len() && forall|i: int|
            #![trigger x@[i]]
            0 <= i < x@.len() ==> value_eq(x@[i], y@[i]),
        (SteelVal::HashSetV(x), SteelVal::HashSetV(y)) => (forall|i: int|
            #![trigger x@[i]]
            0 <= i < x@.len() ==> has_equal_in(x@[i], y@)) && (forall|j: int|
            #![trigger y@[j]]
            0 <= j < y@.len() ==> has_equal_from(x@, y@[j])),
        (SteelVal::HashMapV(x), SteelVal::HashMapV(y)) => (forall|i: int|
            #![trigger x@[i]]
            0 <= i < x@.len() ==> has_entry_in(x@[i], y@)) && (forall|j: int|
            #![trigger y@[j]]
            0 <= j < y@.len() ==> has_entry_from(x@, y@[j])),
        (SteelVal::Closure(l), SteelVal::Closure(r)) => l == r,
        (SteelVal::ContractedFunction(l), SteelVal::ContractedFunction(r)) => l == r,
        (SteelVal::Contract(l), SteelVal::Contract(r)) => l == r,
        (SteelVal::IterV(l), SteelVal::IterV(r)) => l == r,
        (SteelVal::CustomStruct(l), SteelVal::CustomStruct(r)) => l == r,
        (SteelVal::FuncV(l), SteelVal::FuncV(r)) => l == r,
        _ => false,
    }
}

/// Some member of `ys` equals `v`.
pub open spec fn has_equal_in(v: SteelVal, ys: Seq<SteelVal>) -> bool
    decreases v, 1nat,
{
    exists|n: int| #![trigger ys[n]] 0 <= n < ys.len() && value_eq(v, ys[n])
}

/// Some element of `xs` equals `v`.
pub open spec fn has_equal_from(xs: Seq<SteelVal>, v: SteelVal) -> bool
    decreases xs, 1nat,
{
    exists|n: int| #![trigger xs[n]] 0 <= n < xs.len() && value_eq(xs[n], v)
}

/// Some entry of `ys` matches `e`, key and value.
pub open spec fn has_entry_in(e: (SteelVal, SteelVal), ys: Seq<(SteelVal, SteelVal)>) -> bool
    decreases e, 1nat,
{
    exists|n: int| #![trigger ys[n]] 0 <= n < ys.len() && value_eq(e.0, ys[n].0) && value_eq(e.1, ys[n].1)
}

/// Some entry of `xs` matches `e`, key and value.
pub open spec fn has_entry_from(xs: Seq<(SteelVal, SteelVal)>, e: (SteelVal, SteelVal)) -> bool
    decreases xs, 1nat,
{
    exists|n: int| #![trigger xs[n]] 0 <= n < xs.len() && value_eq(xs[n].0, e.0) && value_eq(xs[n].1, e.1)
}

} // verus!

verus! {

/// Element-by-element equality of the elements of `a` and `b`.
fn pointwise_equal(a: &SteelVal, x: &Vec<SteelVal>, y: &Vec<SteelVal>) -> (r: bool)
    requires
        x@ == elements(*a),
    ensures
        r == (x@.len() == y@.len() && forall|i: int| #![trigger x@[i]]
            0 <= i < x@.len() ==> value_eq(x@[i], y@[i])),
    decreases *a, 2nat,
{
    if x.len() != y.len() {
        return false;
    }
    let mut i: usize = 0;
    while i < x.len()
        invariant
            x@ == elements(*a),
            x@.len() == y@.len(),
            i <= x@.len(),
            forall|k: int| #![trigger x@[k]] 0 <= k < i ==> value_eq(x@[k], y@[k]),
        decreases x@.len() - i,
    {
        proof {
            lemma_element_decreases(*a, i as int);
        }
        if !values_equal(&x[i], &y[i]) {
            return false;
        }
        i += 1;
    }
    true
}

/// Every element of `a` equals some member of `y`.
fn covers(a: &SteelVal, x: &Vec<SteelVal>, y: &Vec<SteelVal>) -> (r: bool)
    requires
        x@ == elements(*a),
    ensures
        r == forall|i: int| #![trigger x@[i]] 0 <= i < x@.len() ==> has_equal_in(x@[i], y@),
    decreases *a, 2nat,
{
    let mut i: usize = 0;
    while i < x.len()
        invariant
            x@ == elements(*a),
            i <= x@.len(),
            forall|k: int| #![trigger x@[k]] 0 <= k < i ==> has_equal_in(x@[k], y@),
        decreases x@.len() - i,
    {
        proof {
            lemma_element_decreases(*a, i as int);
        }
        if !has_equal(&x[i], y) {
            return false;
        }
        i += 1;
    }
    true
}

/// Whether some member of `y` equals `v`.
fn has_equal(v: &SteelVal, y: &Vec<SteelVal>) -> (r: bool)
    ensures
        r == has_equal_in(*v, y@),
    decreases *v, 4nat,
{
    let mut j: usize = 0;
    while j < y.len()
        invariant
            j <= y@.len(),
            forall|m: int| #![trigger y@[m]] 0 <= m < j ==> !value_eq(*v, y@[m]),
        decreases y@.len() - j,
    {
        if values_equal(v, &y[j]) {
            return true;
        }
        j += 1;
    }
    false
}

/// Every member of `y` equals some element of `a`.
fn covered(a: &SteelVal, x: &Vec<SteelVal>, y: &Vec<SteelVal>) -> (r: bool)
    requires
        x@ == elements(*a),
    ensures
        r == forall|j: int| #![trigger y@[j]] 0 <= j < y@.len() ==> has_equal_from(x@, y@[j]),
    decreases *a, 2nat,
{
    let mut j: usize = 0;
    while j < y.len()
        invariant
            x@ == elements(*a),
            j <= y@.len(),
            forall|k: int| #![trigger y@[k]] 0 <= k < j ==> has_equal_from(x@, y@[k]),
        decreases y@.len() - j,
    {
        let mut i: usize = 0;
        let mut found = false;
        while i < x.len() && !found
            invariant
                x@ == elements(*a),
                j < y@.len(),
                i <= x@.len(),
                forall|k: int| #![trigger y@[k]] 0 <= k < j ==> has_equal_from(x@, y@[k]),
                found ==> has_equal_from(x@, y@[j as int]),
                !found ==> forall|m: int| #![trigger x@[m]] 0 <= m < i ==> !value_eq(x@[m], y@[j as int]),
            decreases x@.len() - i,
        {
            proof {
                lemma_element_decreases(*a, i as int);
            }
            if values_equal(&x[i], &y[j]) {
                found = true;
            }
            i += 1;
        }
        if !found {
            assert(!has_equal_from(x@, y@[j as int]));
            return false;
        }
        j += 1;
    }
    true
}

/// Every entry of `a` matches some entry of `y`, key and value.
fn covers_entries(a: &SteelVal, x: &Vec<(SteelVal, SteelVal)>, y: &Vec<(SteelVal, SteelVal)>) -> (r:
    bool)
    requires
        x@ == entries(*a),
    ensures
        r == forall|i: int| #![trigger x@[i]] 0 <= i < x@.len() ==> has_entry_in(x@[i], y@),
    decreases *a, 2nat,
{
    let mut i: usize = 0;
    while i < x.len()
        invariant
            x@ == entries(*a),
            i <= x@.len(),
            forall|k: int| #![trigger x@[k]] 0 <= k < i ==> has_entry_in(x@[k], y@),
        decreases x@.len() - i,
    {
        proof {
            lemma_entry_decreases(*a, i as int);
        }
        let mut j: usize = 0;
        let mut found = false;
        while j < y.len() && !found
            invariant
                x@ == entries(*a),
                i < x@.len(),
                j <= y@.len(),
                forall|k: int| #![trigger x@[k]] 0 <= k < i ==> has_entry_in(x@[k], y@),
                found ==> has_entry_in(x@[i as int], y@),
                !found ==> forall|m: int|
                    #![trigger y@[m]]
                    0 <= m < j ==> !(value_eq(x@[i as int].0, y@[m].0) && value_eq(
                        x@[i as int].1,
                        y@[m].1,
                    )),
                decreases_to!(*a => x@[i as int].0),
                decreases_to!(*a => x@[i as int].1),
            decreases y@.len() - j,
        {
            if values_equal(&x[i].0, &y[j].0) && values_equal(&x[i].1, &y[j].1) {
                found = true;
            }
            j += 1;
        }
        if !found {
            return false;
        }
        i += 1;
    }
    true
}

/// Every entry of `y` matches some entry of `a`, key and value.
fn covered_entries(a: &SteelVal, x: &Vec<(SteelVal, SteelVal)>, y: &Vec<(SteelVal, SteelVal)>) -> (r:
    bool)
    requires
        x@ == entries(*a),
    ensures
        r == forall|j: int| #![trigger y@[j]] 0 <= j < y@.len() ==> has_entry_from(x@, y@[j]),
    decreases *a, 2nat,
{
    let mut j: usize = 0;
    while j < y.len()
        invariant
            x@ == entries(*a),
            j <= y@.len(),
            forall|k: int| #![trigger y@[k]] 0 <= k < j ==> has_entry_from(x@, y@[k]),
        decreases y@.len() - j,
    {
        let mut i: usize = 0;
        let mut found = false;
        while i < x.len() && !found
            invariant
                x@ == entries(*a),
                j < y@.len(),
                i <= x@.len(),
                forall|k: int| #![trigger y@[k]] 0 <= k < j ==> has_entry_from(x@, y@[k]),
                found ==> has_entry_from(x@, y@[j as int]),
                !found ==> forall|m: int|
                    #![trigger x@[m]]
                    0 <= m < i ==> !(value_eq(x@[m].0, y@[j as int].0) && value_eq(
                        x@[m].1,
                        y@[j as int].1,
                    )),
            decreases x@.len() - i,
        {
            proof {
                lemma_entry_decreases(*a, i as int);
            }
            if values_equal(&x[i].0, &y[j].0) && values_equal(&x[i].1, &y[j].1) {
                found = true;
            }
            i += 1;
        }
        if !found {
            assert(!has_entry_from(x@, y@[j as int]));
            return false;
        }
        j += 1;
    }
    true
}

fn values_equal(a: &SteelVal, b: &SteelVal) -> (r: bool)
    ensures
        r == value_eq(*a, *b),
    decreases *a, 3nat,
{
    match (a, b) {
        (SteelVal::Void, SteelVal::Void) => true,
        (SteelVal::BoolV(l), SteelVal::BoolV(r)) => *l == *r,
        (SteelVal::NumV(l), SteelVal::NumV(r)) => match compare_floats(*l, *r) {
            Some(Ordering::Equal) => true,
            _ => false,
        },
        (SteelVal::BigNum(l), SteelVal::BigNum(r)) => bigint_eq(&**l, &**r),
        (SteelVal::IntV(l), SteelVal::IntV(r)) => *l == *r,
        (SteelVal::StringV(l), SteelVal::StringV(r)) => *l.0 == *r.0,
        (SteelVal::SymbolV(l), SteelVal::SymbolV(r)) => *l.0 == *r.0,
        (SteelVal::CharV(l), SteelVal::CharV(r)) => *l == *r,
        (SteelVal::VectorV(x), SteelVal::VectorV(y)) => pointwise_equal(a, &**x, &**y),
        (SteelVal::ListV(x), SteelVal::ListV(y)) => pointwise_equal(a, &**x, &**y),
        (SteelVal::HashSetV(x), SteelVal::HashSetV(y)) => covers(a, &**x, &**y) && covered(
            a,
            &**x,
            &**y,
        ),
        (SteelVal::HashMapV(x), SteelVal::HashMapV(y)) => covers_entries(a, &**x, &**y)
            && covered_entries(a, &**x, &**y),
        (SteelVal::Closure(l), SteelVal::Closure(r)) => **l == **r,
        (SteelVal::ContractedFunction(l), SteelVal::ContractedFunction(r)) => *l == *r,
        (SteelVal::Contract(l), SteelVal::Contract(r)) => *l == *r,
        (SteelVal::IterV(l), SteelVal::IterV(r)) => *l == *r,
        (SteelVal::CustomStruct(l), SteelVal::CustomStruct(r)) => *l == *r,
        (SteelVal::FuncV(l), SteelVal::FuncV(r)) => *l == *r,
        _ => false,
    }
}

} // verus!

verus! {

impl PartialEq for SteelVal {
    fn eq(&self, other: &SteelVal) -> (r: bool)
        ensures
            r == value_eq(*self, *other),
    {
        values_equal(self, other)
    }
}

impl vstd::std_specs::cmp::PartialEqSpecImpl for SteelVal {
    open spec fn obeys_eq_spec() -> bool {
        true
    }

    open spec fn eq_spec(&self, other: &SteelVal) -> bool {
        value_eq(*self, *other)
    }
}

} // verus!

verus! {

/// Equality is symmetric over every pair of values, of one variant or of
/// two.
pub proof fn eq_symmetric(a: SteelVal, b: SteelVal)
    ensures
        value_eq(a, b) == value_eq(b, a),
    decreases a,
{
    match (a, b) {
        (SteelVal::VectorV(x), SteelVal::VectorV(y)) | (SteelVal::ListV(x), SteelVal::ListV(y)) => {
            assert forall|i: int| 0 <= i < x@.len() && i < y@.len() implies value_eq(x@[i], y@[i])
                == value_eq(y@[i], x@[i]) by {
                lemma_element_decreases(a, i);
                eq_symmetric(x@[i], y@[i]);
            }
        },
        (SteelVal::HashSetV(x), SteelVal::HashSetV(y)) => {
            assert forall|i: int, j: int| 0 <= i < x@.len() && 0 <= j < y@.len() implies value_eq(
                x@[i],
                y@[j],
            ) == value_eq(y@[j], x@[i]) by {
                lemma_element_decreases(a, i);
                eq_symmetric(x@[i], y@[j]);
            }
            assert forall|i: int| #![trigger x@[i]] 0 <= i < x@.len() implies has_equal_in(x@[i], y@)
                == has_equal_from(y@, x@[i]) by {
                if has_equal_in(x@[i], y@) {
                    let n = choose|n: int| 0 <= n < y@.len() && value_eq(x@[i], y@[n]);
                    assert(value_eq(y@[n], x@[i]));
                }
                if has_equal_from(y@, x@[i]) {
                    let n = choose|n: int| 0 <= n < y@.len() && value_eq(y@[n], x@[i]);
                    assert(value_eq(x@[i], y@[n]));
                }
            }
            assert forall|j: int| #![trigger y@[j]] 0 <= j < y@.len() implies has_equal_from(x@, y@[j])
                == has_equal_in(y@[j], x@) by {
                if has_equal_from(x@, y@[j]) {
                    let n = choose|n: int| 0 <= n < x@.len() && value_eq(x@[n], y@[j]);
                    assert(value_eq(y@[j], x@[n]));
                }
                if has_equal_in(y@[j], x@) {
                    let n = choose|n: int| 0 <= n < x@.len() && value_eq(y@[j], x@[n]);
                    assert(value_eq(x@[n], y@[j]));
                }
            }
            assert(value_eq(a, b) == value_eq(b, a));
        },
        (SteelVal::HashMapV(x), SteelVal::HashMapV(y)) => {
            assert forall|i: int, j: int| 0 <= i < x@.len() && 0 <= j < y@.len() implies (value_eq(
                x@[i].0,
                y@[j].0,
            ) == value_eq(y@[j].0, x@[i].0)) && (value_eq(x@[i].1, y@[j].1) == value_eq(
                y@[j].1,
                x@[i].1,
            )) by {
                lemma_entry_decreases(a, i);
                eq_symmetric(x@[i].0, y@[j].0);
                eq_symmetric(x@[i].1, y@[j].1);
            }
            assert forall|i: int| #![trigger x@[i]] 0 <= i < x@.len() implies has_entry_in(x@[i], y@)
                == has_entry_from(y@, x@[i]) by {
                if has_entry_in(x@[i], y@) {
                    let n = choose|n: int|
                        0 <= n < y@.len() && value_eq(x@[i].0, y@[n].0) && value_eq(x@[i].1, y@[n].1);
                    assert(value_eq(y@[n].0, x@[i].0) && value_eq(y@[n].1, x@[i].1));
                }
                if has_entry_from(y@, x@[i]) {
                    let n = choose|n: int|
                        0 <= n < y@.len() && value_eq(y@[n].0, x@[i].0) && value_eq(y@[n].1, x@[i].1);
                    assert(value_eq(x@[i].0, y@[n].0) && value_eq(x@[i].1, y@[n].1));
                }
            }
            assert forall|j: int| #![trigger y@[j]] 0 <= j < y@.len() implies has_entry_from(x@, y@[j])
                == has_entry_in(y@[j], x@) by {
                if has_entry_from(x@, y@[j]) {
                    let n = choose|n: int|
                        0 <= n < x@.len() && value_eq(x@[n].0, y@[j].0) && value_eq(x@[n].1, y@[j].1);
                    assert(value_eq(y@[j].0, x@[n].0) && value_eq(y@[j].1, x@[n].1));
                }
                if has_entry_in(y@[j], x@) {
                    let n = choose|n: int|
                        0 <= n < x@.len() && value_eq(y@[j].0, x@[n].0) && value_eq(y@[j].1, x@[n].1);
                    assert(value_eq(x@[n].0, y@[j].0) && value_eq(x@[n].1, y@[j].1));
                }
            }
            assert(value_eq(a, b) == value_eq(b, a));
        },
        _ => {},
    }
}

/// The values that equal themselves: every variant that equality compares
/// at all, with elements, keys and values that equal themselves. A NaN
/// equals nothing, not even itself.
pub open spec fn self_comparable(v: SteelVal) -> bool
    decreases v,
{
    match v {
        SteelVal::Void | SteelVal::BoolV(_) | SteelVal::BigNum(_) | SteelVal::IntV(_)
        | SteelVal::StringV(_) | SteelVal::SymbolV(_) | SteelVal::CharV(_) | SteelVal::Closure(_)
        | SteelVal::ContractedFunction(_) | SteelVal::Contract(_) | SteelVal::IterV(_)
        | SteelVal::CustomStruct(_) | SteelVal::FuncV(_) => true,
        SteelVal::NumV(n) => !float_is_nan(n),
        SteelVal::VectorV(x) => forall|i: int| #![trigger x@[i]] 0 <= i < x@.len() ==> self_comparable(x@[i]),
        SteelVal::ListV(x) => forall|i: int| #![trigger x@[i]] 0 <= i < x@.len() ==> self_comparable(x@[i]),
        SteelVal::HashSetV(x) => forall|i: int| #![trigger x@[i]] 0 <= i < x@.len() ==> self_comparable(x@[i]),
        SteelVal::HashMapV(x) => forall|i: int|
            #![trigger x@[i]]
            0 <= i < x@.len() ==> self_comparable(x@[i].0) && self_comparable(x@[i].1),
        _ => false,
    }
}

/// Equality is reflexive on every value that equality compares.
pub proof fn eq_reflexive(v: SteelVal)
    requires
        self_comparable(v),
    ensures
        value_eq(v, v),
    decreases v,
{
    match v {
        SteelVal::VectorV(x) | SteelVal::ListV(x) | SteelVal::HashSetV(x) => {
            assert forall|i: int| 0 <= i < x@.len() implies value_eq(x@[i], x@[i]) by {
                lemma_element_decreases(v, i);
                eq_reflexive(x@[i]);
            }
            assert forall|i: int| #![trigger x@[i]] 0 <= i < x@.len() implies has_equal_in(x@[i], x@) by {
                assert(value_eq(x@[i], x@[i]));
            }
            assert forall|j: int| #![trigger x@[j]] 0 <= j < x@.len() implies has_equal_from(x@, x@[j]) by {
                assert(value_eq(x@[j], x@[j]));
            }
        },
        SteelVal::HashMapV(x) => {
            assert forall|i: int| 0 <= i < x@.len() implies value_eq(x@[i].0, x@[i].0) && value_eq(
                x@[i].1,
                x@[i].1,
            ) by {
                lemma_entry_decreases(v, i);
                eq_reflexive(x@[i].0);
                eq_reflexive(x@[i].1);
            }
            assert forall|i: int| #![trigger x@[i]] 0 <= i < x@.len() implies has_entry_in(x@[i], x@) by {
                assert(value_eq(x@[i].0, x@[i].0) && value_eq(x@[i].1, x@[i].1));
            }
            assert forall|j: int| #![trigger x@[j]] 0 <= j < x@.len() implies has_entry_from(x@, x@[j]) by {
                assert(value_eq(x@[j].0, x@[j].0) && value_eq(x@[j].1, x@[j].1));
            }
        },
        SteelVal::BigNum(_) => {},
        _ => {},
    }
}

} // verus!
