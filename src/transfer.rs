use crate::equality::{has_entry_from, has_entry_in, value_eq};
use crate::error::{ErrorKind, SteelErr};
use crate::foreign::ForeignObject;
use crate::value::{
    lemma_element_decreases, lemma_entry_decreases, variant_name, Handle, LambdaRef, SteelString,
    SteelVal,
};
use std::rc::Rc;
use vstd::prelude::*;
use vstd::string::*;

verus! {

broadcast use vstd::std_specs::vec::group_vec_axioms, vstd::seq::group_seq_axioms;

/// The thread-safe counterpart of a value: only the variants whose payload
/// may be duplicated or moved across a thread boundary.
pub enum SerializableSteelVal {
    Closure(LambdaRef),
    BoolV(bool),
    NumV(u64),
    IntV(isize),
    CharV(char),
    Void,
    StringV(String),
    FuncV(Handle),
    HashMapV(Vec<(SerializableSteelVal, SerializableSteelVal)>),
    VectorV(Vec<SerializableSteelVal>),
    BoxedDynFunction(Handle),
    BuiltIn(Handle),
    SymbolV(String),
    Custom(Box<ForeignObject>),
}

/// Whether a value may cross a thread boundary: scalars, strings, symbols,
/// closures and native functions may; lists and maps may when every element,
/// key and value may; a foreign object may when it says so; nothing else may.
pub open spec fn transferable(v: SteelVal) -> bool
    decreases v,
{
    match v {
        SteelVal::Closure(_) | SteelVal::BoolV(_) | SteelVal::NumV(_) | SteelVal::IntV(_)
        | SteelVal::CharV(_) | SteelVal::Void | SteelVal::StringV(_) | SteelVal::FuncV(_)
        | SteelVal::BoxedFunction(_) | SteelVal::BuiltIn(_) | SteelVal::SymbolV(_) => true,
        SteelVal::ListV(l) => forall|i: int| 0 <= i < l@.len() ==> transferable(#[trigger] l@[i]),
        SteelVal::HashMapV(m) => forall|i: int|
            0 <= i < m@.len() ==> transferable((#[trigger] m@[i]).0) && transferable(m@[i].1),
        SteelVal::Custom(f) => f.transferable,
        _ => false,
    }
}

/// `s` is the thread-safe form of `v`: the same variant with the same
/// payload, element by element.
pub open spec fn corresponds(v: SteelVal, s: SerializableSteelVal) -> bool
    decreases v,
{
    match v {
        SteelVal::Closure(c) => s == SerializableSteelVal::Closure(*c),
        SteelVal::BoolV(b) => s == SerializableSteelVal::BoolV(b),
        SteelVal::NumV(n) => s == SerializableSteelVal::NumV(n),
        SteelVal::IntV(i) => s == SerializableSteelVal::IntV(i),
        SteelVal::CharV(c) => s == SerializableSteelVal::CharV(c),
        SteelVal::Void => s == SerializableSteelVal::Void,
        SteelVal::StringV(t) => s == SerializableSteelVal::StringV(*t.0),
        SteelVal::FuncV(f) => s == SerializableSteelVal::FuncV(f),
        SteelVal::BoxedFunction(f) => s == SerializableSteelVal::BoxedDynFunction(f),
        SteelVal::BuiltIn(f) => s == SerializableSteelVal::BuiltIn(f),
        SteelVal::SymbolV(t) => s == SerializableSteelVal::SymbolV(*t.0),
        SteelVal::Custom(f) => s == SerializableSteelVal::Custom(Box::new(*f)),
        SteelVal::ListV(l) => match s {
            SerializableSteelVal::VectorV(w) => l@.len() == w@.len() && forall|i: int|
                0 <= i < l@.len() ==> corresponds(#[trigger] l@[i], w@[i]),
            _ => false,
        },
        SteelVal::HashMapV(m) => match s {
            SerializableSteelVal::HashMapV(w) => m@.len() == w@.len() && forall|i: int|
                0 <= i < m@.len() ==> corresponds((#[trigger] m@[i]).0, w@[i].0) && corresponds(
                    m@[i].1,
                    w@[i].1,
                ),
            _ => false,
        },
        _ => false,
    }
}

/// The message of the error that stops `v` from crossing threads: for a
/// list, that of its first element that may not cross; for a map, that of
/// its first entry whose key, else whose value, may not cross; for any other
/// value, the message naming its variant.
pub open spec fn failure_message(v: SteelVal) -> Seq<char>
    decreases v, 0int,
{
    match v {
        SteelVal::ListV(l) => elements_failure(l@, 0),
        SteelVal::HashMapV(m) => entries_failure(m@, 0),
        _ => not_movable_message(v),
    }
}

/// The failure of the first element from index `i` on that may not cross.
pub open spec fn elements_failure(s: Seq<SteelVal>, i: int) -> Seq<char>
    decreases s, s.len() - i + 1,
{
    if 0 <= i < s.len() {
        if transferable(s[i]) {
            elements_failure(s, i + 1)
        } else {
            failure_message(s[i])
        }
    } else {
        Seq::empty()
    }
}

/// The failure of the first entry from index `i` on that may not cross.
pub open spec fn entries_failure(s: Seq<(SteelVal, SteelVal)>, i: int) -> Seq<char>
    decreases s, s.len() - i + 1,
{
    if 0 <= i < s.len() {
        if !transferable(s[i].0) {
            failure_message(s[i].0)
        } else if !transferable(s[i].1) {
            failure_message(s[i].1)
        } else {
            entries_failure(s, i + 1)
        }
    } else {
        Seq::empty()
    }
}

proof fn lemma_first_element_failure(s: Seq<SteelVal>, i: int, j: int)
    requires
        0 <= j <= i < s.len(),
        !transferable(s[i]),
        forall|k: int| #![trigger s[k]] 0 <= k < i ==> transferable(s[k]),
    ensures
        elements_failure(s, j) == failure_message(s[i]),
    decreases i - j,
{
    if j < i {
        lemma_first_element_failure(s, i, j + 1);
    }
}

proof fn lemma_first_entry_failure(s: Seq<(SteelVal, SteelVal)>, i: int, j: int)
    requires
        0 <= j <= i < s.len(),
        !transferable(s[i].0) || !transferable(s[i].1),
        forall|k: int| #![trigger s[k]] 0 <= k < i ==> transferable(s[k].0) && transferable(s[k].1),
    ensures
        entries_failure(s, j) == if !transferable(s[i].0) {
            failure_message(s[i].0)
        } else {
            failure_message(s[i].1)
        },
    decreases i - j,
{
    if j < i {
        lemma_first_entry_failure(s, i, j + 1);
    }
}

/// The message for a value of a variant that may not cross threads.
pub open spec fn not_movable_message(v: SteelVal) -> Seq<char> {
    match v {
        SteelVal::Custom(_) => "Custom type not allowed to be moved across threads!"@,
        _ => "Type not allowed to be moved across threads!: "@ + variant_name(v),
    }
}

fn not_movable(v: &SteelVal) -> (e: SteelErr)
    ensures
        e.kind == ErrorKind::Generic,
        e.message@ == not_movable_message(*v),
{
    match v {
        SteelVal::Custom(_) => SteelErr::from_str(
            ErrorKind::Generic,
            "Custom type not allowed to be moved across threads!",
        ),
        _ => {
            let mut m = String::from_str("Type not allowed to be moved across threads!: ");
            m.append(v.variant_name());
            SteelErr::new(ErrorKind::Generic, m)
        },
    }
}

fn transfer_ref(v: &SteelVal) -> (r: Result<SerializableSteelVal, SteelErr>)
    ensures
        r is Ok <==> transferable(*v),
        r matches Ok(s) ==> corresponds(*v, s),
        r matches Err(e) ==> e.kind == ErrorKind::Generic,
        r matches Err(e) ==> e.message@ == failure_message(*v),
    decreases v,
{
    match v {
        SteelVal::Closure(c) => Ok(SerializableSteelVal::Closure(**c)),
        SteelVal::BoolV(b) => Ok(SerializableSteelVal::BoolV(*b)),
        SteelVal::NumV(n) => Ok(SerializableSteelVal::NumV(*n)),
        SteelVal::IntV(i) => Ok(SerializableSteelVal::IntV(*i)),
        SteelVal::CharV(c) => Ok(SerializableSteelVal::CharV(*c)),
        SteelVal::Void => Ok(SerializableSteelVal::Void),
        SteelVal::StringV(s) => Ok(SerializableSteelVal::StringV((*s.0).clone())),
        SteelVal::FuncV(f) => Ok(SerializableSteelVal::FuncV(*f)),
        SteelVal::BoxedFunction(f) => Ok(SerializableSteelVal::BoxedDynFunction(*f)),
        SteelVal::BuiltIn(f) => Ok(SerializableSteelVal::BuiltIn(*f)),
        SteelVal::SymbolV(s) => Ok(SerializableSteelVal::SymbolV((*s.0).clone())),
        SteelVal::ListV(l) => {
            let mut out: Vec<SerializableSteelVal> = Vec::new();
            let mut i: usize = 0;
            while i < l.len()
                invariant
                    *v == SteelVal::ListV(*l),
                    i <= l@.len(),
                    out@.len() == i,
                    forall|j: int| 0 <= j < i ==> transferable(#[trigger] l@[j]),
                    forall|j: int| 0 <= j < i ==> corresponds(#[trigger] l@[j], out@[j]),
                decreases l@.len() - i,
            {
                proof {
                    lemma_element_decreases(*v, i as int);
                }
                match transfer_ref(&l[i]) {
                    Ok(s) => out.push(s),
                    Err(e) => {
                        assert(!transferable(l@[i as int]));
                        proof {
                            lemma_first_element_failure(l@, i as int, 0);
                        }
                        return Err(e);
                    },
                }
                i += 1;
            }
            Ok(SerializableSteelVal::VectorV(out))
        },
        SteelVal::HashMapV(m) => {
            let mut out: Vec<(SerializableSteelVal, SerializableSteelVal)> = Vec::new();
            let mut i: usize = 0;
            while i < m.len()
                invariant
                    *v == SteelVal::HashMapV(*m),
                    i <= m@.len(),
                    out@.len() == i,
                    forall|j: int|
                        0 <= j < i ==> transferable((#[trigger] m@[j]).0) && transferable(m@[j].1),
                    forall|j: int|
                        0 <= j < i ==> corresponds((#[trigger] m@[j]).0, out@[j].0) && corresponds(
                            m@[j].1,
                            out@[j].1,
                        ),
                decreases m@.len() - i,
            {
                proof {
                    lemma_entry_decreases(*v, i as int);
                }
                let k = match transfer_ref(&m[i].0) {
                    Ok(s) => s,
                    Err(e) => {
                        assert(!transferable(m@[i as int].0));
                        proof {
                            lemma_first_entry_failure(m@, i as int, 0);
                        }
                        return Err(e);
                    },
                };
                let w = match transfer_ref(&m[i].1) {
                    Ok(s) => s,
                    Err(e) => {
                        assert(!transferable(m@[i as int].1));
                        proof {
                            lemma_first_entry_failure(m@, i as int, 0);
                        }
                        return Err(e);
                    },
                };
                out.push((k, w));
                i += 1;
            }
            Ok(SerializableSteelVal::HashMapV(out))
        },
        SteelVal::Custom(f) => {
            if f.transferable {
                Ok(SerializableSteelVal::Custom(Box::new(f.duplicate())))
            } else {
                Err(not_movable(v))
            }
        },
        _ => Err(not_movable(v)),
    }
}

/// The thread-safe form of a value, or, for a value that holds anything
/// that may not cross threads, a `Generic` error. Aggregates are converted
/// element by element and the first failure is returned.
pub fn into_serializable_value(val: SteelVal) -> (r: Result<SerializableSteelVal, SteelErr>)
    ensures
        r is Ok <==> transferable(val),
        r matches Ok(s) ==> corresponds(val, s),
        r matches Err(e) ==> e.kind == ErrorKind::Generic,
        r matches Err(e) ==> e.message@ == failure_message(val),
        r matches Err(e) ==> !(val is ListV || val is HashMapV) ==> e.message@
            == not_movable_message(val),
{
    transfer_ref(&val)
}

} // verus!

verus! {

proof fn lemma_vector_element_decreases(s: SerializableSteelVal, i: int)
    requires
        s matches SerializableSteelVal::VectorV(w) && 0 <= i < w@.len(),
    ensures
        s matches SerializableSteelVal::VectorV(w) && decreases_to!(s => w@[i]),
{
    let w = s->VectorV_0;
    assert(decreases_to!(w => w@));
    assert(decreases_to!(w@ => w@[i]));
}

proof fn lemma_pair_decreases(s: SerializableSteelVal, i: int)
    requires
        s matches SerializableSteelVal::HashMapV(w) && 0 <= i < w@.len(),
    ensures
        s matches SerializableSteelVal::HashMapV(w) && decreases_to!(s => w@[i].0)
            && decreases_to!(s => w@[i].1),
{
    let w = s->HashMapV_0;
    assert(decreases_to!(w => w@));
    assert(decreases_to!(w@ => w@[i]));
}

fn restore_ref(s: &SerializableSteelVal) -> (r: SteelVal)
    ensures
        corresponds(r, *s),
    decreases s,
{
    match s {
        SerializableSteelVal::Closure(c) => SteelVal::Closure(Rc::new(*c)),
        SerializableSteelVal::BoolV(b) => SteelVal::BoolV(*b),
        SerializableSteelVal::NumV(n) => SteelVal::NumV(*n),
        SerializableSteelVal::IntV(i) => SteelVal::IntV(*i),
        SerializableSteelVal::CharV(c) => SteelVal::CharV(*c),
        SerializableSteelVal::Void => SteelVal::Void,
        SerializableSteelVal::StringV(t) => SteelVal::StringV(SteelString(Rc::new(t.clone()))),
        SerializableSteelVal::FuncV(f) => SteelVal::FuncV(*f),
        SerializableSteelVal::BoxedDynFunction(f) => SteelVal::BoxedFunction(*f),
        SerializableSteelVal::BuiltIn(f) => SteelVal::BuiltIn(*f),
        SerializableSteelVal::SymbolV(t) => SteelVal::SymbolV(SteelString(Rc::new(t.clone()))),
        SerializableSteelVal::Custom(f) => SteelVal::Custom(Rc::new(f.duplicate())),
        SerializableSteelVal::VectorV(w) => {
            let mut out: Vec<SteelVal> = Vec::new();
            let mut i: usize = 0;
            while i < w.len()
                invariant
                    *s == SerializableSteelVal::VectorV(*w),
                    i <= w@.len(),
                    out@.len() == i,
                    forall|j: int| 0 <= j < i ==> corresponds(#[trigger] out@[j], w@[j]),
                decreases w@.len() - i,
            {
                proof {
                    lemma_vector_element_decreases(*s, i as int);
                }
                let x = restore_ref(&w[i]);
                out.push(x);
                i += 1;
            }
            SteelVal::ListV(Rc::new(out))
        },
        SerializableSteelVal::HashMapV(w) => {
            let mut out: Vec<(SteelVal, SteelVal)> = Vec::new();
            let mut i: usize = 0;
            while i < w.len()
                invariant
                    *s == SerializableSteelVal::HashMapV(*w),
                    i <= w@.len(),
                    out@.len() == i,
                    forall|j: int|
                        0 <= j < i ==> corresponds((#[trigger] out@[j]).0, w@[j].0) && corresponds(
                            out@[j].1,
                            w@[j].1,
                        ),
                decreases w@.len() - i,
            {
                proof {
                    lemma_pair_decreases(*s, i as int);
                }
                let k = restore_ref(&w[i].0);
                let x = restore_ref(&w[i].1);
                out.push((k, x));
                i += 1;
            }
            SteelVal::HashMapV(Rc::new(out))
        },
    }
}

/// The live value that a thread-safe form stands for. This never fails.
pub fn from_serializable_value(val: SerializableSteelVal) -> (r: SteelVal)
    ensures
        corresponds(r, val),
{
    restore_ref(&val)
}

/// Two values with the same variants and payloads all the way down; lists
/// and maps are compared element by element.
pub open spec fn same_value(a: SteelVal, b: SteelVal) -> bool
    decreases a,
{
    match (a, b) {
        (SteelVal::ListV(x), SteelVal::ListV(y)) => x@.len() == y@.len() && forall|i: int|
            0 <= i < x@.len() ==> same_value(#[trigger] x@[i], y@[i]),
        (SteelVal::HashMapV(x), SteelVal::HashMapV(y)) => x@.len() == y@.len() && forall|i: int|
            0 <= i < x@.len() ==> same_value((#[trigger] x@[i]).0, y@[i].0) && same_value(
                x@[i].1,
                y@[i].1,
            ),
        _ => a == b,
    }
}

/// Round trip: the value that comes back from the thread-safe form of `v`
/// is `v` again.
pub proof fn transfer_round_trip(v: SteelVal, s: SerializableSteelVal, w: SteelVal)
    requires
        corresponds(v, s),
        corresponds(w, s),
    ensures
        same_value(v, w),
    decreases v,
{
    match (v, s, w) {
        (SteelVal::ListV(x), SerializableSteelVal::VectorV(z), SteelVal::ListV(y)) => {
            assert forall|i: int| 0 <= i < x@.len() implies same_value(#[trigger] x@[i], y@[i]) by {
                lemma_element_decreases(v, i);
                transfer_round_trip(x@[i], z@[i], y@[i]);
            }
        },
        (SteelVal::HashMapV(x), SerializableSteelVal::HashMapV(z), SteelVal::HashMapV(y)) => {
            assert forall|i: int| 0 <= i < x@.len() implies same_value((#[trigger] x@[i]).0, y@[i].0)
                && same_value(x@[i].1, y@[i].1) by {
                lemma_entry_decreases(v, i);
                transfer_round_trip(x@[i].0, z@[i].0, y@[i].0);
                transfer_round_trip(x@[i].1, z@[i].1, y@[i].1);
            }
        },
        _ => {},
    }
}

} // verus!

verus! {

/// Equality sees two values that are the same all the way down alike.
pub proof fn lemma_same_value_eq(a: SteelVal, a2: SteelVal, b: SteelVal, b2: SteelVal)
    requires
        same_value(a, a2),
        same_value(b, b2),
    ensures
        value_eq(a, b) == value_eq(a2, b2),
    decreases a,
{
    match (a, a2, b, b2) {
        (SteelVal::ListV(x), SteelVal::ListV(x2), SteelVal::ListV(y), SteelVal::ListV(y2)) => {
            assert forall|i: int| 0 <= i < x@.len() && i < y@.len() implies value_eq(x@[i], y@[i])
                == value_eq(x2@[i], y2@[i]) by {
                lemma_element_decreases(a, i);
                lemma_same_value_eq(x@[i], x2@[i], y@[i], y2@[i]);
            }
            if value_eq(a, b) {
                assert forall|i: int| #![trigger x2@[i]] 0 <= i < x2@.len() implies value_eq(x2@[i], y2@[i]) by {
                    assert(value_eq(x@[i], y@[i]));
                }
            }
            if value_eq(a2, b2) {
                assert forall|i: int| #![trigger x@[i]] 0 <= i < x@.len() implies value_eq(x@[i], y@[i]) by {
                    assert(value_eq(x2@[i], y2@[i]));
                }
            }
        },
        (SteelVal::HashMapV(x), SteelVal::HashMapV(x2), SteelVal::HashMapV(y), SteelVal::HashMapV(y2)) => {
            assert forall|i: int, j: int| 0 <= i < x@.len() && 0 <= j < y@.len() implies (value_eq(
                x@[i].0,
                y@[j].0,
            ) == value_eq(x2@[i].0, y2@[j].0)) && (value_eq(x@[i].1, y@[j].1) == value_eq(
                x2@[i].1,
                y2@[j].1,
            )) by {
                lemma_entry_decreases(a, i);
                lemma_same_value_eq(x@[i].0, x2@[i].0, y@[j].0, y2@[j].0);
                lemma_same_value_eq(x@[i].1, x2@[i].1, y@[j].1, y2@[j].1);
            }
            assert forall|i: int| #![trigger x@[i]] 0 <= i < x@.len() implies has_entry_in(x@[i], y@)
                == has_entry_in(x2@[i], y2@) by {
                if has_entry_in(x@[i], y@) {
                    let n = choose|n: int|
                        0 <= n < y@.len() && value_eq(x@[i].0, y@[n].0) && value_eq(x@[i].1, y@[n].1);
                    assert(value_eq(x2@[i].0, y2@[n].0) && value_eq(x2@[i].1, y2@[n].1));
                }
                if has_entry_in(x2@[i], y2@) {
                    let n = choose|n: int|
                        0 <= n < y2@.len() && value_eq(x2@[i].0, y2@[n].0) && value_eq(x2@[i].1, y2@[n].1);
                    assert(value_eq(x@[i].0, y@[n].0) && value_eq(x@[i].1, y@[n].1));
                }
            }
            assert forall|j: int| #![trigger y@[j]] 0 <= j < y@.len() implies has_entry_from(x@, y@[j])
                == has_entry_from(x2@, y2@[j]) by {
                if has_entry_from(x@, y@[j]) {
                    let n = choose|n: int|
                        0 <= n < x@.len() && value_eq(x@[n].0, y@[j].0) && value_eq(x@[n].1, y@[j].1);
                    assert(value_eq(x2@[n].0, y2@[j].0) && value_eq(x2@[n].1, y2@[j].1));
                }
                if has_entry_from(x2@, y2@[j]) {
                    let n = choose|n: int|
                        0 <= n < x2@.len() && value_eq(x2@[n].0, y2@[j].0) && value_eq(x2@[n].1, y2@[j].1);
                    assert(value_eq(x@[n].0, y@[j].0) && value_eq(x@[n].1, y@[j].1));
                }
            }
            if value_eq(a, b) {
                assert forall|i: int| #![trigger x2@[i]] 0 <= i < x2@.len() implies has_entry_in(x2@[i], y2@) by {
                    assert(has_entry_in(x@[i], y@));
                }
                assert forall|j: int| #![trigger y2@[j]] 0 <= j < y2@.len() implies has_entry_from(x2@, y2@[j]) by {
                    assert(has_entry_from(x@, y@[j]));
                }
            }
            if value_eq(a2, b2) {
                assert forall|i: int| #![trigger x@[i]] 0 <= i < x@.len() implies has_entry_in(x@[i], y@) by {
                    assert(has_entry_in(x2@[i], y2@));
                }
                assert forall|j: int| #![trigger y@[j]] 0 <= j < y@.len() implies has_entry_from(x@, y@[j]) by {
                    assert(has_entry_from(x2@, y2@[j]));
                }
            }
        },
        _ => {},
    }
}

/// A map whose keys, or a set whose members, are pairwise unequal; every
/// other value trivially.
pub open spec fn distinct_keys(v: SteelVal) -> bool {
    match v {
        SteelVal::HashMapV(m) => forall|i: int, j: int|
            0 <= i < j < m@.len() ==> !value_eq(#[trigger] m@[i].0, #[trigger] m@[j].0),
        SteelVal::HashSetV(s) => forall|i: int, j: int|
            0 <= i < j < s@.len() ==> !value_eq(#[trigger] s@[i], #[trigger] s@[j]),
        _ => true,
    }
}

/// A map that crosses threads and comes back still has distinct keys.
pub proof fn transfer_keeps_distinct_keys(v: SteelVal, s: SerializableSteelVal, w: SteelVal)
    requires
        corresponds(v, s),
        corresponds(w, s),
        distinct_keys(v),
    ensures
        distinct_keys(w),
{
    transfer_round_trip(v, s, w);
    if let (SteelVal::HashMapV(x), SteelVal::HashMapV(y)) = (v, w) {
        assert forall|i: int, j: int| 0 <= i < j < y@.len() implies !value_eq(
            #[trigger] y@[i].0,
            #[trigger] y@[j].0,
        ) by {
            lemma_same_value_eq(x@[i].0, y@[i].0, x@[j].0, y@[j].0);
            assert(!value_eq(x@[i].0, x@[j].0));
        }
    }
}

} // verus!
