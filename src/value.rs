use crate::foreign::ForeignObject;
use crate::iter::{BuiltInDataStructureIterator, CursorFrom};
use crate::syntax::Syntax;
use std::rc::Rc;
use vstd::cell::invcell::InvCell;
use vstd::predicate::Predicate;
use vstd::prelude::*;
use vstd::std_specs::iter::IteratorSpec;

verus! {

/// An interned, shared, immutable string.
#[derive(Clone, Debug, PartialEq, Eq, PartialOrd, Ord, Hash)]
pub struct SteelString(pub Rc<String>);

impl View for SteelString {
    type V = Seq<char>;

    open spec fn view(&self) -> Seq<char> {
        (*self.0)@
    }
}

impl SteelString {
    /// A second handle on the same shared text.
    pub fn share(&self) -> (r: SteelString)
        ensures
            r == *self,
    {
        SteelString(Rc::clone(&self.0))
    }

    pub fn as_str(&self) -> (r: &str)
        ensures
            r@ == self@,
    {
        self.0.as_str()
    }
}

/// The identity of a shared object owned by a subsystem outside this
/// library (a compiled closure, a port, a continuation, a contract, ...):
/// two handles with the same address name the same allocation.
#[derive(Clone, Copy, Debug, PartialEq, Eq, Structural, Hash)]
pub struct Handle {
    pub addr: u64,
}

/// A compiled closure: the identity of its shared object and the number of
/// arguments it takes.
#[derive(Clone, Copy, Debug, PartialEq, Eq, Structural, Hash)]
pub struct LambdaRef {
    pub addr: u64,
    pub arity: usize,
}

/// A cell predicate that admits every value.
pub struct AnyValue;

impl<T> Predicate<T> for AnyValue {
    open spec fn predicate(&self, v: T) -> bool {
        true
    }
}

/// A shared-mutable cell: clones of the `Rc` observe each other's writes.
pub type SharedCell<T> = Rc<InvCell<T, AnyValue>>;

/// A value as represented in the runtime.
#[derive(Clone)]
pub enum SteelVal {
    /// A bytecode closure.
    Closure(Rc<LambdaRef>),
    BoolV(bool),
    /// A floating-point number, held as its IEEE-754 binary64 bit pattern.
    NumV(u64),
    IntV(isize),
    CharV(char),
    /// An immutable vector.
    VectorV(Rc<Vec<SteelVal>>),
    Void,
    StringV(SteelString),
    /// A native function taking an immutable slice of arguments.
    FuncV(Handle),
    SymbolV(SteelString),
    /// A foreign object embedded by host code.
    Custom(Rc<ForeignObject>),
    /// An immutable map, as its entries.
    HashMapV(Rc<Vec<(SteelVal, SteelVal)>>),
    /// An immutable set, as its members.
    HashSetV(Rc<Vec<SteelVal>>),
    /// A user-defined struct.
    CustomStruct(Handle),
    PortV(Handle),
    /// A transducer.
    IterV(Handle),
    ReducerV(Handle),
    /// An asynchronous native function.
    FutureFunc(Handle),
    /// A deferred result.
    FutureV(Handle),
    StreamV(Handle),
    Contract(Handle),
    ContractedFunction(Handle),
    /// A boxed dynamic host closure.
    BoxedFunction(Handle),
    ContinuationFunction(Handle),
    /// An immutable list.
    ListV(Rc<Vec<SteelVal>>),
    /// A native function taking a mutable slice of arguments.
    MutFunc(Handle),
    BuiltIn(Handle),
    MutableVector(SharedCell<Vec<SteelVal>>),
    /// A shared cursor over a built-in container.
    BoxedIterator(Rc<InvCell<BuiltInDataStructureIterator, CursorFrom>>),
    SyntaxObject(Rc<Syntax>),
    /// A mutable box.
    Boxed(SharedCell<SteelVal>),
    /// A reference to host-side state.
    Reference(Handle),
    BigNum(Rc<num::BigInt>),
}

} // verus!

verus! {

#[verifier::external_type_specification]
#[verifier::external_body]
pub struct ExBigInt(num::BigInt);

/// The integer that a big integer stands for.
pub uninterp spec fn bigint_value(b: num::BigInt) -> int;

/// Relies on `PartialEq for num::BigInt`: it compares sign and magnitude of
/// normalised values, so two big integers are equal exactly when they stand
/// for the same integer.
#[verifier::external_body]
pub(crate) fn bigint_eq(a: &num::BigInt, b: &num::BigInt) -> (r: bool)
    ensures
        r == (bigint_value(*a) == bigint_value(*b)),
{
    a == b
}

/// Relies on `Rc::ptr_eq`: true only when both handles point to one
/// allocation, which then holds one value.
#[verifier::external_body]
pub(crate) fn same_allocation<T>(a: &Rc<T>, b: &Rc<T>) -> (r: bool)
    ensures
        r ==> *a == *b,
{
    Rc::ptr_eq(a, b)
}

} // verus!

verus! {

/// The name of a value's variant, as error messages give it.
pub open spec fn variant_name(v: SteelVal) -> Seq<char> {
    match v {
        SteelVal::Closure(_) => "Closure"@,
        SteelVal::BoolV(_) => "BoolV"@,
        SteelVal::NumV(_) => "NumV"@,
        SteelVal::IntV(_) => "IntV"@,
        SteelVal::CharV(_) => "CharV"@,
        SteelVal::VectorV(_) => "VectorV"@,
        SteelVal::Void => "Void"@,
        SteelVal::StringV(_) => "StringV"@,
        SteelVal::FuncV(_) => "FuncV"@,
        SteelVal::SymbolV(_) => "SymbolV"@,
        SteelVal::Custom(_) => "Custom"@,
        SteelVal::HashMapV(_) => "HashMapV"@,
        SteelVal::HashSetV(_) => "HashSetV"@,
        SteelVal::CustomStruct(_) => "CustomStruct"@,
        SteelVal::PortV(_) => "PortV"@,
        SteelVal::IterV(_) => "IterV"@,
        SteelVal::ReducerV(_) => "ReducerV"@,
        SteelVal::FutureFunc(_) => "FutureFunc"@,
        SteelVal::FutureV(_) => "FutureV"@,
        SteelVal::StreamV(_) => "StreamV"@,
        SteelVal::Contract(_) => "Contract"@,
        SteelVal::ContractedFunction(_) => "ContractedFunction"@,
        SteelVal::BoxedFunction(_) => "BoxedFunction"@,
        SteelVal::ContinuationFunction(_) => "ContinuationFunction"@,
        SteelVal::ListV(_) => "ListV"@,
        SteelVal::MutFunc(_) => "MutFunc"@,
        SteelVal::BuiltIn(_) => "BuiltIn"@,
        SteelVal::MutableVector(_) => "MutableVector"@,
        SteelVal::BoxedIterator(_) => "BoxedIterator"@,
        SteelVal::SyntaxObject(_) => "SyntaxObject"@,
        SteelVal::Boxed(_) => "Boxed"@,
        SteelVal::Reference(_) => "Reference"@,
        SteelVal::BigNum(_) => "BigNum"@,
    }
}

impl SteelVal {
    pub fn variant_name(&self) -> (r: &'static str)
        ensures
            r@ == variant_name(*self),
    {
        match self {
            SteelVal::Closure(_) => "Closure",
            SteelVal::BoolV(_) => "BoolV",
            SteelVal::NumV(_) => "NumV",
            SteelVal::IntV(_) => "IntV",
            SteelVal::CharV(_) => "CharV",
            SteelVal::VectorV(_) => "VectorV",
            SteelVal::Void => "Void",
            SteelVal::StringV(_) => "StringV",
            SteelVal::FuncV(_) => "FuncV",
            SteelVal::SymbolV(_) => "SymbolV",
            SteelVal::Custom(_) => "Custom",
            SteelVal::HashMapV(_) => "HashMapV",
            SteelVal::HashSetV(_) => "HashSetV",
            SteelVal::CustomStruct(_) => "CustomStruct",
            SteelVal::PortV(_) => "PortV",
            SteelVal::IterV(_) => "IterV",
            SteelVal::ReducerV(_) => "ReducerV",
            SteelVal::FutureFunc(_) => "FutureFunc",
            SteelVal::FutureV(_) => "FutureV",
            SteelVal::StreamV(_) => "StreamV",
            SteelVal::Contract(_) => "Contract",
            SteelVal::ContractedFunction(_) => "ContractedFunction",
            SteelVal::BoxedFunction(_) => "BoxedFunction",
            SteelVal::ContinuationFunction(_) => "ContinuationFunction",
            SteelVal::ListV(_) => "ListV",
            SteelVal::MutFunc(_) => "MutFunc",
            SteelVal::BuiltIn(_) => "BuiltIn",
            SteelVal::MutableVector(_) => "MutableVector",
            SteelVal::BoxedIterator(_) => "BoxedIterator",
            SteelVal::SyntaxObject(_) => "SyntaxObject",
            SteelVal::Boxed(_) => "Boxed",
            SteelVal::Reference(_) => "Reference",
            SteelVal::BigNum(_) => "BigNum",
        }
    }
}

} // verus!

verus! {

broadcast use vstd::std_specs::vec::group_vec_axioms, vstd::seq::group_seq_axioms,
    vstd::string::axiom_spec_iter, vstd::string::next_postcondition;

/// The elements of a list, vector or set.
pub open spec fn elements(v: SteelVal) -> Seq<SteelVal> {
    match v {
        SteelVal::ListV(l) => l@,
        SteelVal::VectorV(l) => l@,
        SteelVal::HashSetV(l) => l@,
        _ => Seq::empty(),
    }
}

/// The entries of a map.
pub open spec fn entries(v: SteelVal) -> Seq<(SteelVal, SteelVal)> {
    match v {
        SteelVal::HashMapV(m) => m@,
        _ => Seq::empty(),
    }
}

pub proof fn lemma_element_decreases(v: SteelVal, i: int)
    requires
        0 <= i < elements(v).len(),
    ensures
        decreases_to!(v => elements(v)[i]),
{
    match v {
        SteelVal::ListV(l) => {
            let items: Vec<SteelVal> = *l;
            assert(decreases_to!(items => items@));
            assert(decreases_to!(items@ => items@[i]));
        },
        SteelVal::VectorV(l) => {
            let items: Vec<SteelVal> = *l;
            assert(decreases_to!(items => items@));
            assert(decreases_to!(items@ => items@[i]));
        },
        SteelVal::HashSetV(l) => {
            let items: Vec<SteelVal> = *l;
            assert(decreases_to!(items => items@));
            assert(decreases_to!(items@ => items@[i]));
        },
        _ => {},
    }
}

pub proof fn lemma_entry_decreases(v: SteelVal, i: int)
    requires
        0 <= i < entries(v).len(),
    ensures
        decreases_to!(v => entries(v)[i].0),
        decreases_to!(v => entries(v)[i].1),
{
    let m = v->HashMapV_0;
    let items: Vec<(SteelVal, SteelVal)> = *m;
    assert(decreases_to!(items => items@));
    assert(decreases_to!(items@ => items@[i]));
}

} // verus!

verus! {

/// The characters of a string, in order.
pub fn chars_of(s: &str) -> (r: Vec<char>)
    ensures
        r@ == s@,
{
    let mut it = s.chars();
    let mut out: Vec<char> = Vec::new();
    loop
        invariant
            out@ + it.remaining() == s@,
            it.decrease() is Some,
        ensures
            out@ == s@,
        decreases it.decrease()->0,
    {
        match it.next() {
            Some(c) => {
                out.push(c);
            },
            None => {
                assert(out@ + it.remaining() =~= out@);
                break ;
            },
        }
    }
    out
}

} // verus!

verus! {

impl SteelVal {
    /// A second handle on the same value: shared payloads are shared, not
    /// copied.
    pub fn share(&self) -> (r: SteelVal)
        ensures
            r == *self,
    {
        match self {
            SteelVal::Closure(c) => SteelVal::Closure(Rc::clone(c)),
            SteelVal::BoolV(b) => SteelVal::BoolV(*b),
            SteelVal::NumV(n) => SteelVal::NumV(*n),
            SteelVal::IntV(i) => SteelVal::IntV(*i),
            SteelVal::CharV(c) => SteelVal::CharV(*c),
            SteelVal::VectorV(v) => SteelVal::VectorV(Rc::clone(v)),
            SteelVal::Void => SteelVal::Void,
            SteelVal::StringV(s) => SteelVal::StringV(s.share()),
            SteelVal::FuncV(f) => SteelVal::FuncV(*f),
            SteelVal::SymbolV(s) => SteelVal::SymbolV(s.share()),
            SteelVal::Custom(c) => SteelVal::Custom(Rc::clone(c)),
            SteelVal::HashMapV(m) => SteelVal::HashMapV(Rc::clone(m)),
            SteelVal::HashSetV(s) => SteelVal::HashSetV(Rc::clone(s)),
            SteelVal::CustomStruct(h) => SteelVal::CustomStruct(*h),
            SteelVal::PortV(h) => SteelVal::PortV(*h),
            SteelVal::IterV(h) => SteelVal::IterV(*h),
            SteelVal::ReducerV(h) => SteelVal::ReducerV(*h),
            SteelVal::FutureFunc(h) => SteelVal::FutureFunc(*h),
            SteelVal::FutureV(h) => SteelVal::FutureV(*h),
            SteelVal::StreamV(h) => SteelVal::StreamV(*h),
            SteelVal::Contract(h) => SteelVal::Contract(*h),
            SteelVal::ContractedFunction(h) => SteelVal::ContractedFunction(*h),
            SteelVal::BoxedFunction(h) => SteelVal::BoxedFunction(*h),
            SteelVal::ContinuationFunction(h) => SteelVal::ContinuationFunction(*h),
            SteelVal::ListV(l) => SteelVal::ListV(Rc::clone(l)),
            SteelVal::MutFunc(h) => SteelVal::MutFunc(*h),
            SteelVal::BuiltIn(h) => SteelVal::BuiltIn(*h),
            SteelVal::MutableVector(c) => SteelVal::MutableVector(Rc::clone(c)),
            SteelVal::BoxedIterator(c) => SteelVal::BoxedIterator(Rc::clone(c)),
            SteelVal::SyntaxObject(s) => SteelVal::SyntaxObject(Rc::clone(s)),
            SteelVal::Boxed(c) => SteelVal::Boxed(Rc::clone(c)),
            SteelVal::Reference(h) => SteelVal::Reference(*h),
            SteelVal::BigNum(b) => SteelVal::BigNum(Rc::clone(b)),
        }
    }
}

} // verus!

verus! {

/// A fresh shared-mutable cell holding `x`.
pub fn new_rc_ref_cell(x: SteelVal) -> (r: SharedCell<SteelVal>)
    ensures
        r.predicate() == AnyValue,
{
    Rc::new(InvCell::new(x, Ghost(AnyValue)))
}

} // verus!
