use crate::error::{ErrorKind, SteelErr};
use crate::syntax::Syntax;
use crate::value::{SteelString, SteelVal};
use std::rc::Rc;
use vstd::prelude::*;

verus! {

/// Marks the types that may be embedded as values.
pub trait Sealed {}

impl Sealed for SteelVal {}

impl Sealed for SteelString {}

/// The conversion of a runtime value into a host value.
pub trait FromSteelVal: Sized {
    fn from_steelval(val: &SteelVal) -> Result<Self, SteelErr>;
}

/// The arguments of a variadic native function, each converted.
pub struct RestArgs<T: FromSteelVal>(pub Vec<T>);

impl<T: FromSteelVal> RestArgs<T> {
    pub fn new(args: Vec<T>) -> (r: RestArgs<T>)
        ensures
            r.0 == args,
    {
        RestArgs(args)
    }

    /// Converts every argument; the first failure is returned.
    pub fn from_slice(args: &[SteelVal]) -> (r: Result<RestArgs<T>, SteelErr>)
        ensures
            r matches Ok(rest) ==> rest.0@.len() == args@.len(),
            args@.len() == 0 ==> r is Ok,
    {
        let mut out: Vec<T> = Vec::new();
        let mut i: usize = 0;
        while i < args.len()
            invariant
                i <= args@.len(),
                out@.len() == i,
            decreases args@.len() - i,
        {
            match T::from_steelval(&args[i]) {
                Ok(x) => out.push(x),
                Err(e) => return Err(e),
            }
            i += 1;
        }
        Ok(RestArgs(out))
    }

    pub fn as_slice(&self) -> (r: &[T])
        ensures
            r@ == self.0@,
    {
        self.0.as_slice()
    }
}

/// A view of a collection as a slice.
pub trait AsSlice<T> {
    fn as_slice_repr(&self) -> &[T];
}

impl<T> AsSlice<T> for Vec<T> {
    fn as_slice_repr(&self) -> &[T] {
        self.as_slice()
    }
}

impl From<String> for SteelString {
    fn from(val: String) -> (r: SteelString)
        ensures
            r@ == val@,
    {
        SteelString(Rc::new(val))
    }
}

impl vstd::std_specs::convert::FromSpecImpl<String> for SteelString {
    open spec fn obeys_from_spec() -> bool {
        true
    }

    open spec fn from_spec(v: String) -> SteelString {
        SteelString(Rc::new(v))
    }
}

impl From<Rc<String>> for SteelString {
    fn from(val: Rc<String>) -> (r: SteelString)
        ensures
            r == SteelString(val),
    {
        SteelString(val)
    }
}

impl vstd::std_specs::convert::FromSpecImpl<Rc<String>> for SteelString {
    open spec fn obeys_from_spec() -> bool {
        true
    }

    open spec fn from_spec(v: Rc<String>) -> SteelString {
        SteelString(v)
    }
}

impl From<SteelString> for Rc<String> {
    fn from(value: SteelString) -> (r: Rc<String>)
        ensures
            r == value.0,
    {
        value.0
    }
}

impl vstd::std_specs::convert::FromSpecImpl<SteelString> for Rc<String> {
    open spec fn obeys_from_spec() -> bool {
        true
    }

    open spec fn from_spec(v: SteelString) -> Rc<String> {
        v.0
    }
}

} // verus!

verus! {

#[verifier::external_type_specification]
#[verifier::external_body]
#[verifier::reject_recursive_types(T)]
pub struct ExRef<'b, T: ?Sized>(std::cell::Ref<'b, T>);

/// A borrow of a value inside the runtime: either a plain reference or a
/// runtime-checked borrow of a shared cell.
#[verifier::reject_recursive_types(T)]
pub enum SRef<'b, T: ?Sized + 'b> {
    Temporary(&'b T),
    Owned(std::cell::Ref<'b, T>),
}

impl<'b, T: ?Sized + 'b> std::ops::Deref for SRef<'b, T> {
    type Target = T;

    fn deref(&self) -> (r: &T)
        ensures
            self matches SRef::Temporary(inner) ==> r == inner,
    {
        match self {
            SRef::Temporary(inner) => inner,
            SRef::Owned(inner) => ref_target(inner),
        }
    }
}

/// Relies on `Deref for std::cell::Ref`: the value that the borrow guards.
#[verifier::external_body]
fn ref_target<'a, 'b, T: ?Sized>(r: &'a std::cell::Ref<'b, T>) -> &'a T {
    &**r
}

} // verus!

verus! {

/// Borrowing the payload of a value as a host type.
pub trait AsRefSteelVal: Sized {
    fn as_ref<'a>(val: &'a SteelVal) -> Result<SRef<'a, Self>, SteelErr>;
}

/// The elements of a list, borrowed; any other value is a type mismatch.
pub fn list_ref<'a>(val: &'a SteelVal) -> (r: Result<SRef<'a, Vec<SteelVal>>, SteelErr>)
    ensures
        val is ListV <==> r is Ok,
        r matches Ok(s) ==> s matches SRef::Temporary(l) && val matches SteelVal::ListV(v) && *l == *v,
        r matches Err(e) ==> e.kind == ErrorKind::TypeMismatch,
{
    match val {
        SteelVal::ListV(l) => Ok(SRef::Temporary(&**l)),
        _ => Err(SteelErr::from_str(ErrorKind::TypeMismatch, "Value cannot be referenced as a list")),
    }
}

impl AsRefSteelVal for Vec<SteelVal> {
    /// The elements of a list, as `list_ref` gives them.
    fn as_ref<'a>(val: &'a SteelVal) -> Result<SRef<'a, Vec<SteelVal>>, SteelErr> {
        list_ref(val)
    }
}

impl AsRefSteelVal for Syntax {
    /// The syntax object that a value holds.
    fn as_ref<'a>(val: &'a SteelVal) -> (r: Result<SRef<'a, Syntax>, SteelErr>)
        ensures
            val is SyntaxObject <==> r is Ok,
            r matches Ok(s) ==> s matches SRef::Temporary(x) && val matches SteelVal::SyntaxObject(v) && *x == *v,
            r matches Err(e) ==> e.kind == ErrorKind::TypeMismatch,
    {
        match val {
            SteelVal::SyntaxObject(s) => Ok(SRef::Temporary(&**s)),
            _ => Err(
                SteelErr::from_str(ErrorKind::TypeMismatch, "Value cannot be referenced as a syntax object"),
            ),
        }
    }
}

} // verus!
