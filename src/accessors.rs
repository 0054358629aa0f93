use crate::syntax::Syntax;
use crate::transfer::distinct_keys;
use crate::value::{AnyValue, Handle, LambdaRef, SteelString, SteelVal};
use std::rc::Rc;
use vstd::cell::invcell::InvCell;
use vstd::prelude::*;

verus! {

/// What a fallible accessor returns: the payload it found, or the error
/// that `err` makes.
pub open spec fn found_or_else<T, E, F: FnOnce() -> E>(
    found: Option<T>,
    err: F,
    r: Result<T, E>,
) -> bool {
    match found {
        Some(x) => r == Ok::<T, E>(x),
        None => r is Err && err.ensures((), r->Err_0),
    }
}

/// The value that an optional borrow points to.
pub open spec fn borrowed<T>(r: Option<&T>) -> Option<T> {
    match r {
        Some(x) => Some(*x),
        None => None,
    }
}

pub open spec fn list_of(v: SteelVal) -> Option<Vec<SteelVal>> {
    match v {
        SteelVal::ListV(l) => Some(*l),
        _ => None,
    }
}

pub open spec fn vector_of(v: SteelVal) -> Option<Rc<Vec<SteelVal>>> {
    match v {
        SteelVal::VectorV(l) => Some(l),
        _ => None,
    }
}

pub open spec fn bool_of(v: SteelVal) -> Option<bool> {
    match v {
        SteelVal::BoolV(b) => Some(b),
        _ => None,
    }
}

pub open spec fn int_of(v: SteelVal) -> Option<isize> {
    match v {
        SteelVal::IntV(i) => Some(i),
        _ => None,
    }
}

pub open spec fn num_of(v: SteelVal) -> Option<u64> {
    match v {
        SteelVal::NumV(n) => Some(n),
        _ => None,
    }
}

pub open spec fn char_of(v: SteelVal) -> Option<char> {
    match v {
        SteelVal::CharV(c) => Some(c),
        _ => None,
    }
}

pub open spec fn void_of(v: SteelVal) -> Option<()> {
    match v {
        SteelVal::Void => Some(()),
        _ => None,
    }
}

pub open spec fn string_of(v: SteelVal) -> Option<SteelString> {
    match v {
        SteelVal::StringV(s) => Some(s),
        _ => None,
    }
}

pub open spec fn symbol_of(v: SteelVal) -> Option<SteelString> {
    match v {
        SteelVal::SymbolV(s) => Some(s),
        _ => None,
    }
}

pub open spec fn func_of(v: SteelVal) -> Option<Handle> {
    match v {
        SteelVal::FuncV(f) => Some(f),
        _ => None,
    }
}

pub open spec fn boxed_func_of(v: SteelVal) -> Option<Handle> {
    match v {
        SteelVal::BoxedFunction(f) => Some(f),
        _ => None,
    }
}

pub open spec fn contract_of(v: SteelVal) -> Option<Handle> {
    match v {
        SteelVal::Contract(c) => Some(c),
        _ => None,
    }
}

pub open spec fn closure_of(v: SteelVal) -> Option<LambdaRef> {
    match v {
        SteelVal::Closure(c) => Some(*c),
        _ => None,
    }
}

pub open spec fn future_of(v: SteelVal) -> Option<Handle> {
    match v {
        SteelVal::FutureV(f) => Some(f),
        _ => None,
    }
}

pub open spec fn syntax_of(v: SteelVal) -> Option<Syntax> {
    match v {
        SteelVal::SyntaxObject(s) => Some(*s),
        _ => None,
    }
}

/// A non-negative integer as a `usize`.
pub open spec fn usize_of(v: SteelVal) -> Option<usize> {
    match v {
        SteelVal::IntV(i) => if i >= 0 {
            Some(i as usize)
        } else {
            None
        },
        _ => None,
    }
}

impl SteelVal {
    /// A mutable box holding `value`.
    pub fn boxed(value: SteelVal) -> (r: SteelVal)
        ensures
            r is Boxed,
    {
        SteelVal::Boxed(Rc::new(InvCell::new(value, Ghost(AnyValue))))
    }

    /// A map with no entries.
    pub fn empty_hashmap() -> (r: SteelVal)
        ensures
            r matches SteelVal::HashMapV(m) && m.len() == 0,
            distinct_keys(r),
    {
        SteelVal::HashMapV(Rc::new(Vec::new()))
    }

    pub fn list_or_else<E, F: FnOnce() -> E>(&self, err: F) -> (r: Result<&Vec<SteelVal>, E>)
        requires
            err.requires(()),
        ensures
            match list_of(*self) {
                Some(l) => r matches Ok(t) && *t == l,
                None => r is Err && err.ensures((), r->Err_0),
            },
    {
        match self {
            SteelVal::ListV(v) => Ok(&**v),
            _ => Err(err()),
        }
    }

    pub fn list(&self) -> (r: Option<&Vec<SteelVal>>)
        ensures
            borrowed(r) == list_of(*self),
    {
        match self {
            SteelVal::ListV(l) => Some(&**l),
            _ => None,
        }
    }

    pub fn bool_or_else<E, F: FnOnce() -> E>(&self, err: F) -> (r: Result<bool, E>)
        requires
            err.requires(()),
        ensures
            found_or_else(bool_of(*self), err, r),
    {
        match self {
            SteelVal::BoolV(v) => Ok(*v),
            _ => Err(err()),
        }
    }

    pub fn int_or_else<E, F: FnOnce() -> E>(&self, err: F) -> (r: Result<isize, E>)
        requires
            err.requires(()),
        ensures
            found_or_else(int_of(*self), err, r),
    {
        match self {
            SteelVal::IntV(v) => Ok(*v),
            _ => Err(err()),
        }
    }

    /// The bit pattern of a floating-point number.
    pub fn num_or_else<E, F: FnOnce() -> E>(&self, err: F) -> (r: Result<u64, E>)
        requires
            err.requires(()),
        ensures
            found_or_else(num_of(*self), err, r),
    {
        match self {
            SteelVal::NumV(v) => Ok(*v),
            _ => Err(err()),
        }
    }

    pub fn char_or_else<E, F: FnOnce() -> E>(&self, err: F) -> (r: Result<char, E>)
        requires
            err.requires(()),
        ensures
            found_or_else(char_of(*self), err, r),
    {
        match self {
            SteelVal::CharV(v) => Ok(*v),
            _ => Err(err()),
        }
    }

    /// A new handle on the vector's shared elements.
    pub fn vector_or_else<E, F: FnOnce() -> E>(&self, err: F) -> (r: Result<Rc<Vec<SteelVal>>, E>)
        requires
            err.requires(()),
        ensures
            found_or_else(vector_of(*self), err, r),
    {
        match self {
            SteelVal::VectorV(v) => Ok(Rc::clone(v)),
            _ => Err(err()),
        }
    }

    pub fn void_or_else<E, F: FnOnce() -> E>(&self, err: F) -> (r: Result<(), E>)
        requires
            err.requires(()),
        ensures
            found_or_else(void_of(*self), err, r),
    {
        match self {
            SteelVal::Void => Ok(()),
            _ => Err(err()),
        }
    }

    pub fn string_or_else<E, F: FnOnce() -> E>(&self, err: F) -> (r: Result<&str, E>)
        requires
            err.requires(()),
        ensures
            match string_of(*self) {
                Some(s) => r matches Ok(t) && t@ == s@,
                None => r is Err && err.ensures((), r->Err_0),
            },
    {
        match self {
            SteelVal::StringV(v) => Ok(v.as_str()),
            _ => Err(err()),
        }
    }

    pub fn func_or_else<E, F: FnOnce() -> E>(&self, err: F) -> (r: Result<Handle, E>)
        requires
            err.requires(()),
        ensures
            found_or_else(func_of(*self), err, r),
    {
        match self {
            SteelVal::FuncV(v) => Ok(*v),
            _ => Err(err()),
        }
    }

    pub fn boxed_func_or_else<E, F: FnOnce() -> E>(&self, err: F) -> (r: Result<Handle, E>)
        requires
            err.requires(()),
        ensures
            found_or_else(boxed_func_of(*self), err, r),
    {
        match self {
            SteelVal::BoxedFunction(v) => Ok(*v),
            _ => Err(err()),
        }
    }

    pub fn contract_or_else<E, F: FnOnce() -> E>(&self, err: F) -> (r: Result<Handle, E>)
        requires
            err.requires(()),
        ensures
            found_or_else(contract_of(*self), err, r),
    {
        match self {
            SteelVal::Contract(c) => Ok(*c),
            _ => Err(err()),
        }
    }

    pub fn closure_or_else<E, F: FnOnce() -> E>(&self, err: F) -> (r: Result<LambdaRef, E>)
        requires
            err.requires(()),
        ensures
            found_or_else(closure_of(*self), err, r),
    {
        match self {
            SteelVal::Closure(c) => Ok(**c),
            _ => Err(err()),
        }
    }

    pub fn symbol_or_else<E, F: FnOnce() -> E>(&self, err: F) -> (r: Result<&str, E>)
        requires
            err.requires(()),
        ensures
            match symbol_of(*self) {
                Some(s) => r matches Ok(t) && t@ == s@,
                None => r is Err && err.ensures((), r->Err_0),
            },
    {
        match self {
            SteelVal::SymbolV(v) => Ok(v.as_str()),
            _ => Err(err()),
        }
    }

    pub fn clone_symbol_or_else<E, F: FnOnce() -> E>(&self, err: F) -> (r: Result<String, E>)
        requires
            err.requires(()),
        ensures
            match symbol_of(*self) {
                Some(s) => r matches Ok(t) && t@ == s@,
                None => r is Err && err.ensures((), r->Err_0),
            },
    {
        match self {
            SteelVal::SymbolV(v) => Ok(v.as_str().to_owned()),
            _ => Err(err()),
        }
    }

    pub fn as_isize(&self) -> (r: Option<isize>)
        ensures
            r == int_of(*self),
    {
        match self {
            SteelVal::IntV(i) => Some(*i),
            _ => None,
        }
    }

    pub fn as_usize(&self) -> (r: Option<usize>)
        ensures
            r == usize_of(*self),
    {
        match self.as_isize() {
            Some(x) => if x >= 0 {
                Some(x as usize)
            } else {
                None
            },
            None => None,
        }
    }

    pub fn as_bool(&self) -> (r: Option<bool>)
        ensures
            r == bool_of(*self),
    {
        match self {
            SteelVal::BoolV(b) => Some(*b),
            _ => None,
        }
    }

    /// The deferred result that this value holds.
    pub fn as_future(&self) -> (r: Option<Handle>)
        ensures
            r == future_of(*self),
    {
        match self {
            SteelVal::FutureV(v) => Some(*v),
            _ => None,
        }
    }

    pub fn as_string(&self) -> (r: Option<&SteelString>)
        ensures
            borrowed(r) == string_of(*self),
    {
        match self {
            SteelVal::StringV(s) => Some(s),
            _ => None,
        }
    }

    pub fn as_symbol(&self) -> (r: Option<&SteelString>)
        ensures
            borrowed(r) == symbol_of(*self),
    {
        match self {
            SteelVal::SymbolV(s) => Some(s),
            _ => None,
        }
    }

    pub fn as_syntax_object(&self) -> (r: Option<&Syntax>)
        ensures
            borrowed(r) == syntax_of(*self),
    {
        match self {
            SteelVal::SyntaxObject(s) => Some(&**s),
            _ => None,
        }
    }

    pub fn closure_arity(&self) -> (r: Option<usize>)
        ensures
            r == (match *self {
                SteelVal::Closure(c) => Some(c.arity),
                _ => None::<usize>,
            }),
    {
        match self {
            SteelVal::Closure(c) => Some(c.arity),
            _ => None,
        }
    }
}

} // verus!

verus! {

/// Each narrowing accessor finds the payload of a value of its own variant,
/// and nothing in a value of any other variant.
pub proof fn narrowing_finds_own_variant(
    v: SteelVal,
    b: bool,
    i: isize,
    n: u64,
    c: char,
    s: SteelString,
    h: Handle,
    k: Rc<LambdaRef>,
    l: Rc<Vec<SteelVal>>,
    x: Rc<Syntax>,
)
    ensures
        bool_of(SteelVal::BoolV(b)) == Some(b),
        v !is BoolV ==> bool_of(v) is None,
        int_of(SteelVal::IntV(i)) == Some(i),
        v !is IntV ==> int_of(v) is None,
        i >= 0 ==> usize_of(SteelVal::IntV(i)) == Some(i as usize),
        i < 0 ==> usize_of(SteelVal::IntV(i)) is None,
        v !is IntV ==> usize_of(v) is None,
        num_of(SteelVal::NumV(n)) == Some(n),
        v !is NumV ==> num_of(v) is None,
        char_of(SteelVal::CharV(c)) == Some(c),
        v !is CharV ==> char_of(v) is None,
        void_of(SteelVal::Void) == Some(()),
        v !is Void ==> void_of(v) is None,
        string_of(SteelVal::StringV(s)) == Some(s),
        v !is StringV ==> string_of(v) is None,
        symbol_of(SteelVal::SymbolV(s)) == Some(s),
        v !is SymbolV ==> symbol_of(v) is None,
        func_of(SteelVal::FuncV(h)) == Some(h),
        v !is FuncV ==> func_of(v) is None,
        boxed_func_of(SteelVal::BoxedFunction(h)) == Some(h),
        v !is BoxedFunction ==> boxed_func_of(v) is None,
        contract_of(SteelVal::Contract(h)) == Some(h),
        v !is Contract ==> contract_of(v) is None,
        future_of(SteelVal::FutureV(h)) == Some(h),
        v !is FutureV ==> future_of(v) is None,
        closure_of(SteelVal::Closure(k)) == Some(*k),
        v !is Closure ==> closure_of(v) is None,
        list_of(SteelVal::ListV(l)) == Some(*l),
        v !is ListV ==> list_of(v) is None,
        vector_of(SteelVal::VectorV(l)) == Some(l),
        v !is VectorV ==> vector_of(v) is None,
        syntax_of(SteelVal::SyntaxObject(x)) == Some(*x),
        v !is SyntaxObject ==> syntax_of(v) is None,
{
}

} // verus!
