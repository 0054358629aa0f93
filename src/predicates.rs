use crate::value::SteelVal;
use vstd::prelude::*;

verus! {

/// Scheme truthiness: `#false`, void and the empty list are false, every
/// other value is true.
pub open spec fn truthy(v: SteelVal) -> bool {
    match v {
        SteelVal::BoolV(b) => b,
        SteelVal::Void => false,
        SteelVal::ListV(l) => l.len() > 0,
        _ => true,
    }
}

pub open spec fn falsey(v: SteelVal) -> bool {
    match v {
        SteelVal::BoolV(b) => !b,
        SteelVal::Void => true,
        SteelVal::ListV(l) => l.len() == 0,
        _ => false,
    }
}

/// The variants that may be keys of the runtime's maps and sets.
pub open spec fn hashable(v: SteelVal) -> bool {
    match v {
        SteelVal::BoolV(_) | SteelVal::IntV(_) | SteelVal::CharV(_) | SteelVal::VectorV(_) | SteelVal::StringV(_) | SteelVal::SymbolV(_) | SteelVal::HashMapV(_)
        | SteelVal::Closure(_) | SteelVal::ListV(_) | SteelVal::FuncV(_) | SteelVal::CustomStruct(_) => true,
        _ => false,
    }
}

/// The callable variants; continuations are not among them.
pub open spec fn function(v: SteelVal) -> bool {
    match v {
        SteelVal::BoxedFunction(_) | SteelVal::Closure(_) | SteelVal::FuncV(_) | SteelVal::ContractedFunction(_) | SteelVal::BuiltIn(_)
        | SteelVal::MutFunc(_) => true,
        _ => false,
    }
}

impl SteelVal {
    pub fn is_truthy(&self) -> (r: bool)
        ensures
            r == truthy(*self),
    {
        match self {
            SteelVal::BoolV(false) => false,
            SteelVal::Void => false,
            SteelVal::ListV(v) => v.len() != 0,
            _ => true,
        }
    }

    pub fn is_falsey(&self) -> (r: bool)
        ensures
            r == falsey(*self),
    {
        match self {
            SteelVal::BoolV(false) => true,
            SteelVal::Void => true,
            SteelVal::ListV(v) => v.len() == 0,
            _ => false,
        }
    }

    pub fn is_future(&self) -> (r: bool)
        ensures
            r == self is FutureV,
    {
        matches!(self, SteelVal::FutureV(_))
    }

    pub fn is_hashable(&self) -> (r: bool)
        ensures
            r == hashable(*self),
    {
        matches!(
            self,
            SteelVal::BoolV(_) | SteelVal::IntV(_) | SteelVal::CharV(_) | SteelVal::VectorV(_) | SteelVal::StringV(_) | SteelVal::SymbolV(_) | SteelVal::HashMapV(_)
                | SteelVal::Closure(_) | SteelVal::ListV(_) | SteelVal::FuncV(_) | SteelVal::CustomStruct(_)
        )
    }

    pub fn is_function(&self) -> (r: bool)
        ensures
            r == function(*self),
    {
        matches!(
            self,
            SteelVal::BoxedFunction(_) | SteelVal::Closure(_) | SteelVal::FuncV(_) | SteelVal::ContractedFunction(_) | SteelVal::BuiltIn(_)
                | SteelVal::MutFunc(_)
        )
    }

    pub fn is_contract(&self) -> (r: bool)
        ensures
            r == self is Contract,
    {
        matches!(self, SteelVal::Contract(_))
    }
}

/// A value is truthy exactly when it is not falsey.
pub proof fn truthy_is_not_falsey(v: SteelVal)
    ensures
        truthy(v) == !falsey(v),
{
}

} // verus!
