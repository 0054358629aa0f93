use crate::value::{same_allocation, SteelVal};
use vstd::prelude::*;

verus! {

/// What pointer identity tells of two values: handles and booleans compare
/// exactly; shared allocations are identical only if they hold the same
/// value; void is identical to void; every other pairing is not identical.
pub open spec fn identity_result(a: SteelVal, b: SteelVal, r: bool) -> bool {
    match (a, b) {
        (SteelVal::BoolV(l), SteelVal::BoolV(o)) => r == (l == o),
        (SteelVal::Void, SteelVal::Void) => r,
        (SteelVal::FuncV(l), SteelVal::FuncV(o)) | (SteelVal::PortV(l), SteelVal::PortV(o))
        | (SteelVal::IterV(l), SteelVal::IterV(o)) | (SteelVal::ReducerV(l), SteelVal::ReducerV(o))
        | (SteelVal::FutureFunc(l), SteelVal::FutureFunc(o)) | (
            SteelVal::FutureV(l),
            SteelVal::FutureV(o),
        ) | (SteelVal::StreamV(l), SteelVal::StreamV(o)) | (
            SteelVal::Contract(l),
            SteelVal::Contract(o),
        ) | (SteelVal::ContractedFunction(l), SteelVal::ContractedFunction(o)) | (
            SteelVal::BoxedFunction(l),
            SteelVal::BoxedFunction(o),
        ) | (SteelVal::ContinuationFunction(l), SteelVal::ContinuationFunction(o)) | (
            SteelVal::MutFunc(l),
            SteelVal::MutFunc(o),
        ) | (SteelVal::BuiltIn(l), SteelVal::BuiltIn(o)) => r == (l == o),
        (SteelVal::Closure(l), SteelVal::Closure(o)) => r ==> l == o,
        (SteelVal::VectorV(l), SteelVal::VectorV(o)) | (SteelVal::ListV(l), SteelVal::ListV(o))
        | (SteelVal::HashSetV(l), SteelVal::HashSetV(o)) => r ==> l == o,
        (SteelVal::StringV(l), SteelVal::StringV(o)) | (SteelVal::SymbolV(l), SteelVal::SymbolV(o)) => r
            ==> l == o,
        (SteelVal::Custom(l), SteelVal::Custom(o)) => r ==> l == o,
        (SteelVal::HashMapV(l), SteelVal::HashMapV(o)) => r ==> l == o,
        (SteelVal::MutableVector(l), SteelVal::MutableVector(o)) => r ==> l == o,
        _ => !r,
    }
}

impl SteelVal {
    /// Pointer identity: a constant-time check that two values share one
    /// allocation (or are the same scalar), used before structural equality
    /// and to detect cycles.
    pub fn ptr_eq(&self, other: &SteelVal) -> (r: bool)
        ensures
            identity_result(*self, *other, r),
    {
        match (self, other) {
            (SteelVal::BoolV(l), SteelVal::BoolV(r)) => *l == *r,
            (SteelVal::VectorV(l), SteelVal::VectorV(r)) => same_allocation(l, r),
            (SteelVal::Void, SteelVal::Void) => true,
            (SteelVal::StringV(l), SteelVal::StringV(r)) => same_allocation(&l.0, &r.0),
            (SteelVal::FuncV(l), SteelVal::FuncV(r)) => *l == *r,
            (SteelVal::SymbolV(l), SteelVal::SymbolV(r)) => same_allocation(&l.0, &r.0),
            (SteelVal::Custom(l), SteelVal::Custom(r)) => same_allocation(l, r),
            (SteelVal::HashMapV(l), SteelVal::HashMapV(r)) => same_allocation(l, r),
            (SteelVal::HashSetV(l), SteelVal::HashSetV(r)) => same_allocation(l, r),
            (SteelVal::PortV(l), SteelVal::PortV(r)) => *l == *r,
            (SteelVal::Closure(l), SteelVal::Closure(r)) => same_allocation(l, r),
            (SteelVal::IterV(l), SteelVal::IterV(r)) => *l == *r,
            (SteelVal::ReducerV(l), SteelVal::ReducerV(r)) => *l == *r,
            (SteelVal::FutureFunc(l), SteelVal::FutureFunc(r)) => *l == *r,
            (SteelVal::FutureV(l), SteelVal::FutureV(r)) => *l == *r,
            (SteelVal::StreamV(l), SteelVal::StreamV(r)) => *l == *r,
            (SteelVal::Contract(l), SteelVal::Contract(r)) => *l == *r,
            (SteelVal::ContractedFunction(l), SteelVal::ContractedFunction(r)) => *l == *r,
            (SteelVal::BoxedFunction(l), SteelVal::BoxedFunction(r)) => *l == *r,
            (SteelVal::ContinuationFunction(l), SteelVal::ContinuationFunction(r)) => *l == *r,
            (SteelVal::ListV(l), SteelVal::ListV(r)) => same_allocation(l, r),
            (SteelVal::MutFunc(l), SteelVal::MutFunc(r)) => *l == *r,
            (SteelVal::BuiltIn(l), SteelVal::BuiltIn(r)) => *l == *r,
            (SteelVal::MutableVector(l), SteelVal::MutableVector(r)) => same_allocation(l, r),
            _ => false,
        }
    }
}

} // verus!
