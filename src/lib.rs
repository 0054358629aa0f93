//! The value representation of a dynamically typed runtime: the tagged union
//! that every operation reads, its accessors and predicates, structural
//! equality, ordering and hashing, pointer identity, the iterator cursor,
//! the expression-tree form of syntax objects and the cross-thread transfer
//! boundary.
pub mod accessors;
pub mod convert;
pub mod equality;
pub mod error;
pub mod foreign;
pub mod hashing;
pub mod identity;
pub mod iter;
pub mod ordering;
pub mod predicates;
pub mod syntax;
pub mod transfer;
pub mod value;

pub use convert::{AsRefSteelVal, AsSlice, FromSteelVal, RestArgs, SRef, Sealed};
pub use error::{ErrorKind, SteelErr};
pub use foreign::{downcast_mismatch, foreign_record, ForeignObject};
pub use iter::{iterator_next, value_into_iterator, BuiltInDataStructureIterator, Chunks};
pub use syntax::{ExprKind, IntoSteelVal, Span, Syntax, Token, TryFromSteelValVisitorForExprKind};
pub use transfer::{from_serializable_value, into_serializable_value, SerializableSteelVal};
pub use value::{Handle, LambdaRef, SteelString, SteelVal};
