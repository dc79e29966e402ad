//! A heterogeneous tuple library built on a recursive structure.
//!
//! A tuple is either the empty tuple [`tuple::Unit`] or a cons cell
//! [`tuple::Tuple`] holding a head value and a tail tuple. Every tuple type
//! implements [`tuple::TupleY`], which fixes its length at the type level;
//! the operation traits in [`ops`] extend, view and transform tuples, and the
//! traits in [`len`] let generic code bound a tuple's length.

pub mod laws;
pub mod len;
pub mod ops;
pub mod tuple;
