//! Laws relating the tuple operations to each other and to the length.
//!
//! The laws that need induction over the tuple's structure are trait proof
//! functions, implemented once for [`Unit`] and once for [`Tuple`]; a bound
//! on one of these traits hands the law to generic code. The rest are free
//! proof functions.

use crate::ops::PushBack;
use crate::tuple::{Tuple, TupleY, Unit};
use vstd::prelude::*;
use vstd::std_specs::ops::AddSpec;

verus! {

/// The length of a concatenation is the sum of the lengths.
pub trait AddLen<Rhs: TupleY>: TupleY + core::ops::Add<Rhs> where
    <Self as core::ops::Add<Rhs>>::Output: TupleY,
 {
    /// `length(self + rhs) == length(self) + length(rhs)`.
    proof fn lemma_add_len(self, rhs: Rhs)
        ensures
            <Self::Output as TupleY>::spec_len() == Self::spec_len() + Rhs::spec_len(),
    ;
}

impl<Rhs: TupleY> AddLen<Rhs> for Unit {
    proof fn lemma_add_len(self, rhs: Rhs) {
    }
}

impl<First, Tail, Rhs> AddLen<Rhs> for Tuple<First, Tail> where
    Rhs: TupleY,
    Tail: AddLen<Rhs>,
    <Tail as core::ops::Add<Rhs>>::Output: TupleY,
 {
    proof fn lemma_add_len(self, rhs: Rhs) {
        self.1.lemma_add_len(rhs);
    }
}

/// The empty tuple is a left identity of concatenation: `Unit + rhs == rhs`.
pub proof fn lemma_unit_add_identity<Rhs: TupleY>(rhs: Rhs)
    ensures
        Unit.add_spec(rhs) == rhs,
{
}

/// The empty tuple is a right identity of concatenation.
pub trait AddUnitIdentity: TupleY + core::ops::Add<Unit, Output = Self> {
    /// `self + Unit == self`.
    proof fn lemma_add_unit_identity(self)
        ensures
            self.add_spec(Unit) == self,
    ;
}

impl AddUnitIdentity for Unit {
    proof fn lemma_add_unit_identity(self) {
    }
}

impl<First, Tail> AddUnitIdentity for Tuple<First, Tail> where Tail: AddUnitIdentity {
    proof fn lemma_add_unit_identity(self) {
        self.1.lemma_add_unit_identity();
    }
}

/// Appending one element is concatenating a one-element tuple on the right,
/// so the appended value stands after every element of `self`: it is the
/// last element of the result.
pub trait PushBackIsAdd<T>: PushBack<T> + core::ops::Add<
    Tuple<T, Unit>,
    Output = <Self as PushBack<T>>::Output,
> {
    /// `push_back(self, value) == self + (value,)`.
    proof fn lemma_push_back_is_add(self, value: T)
        ensures
            self.spec_push_back(value) == self.add_spec(Tuple(value, Unit)),
    ;
}

impl<T> PushBackIsAdd<T> for Unit {
    proof fn lemma_push_back_is_add(self, value: T) {
    }
}

impl<First, Tail, T> PushBackIsAdd<T> for Tuple<First, Tail> where Tail: PushBackIsAdd<T> {
    proof fn lemma_push_back_is_add(self, value: T) {
        self.1.lemma_push_back_is_add(value);
    }
}

/// Prepending one element grows the length by exactly one; by the contract
/// of [`TupleY::push_front`] the prepended value is the first element and
/// the original tuple follows it unchanged.
pub proof fn lemma_push_front_len<T, Tup: TupleY>(t: Tup, value: T)
    ensures
        <Tuple<T, Tup> as TupleY>::spec_len() == Tup::spec_len() + 1,
{
}

} // verus!
