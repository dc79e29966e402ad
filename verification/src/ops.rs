//! Operations over tuples: appending, reference views, lifting every
//! element into `Option` or `Result`, and concatenation with `+`.
//!
//! Each operation changes the tuple's type, so each is its own trait,
//! implemented once for [`Unit`] and once for [`Tuple`]; the recursion over
//! the tail mirrors the recursion of the types themselves. Every exec
//! method returns exactly the value of its spec counterpart, and each trait
//! carries the proof that the operation treats the length as promised.

use crate::tuple::{Tuple, TupleY, Unit};
use vstd::prelude::*;
use vstd::std_specs::ops::AddSpec;

verus! {

/// Appends one element at the innermost position, keeping all existing
/// elements in order before it.
pub trait PushBack<T>: TupleY {
    /// The tuple type after appending a `T`.
    type Output: TupleY;

    /// The appended tuple: the same elements, then `value` last.
    spec fn spec_push_back(self, value: T) -> Self::Output;

    /// Appending one element grows the length by exactly one.
    proof fn lemma_push_back_len(self, value: T)
        ensures
            <Self::Output as TupleY>::spec_len() == Self::spec_len() + 1,
    ;

    /// Appends `value` as the new last element.
    fn push_back(self, value: T) -> (r: Self::Output)
        ensures
            r == self.spec_push_back(value),
    ;
}

impl<T> PushBack<T> for Unit {
    type Output = Tuple<T, Unit>;

    open spec fn spec_push_back(self, value: T) -> Tuple<T, Unit> {
        Tuple(value, Unit)
    }

    proof fn lemma_push_back_len(self, value: T) {
    }

    fn push_back(self, value: T) -> (r: Tuple<T, Unit>) {
        Tuple(value, Unit)
    }
}

impl<First, Tail: PushBack<T>, T> PushBack<T> for Tuple<First, Tail> {
    type Output = Tuple<First, Tail::Output>;

    open spec fn spec_push_back(self, value: T) -> Tuple<First, Tail::Output> {
        Tuple(self.0, self.1.spec_push_back(value))
    }

    proof fn lemma_push_back_len(self, value: T) {
        self.1.lemma_push_back_len(value);
    }

    fn push_back(self, value: T) -> (r: Tuple<First, Tail::Output>) {
        Tuple(self.0, self.1.push_back(value))
    }
}

/// A tuple whose elements are shared references, together with the tuple of
/// the referenced values. Implemented by the outputs of [`RefView::as_ref`].
pub trait RefTuple: Sized {
    /// The tuple of values the references point at.
    type Target: TupleY;

    /// The tuple obtained by dereferencing every position.
    spec fn spec_deref(self) -> Self::Target;
}

impl RefTuple for Unit {
    type Target = Unit;

    open spec fn spec_deref(self) -> Unit {
        Unit
    }
}

impl<'a, First, Tail: RefTuple> RefTuple for Tuple<&'a First, Tail> {
    type Target = Tuple<First, Tail::Target>;

    open spec fn spec_deref(self) -> Tuple<First, Tail::Target> {
        Tuple(*self.0, self.1.spec_deref())
    }
}

/// Borrows a tuple as a same-shape, same-order tuple of shared references.
pub trait RefView<'a>: TupleY {
    /// The tuple of references, one per element of `Self`.
    type Output: TupleY + RefTuple<Target = Self>;

    /// The reference view has exactly as many positions as the tuple.
    proof fn lemma_ref_view_len()
        ensures
            <Self::Output as TupleY>::spec_len() == Self::spec_len(),
    ;

    /// Returns the tuple of references: dereferencing every position of the
    /// result yields the original tuple again.
    fn as_ref(&'a self) -> (r: Self::Output)
        ensures
            r.spec_deref() == *self,
    ;
}

impl<'a> RefView<'a> for Unit {
    type Output = Unit;

    proof fn lemma_ref_view_len() {
    }

    fn as_ref(&'a self) -> (r: Unit) {
        Unit
    }
}

impl<'a, First: 'a, Tail: RefView<'a> + 'a> RefView<'a> for Tuple<First, Tail> {
    type Output = Tuple<&'a First, Tail::Output>;

    proof fn lemma_ref_view_len() {
        Tail::lemma_ref_view_len();
    }

    fn as_ref(&'a self) -> (r: Tuple<&'a First, Tail::Output>) {
        Tuple(&self.0, self.1.as_ref())
    }
}

/// Wraps every element in `Some`, preserving length and order.
pub trait ToSome: TupleY {
    /// The tuple type with every element type `T` turned into `Option<T>`.
    type Output: TupleY;

    /// The tuple with every element wrapped in `Some`.
    spec fn spec_to_some(self) -> Self::Output;

    /// Wrapping the elements does not change the length.
    proof fn lemma_to_some_len(self)
        ensures
            <Self::Output as TupleY>::spec_len() == Self::spec_len(),
    ;

    /// Wraps every element in `Some`; no position is ever `None`.
    fn to_some(self) -> (r: Self::Output)
        ensures
            r == self.spec_to_some(),
    ;
}

impl ToSome for Unit {
    type Output = Unit;

    open spec fn spec_to_some(self) -> Unit {
        Unit
    }

    proof fn lemma_to_some_len(self) {
    }

    fn to_some(self) -> (r: Unit) {
        Unit
    }
}

impl<First, Tail: ToSome> ToSome for Tuple<First, Tail> {
    type Output = Tuple<Option<First>, Tail::Output>;

    open spec fn spec_to_some(self) -> Tuple<Option<First>, Tail::Output> {
        Tuple(Some(self.0), self.1.spec_to_some())
    }

    proof fn lemma_to_some_len(self) {
        self.1.lemma_to_some_len();
    }

    fn to_some(self) -> (r: Tuple<Option<First>, Tail::Output>) {
        Tuple(Some(self.0), self.1.to_some())
    }
}

/// Wraps every element in `Ok`, preserving length and order. The error type
/// `E` is chosen by the caller and never inhabited by the result.
pub trait ToOk<E>: TupleY {
    /// The tuple type with every element type `T` turned into `Result<T, E>`.
    type Output: TupleY;

    /// The tuple with every element wrapped in `Ok`.
    spec fn spec_to_ok(self) -> Self::Output;

    /// Wrapping the elements does not change the length.
    proof fn lemma_to_ok_len(self)
        ensures
            <Self::Output as TupleY>::spec_len() == Self::spec_len(),
    ;

    /// Wraps every element in `Ok`; no position is ever `Err`.
    fn to_ok(self) -> (r: Self::Output)
        ensures
            r == self.spec_to_ok(),
    ;
}

impl<E> ToOk<E> for Unit {
    type Output = Unit;

    open spec fn spec_to_ok(self) -> Unit {
        Unit
    }

    proof fn lemma_to_ok_len(self) {
    }

    fn to_ok(self) -> (r: Unit) {
        Unit
    }
}

impl<First, Tail: ToOk<E>, E> ToOk<E> for Tuple<First, Tail> {
    type Output = Tuple<Result<First, E>, Tail::Output>;

    open spec fn spec_to_ok(self) -> Tuple<Result<First, E>, Tail::Output> {
        Tuple(Ok(self.0), self.1.spec_to_ok())
    }

    proof fn lemma_to_ok_len(self) {
        self.1.lemma_to_ok_len();
    }

    fn to_ok(self) -> (r: Tuple<Result<First, E>, Tail::Output>) {
        Tuple(Ok(self.0), self.1.to_ok())
    }
}

impl<Rhs: TupleY> core::ops::Add<Rhs> for Unit {
    type Output = Rhs;

    /// Concatenating the empty tuple onto `rhs` yields `rhs` itself.
    fn add(self, rhs: Rhs) -> (r: Rhs) {
        rhs
    }
}

impl<Rhs: TupleY> vstd::std_specs::ops::AddSpecImpl<Rhs> for Unit {
    open spec fn obeys_add_spec() -> bool {
        true
    }

    open spec fn add_req(self, rhs: Rhs) -> bool {
        true
    }

    open spec fn add_spec(self, rhs: Rhs) -> Rhs {
        rhs
    }
}

impl<First, Tail, Rhs> core::ops::Add<Rhs> for Tuple<First, Tail> where
    Rhs: TupleY,
    Tail: core::ops::Add<Rhs>,
 {
    type Output = Tuple<First, <Tail as core::ops::Add<Rhs>>::Output>;

    /// Concatenation keeps the head and concatenates the tail with `rhs`:
    /// the result holds the elements of `self` in order, then those of `rhs`.
    fn add(self, rhs: Rhs) -> (r: Self::Output) {
        Tuple(self.0, self.1 + rhs)
    }
}

impl<First, Tail, Rhs> vstd::std_specs::ops::AddSpecImpl<Rhs> for Tuple<First, Tail> where
    Rhs: TupleY,
    Tail: core::ops::Add<Rhs>,
 {
    open spec fn obeys_add_spec() -> bool {
        Tail::obeys_add_spec()
    }

    open spec fn add_req(self, rhs: Rhs) -> bool {
        self.1.add_req(rhs)
    }

    open spec fn add_spec(self, rhs: Rhs) -> Tuple<First, <Tail as core::ops::Add<Rhs>>::Output> {
        Tuple(self.0, self.1.add_spec(rhs))
    }
}

/// A tuple whose elements are mutable references, together with the tuple
/// of the values they point at. Implemented by the outputs of
/// [`MutView::as_mut`].
pub trait MutTuple: Sized {
    /// The tuple of values the references point at.
    type Target: TupleY;

    /// The tuple obtained by dereferencing every position now.
    spec fn spec_current(self) -> Self::Target;
}

impl MutTuple for Unit {
    type Target = Unit;

    open spec fn spec_current(self) -> Unit {
        Unit
    }
}

impl<'a, First, Tail: MutTuple> MutTuple for Tuple<&'a mut First, Tail> {
    type Target = Tuple<First, Tail::Target>;

    open spec fn spec_current(self) -> Tuple<First, Tail::Target> {
        Tuple(*self.0, self.1.spec_current())
    }
}

/// Borrows a tuple as a same-shape, same-order tuple of mutable references.
pub trait MutView<'a>: TupleY {
    /// The tuple of mutable references, one per element of `Self`.
    type Output: TupleY + MutTuple<Target = Self>;

    /// The mutable view has exactly as many positions as the tuple.
    proof fn lemma_mut_view_len()
        ensures
            <Self::Output as TupleY>::spec_len() == Self::spec_len(),
    ;

    /// Returns the tuple of mutable references: each position points at the
    /// corresponding element of the tuple, so each starts out at that
    /// element's value.
    fn as_mut(&'a mut self) -> (r: Self::Output)
        ensures
            r.spec_current() == *old(self),
    ;
}

impl<'a> MutView<'a> for Unit {
    type Output = Unit;

    proof fn lemma_mut_view_len() {
    }

    fn as_mut(&'a mut self) -> (r: Unit) {
        Unit
    }
}

impl<'a, First: 'a, Tail: MutView<'a> + 'a> MutView<'a> for Tuple<First, Tail> {
    type Output = Tuple<&'a mut First, Tail::Output>;

    proof fn lemma_mut_view_len() {
        Tail::lemma_mut_view_len();
    }

    fn as_mut(&'a mut self) -> (r: Tuple<&'a mut First, Tail::Output>) {
        Tuple(&mut self.0, self.1.as_mut())
    }
}

} // verus!
