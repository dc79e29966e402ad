//! The recursive tuple representation and its core trait.

use vstd::prelude::*;

verus! {

/// A non-empty heterogeneous tuple: a head value of type `First` followed by
/// a tail tuple of type `Tail`. Nesting `Tuple` cells, innermost `Unit`,
/// builds a tuple of any arity with per-position element types.
#[derive(Debug, Default, Clone, Copy, PartialEq, Eq, PartialOrd, Ord, Hash)]
pub struct Tuple<First, Tail>(pub First, pub Tail);

/// The empty tuple, the unique base case of the recursive structure.
#[derive(Debug, Default, Clone, Copy, PartialEq, Eq, PartialOrd, Ord, Hash)]
pub struct Unit;

/// Implemented by every tuple type: [`Unit`] and every nesting of [`Tuple`].
///
/// The length of a tuple is a property of its type alone: [`Unit`] has
/// length zero, and a [`Tuple`] cell is one longer than its tail.
pub trait TupleY: Sized {
    /// The number of elements, derived structurally from the type.
    spec fn spec_len() -> nat;

    /// Returns the number of elements.
    fn len(&self) -> (n: usize)
        requires
            Self::spec_len() <= usize::MAX,
        ensures
            n == Self::spec_len(),
    ;

    /// Returns whether the tuple has no elements.
    fn is_empty(&self) -> (b: bool)
        ensures
            b == (Self::spec_len() == 0),
    ;

    /// Prepends `value`, wrapping the whole tuple as the tail of a new cell:
    /// the prepended value becomes the first element and the original
    /// elements keep their order.
    fn push_front<T>(self, value: T) -> (r: Tuple<T, Self>)
        ensures
            r == (Tuple(value, self)),
    {
        Tuple(value, self)
    }
}

impl TupleY for Unit {
    open spec fn spec_len() -> nat {
        0
    }

    fn len(&self) -> (n: usize) {
        0
    }

    fn is_empty(&self) -> (b: bool) {
        true
    }
}

impl<First, Tail: TupleY> TupleY for Tuple<First, Tail> {
    open spec fn spec_len() -> nat {
        Tail::spec_len() + 1
    }

    fn len(&self) -> (n: usize) {
        self.1.len() + 1
    }

    fn is_empty(&self) -> (b: bool) {
        false
    }
}

/// Implemented exactly by the tuple types with at least one element.
pub trait NonEmptyTuple: TupleY {
    /// A non-empty tuple has a positive length.
    proof fn lemma_non_empty()
        ensures
            Self::spec_len() > 0,
    ;
}

/// Implemented exactly by the tuple types with no elements.
pub trait EmptyTuple: TupleY {
    /// An empty tuple has length zero.
    proof fn lemma_empty()
        ensures
            Self::spec_len() == 0,
    ;
}

impl<First, Tail: TupleY> NonEmptyTuple for Tuple<First, Tail> {
    proof fn lemma_non_empty() {
    }
}

impl EmptyTuple for Unit {
    proof fn lemma_empty() {
    }
}

} // verus!
