//! Compile-time bounds on a tuple's length, usable as generic constraints.
//!
//! A bound such as `T: TupleLenGe<2>` is checked entirely by the compiler: a
//! call with a too-short tuple does not type-check, so no runtime check is
//! ever made. Each trait also carries a proof obligation, so verified
//! generic code can call the trait's lemma to learn the bound on
//! [`TupleY::spec_len`] that the constraint certifies.
//!
//! The traits are implemented by enumeration, one impl per tuple shape and
//! bound value, for every arity and bound up to six; a longer tuple or a
//! larger bound is outside the scope of these constraints. [`TupleLenRange`]
//! is compositional: it holds wherever [`TupleLenGe`] of the lower bound and
//! [`TupleLenLt`] of the upper bound hold.

use crate::tuple::{Tuple, TupleY, Unit};
use vstd::prelude::*;

verus! {

/// Satisfied when the tuple's length equals `LEN`.
pub trait TupleLenEq<const LEN: usize>: TupleY {
    /// The fact a `TupleLenEq<LEN>` bound certifies.
    proof fn lemma_len_eq()
        ensures
            Self::spec_len() == LEN,
    ;
}

/// Satisfied when the tuple's length is at least `LEN`.
pub trait TupleLenGe<const LEN: usize>: TupleY {
    /// The fact a `TupleLenGe<LEN>` bound certifies.
    proof fn lemma_len_ge()
        ensures
            Self::spec_len() >= LEN,
    ;
}

/// Satisfied when the tuple's length is greater than `LEN`.
pub trait TupleLenGt<const LEN: usize>: TupleY {
    /// The fact a `TupleLenGt<LEN>` bound certifies.
    proof fn lemma_len_gt()
        ensures
            Self::spec_len() > LEN,
    ;
}

/// Satisfied when the tuple's length is at most `LEN`.
pub trait TupleLenLe<const LEN: usize>: TupleY {
    /// The fact a `TupleLenLe<LEN>` bound certifies.
    proof fn lemma_len_le()
        ensures
            Self::spec_len() <= LEN,
    ;
}

/// Satisfied when the tuple's length is less than `LEN`.
pub trait TupleLenLt<const LEN: usize>: TupleY {
    /// The fact a `TupleLenLt<LEN>` bound certifies.
    proof fn lemma_len_lt()
        ensures
            Self::spec_len() < LEN,
    ;
}

/// Satisfied when the tuple's length `L` has `LEFT <= L < RIGHT`; holds
/// wherever `TupleLenGe<LEFT>` and `TupleLenLt<RIGHT>` hold.
pub trait TupleLenRange<const LEFT: usize, const RIGHT: usize>: TupleY {
    /// The facts a `TupleLenRange<LEFT, RIGHT>` bound certifies.
    proof fn lemma_len_range()
        ensures
            Self::spec_len() >= LEFT,
            Self::spec_len() < RIGHT,
    ;
}

impl<T, const LEFT: usize, const RIGHT: usize> TupleLenRange<LEFT, RIGHT> for T where
    T: TupleLenGe<LEFT> + TupleLenLt<RIGHT>,
 {
    proof fn lemma_len_range() {
        Self::lemma_len_ge();
        Self::lemma_len_lt();
    }
}

impl TupleLenEq<0> for Unit {
    proof fn lemma_len_eq() {
    }
}

impl<E0> TupleLenEq<1> for Tuple<E0, Unit> {
    proof fn lemma_len_eq() {
    }
}

impl<E0, E1> TupleLenEq<2> for Tuple<E0, Tuple<E1, Unit>> {
    proof fn lemma_len_eq() {
    }
}

impl<E0, E1, E2> TupleLenEq<3> for Tuple<E0, Tuple<E1, Tuple<E2, Unit>>> {
    proof fn lemma_len_eq() {
    }
}

impl<E0, E1, E2, E3> TupleLenEq<4> for Tuple<E0, Tuple<E1, Tuple<E2, Tuple<E3, Unit>>>> {
    proof fn lemma_len_eq() {
    }
}

impl<E0, E1, E2, E3, E4> TupleLenEq<5> for Tuple<E0, Tuple<E1, Tuple<E2, Tuple<E3, Tuple<E4, Unit>>>>> {
    proof fn lemma_len_eq() {
    }
}

impl<E0, E1, E2, E3, E4, E5> TupleLenEq<6> for Tuple<E0, Tuple<E1, Tuple<E2, Tuple<E3, Tuple<E4, Tuple<E5, Unit>>>>>> {
    proof fn lemma_len_eq() {
    }
}

impl TupleLenGe<0> for Unit {
    proof fn lemma_len_ge() {
    }
}

impl<E0> TupleLenGe<0> for Tuple<E0, Unit> {
    proof fn lemma_len_ge() {
    }
}

impl<E0> TupleLenGe<1> for Tuple<E0, Unit> {
    proof fn lemma_len_ge() {
    }
}

impl<E0, E1> TupleLenGe<0> for Tuple<E0, Tuple<E1, Unit>> {
    proof fn lemma_len_ge() {
    }
}

impl<E0, E1> TupleLenGe<1> for Tuple<E0, Tuple<E1, Unit>> {
    proof fn lemma_len_ge() {
    }
}

impl<E0, E1> TupleLenGe<2> for Tuple<E0, Tuple<E1, Unit>> {
    proof fn lemma_len_ge() {
    }
}

impl<E0, E1, E2> TupleLenGe<0> for Tuple<E0, Tuple<E1, Tuple<E2, Unit>>> {
    proof fn lemma_len_ge() {
    }
}

impl<E0, E1, E2> TupleLenGe<1> for Tuple<E0, Tuple<E1, Tuple<E2, Unit>>> {
    proof fn lemma_len_ge() {
    }
}

impl<E0, E1, E2> TupleLenGe<2> for Tuple<E0, Tuple<E1, Tuple<E2, Unit>>> {
    proof fn lemma_len_ge() {
    }
}

impl<E0, E1, E2> TupleLenGe<3> for Tuple<E0, Tuple<E1, Tuple<E2, Unit>>> {
    proof fn lemma_len_ge() {
    }
}

impl<E0, E1, E2, E3> TupleLenGe<0> for Tuple<E0, Tuple<E1, Tuple<E2, Tuple<E3, Unit>>>> {
    proof fn lemma_len_ge() {
    }
}

impl<E0, E1, E2, E3> TupleLenGe<1> for Tuple<E0, Tuple<E1, Tuple<E2, Tuple<E3, Unit>>>> {
    proof fn lemma_len_ge() {
    }
}

impl<E0, E1, E2, E3> TupleLenGe<2> for Tuple<E0, Tuple<E1, Tuple<E2, Tuple<E3, Unit>>>> {
    proof fn lemma_len_ge() {
    }
}

impl<E0, E1, E2, E3> TupleLenGe<3> for Tuple<E0, Tuple<E1, Tuple<E2, Tuple<E3, Unit>>>> {
    proof fn lemma_len_ge() {
    }
}

impl<E0, E1, E2, E3> TupleLenGe<4> for Tuple<E0, Tuple<E1, Tuple<E2, Tuple<E3, Unit>>>> {
    proof fn lemma_len_ge() {
    }
}

impl<E0, E1, E2, E3, E4> TupleLenGe<0> for Tuple<E0, Tuple<E1, Tuple<E2, Tuple<E3, Tuple<E4, Unit>>>>> {
    proof fn lemma_len_ge() {
    }
}

impl<E0, E1, E2, E3, E4> TupleLenGe<1> for Tuple<E0, Tuple<E1, Tuple<E2, Tuple<E3, Tuple<E4, Unit>>>>> {
    proof fn lemma_len_ge() {
    }
}

impl<E0, E1, E2, E3, E4> TupleLenGe<2> for Tuple<E0, Tuple<E1, Tuple<E2, Tuple<E3, Tuple<E4, Unit>>>>> {
    proof fn lemma_len_ge() {
    }
}

impl<E0, E1, E2, E3, E4> TupleLenGe<3> for Tuple<E0, Tuple<E1, Tuple<E2, Tuple<E3, Tuple<E4, Unit>>>>> {
    proof fn lemma_len_ge() {
    }
}

impl<E0, E1, E2, E3, E4> TupleLenGe<4> for Tuple<E0, Tuple<E1, Tuple<E2, Tuple<E3, Tuple<E4, Unit>>>>> {
    proof fn lemma_len_ge() {
    }
}

impl<E0, E1, E2, E3, E4> TupleLenGe<5> for Tuple<E0, Tuple<E1, Tuple<E2, Tuple<E3, Tuple<E4, Unit>>>>> {
    proof fn lemma_len_ge() {
    }
}

impl<E0, E1, E2, E3, E4, E5> TupleLenGe<0> for Tuple<E0, Tuple<E1, Tuple<E2, Tuple<E3, Tuple<E4, Tuple<E5, Unit>>>>>> {
    proof fn lemma_len_ge() {
    }
}

impl<E0, E1, E2, E3, E4, E5> TupleLenGe<1> for Tuple<E0, Tuple<E1, Tuple<E2, Tuple<E3, Tuple<E4, Tuple<E5, Unit>>>>>> {
    proof fn lemma_len_ge() {
    }
}

impl<E0, E1, E2, E3, E4, E5> TupleLenGe<2> for Tuple<E0, Tuple<E1, Tuple<E2, Tuple<E3, Tuple<E4, Tuple<E5, Unit>>>>>> {
    proof fn lemma_len_ge() {
    }
}

impl<E0, E1, E2, E3, E4, E5> TupleLenGe<3> for Tuple<E0, Tuple<E1, Tuple<E2, Tuple<E3, Tuple<E4, Tuple<E5, Unit>>>>>> {
    proof fn lemma_len_ge() {
    }
}

impl<E0, E1, E2, E3, E4, E5> TupleLenGe<4> for Tuple<E0, Tuple<E1, Tuple<E2, Tuple<E3, Tuple<E4, Tuple<E5, Unit>>>>>> {
    proof fn lemma_len_ge() {
    }
}

impl<E0, E1, E2, E3, E4, E5> TupleLenGe<5> for Tuple<E0, Tuple<E1, Tuple<E2, Tuple<E3, Tuple<E4, Tuple<E5, Unit>>>>>> {
    proof fn lemma_len_ge() {
    }
}

impl<E0, E1, E2, E3, E4, E5> TupleLenGe<6> for Tuple<E0, Tuple<E1, Tuple<E2, Tuple<E3, Tuple<E4, Tuple<E5, Unit>>>>>> {
    proof fn lemma_len_ge() {
    }
}

impl<E0> TupleLenGt<0> for Tuple<E0, Unit> {
    proof fn lemma_len_gt() {
    }
}

impl<E0, E1> TupleLenGt<0> for Tuple<E0, Tuple<E1, Unit>> {
    proof fn lemma_len_gt() {
    }
}

impl<E0, E1> TupleLenGt<1> for Tuple<E0, Tuple<E1, Unit>> {
    proof fn lemma_len_gt() {
    }
}

impl<E0, E1, E2> TupleLenGt<0> for Tuple<E0, Tuple<E1, Tuple<E2, Unit>>> {
    proof fn lemma_len_gt() {
    }
}

impl<E0, E1, E2> TupleLenGt<1> for Tuple<E0, Tuple<E1, Tuple<E2, Unit>>> {
    proof fn lemma_len_gt() {
    }
}

impl<E0, E1, E2> TupleLenGt<2> for Tuple<E0, Tuple<E1, Tuple<E2, Unit>>> {
    proof fn lemma_len_gt() {
    }
}

impl<E0, E1, E2, E3> TupleLenGt<0> for Tuple<E0, Tuple<E1, Tuple<E2, Tuple<E3, Unit>>>> {
    proof fn lemma_len_gt() {
    }
}

impl<E0, E1, E2, E3> TupleLenGt<1> for Tuple<E0, Tuple<E1, Tuple<E2, Tuple<E3, Unit>>>> {
    proof fn lemma_len_gt() {
    }
}

impl<E0, E1, E2, E3> TupleLenGt<2> for Tuple<E0, Tuple<E1, Tuple<E2, Tuple<E3, Unit>>>> {
    proof fn lemma_len_gt() {
    }
}

impl<E0, E1, E2, E3> TupleLenGt<3> for Tuple<E0, Tuple<E1, Tuple<E2, Tuple<E3, Unit>>>> {
    proof fn lemma_len_gt() {
    }
}

impl<E0, E1, E2, E3, E4> TupleLenGt<0> for Tuple<E0, Tuple<E1, Tuple<E2, Tuple<E3, Tuple<E4, Unit>>>>> {
    proof fn lemma_len_gt() {
    }
}

impl<E0, E1, E2, E3, E4> TupleLenGt<1> for Tuple<E0, Tuple<E1, Tuple<E2, Tuple<E3, Tuple<E4, Unit>>>>> {
    proof fn lemma_len_gt() {
    }
}

impl<E0, E1, E2, E3, E4> TupleLenGt<2> for Tuple<E0, Tuple<E1, Tuple<E2, Tuple<E3, Tuple<E4, Unit>>>>> {
    proof fn lemma_len_gt() {
    }
}

impl<E0, E1, E2, E3, E4> TupleLenGt<3> for Tuple<E0, Tuple<E1, Tuple<E2, Tuple<E3, Tuple<E4, Unit>>>>> {
    proof fn lemma_len_gt() {
    }
}

impl<E0, E1, E2, E3, E4> TupleLenGt<4> for Tuple<E0, Tuple<E1, Tuple<E2, Tuple<E3, Tuple<E4, Unit>>>>> {
    proof fn lemma_len_gt() {
    }
}

impl<E0, E1, E2, E3, E4, E5> TupleLenGt<0> for Tuple<E0, Tuple<E1, Tuple<E2, Tuple<E3, Tuple<E4, Tuple<E5, Unit>>>>>> {
    proof fn lemma_len_gt() {
    }
}

impl<E0, E1, E2, E3, E4, E5> TupleLenGt<1> for Tuple<E0, Tuple<E1, Tuple<E2, Tuple<E3, Tuple<E4, Tuple<E5, Unit>>>>>> {
    proof fn lemma_len_gt() {
    }
}

impl<E0, E1, E2, E3, E4, E5> TupleLenGt<2> for Tuple<E0, Tuple<E1, Tuple<E2, Tuple<E3, Tuple<E4, Tuple<E5, Unit>>>>>> {
    proof fn lemma_len_gt() {
    }
}

impl<E0, E1, E2, E3, E4, E5> TupleLenGt<3> for Tuple<E0, Tuple<E1, Tuple<E2, Tuple<E3, Tuple<E4, Tuple<E5, Unit>>>>>> {
    proof fn lemma_len_gt() {
    }
}

impl<E0, E1, E2, E3, E4, E5> TupleLenGt<4> for Tuple<E0, Tuple<E1, Tuple<E2, Tuple<E3, Tuple<E4, Tuple<E5, Unit>>>>>> {
    proof fn lemma_len_gt() {
    }
}

impl<E0, E1, E2, E3, E4, E5> TupleLenGt<5> for Tuple<E0, Tuple<E1, Tuple<E2, Tuple<E3, Tuple<E4, Tuple<E5, Unit>>>>>> {
    proof fn lemma_len_gt() {
    }
}

impl TupleLenLe<0> for Unit {
    proof fn lemma_len_le() {
    }
}

impl TupleLenLe<1> for Unit {
    proof fn lemma_len_le() {
    }
}

impl TupleLenLe<2> for Unit {
    proof fn lemma_len_le() {
    }
}

impl TupleLenLe<3> for Unit {
    proof fn lemma_len_le() {
    }
}

impl TupleLenLe<4> for Unit {
    proof fn lemma_len_le() {
    }
}

impl TupleLenLe<5> for Unit {
    proof fn lemma_len_le() {
    }
}

impl TupleLenLe<6> for Unit {
    proof fn lemma_len_le() {
    }
}

impl<E0> TupleLenLe<1> for Tuple<E0, Unit> {
    proof fn lemma_len_le() {
    }
}

impl<E0> TupleLenLe<2> for Tuple<E0, Unit> {
    proof fn lemma_len_le() {
    }
}

impl<E0> TupleLenLe<3> for Tuple<E0, Unit> {
    proof fn lemma_len_le() {
    }
}

impl<E0> TupleLenLe<4> for Tuple<E0, Unit> {
    proof fn lemma_len_le() {
    }
}

impl<E0> TupleLenLe<5> for Tuple<E0, Unit> {
    proof fn lemma_len_le() {
    }
}

impl<E0> TupleLenLe<6> for Tuple<E0, Unit> {
    proof fn lemma_len_le() {
    }
}

impl<E0, E1> TupleLenLe<2> for Tuple<E0, Tuple<E1, Unit>> {
    proof fn lemma_len_le() {
    }
}

impl<E0, E1> TupleLenLe<3> for Tuple<E0, Tuple<E1, Unit>> {
    proof fn lemma_len_le() {
    }
}

impl<E0, E1> TupleLenLe<4> for Tuple<E0, Tuple<E1, Unit>> {
    proof fn lemma_len_le() {
    }
}

impl<E0, E1> TupleLenLe<5> for Tuple<E0, Tuple<E1, Unit>> {
    proof fn lemma_len_le() {
    }
}

impl<E0, E1> TupleLenLe<6> for Tuple<E0, Tuple<E1, Unit>> {
    proof fn lemma_len_le() {
    }
}

impl<E0, E1, E2> TupleLenLe<3> for Tuple<E0, Tuple<E1, Tuple<E2, Unit>>> {
    proof fn lemma_len_le() {
    }
}

impl<E0, E1, E2> TupleLenLe<4> for Tuple<E0, Tuple<E1, Tuple<E2, Unit>>> {
    proof fn lemma_len_le() {
    }
}

impl<E0, E1, E2> TupleLenLe<5> for Tuple<E0, Tuple<E1, Tuple<E2, Unit>>> {
    proof fn lemma_len_le() {
    }
}

impl<E0, E1, E2> TupleLenLe<6> for Tuple<E0, Tuple<E1, Tuple<E2, Unit>>> {
    proof fn lemma_len_le() {
    }
}

impl<E0, E1, E2, E3> TupleLenLe<4> for Tuple<E0, Tuple<E1, Tuple<E2, Tuple<E3, Unit>>>> {
    proof fn lemma_len_le() {
    }
}

impl<E0, E1, E2, E3> TupleLenLe<5> for Tuple<E0, Tuple<E1, Tuple<E2, Tuple<E3, Unit>>>> {
    proof fn lemma_len_le() {
    }
}

impl<E0, E1, E2, E3> TupleLenLe<6> for Tuple<E0, Tuple<E1, Tuple<E2, Tuple<E3, Unit>>>> {
    proof fn lemma_len_le() {
    }
}

impl<E0, E1, E2, E3, E4> TupleLenLe<5> for Tuple<E0, Tuple<E1, Tuple<E2, Tuple<E3, Tuple<E4, Unit>>>>> {
    proof fn lemma_len_le() {
    }
}

impl<E0, E1, E2, E3, E4> TupleLenLe<6> for Tuple<E0, Tuple<E1, Tuple<E2, Tuple<E3, Tuple<E4, Unit>>>>> {
    proof fn lemma_len_le() {
    }
}

impl<E0, E1, E2, E3, E4, E5> TupleLenLe<6> for Tuple<E0, Tuple<E1, Tuple<E2, Tuple<E3, Tuple<E4, Tuple<E5, Unit>>>>>> {
    proof fn lemma_len_le() {
    }
}

impl TupleLenLt<1> for Unit {
    proof fn lemma_len_lt() {
    }
}

impl TupleLenLt<2> for Unit {
    proof fn lemma_len_lt() {
    }
}

impl TupleLenLt<3> for Unit {
    proof fn lemma_len_lt() {
    }
}

impl TupleLenLt<4> for Unit {
    proof fn lemma_len_lt() {
    }
}

impl TupleLenLt<5> for Unit {
    proof fn lemma_len_lt() {
    }
}

impl TupleLenLt<6> for Unit {
    proof fn lemma_len_lt() {
    }
}

impl<E0> TupleLenLt<2> for Tuple<E0, Unit> {
    proof fn lemma_len_lt() {
    }
}

impl<E0> TupleLenLt<3> for Tuple<E0, Unit> {
    proof fn lemma_len_lt() {
    }
}

impl<E0> TupleLenLt<4> for Tuple<E0, Unit> {
    proof fn lemma_len_lt() {
    }
}

impl<E0> TupleLenLt<5> for Tuple<E0, Unit> {
    proof fn lemma_len_lt() {
    }
}

impl<E0> TupleLenLt<6> for Tuple<E0, Unit> {
    proof fn lemma_len_lt() {
    }
}

impl<E0, E1> TupleLenLt<3> for Tuple<E0, Tuple<E1, Unit>> {
    proof fn lemma_len_lt() {
    }
}

impl<E0, E1> TupleLenLt<4> for Tuple<E0, Tuple<E1, Unit>> {
    proof fn lemma_len_lt() {
    }
}

impl<E0, E1> TupleLenLt<5> for Tuple<E0, Tuple<E1, Unit>> {
    proof fn lemma_len_lt() {
    }
}

impl<E0, E1> TupleLenLt<6> for Tuple<E0, Tuple<E1, Unit>> {
    proof fn lemma_len_lt() {
    }
}

impl<E0, E1, E2> TupleLenLt<4> for Tuple<E0, Tuple<E1, Tuple<E2, Unit>>> {
    proof fn lemma_len_lt() {
    }
}

impl<E0, E1, E2> TupleLenLt<5> for Tuple<E0, Tuple<E1, Tuple<E2, Unit>>> {
    proof fn lemma_len_lt() {
    }
}

impl<E0, E1, E2> TupleLenLt<6> for Tuple<E0, Tuple<E1, Tuple<E2, Unit>>> {
    proof fn lemma_len_lt() {
    }
}

impl<E0, E1, E2, E3> TupleLenLt<5> for Tuple<E0, Tuple<E1, Tuple<E2, Tuple<E3, Unit>>>> {
    proof fn lemma_len_lt() {
    }
}

impl<E0, E1, E2, E3> TupleLenLt<6> for Tuple<E0, Tuple<E1, Tuple<E2, Tuple<E3, Unit>>>> {
    proof fn lemma_len_lt() {
    }
}

impl<E0, E1, E2, E3, E4> TupleLenLt<6> for Tuple<E0, Tuple<E1, Tuple<E2, Tuple<E3, Tuple<E4, Unit>>>>> {
    proof fn lemma_len_lt() {
    }
}

} // verus!
