use vstd::prelude::*;

use crate::order::Cmp;
use crate::order::cmp_flip;

verus! {

/// An entry of a cursor-bearing sorted list: it carries a total preorder
/// (two distinct entries may compare `Equal`) and says whether the cursor
/// may rest on it.
pub trait Listable: Sized {
    /// The order the list keeps its entries in.
    spec fn cmp_spec(self, other: Self) -> Cmp;

    /// Whether the cursor may name this entry.
    spec fn selectable(self) -> bool;

    /// Swapping the arguments flips the comparison.
    proof fn cmp_flip_law(a: Self, b: Self)
        ensures
            Self::cmp_spec(b, a) == cmp_flip(Self::cmp_spec(a, b)),
    ;

    /// The non-strict order is transitive.
    proof fn cmp_trans_law(a: Self, b: Self, c: Self)
        requires
            !(Self::cmp_spec(a, b) is Greater),
            !(Self::cmp_spec(b, c) is Greater),
        ensures
            !(Self::cmp_spec(a, c) is Greater),
    ;

    /// Entries that compare `Equal` compare alike against everything else.
    proof fn cmp_congruence_law(a: Self, b: Self, c: Self)
        requires
            Self::cmp_spec(a, b) is Equal,
        ensures
            Self::cmp_spec(a, c) == Self::cmp_spec(b, c),
    ;

    fn compare(&self, other: &Self) -> (c: Cmp)
        ensures
            c == Self::cmp_spec(*self, *other),
    ;

    fn is_selectable(&self) -> (b: bool)
        ensures
            b == self.selectable(),
    ;

    fn duplicate(&self) -> (r: Self)
        ensures
            r == *self,
    ;
}

/// Non-strict "sorts no later than".
pub open spec fn le<T: Listable>(a: T, b: T) -> bool {
    !(T::cmp_spec(a, b) is Greater)
}

/// Entries that the order cannot tell apart.
pub open spec fn eqv<T: Listable>(a: T, b: T) -> bool {
    T::cmp_spec(a, b) is Equal
}

} // verus!
