use vstd::prelude::*;

verus! {

/// A value that can be duplicated exactly: the copy is equal, as a
/// mathematical value, to the original. Candidate values and costs must
/// offer this so that the search drivers can keep a current and a best
/// solution apart without changing either.
pub trait ExactClone: Sized {
    fn exact_clone(&self) -> (r: Self)
        ensures
            r == *self,
    ;
}

/// A cost that solutions are compared by. `lt_spec` is the strict order
/// ("strictly better"), `lt` its executable form, and `rank` an embedding
/// into the naturals that witnesses that the order is well founded: a
/// search that strictly improves its cost at every step can only take
/// finitely many steps.
pub trait OrderedCost: Sized {
    /// `self` is strictly better (strictly smaller) than `other`.
    spec fn lt_spec(&self, other: &Self) -> bool;

    /// Position of this cost in a descent towards the best possible cost.
    spec fn rank(&self) -> nat;

    /// The strict order never admits an infinite descent: whatever is
    /// strictly better sits strictly lower in the ranking.
    proof fn lemma_lt_well_founded(&self, other: &Self)
        requires
            self.lt_spec(other),
        ensures
            self.rank() < other.rank(),
    ;

    fn lt(&self, other: &Self) -> (r: bool)
        ensures
            r == self.lt_spec(other),
    ;
}

impl ExactClone for u8 {
    fn exact_clone(&self) -> (r: Self) {
        *self
    }
}

impl ExactClone for u16 {
    fn exact_clone(&self) -> (r: Self) {
        *self
    }
}

impl ExactClone for u32 {
    fn exact_clone(&self) -> (r: Self) {
        *self
    }
}

impl ExactClone for u64 {
    fn exact_clone(&self) -> (r: Self) {
        *self
    }
}

impl ExactClone for usize {
    fn exact_clone(&self) -> (r: Self) {
        *self
    }
}

impl ExactClone for i8 {
    fn exact_clone(&self) -> (r: Self) {
        *self
    }
}

impl ExactClone for i16 {
    fn exact_clone(&self) -> (r: Self) {
        *self
    }
}

impl ExactClone for i32 {
    fn exact_clone(&self) -> (r: Self) {
        *self
    }
}

impl ExactClone for i64 {
    fn exact_clone(&self) -> (r: Self) {
        *self
    }
}

impl ExactClone for isize {
    fn exact_clone(&self) -> (r: Self) {
        *self
    }
}

impl OrderedCost for u8 {
    open spec fn lt_spec(&self, other: &Self) -> bool {
        *self < *other
    }

    open spec fn rank(&self) -> nat {
        *self as nat
    }

    proof fn lemma_lt_well_founded(&self, other: &Self) {
    }

    fn lt(&self, other: &Self) -> (r: bool) {
        *self < *other
    }
}

impl OrderedCost for u16 {
    open spec fn lt_spec(&self, other: &Self) -> bool {
        *self < *other
    }

    open spec fn rank(&self) -> nat {
        *self as nat
    }

    proof fn lemma_lt_well_founded(&self, other: &Self) {
    }

    fn lt(&self, other: &Self) -> (r: bool) {
        *self < *other
    }
}

impl OrderedCost for u32 {
    open spec fn lt_spec(&self, other: &Self) -> bool {
        *self < *other
    }

    open spec fn rank(&self) -> nat {
        *self as nat
    }

    proof fn lemma_lt_well_founded(&self, other: &Self) {
    }

    fn lt(&self, other: &Self) -> (r: bool) {
        *self < *other
    }
}

impl OrderedCost for u64 {
    open spec fn lt_spec(&self, other: &Self) -> bool {
        *self < *other
    }

    open spec fn rank(&self) -> nat {
        *self as nat
    }

    proof fn lemma_lt_well_founded(&self, other: &Self) {
    }

    fn lt(&self, other: &Self) -> (r: bool) {
        *self < *other
    }
}

impl OrderedCost for usize {
    open spec fn lt_spec(&self, other: &Self) -> bool {
        *self < *other
    }

    open spec fn rank(&self) -> nat {
        *self as nat
    }

    proof fn lemma_lt_well_founded(&self, other: &Self) {
    }

    fn lt(&self, other: &Self) -> (r: bool) {
        *self < *other
    }
}

impl OrderedCost for i8 {
    open spec fn lt_spec(&self, other: &Self) -> bool {
        *self < *other
    }

    open spec fn rank(&self) -> nat {
        (*self as int - i8::MIN as int) as nat
    }

    proof fn lemma_lt_well_founded(&self, other: &Self) {
    }

    fn lt(&self, other: &Self) -> (r: bool) {
        *self < *other
    }
}

impl OrderedCost for i16 {
    open spec fn lt_spec(&self, other: &Self) -> bool {
        *self < *other
    }

    open spec fn rank(&self) -> nat {
        (*self as int - i16::MIN as int) as nat
    }

    proof fn lemma_lt_well_founded(&self, other: &Self) {
    }

    fn lt(&self, other: &Self) -> (r: bool) {
        *self < *other
    }
}

impl OrderedCost for i32 {
    open spec fn lt_spec(&self, other: &Self) -> bool {
        *self < *other
    }

    open spec fn rank(&self) -> nat {
        (*self as int - i32::MIN as int) as nat
    }

    proof fn lemma_lt_well_founded(&self, other: &Self) {
    }

    fn lt(&self, other: &Self) -> (r: bool) {
        *self < *other
    }
}

impl OrderedCost for i64 {
    open spec fn lt_spec(&self, other: &Self) -> bool {
        *self < *other
    }

    open spec fn rank(&self) -> nat {
        (*self as int - i64::MIN as int) as nat
    }

    proof fn lemma_lt_well_founded(&self, other: &Self) {
    }

    fn lt(&self, other: &Self) -> (r: bool) {
        *self < *other
    }
}

impl OrderedCost for isize {
    open spec fn lt_spec(&self, other: &Self) -> bool {
        *self < *other
    }

    open spec fn rank(&self) -> nat {
        (*self as int - isize::MIN as int) as nat
    }

    proof fn lemma_lt_well_founded(&self, other: &Self) {
    }

    fn lt(&self, other: &Self) -> (r: bool) {
        *self < *other
    }
}

} // verus!
