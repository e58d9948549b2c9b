use vstd::prelude::*;
use vstd::std_specs::ops::BitOrSpecImpl;
use vstd::std_specs::ops::NotSpecImpl;
use vstd::std_specs::cmp::PartialOrdSpecImpl;
use core::cmp::Ordering;

verus! {

#[derive(Debug, Clone, Copy, PartialEq, Eq, Structural, Hash)]
/// How much focus has been taken
pub enum FocusTaken {
    /// No one has taken focus previously, continue
    FocusFree,
    /// Something took visual focus -> E.g. hovering over a button
    VisuallyTaken,
    /// Something took functional focus -> E.g. clicking a button
    FunctionallyTaken,
}

/// The rank of a focus level: free < visual < functional
pub open spec fn focus_rank(f: FocusTaken) -> int {
    match f {
        FocusTaken::FocusFree => 0,
        FocusTaken::VisuallyTaken => 1,
        FocusTaken::FunctionallyTaken => 2,
    }
}

/// Combining two focus levels keeps the stronger one
pub open spec fn focus_join(a: FocusTaken, b: FocusTaken) -> FocusTaken {
    if a == FocusTaken::FunctionallyTaken || b == FocusTaken::FunctionallyTaken {
        FocusTaken::FunctionallyTaken
    } else if a == FocusTaken::VisuallyTaken || b == FocusTaken::VisuallyTaken {
        FocusTaken::VisuallyTaken
    } else {
        FocusTaken::FocusFree
    }
}

/// The ordering of two focus levels by their rank
pub open spec fn focus_ordering(a: FocusTaken, b: FocusTaken) -> Ordering {
    if focus_rank(a) < focus_rank(b) {
        Ordering::Less
    } else if focus_rank(a) == focus_rank(b) {
        Ordering::Equal
    } else {
        Ordering::Greater
    }
}

impl FocusTaken {
    /// If the focus is not free
    pub fn is_focus_taken(self) -> (r: bool)
        ensures
            r == (self != FocusTaken::FocusFree),
    {
        self != FocusTaken::FocusFree
    }
}

impl core::ops::BitOr for FocusTaken {
    type Output = Self;

    fn bitor(self, rhs: Self) -> (r: Self::Output) {
        if self == FocusTaken::FunctionallyTaken || rhs == FocusTaken::FunctionallyTaken {
            FocusTaken::FunctionallyTaken
        } else if self == FocusTaken::VisuallyTaken || rhs == FocusTaken::VisuallyTaken {
            FocusTaken::VisuallyTaken
        } else {
            FocusTaken::FocusFree
        }
    }
}

impl BitOrSpecImpl for FocusTaken {
    open spec fn obeys_bitor_spec() -> bool {
        true
    }

    open spec fn bitor_req(self, rhs: Self) -> bool {
        true
    }

    open spec fn bitor_spec(self, rhs: Self) -> Self {
        focus_join(self, rhs)
    }
}

impl core::ops::Not for FocusTaken {
    type Output = bool;

    fn not(self) -> (r: Self::Output) {
        !self.is_focus_taken()
    }
}

impl NotSpecImpl for FocusTaken {
    open spec fn obeys_not_spec() -> bool {
        true
    }

    open spec fn not_req(self) -> bool {
        true
    }

    open spec fn not_spec(self) -> bool {
        self == FocusTaken::FocusFree
    }
}

impl core::cmp::PartialOrd for FocusTaken {
    fn partial_cmp(&self, other: &Self) -> (r: Option<Ordering>) {
        if *self == *other {
            Some(Ordering::Equal)
        } else if *self == FocusTaken::FocusFree {
            Some(Ordering::Less)
        } else if *self == FocusTaken::FunctionallyTaken || *other == FocusTaken::FocusFree {
            Some(Ordering::Greater)
        } else {
            Some(Ordering::Less)
        }
    }

    fn lt(&self, other: &Self) -> (r: bool) {
        match self {
            FocusTaken::FocusFree => *other != FocusTaken::FocusFree,
            FocusTaken::VisuallyTaken => *other == FocusTaken::FunctionallyTaken,
            FocusTaken::FunctionallyTaken => false,
        }
    }

    fn gt(&self, other: &Self) -> (r: bool) {
        match self {
            FocusTaken::FocusFree => false,
            FocusTaken::VisuallyTaken => *other == FocusTaken::FocusFree,
            FocusTaken::FunctionallyTaken => *other != FocusTaken::FunctionallyTaken,
        }
    }
}

impl PartialOrdSpecImpl for FocusTaken {
    open spec fn obeys_partial_cmp_spec() -> bool {
        true
    }

    open spec fn partial_cmp_spec(&self, other: &Self) -> Option<Ordering> {
        Some(focus_ordering(*self, *other))
    }
}

/// Combining focus levels is commutative, associative and idempotent, has
/// `FocusFree` as its neutral element and `FunctionallyTaken` as its absorbing
/// element, and always yields the stronger of the two levels.
pub proof fn lemma_focus_join_laws(a: FocusTaken, b: FocusTaken, c: FocusTaken)
    ensures
        focus_join(a, b) == focus_join(b, a),
        focus_join(focus_join(a, b), c) == focus_join(a, focus_join(b, c)),
        focus_join(a, a) == a,
        focus_join(a, FocusTaken::FocusFree) == a,
        focus_join(a, FocusTaken::FunctionallyTaken) == FocusTaken::FunctionallyTaken,
        focus_rank(focus_join(a, b)) == if focus_rank(a) >= focus_rank(b) {
            focus_rank(a)
        } else {
            focus_rank(b)
        },
{
}

/// The order on focus levels is total and agrees with the rank: a level is
/// below another exactly when its rank is smaller, and focus is taken exactly
/// when the level is above `FocusFree`.
pub proof fn lemma_focus_order_total(a: FocusTaken, b: FocusTaken)
    ensures
        focus_ordering(a, b) == Ordering::Equal <==> a == b,
        focus_ordering(a, b) == Ordering::Less <==> focus_ordering(b, a) == Ordering::Greater,
        (a != FocusTaken::FocusFree) <==> focus_ordering(FocusTaken::FocusFree, a) == Ordering::Less,
{
}

} // verus!
