use vstd::prelude::*;
use core::cmp::Ordering;
use vstd::std_specs::cmp::PartialOrdSpec;
use vstd::std_specs::convert::FromSpecImpl;

use crate::layout::{Dir, Side};

verus! {

/// A fixed alignment in the global coordinate space.
///
/// For horizontal alignment, start is globally left and for vertical alignment
/// it is globally top.
#[derive(Debug, Copy, Clone, Eq, PartialEq, Ord, Hash, Structural)]
pub enum FixedAlignment {
    Start,
    Center,
    End,
}

impl FixedAlignment {
    /// The inverse alignment: start and end swap, center stays.
    pub open spec fn inverted(self) -> FixedAlignment {
        match self {
            FixedAlignment::Start => FixedAlignment::End,
            FixedAlignment::Center => FixedAlignment::Center,
            FixedAlignment::End => FixedAlignment::Start,
        }
    }

    /// The inverse alignment.
    pub fn inv(self) -> (r: Self)
        ensures
            r == self.inverted(),
    {
        match self {
            Self::Start => Self::End,
            Self::Center => Self::Center,
            Self::End => Self::Start,
        }
    }
}

/// Fixed alignments are ordered as they are declared: start, center, end.
impl PartialOrd for FixedAlignment {
    fn partial_cmp(&self, other: &Self) -> (r: Option<Ordering>) {
        let a = self.rank();
        let b = other.rank();
        if a < b {
            Some(Ordering::Less)
        } else if a == b {
            Some(Ordering::Equal)
        } else {
            Some(Ordering::Greater)
        }
    }
}

impl vstd::std_specs::cmp::PartialOrdSpecImpl for FixedAlignment {
    open spec fn obeys_partial_cmp_spec() -> bool {
        true
    }

    open spec fn partial_cmp_spec(&self, other: &Self) -> Option<Ordering> {
        if self.order_rank() < other.order_rank() {
            Some(Ordering::Less)
        } else if self.order_rank() == other.order_rank() {
            Some(Ordering::Equal)
        } else {
            Some(Ordering::Greater)
        }
    }
}

impl FixedAlignment {
    /// The place of this alignment in the order start, center, end.
    pub open spec fn order_rank(self) -> nat {
        match self {
            FixedAlignment::Start => 0,
            FixedAlignment::Center => 1,
            FixedAlignment::End => 2,
        }
    }

    /// The place of this alignment in the order start, center, end.
    fn rank(&self) -> (r: u8)
        ensures
            r == self.order_rank(),
    {
        match self {
            Self::Start => 0,
            Self::Center => 1,
            Self::End => 2,
        }
    }
}

/// Inverting a fixed alignment reverses the order: `a` compares to `b` as
/// the inverse of `b` compares to the inverse of `a`.
pub proof fn lemma_inv_reverses_order(a: FixedAlignment, b: FixedAlignment)
    ensures
        a.inverted().inverted() == a,
        a.partial_cmp_spec(&b) == b.inverted().partial_cmp_spec(&a.inverted()),
        a.order_rank() <= b.order_rank() <==> b.inverted().order_rank()
            <= a.inverted().order_rank(),
{
}

/// The fixed alignment of a side: the left and top sides are at the start,
/// the right and bottom sides at the end.
pub open spec fn side_fixed(side: Side) -> FixedAlignment {
    match side {
        Side::Left | Side::Top => FixedAlignment::Start,
        Side::Right | Side::Bottom => FixedAlignment::End,
    }
}

impl From<Side> for FixedAlignment {
    fn from(side: Side) -> (r: Self) {
        match side {
            Side::Left => Self::Start,
            Side::Top => Self::Start,
            Side::Right => Self::End,
            Side::Bottom => Self::End,
        }
    }
}

impl FromSpecImpl<Side> for FixedAlignment {
    open spec fn obeys_from_spec() -> bool {
        true
    }

    open spec fn from_spec(side: Side) -> FixedAlignment {
        side_fixed(side)
    }
}

/// Alignment on this axis can be fixed to an absolute direction.
pub trait FixAlignment: Sized {
    /// The absolute alignment that this alignment resolves to under the text
    /// direction `dir`.
    spec fn fixed(self, dir: Dir) -> FixedAlignment;

    /// Resolve to the absolute alignment.
    fn fix(self, dir: Dir) -> (r: FixedAlignment)
        ensures
            r == self.fixed(dir),
    ;
}

} // verus!
