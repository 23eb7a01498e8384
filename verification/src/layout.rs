use vstd::prelude::*;

verus! {

/// The four directions into which content can be laid out.
#[derive(Debug, Copy, Clone, PartialEq, Eq, Hash, Structural)]
pub enum Dir {
    /// Left to right.
    LTR,
    /// Right to left.
    RTL,
    /// Top to bottom.
    TTB,
    /// Bottom to top.
    BTT,
}

impl Dir {
    /// Whether this direction points into the positive coordinate direction
    /// (rightwards or downwards).
    pub open spec fn positive(self) -> bool {
        self is LTR || self is TTB
    }

    /// Whether this direction points into the positive coordinate direction.
    pub fn is_positive(self) -> (r: bool)
        ensures
            r == self.positive(),
    {
        match self {
            Dir::LTR | Dir::TTB => true,
            Dir::RTL | Dir::BTT => false,
        }
    }
}

/// The two layouting axes.
#[derive(Debug, Copy, Clone, PartialEq, Eq, Hash, Structural)]
pub enum Axis {
    /// The horizontal axis.
    X,
    /// The vertical axis.
    Y,
}

/// A container with a horizontal and vertical component.
#[derive(Debug, Copy, Clone, PartialEq, Eq, Hash)]
pub struct Axes<T> {
    /// The horizontal component.
    pub x: T,
    /// The vertical component.
    pub y: T,
}

impl<T> Axes<T> {
    /// Create a new instance from the two components.
    pub fn new(x: T, y: T) -> (r: Self)
        ensures
            r.x == x,
            r.y == y,
    {
        Axes { x, y }
    }
}

/// The four sides of objects.
#[derive(Debug, Copy, Clone, PartialEq, Eq, Hash, Structural)]
pub enum Side {
    /// The left side.
    Left,
    /// The top side.
    Top,
    /// The right side.
    Right,
    /// The bottom side.
    Bottom,
}

} // verus!
