use vstd::prelude::*;
use vstd::std_specs::convert::FromSpecImpl;
use vstd::std_specs::ops::AddSpecImpl;
use ecow::EcoString;

use crate::eco::{eco_as_str, eco_chars, eco_len_limit, eco_push_str};
use crate::error::AlignmentError;
use crate::fixed::{FixAlignment, FixedAlignment};
use crate::horizontal::HAlignment;
use crate::layout::{Axes, Axis, Dir, Side};
use crate::vertical::VAlignment;

verus! {

/// Where to align something along an axis, or along both.
///
/// An alignment is horizontal (`start`, `left`, `center`, `right`, `end`),
/// vertical (`top`, `horizon`, `bottom`), or two-dimensional, the sum of one
/// of each, such as `top + right`.
#[derive(Debug, Copy, Clone, Eq, PartialEq, Hash, Structural)]
pub enum Alignment {
    H(HAlignment),
    V(VAlignment),
    Both(HAlignment, VAlignment),
}

impl Alignment {
    /// The horizontal component, if there is one.
    pub open spec fn horizontal(self) -> Option<HAlignment> {
        match self {
            Alignment::H(h) => Some(h),
            Alignment::V(_) => None,
            Alignment::Both(h, _) => Some(h),
        }
    }

    /// The vertical component, if there is one.
    pub open spec fn vertical(self) -> Option<VAlignment> {
        match self {
            Alignment::H(_) => None,
            Alignment::V(v) => Some(v),
            Alignment::Both(_, v) => Some(v),
        }
    }

    /// The horizontal component.
    pub fn x(self) -> (r: Option<HAlignment>)
        ensures
            r == self.horizontal(),
    {
        match self {
            Self::H(h) | Self::Both(h, _) => Some(h),
            Self::V(_) => None,
        }
    }

    /// The vertical component.
    pub fn y(self) -> (r: Option<VAlignment>)
        ensures
            r == self.vertical(),
    {
        match self {
            Self::V(v) | Self::Both(_, v) => Some(v),
            Self::H(_) => None,
        }
    }

    /// The fixed alignments that this alignment resolves to under the text
    /// direction `text_dir`; a missing component counts as its default
    /// (`start` horizontally, `top` vertically).
    pub open spec fn fixed(self, text_dir: Dir) -> Axes<FixedAlignment> {
        Axes {
            x: self.horizontal().unwrap_or(HAlignment::Start).fixed(text_dir),
            y: self.vertical().unwrap_or(VAlignment::Top).fixed(text_dir),
        }
    }

    /// Normalize the alignment to a LTR-TTB space.
    pub fn fix(self, text_dir: Dir) -> (r: Axes<FixedAlignment>)
        ensures
            r == self.fixed(text_dir),
    {
        Axes::new(
            self.x().unwrap_or_default().fix(text_dir),
            self.y().unwrap_or_default().fix(text_dir),
        )
    }

    /// The axis this alignment belongs to: the horizontal axis for a
    /// horizontal alignment, the vertical one for a vertical alignment, and
    /// none for a two-dimensional alignment.
    pub open spec fn axis_of(self) -> Option<Axis> {
        match self {
            Alignment::H(_) => Some(Axis::X),
            Alignment::V(_) => Some(Axis::Y),
            Alignment::Both(_, _) => None,
        }
    }

    /// The axis this alignment belongs to.
    pub fn axis(self) -> (r: Option<Axis>)
        ensures
            r == self.axis_of(),
    {
        match self {
            Self::H(_) => Some(Axis::X),
            Self::V(_) => Some(Axis::Y),
            Self::Both(..) => None,
        }
    }

    /// The inverse alignment: each component inverted.
    pub open spec fn inverted(self) -> Alignment {
        match self {
            Alignment::H(h) => Alignment::H(h.inverted()),
            Alignment::V(v) => Alignment::V(v.inverted()),
            Alignment::Both(h, v) => Alignment::Both(h.inverted(), v.inverted()),
        }
    }

    /// The inverse alignment.
    pub fn inv(self) -> (r: Alignment)
        ensures
            r == self.inverted(),
    {
        match self {
            Self::H(h) => Self::H(h.inv()),
            Self::V(v) => Self::V(v.inv()),
            Self::Both(h, v) => Self::Both(h.inv(), v.inv()),
        }
    }

    /// The sum of two alignments: a horizontal and a vertical one, in either
    /// order, make the two-dimensional alignment of both; any other pair is
    /// refused.
    pub open spec fn sum(self, rhs: Alignment) -> Result<Alignment, AlignmentError> {
        match (self, rhs) {
            (Alignment::H(h), Alignment::V(v)) => Ok(Alignment::Both(h, v)),
            (Alignment::V(v), Alignment::H(h)) => Ok(Alignment::Both(h, v)),
            (Alignment::H(_), Alignment::H(_)) => Err(AlignmentError::TwoHorizontal),
            (Alignment::V(_), Alignment::V(_)) => Err(AlignmentError::TwoVertical),
            (Alignment::H(_), Alignment::Both(_, _)) => Err(AlignmentError::HorizontalAnd2D),
            (Alignment::Both(_, _), Alignment::H(_)) => Err(AlignmentError::HorizontalAnd2D),
            (Alignment::V(_), Alignment::Both(_, _)) => Err(AlignmentError::VerticalAnd2D),
            (Alignment::Both(_, _), Alignment::V(_)) => Err(AlignmentError::VerticalAnd2D),
            (Alignment::Both(_, _), Alignment::Both(_, _)) => Err(AlignmentError::Two2D),
        }
    }

    /// How this alignment is written: a component's name, or for a
    /// two-dimensional alignment both names joined by ` + `.
    pub open spec fn repr_chars(self) -> Seq<char> {
        match self {
            Alignment::H(h) => h.repr_chars(),
            Alignment::V(v) => v.repr_chars(),
            Alignment::Both(h, v) => h.repr_chars() + " + "@ + v.repr_chars(),
        }
    }

    /// How this alignment is written.
    pub fn repr(&self) -> (r: EcoString)
        ensures
            eco_chars(r) == self.repr_chars(),
    {
        match self {
            Self::H(h) => h.repr(),
            Self::V(v) => v.repr(),
            Self::Both(h, v) => {
                let mut s = h.repr();
                let vr = v.repr();
                proof {
                    reveal_strlit("start");
                    reveal_strlit("left");
                    reveal_strlit("center");
                    reveal_strlit("right");
                    reveal_strlit("end");
                    reveal_strlit("top");
                    reveal_strlit("horizon");
                    reveal_strlit("bottom");
                    reveal_strlit(" + ");
                }
                eco_push_str(&mut s, " + ");
                eco_push_str(&mut s, eco_as_str(&vr));
                s
            },
        }
    }

    /// This alignment with a missing component taken from `outer`: a
    /// horizontal alignment takes the vertical component of `outer`, a
    /// vertical one the horizontal component; where `outer` has none, or
    /// this alignment is two-dimensional, it stays as it is.
    pub open spec fn folded(self, outer: Alignment) -> Alignment {
        match (self, outer) {
            (Alignment::H(h), Alignment::V(v)) => Alignment::Both(h, v),
            (Alignment::H(h), Alignment::Both(_, v)) => Alignment::Both(h, v),
            (Alignment::V(v), Alignment::H(h)) => Alignment::Both(h, v),
            (Alignment::V(v), Alignment::Both(h, _)) => Alignment::Both(h, v),
            _ => self,
        }
    }

    /// Fold this alignment, set on an inner level, with the alignment
    /// `outer` of the level around it.
    pub fn fold(self, outer: Self) -> (r: Self)
        ensures
            r == self.folded(outer),
    {
        match (self, outer) {
            (Self::H(h), Self::V(v) | Self::Both(_, v)) => Self::Both(h, v),
            (Self::V(v), Self::H(h) | Self::Both(h, _)) => Self::Both(h, v),
            _ => self,
        }
    }
}

impl Default for Alignment {
    /// `start + top`.
    fn default() -> (r: Self)
        ensures
            r == Alignment::Both(HAlignment::Start, VAlignment::Top),
    {
        HAlignment::default() + VAlignment::default()
    }
}

impl core::ops::Add for Alignment {
    type Output = Result<Alignment, AlignmentError>;

    fn add(self, rhs: Self) -> (r: Self::Output) {
        match (self, rhs) {
            (Self::H(h), Self::V(v)) | (Self::V(v), Self::H(h)) => Ok(h + v),
            (Self::H(_), Self::H(_)) => Err(AlignmentError::TwoHorizontal),
            (Self::V(_), Self::V(_)) => Err(AlignmentError::TwoVertical),
            (Self::H(_), Self::Both(..)) | (Self::Both(..), Self::H(_)) => {
                Err(AlignmentError::HorizontalAnd2D)
            },
            (Self::V(_), Self::Both(..)) | (Self::Both(..), Self::V(_)) => {
                Err(AlignmentError::VerticalAnd2D)
            },
            (Self::Both(..), Self::Both(..)) => Err(AlignmentError::Two2D),
        }
    }
}

impl AddSpecImpl for Alignment {
    open spec fn obeys_add_spec() -> bool {
        true
    }

    open spec fn add_req(self, rhs: Alignment) -> bool {
        true
    }

    open spec fn add_spec(self, rhs: Alignment) -> Result<Alignment, AlignmentError> {
        self.sum(rhs)
    }
}

impl core::ops::Add<VAlignment> for HAlignment {
    type Output = Alignment;

    fn add(self, rhs: VAlignment) -> (r: Alignment) {
        Alignment::Both(self, rhs)
    }
}

impl AddSpecImpl<VAlignment> for HAlignment {
    open spec fn obeys_add_spec() -> bool {
        true
    }

    open spec fn add_req(self, rhs: VAlignment) -> bool {
        true
    }

    /// A horizontal and a vertical alignment make a two-dimensional one.
    open spec fn add_spec(self, rhs: VAlignment) -> Alignment {
        Alignment::Both(self, rhs)
    }
}

impl core::ops::Add<HAlignment> for VAlignment {
    type Output = Alignment;

    fn add(self, rhs: HAlignment) -> (r: Alignment) {
        Alignment::Both(rhs, self)
    }
}

impl AddSpecImpl<HAlignment> for VAlignment {
    open spec fn obeys_add_spec() -> bool {
        true
    }

    open spec fn add_req(self, rhs: HAlignment) -> bool {
        true
    }

    /// A vertical and a horizontal alignment make a two-dimensional one.
    open spec fn add_spec(self, rhs: HAlignment) -> Alignment {
        Alignment::Both(rhs, self)
    }
}

/// The alignment of a side: `left`, `top`, `right` or `bottom`.
pub open spec fn side_alignment(side: Side) -> Alignment {
    match side {
        Side::Left => Alignment::H(HAlignment::Left),
        Side::Top => Alignment::V(VAlignment::Top),
        Side::Right => Alignment::H(HAlignment::Right),
        Side::Bottom => Alignment::V(VAlignment::Bottom),
    }
}

impl From<Side> for Alignment {
    fn from(side: Side) -> (r: Self) {
        match side {
            Side::Left => Self::H(HAlignment::Left),
            Side::Top => Self::V(VAlignment::Top),
            Side::Right => Self::H(HAlignment::Right),
            Side::Bottom => Self::V(VAlignment::Bottom),
        }
    }
}

impl FromSpecImpl<Side> for Alignment {
    open spec fn obeys_from_spec() -> bool {
        true
    }

    open spec fn from_spec(side: Side) -> Alignment {
        side_alignment(side)
    }
}

impl From<HAlignment> for Alignment {
    fn from(align: HAlignment) -> (r: Self) {
        Self::H(align)
    }
}

impl FromSpecImpl<HAlignment> for Alignment {
    open spec fn obeys_from_spec() -> bool {
        true
    }

    open spec fn from_spec(align: HAlignment) -> Alignment {
        Alignment::H(align)
    }
}

impl From<VAlignment> for Alignment {
    fn from(align: VAlignment) -> (r: Self) {
        Self::V(align)
    }
}

impl FromSpecImpl<VAlignment> for Alignment {
    open spec fn obeys_from_spec() -> bool {
        true
    }

    open spec fn from_spec(align: VAlignment) -> Alignment {
        Alignment::V(align)
    }
}

/// Aligns content horizontally and vertically: the element that holds an
/// alignment and the body that it places.
pub struct AlignElem<C> {
    /// The alignment along both axes.
    pub alignment: Alignment,
    /// The content to align.
    pub body: C,
}

} // verus!
