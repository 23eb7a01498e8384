use vstd::prelude::*;
use vstd::std_specs::convert::{FromSpecImpl, TryFromSpecImpl};
use ecow::EcoString;

use crate::alignment::Alignment;
use crate::eco::{eco_chars, eco_from_str};
use crate::error::AlignmentError;
use crate::fixed::{FixAlignment, FixedAlignment};
use crate::layout::Dir;

verus! {

/// Where to align something horizontally.
#[derive(Debug, Copy, Clone, Eq, PartialEq, Hash, Structural)]
pub enum HAlignment {
    Start,
    Left,
    Center,
    Right,
    End,
}

impl Default for HAlignment {
    fn default() -> (r: Self)
        ensures
            r == HAlignment::Start,
    {
        HAlignment::Start
    }
}

impl HAlignment {
    /// The inverse horizontal alignment: start and end swap, as do left and
    /// right; center stays.
    pub open spec fn inverted(self) -> HAlignment {
        match self {
            HAlignment::Start => HAlignment::End,
            HAlignment::Left => HAlignment::Right,
            HAlignment::Center => HAlignment::Center,
            HAlignment::Right => HAlignment::Left,
            HAlignment::End => HAlignment::Start,
        }
    }

    /// The inverse horizontal alignment.
    pub fn inv(self) -> (r: Self)
        ensures
            r == self.inverted(),
    {
        match self {
            Self::Start => Self::End,
            Self::Left => Self::Right,
            Self::Center => Self::Center,
            Self::Right => Self::Left,
            Self::End => Self::Start,
        }
    }

    /// The name under which this alignment is written.
    pub open spec fn repr_chars(self) -> Seq<char> {
        match self {
            HAlignment::Start => "start"@,
            HAlignment::Left => "left"@,
            HAlignment::Center => "center"@,
            HAlignment::Right => "right"@,
            HAlignment::End => "end"@,
        }
    }

    /// The name under which this alignment is written.
    pub fn repr(&self) -> (r: EcoString)
        ensures
            eco_chars(r) == self.repr_chars(),
    {
        match self {
            Self::Start => eco_from_str("start"),
            Self::Left => eco_from_str("left"),
            Self::Center => eco_from_str("center"),
            Self::Right => eco_from_str("right"),
            Self::End => eco_from_str("end"),
        }
    }
}

impl FixAlignment for HAlignment {
    /// Start and end follow the text direction; left, center and right are
    /// absolute.
    open spec fn fixed(self, dir: Dir) -> FixedAlignment {
        match self {
            HAlignment::Start => if dir.positive() {
                FixedAlignment::Start
            } else {
                FixedAlignment::End
            },
            HAlignment::Left => FixedAlignment::Start,
            HAlignment::Center => FixedAlignment::Center,
            HAlignment::Right => FixedAlignment::End,
            HAlignment::End => if dir.positive() {
                FixedAlignment::End
            } else {
                FixedAlignment::Start
            },
        }
    }

    fn fix(self, dir: Dir) -> (r: FixedAlignment) {
        match (self, dir.is_positive()) {
            (Self::Start, true) | (Self::End, false) => FixedAlignment::Start,
            (Self::Left, _) => FixedAlignment::Start,
            (Self::Center, _) => FixedAlignment::Center,
            (Self::Right, _) => FixedAlignment::End,
            (Self::End, true) | (Self::Start, false) => FixedAlignment::End,
        }
    }
}

impl TryFrom<Alignment> for HAlignment {
    type Error = AlignmentError;

    fn try_from(value: Alignment) -> (r: Result<Self, AlignmentError>) {
        match value {
            Alignment::H(h) => Ok(h),
            v => Err(AlignmentError::NotHorizontal(v)),
        }
    }
}

impl TryFromSpecImpl<Alignment> for HAlignment {
    open spec fn obeys_try_from_spec() -> bool {
        true
    }

    /// Only a purely horizontal alignment converts.
    open spec fn try_from_spec(value: Alignment) -> Result<Self, AlignmentError> {
        match value {
            Alignment::H(h) => Ok(h),
            _ => Err(AlignmentError::NotHorizontal(value)),
        }
    }
}

/// A horizontal alignment which only allows `left`/`right` and `start`/`end`,
/// thus excluding `center`.
#[derive(Debug, Copy, Clone, Eq, PartialEq, Hash, Structural)]
pub enum OuterHAlignment {
    Start,
    Left,
    Right,
    End,
}

impl Default for OuterHAlignment {
    fn default() -> (r: Self)
        ensures
            r == OuterHAlignment::Start,
    {
        OuterHAlignment::Start
    }
}

/// The horizontal alignment with the same name as an outer one.
pub open spec fn outer_h_widened(value: OuterHAlignment) -> HAlignment {
    match value {
        OuterHAlignment::Start => HAlignment::Start,
        OuterHAlignment::Left => HAlignment::Left,
        OuterHAlignment::Right => HAlignment::Right,
        OuterHAlignment::End => HAlignment::End,
    }
}

impl FixAlignment for OuterHAlignment {
    /// Start and end follow the text direction; left and right are absolute.
    open spec fn fixed(self, dir: Dir) -> FixedAlignment {
        match self {
            OuterHAlignment::Start => if dir.positive() {
                FixedAlignment::Start
            } else {
                FixedAlignment::End
            },
            OuterHAlignment::Left => FixedAlignment::Start,
            OuterHAlignment::Right => FixedAlignment::End,
            OuterHAlignment::End => if dir.positive() {
                FixedAlignment::End
            } else {
                FixedAlignment::Start
            },
        }
    }

    fn fix(self, dir: Dir) -> (r: FixedAlignment) {
        match (self, dir.is_positive()) {
            (Self::Start, true) | (Self::End, false) => FixedAlignment::Start,
            (Self::Left, _) => FixedAlignment::Start,
            (Self::Right, _) => FixedAlignment::End,
            (Self::End, true) | (Self::Start, false) => FixedAlignment::End,
        }
    }
}

impl From<OuterHAlignment> for HAlignment {
    fn from(value: OuterHAlignment) -> (r: Self) {
        match value {
            OuterHAlignment::Start => Self::Start,
            OuterHAlignment::Left => Self::Left,
            OuterHAlignment::Right => Self::Right,
            OuterHAlignment::End => Self::End,
        }
    }
}

impl FromSpecImpl<OuterHAlignment> for HAlignment {
    open spec fn obeys_from_spec() -> bool {
        true
    }

    open spec fn from_spec(value: OuterHAlignment) -> HAlignment {
        outer_h_widened(value)
    }
}

impl TryFrom<Alignment> for OuterHAlignment {
    type Error = AlignmentError;

    fn try_from(value: Alignment) -> (r: Result<Self, AlignmentError>) {
        match value {
            Alignment::H(HAlignment::Start) => Ok(Self::Start),
            Alignment::H(HAlignment::Left) => Ok(Self::Left),
            Alignment::H(HAlignment::Right) => Ok(Self::Right),
            Alignment::H(HAlignment::End) => Ok(Self::End),
            v => Err(AlignmentError::NotOuterHorizontal(v)),
        }
    }
}

impl TryFromSpecImpl<Alignment> for OuterHAlignment {
    open spec fn obeys_try_from_spec() -> bool {
        true
    }

    /// Only a purely horizontal alignment other than `center` converts.
    open spec fn try_from_spec(value: Alignment) -> Result<Self, AlignmentError> {
        match value {
            Alignment::H(HAlignment::Start) => Ok(OuterHAlignment::Start),
            Alignment::H(HAlignment::Left) => Ok(OuterHAlignment::Left),
            Alignment::H(HAlignment::Right) => Ok(OuterHAlignment::Right),
            Alignment::H(HAlignment::End) => Ok(OuterHAlignment::End),
            _ => Err(AlignmentError::NotOuterHorizontal(value)),
        }
    }
}

} // verus!
