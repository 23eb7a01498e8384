use vstd::prelude::*;
use vstd::std_specs::convert::{FromSpecImpl, TryFromSpecImpl};
use ecow::EcoString;

use crate::alignment::Alignment;
use crate::eco::{eco_chars, eco_from_str};
use crate::error::AlignmentError;
use crate::fixed::{FixAlignment, FixedAlignment};
use crate::layout::Dir;

verus! {

/// Where to align something vertically.
#[derive(Debug, Copy, Clone, Eq, PartialEq, Ord, PartialOrd, Hash, Structural)]
pub enum VAlignment {
    Top,
    Horizon,
    Bottom,
}

impl Default for VAlignment {
    fn default() -> (r: Self)
        ensures
            r == VAlignment::Top,
    {
        VAlignment::Top
    }
}

impl VAlignment {
    /// The inverse vertical alignment: top and bottom swap, horizon stays.
    pub open spec fn inverted(self) -> VAlignment {
        match self {
            VAlignment::Top => VAlignment::Bottom,
            VAlignment::Horizon => VAlignment::Horizon,
            VAlignment::Bottom => VAlignment::Top,
        }
    }

    /// The inverse vertical alignment.
    pub fn inv(self) -> (r: Self)
        ensures
            r == self.inverted(),
    {
        match self {
            Self::Top => Self::Bottom,
            Self::Horizon => Self::Horizon,
            Self::Bottom => Self::Top,
        }
    }

    /// The name under which this alignment is written.
    pub open spec fn repr_chars(self) -> Seq<char> {
        match self {
            VAlignment::Top => "top"@,
            VAlignment::Horizon => "horizon"@,
            VAlignment::Bottom => "bottom"@,
        }
    }

    /// The name under which this alignment is written.
    pub fn repr(&self) -> (r: EcoString)
        ensures
            eco_chars(r) == self.repr_chars(),
    {
        match self {
            Self::Top => eco_from_str("top"),
            Self::Horizon => eco_from_str("horizon"),
            Self::Bottom => eco_from_str("bottom"),
        }
    }
}

impl FixAlignment for VAlignment {
    /// The vertical alignment does not depend on the text direction.
    open spec fn fixed(self, dir: Dir) -> FixedAlignment {
        match self {
            VAlignment::Top => FixedAlignment::Start,
            VAlignment::Horizon => FixedAlignment::Center,
            VAlignment::Bottom => FixedAlignment::End,
        }
    }

    fn fix(self, _dir: Dir) -> (r: FixedAlignment) {
        match self {
            Self::Top => FixedAlignment::Start,
            Self::Horizon => FixedAlignment::Center,
            Self::Bottom => FixedAlignment::End,
        }
    }
}

impl TryFrom<Alignment> for VAlignment {
    type Error = AlignmentError;

    fn try_from(value: Alignment) -> (r: Result<Self, AlignmentError>) {
        match value {
            Alignment::V(v) => Ok(v),
            v => Err(AlignmentError::NotVertical(v)),
        }
    }
}

impl TryFromSpecImpl<Alignment> for VAlignment {
    open spec fn obeys_try_from_spec() -> bool {
        true
    }

    /// Only a purely vertical alignment converts.
    open spec fn try_from_spec(value: Alignment) -> Result<Self, AlignmentError> {
        match value {
            Alignment::V(v) => Ok(v),
            _ => Err(AlignmentError::NotVertical(value)),
        }
    }
}

/// A vertical alignment which only allows `top` and `bottom`, thus excluding
/// `horizon`.
#[derive(Debug, Copy, Clone, Eq, PartialEq, Ord, PartialOrd, Hash, Structural)]
pub enum OuterVAlignment {
    Top,
    Bottom,
}

impl Default for OuterVAlignment {
    fn default() -> (r: Self)
        ensures
            r == OuterVAlignment::Top,
    {
        OuterVAlignment::Top
    }
}

/// The vertical alignment with the same name as an outer one.
pub open spec fn outer_v_widened(value: OuterVAlignment) -> VAlignment {
    match value {
        OuterVAlignment::Top => VAlignment::Top,
        OuterVAlignment::Bottom => VAlignment::Bottom,
    }
}

impl FixAlignment for OuterVAlignment {
    /// The vertical alignment does not depend on the text direction.
    open spec fn fixed(self, dir: Dir) -> FixedAlignment {
        match self {
            OuterVAlignment::Top => FixedAlignment::Start,
            OuterVAlignment::Bottom => FixedAlignment::End,
        }
    }

    fn fix(self, _dir: Dir) -> (r: FixedAlignment) {
        match self {
            Self::Top => FixedAlignment::Start,
            Self::Bottom => FixedAlignment::End,
        }
    }
}

impl From<OuterVAlignment> for VAlignment {
    fn from(value: OuterVAlignment) -> (r: Self) {
        match value {
            OuterVAlignment::Top => Self::Top,
            OuterVAlignment::Bottom => Self::Bottom,
        }
    }
}

impl FromSpecImpl<OuterVAlignment> for VAlignment {
    open spec fn obeys_from_spec() -> bool {
        true
    }

    open spec fn from_spec(value: OuterVAlignment) -> VAlignment {
        outer_v_widened(value)
    }
}

impl TryFrom<Alignment> for OuterVAlignment {
    type Error = AlignmentError;

    fn try_from(value: Alignment) -> (r: Result<Self, AlignmentError>) {
        match value {
            Alignment::V(VAlignment::Top) => Ok(Self::Top),
            Alignment::V(VAlignment::Bottom) => Ok(Self::Bottom),
            v => Err(AlignmentError::NotOuterVertical(v)),
        }
    }
}

impl TryFromSpecImpl<Alignment> for OuterVAlignment {
    open spec fn obeys_try_from_spec() -> bool {
        true
    }

    /// Only `top` and `bottom` convert.
    open spec fn try_from_spec(value: Alignment) -> Result<Self, AlignmentError> {
        match value {
            Alignment::V(VAlignment::Top) => Ok(OuterVAlignment::Top),
            Alignment::V(VAlignment::Bottom) => Ok(OuterVAlignment::Bottom),
            _ => Err(AlignmentError::NotOuterVertical(value)),
        }
    }
}

} // verus!
