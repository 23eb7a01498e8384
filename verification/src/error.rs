use vstd::prelude::*;
use ecow::EcoString;

use crate::alignment::Alignment;
use crate::eco::{eco_as_str, eco_chars, eco_from_str, eco_len_limit, eco_push_str};

verus! {

/// Why two alignments cannot be added, or why an alignment does not convert
/// to a narrower kind.
#[derive(Debug, Copy, Clone, Eq, PartialEq, Hash, Structural)]
pub enum AlignmentError {
    /// Two horizontal alignments were added.
    TwoHorizontal,
    /// Two vertical alignments were added.
    TwoVertical,
    /// A horizontal and a two-dimensional alignment were added.
    HorizontalAnd2D,
    /// A vertical and a two-dimensional alignment were added.
    VerticalAnd2D,
    /// Two two-dimensional alignments were added.
    Two2D,
    /// A horizontal alignment was expected; this one was found.
    NotHorizontal(Alignment),
    /// A horizontal alignment other than `center` was expected.
    NotOuterHorizontal(Alignment),
    /// A vertical alignment was expected.
    NotVertical(Alignment),
    /// `top` or `bottom` was expected.
    NotOuterVertical(Alignment),
}

impl AlignmentError {
    /// The message that reports this error.
    pub open spec fn message_chars(self) -> Seq<char> {
        match self {
            AlignmentError::TwoHorizontal => "cannot add two horizontal alignments"@,
            AlignmentError::TwoVertical => "cannot add two vertical alignments"@,
            AlignmentError::HorizontalAnd2D => "cannot add a horizontal and a 2D alignment"@,
            AlignmentError::VerticalAnd2D => "cannot add a vertical and a 2D alignment"@,
            AlignmentError::Two2D => "cannot add two 2D alignments"@,
            AlignmentError::NotHorizontal(v) => "expected `start`, `left`, `center`, `right`, or `end`, found "@
                + v.repr_chars(),
            AlignmentError::NotOuterHorizontal(v) => "expected `start`, `left`, `right`, or `end`, found "@
                + v.repr_chars(),
            AlignmentError::NotVertical(v) => "expected `top`, `horizon`, or `bottom`, found "@
                + v.repr_chars(),
            AlignmentError::NotOuterVertical(v) => "expected `top` or `bottom`, found "@
                + v.repr_chars(),
        }
    }

    /// The message that reports this error.
    pub fn message(&self) -> (r: EcoString)
        ensures
            eco_chars(r) == self.message_chars(),
    {
        proof {
            reveal_strlit("expected `start`, `left`, `center`, `right`, or `end`, found ");
            reveal_strlit("expected `start`, `left`, `right`, or `end`, found ");
            reveal_strlit("expected `top`, `horizon`, or `bottom`, found ");
            reveal_strlit("expected `top` or `bottom`, found ");
        }
        match self {
            Self::TwoHorizontal => eco_from_str("cannot add two horizontal alignments"),
            Self::TwoVertical => eco_from_str("cannot add two vertical alignments"),
            Self::HorizontalAnd2D => eco_from_str("cannot add a horizontal and a 2D alignment"),
            Self::VerticalAnd2D => eco_from_str("cannot add a vertical and a 2D alignment"),
            Self::Two2D => eco_from_str("cannot add two 2D alignments"),
            Self::NotHorizontal(v) => found(
                eco_from_str("expected `start`, `left`, `center`, `right`, or `end`, found "),
                v,
            ),
            Self::NotOuterHorizontal(v) => found(
                eco_from_str("expected `start`, `left`, `right`, or `end`, found "),
                v,
            ),
            Self::NotVertical(v) => found(
                eco_from_str("expected `top`, `horizon`, or `bottom`, found "),
                v,
            ),
            Self::NotOuterVertical(v) => found(
                eco_from_str("expected `top` or `bottom`, found "),
                v,
            ),
        }
    }
}

/// `prefix` followed by how `v` is written.
fn found(prefix: EcoString, v: &Alignment) -> (r: EcoString)
    requires
        eco_chars(prefix).len() <= 100,
    ensures
        eco_chars(r) == eco_chars(prefix) + v.repr_chars(),
{
    let mut s = prefix;
    let vr = v.repr();
    proof {
        reveal_strlit("start");
        reveal_strlit("left");
        reveal_strlit("center");
        reveal_strlit("right");
        reveal_strlit("end");
        reveal_strlit("top");
        reveal_strlit("horizon");
        reveal_strlit("bottom");
        reveal_strlit(" + ");
    }
    eco_push_str(&mut s, eco_as_str(&vr));
    s
}

} // verus!
