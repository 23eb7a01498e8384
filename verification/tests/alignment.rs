use typst_align::alignment::{AlignElem, Alignment};
use typst_align::error::AlignmentError;
use typst_align::fixed::{FixAlignment, FixedAlignment};
use typst_align::horizontal::{HAlignment, OuterHAlignment};
use typst_align::layout::{Axes, Axis, Dir, Side};
use typst_align::specific::SpecificAlignment;
use typst_align::vertical::{OuterVAlignment, VAlignment};

const ALL_H: [HAlignment; 5] = [
    HAlignment::Start,
    HAlignment::Left,
    HAlignment::Center,
    HAlignment::Right,
    HAlignment::End,
];
const ALL_V: [VAlignment; 3] = [VAlignment::Top, VAlignment::Horizon, VAlignment::Bottom];
const ALL_DIRS: [Dir; 4] = [Dir::LTR, Dir::RTL, Dir::TTB, Dir::BTT];

fn all_alignments() -> Vec<Alignment> {
    let mut out = Vec::new();
    for h in ALL_H {
        out.push(Alignment::H(h));
    }
    for v in ALL_V {
        out.push(Alignment::V(v));
    }
    for h in ALL_H {
        for v in ALL_V {
            out.push(Alignment::Both(h, v));
        }
    }
    out
}

#[test]
fn components_of_alignments() {
    let top_right = (Alignment::V(VAlignment::Top) + Alignment::H(HAlignment::Right)).unwrap();
    assert_eq!(top_right.x(), Some(HAlignment::Right));
    assert_eq!(top_right.y(), Some(VAlignment::Top));
    assert_eq!(Alignment::H(HAlignment::Left).x(), Some(HAlignment::Left));
    assert_eq!(Alignment::H(HAlignment::Left).y(), None);
    assert_eq!(Alignment::V(VAlignment::Bottom).x(), None);
}

#[test]
fn axis_of_alignments() {
    assert_eq!(Alignment::H(HAlignment::Left).axis(), Some(Axis::X));
    assert_eq!(Alignment::V(VAlignment::Bottom).axis(), Some(Axis::Y));
    assert_eq!(Alignment::Both(HAlignment::Left, VAlignment::Bottom).axis(), None);
}

#[test]
fn inverse_alignments() {
    assert_eq!(Alignment::V(VAlignment::Top).inv(), Alignment::V(VAlignment::Bottom));
    assert_eq!(Alignment::H(HAlignment::Left).inv(), Alignment::H(HAlignment::Right));
    assert_eq!(Alignment::H(HAlignment::Center).inv(), Alignment::H(HAlignment::Center));
    assert_eq!(
        Alignment::Both(HAlignment::Left, VAlignment::Bottom).inv(),
        Alignment::Both(HAlignment::Right, VAlignment::Top)
    );
    assert_eq!(HAlignment::Start.inv(), HAlignment::End);
    assert_eq!(VAlignment::Horizon.inv(), VAlignment::Horizon);
    assert_eq!(FixedAlignment::Start.inv(), FixedAlignment::End);
    assert_eq!(FixedAlignment::Center.inv(), FixedAlignment::Center);
}

#[test]
fn inverse_is_involution() {
    for a in all_alignments() {
        assert_eq!(a.inv().inv(), a);
        assert_eq!(a.inv().axis(), a.axis());
    }
    for f in [FixedAlignment::Start, FixedAlignment::Center, FixedAlignment::End] {
        assert_eq!(f.inv().inv(), f);
    }
}

#[test]
fn default_alignment_is_start_top() {
    assert_eq!(Alignment::default(), Alignment::Both(HAlignment::Start, VAlignment::Top));
    assert_eq!(HAlignment::default(), HAlignment::Start);
    assert_eq!(VAlignment::default(), VAlignment::Top);
    assert_eq!(OuterHAlignment::default(), OuterHAlignment::Start);
    assert_eq!(OuterVAlignment::default(), OuterVAlignment::Top);
}

#[test]
fn fix_follows_text_direction() {
    let center_bottom = Alignment::Both(HAlignment::Center, VAlignment::Bottom);
    assert_eq!(
        center_bottom.fix(Dir::LTR),
        Axes { x: FixedAlignment::Center, y: FixedAlignment::End }
    );
    assert_eq!(
        Alignment::H(HAlignment::End).fix(Dir::RTL),
        Axes { x: FixedAlignment::Start, y: FixedAlignment::Start }
    );
    assert_eq!(
        Alignment::H(HAlignment::End).fix(Dir::LTR),
        Axes { x: FixedAlignment::End, y: FixedAlignment::Start }
    );
    // A missing horizontal component counts as `start`.
    assert_eq!(
        Alignment::V(VAlignment::Horizon).fix(Dir::RTL),
        Axes { x: FixedAlignment::End, y: FixedAlignment::Center }
    );
    assert_eq!(HAlignment::Left.fix(Dir::RTL), FixedAlignment::Start);
    assert_eq!(HAlignment::Right.fix(Dir::BTT), FixedAlignment::End);
    assert_eq!(HAlignment::Start.fix(Dir::TTB), FixedAlignment::Start);
    assert_eq!(HAlignment::Start.fix(Dir::BTT), FixedAlignment::End);
    assert_eq!(OuterHAlignment::End.fix(Dir::LTR), FixedAlignment::End);
    assert_eq!(OuterHAlignment::End.fix(Dir::RTL), FixedAlignment::Start);
    assert_eq!(OuterHAlignment::Left.fix(Dir::RTL), FixedAlignment::Start);
    assert_eq!(OuterVAlignment::Bottom.fix(Dir::LTR), FixedAlignment::End);
}

#[test]
fn fix_of_inverse_is_inverse_of_fix() {
    for dir in ALL_DIRS {
        for h in ALL_H {
            assert_eq!(h.inv().fix(dir), h.fix(dir).inv());
        }
        for v in ALL_V {
            assert_eq!(v.inv().fix(dir), v.fix(dir).inv());
            assert_eq!(v.fix(dir), v.fix(Dir::LTR));
        }
    }
}

#[test]
fn adding_alignments() {
    let left = Alignment::H(HAlignment::Left);
    let bottom = Alignment::V(VAlignment::Bottom);
    let both = Alignment::Both(HAlignment::Left, VAlignment::Bottom);
    assert_eq!(left + bottom, Ok(both));
    assert_eq!(bottom + left, Ok(both));
    assert_eq!(HAlignment::Right + VAlignment::Top, Alignment::Both(HAlignment::Right, VAlignment::Top));
    assert_eq!(VAlignment::Top + HAlignment::Right, Alignment::Both(HAlignment::Right, VAlignment::Top));
    assert_eq!(left + left, Err(AlignmentError::TwoHorizontal));
    assert_eq!(bottom + bottom, Err(AlignmentError::TwoVertical));
    assert_eq!(left + both, Err(AlignmentError::HorizontalAnd2D));
    assert_eq!(both + left, Err(AlignmentError::HorizontalAnd2D));
    assert_eq!(bottom + both, Err(AlignmentError::VerticalAnd2D));
    assert_eq!(both + bottom, Err(AlignmentError::VerticalAnd2D));
    assert_eq!(both + both, Err(AlignmentError::Two2D));
}

#[test]
fn adding_is_commutative() {
    for a in all_alignments() {
        for b in all_alignments() {
            assert_eq!(a + b, b + a);
            assert_eq!((a + b).is_ok(), a.axis().is_some() && b.axis().is_some() && a.axis() != b.axis());
        }
    }
}

#[test]
fn error_messages() {
    assert_eq!(AlignmentError::TwoHorizontal.message(), "cannot add two horizontal alignments");
    assert_eq!(AlignmentError::TwoVertical.message(), "cannot add two vertical alignments");
    assert_eq!(
        AlignmentError::HorizontalAnd2D.message(),
        "cannot add a horizontal and a 2D alignment"
    );
    assert_eq!(
        AlignmentError::VerticalAnd2D.message(),
        "cannot add a vertical and a 2D alignment"
    );
    assert_eq!(AlignmentError::Two2D.message(), "cannot add two 2D alignments");
    assert_eq!(
        AlignmentError::NotHorizontal(Alignment::V(VAlignment::Top)).message(),
        "expected `start`, `left`, `center`, `right`, or `end`, found top"
    );
    assert_eq!(
        AlignmentError::NotOuterHorizontal(Alignment::H(HAlignment::Center)).message(),
        "expected `start`, `left`, `right`, or `end`, found center"
    );
    assert_eq!(
        AlignmentError::NotVertical(Alignment::Both(HAlignment::End, VAlignment::Horizon))
            .message(),
        "expected `top`, `horizon`, or `bottom`, found end + horizon"
    );
    assert_eq!(
        AlignmentError::NotOuterVertical(Alignment::V(VAlignment::Horizon)).message(),
        "expected `top` or `bottom`, found horizon"
    );
}

#[test]
fn repr_of_alignments() {
    assert_eq!(HAlignment::Start.repr(), "start");
    assert_eq!(HAlignment::Left.repr(), "left");
    assert_eq!(HAlignment::Center.repr(), "center");
    assert_eq!(HAlignment::Right.repr(), "right");
    assert_eq!(HAlignment::End.repr(), "end");
    assert_eq!(VAlignment::Top.repr(), "top");
    assert_eq!(VAlignment::Horizon.repr(), "horizon");
    assert_eq!(VAlignment::Bottom.repr(), "bottom");
    assert_eq!(Alignment::H(HAlignment::Left).repr(), "left");
    assert_eq!(Alignment::V(VAlignment::Bottom).repr(), "bottom");
    assert_eq!(Alignment::Both(HAlignment::Center, VAlignment::Bottom).repr(), "center + bottom");
}

#[test]
fn folding_alignments() {
    let left = Alignment::H(HAlignment::Left);
    let right = Alignment::H(HAlignment::Right);
    let top = Alignment::V(VAlignment::Top);
    let center_bottom = Alignment::Both(HAlignment::Center, VAlignment::Bottom);
    assert_eq!(left.fold(top), Alignment::Both(HAlignment::Left, VAlignment::Top));
    assert_eq!(left.fold(center_bottom), Alignment::Both(HAlignment::Left, VAlignment::Bottom));
    assert_eq!(top.fold(right), Alignment::Both(HAlignment::Right, VAlignment::Top));
    assert_eq!(top.fold(center_bottom), Alignment::Both(HAlignment::Center, VAlignment::Top));
    assert_eq!(left.fold(right), left);
    assert_eq!(center_bottom.fold(top), center_bottom);
}

#[test]
fn folding_laws() {
    for a in all_alignments() {
        assert_eq!(a.fold(a), a);
        for b in all_alignments() {
            let f = a.fold(b);
            assert_eq!(f.x(), a.x().or(b.x()));
            assert_eq!(f.y(), a.y().or(b.y()));
            if let Ok(sum) = a + b {
                assert_eq!(f, sum);
            }
            for c in [Alignment::H(HAlignment::End), Alignment::V(VAlignment::Horizon)] {
                assert_eq!(a.fold(b).fold(c), a.fold(b.fold(c)));
            }
        }
    }
}

#[test]
fn conversions_from_sides() {
    assert_eq!(Alignment::from(Side::Left), Alignment::H(HAlignment::Left));
    assert_eq!(Alignment::from(Side::Top), Alignment::V(VAlignment::Top));
    assert_eq!(Alignment::from(Side::Right), Alignment::H(HAlignment::Right));
    assert_eq!(Alignment::from(Side::Bottom), Alignment::V(VAlignment::Bottom));
    assert_eq!(FixedAlignment::from(Side::Left), FixedAlignment::Start);
    assert_eq!(FixedAlignment::from(Side::Top), FixedAlignment::Start);
    assert_eq!(FixedAlignment::from(Side::Right), FixedAlignment::End);
    assert_eq!(FixedAlignment::from(Side::Bottom), FixedAlignment::End);
    for dir in ALL_DIRS {
        assert_eq!(Alignment::from(Side::Right).fix(dir).x, FixedAlignment::from(Side::Right));
        assert_eq!(Alignment::from(Side::Bottom).fix(dir).y, FixedAlignment::from(Side::Bottom));
    }
}

#[test]
fn conversions_between_kinds() {
    assert_eq!(Alignment::from(HAlignment::Center), Alignment::H(HAlignment::Center));
    assert_eq!(Alignment::from(VAlignment::Horizon), Alignment::V(VAlignment::Horizon));
    assert_eq!(HAlignment::from(OuterHAlignment::Right), HAlignment::Right);
    assert_eq!(VAlignment::from(OuterVAlignment::Bottom), VAlignment::Bottom);
    assert_eq!(HAlignment::try_from(Alignment::H(HAlignment::End)), Ok(HAlignment::End));
    assert_eq!(
        HAlignment::try_from(Alignment::V(VAlignment::Top)),
        Err(AlignmentError::NotHorizontal(Alignment::V(VAlignment::Top)))
    );
    assert_eq!(
        OuterHAlignment::try_from(Alignment::H(HAlignment::Left)),
        Ok(OuterHAlignment::Left)
    );
    assert_eq!(
        OuterHAlignment::try_from(Alignment::H(HAlignment::Center)),
        Err(AlignmentError::NotOuterHorizontal(Alignment::H(HAlignment::Center)))
    );
    assert_eq!(VAlignment::try_from(Alignment::V(VAlignment::Horizon)), Ok(VAlignment::Horizon));
    let both = Alignment::Both(HAlignment::Left, VAlignment::Top);
    assert_eq!(VAlignment::try_from(both), Err(AlignmentError::NotVertical(both)));
    assert_eq!(OuterVAlignment::try_from(Alignment::V(VAlignment::Top)), Ok(OuterVAlignment::Top));
    assert_eq!(
        OuterVAlignment::try_from(Alignment::V(VAlignment::Horizon)),
        Err(AlignmentError::NotOuterVertical(Alignment::V(VAlignment::Horizon)))
    );
    for o in [OuterHAlignment::Start, OuterHAlignment::Left, OuterHAlignment::Right, OuterHAlignment::End] {
        assert_eq!(OuterHAlignment::try_from(Alignment::from(HAlignment::from(o))), Ok(o));
        for dir in ALL_DIRS {
            assert_eq!(o.fix(dir), HAlignment::from(o).fix(dir));
        }
    }
}

#[test]
fn specific_alignments() {
    type Outer = SpecificAlignment<OuterHAlignment, OuterVAlignment>;
    let s: Outer = SpecificAlignment::V(OuterVAlignment::Bottom);
    assert_eq!(s.x(), None);
    assert_eq!(s.y(), Some(OuterVAlignment::Bottom));
    assert_eq!(s.fix(Dir::RTL), Axes { x: FixedAlignment::End, y: FixedAlignment::End });
    let b: Outer = SpecificAlignment::Both(OuterHAlignment::Left, OuterVAlignment::Top);
    assert_eq!(b.x(), Some(OuterHAlignment::Left));
    assert_eq!(b.fix(Dir::RTL), Axes { x: FixedAlignment::Start, y: FixedAlignment::Start });
    assert_eq!(Alignment::from(b), Alignment::Both(HAlignment::Left, VAlignment::Top));
    assert_eq!(Alignment::from(s), Alignment::V(VAlignment::Bottom));
    assert_eq!(Outer::from_alignment(Alignment::from(b)), Ok(b));
    assert_eq!(
        Outer::from_alignment(Alignment::H(HAlignment::Center)),
        Err(AlignmentError::NotOuterHorizontal(Alignment::H(HAlignment::Center)))
    );
    assert_eq!(
        Outer::from_alignment(Alignment::Both(HAlignment::Right, VAlignment::Horizon)),
        Err(AlignmentError::NotOuterVertical(Alignment::V(VAlignment::Horizon)))
    );
    assert_eq!(
        Outer::from_alignment(Alignment::Both(HAlignment::Center, VAlignment::Horizon)),
        Err(AlignmentError::NotOuterHorizontal(Alignment::H(HAlignment::Center)))
    );
    let general = SpecificAlignment::<HAlignment, VAlignment>::from_alignment(Alignment::H(
        HAlignment::Center,
    ));
    assert_eq!(general, Ok(SpecificAlignment::H(HAlignment::Center)));
    let g: SpecificAlignment<HAlignment, VAlignment> =
        SpecificAlignment::Both(HAlignment::Center, VAlignment::Top);
    assert_eq!(Alignment::from(g), Alignment::Both(HAlignment::Center, VAlignment::Top));
    assert_eq!(SpecificAlignment::<HAlignment, VAlignment>::from_alignment(Alignment::from(g)), Ok(g));
    let h: SpecificAlignment<HAlignment, OuterVAlignment> = SpecificAlignment::H(HAlignment::End);
    assert_eq!(Alignment::from(h), Alignment::H(HAlignment::End));
    assert_eq!(h.fix(Dir::LTR), Axes { x: FixedAlignment::End, y: FixedAlignment::Start });
}

#[test]
fn align_elem_holds_alignment_and_body() {
    let elem = AlignElem { alignment: Alignment::default(), body: "body" };
    assert_eq!(elem.alignment, Alignment::Both(HAlignment::Start, VAlignment::Top));
    assert_eq!(elem.body, "body");
}

#[test]
fn direction_sign() {
    assert!(Dir::LTR.is_positive());
    assert!(Dir::TTB.is_positive());
    assert!(!Dir::RTL.is_positive());
    assert!(!Dir::BTT.is_positive());
    assert_eq!(Axes::new(1, 2), Axes { x: 1, y: 2 });
}

#[test]
fn inverse_reverses_fixed_order() {
    let all = [FixedAlignment::Start, FixedAlignment::Center, FixedAlignment::End];
    assert!(FixedAlignment::Start < FixedAlignment::Center);
    assert!(FixedAlignment::Center < FixedAlignment::End);
    for a in all {
        for b in all {
            assert_eq!(a <= b, b.inv() <= a.inv());
            assert_eq!(a.partial_cmp(&b), b.inv().partial_cmp(&a.inv()));
            assert_eq!(a.partial_cmp(&b), Some(a.cmp(&b)));
        }
    }
}
