//! Properties that hold across the operations on alignments.
use vstd::prelude::*;
use vstd::std_specs::convert::{FromSpec, TryFromSpec};
use vstd::std_specs::ops::AddSpec;

use crate::alignment::{side_alignment, Alignment};
use crate::fixed::{side_fixed, FixAlignment, FixedAlignment};
use crate::horizontal::{outer_h_widened, HAlignment, OuterHAlignment};
use crate::layout::{Axis, Dir, Side};
use crate::specific::SpecificAlignment;
use crate::vertical::{outer_v_widened, OuterVAlignment, VAlignment};

verus! {

/// Either option's value, the first one's where both have one.
pub open spec fn first_some<T>(a: Option<T>, b: Option<T>) -> Option<T> {
    match a {
        Some(x) => Some(x),
        None => b,
    }
}

/// Inverting twice gives back the alignment one started with, for every kind
/// of alignment.
pub proof fn lemma_inv_involutive(f: FixedAlignment, h: HAlignment, v: VAlignment, a: Alignment)
    ensures
        f.inverted().inverted() == f,
        h.inverted().inverted() == h,
        v.inverted().inverted() == v,
        a.inverted().inverted() == a,
{
}

/// Inverting an alignment keeps the axis it belongs to.
pub proof fn lemma_inv_keeps_axis(a: Alignment)
    ensures
        a.inverted().axis_of() == a.axis_of(),
{
}

/// Fixing the inverse of a horizontal or vertical alignment gives the
/// inverse of fixing it, under every text direction.
pub proof fn lemma_fix_of_inv(h: HAlignment, v: VAlignment, dir: Dir)
    ensures
        h.inverted().fixed(dir) == h.fixed(dir).inverted(),
        v.inverted().fixed(dir) == v.fixed(dir).inverted(),
{
}

/// For a two-dimensional alignment, fixing the inverse inverts both fixed
/// components. (A one-dimensional alignment is left out: its missing
/// component is fixed as the default, which inversion does not touch.)
pub proof fn lemma_fix_of_inv_2d(a: Alignment, dir: Dir)
    requires
        a is Both,
    ensures
        a.inverted().fixed(dir).x == a.fixed(dir).x.inverted(),
        a.inverted().fixed(dir).y == a.fixed(dir).y.inverted(),
{
}

/// A vertical alignment fixes the same way under every text direction.
pub proof fn lemma_vertical_fix_ignores_direction(
    v: VAlignment,
    o: OuterVAlignment,
    d1: Dir,
    d2: Dir,
)
    ensures
        v.fixed(d1) == v.fixed(d2),
        o.fixed(d1) == o.fixed(d2),
{
}

/// Under a left-to-right or top-to-bottom direction, `start` fixes like
/// `left` and `end` like `right`; under the two other directions the other
/// way round.
pub proof fn lemma_start_end_follow_direction(dir: Dir)
    ensures
        dir.positive() ==> HAlignment::Start.fixed(dir) == HAlignment::Left.fixed(dir),
        dir.positive() ==> HAlignment::End.fixed(dir) == HAlignment::Right.fixed(dir),
        !dir.positive() ==> HAlignment::Start.fixed(dir) == HAlignment::Right.fixed(dir),
        !dir.positive() ==> HAlignment::End.fixed(dir) == HAlignment::Left.fixed(dir),
{
}

/// Adding alignments is commutative, errors included.
pub proof fn lemma_sum_commutative(a: Alignment, b: Alignment)
    ensures
        a.sum(b) == b.sum(a),
{
}

/// Two alignments add up exactly when one is horizontal and the other
/// vertical; the sum then has the components of both.
pub proof fn lemma_sum_defined(a: Alignment, b: Alignment)
    ensures
        a.sum(b) is Ok <==> (a.axis_of() is Some && b.axis_of() is Some && a.axis_of()
            != b.axis_of()),
        a.sum(b) matches Ok(c) ==> c.horizontal() == first_some(a.horizontal(), b.horizontal())
            && c.vertical() == first_some(a.vertical(), b.vertical()),
{
}

/// Folding takes each component from the inner alignment where it has one,
/// and from the outer alignment otherwise.
pub proof fn lemma_fold_components(a: Alignment, outer: Alignment)
    ensures
        a.folded(outer).horizontal() == first_some(a.horizontal(), outer.horizontal()),
        a.folded(outer).vertical() == first_some(a.vertical(), outer.vertical()),
{
}

/// An alignment is determined by its two components.
pub proof fn lemma_components_determine(a: Alignment, b: Alignment)
    requires
        a.horizontal() == b.horizontal(),
        a.vertical() == b.vertical(),
    ensures
        a == b,
{
}

/// Folding an alignment with itself leaves it unchanged, and folding is
/// associative.
pub proof fn lemma_fold_idempotent_associative(a: Alignment, b: Alignment, c: Alignment)
    ensures
        a.folded(a) == a,
        a.folded(b).folded(c) == a.folded(b.folded(c)),
{
    lemma_fold_components(a, b);
    lemma_fold_components(a.folded(b), c);
    lemma_fold_components(b, c);
    lemma_fold_components(a, b.folded(c));
    lemma_components_determine(a.folded(b).folded(c), a.folded(b.folded(c)));
}

/// Where two alignments add up, folding one with the other gives their sum.
pub proof fn lemma_fold_agrees_with_sum(a: Alignment, outer: Alignment)
    requires
        a.sum(outer) is Ok,
    ensures
        a.sum(outer) == Ok::<Alignment, crate::error::AlignmentError>(a.folded(outer)),
{
}

/// Converting a component to a general alignment and back gives it back, and
/// a conversion succeeds only on the alignment that the component converts
/// to.
pub proof fn lemma_cast_round_trip(
    h: HAlignment,
    oh: OuterHAlignment,
    v: VAlignment,
    ov: OuterVAlignment,
    a: Alignment,
)
    ensures
        <HAlignment as TryFromSpec<Alignment>>::try_from_spec(Alignment::H(h)) == Ok::<
            HAlignment,
            crate::error::AlignmentError,
        >(h),
        <OuterHAlignment as TryFromSpec<Alignment>>::try_from_spec(
            Alignment::H(outer_h_widened(oh)),
        ) == Ok::<OuterHAlignment, crate::error::AlignmentError>(oh),
        <VAlignment as TryFromSpec<Alignment>>::try_from_spec(Alignment::V(v)) == Ok::<
            VAlignment,
            crate::error::AlignmentError,
        >(v),
        <OuterVAlignment as TryFromSpec<Alignment>>::try_from_spec(
            Alignment::V(outer_v_widened(ov)),
        ) == Ok::<OuterVAlignment, crate::error::AlignmentError>(ov),
        <HAlignment as TryFromSpec<Alignment>>::try_from_spec(a) matches Ok(x) ==> a
            == Alignment::H(x),
        <OuterHAlignment as TryFromSpec<Alignment>>::try_from_spec(a) matches Ok(x) ==> a
            == Alignment::H(outer_h_widened(x)),
        <VAlignment as TryFromSpec<Alignment>>::try_from_spec(a) matches Ok(x) ==> a
            == Alignment::V(x),
        <OuterVAlignment as TryFromSpec<Alignment>>::try_from_spec(a) matches Ok(x) ==> a
            == Alignment::V(outer_v_widened(x)),
{
}

/// An outer alignment fixes like the general alignment of the same name.
pub proof fn lemma_outer_fix_agrees(oh: OuterHAlignment, ov: OuterVAlignment, dir: Dir)
    ensures
        oh.fixed(dir) == outer_h_widened(oh).fixed(dir),
        ov.fixed(dir) == outer_v_widened(ov).fixed(dir),
{
}

/// The alignment of a side fixes, on that side's axis, to the fixed
/// alignment of the side, whatever the text direction.
pub proof fn lemma_side_fix_agrees(side: Side, dir: Dir)
    ensures
        side_alignment(side).axis_of() == Some(Axis::X) ==> side_alignment(side).fixed(dir).x
            == side_fixed(side),
        side_alignment(side).axis_of() == Some(Axis::Y) ==> side_alignment(side).fixed(dir).y
            == side_fixed(side),
{
}

/// Widening a specific alignment to a general one keeps which components it
/// has, each one widened.
pub proof fn lemma_specific_widening_components<H, V>(s: SpecificAlignment<H, V>)
    where
        HAlignment: From<H>,
        VAlignment: From<V>,
    ensures
        <Alignment as FromSpec<SpecificAlignment<H, V>>>::from_spec(s).horizontal() == match s.horizontal() {
            Some(h) => Some(<HAlignment as FromSpec<H>>::from_spec(h)),
            None => None,
        },
        <Alignment as FromSpec<SpecificAlignment<H, V>>>::from_spec(s).vertical() == match s.vertical() {
            Some(v) => Some(<VAlignment as FromSpec<V>>::from_spec(v)),
            None => None,
        },
{
}

/// A `SpecificAlignment<HAlignment, VAlignment>` widens to a general alignment that
/// casts back to it, and that fixes, component by component, as the specific
/// alignment does, a missing component fixing as its type's default.
pub proof fn lemma_specific_widening_h_v(s: SpecificAlignment<HAlignment, VAlignment>, a: Alignment, dir: Dir)
    requires
        call_ensures(<Alignment as From<SpecificAlignment<HAlignment, VAlignment>>>::from, (s,), a),
    ensures
        SpecificAlignment::<HAlignment, VAlignment>::cast_of(a) == Ok::<
            SpecificAlignment<HAlignment, VAlignment>,
            crate::error::AlignmentError,
        >(s),
        a.fixed(dir).x == s.horizontal().unwrap_or(HAlignment::Start).fixed(dir),
        a.fixed(dir).y == s.vertical().unwrap_or(VAlignment::Top).fixed(dir),
{
}

/// A `SpecificAlignment<HAlignment, OuterVAlignment>` widens to a general alignment that
/// casts back to it, and that fixes, component by component, as the specific
/// alignment does, a missing component fixing as its type's default.
pub proof fn lemma_specific_widening_h_outer_v(s: SpecificAlignment<HAlignment, OuterVAlignment>, a: Alignment, dir: Dir)
    requires
        call_ensures(<Alignment as From<SpecificAlignment<HAlignment, OuterVAlignment>>>::from, (s,), a),
    ensures
        SpecificAlignment::<HAlignment, OuterVAlignment>::cast_of(a) == Ok::<
            SpecificAlignment<HAlignment, OuterVAlignment>,
            crate::error::AlignmentError,
        >(s),
        a.fixed(dir).x == s.horizontal().unwrap_or(HAlignment::Start).fixed(dir),
        a.fixed(dir).y == s.vertical().unwrap_or(OuterVAlignment::Top).fixed(dir),
{
}

/// A `SpecificAlignment<OuterHAlignment, VAlignment>` widens to a general alignment that
/// casts back to it, and that fixes, component by component, as the specific
/// alignment does, a missing component fixing as its type's default.
pub proof fn lemma_specific_widening_outer_h_v(s: SpecificAlignment<OuterHAlignment, VAlignment>, a: Alignment, dir: Dir)
    requires
        call_ensures(<Alignment as From<SpecificAlignment<OuterHAlignment, VAlignment>>>::from, (s,), a),
    ensures
        SpecificAlignment::<OuterHAlignment, VAlignment>::cast_of(a) == Ok::<
            SpecificAlignment<OuterHAlignment, VAlignment>,
            crate::error::AlignmentError,
        >(s),
        a.fixed(dir).x == s.horizontal().unwrap_or(OuterHAlignment::Start).fixed(dir),
        a.fixed(dir).y == s.vertical().unwrap_or(VAlignment::Top).fixed(dir),
{
}

/// A `SpecificAlignment<OuterHAlignment, OuterVAlignment>` widens to a general alignment that
/// casts back to it, and that fixes, component by component, as the specific
/// alignment does, a missing component fixing as its type's default.
pub proof fn lemma_specific_widening_outer_h_outer_v(s: SpecificAlignment<OuterHAlignment, OuterVAlignment>, a: Alignment, dir: Dir)
    requires
        call_ensures(<Alignment as From<SpecificAlignment<OuterHAlignment, OuterVAlignment>>>::from, (s,), a),
    ensures
        SpecificAlignment::<OuterHAlignment, OuterVAlignment>::cast_of(a) == Ok::<
            SpecificAlignment<OuterHAlignment, OuterVAlignment>,
            crate::error::AlignmentError,
        >(s),
        a.fixed(dir).x == s.horizontal().unwrap_or(OuterHAlignment::Start).fixed(dir),
        a.fixed(dir).y == s.vertical().unwrap_or(OuterVAlignment::Top).fixed(dir),
{
}

/// The inverse of any alignment, one- or two-dimensional, has as its
/// components the inverses of the alignment's components.
pub proof fn lemma_inv_components(a: Alignment)
    ensures
        a.inverted().horizontal() == match a.horizontal() {
            Some(h) => Some(h.inverted()),
            None => None,
        },
        a.inverted().vertical() == match a.vertical() {
            Some(v) => Some(v.inverted()),
            None => None,
        },
{
}

/// Only the centered alignments are their own inverse; every other one
/// changes under inversion.
pub proof fn lemma_inv_fixed_points(f: FixedAlignment, h: HAlignment, v: VAlignment, a: Alignment)
    ensures
        f.inverted() == f <==> f is Center,
        h.inverted() == h <==> h is Center,
        v.inverted() == v <==> v is Horizon,
        a.inverted() == a <==> (a.horizontal() is None || a.horizontal() == Some(
            HAlignment::Center,
        )) && (a.vertical() is None || a.vertical() == Some(VAlignment::Horizon)),
{
    lemma_inv_components(a);
    if a.inverted() != a {
        if a.horizontal() == a.inverted().horizontal() && a.vertical() == a.inverted().vertical() {
            lemma_components_determine(a, a.inverted());
        }
    }
}

/// A one-dimensional alignment is written as its component, and a
/// two-dimensional one as its two components joined by ` + `.
pub proof fn lemma_repr_components(h: HAlignment, v: VAlignment)
    ensures
        Alignment::H(h).repr_chars() == h.repr_chars(),
        Alignment::V(v).repr_chars() == v.repr_chars(),
        Alignment::Both(h, v).repr_chars() == h.repr_chars() + " + "@ + v.repr_chars(),
{
}

/// Different one-dimensional alignments have different names.
pub proof fn lemma_repr_distinct(a: Alignment, b: Alignment)
    requires
        a.axis_of() is Some,
        b.axis_of() is Some,
        a.repr_chars() == b.repr_chars(),
    ensures
        a == b,
{
    reveal_strlit("start");
    reveal_strlit("left");
    reveal_strlit("center");
    reveal_strlit("right");
    reveal_strlit("end");
    reveal_strlit("top");
    reveal_strlit("horizon");
    reveal_strlit("bottom");
    assert("start"@ =~= seq!['s', 't', 'a', 'r', 't']);
    assert("left"@ =~= seq!['l', 'e', 'f', 't']);
    assert("center"@ =~= seq!['c', 'e', 'n', 't', 'e', 'r']);
    assert("right"@ =~= seq!['r', 'i', 'g', 'h', 't']);
    assert("end"@ =~= seq!['e', 'n', 'd']);
    assert("top"@ =~= seq!['t', 'o', 'p']);
    assert("horizon"@ =~= seq!['h', 'o', 'r', 'i', 'z', 'o', 'n']);
    assert("bottom"@ =~= seq!['b', 'o', 't', 't', 'o', 'm']);
    assert(a.repr_chars().len() == b.repr_chars().len());
    assert(a.repr_chars()[0] == b.repr_chars()[0]);
}

/// Widening a horizontal or vertical alignment to a general one keeps it on
/// its axis with the same component, and converting back gives it again.
pub proof fn lemma_widening_round_trip(h: HAlignment, v: VAlignment, oh: OuterHAlignment, ov: OuterVAlignment)
    ensures
        <Alignment as FromSpec<HAlignment>>::from_spec(h).axis_of() == Some(Axis::X),
        <Alignment as FromSpec<HAlignment>>::from_spec(h).horizontal() == Some(h),
        <HAlignment as TryFromSpec<Alignment>>::try_from_spec(
            <Alignment as FromSpec<HAlignment>>::from_spec(h),
        ) == Ok::<HAlignment, crate::error::AlignmentError>(h),
        <Alignment as FromSpec<VAlignment>>::from_spec(v).axis_of() == Some(Axis::Y),
        <Alignment as FromSpec<VAlignment>>::from_spec(v).vertical() == Some(v),
        <VAlignment as TryFromSpec<Alignment>>::try_from_spec(
            <Alignment as FromSpec<VAlignment>>::from_spec(v),
        ) == Ok::<VAlignment, crate::error::AlignmentError>(v),
        <OuterHAlignment as TryFromSpec<Alignment>>::try_from_spec(
            <Alignment as FromSpec<HAlignment>>::from_spec(
                <HAlignment as FromSpec<OuterHAlignment>>::from_spec(oh),
            ),
        ) == Ok::<OuterHAlignment, crate::error::AlignmentError>(oh),
        <OuterVAlignment as TryFromSpec<Alignment>>::try_from_spec(
            <Alignment as FromSpec<VAlignment>>::from_spec(
                <VAlignment as FromSpec<OuterVAlignment>>::from_spec(ov),
            ),
        ) == Ok::<OuterVAlignment, crate::error::AlignmentError>(ov),
        <HAlignment as FromSpec<OuterHAlignment>>::from_spec(oh).fixed(Dir::LTR) == oh.fixed(
            Dir::LTR,
        ),
        <HAlignment as FromSpec<OuterHAlignment>>::from_spec(oh).fixed(Dir::RTL) == oh.fixed(
            Dir::RTL,
        ),
        <VAlignment as FromSpec<OuterVAlignment>>::from_spec(ov).fixed(Dir::TTB) == ov.fixed(
            Dir::TTB,
        ),
{
}

/// The alignment that a side converts to fixes, on the side's axis, to the
/// fixed alignment that the side converts to, under every text direction.
pub proof fn lemma_side_conversions_agree(side: Side, dir: Dir)
    ensures
        (side is Left || side is Right) ==> <Alignment as FromSpec<Side>>::from_spec(side).axis_of()
            == Some(Axis::X) && <Alignment as FromSpec<Side>>::from_spec(side).fixed(dir).x
            == <FixedAlignment as FromSpec<Side>>::from_spec(side),
        (side is Top || side is Bottom) ==> <Alignment as FromSpec<Side>>::from_spec(side).axis_of()
            == Some(Axis::Y) && <Alignment as FromSpec<Side>>::from_spec(side).fixed(dir).y
            == <FixedAlignment as FromSpec<Side>>::from_spec(side),
{
}

/// A horizontal and a vertical alignment add up, in either order, to the
/// two-dimensional alignment with exactly those components: the same as the
/// sum of the two as general alignments.
pub proof fn lemma_component_sum(h: HAlignment, v: VAlignment)
    ensures
        <HAlignment as AddSpec<VAlignment>>::add_spec(h, v).horizontal() == Some(h),
        <HAlignment as AddSpec<VAlignment>>::add_spec(h, v).vertical() == Some(v),
        <VAlignment as AddSpec<HAlignment>>::add_spec(v, h) == <HAlignment as AddSpec<
            VAlignment,
        >>::add_spec(h, v),
        Alignment::H(h).sum(Alignment::V(v)) == Ok::<Alignment, crate::error::AlignmentError>(
            <HAlignment as AddSpec<VAlignment>>::add_spec(h, v),
        ),
        Alignment::V(v).sum(Alignment::H(h)) == Ok::<Alignment, crate::error::AlignmentError>(
            <VAlignment as AddSpec<HAlignment>>::add_spec(v, h),
        ),
{
}

} // verus!
