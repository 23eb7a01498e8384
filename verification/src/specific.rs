use vstd::prelude::*;
use vstd::std_specs::convert::{FromSpec, FromSpecImpl, TryFromSpec};

use crate::alignment::Alignment;
use crate::fixed::{FixAlignment, FixedAlignment};
use crate::horizontal::HAlignment;
use crate::layout::{Axes, Dir};
use crate::vertical::VAlignment;

verus! {

/// A combination of a horizontal and a vertical alignment whose allowed
/// positions are given by the type parameters `H` and `V`.
///
/// For example, `SpecificAlignment<HAlignment, OuterVAlignment>` does not
/// allow the vertical position `horizon`, because `OuterVAlignment` does not
/// have it.
#[derive(Debug, Copy, Clone, Eq, PartialEq, Hash)]
pub enum SpecificAlignment<H, V> {
    H(H),
    V(V),
    Both(H, V),
}

impl<H, V> SpecificAlignment<H, V> {
    /// The horizontal component, if there is one.
    pub open spec fn horizontal(self) -> Option<H> {
        match self {
            SpecificAlignment::H(h) => Some(h),
            SpecificAlignment::V(_) => None,
            SpecificAlignment::Both(h, _) => Some(h),
        }
    }

    /// The vertical component, if there is one.
    pub open spec fn vertical(self) -> Option<V> {
        match self {
            SpecificAlignment::H(_) => None,
            SpecificAlignment::V(v) => Some(v),
            SpecificAlignment::Both(_, v) => Some(v),
        }
    }
}

impl<H, V> SpecificAlignment<H, V> where
    H: Default + Copy + FixAlignment,
    V: Default + Copy + FixAlignment,
 {
    /// The horizontal component.
    pub fn x(self) -> (r: Option<H>)
        ensures
            r == self.horizontal(),
    {
        match self {
            Self::H(h) | Self::Both(h, _) => Some(h),
            Self::V(_) => None,
        }
    }

    /// The vertical component.
    pub fn y(self) -> (r: Option<V>)
        ensures
            r == self.vertical(),
    {
        match self {
            Self::V(v) | Self::Both(_, v) => Some(v),
            Self::H(_) => None,
        }
    }

    /// Normalize the alignment to a LTR-TTB space: each component is fixed
    /// under `text_dir`, a missing one as the default of its type.
    pub fn fix(self, text_dir: Dir) -> (r: Axes<FixedAlignment>)
        ensures
            self.horizontal() matches Some(h) ==> r.x == h.fixed(text_dir),
            self.horizontal() is None ==> exists|d: H|
                call_ensures(H::default, (), d) && r.x == #[trigger] d.fixed(text_dir),
            self.vertical() matches Some(v) ==> r.y == v.fixed(text_dir),
            self.vertical() is None ==> exists|d: V|
                call_ensures(V::default, (), d) && r.y == #[trigger] d.fixed(text_dir),
    {
        let h = self.x().unwrap_or_default();
        let v = self.y().unwrap_or_default();
        Axes::new(h.fix(text_dir), v.fix(text_dir))
    }
}

impl<H, V> SpecificAlignment<H, V> {
    /// The specific alignment that `align` casts to: each component converts
    /// by `try_from`, the first error that comes up is the result.
    pub open spec fn cast_of<E>(align: Alignment) -> Result<Self, E> where
        H: TryFrom<Alignment, Error = E>,
        V: TryFrom<Alignment, Error = E>,
     {
        match align {
            Alignment::H(_) => match <H as TryFromSpec<Alignment>>::try_from_spec(align) {
                Ok(h) => Ok(SpecificAlignment::H(h)),
                Err(e) => Err(e),
            },
            Alignment::V(_) => match <V as TryFromSpec<Alignment>>::try_from_spec(align) {
                Ok(v) => Ok(SpecificAlignment::V(v)),
                Err(e) => Err(e),
            },
            Alignment::Both(h, v) => match <H as TryFromSpec<Alignment>>::try_from_spec(
                Alignment::H(h),
            ) {
                Ok(hh) => match <V as TryFromSpec<Alignment>>::try_from_spec(Alignment::V(v)) {
                    Ok(vv) => Ok(SpecificAlignment::Both(hh, vv)),
                    Err(e) => Err(e),
                },
                Err(e) => Err(e),
            },
        }
    }

    /// Cast a general alignment to this specific kind, component by
    /// component.
    pub fn from_alignment<E>(align: Alignment) -> (r: Result<Self, E>) where
        H: TryFrom<Alignment, Error = E>,
        V: TryFrom<Alignment, Error = E>,

        ensures
            <H as TryFromSpec<Alignment>>::obeys_try_from_spec()
                && <V as TryFromSpec<Alignment>>::obeys_try_from_spec() ==> r == Self::cast_of(
                align,
            ),
            align is H ==> exists|x: Result<H, E>|
                call_ensures(<H as TryFrom<Alignment>>::try_from, (align,), x) && r == match x {
                    Ok(h) => Ok::<Self, E>(SpecificAlignment::H(h)),
                    Err(e) => Err::<Self, E>(e),
                },
            align is V ==> exists|y: Result<V, E>|
                call_ensures(<V as TryFrom<Alignment>>::try_from, (align,), y) && r == match y {
                    Ok(v) => Ok::<Self, E>(SpecificAlignment::V(v)),
                    Err(e) => Err::<Self, E>(e),
                },
            align matches Alignment::Both(h, v) ==> exists|x: Result<H, E>|
                call_ensures(<H as TryFrom<Alignment>>::try_from, (Alignment::H(h),), x) && match x {
                    Err(e) => r == Err::<Self, E>(e),
                    Ok(hh) => exists|y: Result<V, E>|
                        call_ensures(<V as TryFrom<Alignment>>::try_from, (Alignment::V(v),), y)
                            && r == match y {
                            Ok(vv) => Ok::<Self, E>(SpecificAlignment::Both(hh, vv)),
                            Err(e) => Err::<Self, E>(e),
                        },
                },
    {
        match align {
            Alignment::H(_) => match H::try_from(align) {
                Ok(h) => Ok(Self::H(h)),
                Err(e) => Err(e),
            },
            Alignment::V(_) => match V::try_from(align) {
                Ok(v) => Ok(Self::V(v)),
                Err(e) => Err(e),
            },
            Alignment::Both(h, v) => match H::try_from(Alignment::H(h)) {
                Ok(hh) => match V::try_from(Alignment::V(v)) {
                    Ok(vv) => Ok(Self::Both(hh, vv)),
                    Err(e) => Err(e),
                },
                Err(e) => Err(e),
            },
        }
    }
}

impl<H, V> From<SpecificAlignment<H, V>> for Alignment where
    HAlignment: From<H>,
    VAlignment: From<V>,
 {
    /// Keeps which components there are, each converted by its own `from`.
    fn from(value: SpecificAlignment<H, V>) -> (r: Self)
        ensures
            value is H <==> r is H,
            value is V <==> r is V,
            value is Both <==> r is Both,
            r.horizontal() matches Some(x) ==> value.horizontal() matches Some(h) && call_ensures(
                HAlignment::from,
                (h,),
                x,
            ),
            r.vertical() matches Some(y) ==> value.vertical() matches Some(v) && call_ensures(
                VAlignment::from,
                (v,),
                y,
            ),
    {
        match value {
            SpecificAlignment::H(h) => Self::H(HAlignment::from(h)),
            SpecificAlignment::V(v) => Self::V(VAlignment::from(v)),
            SpecificAlignment::Both(h, v) => Self::Both(HAlignment::from(h), VAlignment::from(v)),
        }
    }
}

impl<H, V> FromSpecImpl<SpecificAlignment<H, V>> for Alignment where
    HAlignment: From<H>,
    VAlignment: From<V>,
 {
    open spec fn obeys_from_spec() -> bool {
        <HAlignment as FromSpec<H>>::obeys_from_spec() && <VAlignment as FromSpec<
            V,
        >>::obeys_from_spec()
    }

    /// Each component widened to the general alignment kind.
    open spec fn from_spec(value: SpecificAlignment<H, V>) -> Alignment {
        match value {
            SpecificAlignment::H(h) => Alignment::H(<HAlignment as FromSpec<H>>::from_spec(h)),
            SpecificAlignment::V(v) => Alignment::V(<VAlignment as FromSpec<V>>::from_spec(v)),
            SpecificAlignment::Both(h, v) => Alignment::Both(
                <HAlignment as FromSpec<H>>::from_spec(h),
                <VAlignment as FromSpec<V>>::from_spec(v),
            ),
        }
    }
}

} // verus!
