//! Geometry value types: fill rule, combine mode and sweep direction, with the
//! ordinals the geometry entry points take and report.

use vstd::prelude::*;

verus! {

/// `Noesis::FillRule`: how the interior of a self-intersecting figure is
/// determined.
#[derive(Copy, Clone, Debug, PartialEq, Eq)]
#[non_exhaustive]
pub enum FillRule {
    /// A point is inside when a ray from it crosses an odd number of segments.
    EvenOdd,
    /// A point is inside when the winding number around it is not zero.
    Nonzero,
}

impl FillRule {
    /// The raw value Noesis uses for this member.
    pub open spec fn raw_of(self) -> i32 {
        match self {
            FillRule::EvenOdd => 0,
            FillRule::Nonzero => 1,
        }
    }

    /// The raw value handed across the FFI for this member.
    pub fn to_ordinal(self) -> (r: i32)
        ensures
            r == self.raw_of(),
    {
        match self {
            FillRule::EvenOdd => 0,
            FillRule::Nonzero => 1,
        }
    }

    /// Decode a raw value, falling back to [`FillRule::EvenOdd`] for a value no
    /// member has.
    pub fn from_ordinal(v: i32) -> (r: FillRule)
        ensures
            (exists|m: FillRule| m.raw_of() == v) ==> r.raw_of() == v,
            (forall|m: FillRule| m.raw_of() != v) ==> r == FillRule::EvenOdd,
    {
        match v {
            1 => FillRule::Nonzero,
            _ => FillRule::EvenOdd,
        }
    }
}

/// Distinct members of [`FillRule`] have distinct raw values, so decoding the
/// raw value of a member gives that member back.
pub proof fn lemma_fill_rule_raw_injective(a: FillRule, b: FillRule)
    ensures
        a.raw_of() == b.raw_of() ==> a == b,
{
}

/// `Noesis::GeometryCombineMode`: how the two geometries of a combined geometry
/// are merged.
#[derive(Copy, Clone, Debug, PartialEq, Eq)]
#[non_exhaustive]
pub enum GeometryCombineMode {
    /// The area of either geometry.
    Union,
    /// The area common to both.
    Intersect,
    /// The area in exactly one of them.
    Xor,
    /// The area of the first that is not in the second.
    Exclude,
}

impl GeometryCombineMode {
    /// The raw value Noesis uses for this member.
    pub open spec fn raw_of(self) -> i32 {
        match self {
            GeometryCombineMode::Union => 0,
            GeometryCombineMode::Intersect => 1,
            GeometryCombineMode::Xor => 2,
            GeometryCombineMode::Exclude => 3,
        }
    }

    /// The raw value handed across the FFI for this member.
    pub fn to_ordinal(self) -> (r: i32)
        ensures
            r == self.raw_of(),
    {
        match self {
            GeometryCombineMode::Union => 0,
            GeometryCombineMode::Intersect => 1,
            GeometryCombineMode::Xor => 2,
            GeometryCombineMode::Exclude => 3,
        }
    }

    /// Decode a raw value; `None` when no member has it.
    pub fn from_ordinal(v: i32) -> (r: Option<GeometryCombineMode>)
        ensures
            match r {
                Some(m) => m.raw_of() == v,
                None => forall|m: GeometryCombineMode| m.raw_of() != v,
            },
    {
        match v {
            0 => Some(GeometryCombineMode::Union),
            1 => Some(GeometryCombineMode::Intersect),
            2 => Some(GeometryCombineMode::Xor),
            3 => Some(GeometryCombineMode::Exclude),
            _ => None,
        }
    }
}

/// Distinct members of [`GeometryCombineMode`] have distinct raw values, so decoding the
/// raw value of a member gives that member back.
pub proof fn lemma_geometry_combine_mode_raw_injective(a: GeometryCombineMode, b: GeometryCombineMode)
    ensures
        a.raw_of() == b.raw_of() ==> a == b,
{
}

/// `Noesis::SweepDirection`: the direction an arc is drawn in.
#[derive(Copy, Clone, Debug, PartialEq, Eq)]
#[non_exhaustive]
pub enum SweepDirection {
    /// Arcs are drawn counterclockwise.
    Counterclockwise,
    /// Arcs are drawn clockwise.
    Clockwise,
}

impl SweepDirection {
    /// The raw value Noesis uses for this member.
    pub open spec fn raw_of(self) -> i32 {
        match self {
            SweepDirection::Counterclockwise => 0,
            SweepDirection::Clockwise => 1,
        }
    }

    /// The raw value handed across the FFI for this member.
    pub fn to_ordinal(self) -> (r: i32)
        ensures
            r == self.raw_of(),
    {
        match self {
            SweepDirection::Counterclockwise => 0,
            SweepDirection::Clockwise => 1,
        }
    }

    /// Decode a raw value, falling back to [`SweepDirection::Counterclockwise`] for a value no
    /// member has.
    pub fn from_ordinal(v: i32) -> (r: SweepDirection)
        ensures
            (exists|m: SweepDirection| m.raw_of() == v) ==> r.raw_of() == v,
            (forall|m: SweepDirection| m.raw_of() != v) ==> r == SweepDirection::Counterclockwise,
    {
        match v {
            1 => SweepDirection::Clockwise,
            _ => SweepDirection::Counterclockwise,
        }
    }
}

/// Distinct members of [`SweepDirection`] have distinct raw values, so decoding the
/// raw value of a member gives that member back.
pub proof fn lemma_sweep_direction_raw_injective(a: SweepDirection, b: SweepDirection)
    ensures
        a.raw_of() == b.raw_of() ==> a == b,
{
}


/// The raw value of each member of [`FillRule`] is the one Noesis assigns it, so
/// encoding hands the native side exactly that member and decoding a raw value
/// gives back the member Noesis meant by it.
pub proof fn lemma_fill_rule_raw_values()
    ensures
        FillRule::EvenOdd.raw_of() == 0,
        FillRule::Nonzero.raw_of() == 1,
{
}

/// The raw value of each member of [`GeometryCombineMode`] is the one Noesis assigns it, so
/// encoding hands the native side exactly that member and decoding a raw value
/// gives back the member Noesis meant by it.
pub proof fn lemma_geometry_combine_mode_raw_values()
    ensures
        GeometryCombineMode::Union.raw_of() == 0,
        GeometryCombineMode::Intersect.raw_of() == 1,
        GeometryCombineMode::Xor.raw_of() == 2,
        GeometryCombineMode::Exclude.raw_of() == 3,
{
}

/// The raw value of each member of [`SweepDirection`] is the one Noesis assigns it, so
/// encoding hands the native side exactly that member and decoding a raw value
/// gives back the member Noesis meant by it.
pub proof fn lemma_sweep_direction_raw_values()
    ensures
        SweepDirection::Counterclockwise.raw_of() == 0,
        SweepDirection::Clockwise.raw_of() == 1,
{
}

} // verus!
