//! Drawing value types: pen caps and joins and the blending modes, with the
//! raw values the drawing entry points take and report.

use vstd::prelude::*;

verus! {

/// `Noesis::PenLineCap`: the shape at the end of a line or dash.
#[derive(Copy, Clone, Debug, PartialEq, Eq)]
pub enum PenLineCap {
    /// No extension past the end point.
    Flat,
    /// A square extending half the thickness past the end point.
    Square,
    /// A semicircle of the line's thickness.
    Round,
    /// A triangle whose apex extends past the end point.
    Triangle,
}

impl PenLineCap {
    /// The raw value Noesis uses for this member.
    pub open spec fn raw_of(self) -> i32 {
        match self {
            PenLineCap::Flat => 0,
            PenLineCap::Square => 1,
            PenLineCap::Round => 2,
            PenLineCap::Triangle => 3,
        }
    }

    /// The raw value handed across the FFI for this member.
    pub fn to_raw(self) -> (r: i32)
        ensures
            r == self.raw_of(),
    {
        match self {
            PenLineCap::Flat => 0,
            PenLineCap::Square => 1,
            PenLineCap::Round => 2,
            PenLineCap::Triangle => 3,
        }
    }
}

/// Distinct members of [`PenLineCap`] have distinct raw values, so decoding the
/// raw value of a member gives that member back.
pub proof fn lemma_pen_line_cap_raw_injective(a: PenLineCap, b: PenLineCap)
    ensures
        a.raw_of() == b.raw_of() ==> a == b,
{
}

/// `Noesis::PenLineJoin`: how two connected segments are joined.
#[derive(Copy, Clone, Debug, PartialEq, Eq)]
pub enum PenLineJoin {
    /// Sharp corners, limited by the miter limit.
    Miter,
    /// Corners cut off diagonally.
    Bevel,
    /// Rounded corners.
    Round,
}

impl PenLineJoin {
    /// The raw value Noesis uses for this member.
    pub open spec fn raw_of(self) -> i32 {
        match self {
            PenLineJoin::Miter => 0,
            PenLineJoin::Bevel => 1,
            PenLineJoin::Round => 2,
        }
    }

    /// The raw value handed across the FFI for this member.
    pub fn to_raw(self) -> (r: i32)
        ensures
            r == self.raw_of(),
    {
        match self {
            PenLineJoin::Miter => 0,
            PenLineJoin::Bevel => 1,
            PenLineJoin::Round => 2,
        }
    }
}

/// Distinct members of [`PenLineJoin`] have distinct raw values, so decoding the
/// raw value of a member gives that member back.
pub proof fn lemma_pen_line_join_raw_injective(a: PenLineJoin, b: PenLineJoin)
    ensures
        a.raw_of() == b.raw_of() ==> a == b,
{
}

/// `Noesis::BlendingMode`: how pushed content is composited.
#[derive(Copy, Clone, Debug, PartialEq, Eq)]
pub enum BlendingMode {
    /// Ordinary source-over blending.
    Normal,
    /// Multiply source and destination.
    Multiply,
    /// Screen blending.
    Screen,
    /// Add source to destination.
    Additive,
}

impl BlendingMode {
    /// The raw value Noesis uses for this member.
    pub open spec fn raw_of(self) -> i32 {
        match self {
            BlendingMode::Normal => 0,
            BlendingMode::Multiply => 1,
            BlendingMode::Screen => 2,
            BlendingMode::Additive => 3,
        }
    }

    /// The raw value handed across the FFI for this member.
    pub fn to_raw(self) -> (r: i32)
        ensures
            r == self.raw_of(),
    {
        match self {
            BlendingMode::Normal => 0,
            BlendingMode::Multiply => 1,
            BlendingMode::Screen => 2,
            BlendingMode::Additive => 3,
        }
    }
}

/// Distinct members of [`BlendingMode`] have distinct raw values, so decoding the
/// raw value of a member gives that member back.
pub proof fn lemma_blending_mode_raw_injective(a: BlendingMode, b: BlendingMode)
    ensures
        a.raw_of() == b.raw_of() ==> a == b,
{
}

/// Decode a pen line cap read back from Noesis; an unknown value reads as
/// [`PenLineCap::Flat`].
pub fn cap_from_i32(v: i32) -> (r: PenLineCap)
    ensures
        (exists|m: PenLineCap| m.raw_of() == v) ==> r.raw_of() == v,
        (forall|m: PenLineCap| m.raw_of() != v) ==> r == PenLineCap::Flat,
{
    assert(PenLineCap::Square.raw_of() == 1 && PenLineCap::Round.raw_of() == 2
        && PenLineCap::Triangle.raw_of() == 3);
    match v {
        1 => PenLineCap::Square,
        2 => PenLineCap::Round,
        3 => PenLineCap::Triangle,
        _ => PenLineCap::Flat,
    }
}

/// Decode a pen line join read back from Noesis; an unknown value reads as
/// [`PenLineJoin::Miter`].
pub fn join_from_i32(v: i32) -> (r: PenLineJoin)
    ensures
        (exists|m: PenLineJoin| m.raw_of() == v) ==> r.raw_of() == v,
        (forall|m: PenLineJoin| m.raw_of() != v) ==> r == PenLineJoin::Miter,
{
    assert(PenLineJoin::Bevel.raw_of() == 1 && PenLineJoin::Round.raw_of() == 2);
    match v {
        1 => PenLineJoin::Bevel,
        2 => PenLineJoin::Round,
        _ => PenLineJoin::Miter,
    }
}


/// The raw value of each member of [`PenLineCap`] is the one Noesis assigns it, so
/// encoding hands the native side exactly that member and decoding a raw value
/// gives back the member Noesis meant by it.
pub proof fn lemma_pen_line_cap_raw_values()
    ensures
        PenLineCap::Flat.raw_of() == 0,
        PenLineCap::Square.raw_of() == 1,
        PenLineCap::Round.raw_of() == 2,
        PenLineCap::Triangle.raw_of() == 3,
{
}

/// The raw value of each member of [`PenLineJoin`] is the one Noesis assigns it, so
/// encoding hands the native side exactly that member and decoding a raw value
/// gives back the member Noesis meant by it.
pub proof fn lemma_pen_line_join_raw_values()
    ensures
        PenLineJoin::Miter.raw_of() == 0,
        PenLineJoin::Bevel.raw_of() == 1,
        PenLineJoin::Round.raw_of() == 2,
{
}

/// The raw value of each member of [`BlendingMode`] is the one Noesis assigns it, so
/// encoding hands the native side exactly that member and decoding a raw value
/// gives back the member Noesis meant by it.
pub proof fn lemma_blending_mode_raw_values()
    ensures
        BlendingMode::Normal.raw_of() == 0,
        BlendingMode::Multiply.raw_of() == 1,
        BlendingMode::Screen.raw_of() == 2,
        BlendingMode::Additive.raw_of() == 3,
{
}

} // verus!
