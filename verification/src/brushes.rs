//! Brush value types: the gradient, tile and mapping enums with the raw values
//! the Noesis brush entry points take and report.

use vstd::prelude::*;

verus! {

/// `Noesis::GradientSpreadMethod`: how a gradient paints the area outside its
/// `[0, 1]` gradient vector.
#[derive(Copy, Clone, Debug, PartialEq, Eq)]
#[non_exhaustive]
pub enum GradientSpreadMethod {
    /// Fill the remaining space with the boundary colors (the XAML default).
    Pad,
    /// Repeat the gradient in the reverse direction.
    Reflect,
    /// Repeat the gradient in the same direction until the area is filled.
    Repeat,
}

impl GradientSpreadMethod {
    /// The raw value Noesis uses for this member.
    pub open spec fn raw_of(self) -> i32 {
        match self {
            GradientSpreadMethod::Pad => 0,
            GradientSpreadMethod::Reflect => 1,
            GradientSpreadMethod::Repeat => 2,
        }
    }

    /// The raw value handed across the FFI for this member.
    pub fn to_ordinal(self) -> (r: i32)
        ensures
            r == self.raw_of(),
    {
        match self {
            GradientSpreadMethod::Pad => 0,
            GradientSpreadMethod::Reflect => 1,
            GradientSpreadMethod::Repeat => 2,
        }
    }

    /// Decode a raw value; `None` when no member has it.
    pub fn from_ordinal(v: i32) -> (r: Option<GradientSpreadMethod>)
        ensures
            match r {
                Some(m) => m.raw_of() == v,
                None => forall|m: GradientSpreadMethod| m.raw_of() != v,
            },
    {
        match v {
            0 => Some(GradientSpreadMethod::Pad),
            1 => Some(GradientSpreadMethod::Reflect),
            2 => Some(GradientSpreadMethod::Repeat),
            _ => None,
        }
    }
}

/// Distinct members of [`GradientSpreadMethod`] have distinct raw values, so decoding the
/// raw value of a member gives that member back.
pub proof fn lemma_gradient_spread_method_raw_injective(a: GradientSpreadMethod, b: GradientSpreadMethod)
    ensures
        a.raw_of() == b.raw_of() ==> a == b,
{
}

/// `Noesis::AlignmentX`: horizontal alignment of a tile's content within its
/// base tile.
#[derive(Copy, Clone, Debug, PartialEq, Eq)]
#[non_exhaustive]
pub enum AlignmentX {
    /// Align toward the left edge.
    Left,
    /// Align toward the center.
    Center,
    /// Align toward the right edge.
    Right,
}

impl AlignmentX {
    /// The raw value Noesis uses for this member.
    pub open spec fn raw_of(self) -> i32 {
        match self {
            AlignmentX::Left => 0,
            AlignmentX::Center => 1,
            AlignmentX::Right => 2,
        }
    }

    /// The raw value handed across the FFI for this member.
    pub fn to_ordinal(self) -> (r: i32)
        ensures
            r == self.raw_of(),
    {
        match self {
            AlignmentX::Left => 0,
            AlignmentX::Center => 1,
            AlignmentX::Right => 2,
        }
    }

    /// Decode a raw value; `None` when no member has it.
    pub fn from_ordinal(v: i32) -> (r: Option<AlignmentX>)
        ensures
            match r {
                Some(m) => m.raw_of() == v,
                None => forall|m: AlignmentX| m.raw_of() != v,
            },
    {
        match v {
            0 => Some(AlignmentX::Left),
            1 => Some(AlignmentX::Center),
            2 => Some(AlignmentX::Right),
            _ => None,
        }
    }
}

/// Distinct members of [`AlignmentX`] have distinct raw values, so decoding the
/// raw value of a member gives that member back.
pub proof fn lemma_alignment_x_raw_injective(a: AlignmentX, b: AlignmentX)
    ensures
        a.raw_of() == b.raw_of() ==> a == b,
{
}

/// `Noesis::AlignmentY`: vertical alignment of a tile's content within its base
/// tile.
#[derive(Copy, Clone, Debug, PartialEq, Eq)]
#[non_exhaustive]
pub enum AlignmentY {
    /// Align toward the upper edge.
    Top,
    /// Align toward the center.
    Center,
    /// Align toward the lower edge.
    Bottom,
}

impl AlignmentY {
    /// The raw value Noesis uses for this member.
    pub open spec fn raw_of(self) -> i32 {
        match self {
            AlignmentY::Top => 0,
            AlignmentY::Center => 1,
            AlignmentY::Bottom => 2,
        }
    }

    /// The raw value handed across the FFI for this member.
    pub fn to_ordinal(self) -> (r: i32)
        ensures
            r == self.raw_of(),
    {
        match self {
            AlignmentY::Top => 0,
            AlignmentY::Center => 1,
            AlignmentY::Bottom => 2,
        }
    }

    /// Decode a raw value; `None` when no member has it.
    pub fn from_ordinal(v: i32) -> (r: Option<AlignmentY>)
        ensures
            match r {
                Some(m) => m.raw_of() == v,
                None => forall|m: AlignmentY| m.raw_of() != v,
            },
    {
        match v {
            0 => Some(AlignmentY::Top),
            1 => Some(AlignmentY::Center),
            2 => Some(AlignmentY::Bottom),
            _ => None,
        }
    }
}

/// Distinct members of [`AlignmentY`] have distinct raw values, so decoding the
/// raw value of a member gives that member back.
pub proof fn lemma_alignment_y_raw_injective(a: AlignmentY, b: AlignmentY)
    ensures
        a.raw_of() == b.raw_of() ==> a == b,
{
}

/// `Noesis::Stretch`: how content is resized to fill its allocated space.
#[derive(Copy, Clone, Debug, PartialEq, Eq)]
#[non_exhaustive]
pub enum Stretch {
    /// Keep the content at its natural size (`Stretch::None` in Noesis).
    NoStretch,
    /// Resize to fill, ignoring aspect ratio.
    Fill,
    /// Resize to fit while preserving aspect ratio.
    Uniform,
    /// Resize to fill while preserving aspect ratio (clips overflow).
    UniformToFill,
}

impl Stretch {
    /// The raw value Noesis uses for this member.
    pub open spec fn raw_of(self) -> i32 {
        match self {
            Stretch::NoStretch => 0,
            Stretch::Fill => 1,
            Stretch::Uniform => 2,
            Stretch::UniformToFill => 3,
        }
    }

    /// The raw value handed across the FFI for this member.
    pub fn to_ordinal(self) -> (r: i32)
        ensures
            r == self.raw_of(),
    {
        match self {
            Stretch::NoStretch => 0,
            Stretch::Fill => 1,
            Stretch::Uniform => 2,
            Stretch::UniformToFill => 3,
        }
    }

    /// Decode a raw value; `None` when no member has it.
    pub fn from_ordinal(v: i32) -> (r: Option<Stretch>)
        ensures
            match r {
                Some(m) => m.raw_of() == v,
                None => forall|m: Stretch| m.raw_of() != v,
            },
    {
        match v {
            0 => Some(Stretch::NoStretch),
            1 => Some(Stretch::Fill),
            2 => Some(Stretch::Uniform),
            3 => Some(Stretch::UniformToFill),
            _ => None,
        }
    }
}

/// Distinct members of [`Stretch`] have distinct raw values, so decoding the
/// raw value of a member gives that member back.
pub proof fn lemma_stretch_raw_injective(a: Stretch, b: Stretch)
    ensures
        a.raw_of() == b.raw_of() ==> a == b,
{
}

/// `Noesis::TileMode`: how a base tile repeats to fill the painted area.
#[derive(Copy, Clone, Debug, PartialEq, Eq)]
#[non_exhaustive]
pub enum TileMode {
    /// Draw the base tile once; the rest is transparent (`TileMode::None` in
    /// Noesis).
    NoTile,
    /// Repeat the base tile edge-to-edge.
    Tile,
    /// Like `Tile`, flipping alternate columns horizontally.
    FlipX,
    /// Like `Tile`, flipping alternate rows vertically.
    FlipY,
    /// Combination of `FlipX` and `FlipY`.
    FlipXY,
}

impl TileMode {
    /// The raw value Noesis uses for this member.
    pub open spec fn raw_of(self) -> i32 {
        match self {
            TileMode::NoTile => 0,
            TileMode::Tile => 1,
            TileMode::FlipX => 2,
            TileMode::FlipY => 3,
            TileMode::FlipXY => 4,
        }
    }

    /// The raw value handed across the FFI for this member.
    pub fn to_ordinal(self) -> (r: i32)
        ensures
            r == self.raw_of(),
    {
        match self {
            TileMode::NoTile => 0,
            TileMode::Tile => 1,
            TileMode::FlipX => 2,
            TileMode::FlipY => 3,
            TileMode::FlipXY => 4,
        }
    }

    /// Decode a raw value; `None` when no member has it.
    pub fn from_ordinal(v: i32) -> (r: Option<TileMode>)
        ensures
            match r {
                Some(m) => m.raw_of() == v,
                None => forall|m: TileMode| m.raw_of() != v,
            },
    {
        match v {
            0 => Some(TileMode::NoTile),
            1 => Some(TileMode::Tile),
            2 => Some(TileMode::FlipX),
            3 => Some(TileMode::FlipY),
            4 => Some(TileMode::FlipXY),
            _ => None,
        }
    }
}

/// Distinct members of [`TileMode`] have distinct raw values, so decoding the
/// raw value of a member gives that member back.
pub proof fn lemma_tile_mode_raw_injective(a: TileMode, b: TileMode)
    ensures
        a.raw_of() == b.raw_of() ==> a == b,
{
}

/// `Noesis::BrushMappingMode`: whether a `Viewport` / `Viewbox` rectangle is in
/// absolute coordinates or relative to the bounding box.
#[derive(Copy, Clone, Debug, PartialEq, Eq)]
#[non_exhaustive]
pub enum BrushMappingMode {
    /// Coordinates are absolute (local space).
    Absolute,
    /// Coordinates are relative to the bounding box (`0..=1`).
    RelativeToBoundingBox,
}

impl BrushMappingMode {
    /// The raw value Noesis uses for this member.
    pub open spec fn raw_of(self) -> i32 {
        match self {
            BrushMappingMode::Absolute => 0,
            BrushMappingMode::RelativeToBoundingBox => 1,
        }
    }

    /// The raw value handed across the FFI for this member.
    pub fn to_ordinal(self) -> (r: i32)
        ensures
            r == self.raw_of(),
    {
        match self {
            BrushMappingMode::Absolute => 0,
            BrushMappingMode::RelativeToBoundingBox => 1,
        }
    }

    /// Decode a raw value; `None` when no member has it.
    pub fn from_ordinal(v: i32) -> (r: Option<BrushMappingMode>)
        ensures
            match r {
                Some(m) => m.raw_of() == v,
                None => forall|m: BrushMappingMode| m.raw_of() != v,
            },
    {
        match v {
            0 => Some(BrushMappingMode::Absolute),
            1 => Some(BrushMappingMode::RelativeToBoundingBox),
            _ => None,
        }
    }
}

/// Distinct members of [`BrushMappingMode`] have distinct raw values, so decoding the
/// raw value of a member gives that member back.
pub proof fn lemma_brush_mapping_mode_raw_injective(a: BrushMappingMode, b: BrushMappingMode)
    ensures
        a.raw_of() == b.raw_of() ==> a == b,
{
}


/// The raw value of each member of [`GradientSpreadMethod`] is the one Noesis assigns it, so
/// encoding hands the native side exactly that member and decoding a raw value
/// gives back the member Noesis meant by it.
pub proof fn lemma_gradient_spread_method_raw_values()
    ensures
        GradientSpreadMethod::Pad.raw_of() == 0,
        GradientSpreadMethod::Reflect.raw_of() == 1,
        GradientSpreadMethod::Repeat.raw_of() == 2,
{
}

/// The raw value of each member of [`AlignmentX`] is the one Noesis assigns it, so
/// encoding hands the native side exactly that member and decoding a raw value
/// gives back the member Noesis meant by it.
pub proof fn lemma_alignment_x_raw_values()
    ensures
        AlignmentX::Left.raw_of() == 0,
        AlignmentX::Center.raw_of() == 1,
        AlignmentX::Right.raw_of() == 2,
{
}

/// The raw value of each member of [`AlignmentY`] is the one Noesis assigns it, so
/// encoding hands the native side exactly that member and decoding a raw value
/// gives back the member Noesis meant by it.
pub proof fn lemma_alignment_y_raw_values()
    ensures
        AlignmentY::Top.raw_of() == 0,
        AlignmentY::Center.raw_of() == 1,
        AlignmentY::Bottom.raw_of() == 2,
{
}

/// The raw value of each member of [`Stretch`] is the one Noesis assigns it, so
/// encoding hands the native side exactly that member and decoding a raw value
/// gives back the member Noesis meant by it.
pub proof fn lemma_stretch_raw_values()
    ensures
        Stretch::NoStretch.raw_of() == 0,
        Stretch::Fill.raw_of() == 1,
        Stretch::Uniform.raw_of() == 2,
        Stretch::UniformToFill.raw_of() == 3,
{
}

/// The raw value of each member of [`TileMode`] is the one Noesis assigns it, so
/// encoding hands the native side exactly that member and decoding a raw value
/// gives back the member Noesis meant by it.
pub proof fn lemma_tile_mode_raw_values()
    ensures
        TileMode::NoTile.raw_of() == 0,
        TileMode::Tile.raw_of() == 1,
        TileMode::FlipX.raw_of() == 2,
        TileMode::FlipY.raw_of() == 3,
        TileMode::FlipXY.raw_of() == 4,
{
}

/// The raw value of each member of [`BrushMappingMode`] is the one Noesis assigns it, so
/// encoding hands the native side exactly that member and decoding a raw value
/// gives back the member Noesis meant by it.
pub proof fn lemma_brush_mapping_mode_raw_values()
    ensures
        BrushMappingMode::Absolute.raw_of() == 0,
        BrushMappingMode::RelativeToBoundingBox.raw_of() == 1,
{
}

} // verus!
