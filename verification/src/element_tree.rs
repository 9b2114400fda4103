//! Element-tree value types: the grid length unit.

use vstd::prelude::*;

verus! {

/// `Noesis::GridUnitType`: how a grid row height or column width is
/// interpreted.
#[derive(Copy, Clone, Debug, PartialEq, Eq)]
pub enum GridUnitType {
    /// Size to content.
    Auto,
    /// A fixed size in device-independent pixels.
    Pixel,
    /// A weighted share of the remaining space.
    Star,
}

impl GridUnitType {
    /// The raw value Noesis uses for this member.
    pub open spec fn raw_of(self) -> i32 {
        match self {
            GridUnitType::Auto => 0,
            GridUnitType::Pixel => 1,
            GridUnitType::Star => 2,
        }
    }

    /// The raw value handed across the FFI for this member.
    pub fn to_raw(self) -> (r: i32)
        ensures
            r == self.raw_of(),
    {
        match self {
            GridUnitType::Auto => 0,
            GridUnitType::Pixel => 1,
            GridUnitType::Star => 2,
        }
    }

    /// Decode a raw value; `None` when no member has it.
    pub fn from_raw(v: i32) -> (r: Option<GridUnitType>)
        ensures
            match r {
                Some(m) => m.raw_of() == v,
                None => forall|m: GridUnitType| m.raw_of() != v,
            },
    {
        match v {
            0 => Some(GridUnitType::Auto),
            1 => Some(GridUnitType::Pixel),
            2 => Some(GridUnitType::Star),
            _ => None,
        }
    }
}

/// Distinct members of [`GridUnitType`] have distinct raw values, so decoding the
/// raw value of a member gives that member back.
pub proof fn lemma_grid_unit_type_raw_injective(a: GridUnitType, b: GridUnitType)
    ensures
        a.raw_of() == b.raw_of() ==> a == b,
{
}


/// The raw value of each member of [`GridUnitType`] is the one Noesis assigns it, so
/// encoding hands the native side exactly that member and decoding a raw value
/// gives back the member Noesis meant by it.
pub proof fn lemma_grid_unit_type_raw_values()
    ensures
        GridUnitType::Auto.raw_of() == 0,
        GridUnitType::Pixel.raw_of() == 1,
        GridUnitType::Star.raw_of() == 2,
{
}

} // verus!
