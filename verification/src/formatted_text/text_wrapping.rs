//! Text wrapping ordinals (`NsGui/TextProperties.h`).

use vstd::prelude::*;

verus! {

pub const NO_WRAP: i32 = 0;

pub const WRAP: i32 = 1;

pub const WRAP_WITH_OVERFLOW: i32 = 2;

} // verus!
