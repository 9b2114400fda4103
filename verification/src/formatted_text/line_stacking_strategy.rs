//! Line stacking strategy ordinals (`NsGui/TextProperties.h`).

use vstd::prelude::*;

verus! {

pub const BLOCK_LINE_HEIGHT: i32 = 0;

pub const MAX_HEIGHT: i32 = 1;

} // verus!
