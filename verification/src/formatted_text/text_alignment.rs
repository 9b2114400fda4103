//! Text alignment ordinals (`NsGui/TextProperties.h`).

use vstd::prelude::*;

verus! {

pub const LEFT: i32 = 0;

pub const RIGHT: i32 = 1;

pub const CENTER: i32 = 2;

pub const JUSTIFY: i32 = 3;

} // verus!
