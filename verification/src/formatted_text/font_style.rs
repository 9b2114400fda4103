//! Font style ordinals (`NsGui/FontProperties.h`).

use vstd::prelude::*;

verus! {

pub const NORMAL: i32 = 0;

pub const OBLIQUE: i32 = 1;

pub const ITALIC: i32 = 2;

} // verus!
