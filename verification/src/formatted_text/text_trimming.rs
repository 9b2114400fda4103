//! Text trimming ordinals (`NsGui/TextProperties.h`).

use vstd::prelude::*;

verus! {

pub const NONE: i32 = 0;

pub const CHARACTER_ELLIPSIS: i32 = 1;

pub const WORD_ELLIPSIS: i32 = 2;

} // verus!
