//! Flow direction ordinals (`NsGui/TextProperties.h`).

use vstd::prelude::*;

verus! {

pub const LEFT_TO_RIGHT: i32 = 0;

pub const RIGHT_TO_LEFT: i32 = 1;

} // verus!
