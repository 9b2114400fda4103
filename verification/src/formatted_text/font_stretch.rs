//! Font stretch ordinals (`NsGui/FontProperties.h`); `Normal`/`Medium` is `5`.

use vstd::prelude::*;

verus! {

pub const ULTRA_CONDENSED: i32 = 1;

pub const EXTRA_CONDENSED: i32 = 2;

pub const CONDENSED: i32 = 3;

pub const SEMI_CONDENSED: i32 = 4;

pub const NORMAL: i32 = 5;

pub const SEMI_EXPANDED: i32 = 6;

pub const EXPANDED: i32 = 7;

pub const EXTRA_EXPANDED: i32 = 8;

pub const ULTRA_EXPANDED: i32 = 9;

} // verus!
