//! Font weight ordinals (`NsGui/FontProperties.h`). The numeric value is the
//! CSS-style weight; `Normal`/`Regular` is `400`, `Bold` is `700`.

use vstd::prelude::*;

verus! {

pub const THIN: i32 = 100;

pub const EXTRA_LIGHT: i32 = 200;

pub const LIGHT: i32 = 300;

pub const SEMI_LIGHT: i32 = 350;

pub const NORMAL: i32 = 400;

pub const MEDIUM: i32 = 500;

pub const SEMI_BOLD: i32 = 600;

pub const BOLD: i32 = 700;

pub const EXTRA_BOLD: i32 = 800;

pub const BLACK: i32 = 900;

pub const EXTRA_BLACK: i32 = 950;

} // verus!
