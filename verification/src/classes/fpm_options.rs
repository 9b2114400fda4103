//! `FrameworkPropertyMetadataOptions` bit flags (mirror of the Noesis enum).
//! OR these together into `PropertyOptions::fpm_options` so that changing the
//! property invalidates the matching layout / render pass.

use vstd::prelude::*;

verus! {

/// No framework options.
pub const NONE: u32 = 0x000;

/// A change re-runs the owning element's measure pass.
pub const AFFECTS_MEASURE: u32 = 0x001;

/// A change re-runs the owning element's arrange pass.
pub const AFFECTS_ARRANGE: u32 = 0x002;

/// A change re-runs the parent's measure pass.
pub const AFFECTS_PARENT_MEASURE: u32 = 0x004;

/// A change re-runs the parent's arrange pass.
pub const AFFECTS_PARENT_ARRANGE: u32 = 0x008;

/// A change re-runs the owning element's render pass.
pub const AFFECTS_RENDER: u32 = 0x010;

/// The property value is inherited down the logical tree.
pub const INHERITS: u32 = 0x020;

} // verus!
