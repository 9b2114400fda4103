//! Animation value types: easing, fill, hand-off and key-frame enums, with
//! the raw values the Noesis animation entry points take and report.

use vstd::prelude::*;

verus! {

/// Which end of an easing curve the easing applies to (`Noesis::EasingMode`).
#[derive(Copy, Clone, Debug, PartialEq, Eq)]
#[non_exhaustive]
pub enum EasingMode {
    /// `100% - f(t)`: decelerating.
    EaseOut,
    /// `f(t)`: accelerating.
    EaseIn,
    /// `EaseIn` for the first half, `EaseOut` for the second.
    EaseInOut,
}

impl EasingMode {
    /// The raw value Noesis uses for this member.
    pub open spec fn raw_of(self) -> i32 {
        match self {
            EasingMode::EaseOut => 0,
            EasingMode::EaseIn => 1,
            EasingMode::EaseInOut => 2,
        }
    }

    /// The raw value handed across the FFI for this member.
    pub fn to_raw(self) -> (r: i32)
        ensures
            r == self.raw_of(),
    {
        match self {
            EasingMode::EaseOut => 0,
            EasingMode::EaseIn => 1,
            EasingMode::EaseInOut => 2,
        }
    }
}

/// Distinct members of [`EasingMode`] have distinct raw values, so decoding the
/// raw value of a member gives that member back.
pub proof fn lemma_easing_mode_raw_injective(a: EasingMode, b: EasingMode)
    ensures
        a.raw_of() == b.raw_of() ==> a == b,
{
}

/// The concrete easing curve, as numbered by the shim's easing factory.
#[derive(Copy, Clone, Debug, PartialEq, Eq)]
#[non_exhaustive]
pub enum EasingKind {
    /// `t^2`.
    Quadratic,
    /// `t^3`.
    Cubic,
    /// `t^4`.
    Quartic,
    /// `t^5`.
    Quintic,
    /// Sinusoidal.
    Sine,
    /// Circular arc.
    Circle,
    /// Retracts slightly before moving.
    Back,
    /// Bouncing.
    Bounce,
    /// Spring-like oscillation.
    Elastic,
    /// Exponential.
    Exponential,
    /// Configurable power.
    Power,
}

impl EasingKind {
    /// The raw value Noesis uses for this member.
    pub open spec fn raw_of(self) -> i32 {
        match self {
            EasingKind::Quadratic => 0,
            EasingKind::Cubic => 1,
            EasingKind::Quartic => 2,
            EasingKind::Quintic => 3,
            EasingKind::Sine => 4,
            EasingKind::Circle => 5,
            EasingKind::Back => 6,
            EasingKind::Bounce => 7,
            EasingKind::Elastic => 8,
            EasingKind::Exponential => 9,
            EasingKind::Power => 10,
        }
    }

    /// The raw value handed across the FFI for this member.
    pub fn to_raw(self) -> (r: i32)
        ensures
            r == self.raw_of(),
    {
        match self {
            EasingKind::Quadratic => 0,
            EasingKind::Cubic => 1,
            EasingKind::Quartic => 2,
            EasingKind::Quintic => 3,
            EasingKind::Sine => 4,
            EasingKind::Circle => 5,
            EasingKind::Back => 6,
            EasingKind::Bounce => 7,
            EasingKind::Elastic => 8,
            EasingKind::Exponential => 9,
            EasingKind::Power => 10,
        }
    }
}

/// Distinct members of [`EasingKind`] have distinct raw values, so decoding the
/// raw value of a member gives that member back.
pub proof fn lemma_easing_kind_raw_injective(a: EasingKind, b: EasingKind)
    ensures
        a.raw_of() == b.raw_of() ==> a == b,
{
}

/// How a timeline behaves once it reaches the end of its active period
/// (`Noesis::FillBehavior`).
#[derive(Copy, Clone, Debug, PartialEq, Eq)]
#[non_exhaustive]
pub enum FillBehavior {
    /// Hold the final animated value after completion.
    HoldEnd,
    /// Release the animated value (revert to base) after completion.
    Stop,
}

impl FillBehavior {
    /// The raw value Noesis uses for this member.
    pub open spec fn raw_of(self) -> i32 {
        match self {
            FillBehavior::HoldEnd => 0,
            FillBehavior::Stop => 1,
        }
    }

    /// The raw value handed across the FFI for this member.
    pub fn to_raw(self) -> (r: i32)
        ensures
            r == self.raw_of(),
    {
        match self {
            FillBehavior::HoldEnd => 0,
            FillBehavior::Stop => 1,
        }
    }
}

/// Distinct members of [`FillBehavior`] have distinct raw values, so decoding the
/// raw value of a member gives that member back.
pub proof fn lemma_fill_behavior_raw_injective(a: FillBehavior, b: FillBehavior)
    ensures
        a.raw_of() == b.raw_of() ==> a == b,
{
}

/// How a newly started animation interacts with one already running on the
/// same property (`Noesis::HandoffBehavior`).
#[derive(Copy, Clone, Debug, PartialEq, Eq)]
#[non_exhaustive]
pub enum HandoffBehavior {
    /// Snapshot the current value and replace any running animation.
    SnapshotAndReplace,
    /// Compose with any running animation.
    Compose,
}

impl HandoffBehavior {
    /// The raw value Noesis uses for this member.
    pub open spec fn raw_of(self) -> i32 {
        match self {
            HandoffBehavior::SnapshotAndReplace => 0,
            HandoffBehavior::Compose => 1,
        }
    }

    /// The raw value handed across the FFI for this member.
    pub fn to_raw(self) -> (r: i32)
        ensures
            r == self.raw_of(),
    {
        match self {
            HandoffBehavior::SnapshotAndReplace => 0,
            HandoffBehavior::Compose => 1,
        }
    }

    /// Decode a raw value; `None` when no member has it.
    pub fn from_raw(v: i32) -> (r: Option<HandoffBehavior>)
        ensures
            match r {
                Some(m) => m.raw_of() == v,
                None => forall|m: HandoffBehavior| m.raw_of() != v,
            },
    {
        match v {
            0 => Some(HandoffBehavior::SnapshotAndReplace),
            1 => Some(HandoffBehavior::Compose),
            _ => None,
        }
    }
}

/// Distinct members of [`HandoffBehavior`] have distinct raw values, so decoding the
/// raw value of a member gives that member back.
pub proof fn lemma_handoff_behavior_raw_injective(a: HandoffBehavior, b: HandoffBehavior)
    ensures
        a.raw_of() == b.raw_of() ==> a == b,
{
}

/// The interpolation method of a single key frame, as numbered by the shim's
/// key-frame factory.
#[derive(Copy, Clone, Debug, PartialEq, Eq)]
#[non_exhaustive]
pub enum KeyFrameKind {
    /// Jump to the value at the key time (no interpolation).
    Discrete,
    /// Linear interpolation up to the key time.
    Linear,
    /// Eased interpolation (with an easing function).
    Easing,
    /// Spline interpolation (with a key spline).
    Spline,
}

impl KeyFrameKind {
    /// The raw value Noesis uses for this member.
    pub open spec fn raw_of(self) -> i32 {
        match self {
            KeyFrameKind::Discrete => 0,
            KeyFrameKind::Linear => 1,
            KeyFrameKind::Easing => 2,
            KeyFrameKind::Spline => 3,
        }
    }

    /// The raw value handed across the FFI for this member.
    pub fn to_raw(self) -> (r: i32)
        ensures
            r == self.raw_of(),
    {
        match self {
            KeyFrameKind::Discrete => 0,
            KeyFrameKind::Linear => 1,
            KeyFrameKind::Easing => 2,
            KeyFrameKind::Spline => 3,
        }
    }
}

/// Distinct members of [`KeyFrameKind`] have distinct raw values, so decoding the
/// raw value of a member gives that member back.
pub proof fn lemma_key_frame_kind_raw_injective(a: KeyFrameKind, b: KeyFrameKind)
    ensures
        a.raw_of() == b.raw_of() ==> a == b,
{
}


/// The raw value of each member of [`EasingMode`] is the one Noesis assigns it, so
/// encoding hands the native side exactly that member and decoding a raw value
/// gives back the member Noesis meant by it.
pub proof fn lemma_easing_mode_raw_values()
    ensures
        EasingMode::EaseOut.raw_of() == 0,
        EasingMode::EaseIn.raw_of() == 1,
        EasingMode::EaseInOut.raw_of() == 2,
{
}

/// The raw value of each member of [`EasingKind`] is the one Noesis assigns it, so
/// encoding hands the native side exactly that member and decoding a raw value
/// gives back the member Noesis meant by it.
pub proof fn lemma_easing_kind_raw_values()
    ensures
        EasingKind::Quadratic.raw_of() == 0,
        EasingKind::Cubic.raw_of() == 1,
        EasingKind::Quartic.raw_of() == 2,
        EasingKind::Quintic.raw_of() == 3,
        EasingKind::Sine.raw_of() == 4,
        EasingKind::Circle.raw_of() == 5,
        EasingKind::Back.raw_of() == 6,
        EasingKind::Bounce.raw_of() == 7,
        EasingKind::Elastic.raw_of() == 8,
        EasingKind::Exponential.raw_of() == 9,
        EasingKind::Power.raw_of() == 10,
{
}

/// The raw value of each member of [`FillBehavior`] is the one Noesis assigns it, so
/// encoding hands the native side exactly that member and decoding a raw value
/// gives back the member Noesis meant by it.
pub proof fn lemma_fill_behavior_raw_values()
    ensures
        FillBehavior::HoldEnd.raw_of() == 0,
        FillBehavior::Stop.raw_of() == 1,
{
}

/// The raw value of each member of [`HandoffBehavior`] is the one Noesis assigns it, so
/// encoding hands the native side exactly that member and decoding a raw value
/// gives back the member Noesis meant by it.
pub proof fn lemma_handoff_behavior_raw_values()
    ensures
        HandoffBehavior::SnapshotAndReplace.raw_of() == 0,
        HandoffBehavior::Compose.raw_of() == 1,
{
}

/// The raw value of each member of [`KeyFrameKind`] is the one Noesis assigns it, so
/// encoding hands the native side exactly that member and decoding a raw value
/// gives back the member Noesis meant by it.
pub proof fn lemma_key_frame_kind_raw_values()
    ensures
        KeyFrameKind::Discrete.raw_of() == 0,
        KeyFrameKind::Linear.raw_of() == 1,
        KeyFrameKind::Easing.raw_of() == 2,
        KeyFrameKind::Spline.raw_of() == 3,
{
}

} // verus!
