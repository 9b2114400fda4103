//! Value types shared with the native shim: log severities, the base classes a
//! Rust-backed class may derive from, and the property value-type tags.

use vstd::prelude::*;

verus! {

/// Severity of a log record delivered to a log handler.
#[derive(Copy, Clone, Debug, PartialEq, Eq)]
pub enum LogLevel {
    Trace,
    Debug,
    Info,
    Warning,
    Error,
}

impl LogLevel {
    /// The raw value Noesis uses for this member.
    pub open spec fn raw_of(self) -> u32 {
        match self {
            LogLevel::Trace => 0,
            LogLevel::Debug => 1,
            LogLevel::Info => 2,
            LogLevel::Warning => 3,
            LogLevel::Error => 4,
        }
    }

    /// The raw value handed across the FFI for this member.
    pub fn to_raw(self) -> (r: u32)
        ensures
            r == self.raw_of(),
    {
        match self {
            LogLevel::Trace => 0,
            LogLevel::Debug => 1,
            LogLevel::Info => 2,
            LogLevel::Warning => 3,
            LogLevel::Error => 4,
        }
    }

    /// Decode a raw value; `None` when no member has it.
    pub fn from_raw(v: u32) -> (r: Option<LogLevel>)
        ensures
            match r {
                Some(m) => m.raw_of() == v,
                None => forall|m: LogLevel| m.raw_of() != v,
            },
    {
        match v {
            0 => Some(LogLevel::Trace),
            1 => Some(LogLevel::Debug),
            2 => Some(LogLevel::Info),
            3 => Some(LogLevel::Warning),
            4 => Some(LogLevel::Error),
            _ => None,
        }
    }
}

/// Distinct members of [`LogLevel`] have distinct raw values, so decoding the
/// raw value of a member gives that member back.
pub proof fn lemma_log_level_raw_injective(a: LogLevel, b: LogLevel)
    ensures
        a.raw_of() == b.raw_of() ==> a == b,
{
}

/// The Noesis base class a Rust-backed class derives from.
#[derive(Copy, Clone, Debug, PartialEq, Eq)]
pub enum ClassBase {
    ContentControl,
    Control,
    FrameworkElement,
    UserControl,
    Panel,
    Decorator,
    /// A custom `Noesis::Freezable`: custom dependency properties, no layout or
    /// render surface.
    Freezable,
}

impl ClassBase {
    /// The raw value Noesis uses for this member.
    pub open spec fn raw_of(self) -> u32 {
        match self {
            ClassBase::ContentControl => 0,
            ClassBase::Control => 1,
            ClassBase::FrameworkElement => 2,
            ClassBase::UserControl => 3,
            ClassBase::Panel => 4,
            ClassBase::Decorator => 5,
            ClassBase::Freezable => 6,
        }
    }

    /// The raw value handed across the FFI for this member.
    pub fn to_raw(self) -> (r: u32)
        ensures
            r == self.raw_of(),
    {
        match self {
            ClassBase::ContentControl => 0,
            ClassBase::Control => 1,
            ClassBase::FrameworkElement => 2,
            ClassBase::UserControl => 3,
            ClassBase::Panel => 4,
            ClassBase::Decorator => 5,
            ClassBase::Freezable => 6,
        }
    }
}

/// Distinct members of [`ClassBase`] have distinct raw values, so decoding the
/// raw value of a member gives that member back.
pub proof fn lemma_class_base_raw_injective(a: ClassBase, b: ClassBase)
    ensures
        a.raw_of() == b.raw_of() ==> a == b,
{
}

/// Value-type tag of a dependency property. The buffer layout of a value
/// crossing the shim is determined by this tag.
#[derive(Copy, Clone, Debug, PartialEq, Eq)]
pub enum PropType {
    Int32,
    Float,
    Double,
    Bool,
    String,
    Thickness,
    Color,
    Rect,
    ImageSource,
    BaseComponent,
    UInt32,
    /// `Noesis::Point` (x, y).
    Point,
    /// `Noesis::Size` (width, height).
    Size,
    /// `Noesis::Vector2` (x, y).
    Vector,
    /// Runtime-enum-typed property with `int32` storage.
    Enum,
}

impl PropType {
    /// The raw value Noesis uses for this member.
    pub open spec fn raw_of(self) -> u32 {
        match self {
            PropType::Int32 => 0,
            PropType::Float => 1,
            PropType::Double => 2,
            PropType::Bool => 3,
            PropType::String => 4,
            PropType::Thickness => 5,
            PropType::Color => 6,
            PropType::Rect => 7,
            PropType::ImageSource => 8,
            PropType::BaseComponent => 9,
            PropType::UInt32 => 10,
            PropType::Point => 11,
            PropType::Size => 12,
            PropType::Vector => 13,
            PropType::Enum => 14,
        }
    }

    /// The raw value handed across the FFI for this member.
    pub fn to_raw(self) -> (r: u32)
        ensures
            r == self.raw_of(),
    {
        match self {
            PropType::Int32 => 0,
            PropType::Float => 1,
            PropType::Double => 2,
            PropType::Bool => 3,
            PropType::String => 4,
            PropType::Thickness => 5,
            PropType::Color => 6,
            PropType::Rect => 7,
            PropType::ImageSource => 8,
            PropType::BaseComponent => 9,
            PropType::UInt32 => 10,
            PropType::Point => 11,
            PropType::Size => 12,
            PropType::Vector => 13,
            PropType::Enum => 14,
        }
    }
}

/// Distinct members of [`PropType`] have distinct raw values, so decoding the
/// raw value of a member gives that member back.
pub proof fn lemma_prop_type_raw_injective(a: PropType, b: PropType)
    ensures
        a.raw_of() == b.raw_of() ==> a == b,
{
}


/// The raw value of each member of [`LogLevel`] is the one Noesis assigns it, so
/// encoding hands the native side exactly that member and decoding a raw value
/// gives back the member Noesis meant by it.
pub proof fn lemma_log_level_raw_values()
    ensures
        LogLevel::Trace.raw_of() == 0,
        LogLevel::Debug.raw_of() == 1,
        LogLevel::Info.raw_of() == 2,
        LogLevel::Warning.raw_of() == 3,
        LogLevel::Error.raw_of() == 4,
{
}

/// The raw value of each member of [`ClassBase`] is the one Noesis assigns it, so
/// encoding hands the native side exactly that member and decoding a raw value
/// gives back the member Noesis meant by it.
pub proof fn lemma_class_base_raw_values()
    ensures
        ClassBase::ContentControl.raw_of() == 0,
        ClassBase::Control.raw_of() == 1,
        ClassBase::FrameworkElement.raw_of() == 2,
        ClassBase::UserControl.raw_of() == 3,
        ClassBase::Panel.raw_of() == 4,
        ClassBase::Decorator.raw_of() == 5,
        ClassBase::Freezable.raw_of() == 6,
{
}

/// The raw value of each member of [`PropType`] is the one Noesis assigns it, so
/// encoding hands the native side exactly that member and decoding a raw value
/// gives back the member Noesis meant by it.
pub proof fn lemma_prop_type_raw_values()
    ensures
        PropType::Int32.raw_of() == 0,
        PropType::Float.raw_of() == 1,
        PropType::Double.raw_of() == 2,
        PropType::Bool.raw_of() == 3,
        PropType::String.raw_of() == 4,
        PropType::Thickness.raw_of() == 5,
        PropType::Color.raw_of() == 6,
        PropType::Rect.raw_of() == 7,
        PropType::ImageSource.raw_of() == 8,
        PropType::BaseComponent.raw_of() == 9,
        PropType::UInt32.raw_of() == 10,
        PropType::Point.raw_of() == 11,
        PropType::Size.raw_of() == 12,
        PropType::Vector.raw_of() == 13,
        PropType::Enum.raw_of() == 14,
{
}

} // verus!
