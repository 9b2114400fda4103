use lib::classes::{
    coerce_writes, decode_step, fpm_options, ClassBuilder, CoercedKind, DecodeStep, PropTypeTable,
    PropertyOptions, PropertyRegistration,
};
use lib::ffi::{ClassBase, PropType};

#[test]
fn property_indices_grow_from_zero_in_addition_order() {
    let mut b = ClassBuilder::new("AOR.NineSlicer", ClassBase::ContentControl);
    assert_eq!(b.add_property("Source", PropType::ImageSource), 0);
    let opts = PropertyOptions { fpm_options: fpm_options::AFFECTS_MEASURE, read_only: true, coerce: false };
    assert_eq!(b.add_property_ex("SliceThickness", PropType::Thickness, opts), 1);
    assert_eq!(b.add_enum_property("Mode", "AOR.SliceMode", 2, PropertyOptions::default()), 2);
    assert_eq!(b.num_properties(), 3);
    assert_eq!(b.name(), "AOR.NineSlicer");
    assert_eq!(b.base(), ClassBase::ContentControl);
    assert_eq!(b.property(1).name, "SliceThickness");
    assert_eq!(b.property(1).kind, PropType::Thickness);
    assert!(b.property(1).options.read_only);
    assert_eq!(b.property(1).options.fpm_options, 0x001);
    assert!(b.property(0).enum_type.is_none());
    assert_eq!(b.property(2).kind, PropType::Enum);
    assert_eq!(b.property(2).enum_type, Some(("AOR.SliceMode".to_string(), 2)));
}

#[test]
fn registration_succeeds_when_every_property_is_accepted() {
    let mut b = ClassBuilder::new("DM.Row", ClassBase::Freezable);
    b.add_property("A", PropType::Int32);
    b.add_property("B", PropType::Bool);
    let mut r = b.registrar();
    let mut order = Vec::new();
    while let Some(i) = r.next_property() {
        order.push(i);
        assert!(r.record(i as u32));
    }
    assert_eq!(order, vec![0, 1]);
    assert_eq!(r.finish(), Some(2));
}

#[test]
fn first_rejected_property_aborts_registration() {
    let mut b = ClassBuilder::new("DM.Bad", ClassBase::Control);
    b.add_property("A", PropType::Int32);
    b.add_property("B", PropType::Float);
    b.add_property("C", PropType::Double);
    let mut r = b.registrar();
    assert_eq!(r.next_property(), Some(0));
    assert!(r.record(0));
    assert_eq!(r.next_property(), Some(1));
    assert!(!r.record(u32::MAX));
    assert_eq!(r.next_property(), None);
    assert_eq!(r.finish(), None);
}

#[test]
fn class_without_properties_registers_with_none() {
    let b = ClassBuilder::new("DM.Empty", ClassBase::Panel);
    let r = b.registrar();
    assert_eq!(r.next_property(), None);
    assert_eq!(r.finish(), Some(0));
}

#[test]
fn unfinished_registration_has_no_outcome() {
    let mut b = ClassBuilder::new("DM.Half", ClassBase::Panel);
    b.add_property("A", PropType::Int32);
    let r = b.registrar();
    assert_eq!(r.finish(), None);
}

#[test]
fn prop_type_table_record_lookup_forget() {
    let mut t = PropTypeTable::new();
    assert_eq!(t.lookup(10, 0), None);
    t.record(10, vec![PropType::Int32, PropType::Color]);
    t.record(20, vec![PropType::String]);
    assert_eq!(t.lookup(10, 0), Some(PropType::Int32));
    assert_eq!(t.lookup(10, 1), Some(PropType::Color));
    assert_eq!(t.lookup(10, 2), None);
    assert_eq!(t.lookup(20, 0), Some(PropType::String));
    // A second record for the same handler replaces the first.
    t.record(10, vec![PropType::Bool]);
    assert_eq!(t.lookup(10, 0), Some(PropType::Bool));
    assert_eq!(t.lookup(10, 1), None);
    t.forget(10);
    assert_eq!(t.lookup(10, 0), None);
    assert_eq!(t.lookup(20, 0), Some(PropType::String));
    t.forget(10);
    assert_eq!(t.lookup(20, 0), Some(PropType::String));
}

#[test]
fn decode_step_follows_the_recorded_type() {
    let mut t = PropTypeTable::new();
    t.record(7, vec![PropType::Rect]);
    assert!(matches!(decode_step(&t, 7, 0, false), DecodeStep::Read(PropType::Rect)));
    assert!(matches!(decode_step(&t, 7, 0, true), DecodeStep::NullValue(PropType::Rect)));
    assert!(matches!(decode_step(&t, 7, 1, false), DecodeStep::Unknown));
    assert!(matches!(decode_step(&t, 8, 0, false), DecodeStep::Unknown));
}

#[test]
fn coerced_value_written_only_for_matching_type() {
    assert!(coerce_writes(Some(PropType::Int32), CoercedKind::Int32));
    assert!(coerce_writes(Some(PropType::Vector), CoercedKind::Vector));
    assert!(!coerce_writes(Some(PropType::Int32), CoercedKind::Float));
    assert!(!coerce_writes(Some(PropType::Int32), CoercedKind::Unchanged));
    assert!(!coerce_writes(None, CoercedKind::Int32));
    assert!(!coerce_writes(Some(PropType::String), CoercedKind::Double));
    assert!(!coerce_writes(Some(PropType::Enum), CoercedKind::Int32));
}

#[test]
fn registered_types_are_the_declared_kinds() {
    let mut b = ClassBuilder::new("DM.Gauge", ClassBase::Control);
    b.add_property("Value", PropType::Double);
    b.add_enum_property("Mode", "DM.GaugeMode", 1, PropertyOptions::default());
    b.add_property("Fill", PropType::Color);
    let types = b.prop_types();
    assert_eq!(types, vec![PropType::Double, PropType::Enum, PropType::Color]);
    let mut t = PropTypeTable::new();
    t.record(42, types);
    assert_eq!(t.lookup(42, 0), Some(PropType::Double));
    assert_eq!(t.lookup(42, 1), Some(PropType::Enum));
    assert_eq!(t.lookup(42, 2), Some(PropType::Color));
    assert_eq!(t.lookup(42, 3), None);
    assert!(ClassBuilder::new("DM.Empty", ClassBase::Panel).prop_types().is_empty());
}

#[test]
fn registration_call_follows_the_property_spec() {
    let mut b = ClassBuilder::new("DM.Gauge", ClassBase::Control);
    let opts = PropertyOptions { fpm_options: fpm_options::AFFECTS_MEASURE, read_only: true, coerce: true };
    b.add_property_ex("Value", PropType::Double, opts);
    b.add_enum_property("Mode", "DM.GaugeMode", 3, opts);
    match b.property(0).registration() {
        PropertyRegistration::Plain { kind, fpm_options, read_only, coerce } => {
            assert_eq!(kind, 2);
            assert_eq!(fpm_options, 0x001);
            assert!(read_only);
            assert!(coerce);
        }
        PropertyRegistration::Enum { .. } => panic!("plain property registered as enum"),
    }
    match b.property(1).registration() {
        PropertyRegistration::Enum { enum_type, default, fpm_options, read_only } => {
            assert_eq!(enum_type, "DM.GaugeMode");
            assert_eq!(default, 3);
            assert_eq!(fpm_options, 0x001);
            assert!(read_only);
        }
        PropertyRegistration::Plain { .. } => panic!("enum property registered as plain"),
    }
}

#[test]
fn a_rejected_property_leaves_no_outcome() {
    let mut b = ClassBuilder::new("DM.Pair", ClassBase::Freezable);
    b.add_property("A", PropType::Int32);
    b.add_property("B", PropType::Int32);
    let mut r = b.registrar();
    assert!(r.record(0));
    assert!(!r.record(u32::MAX));
    assert_eq!(r.next_property(), None);
    assert_eq!(r.finish(), None);
}
