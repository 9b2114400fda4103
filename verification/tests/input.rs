use lib::input::{
    CaptureMode, FocusNavigationDirection, KeyStates, KeyboardNavigationMode, ModifierKeys,
    MouseAction,
};

#[test]
fn modifier_keys_doc_example() {
    let m = ModifierKeys::CONTROL().with(ModifierKeys::SHIFT());
    assert!(m.contains(ModifierKeys::CONTROL()));
    assert!(!m.contains(ModifierKeys::ALT()));
    assert_eq!(m.bits(), 6);
}

#[test]
fn modifier_keys_constants() {
    assert_eq!(ModifierKeys::NONE().bits(), 0);
    assert_eq!(ModifierKeys::ALT().bits(), 1);
    assert_eq!(ModifierKeys::CONTROL().bits(), 2);
    assert_eq!(ModifierKeys::SHIFT().bits(), 4);
    assert_eq!(ModifierKeys::WINDOWS().bits(), 8);
    assert_eq!(ModifierKeys::default(), ModifierKeys::NONE());
}

#[test]
fn modifier_keys_from_bits_round_trip() {
    for b in [0, 1, 5, 15, -1, i32::MIN, i32::MAX] {
        assert_eq!(ModifierKeys::from_bits(b).bits(), b);
    }
}

#[test]
fn modifier_keys_contains_none_always() {
    for b in [0, 1, 2, 7, 8, -1] {
        assert!(ModifierKeys::from_bits(b).contains(ModifierKeys::NONE()));
        assert!(ModifierKeys::from_bits(b).contains(ModifierKeys::from_bits(b)));
    }
}

#[test]
fn modifier_keys_with_contains_both_and_is_commutative() {
    let a = ModifierKeys::ALT();
    let w = ModifierKeys::WINDOWS();
    let aw = a.with(w);
    assert!(aw.contains(a) && aw.contains(w));
    assert_eq!(aw, w.with(a));
    assert_eq!(aw.with(aw), aw);
    assert_eq!(aw.with(ModifierKeys::NONE()), aw);
    assert!(!aw.contains(ModifierKeys::SHIFT()));
    assert!(!a.contains(aw));
}

#[test]
fn modifier_keys_is_empty() {
    assert!(ModifierKeys::NONE().is_empty());
    assert!(!ModifierKeys::SHIFT().is_empty());
    assert!(!ModifierKeys::from_bits(i32::MIN).is_empty());
}

#[test]
fn modifier_keys_bitor_matches_with() {
    let m = ModifierKeys::ALT() | ModifierKeys::CONTROL();
    assert_eq!(m, ModifierKeys::ALT().with(ModifierKeys::CONTROL()));
    assert_eq!(m.bits(), 3);
}

#[test]
fn modifier_keys_from_iter_is_union() {
    let all = ModifierKeys::from_iter(&[
        ModifierKeys::ALT(),
        ModifierKeys::SHIFT(),
        ModifierKeys::ALT(),
    ]);
    assert_eq!(all.bits(), 5);
    assert!(all.contains(ModifierKeys::ALT()) && all.contains(ModifierKeys::SHIFT()));
    assert!(ModifierKeys::from_iter(&[]).is_empty());
}

#[test]
fn key_states_contains() {
    let both = KeyStates::from_bits(3);
    assert!(both.contains(KeyStates::DOWN()));
    assert!(both.contains(KeyStates::TOGGLED()));
    assert!(both.contains(KeyStates::NONE()));
    assert!(!KeyStates::DOWN().contains(KeyStates::TOGGLED()));
    assert_eq!(KeyStates::TOGGLED().bits(), 2);
    assert_eq!(KeyStates::from_bits(9).bits(), 9);
    assert_eq!(KeyStates::default(), KeyStates::NONE());
}

#[test]
fn input_enum_raw_values() {
    assert_eq!(MouseAction::NoAction.to_raw(), 0);
    assert_eq!(MouseAction::LeftDoubleClick.to_raw(), 5);
    assert_eq!(MouseAction::MiddleDoubleClick.to_raw(), 7);
    assert_eq!(CaptureMode::NoCapture.to_raw(), 0);
    assert_eq!(CaptureMode::SubTree.to_raw(), 2);
    assert_eq!(FocusNavigationDirection::Next.to_raw(), 0);
    assert_eq!(FocusNavigationDirection::Down.to_raw(), 7);
}

#[test]
fn keyboard_navigation_mode_round_trip() {
    let all = [
        KeyboardNavigationMode::Continue,
        KeyboardNavigationMode::Once,
        KeyboardNavigationMode::Cycle,
        KeyboardNavigationMode::NoNavigation,
        KeyboardNavigationMode::Contained,
        KeyboardNavigationMode::Local,
    ];
    for (i, m) in all.iter().enumerate() {
        assert_eq!(m.to_raw(), i as i32);
        assert_eq!(KeyboardNavigationMode::from_raw(m.to_raw()), Some(*m));
    }
    assert_eq!(KeyboardNavigationMode::from_raw(6), None);
    assert_eq!(KeyboardNavigationMode::from_raw(-1), None);
}

#[test]
fn keyboard_navigation_mode_from_getter() {
    assert_eq!(KeyboardNavigationMode::from_getter(true, 2), Some(KeyboardNavigationMode::Cycle));
    assert_eq!(KeyboardNavigationMode::from_getter(false, 2), None);
    assert_eq!(KeyboardNavigationMode::from_getter(true, 99), None);
}
