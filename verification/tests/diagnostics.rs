use lib::diagnostics::{ErrorContext, HookSlot, RegIdSource};

#[test]
fn reg_ids_start_at_one_and_never_repeat() {
    let mut ids = RegIdSource::new();
    let a = ids.next_reg_id();
    let b = ids.next_reg_id();
    let c = ids.next_reg_id();
    assert_eq!((a, b, c), (1, 2, 3));
}

#[test]
fn releasing_the_active_registration_clears_the_hook() {
    let mut slot = HookSlot::new();
    slot.install(4);
    assert!(slot.is_active(4));
    assert!(slot.release(4));
    assert!(slot.is_active(0));
}

#[test]
fn last_registration_wins() {
    let mut ids = RegIdSource::new();
    let mut slot = HookSlot::new();
    let first = ids.next_reg_id();
    slot.install(first);
    let second = ids.next_reg_id();
    slot.install(second);
    // The replaced guard leaves the hook to its successor.
    assert!(!slot.release(first));
    assert!(slot.is_active(second));
    // The active guard clears it; the predecessor is not restored.
    assert!(slot.release(second));
    assert!(slot.is_active(0));
    assert!(!slot.is_active(first));
}

#[test]
fn releasing_out_of_order_changes_nothing_later() {
    let mut slot = HookSlot::new();
    slot.install(1);
    slot.install(2);
    assert!(slot.release(2));
    assert!(!slot.release(1));
    assert!(slot.is_active(0));
}

#[test]
fn error_context_default_is_empty() {
    let ctx = ErrorContext::default();
    assert_eq!(ctx.uri, None);
    assert_eq!((ctx.line, ctx.column), (0, 0));
    let with_uri = ErrorContext { uri: Some("Main.xaml".to_string()), line: 3, column: 9 };
    assert_eq!(with_uri.clone(), with_uri);
}
