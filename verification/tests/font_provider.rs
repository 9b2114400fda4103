use lib::font_provider::{str_eq, ProviderRegistry, Scope};

#[test]
fn str_eq_compares_characters() {
    assert!(str_eq("fonts", "fonts"));
    assert!(!str_eq("fonts", "font"));
    assert!(!str_eq("fonts", "fontz"));
    assert!(str_eq("", ""));
    assert!(str_eq("ü/#X", "ü/#X"));
}

#[test]
fn scopes_compare_by_kind_and_names() {
    assert!(Scope::Global.same(&Scope::Global));
    assert!(Scope::Scheme("pack".to_string()).same(&Scope::Scheme("pack".to_string())));
    assert!(!Scope::Scheme("pack".to_string()).same(&Scope::Assembly("pack".to_string())));
    assert!(!Scope::SchemeAssembly("a".to_string(), "b".to_string())
        .same(&Scope::SchemeAssembly("a".to_string(), "c".to_string())));
    assert!(Scope::Assembly("Game".to_string()).copy().same(&Scope::Assembly("Game".to_string())));
}

#[test]
fn newer_registration_replaces_older_for_the_same_scope() {
    let mut reg = ProviderRegistry::new();
    let old_id = reg.register(&Scope::Global);
    let new_id = reg.register(&Scope::Global);
    assert_eq!((old_id, new_id), (1, 2));
    // The stale guard must not clear the slot.
    assert!(!reg.release(&Scope::Global, old_id));
    // The active guard clears it, once.
    assert!(reg.release(&Scope::Global, new_id));
    assert!(!reg.release(&Scope::Global, new_id));
}

#[test]
fn scopes_are_independent() {
    let mut reg = ProviderRegistry::new();
    let global = reg.register(&Scope::Global);
    let scheme = reg.register(&Scope::Scheme("pack".to_string()));
    let other = reg.register(&Scope::Scheme("file".to_string()));
    assert!(reg.release(&Scope::Scheme("pack".to_string()), scheme));
    assert!(!reg.release(&Scope::Scheme("pack".to_string()), scheme));
    assert!(reg.release(&Scope::Global, global));
    assert!(reg.release(&Scope::Scheme("file".to_string()), other));
}
