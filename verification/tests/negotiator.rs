use keypointer::negotiator::Negotiator;

#[test]
fn starts_unbound() {
    let n = Negotiator::new();
    assert!(!n.is_manager_bound());
    assert!(!n.is_pointer_bound());
}

#[test]
fn capability_without_manager_creates_nothing() {
    let mut n = Negotiator::new();
    assert!(!n.on_pointer_capability(true));
    assert!(!n.is_pointer_bound());
}

#[test]
fn capability_without_pointer_bit_creates_nothing() {
    let mut n = Negotiator::new();
    n.on_manager_bound();
    assert!(!n.on_pointer_capability(false));
    assert!(!n.is_pointer_bound());
}

#[test]
fn manager_then_capability_creates_the_pointer_once() {
    let mut n = Negotiator::new();
    n.on_manager_bound();
    assert!(n.is_manager_bound());
    assert!(n.on_pointer_capability(true));
    assert!(n.is_pointer_bound());
    assert!(!n.on_pointer_capability(true));
    assert!(n.is_pointer_bound());
}

#[test]
fn binding_is_terminal() {
    let mut n = Negotiator::new();
    n.on_manager_bound();
    assert!(n.on_pointer_capability(true));
    assert!(!n.on_pointer_capability(false));
    assert!(n.is_pointer_bound());
    n.on_manager_bound();
    assert!(n.is_pointer_bound());
}
