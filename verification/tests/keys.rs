use keypointer::keys::apply_key_event;
use keypointer::keys::ActiveKeySet;

#[test]
fn press_makes_a_key_held() {
    let mut set = ActiveKeySet::new();
    assert!(!set.contains(105));
    set.on_key_press(105);
    assert!(set.contains(105));
    assert!(!set.contains(106));
}

#[test]
fn press_is_idempotent() {
    let mut set = ActiveKeySet::new();
    set.on_key_press(125);
    set.on_key_press(125);
    assert!(set.contains(125));
    set.on_key_release(125);
    assert!(!set.contains(125));
}

#[test]
fn release_is_idempotent() {
    let mut set = ActiveKeySet::new();
    set.on_key_release(97);
    assert!(!set.contains(97));
    set.on_key_press(97);
    set.on_key_release(97);
    set.on_key_release(97);
    assert!(!set.contains(97));
}

#[test]
fn release_removes_only_the_released_key() {
    let mut set = ActiveKeySet::new();
    set.on_key_press(103);
    set.on_key_press(108);
    set.on_key_press(125);
    set.on_key_release(108);
    assert!(set.contains(103));
    assert!(!set.contains(108));
    assert!(set.contains(125));
}

#[test]
fn events_apply_as_presses_and_releases() {
    let mut set = ActiveKeySet::new();
    apply_key_event(&mut set, 106, true);
    assert!(set.contains(106));
    apply_key_event(&mut set, 106, false);
    assert!(!set.contains(106));
    apply_key_event(&mut set, 30, false);
    assert!(!set.contains(30));
}
