use raw_input::keyboard::key::{KeyboardKey, KEY_COUNT};
use raw_input::keyboard::{Keyboard, KeyboardRegistry};
use raw_input::Window;

fn assert_send<T: Send>() {}
fn assert_sync<T: Sync>() {}
fn assert_unpin<T: Unpin>() {}

#[test]
fn keyboard_test_send_sync() {
    assert_send::<Keyboard>();
    assert_sync::<Keyboard>();
    assert_unpin::<Keyboard>();
}

#[test]
fn all_keys_table() {
    let keys = KeyboardKey::all_keys();
    assert_eq!(keys.len(), KEY_COUNT);
    assert_eq!(keys[0], KeyboardKey::A);
    assert_eq!(keys[1], KeyboardKey::S);
    assert_eq!(keys[KEY_COUNT - 1], KeyboardKey::WakeUp);
    for (i, k) in keys.iter().enumerate() {
        assert_eq!(k.index(), i);
    }
}

#[test]
fn fresh_keys_unpressed() {
    let mut reg = KeyboardRegistry::new();
    let h = Keyboard::coalesced(&mut reg);
    for k in KeyboardKey::all_keys() {
        assert!(!h.is_pressed(&reg, k));
    }
}

#[test]
fn press_and_release_via_ingestion() {
    let mut reg = KeyboardRegistry::new();
    let h = Keyboard::coalesced(&mut reg);
    reg.fan_out_key(KeyboardKey::A, true, None);
    assert!(h.is_pressed(&reg, KeyboardKey::A));
    reg.fan_out_key(KeyboardKey::A, false, None);
    assert!(!h.is_pressed(&reg, KeyboardKey::A));
}

#[test]
fn latest_write_wins_despite_other_keys() {
    let mut reg = KeyboardRegistry::new();
    let h = Keyboard::coalesced(&mut reg);
    reg.fan_out_key(KeyboardKey::A, true, Some(Window(1)));
    reg.fan_out_key(KeyboardKey::S, true, Some(Window(2)));
    reg.fan_out_key(KeyboardKey::S, false, None);
    reg.fan_out_key(KeyboardKey::Space, true, None);
    assert!(h.is_pressed(&reg, KeyboardKey::A));
    assert!(!h.is_pressed(&reg, KeyboardKey::S));
    assert!(h.is_pressed(&reg, KeyboardKey::Space));
}

#[test]
fn separate_registrations_are_unequal() {
    let mut reg = KeyboardRegistry::new();
    let h1 = Keyboard::coalesced(&mut reg);
    let h2 = Keyboard::coalesced(&mut reg);
    assert_ne!(h1, h2);
    reg.fan_out_key(KeyboardKey::Q, true, None);
    assert!(h1.is_pressed(&reg, KeyboardKey::Q));
    assert!(h2.is_pressed(&reg, KeyboardKey::Q));
}

#[test]
fn fan_out_to_both_handles() {
    let mut reg = KeyboardRegistry::new();
    let h1 = Keyboard::coalesced(&mut reg);
    let h2 = Keyboard::coalesced(&mut reg);
    reg.fan_out_key(KeyboardKey::Return, true, None);
    assert!(h1.is_pressed(&reg, KeyboardKey::Return));
    assert!(h2.is_pressed(&reg, KeyboardKey::Return));
}

#[test]
fn released_handle_slot_is_passed_by() {
    let mut reg = KeyboardRegistry::new();
    let h1 = Keyboard::coalesced(&mut reg);
    let h2 = Keyboard::coalesced(&mut reg);
    h1.release(&mut reg);
    reg.fan_out_key(KeyboardKey::Escape, true, None);
    assert!(h2.is_pressed(&reg, KeyboardKey::Escape));
}

#[test]
fn reclaimed_slot_starts_fresh() {
    let mut reg = KeyboardRegistry::new();
    let h1 = Keyboard::coalesced(&mut reg);
    reg.fan_out_key(KeyboardKey::A, true, None);
    assert!(h1.is_pressed(&reg, KeyboardKey::A));
    h1.release(&mut reg);
    let h2 = Keyboard::coalesced(&mut reg);
    assert!(!h2.is_pressed(&reg, KeyboardKey::A));
}
