use raw_input::mouse::{
    Mouse, MouseRegistry, MouseWindowLocation, MOUSE_BUTTON_LEFT, MOUSE_BUTTON_MIDDLE,
    MOUSE_BUTTON_RIGHT,
};
use raw_input::Window;

fn assert_send<T: Send>() {}
fn assert_sync<T: Sync>() {}
fn assert_unpin<T: Unpin>() {}

#[test]
fn mouse_test_send_sync() {
    assert_send::<Mouse>();
    assert_sync::<Mouse>();
    assert_unpin::<Mouse>();
}

#[test]
fn window_pos_is_none_until_motion() {
    let mut reg = MouseRegistry::new();
    let h = Mouse::coalesced(&mut reg);
    assert!(h.window_pos(&reg).is_none());
}

#[test]
fn motion_snapshot_shared_by_two_handles() {
    let mut reg = MouseRegistry::new();
    let h1 = Mouse::coalesced(&mut reg);
    let h2 = Mouse::coalesced(&mut reg);
    let loc = MouseWindowLocation::new(10, 20, 800, 600, Some(Window(5)));
    reg.fan_out_window_location(loc);
    let p1 = h1.window_pos(&reg).expect("first handle saw no snapshot");
    let p2 = h2.window_pos(&reg).expect("second handle saw no snapshot");
    assert_eq!(p1, p2);
    assert_eq!(p1.pos_x(), 10);
    assert_eq!(p1.pos_y(), 20);
    assert_eq!(p1.window_width(), 800);
    assert_eq!(p1.window_height(), 600);
}

#[test]
fn button_press_and_release() {
    let mut reg = MouseRegistry::new();
    let h = Mouse::coalesced(&mut reg);
    assert!(!h.button_state(&reg, MOUSE_BUTTON_LEFT));
    reg.fan_out_button(MOUSE_BUTTON_LEFT, true, None);
    assert!(h.button_state(&reg, MOUSE_BUTTON_LEFT));
    assert!(!h.button_state(&reg, MOUSE_BUTTON_RIGHT));
    assert!(!h.button_state(&reg, MOUSE_BUTTON_MIDDLE));
    reg.fan_out_button(MOUSE_BUTTON_LEFT, false, None);
    assert!(!h.button_state(&reg, MOUSE_BUTTON_LEFT));
}

#[test]
fn highest_button_code_works() {
    let mut reg = MouseRegistry::new();
    let h = Mouse::coalesced(&mut reg);
    reg.fan_out_button(254, true, None);
    assert!(h.button_state(&reg, 254));
    assert!(!h.button_state(&reg, 253));
}

#[test]
fn scroll_accumulates_then_drains_exactly_once() {
    let mut reg = MouseRegistry::new();
    let h = Mouse::coalesced(&mut reg);
    reg.fan_out_scroll(1, 2, None);
    reg.fan_out_scroll(3, 4, None);
    assert_eq!(h.load_clear_scroll_delta(&mut reg), (4, 6));
    assert_eq!(h.load_clear_scroll_delta(&mut reg), (0, 0));
}

#[test]
fn drain_twice_in_a_row_yields_empty() {
    let mut reg = MouseRegistry::new();
    let h = Mouse::coalesced(&mut reg);
    reg.fan_out_scroll(7, -9, None);
    let first = h.load_clear_scroll_delta(&mut reg);
    assert_eq!(first, (7, -9));
    assert_eq!(h.load_clear_scroll_delta(&mut reg), (0, 0));
}

#[test]
fn scroll_saturates_at_the_edge() {
    let mut reg = MouseRegistry::new();
    let h = Mouse::coalesced(&mut reg);
    reg.fan_out_scroll(i64::MAX, i64::MIN, None);
    reg.fan_out_scroll(1, -1, None);
    assert_eq!(h.load_clear_scroll_delta(&mut reg), (i64::MAX, i64::MIN));
}

#[test]
fn each_handle_drains_its_own_accumulator() {
    let mut reg = MouseRegistry::new();
    let h1 = Mouse::coalesced(&mut reg);
    let h2 = Mouse::coalesced(&mut reg);
    reg.fan_out_scroll(5, 6, None);
    assert_eq!(h1.load_clear_scroll_delta(&mut reg), (5, 6));
    assert_eq!(h2.load_clear_scroll_delta(&mut reg), (5, 6));
    assert_eq!(h1.load_clear_scroll_delta(&mut reg), (0, 0));
}

#[test]
fn mouse_handles_are_unequal() {
    let mut reg = MouseRegistry::new();
    let h1 = Mouse::coalesced(&mut reg);
    let h2 = Mouse::coalesced(&mut reg);
    assert_ne!(h1, h2);
}

#[test]
fn released_mouse_slot_is_passed_by() {
    let mut reg = MouseRegistry::new();
    let h1 = Mouse::coalesced(&mut reg);
    let h2 = Mouse::coalesced(&mut reg);
    h1.release(&mut reg);
    reg.fan_out_button(MOUSE_BUTTON_RIGHT, true, Some(Window(9)));
    assert!(h2.button_state(&reg, MOUSE_BUTTON_RIGHT));
}
