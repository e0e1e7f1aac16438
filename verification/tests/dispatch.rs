use raw_input::mouse::linux::{axis_event, button_event, motion_event, xdg_toplevel_configure_event};
use raw_input::mouse::wasm::js_button_to_rust;
use raw_input::mouse::windows::{
    get_wheel_delta_wparam, get_x_lparam, get_xbutton_wparam, get_y_lparam, WM_LBUTTONDOWN,
    WM_MOUSEHWHEEL, WM_MOUSEMOVE, WM_MOUSEWHEEL, WM_RBUTTONDOWN, WM_RBUTTONUP, WM_XBUTTONDOWN,
};
use raw_input::mouse::{Mouse, MouseRegistry};
use raw_input::{window_proc, Window};

#[test]
fn lparam_words_unpack() {
    let l_param: u64 = (20u64 << 16) | 10;
    assert_eq!(get_x_lparam(l_param), 10);
    assert_eq!(get_y_lparam(l_param), 20);
    let negative: u64 = (0xFFF6u64 << 16) | 0xFFF0;
    assert_eq!(get_x_lparam(negative), -16);
    assert_eq!(get_y_lparam(negative), -10);
}

#[test]
fn wparam_words_unpack() {
    assert_eq!(get_xbutton_wparam(1u64 << 16), 1);
    assert_eq!(get_xbutton_wparam(2u64 << 16), 2);
    assert_eq!(get_wheel_delta_wparam(120u64 << 16), 120);
    assert_eq!(get_wheel_delta_wparam(0xFF88u64 << 16), -120);
}

#[test]
fn window_proc_motion_updates_all_handles() {
    let mut reg = MouseRegistry::new();
    let h1 = Mouse::coalesced(&mut reg);
    let h2 = Mouse::coalesced(&mut reg);
    let l_param: u64 = (20u64 << 16) | 10;
    let r = window_proc(&mut reg, 7, WM_MOUSEMOVE, 0, l_param, 800, 600);
    assert_eq!(r, 0);
    let p1 = h1.window_pos(&reg).expect("first handle saw no snapshot");
    let p2 = h2.window_pos(&reg).expect("second handle saw no snapshot");
    assert_eq!(p1, p2);
    assert_eq!(p1.pos_x(), 10);
    assert_eq!(p1.pos_y(), 20);
    assert_eq!(p1.window_width(), 800);
    assert_eq!(p1.window_height(), 600);
    assert_eq!(p1.window, Some(Window(7)));
}

#[test]
fn window_proc_buttons() {
    let mut reg = MouseRegistry::new();
    let h = Mouse::coalesced(&mut reg);
    assert_eq!(window_proc(&mut reg, 1, WM_LBUTTONDOWN, 0, 0, 0, 0), 0);
    assert!(h.button_state(&reg, 0));
    assert_eq!(window_proc(&mut reg, 1, WM_RBUTTONDOWN, 0, 0, 0, 0), 0);
    assert!(h.button_state(&reg, 1));
    assert_eq!(window_proc(&mut reg, 1, WM_RBUTTONUP, 0, 0, 0, 0), 0);
    assert!(!h.button_state(&reg, 1));
}

#[test]
fn window_proc_extra_buttons() {
    let mut reg = MouseRegistry::new();
    let h = Mouse::coalesced(&mut reg);
    assert_eq!(window_proc(&mut reg, 1, WM_XBUTTONDOWN, 1u64 << 16, 0, 0, 0), 0);
    assert!(h.button_state(&reg, 3));
    assert_eq!(window_proc(&mut reg, 1, WM_XBUTTONDOWN, 2u64 << 16, 0, 0, 0), 0);
    assert!(h.button_state(&reg, 4));
}

#[test]
fn window_proc_wheels() {
    let mut reg = MouseRegistry::new();
    let h = Mouse::coalesced(&mut reg);
    assert_eq!(window_proc(&mut reg, 1, WM_MOUSEWHEEL, 120u64 << 16, 0, 0, 0), 0);
    assert_eq!(window_proc(&mut reg, 1, WM_MOUSEHWHEEL, 0xFF88u64 << 16, 0, 0, 0), 0);
    assert_eq!(h.load_clear_scroll_delta(&mut reg), (-120, 120));
}

#[test]
fn window_proc_ignores_unrelated_messages() {
    let mut reg = MouseRegistry::new();
    let h = Mouse::coalesced(&mut reg);
    let r = window_proc(&mut reg, 1, 0x0400, 0, 0, 0, 0);
    assert_eq!(r, 1);
    assert!(h.window_pos(&reg).is_none());
    assert_eq!(h.load_clear_scroll_delta(&mut reg), (0, 0));
}

#[test]
fn wayland_motion_waits_for_size() {
    let mut reg = MouseRegistry::new();
    let h = Mouse::coalesced(&mut reg);
    motion_event(&mut reg, 0, 15, 25);
    assert!(h.window_pos(&reg).is_none());
    xdg_toplevel_configure_event(&mut reg, 640, 480);
    let p = h.window_pos(&reg).expect("no snapshot after both events");
    assert_eq!(p.pos_x(), 15);
    assert_eq!(p.pos_y(), 25);
    assert_eq!(p.window_width(), 640);
    assert_eq!(p.window_height(), 480);
    assert_eq!(p.window, None);
}

#[test]
fn wayland_motion_after_size_resends() {
    let mut reg = MouseRegistry::new();
    let h = Mouse::coalesced(&mut reg);
    xdg_toplevel_configure_event(&mut reg, 320, 240);
    motion_event(&mut reg, 0, 1, 2);
    motion_event(&mut reg, 1, 3, 4);
    let p = h.window_pos(&reg).expect("no snapshot after motion");
    assert_eq!(p.pos_x(), 3);
    assert_eq!(p.pos_y(), 4);
    assert_eq!(p.window_width(), 320);
    assert_eq!(p.window_height(), 240);
}

#[test]
fn wayland_button_codes_map() {
    let mut reg = MouseRegistry::new();
    let h = Mouse::coalesced(&mut reg);
    button_event(&mut reg, 0, 0x110, 1);
    assert!(h.button_state(&reg, 0));
    button_event(&mut reg, 0, 0x110, 0);
    assert!(!h.button_state(&reg, 0));
    button_event(&mut reg, 0, 0x112, 1);
    assert!(h.button_state(&reg, 2));
    button_event(&mut reg, 0, 0x119, 1);
    assert!(h.button_state(&reg, 9));
}

#[test]
fn wayland_unknown_button_is_ignored() {
    let mut reg = MouseRegistry::new();
    let h = Mouse::coalesced(&mut reg);
    button_event(&mut reg, 0, 0x999, 1);
    for b in 0..10u8 {
        assert!(!h.button_state(&reg, b));
    }
}

#[test]
fn wayland_axes_scroll() {
    let mut reg = MouseRegistry::new();
    let h = Mouse::coalesced(&mut reg);
    axis_event(&mut reg, 0, 0, 11);
    axis_event(&mut reg, 0, 1, -4);
    assert_eq!(h.load_clear_scroll_delta(&mut reg), (-4, 11));
}

#[test]
fn dom_button_numbers_map() {
    assert_eq!(js_button_to_rust(0), 0);
    assert_eq!(js_button_to_rust(1), 2);
    assert_eq!(js_button_to_rust(2), 1);
    assert_eq!(js_button_to_rust(7), 7);
}
