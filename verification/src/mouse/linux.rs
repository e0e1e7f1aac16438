//! Wayland-style mouse ingestion.
//!
//! A Wayland dispatch loop reports pointer position, surface size, buttons
//! and axes through separate events; the embedding application forwards each
//! to the matching entry point here as plain values.  Position and size are
//! assembled into one location snapshot and fanned out only once all four
//! coordinates have been seen.

use vstd::prelude::*;

use crate::mouse::{MouseRegistry, RegistryView};

verus! {

/// Effect of one pointer-motion event on the registry: the recent position
/// is recorded, and once all four partial coordinates are known the
/// assembled snapshot is fanned out.
pub open spec fn spec_motion_event(v: RegistryView, surface_x: i64, surface_y: i64) -> RegistryView {
    let mid = RegistryView { recent_x_pos: Some(surface_x), recent_y_pos: Some(surface_y), ..v };
    if mid.recents_complete() {
        mid.after_window_location(mid.recent_location())
    } else {
        mid
    }
}

/// Effect of one surface-size event on the registry, mirroring
/// [`spec_motion_event`].
pub open spec fn spec_configure_event(v: RegistryView, width: i32, height: i32) -> RegistryView {
    let mid = RegistryView {
        recent_window_width: Some(width),
        recent_window_height: Some(height),
        ..v
    };
    if mid.recents_complete() {
        mid.after_window_location(mid.recent_location())
    } else {
        mid
    }
}

/// The broker's button code for an input-event-code button, if it speaks of
/// one this library carries.
pub open spec fn button_code_spec(button: u32) -> Option<u8> {
    if button == 0x110 {
        Some(0u8)  // left
    } else if button == 0x111 {
        Some(1u8)  // right
    } else if button == 0x112 {
        Some(2u8)  // middle
    } else if button == 0x113 {
        Some(3u8)  // side
    } else if button == 0x114 {
        Some(4u8)  // extra
    } else if button == 0x115 {
        Some(5u8)  // forward
    } else if button == 0x116 {
        Some(6u8)  // back
    } else if button == 0x117 {
        Some(7u8)  // task
    } else if button == 0x118 {
        Some(8u8)
    } else if button == 0x119 {
        Some(9u8)
    } else {
        None
    }
}

/// Effect of one button event: a recognized button code is fanned out with
/// the event's press state; an unrecognized one is ignored.
pub open spec fn spec_button_event(v: RegistryView, button: u32, state: u32) -> RegistryView {
    match button_code_spec(button) {
        Some(code) => v.after_button(code, state != 0, None),
        None => v,
    }
}

/// Effect of one axis event: axis zero scrolls vertically, any other axis
/// horizontally, and the value accumulates.
pub open spec fn spec_axis_event(v: RegistryView, axis: u32, value: i64) -> RegistryView {
    if axis == 0 {
        v.after_scroll(0, value, None)
    } else {
        v.after_scroll(value, 0, None)
    }
}

/// Provide pointer-motion events from the Wayland dispatch queue.
pub fn motion_event(reg: &mut MouseRegistry, _time: u32, surface_x: i64, surface_y: i64)
    requires
        old(reg)@.wf(),
    ensures
        final(reg)@ == spec_motion_event(old(reg)@, surface_x, surface_y),
        final(reg)@.wf(),
{
    reg.set_recent_position(surface_x, surface_y);
    reg.send_events_if_needed();
}

/// Provide surface-configure events (the window's size) from the Wayland
/// dispatch queue.
pub fn xdg_toplevel_configure_event(reg: &mut MouseRegistry, width: i32, height: i32)
    requires
        old(reg)@.wf(),
    ensures
        final(reg)@ == spec_configure_event(old(reg)@, width, height),
        final(reg)@.wf(),
{
    reg.set_recent_window_size(width, height);
    reg.send_events_if_needed();
}

/// Provide button events from the Wayland dispatch queue.  `state` is zero
/// for a release and nonzero for a press; `button` carries an input-event
/// code, and codes this library does not carry are ignored.
pub fn button_event(reg: &mut MouseRegistry, _time: u32, button: u32, state: u32)
    requires
        old(reg)@.wf(),
    ensures
        final(reg)@ == spec_button_event(old(reg)@, button, state),
        final(reg)@.wf(),
{
    let down = state != 0;
    let btn_code: u8 = if button == 0x110 {
        0
    } else if button == 0x111 {
        1
    } else if button == 0x112 {
        2
    } else if button == 0x113 {
        3
    } else if button == 0x114 {
        4
    } else if button == 0x115 {
        5
    } else if button == 0x116 {
        6
    } else if button == 0x117 {
        7
    } else if button == 0x118 {
        8
    } else if button == 0x119 {
        9
    } else {
        return ;
    };
    reg.fan_out_button(btn_code, down, None);
}

/// Provide axis (scroll) events from the Wayland dispatch queue.  Axis zero
/// is vertical, any other axis horizontal.
pub fn axis_event(reg: &mut MouseRegistry, _time: u32, axis: u32, value: i64)
    requires
        old(reg)@.wf(),
    ensures
        final(reg)@ == spec_axis_event(old(reg)@, axis, value),
        final(reg)@.wf(),
{
    if axis == 0 {
        reg.fan_out_scroll(0, value, None);
    } else {
        reg.fan_out_scroll(value, 0, None);
    }
}

} // verus!
