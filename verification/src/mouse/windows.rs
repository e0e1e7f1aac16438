//! Win32-style mouse ingestion: the message-dispatch entry point and the
//! helpers that unpack packed message parameters.
//!
//! The embedding application's window procedure hands each message here as
//! plain values — the window handle, the message code, the two packed
//! parameters, and the client rectangle it read from the window — and this
//! module decides what the message means and fans the resulting event out.

use vstd::prelude::*;

use crate::Window;
use crate::mouse::{MouseRegistry, MouseWindowLocation, RegistryView, MOUSE_BUTTON_LEFT,
    MOUSE_BUTTON_MIDDLE, MOUSE_BUTTON_RIGHT};

verus! {

/// Message code of a pointer-motion message.
pub const WM_MOUSEMOVE: u32 = 0x0200;

/// Message code of a primary-button press.
pub const WM_LBUTTONDOWN: u32 = 0x0201;

/// Message code of a primary-button release.
pub const WM_LBUTTONUP: u32 = 0x0202;

/// Message code of a secondary-button press.
pub const WM_RBUTTONDOWN: u32 = 0x0204;

/// Message code of a secondary-button release.
pub const WM_RBUTTONUP: u32 = 0x0205;

/// Message code of a middle-button press.
pub const WM_MBUTTONDOWN: u32 = 0x0207;

/// Message code of a middle-button release.
pub const WM_MBUTTONUP: u32 = 0x0208;

/// Message code of a vertical wheel turn.
pub const WM_MOUSEWHEEL: u32 = 0x020A;

/// Message code of an extra-button press.
pub const WM_XBUTTONDOWN: u32 = 0x020B;

/// Message code of an extra-button release.
pub const WM_XBUTTONUP: u32 = 0x020C;

/// Message code of a horizontal wheel turn.
pub const WM_MOUSEHWHEEL: u32 = 0x020E;

/// Identifier of the first extra button in an extra-button message.
pub const XBUTTON1: u16 = 1;

/// Identifier of the second extra button in an extra-button message.
pub const XBUTTON2: u16 = 2;

/// Button code the first extra button maps to.
pub const MOUSE_BUTTON_X1: u8 = 3;

/// Button code the second extra button maps to.
pub const MOUSE_BUTTON_X2: u8 = 4;

/// The x coordinate packed into the low word of a pointer message's second
/// parameter, read as a signed count of points.
pub open spec fn x_lparam_spec(l_param: u64) -> i16 {
    ((l_param & 0xffff) as u16) as i16
}

/// The y coordinate packed into the high word of a pointer message's second
/// parameter.
pub open spec fn y_lparam_spec(l_param: u64) -> i16 {
    (((l_param & 0xffff_0000) >> 16) as u16) as i16
}

/// The extra-button identifier packed into the high word of an extra-button
/// message's first parameter.
pub open spec fn xbutton_wparam_spec(w_param: u64) -> u16 {
    ((w_param & 0xffff_0000) >> 16) as u16
}

/// The wheel rotation packed into the high word of a wheel message's first
/// parameter, read as a signed delta.
pub open spec fn wheel_delta_wparam_spec(w_param: u64) -> i16 {
    (((w_param & 0xffff_0000) >> 16) as u16) as i16
}

/// Extracts the packed x coordinate of a pointer message.
pub fn get_x_lparam(l_param: u64) -> (r: i16)
    ensures
        r == x_lparam_spec(l_param),
{
    let low = l_param & 0xffff;
    proof {
        assert(l_param & 0xffff <= 0xffff) by (bit_vector);
    }
    let w = low as u16;
    #[verifier::truncate] (w as i16)
}

/// Extracts the packed y coordinate of a pointer message.
pub fn get_y_lparam(l_param: u64) -> (r: i16)
    ensures
        r == y_lparam_spec(l_param),
{
    let high = (l_param & 0xffff_0000) >> 16;
    proof {
        assert((l_param & 0xffff_0000) >> 16 <= 0xffff) by (bit_vector);
    }
    let w = high as u16;
    #[verifier::truncate] (w as i16)
}

/// Extracts the extra-button identifier of an extra-button message.
pub fn get_xbutton_wparam(w_param: u64) -> (r: u16)
    ensures
        r == xbutton_wparam_spec(w_param),
{
    let high = (w_param & 0xffff_0000) >> 16;
    proof {
        assert((w_param & 0xffff_0000) >> 16 <= 0xffff) by (bit_vector);
    }
    high as u16
}

/// Extracts the signed wheel rotation of a wheel message.
pub fn get_wheel_delta_wparam(w_param: u64) -> (r: i16)
    ensures
        r == wheel_delta_wparam_spec(w_param),
{
    let high = (w_param & 0xffff_0000) >> 16;
    proof {
        assert((w_param & 0xffff_0000) >> 16 <= 0xffff) by (bit_vector);
    }
    let w = high as u16;
    #[verifier::truncate] (w as i16)
}

/// The window token carried by a message: the window handle, or nothing for
/// the null handle.
pub open spec fn window_token_spec(hwnd: usize) -> Option<Window> {
    if hwnd == 0 {
        None
    } else {
        Some(Window(hwnd))
    }
}

/// The location snapshot a pointer-motion message assembles: the packed
/// coordinates plus the client rectangle the caller read from the window.
pub open spec fn motion_location_spec(
    hwnd: usize,
    l_param: u64,
    client_width: i64,
    client_height: i64,
) -> MouseWindowLocation {
    MouseWindowLocation {
        pos_x: x_lparam_spec(l_param) as i64,
        pos_y: y_lparam_spec(l_param) as i64,
        window_width: client_width,
        window_height: client_height,
        window: window_token_spec(hwnd),
    }
}

/// The button code an extra-button message speaks of.
pub open spec fn xbutton_code_spec(w_param: u64) -> u8 {
    if xbutton_wparam_spec(w_param) == XBUTTON1 {
        MOUSE_BUTTON_X1
    } else {
        MOUSE_BUTTON_X2
    }
}

/// Whether the dispatch entry point processes this message code.
pub open spec fn handles_message(msg: u32) -> bool {
    ||| msg == WM_MOUSEMOVE
    ||| msg == WM_LBUTTONDOWN
    ||| msg == WM_LBUTTONUP
    ||| msg == WM_RBUTTONDOWN
    ||| msg == WM_RBUTTONUP
    ||| msg == WM_MBUTTONDOWN
    ||| msg == WM_MBUTTONUP
    ||| msg == WM_XBUTTONDOWN
    ||| msg == WM_XBUTTONUP
    ||| msg == WM_MOUSEWHEEL
    ||| msg == WM_MOUSEHWHEEL
}

/// Full meaning of one dispatched message: which fan-out the registry takes
/// for each message code, that unrecognized messages leave the registry
/// untouched, and that the result tells the two apart.
pub open spec fn window_proc_post(
    pre: RegistryView,
    post: RegistryView,
    hwnd: usize,
    msg: u32,
    w_param: u64,
    l_param: u64,
    client_width: i64,
    client_height: i64,
    r: u64,
) -> bool {
    &&& msg == WM_MOUSEMOVE ==> post == pre.after_window_location(
        motion_location_spec(hwnd, l_param, client_width, client_height),
    )
    &&& msg == WM_LBUTTONDOWN ==> post == pre.after_button(
        MOUSE_BUTTON_LEFT,
        true,
        window_token_spec(hwnd),
    )
    &&& msg == WM_LBUTTONUP ==> post == pre.after_button(
        MOUSE_BUTTON_LEFT,
        false,
        window_token_spec(hwnd),
    )
    &&& msg == WM_RBUTTONDOWN ==> post == pre.after_button(
        MOUSE_BUTTON_RIGHT,
        true,
        window_token_spec(hwnd),
    )
    &&& msg == WM_RBUTTONUP ==> post == pre.after_button(
        MOUSE_BUTTON_RIGHT,
        false,
        window_token_spec(hwnd),
    )
    &&& msg == WM_MBUTTONDOWN ==> post == pre.after_button(
        MOUSE_BUTTON_MIDDLE,
        true,
        window_token_spec(hwnd),
    )
    &&& msg == WM_MBUTTONUP ==> post == pre.after_button(
        MOUSE_BUTTON_MIDDLE,
        false,
        window_token_spec(hwnd),
    )
    &&& msg == WM_XBUTTONDOWN ==> post == pre.after_button(
        xbutton_code_spec(w_param),
        true,
        window_token_spec(hwnd),
    )
    &&& msg == WM_XBUTTONUP ==> post == pre.after_button(
        xbutton_code_spec(w_param),
        false,
        window_token_spec(hwnd),
    )
    &&& msg == WM_MOUSEWHEEL ==> post == pre.after_scroll(
        0,
        wheel_delta_wparam_spec(w_param) as i64,
        window_token_spec(hwnd),
    )
    &&& msg == WM_MOUSEHWHEEL ==> post == pre.after_scroll(
        wheel_delta_wparam_spec(w_param) as i64,
        0,
        window_token_spec(hwnd),
    )
    &&& !handles_message(msg) ==> post == pre
    &&& r == (if handles_message(msg) {
        0u64
    } else {
        1u64
    })
}

/// The window token a message carries.
fn window_token(hwnd: usize) -> (r: Option<Window>)
    ensures
        r == window_token_spec(hwnd),
{
    if hwnd == 0 {
        None
    } else {
        Some(Window(hwnd))
    }
}

/// Provide native mouse messages to the broker.
///
/// The caller's window procedure passes each message through unchanged,
/// together with the window's client rectangle (needed only for motion
/// messages).  Extra-button messages must name one of the two extra buttons,
/// as the platform promises.
///
/// # Returns
/// If we processed the message, returns 0.  Otherwise returns 1.
pub fn window_proc(
    reg: &mut MouseRegistry,
    hwnd: usize,
    msg: u32,
    w_param: u64,
    l_param: u64,
    client_width: i64,
    client_height: i64,
) -> (r: u64)
    requires
        old(reg)@.wf(),
        msg == WM_XBUTTONDOWN || msg == WM_XBUTTONUP ==> xbutton_wparam_spec(w_param) == XBUTTON1
            || xbutton_wparam_spec(w_param) == XBUTTON2,
    ensures
        final(reg)@.wf(),
        window_proc_post(
            old(reg)@,
            final(reg)@,
            hwnd,
            msg,
            w_param,
            l_param,
            client_width,
            client_height,
            r,
        ),
{
    if msg == WM_MOUSEMOVE {
        let x = get_x_lparam(l_param);
        let y = get_y_lparam(l_param);
        let loc = MouseWindowLocation::new(
            x as i64,
            y as i64,
            client_width,
            client_height,
            window_token(hwnd),
        );
        reg.fan_out_window_location(loc);
        0
    } else if msg == WM_LBUTTONDOWN {
        reg.fan_out_button(MOUSE_BUTTON_LEFT, true, window_token(hwnd));
        0
    } else if msg == WM_LBUTTONUP {
        reg.fan_out_button(MOUSE_BUTTON_LEFT, false, window_token(hwnd));
        0
    } else if msg == WM_RBUTTONDOWN {
        reg.fan_out_button(MOUSE_BUTTON_RIGHT, true, window_token(hwnd));
        0
    } else if msg == WM_RBUTTONUP {
        reg.fan_out_button(MOUSE_BUTTON_RIGHT, false, window_token(hwnd));
        0
    } else if msg == WM_MBUTTONDOWN {
        reg.fan_out_button(MOUSE_BUTTON_MIDDLE, true, window_token(hwnd));
        0
    } else if msg == WM_MBUTTONUP {
        reg.fan_out_button(MOUSE_BUTTON_MIDDLE, false, window_token(hwnd));
        0
    } else if msg == WM_XBUTTONDOWN || msg == WM_XBUTTONUP {
        let xbutton = get_xbutton_wparam(w_param);
        let key = if xbutton == XBUTTON1 {
            MOUSE_BUTTON_X1
        } else {
            MOUSE_BUTTON_X2
        };
        reg.fan_out_button(key, msg == WM_XBUTTONDOWN, window_token(hwnd));
        0
    } else if msg == WM_MOUSEWHEEL {
        let delta = get_wheel_delta_wparam(w_param);
        reg.fan_out_scroll(0, delta as i64, window_token(hwnd));
        0
    } else if msg == WM_MOUSEHWHEEL {
        let delta = get_wheel_delta_wparam(w_param);
        reg.fan_out_scroll(delta as i64, 0, window_token(hwnd));
        0
    } else {
        1
    }
}

} // verus!
