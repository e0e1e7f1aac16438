//! Platform-independent view of coalesced keyboard and mouse hardware state.
//!
//! The heart of the crate is a shared-state broker.  Every device handle owns
//! one fresh state object; an observer registry fans each incoming platform
//! event out to all live state objects; a handle unregisters itself simply by
//! being released, and its dead registry slot is reclaimed on a later
//! registration.  Platform event plumbing (native event loops, Wayland
//! dispatch, DOM listeners) lives outside this crate and calls the ingestion
//! entry points with plain values.

use vstd::prelude::*;

/// Keyboard state: key codes, the keyboard state table and its registry.
pub mod keyboard;
/// Mouse state: buttons, window location snapshots, scroll accumulation.
pub mod mouse;

verus! {

/// Identifies the window an event was delivered to.
///
/// The token is an opaque, platform-supplied value (for example a native
/// window pointer).  It carries no ownership: interpreting or dereferencing
/// it is entirely the caller's responsibility and may be invalid by the time
/// it is read back.
#[derive(Debug, Hash, Eq, PartialEq, Copy, Clone, Structural)]
pub struct Window(pub usize);

/// Provide native window-procedure messages to the broker.
///
/// The embedding application's window procedure forwards each message here
/// as plain values, together with the window's client rectangle (consulted
/// only for motion messages).  Extra-button messages must name one of the
/// two extra buttons, as the platform promises.
///
/// # Returns
/// If we processed the message, returns 0.  Otherwise returns 1.
pub fn window_proc(
    reg: &mut mouse::MouseRegistry,
    hwnd: usize,
    msg: u32,
    w_param: u64,
    l_param: u64,
    client_width: i64,
    client_height: i64,
) -> (r: u64)
    requires
        old(reg)@.wf(),
        msg == mouse::windows::WM_XBUTTONDOWN || msg == mouse::windows::WM_XBUTTONUP
            ==> mouse::windows::xbutton_wparam_spec(w_param) == mouse::windows::XBUTTON1
            || mouse::windows::xbutton_wparam_spec(w_param) == mouse::windows::XBUTTON2,
    ensures
        final(reg)@.wf(),
        mouse::windows::window_proc_post(
            old(reg)@,
            final(reg)@,
            hwnd,
            msg,
            w_param,
            l_param,
            client_width,
            client_height,
            r,
        ),
{
    mouse::windows::window_proc(reg, hwnd, msg, w_param, l_param, client_width, client_height)
}

} // verus!
