//! Browser-style mouse ingestion helpers: translating DOM mouse-event fields
//! into the broker's vocabulary.

use vstd::prelude::*;

verus! {

/// The broker's button code for a DOM mouse-event button number: the DOM
/// numbers the middle button 1 and the secondary button 2, the reverse of
/// this library's codes; every other number passes through (truncated to a
/// button code).
pub open spec fn js_button_spec(button: i16) -> u8 {
    if button == 0 {
        0u8
    } else if button == 1 {
        2u8
    } else if button == 2 {
        1u8
    } else {
        button as u8
    }
}

/// Translates a DOM mouse-event button number to the broker's button code.
pub fn js_button_to_rust(button: i16) -> (r: u8)
    ensures
        r == js_button_spec(button),
{
    match button {
        0 => 0,
        1 => 2,
        2 => 1,
        _ => #[verifier::truncate] (button as u8),
    }
}

} // verus!
