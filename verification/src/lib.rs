//! Core of a screen-capture utility: a capture-to-compressed-image pipeline
//! (box resampling, RGBA to RGB packing, JPEG and base64 encoding, data-URI
//! framing) and a serial device session manager with a small state machine,
//! plus mouse-position and serial-device queries.
use vstd::prelude::*;

pub mod devices;
pub mod encode;
pub mod errors;
pub mod frame;
pub mod jpeg;
pub mod mouse;
pub mod resample;
pub mod serial;

verus! {

use vstd::string::StringExecFns;

/// Greeting used by the UI layer to check that the backend answers.
pub fn greet(name: &str) -> (r: String)
    ensures
        r@ == "Hello, "@ + name@ + "! You've been greeted from Rust!"@,
{
    String::from_str("Hello, ").concat(name).concat("! You've been greeted from Rust!")
}

} // verus!
