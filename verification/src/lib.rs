//! Decisions and arithmetic of a precision-touchpad-to-absolute-pointer
//! bridge: the raw-input window procedure, the HID preparsed-data
//! protocol, touchpad coordinate scaling and the absolute mouse move.

pub mod pointer;
pub mod raw_input;
pub mod hid;
pub mod text;
