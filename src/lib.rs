//! Input decoding and device description for the AKP05 family of HID
//! macro keypads.

pub mod inputs;
pub mod mappings;
