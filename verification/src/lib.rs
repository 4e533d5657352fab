//! A crate for easy interactions with the DualSense (PS5) controller.
//!
//! The core of the crate is the input-report decoder: a pure function that
//! turns the fixed 64-byte wired-mode report emitted by the controller into an
//! immutable snapshot (buttons, sticks, triggers, motion sensors, touchpad,
//! power and connectivity status). Every byte offset, bitmask and enumeration
//! conversion of the reverse-engineered report layout is stated in the
//! decoder's contract, and raw codes outside a field's documented domain
//! surface as an explicit error instead of a mis-decoded state.
//!
//! Device I/O (opening the controller, blocking or non-blocking reads) is not
//! part of this library; a caller reads a report from the transport of its
//! choice and hands the bytes to the decoder.

pub mod bitfield;
pub mod mappings;
pub mod state;

pub mod dualsense;

mod errors;
mod report;

pub use dualsense::{DualSenseState, Error, Mode};
pub use errors::{DecodeError, ReportField};
pub use report::{ProductID, RawInputReportUSB, VendorID};
