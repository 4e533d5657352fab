//! Device identifiers and the raw input report.
//!
//! The decoder consumes a fixed 64-byte buffer: the wired-mode input report.
//! The identifiers name the controller model that emits it; opening a device
//! by those identifiers and reading the bytes is the transport's job, not
//! this library's.

use vstd::prelude::*;

verus! {

/// A HID device vendor ID.
///
/// A vendor ID is an identifier that distinguishes manufacturers from each
/// other. The DualSense controller vendor ID is 0x054C (16 bits).
#[derive(Debug, Copy, Clone, PartialEq, Eq, Structural)]
pub struct VendorID(pub u16);

impl VendorID {
    /// Wrap a raw vendor ID.
    pub fn new(id: u16) -> (r: Self)
        ensures
            r.0 == id,
    {
        VendorID(id)
    }

    /// The raw vendor ID.
    pub fn id(&self) -> (r: u16)
        ensures
            r == self.0,
    {
        self.0
    }
}

/// A HID device product ID.
///
/// A product ID is an identifier that distinguishes products made from the
/// same manufacturer from each other. The DualSense controller product ID is
/// 0x0CE6 (16 bits).
#[derive(Debug, Copy, Clone, PartialEq, Eq, Structural)]
pub struct ProductID(pub u16);

impl ProductID {
    /// Wrap a raw product ID.
    pub fn new(id: u16) -> (r: Self)
        ensures
            r.0 == id,
    {
        ProductID(id)
    }

    /// The raw product ID.
    pub fn id(&self) -> (r: u16)
        ensures
            r == self.0,
    {
        self.0
    }
}

/// A raw representation of an input report from a DualSense controller using
/// a USB connection.
#[derive(Debug, Copy, Clone)]
pub struct RawInputReportUSB(pub [u8; 64]);

impl RawInputReportUSB {
    /// Wrap a raw 64-byte report buffer.
    pub fn new(slice: [u8; 64]) -> (r: Self)
        ensures
            r.0@ == slice@,
    {
        RawInputReportUSB(slice)
    }

    /// Borrow the report's bytes.
    pub fn as_array(&self) -> (r: &[u8; 64])
        ensures
            r@ == self.0@,
    {
        &self.0
    }
}

} // verus!
