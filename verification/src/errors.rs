//! The decoder's error vocabulary.
//!
//! Decoding a report never panics: a malformed buffer always surfaces as one
//! of these explicit, recoverable error values, and the caller may simply
//! discard the report and retry on the next read.

use vstd::prelude::*;

verus! {

/// The report field whose raw code failed an enumeration conversion.
#[derive(Debug, Copy, Clone, PartialEq, Eq, Structural)]
pub enum ReportField {
    /// A one-bit button field.
    Button,
    /// The directional-pad nibble.
    DPad,
    /// The battery charge-state nibble.
    Power,
    /// A back-trigger effect nibble.
    TriggerEffect,
    /// A back-trigger status nibble.
    TriggerStatus,
    /// A one-bit plugged/unplugged field.
    Plugged,
    /// A one-bit muted/unmuted field.
    Muted,
}

/// The error type of the report decoder.
#[derive(Debug, Copy, Clone, PartialEq, Eq, Structural)]
pub enum DecodeError {
    /// The buffer does not hold exactly 64 bytes.
    WrongSize,
    /// The header byte is neither `0x00` (placeholder report) nor `0x01`
    /// (wired-mode input report).
    UnsupportedReportType,
    /// A field's raw code lies outside its documented domain. Carries the
    /// field and the offending code for diagnostics.
    InvalidEnumerationCode {
        /// The field whose conversion failed.
        field: ReportField,
        /// The raw code that is outside the field's domain.
        value: u8,
    },
}

} // verus!
