//! Where each field lies in the fixed-size status report.

use vstd::prelude::*;

verus! {

/// Length of a status report in bytes.
pub const REPORT_LEN: usize = 32;

/// Offset of the model code.
pub const MODEL_OFFSET: usize = 4;

/// Offset of the battery code.
pub const BATTERY_OFFSET: usize = 6;

/// Offset of the extended error code.
pub const EXTENDED_ERROR_OFFSET: usize = 7;

/// Offset of the first byte of fault bits.
pub const ERROR_FLAGS_1_OFFSET: usize = 8;

/// Offset of the second byte of fault bits.
pub const ERROR_FLAGS_2_OFFSET: usize = 9;

/// Offset of the tape width, in millimeters.
pub const TAPE_WIDTH_OFFSET: usize = 10;

/// Offset of the media compatibility byte.
pub const MEDIA_COMPATIBILITY_OFFSET: usize = 11;

/// Offset of the status code.
pub const STATUS_OFFSET: usize = 18;

/// Offset of the phase code.
pub const PHASE_OFFSET: usize = 19;

} // verus!
