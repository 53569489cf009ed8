//! What can go wrong, told apart by who is at fault: the link to the device,
//! the dialect the device speaks, or the device's own reported condition.

use vstd::prelude::*;
use crate::fault::PrinterError;

verus! {

/// The link to the device failed.
#[derive(Debug, Clone, Copy, PartialEq, Eq, Structural)]
pub enum TransportError {
    /// No attached device carries the expected vendor and product identifiers.
    DeviceNotFound,
    /// The device was found but could not be opened or its interface claimed.
    ClaimFailed,
    /// A bulk transfer did not complete, or did not deliver a whole report.
    TransferFailed,
}

/// A byte of a status report lies outside the vocabulary of its offset.
#[derive(Debug, Clone, Copy, PartialEq, Eq, Structural)]
pub enum ProtocolError {
    UnknownModel,
    /// The model is recognized, but its battery report is not understood.
    UnsupportedModel,
    UnknownBattery,
    UnknownExtendedError,
    UnknownStatus,
    UnknownPhase,
}

/// Either way a status query can fail.
#[derive(Debug, Clone, Copy, PartialEq, Eq, Structural)]
pub enum DeviceError {
    Transport(TransportError),
    Protocol(ProtocolError),
}

/// Why initialization did not produce a session.
#[derive(Debug)]
pub enum InitError {
    /// The device could not be reached or its report could not be read.
    DeviceError(DeviceError),
    /// The handshake completed, but the device reports these faults.
    PrinterFault(Vec<PrinterError>),
}

/// An `InitError` with the fault list as a sequence.
pub enum InitFailure {
    DeviceError(DeviceError),
    PrinterFault(Seq<PrinterError>),
}

impl View for InitError {
    type V = InitFailure;

    open spec fn view(&self) -> InitFailure {
        match *self {
            InitError::DeviceError(e) => InitFailure::DeviceError(e),
            InitError::PrinterFault(faults) => InitFailure::PrinterFault(faults@),
        }
    }
}

} // verus!
