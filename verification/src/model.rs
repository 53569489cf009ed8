//! The closed vocabularies of the status report and their wire codes.

use vstd::prelude::*;
use crate::error::ProtocolError;

verus! {

/// The hardware variants that identify themselves in a status report.
#[derive(Debug, Clone, Copy, PartialEq, Eq, Structural)]
pub enum PrinterModel {
    P900,
    P900W,
    P950NW,
    /// The one variant whose battery report is understood.
    P910BT,
}

/// The power state of the supported model.
#[derive(Debug, Clone, Copy, PartialEq, Eq, Structural)]
pub enum BatteryCharge {
    AC,
    Full,
    Half,
    Low,
    NeedToBeCharged,
}

/// The category a report gives itself.
#[derive(Debug, Clone, Copy, PartialEq, Eq, Structural)]
pub enum Status {
    StatusRequestReply,
    PrintingComplete,
    ErrorOccurred,
    TurnedOff,
    Notification,
    PhaseChange,
}

/// What the device is doing, apart from any fault.
#[derive(Debug, Clone, Copy, PartialEq, Eq, Structural)]
pub enum Phase {
    Waiting,
    Printing,
}

/// Battery codes from this value upwards mean mains power.
pub const MAINS_THRESHOLD: u8 = 0x30;

impl PrinterModel {
    /// The variant that a model code stands for, if any.
    pub open spec fn of_code(code: u8) -> Option<PrinterModel> {
        if code == 0x78 {
            Some(PrinterModel::P910BT)
        } else if code == 0x70 {
            Some(PrinterModel::P950NW)
        } else if code == 0x69 {
            Some(PrinterModel::P900W)
        } else if code == 0x71 {
            Some(PrinterModel::P900)
        } else {
            None
        }
    }

    /// Reads a model code.
    pub fn from_code(code: u8) -> (model: Option<PrinterModel>)
        ensures
            model == PrinterModel::of_code(code),
    {
        match code {
            0x78 => Some(PrinterModel::P910BT),
            0x70 => Some(PrinterModel::P950NW),
            0x69 => Some(PrinterModel::P900W),
            0x71 => Some(PrinterModel::P900),
            _ => None,
        }
    }
}

impl BatteryCharge {
    /// What a battery code means on a given model. Only the supported model
    /// has a battery vocabulary; on any other the code is not looked at.
    pub open spec fn of_code(model: PrinterModel, code: u8) -> Result<BatteryCharge, ProtocolError> {
        if model != PrinterModel::P910BT {
            Err(ProtocolError::UnsupportedModel)
        } else if code >= MAINS_THRESHOLD {
            Ok(BatteryCharge::AC)
        } else if code == 0x20 {
            Ok(BatteryCharge::Full)
        } else if code == 0x22 {
            Ok(BatteryCharge::Half)
        } else if code == 0x23 {
            Ok(BatteryCharge::Low)
        } else if code == 0x24 {
            Ok(BatteryCharge::NeedToBeCharged)
        } else {
            Err(ProtocolError::UnknownBattery)
        }
    }

    /// Reads a battery code for a given model.
    pub fn from_code(model: PrinterModel, code: u8) -> (charge: Result<BatteryCharge, ProtocolError>)
        ensures
            charge == BatteryCharge::of_code(model, code),
    {
        if model != PrinterModel::P910BT {
            return Err(ProtocolError::UnsupportedModel);
        }
        if code >= MAINS_THRESHOLD {
            return Ok(BatteryCharge::AC);
        }
        match code {
            0x20 => Ok(BatteryCharge::Full),
            0x22 => Ok(BatteryCharge::Half),
            0x23 => Ok(BatteryCharge::Low),
            0x24 => Ok(BatteryCharge::NeedToBeCharged),
            _ => Err(ProtocolError::UnknownBattery),
        }
    }
}

impl Status {
    /// The category that a status code stands for, if any.
    pub open spec fn of_code(code: u8) -> Option<Status> {
        if code == 0x00 {
            Some(Status::StatusRequestReply)
        } else if code == 0x01 {
            Some(Status::PrintingComplete)
        } else if code == 0x02 {
            Some(Status::ErrorOccurred)
        } else if code == 0x04 {
            Some(Status::TurnedOff)
        } else if code == 0x05 {
            Some(Status::Notification)
        } else if code == 0x06 {
            Some(Status::PhaseChange)
        } else {
            None
        }
    }

    /// Reads a status code.
    pub fn from_code(code: u8) -> (status: Option<Status>)
        ensures
            status == Status::of_code(code),
    {
        match code {
            0x00 => Some(Status::StatusRequestReply),
            0x01 => Some(Status::PrintingComplete),
            0x02 => Some(Status::ErrorOccurred),
            0x04 => Some(Status::TurnedOff),
            0x05 => Some(Status::Notification),
            0x06 => Some(Status::PhaseChange),
            _ => None,
        }
    }
}

impl Phase {
    /// The phase that a phase code stands for, if any.
    pub open spec fn of_code(code: u8) -> Option<Phase> {
        if code == 0x00 {
            Some(Phase::Waiting)
        } else if code == 0x01 {
            Some(Phase::Printing)
        } else {
            None
        }
    }

    /// Reads a phase code.
    pub fn from_code(code: u8) -> (phase: Option<Phase>)
        ensures
            phase == Phase::of_code(code),
    {
        match code {
            0x00 => Some(Phase::Waiting),
            0x01 => Some(Phase::Printing),
            _ => None,
        }
    }
}

} // verus!
