//! Decoding of the fixed-size status report into structured printer state.

use vstd::prelude::*;
use crate::error::ProtocolError;
use crate::fault::PrinterError;
use crate::layout::{
    BATTERY_OFFSET, EXTENDED_ERROR_OFFSET, MODEL_OFFSET, PHASE_OFFSET, REPORT_LEN, STATUS_OFFSET,
    TAPE_WIDTH_OFFSET,
};
use crate::model::{BatteryCharge, Phase, PrinterModel, Status};

verus! {

/// The state of the printer as one status report describes it.
#[derive(Debug)]
pub struct PrinterStatus {
    pub model: PrinterModel,
    /// Tape width in millimeters.
    pub tape_width: u8,
    pub charge: BatteryCharge,
    /// The faults reported, each at most once.
    pub errors: Vec<PrinterError>,
    pub status: Status,
    pub phase: Phase,
}

/// A `PrinterStatus` with the fault list as a sequence.
pub struct PrinterStatusView {
    pub model: PrinterModel,
    pub tape_width: u8,
    pub charge: BatteryCharge,
    pub errors: Seq<PrinterError>,
    pub status: Status,
    pub phase: Phase,
}

impl View for PrinterStatus {
    type V = PrinterStatusView;

    open spec fn view(&self) -> PrinterStatusView {
        PrinterStatusView {
            model: self.model,
            tape_width: self.tape_width,
            charge: self.charge,
            errors: self.errors@,
            status: self.status,
            phase: self.phase,
        }
    }
}

impl PrinterStatus {
    /// What a status report of `REPORT_LEN` bytes means. The fields are read
    /// in rising offset, and the first byte outside its vocabulary decides
    /// the error. Reported faults are content of the result, not errors.
    pub open spec fn parse(report: Seq<u8>) -> Result<PrinterStatusView, ProtocolError> {
        match PrinterModel::of_code(report[MODEL_OFFSET as int]) {
            None => Err(ProtocolError::UnknownModel),
            Some(model) => match BatteryCharge::of_code(model, report[BATTERY_OFFSET as int]) {
                Err(e) => Err(e),
                Ok(charge) => if !PrinterError::extended_code_known(
                    report[EXTENDED_ERROR_OFFSET as int],
                ) {
                    Err(ProtocolError::UnknownExtendedError)
                } else {
                    match Status::of_code(report[STATUS_OFFSET as int]) {
                        None => Err(ProtocolError::UnknownStatus),
                        Some(status) => match Phase::of_code(report[PHASE_OFFSET as int]) {
                            None => Err(ProtocolError::UnknownPhase),
                            Some(phase) => Ok(
                                PrinterStatusView {
                                    model,
                                    tape_width: report[TAPE_WIDTH_OFFSET as int],
                                    charge,
                                    errors: PrinterError::raised(report),
                                    status,
                                    phase,
                                },
                            ),
                        },
                    }
                },
            },
        }
    }

    /// Whether `outcome` is what decoding `report` gives.
    pub open spec fn decodes_to(
        report: Seq<u8>,
        outcome: Result<PrinterStatus, ProtocolError>,
    ) -> bool {
        match PrinterStatus::parse(report) {
            Ok(view) => outcome matches Ok(status) && status@ == view,
            Err(e) => outcome matches Err(x) && x == e,
        }
    }

    /// Decodes a status report.
    pub fn decode(buffer: &[u8; 32]) -> (outcome: Result<PrinterStatus, ProtocolError>)
        ensures
            PrinterStatus::decodes_to(buffer@, outcome),
            outcome matches Ok(status) ==> {
                &&& status.errors@.no_duplicates()
                &&& forall|e: PrinterError|
                    status.errors@.contains(e) <==> e.raised_in(buffer@)
            },
    {
        proof {
            PrinterError::lemma_raised_is_the_signalled_set(buffer@);
        }
        let model = match PrinterModel::from_code(buffer[MODEL_OFFSET]) {
            Some(model) => model,
            None => {
                return Err(ProtocolError::UnknownModel);
            },
        };
        let charge = match BatteryCharge::from_code(model, buffer[BATTERY_OFFSET]) {
            Ok(charge) => charge,
            Err(e) => {
                return Err(e);
            },
        };
        if !PrinterError::is_extended_code_known(buffer[EXTENDED_ERROR_OFFSET]) {
            return Err(ProtocolError::UnknownExtendedError);
        }
        let errors = PrinterError::collect(buffer);
        let tape_width = buffer[TAPE_WIDTH_OFFSET];
        let status = match Status::from_code(buffer[STATUS_OFFSET]) {
            Some(status) => status,
            None => {
                return Err(ProtocolError::UnknownStatus);
            },
        };
        let phase = match Phase::from_code(buffer[PHASE_OFFSET]) {
            Some(phase) => phase,
            None => {
                return Err(ProtocolError::UnknownPhase);
            },
        };
        Ok(PrinterStatus { model, tape_width, charge, errors, status, phase })
    }

    /// The model code alone decides the model. Each of the four codes stands
    /// for its variant and no other code stands for any; a report decodes to
    /// the variant of its code whenever it decodes, and fails with
    /// `UnknownModel` exactly when its code stands for none.
    pub proof fn lemma_model_code_decides(report: Seq<u8>)
        ensures
            PrinterModel::of_code(0x78) == Some(PrinterModel::P910BT),
            PrinterModel::of_code(0x70) == Some(PrinterModel::P950NW),
            PrinterModel::of_code(0x69) == Some(PrinterModel::P900W),
            PrinterModel::of_code(0x71) == Some(PrinterModel::P900),
            forall|code: u8|
                code != 0x78 && code != 0x70 && code != 0x69 && code != 0x71
                    ==> #[trigger] PrinterModel::of_code(code) is None,
            PrinterModel::of_code(report[MODEL_OFFSET as int]) is None <==> PrinterStatus::parse(
                report,
            ) == Err::<PrinterStatusView, ProtocolError>(ProtocolError::UnknownModel),
            PrinterStatus::parse(report) matches Ok(view) ==> PrinterModel::of_code(
                report[MODEL_OFFSET as int],
            ) == Some(view.model),
    {
    }

    /// A battery report is understood on the supported model only: a report
    /// fails with `UnsupportedModel` exactly when its model code stands for
    /// one of the other models, and a report that decodes is of the supported
    /// model.
    pub proof fn lemma_other_models_are_unsupported(report: Seq<u8>)
        ensures
            (PrinterModel::of_code(report[MODEL_OFFSET as int]) matches Some(model) && model
                != PrinterModel::P910BT) <==> PrinterStatus::parse(report) == Err::<
                PrinterStatusView,
                ProtocolError,
            >(ProtocolError::UnsupportedModel),
            PrinterStatus::parse(report) matches Ok(view) ==> view.model == PrinterModel::P910BT,
    {
    }

    /// Decoding is a function of the report: two decodings of reports with
    /// the same bytes fail alike or give equal states.
    pub proof fn lemma_decode_is_deterministic(
        first_report: [u8; 32],
        second_report: [u8; 32],
        first: Result<PrinterStatus, ProtocolError>,
        second: Result<PrinterStatus, ProtocolError>,
    )
        requires
            first_report@ == second_report@,
            PrinterStatus::decodes_to(first_report@, first),
            PrinterStatus::decodes_to(second_report@, second),
        ensures
            match (first, second) {
                (Ok(a), Ok(b)) => a@ == b@,
                (Err(a), Err(b)) => a == b,
                _ => false,
            },
    {
    }

    /// The faults of a decoded report are exactly those whose bit or code
    /// the report carries, each listed once; nothing else in the report
    /// adds or removes one.
    pub proof fn lemma_errors_are_the_signalled_faults(report: Seq<u8>)
        requires
            PrinterStatus::parse(report) is Ok,
        ensures
            forall|e: PrinterError|
                PrinterStatus::parse(report)->Ok_0.errors.contains(e) <==> e.raised_in(report),
            PrinterStatus::parse(report)->Ok_0.errors.no_duplicates(),
    {
        PrinterError::lemma_raised_is_the_signalled_set(report);
    }

    /// Takes a received byte string as a status report, if it has the length
    /// of one.
    pub fn frame(bytes: &[u8]) -> (report: Option<[u8; 32]>)
        ensures
            bytes@.len() == REPORT_LEN <==> report is Some,
            report matches Some(buffer) ==> buffer@ == bytes@,
    {
        if bytes.len() != REPORT_LEN {
            return None;
        }
        let mut buffer = [0u8; 32];
        let mut i: usize = 0;
        while i < REPORT_LEN
            invariant
                i <= REPORT_LEN,
                bytes@.len() == REPORT_LEN,
                forall|k: int| 0 <= k < i ==> buffer@[k] == bytes@[k],
            decreases REPORT_LEN - i,
        {
            buffer[i] = bytes[i];
            i = i + 1;
        }
        assert(buffer@ =~= bytes@);
        Some(buffer)
    }
}

} // verus!
