//! The faults a device can report, and where in a status report each one is
//! signalled.

use vstd::prelude::*;
use crate::layout::{
    ERROR_FLAGS_1_OFFSET, ERROR_FLAGS_2_OFFSET, EXTENDED_ERROR_OFFSET, MEDIA_COMPATIBILITY_OFFSET,
    REPORT_LEN,
};

verus! {

/// How many faults the vocabulary holds.
pub const FAULT_COUNT: usize = 18;

/// A fault condition of the device. Any number of them may hold at once.
#[derive(Debug, Clone, Copy, PartialEq, Eq, Structural)]
pub enum PrinterError {
    NoMedia,
    EndOfMedia,
    CutterJam,
    WeakBattery,
    HighVoltageAdapter,
    ReplaceMedia,
    ExpansionBufferFull,
    CommunicationError,
    CommunicationBufferFull,
    CoverOpen,
    Overheating,
    BlackMarkingNotDetected,
    SystemError,
    UnknownMedia,
    FleTapeEnd,
    HighResDraftPrintError,
    AdapterPullInsertError,
    IncompatibleTape,
}

/// The place of a fault in a status report.
#[derive(Debug, Clone, Copy, PartialEq, Eq, Structural)]
pub enum Signal {
    /// The fault holds when the bits of `mask` are set in the byte at `offset`.
    Bit { offset: usize, mask: u8 },
    /// The fault holds when the byte at `offset` has exactly this value.
    Code { offset: usize, value: u8 },
}

impl Signal {
    /// The offset of the byte that carries the signal.
    pub open spec fn offset(self) -> usize {
        match self {
            Signal::Bit { offset, .. } => offset,
            Signal::Code { offset, .. } => offset,
        }
    }

    /// Whether a byte value gives the signal.
    pub open spec fn given_by(self, byte: u8) -> bool {
        match self {
            Signal::Bit { mask, .. } => byte & mask == mask,
            Signal::Code { value, .. } => byte == value,
        }
    }
}

impl PrinterError {
    /// Where this fault is signalled.
    pub open spec fn signal_spec(self) -> Signal {
        match self {
            PrinterError::UnknownMedia => Signal::Code { offset: EXTENDED_ERROR_OFFSET, value: 0x21 },
            PrinterError::FleTapeEnd => Signal::Code { offset: EXTENDED_ERROR_OFFSET, value: 0x10 },
            PrinterError::HighResDraftPrintError => Signal::Code { offset: EXTENDED_ERROR_OFFSET, value: 0x1d },
            PrinterError::AdapterPullInsertError => Signal::Code { offset: EXTENDED_ERROR_OFFSET, value: 0x1e },
            PrinterError::NoMedia => Signal::Bit { offset: ERROR_FLAGS_1_OFFSET, mask: 0x01 },
            PrinterError::EndOfMedia => Signal::Bit { offset: ERROR_FLAGS_1_OFFSET, mask: 0x02 },
            PrinterError::CutterJam => Signal::Bit { offset: ERROR_FLAGS_1_OFFSET, mask: 0x04 },
            PrinterError::WeakBattery => Signal::Bit { offset: ERROR_FLAGS_1_OFFSET, mask: 0x08 },
            PrinterError::HighVoltageAdapter => Signal::Bit { offset: ERROR_FLAGS_1_OFFSET, mask: 0x40 },
            PrinterError::ReplaceMedia => Signal::Bit { offset: ERROR_FLAGS_2_OFFSET, mask: 0x01 },
            PrinterError::ExpansionBufferFull => Signal::Bit { offset: ERROR_FLAGS_2_OFFSET, mask: 0x02 },
            PrinterError::CommunicationError => Signal::Bit { offset: ERROR_FLAGS_2_OFFSET, mask: 0x04 },
            PrinterError::CommunicationBufferFull => Signal::Bit { offset: ERROR_FLAGS_2_OFFSET, mask: 0x08 },
            PrinterError::CoverOpen => Signal::Bit { offset: ERROR_FLAGS_2_OFFSET, mask: 0x10 },
            PrinterError::Overheating => Signal::Bit { offset: ERROR_FLAGS_2_OFFSET, mask: 0x20 },
            PrinterError::BlackMarkingNotDetected => Signal::Bit { offset: ERROR_FLAGS_2_OFFSET, mask: 0x40 },
            PrinterError::SystemError => Signal::Bit { offset: ERROR_FLAGS_2_OFFSET, mask: 0x80 },
            PrinterError::IncompatibleTape => Signal::Code { offset: MEDIA_COMPATIBILITY_OFFSET, value: 0xFF },
        }
    }

    /// Where this fault is signalled.
    #[verifier::when_used_as_spec(signal_spec)]
    pub fn signal(self) -> (signal: Signal)
        ensures
            signal == self.signal_spec(),
            signal.offset() < REPORT_LEN,
    {
        match self {
            PrinterError::UnknownMedia => Signal::Code { offset: EXTENDED_ERROR_OFFSET, value: 0x21 },
            PrinterError::FleTapeEnd => Signal::Code { offset: EXTENDED_ERROR_OFFSET, value: 0x10 },
            PrinterError::HighResDraftPrintError => Signal::Code { offset: EXTENDED_ERROR_OFFSET, value: 0x1d },
            PrinterError::AdapterPullInsertError => Signal::Code { offset: EXTENDED_ERROR_OFFSET, value: 0x1e },
            PrinterError::NoMedia => Signal::Bit { offset: ERROR_FLAGS_1_OFFSET, mask: 0x01 },
            PrinterError::EndOfMedia => Signal::Bit { offset: ERROR_FLAGS_1_OFFSET, mask: 0x02 },
            PrinterError::CutterJam => Signal::Bit { offset: ERROR_FLAGS_1_OFFSET, mask: 0x04 },
            PrinterError::WeakBattery => Signal::Bit { offset: ERROR_FLAGS_1_OFFSET, mask: 0x08 },
            PrinterError::HighVoltageAdapter => Signal::Bit { offset: ERROR_FLAGS_1_OFFSET, mask: 0x40 },
            PrinterError::ReplaceMedia => Signal::Bit { offset: ERROR_FLAGS_2_OFFSET, mask: 0x01 },
            PrinterError::ExpansionBufferFull => Signal::Bit { offset: ERROR_FLAGS_2_OFFSET, mask: 0x02 },
            PrinterError::CommunicationError => Signal::Bit { offset: ERROR_FLAGS_2_OFFSET, mask: 0x04 },
            PrinterError::CommunicationBufferFull => Signal::Bit { offset: ERROR_FLAGS_2_OFFSET, mask: 0x08 },
            PrinterError::CoverOpen => Signal::Bit { offset: ERROR_FLAGS_2_OFFSET, mask: 0x10 },
            PrinterError::Overheating => Signal::Bit { offset: ERROR_FLAGS_2_OFFSET, mask: 0x20 },
            PrinterError::BlackMarkingNotDetected => Signal::Bit { offset: ERROR_FLAGS_2_OFFSET, mask: 0x40 },
            PrinterError::SystemError => Signal::Bit { offset: ERROR_FLAGS_2_OFFSET, mask: 0x80 },
            PrinterError::IncompatibleTape => Signal::Code { offset: MEDIA_COMPATIBILITY_OFFSET, value: 0xFF },
        }
    }

    /// Whether a report signals this fault.
    pub open spec fn raised_in(self, report: Seq<u8>) -> bool {
        self.signal().given_by(report[self.signal().offset() as int])
    }

    /// Whether a report signals this fault.
    pub fn is_raised(self, report: &[u8; 32]) -> (raised: bool)
        ensures
            raised == self.raised_in(report@),
    {
        match self.signal() {
            Signal::Bit { offset, mask } => report[offset] & mask == mask,
            Signal::Code { offset, value } => report[offset] == value,
        }
    }

    /// The position of this fault in the order in which faults are listed.
    pub open spec fn rank(self) -> nat {
        match self {
            PrinterError::UnknownMedia => 0,
            PrinterError::FleTapeEnd => 1,
            PrinterError::HighResDraftPrintError => 2,
            PrinterError::AdapterPullInsertError => 3,
            PrinterError::NoMedia => 4,
            PrinterError::EndOfMedia => 5,
            PrinterError::CutterJam => 6,
            PrinterError::WeakBattery => 7,
            PrinterError::HighVoltageAdapter => 8,
            PrinterError::ReplaceMedia => 9,
            PrinterError::ExpansionBufferFull => 10,
            PrinterError::CommunicationError => 11,
            PrinterError::CommunicationBufferFull => 12,
            PrinterError::CoverOpen => 13,
            PrinterError::Overheating => 14,
            PrinterError::BlackMarkingNotDetected => 15,
            PrinterError::SystemError => 16,
            PrinterError::IncompatibleTape => 17,
        }
    }

    /// The fault at a position of the listing order, if the position exists.
    pub open spec fn of_rank(rank: nat) -> Option<PrinterError> {
        if exists|e: PrinterError| e.rank() == rank {
            Some(choose|e: PrinterError| e.rank() == rank)
        } else {
            None
        }
    }

    /// The fault at a position of the listing order, if the position exists.
    pub fn from_rank(rank: usize) -> (fault: Option<PrinterError>)
        ensures
            fault == PrinterError::of_rank(rank as nat),
    {
        let fault = match rank {
            0 => Some(PrinterError::UnknownMedia),
            1 => Some(PrinterError::FleTapeEnd),
            2 => Some(PrinterError::HighResDraftPrintError),
            3 => Some(PrinterError::AdapterPullInsertError),
            4 => Some(PrinterError::NoMedia),
            5 => Some(PrinterError::EndOfMedia),
            6 => Some(PrinterError::CutterJam),
            7 => Some(PrinterError::WeakBattery),
            8 => Some(PrinterError::HighVoltageAdapter),
            9 => Some(PrinterError::ReplaceMedia),
            10 => Some(PrinterError::ExpansionBufferFull),
            11 => Some(PrinterError::CommunicationError),
            12 => Some(PrinterError::CommunicationBufferFull),
            13 => Some(PrinterError::CoverOpen),
            14 => Some(PrinterError::Overheating),
            15 => Some(PrinterError::BlackMarkingNotDetected),
            16 => Some(PrinterError::SystemError),
            17 => Some(PrinterError::IncompatibleTape),
            _ => None,
        };
        proof {
            match fault {
                Some(e) => {
                    assert(e.rank() == rank);
                    PrinterError::lemma_rank_is_position(e);
                },
                None => {
                    assert forall|e: PrinterError| e.rank() != rank by {
                        PrinterError::lemma_rank_is_position(e);
                    }
                },
            }
        }
        fault
    }

    /// Positions are below `FAULT_COUNT`, no two faults share one, and
    /// `of_rank` finds each fault again at its position.
    pub proof fn lemma_rank_is_position(e: PrinterError)
        ensures
            e.rank() < FAULT_COUNT,
            forall|other: PrinterError| other.rank() == e.rank() ==> other == e,
            PrinterError::of_rank(e.rank()) == Some(e),
    {
        assert forall|other: PrinterError| other.rank() == e.rank() implies other == e by {}
        let found = choose|x: PrinterError| x.rank() == e.rank();
        assert(found.rank() == e.rank());
    }

    /// The faults that a report signals, in listing order, among the first
    /// `n` positions.
    pub open spec fn raised_below(report: Seq<u8>, n: nat) -> Seq<PrinterError>
        decreases n,
    {
        if n == 0 {
            Seq::empty()
        } else {
            let earlier = PrinterError::raised_below(report, (n - 1) as nat);
            match PrinterError::of_rank((n - 1) as nat) {
                Some(e) => if e.raised_in(report) {
                    earlier.push(e)
                } else {
                    earlier
                },
                None => earlier,
            }
        }
    }

    /// All the faults that a report signals, each once, in listing order.
    pub open spec fn raised(report: Seq<u8>) -> Seq<PrinterError> {
        PrinterError::raised_below(report, FAULT_COUNT as nat)
    }

    /// Among the first `n` positions, the listing holds exactly the faults
    /// that the report signals, in strictly rising position.
    pub proof fn lemma_raised_below(report: Seq<u8>, n: nat)
        ensures
            forall|e: PrinterError|
                #![trigger PrinterError::raised_below(report, n).contains(e)]
                #![trigger e.raised_in(report)]
                PrinterError::raised_below(report, n).contains(e) <==> (e.rank() < n
                    && e.raised_in(report)),
            forall|i: int, j: int|
                #![trigger PrinterError::raised_below(report, n)[i], PrinterError::raised_below(report, n)[j]]
                0 <= i < j < PrinterError::raised_below(report, n).len()
                    ==> PrinterError::raised_below(report, n)[i].rank()
                    < PrinterError::raised_below(report, n)[j].rank(),
        decreases n,
    {
        let listed = PrinterError::raised_below(report, n);
        if n > 0 {
            let earlier = PrinterError::raised_below(report, (n - 1) as nat);
            let last = PrinterError::of_rank((n - 1) as nat);
            PrinterError::lemma_raised_below(report, (n - 1) as nat);
            if last is Some && last->0.raised_in(report) {
                let x = last->0;
                assert(x.rank() == n - 1);
                assert(listed == earlier.push(x));
                assert forall|e: PrinterError|
                    listed.contains(e) <==> (e.rank() < n && e.raised_in(report)) by {
                    PrinterError::lemma_rank_is_position(e);
                    if listed.contains(e) {
                        let k = choose|k: int| 0 <= k < listed.len() && listed[k] == e;
                        if k < earlier.len() {
                            assert(earlier[k] == e);
                            assert(earlier.contains(e));
                        }
                    }
                    if e.rank() < n && e.raised_in(report) {
                        if e.rank() == n - 1 {
                            assert(listed[earlier.len() as int] == e);
                        } else {
                            assert(earlier.contains(e));
                            let k = choose|k: int| 0 <= k < earlier.len() && earlier[k] == e;
                            assert(listed[k] == e);
                        }
                    }
                }
                assert forall|i: int, j: int| 0 <= i < j < listed.len() implies listed[i].rank()
                    < listed[j].rank() by {
                    assert(earlier.contains(earlier[i]));
                }
            } else {
                assert forall|e: PrinterError|
                    listed.contains(e) <==> (e.rank() < n && e.raised_in(report)) by {
                    PrinterError::lemma_rank_is_position(e);
                }
            }
        }
    }

    /// A report's fault list holds a fault exactly when the report signals
    /// it, and holds none twice.
    pub proof fn lemma_raised_is_the_signalled_set(report: Seq<u8>)
        ensures
            forall|e: PrinterError|
                PrinterError::raised(report).contains(e) <==> e.raised_in(report),
            PrinterError::raised(report).no_duplicates(),
    {
        let listed = PrinterError::raised(report);
        PrinterError::lemma_raised_below(report, FAULT_COUNT as nat);
        assert forall|e: PrinterError| listed.contains(e) <==> e.raised_in(report) by {
            PrinterError::lemma_rank_is_position(e);
        }
        assert forall|i: int, j: int|
            0 <= i < listed.len() && 0 <= j < listed.len() && i != j implies listed[i]
            != listed[j] by {
            if i < j {
                assert(listed[i].rank() < listed[j].rank());
            } else {
                assert(listed[j].rank() < listed[i].rank());
            }
        }
    }

    /// A fault bit is read by itself, whatever the other bits of its byte
    /// are: setting the bit of a fault raises that fault, clearing it lowers
    /// it, and neither changes any other fault of that byte.
    pub proof fn lemma_fault_bits_are_independent(e: PrinterError, other: PrinterError, byte: u8)
        requires
            e.signal() is Bit,
            other.signal() is Bit,
            e.signal().offset() == other.signal().offset(),
            e != other,
        ensures
            e.signal().given_by(byte | e.signal()->mask),
            !e.signal().given_by(byte & !e.signal()->mask),
            other.signal().given_by(byte | e.signal()->mask) == other.signal().given_by(byte),
            other.signal().given_by(byte & !e.signal()->mask) == other.signal().given_by(byte),
    {
        let m = e.signal()->mask;
        let o = other.signal()->mask;
        assert(m != o);
        assert(m == 1 || m == 2 || m == 4 || m == 8 || m == 16 || m == 32 || m == 64 || m == 128);
        assert(o == 1 || o == 2 || o == 4 || o == 8 || o == 16 || o == 32 || o == 64 || o == 128);
        assert((byte | m) & m == m && (byte & !m) & m != m && (((byte | m) & o == o) == (byte & o
            == o)) && (((byte & !m) & o == o) == (byte & o == o))) by (bit_vector)
            requires
                m != o,
                m == 1 || m == 2 || m == 4 || m == 8 || m == 16 || m == 32 || m == 64 || m == 128,
                o == 1 || o == 2 || o == 4 || o == 8 || o == 16 || o == 32 || o == 64 || o == 128,
        ;
    }

    /// Whether an extended error code is in the vocabulary: zero, which
    /// signals nothing, or the code of one of the faults.
    pub open spec fn extended_code_known(code: u8) -> bool {
        code == 0 || exists|e: PrinterError|
            e.signal() == (Signal::Code { offset: EXTENDED_ERROR_OFFSET, value: code })
    }

    /// Whether an extended error code is in the vocabulary.
    pub fn is_extended_code_known(code: u8) -> (known: bool)
        ensures
            known == PrinterError::extended_code_known(code),
    {
        let named = match code {
            0x21 => Some(PrinterError::UnknownMedia),
            0x10 => Some(PrinterError::FleTapeEnd),
            0x1d => Some(PrinterError::HighResDraftPrintError),
            0x1e => Some(PrinterError::AdapterPullInsertError),
            _ => None,
        };
        proof {
            if let Some(e) = named {
                assert(e.signal() == (Signal::Code { offset: EXTENDED_ERROR_OFFSET, value: code }));
            }
        }
        code == 0 || named.is_some()
    }

    /// Lists the faults that a report signals.
    pub fn collect(report: &[u8; 32]) -> (faults: Vec<PrinterError>)
        ensures
            faults@ == PrinterError::raised(report@),
    {
        let mut faults: Vec<PrinterError> = Vec::new();
        let mut rank: usize = 0;
        while rank < FAULT_COUNT
            invariant
                rank <= FAULT_COUNT,
                faults@ == PrinterError::raised_below(report@, rank as nat),
            decreases FAULT_COUNT - rank,
        {
            match PrinterError::from_rank(rank) {
                Some(e) => {
                    if e.is_raised(report) {
                        faults.push(e);
                    }
                },
                None => {},
            }
            rank = rank + 1;
        }
        faults
    }
}

} // verus!
