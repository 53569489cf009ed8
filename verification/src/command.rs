//! The device's address on the bus and the byte strings of its commands.

use vstd::prelude::*;

verus! {

/// USB vendor identifier of the device.
pub const VENDOR_ID: u16 = 0x04f9;

/// USB product identifier of the device.
pub const PRODUCT_ID: u16 = 0x20c7;

/// Index of the interface to claim.
pub const INTERFACE: u8 = 0;

/// Address of the bulk endpoint that carries data from the device.
pub const FROM_DEVICE: u8 = 0x81;

/// Address of the bulk endpoint that carries data to the device.
pub const TO_DEVICE: u8 = 0x02;

/// Milliseconds to wait between a status request and the read of its reply.
pub const PACING_MILLIS: u64 = 1;

/// Length of the invalidate command in bytes.
pub const INVALIDATE_LEN: usize = 200;

/// Whether a device with these identifiers is the label printer.
pub fn is_label_printer(vendor_id: u16, product_id: u16) -> (matches: bool)
    ensures
        matches == (vendor_id == VENDOR_ID && product_id == PRODUCT_ID),
{
    vendor_id == VENDOR_ID && product_id == PRODUCT_ID
}

/// A command with a known wire encoding.
#[derive(Debug, Clone, Copy, PartialEq, Eq, Structural)]
pub enum Command {
    /// Flushes whatever the device holds of an earlier, unfinished command.
    Invalidate,
    /// Resets the device to its initial mode.
    Initialize,
    /// Asks for one status report.
    StatusRequest,
}

impl Command {
    /// The bytes that go over the wire for this command.
    pub open spec fn bytes(self) -> Seq<u8> {
        match self {
            Command::Invalidate => Seq::new(INVALIDATE_LEN as nat, |i: int| 0u8),
            Command::Initialize => seq![0x1Bu8, 0x40u8],
            Command::StatusRequest => seq![0x1Bu8, 0x69u8, 0x53u8],
        }
    }

    /// Writes out the bytes of this command.
    pub fn encode(self) -> (out: Vec<u8>)
        ensures
            out@ == self.bytes(),
    {
        let mut out: Vec<u8> = Vec::new();
        match self {
            Command::Invalidate => {
                let mut i: usize = 0;
                while i < INVALIDATE_LEN
                    invariant
                        i <= INVALIDATE_LEN,
                        out@.len() == i,
                        forall|k: int| 0 <= k < i ==> out@[k] == 0u8,
                    decreases INVALIDATE_LEN - i,
                {
                    out.push(0u8);
                    i = i + 1;
                }
            },
            Command::Initialize => {
                out.push(0x1B);
                out.push(0x40);
            },
            Command::StatusRequest => {
                out.push(0x1B);
                out.push(0x69);
                out.push(0x53);
            },
        }
        assert(out@ =~= self.bytes());
        out
    }
}

} // verus!
