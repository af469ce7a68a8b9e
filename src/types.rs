//! Descriptors handed to the driver and the outcomes it reports.
use vstd::prelude::*;

verus! {

/// Size in bytes of one programming unit.
pub const WRITE_SIZE: usize = 16;

/// Physical bank that a sector belongs to.
#[derive(Clone, Copy, Debug, PartialEq, Eq, Structural)]
pub enum FlashBank {
    Bank1,
    Bank2,
    /// One-time-programmable area; erasing it by sector is not supported.
    Otp,
}

/// A sector of flash: its bank and its index within that bank.
#[derive(Clone, Copy, Debug, PartialEq, Eq, Structural)]
pub struct FlashSector {
    pub bank: FlashBank,
    pub index_in_bank: u8,
}

/// Outcome of a flash operation other than success.
#[derive(Clone, Copy, Debug, PartialEq, Eq, Structural)]
pub enum Error {
    /// The operation is still in progress; poll again.
    Busy,
    /// Illegal programming sequence.
    Sequence,
    /// Programming size mismatch.
    Size,
    /// Programming alignment violated.
    Unaligned,
    /// The target region is write-protected.
    Protected,
    /// Generic programming failure.
    Prog,
    /// The sector lies in a bank that sector erase does not address.
    UnsupportedBank,
}

impl FlashSector {
    pub fn new(bank: FlashBank, index_in_bank: u8) -> (r: FlashSector)
        ensures
            r.bank == bank,
            r.index_in_bank == index_in_bank,
    {
        FlashSector { bank, index_in_bank }
    }
}

} // verus!
