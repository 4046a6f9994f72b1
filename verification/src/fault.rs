//! Typed fatal conditions. The engine cannot continue meaningfully after
//! any of these; they are surfaced to the caller instead of aborting the
//! hosting process.

use vstd::prelude::*;

verus! {

/// A fatal condition raised by the execution core or the bus.
#[derive(Clone, Copy, Debug, PartialEq, Eq, Structural)]
pub enum Fault {
    /// The fetched opcode has no table entry (reserved or unimplemented).
    ReservedOpcode(u8),
    /// A bank-controller command reached a cartridge type the bus does not
    /// support.
    UnsupportedCartridgeType(u8),
    /// A ROM-bank-select wrote an index outside the cartridge's bank count.
    InvalidRomBank(u8),
    /// The ROM header carries a size code outside the known set.
    UnknownRomSize(u8),
}

} // verus!
