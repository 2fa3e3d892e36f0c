//! The ways in which a cartridge header can be invalid.

use vstd::prelude::*;

verus! {

/// Why a header was rejected. Each check of the header fails with exactly one
/// of these, and carries the offending value where there is one.
#[derive(Debug, Clone, Copy, PartialEq, Eq, Structural)]
pub enum HeaderError {
    /// The image ends before a field that the check has to read.
    Truncated,
    /// The logo region differs from the required logo bitmap.
    LogoMismatch,
    /// The cartridge-type byte names no known memory bank controller.
    InvalidCartridgeType(u8),
    /// The ROM-size byte is above the largest assigned code.
    InvalidRomSize(u8),
    /// The RAM-size byte is not in the RAM-size table.
    InvalidRamSize(u8),
    /// The cartridge is an MBC2, which has no external RAM, but declares this
    /// nonzero number of RAM bytes.
    Mbc2RamMismatch(u32),
    /// The checksum stored in the header (`expected`) is not the checksum of
    /// the header bytes (`actual`).
    ChecksumMismatch { expected: u8, actual: u8 },
}

} // verus!
