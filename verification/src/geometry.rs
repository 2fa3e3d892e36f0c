//! Decoding of the three header bytes that describe the cartridge hardware:
//! the memory bank controller, the ROM capacity and the RAM capacity.

use crate::error::HeaderError;
use vstd::arithmetic::power2::{lemma2_to64, pow2};
use vstd::bits::lemma_u32_shl_is_mul;
use vstd::prelude::*;

verus! {

/// The families of memory bank controllers that a cartridge can carry.
#[derive(Debug, Clone, Copy, PartialEq, Eq, Structural)]
pub enum MemoryBankType {
    /// Plain ROM, no banking.
    ROM,
    MBC1,
    MBC2,
    MMM01,
    MBC3,
    MBC5,
    MBC6,
    MBC7,
}

/// Number of bytes in a kibibyte.
pub const KB: u32 = 1024;

/// The largest assigned ROM-size code.
pub const MAX_ROM_SIZE_CODE: u8 = 0x08;

/// The controller family that a cartridge-type code stands for, or the error
/// for a code that stands for none.
pub open spec fn memory_bank_type_of(code: u8) -> Result<MemoryBankType, HeaderError> {
    if code == 0x00 || code == 0x08 || code == 0x09 {
        Ok(MemoryBankType::ROM)
    } else if 0x01 <= code <= 0x03 {
        Ok(MemoryBankType::MBC1)
    } else if code == 0x05 || code == 0x06 {
        Ok(MemoryBankType::MBC2)
    } else if 0x0B <= code <= 0x0D {
        Ok(MemoryBankType::MMM01)
    } else if 0x0F <= code <= 0x13 {
        Ok(MemoryBankType::MBC3)
    } else if 0x19 <= code <= 0x1E {
        Ok(MemoryBankType::MBC5)
    } else if code == 0x20 {
        Ok(MemoryBankType::MBC6)
    } else if code == 0x22 {
        Ok(MemoryBankType::MBC7)
    } else {
        Err(HeaderError::InvalidCartridgeType(code))
    }
}

/// Decodes a cartridge-type code.
pub fn decode_memory_bank_type(code: u8) -> (r: Result<MemoryBankType, HeaderError>)
    ensures
        r == memory_bank_type_of(code),
{
    match code {
        0x00 | 0x08 | 0x09 => Ok(MemoryBankType::ROM),
        0x01..=0x03 => Ok(MemoryBankType::MBC1),
        0x05 | 0x06 => Ok(MemoryBankType::MBC2),
        0x0B..=0x0D => Ok(MemoryBankType::MMM01),
        0x0F..=0x13 => Ok(MemoryBankType::MBC3),
        0x19..=0x1E => Ok(MemoryBankType::MBC5),
        0x20 => Ok(MemoryBankType::MBC6),
        0x22 => Ok(MemoryBankType::MBC7),
        _ => Err(HeaderError::InvalidCartridgeType(code)),
    }
}

/// The ROM capacity in bytes that a ROM-size code declares: 32 KiB, doubled
/// once for each step of the code.
pub open spec fn rom_capacity(code: u8) -> nat {
    32768 * pow2(code as nat)
}

/// The ROM capacity that a ROM-size code stands for, or the error for a code
/// above the largest assigned one.
pub open spec fn rom_size_of(code: u8) -> Result<u32, HeaderError> {
    if code <= MAX_ROM_SIZE_CODE {
        Ok(rom_capacity(code) as u32)
    } else {
        Err(HeaderError::InvalidRomSize(code))
    }
}

/// Decodes a ROM-size code.
pub fn decode_rom_size(code: u8) -> (r: Result<u32, HeaderError>)
    ensures
        r == rom_size_of(code),
{
    if code > MAX_ROM_SIZE_CODE {
        return Err(HeaderError::InvalidRomSize(code));
    }
    proof {
        lemma2_to64();
        lemma_u32_shl_is_mul(32768u32, code as u32);
    }
    Ok(32768u32 << code)
}

/// The RAM capacity that a RAM-size code stands for, or the error for a code
/// outside the table. Codes 0 and 1 both declare no RAM, and the table is not
/// monotonic: code 5 declares less than code 4.
pub open spec fn ram_size_of(code: u8) -> Result<u32, HeaderError> {
    if code == 0x00 || code == 0x01 {
        Ok(0u32)
    } else if code == 0x02 {
        Ok(8192u32)
    } else if code == 0x03 {
        Ok(32768u32)
    } else if code == 0x04 {
        Ok(131072u32)
    } else if code == 0x05 {
        Ok(65536u32)
    } else {
        Err(HeaderError::InvalidRamSize(code))
    }
}

/// Decodes a RAM-size code.
pub fn decode_ram_size(code: u8) -> (r: Result<u32, HeaderError>)
    ensures
        r == ram_size_of(code),
{
    match code {
        0x00 | 0x01 => Ok(0),
        0x02 => Ok(8 * KB),
        0x03 => Ok(32 * KB),
        0x04 => Ok(128 * KB),
        0x05 => Ok(64 * KB),
        _ => Err(HeaderError::InvalidRamSize(code)),
    }
}

/// Whether a controller family can go with a declared RAM capacity. An MBC2
/// has no external RAM, so with it any nonzero capacity is an error; every
/// other pairing is fine.
pub open spec fn bank_ram_check(bank: MemoryBankType, ram_size: u32) -> Result<(), HeaderError> {
    if bank == MemoryBankType::MBC2 && ram_size != 0 {
        Err(HeaderError::Mbc2RamMismatch(ram_size))
    } else {
        Ok(())
    }
}

/// Cross-checks a decoded controller family against a decoded RAM capacity.
pub fn check_memory_bank_matches_ram(bank: MemoryBankType, ram_size: u32) -> (r: Result<
    (),
    HeaderError,
>)
    ensures
        r == bank_ram_check(bank, ram_size),
{
    if bank == MemoryBankType::MBC2 && ram_size != 0 {
        Err(HeaderError::Mbc2RamMismatch(ram_size))
    } else {
        Ok(())
    }
}

} // verus!
