//! A cartridge image and the checks of its header.

use crate::checksum::{checksum_of, compute_checksum};
use crate::error::HeaderError;
use crate::geometry::{
    bank_ram_check, check_memory_bank_matches_ram, decode_memory_bank_type, decode_ram_size,
    decode_rom_size, memory_bank_type_of, ram_size_of, rom_size_of, MemoryBankType,
};
use crate::layout::{
    CARTRIDGE_TYPE_INDEX, HEADER_CHECKSUM_END, HEADER_CHECKSUM_INDEX, HEADER_CHECKSUM_START,
    HEADER_END, NINTENDO_LOGO, NINTENDO_LOGO_END, NINTENDO_LOGO_START, RAM_SIZE_INDEX, ROM_SIZE_INDEX,
};
use vstd::prelude::*;

verus! {

/// A cartridge image: the raw bytes of a cartridge, header included. No
/// function of this crate changes the bytes of an image.
#[derive(Debug, PartialEq, Eq)]
pub struct Rom {
    pub content: Vec<u8>,
}

impl View for Rom {
    type V = Seq<u8>;

    /// An image is modelled by the sequence of its bytes.
    open spec fn view(&self) -> Seq<u8> {
        self.content@
    }
}

impl Clone for Rom {
    /// A copy of an image holds the same bytes.
    fn clone(&self) -> (copy: Rom)
        ensures
            copy@ == self@,
    {
        Rom { content: self.content.clone() }
    }
}

/// The bytes of an image that should hold the logo bitmap.
pub open spec fn logo_region(bytes: Seq<u8>) -> Seq<u8> {
    bytes.subrange(NINTENDO_LOGO_START as int, NINTENDO_LOGO_END as int)
}

/// The bytes of an image that the header checksum covers.
pub open spec fn checksum_region(bytes: Seq<u8>) -> Seq<u8> {
    bytes.subrange(HEADER_CHECKSUM_START as int, HEADER_CHECKSUM_END as int)
}

/// The outcome of the logo check: an image that ends before the end of the
/// logo region is truncated; otherwise the region must equal the logo bitmap.
pub open spec fn logo_check(bytes: Seq<u8>) -> Result<(), HeaderError> {
    if bytes.len() < NINTENDO_LOGO_END {
        Err(HeaderError::Truncated)
    } else if logo_region(bytes) == NINTENDO_LOGO@ {
        Ok(())
    } else {
        Err(HeaderError::LogoMismatch)
    }
}

/// The controller family that an image declares.
pub open spec fn memory_bank_type_at(bytes: Seq<u8>) -> Result<MemoryBankType, HeaderError> {
    if bytes.len() <= CARTRIDGE_TYPE_INDEX {
        Err(HeaderError::Truncated)
    } else {
        memory_bank_type_of(bytes[CARTRIDGE_TYPE_INDEX as int])
    }
}

/// The ROM capacity that an image declares.
pub open spec fn rom_size_at(bytes: Seq<u8>) -> Result<u32, HeaderError> {
    if bytes.len() <= ROM_SIZE_INDEX {
        Err(HeaderError::Truncated)
    } else {
        rom_size_of(bytes[ROM_SIZE_INDEX as int])
    }
}

/// The RAM capacity that an image declares.
pub open spec fn ram_size_at(bytes: Seq<u8>) -> Result<u32, HeaderError> {
    if bytes.len() <= RAM_SIZE_INDEX {
        Err(HeaderError::Truncated)
    } else {
        ram_size_of(bytes[RAM_SIZE_INDEX as int])
    }
}

/// The outcome of the cross-check of controller family and RAM capacity. The
/// RAM capacity is decoded first and the controller family second, so where
/// both bytes are invalid the error names the RAM-size byte.
pub open spec fn memory_bank_ram_check(bytes: Seq<u8>) -> Result<(), HeaderError> {
    match ram_size_at(bytes) {
        Err(e) => Err(e),
        Ok(ram_size) => match memory_bank_type_at(bytes) {
            Err(e) => Err(e),
            Ok(bank) => bank_ram_check(bank, ram_size),
        },
    }
}

/// The outcome of the checksum check: the checksum of the covered bytes must
/// equal the byte stored behind them.
pub open spec fn header_checksum_check(bytes: Seq<u8>) -> Result<(), HeaderError> {
    if bytes.len() <= HEADER_CHECKSUM_INDEX {
        Err(HeaderError::Truncated)
    } else if checksum_of(checksum_region(bytes)) == bytes[HEADER_CHECKSUM_INDEX as int] {
        Ok(())
    } else {
        Err(
            HeaderError::ChecksumMismatch {
                expected: bytes[HEADER_CHECKSUM_INDEX as int],
                actual: checksum_of(checksum_region(bytes)),
            },
        )
    }
}

/// The outcome of validating a whole header. The checks run in a fixed order:
/// the logo, the cross-check of controller family and RAM capacity (which
/// decodes both), the ROM capacity, the checksum. The first one that fails
/// decides the error, and later checks are not consulted.
pub open spec fn header_check(bytes: Seq<u8>) -> Result<(), HeaderError> {
    match logo_check(bytes) {
        Err(e) => Err(e),
        Ok(_) => match memory_bank_ram_check(bytes) {
            Err(e) => Err(e),
            Ok(_) => match rom_size_at(bytes) {
                Err(e) => Err(e),
                Ok(_) => header_checksum_check(bytes),
            },
        },
    }
}

/// What it means for an image to have a valid header, said without reference
/// to any order of checking: the image holds the whole header, the logo is in
/// place, the three hardware bytes decode, an MBC2 declares no RAM, and the
/// stored checksum is the checksum of the covered bytes.
pub open spec fn valid_header(bytes: Seq<u8>) -> bool {
    &&& bytes.len() >= HEADER_END
    &&& logo_region(bytes) == NINTENDO_LOGO@
    &&& memory_bank_type_of(bytes[CARTRIDGE_TYPE_INDEX as int]) is Ok
    &&& rom_size_of(bytes[ROM_SIZE_INDEX as int]) is Ok
    &&& ram_size_of(bytes[RAM_SIZE_INDEX as int]) is Ok
    &&& bank_ram_check(
        memory_bank_type_of(bytes[CARTRIDGE_TYPE_INDEX as int])->Ok_0,
        ram_size_of(bytes[RAM_SIZE_INDEX as int])->Ok_0,
    ) is Ok
    &&& checksum_of(checksum_region(bytes)) == bytes[HEADER_CHECKSUM_INDEX as int]
}

impl Rom {
    /// Makes an image from the raw bytes of a cartridge, provided that its
    /// header is valid. The bytes are kept as they are. An invalid header is
    /// refused with the error of the first check that fails.
    pub fn new(content: Vec<u8>) -> (r: Result<Rom, HeaderError>)
        ensures
            r is Ok <==> valid_header(content@),
            match r {
                Ok(rom) => rom.content == content && header_check(content@) is Ok,
                Err(e) => header_check(content@) == Err::<(), HeaderError>(e),
            },
    {
        let rom = Rom { content };
        match rom.validate() {
            Ok(_) => Ok(rom),
            Err(e) => Err(e),
        }
    }

    /// Runs every check of the header, in order, and stops at the first one
    /// that fails.
    pub fn validate(&self) -> (r: Result<(), HeaderError>)
        ensures
            r == header_check(self@),
            r is Ok <==> valid_header(self@),
    {
        if let Err(e) = self.verify_nintendo_logo() {
            return Err(e);
        }
        if let Err(e) = self.verify_memory_bank_matches_ram() {
            return Err(e);
        }
        if let Err(e) = self.get_rom_size() {
            return Err(e);
        }
        self.verify_header_checksum()
    }

    /// Checks that the image carries the logo bitmap.
    pub fn verify_nintendo_logo(&self) -> (r: Result<(), HeaderError>)
        ensures
            r == logo_check(self@),
    {
        if self.content.len() < NINTENDO_LOGO_END {
            return Err(HeaderError::Truncated);
        }
        let mut i: usize = 0;
        while i < NINTENDO_LOGO.len()
            invariant
                i <= NINTENDO_LOGO@.len() == 48,
                self.content.len() >= NINTENDO_LOGO_END,
                forall|k: int| 0 <= k < i ==> logo_region(self@)[k] == NINTENDO_LOGO@[k],
            decreases NINTENDO_LOGO@.len() - i,
        {
            if self.content[NINTENDO_LOGO_START + i] != NINTENDO_LOGO[i] {
                assert(logo_region(self@)[i as int] != NINTENDO_LOGO@[i as int]);
                return Err(HeaderError::LogoMismatch);
            }
            i += 1;
        }
        assert(logo_region(self@) =~= NINTENDO_LOGO@);
        Ok(())
    }

    /// Decodes the controller family from the cartridge-type byte.
    pub fn get_memory_bank_type(&self) -> (r: Result<MemoryBankType, HeaderError>)
        ensures
            r == memory_bank_type_at(self@),
    {
        if self.content.len() <= CARTRIDGE_TYPE_INDEX {
            return Err(HeaderError::Truncated);
        }
        decode_memory_bank_type(self.content[CARTRIDGE_TYPE_INDEX])
    }

    /// Decodes the ROM capacity, in bytes, from the ROM-size byte.
    pub fn get_rom_size(&self) -> (r: Result<u32, HeaderError>)
        ensures
            r == rom_size_at(self@),
    {
        if self.content.len() <= ROM_SIZE_INDEX {
            return Err(HeaderError::Truncated);
        }
        decode_rom_size(self.content[ROM_SIZE_INDEX])
    }

    /// Decodes the RAM capacity, in bytes, from the RAM-size byte.
    pub fn get_ram_size(&self) -> (r: Result<u32, HeaderError>)
        ensures
            r == ram_size_at(self@),
    {
        if self.content.len() <= RAM_SIZE_INDEX {
            return Err(HeaderError::Truncated);
        }
        decode_ram_size(self.content[RAM_SIZE_INDEX])
    }

    /// Checks that the declared RAM capacity suits the declared controller
    /// family.
    pub fn verify_memory_bank_matches_ram(&self) -> (r: Result<(), HeaderError>)
        ensures
            r == memory_bank_ram_check(self@),
    {
        let ram_size = match self.get_ram_size() {
            Ok(ram_size) => ram_size,
            Err(e) => {
                return Err(e);
            },
        };
        let bank = match self.get_memory_bank_type() {
            Ok(bank) => bank,
            Err(e) => {
                return Err(e);
            },
        };
        check_memory_bank_matches_ram(bank, ram_size)
    }

    /// Recomputes the header checksum and compares it with the stored one.
    pub fn verify_header_checksum(&self) -> (r: Result<(), HeaderError>)
        ensures
            r == header_checksum_check(self@),
    {
        if self.content.len() <= HEADER_CHECKSUM_INDEX {
            return Err(HeaderError::Truncated);
        }
        let actual = compute_checksum(
            &self.content.as_slice()[HEADER_CHECKSUM_START..HEADER_CHECKSUM_END],
        );
        let expected = self.content[HEADER_CHECKSUM_INDEX];
        if actual != expected {
            return Err(HeaderError::ChecksumMismatch { expected, actual });
        }
        Ok(())
    }
}

} // verus!
