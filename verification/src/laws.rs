//! Laws of header validation: what holds of the checks for every image.

use crate::error::HeaderError;
use crate::geometry::{
    memory_bank_type_of, ram_size_of, rom_capacity, rom_size_of, MemoryBankType,
    MAX_ROM_SIZE_CODE,
};
use crate::layout::{
    CARTRIDGE_TYPE_INDEX, HEADER_CHECKSUM_INDEX, HEADER_CHECKSUM_START, HEADER_END, NINTENDO_LOGO,
    NINTENDO_LOGO_END, NINTENDO_LOGO_START, RAM_SIZE_INDEX,
};
use crate::rom::{
    checksum_region, header_check, header_checksum_check, logo_check, logo_region, memory_bank_ram_check,
    memory_bank_type_at, ram_size_at, rom_size_at, valid_header, Rom,
};
use vstd::arithmetic::power2::{lemma2_to64, pow2};
use vstd::prelude::*;

verus! {

/// An image that reaches past the logo region passes the logo check exactly
/// when every byte of the region equals the byte of the logo bitmap at the
/// same position.
pub proof fn lemma_logo_accepted_iff_every_byte_matches(bytes: Seq<u8>)
    requires
        bytes.len() >= NINTENDO_LOGO_END,
    ensures
        logo_check(bytes) is Ok <==> (forall|offset: int|
            NINTENDO_LOGO_START <= offset < NINTENDO_LOGO_END ==> bytes[offset]
                == NINTENDO_LOGO@[offset - NINTENDO_LOGO_START]),
        logo_check(bytes) is Err ==> logo_check(bytes) == Err::<(), HeaderError>(
            HeaderError::LogoMismatch,
        ),
{
    let region = logo_region(bytes);
    if forall|offset: int|
        NINTENDO_LOGO_START <= offset < NINTENDO_LOGO_END ==> bytes[offset]
            == NINTENDO_LOGO@[offset - NINTENDO_LOGO_START] {
        assert forall|k: int| 0 <= k < 48 implies region[k] == NINTENDO_LOGO@[k] by {
            assert(region[k] == bytes[NINTENDO_LOGO_START + k]);
        }
        assert(region =~= NINTENDO_LOGO@);
    } else {
        let offset = choose|offset: int|
            NINTENDO_LOGO_START <= offset < NINTENDO_LOGO_END && bytes[offset]
                != NINTENDO_LOGO@[offset - NINTENDO_LOGO_START];
        assert(region[offset - NINTENDO_LOGO_START] == bytes[offset]);
    }
}

/// Changing any single byte of the logo region of an image that passes the
/// logo check makes the check fail with a logo mismatch.
pub proof fn lemma_logo_single_byte_change_rejected(bytes: Seq<u8>, offset: int, byte: u8)
    requires
        logo_check(bytes) is Ok,
        NINTENDO_LOGO_START <= offset < NINTENDO_LOGO_END,
        byte != bytes[offset],
    ensures
        logo_check(bytes.update(offset, byte)) == Err::<(), HeaderError>(
            HeaderError::LogoMismatch,
        ),
{
    let changed = bytes.update(offset, byte);
    assert(logo_region(bytes)[offset - NINTENDO_LOGO_START] == bytes[offset]);
    assert(logo_region(changed)[offset - NINTENDO_LOGO_START] == byte);
}

/// The logo check looks at nothing but the logo region: bytes elsewhere do
/// not change its outcome.
pub proof fn lemma_logo_ignores_other_bytes(bytes: Seq<u8>, offset: int, byte: u8)
    requires
        0 <= offset < bytes.len(),
        !(NINTENDO_LOGO_START <= offset < NINTENDO_LOGO_END),
    ensures
        logo_check(bytes.update(offset, byte)) == logo_check(bytes),
{
    if bytes.len() >= NINTENDO_LOGO_END {
        assert(logo_region(bytes.update(offset, byte)) =~= logo_region(bytes));
    }
}

/// Every cartridge-type code decodes to exactly one outcome: one of the eight
/// controller families, each on its own codes, or the error that carries the
/// code.
pub proof fn lemma_memory_bank_type_partition(code: u8)
    ensures
        memory_bank_type_of(code) == Ok::<MemoryBankType, HeaderError>(MemoryBankType::ROM) <==> (
        code == 0x00 || code == 0x08 || code == 0x09),
        memory_bank_type_of(code) == Ok::<MemoryBankType, HeaderError>(MemoryBankType::MBC1)
            <==> 0x01 <= code <= 0x03,
        memory_bank_type_of(code) == Ok::<MemoryBankType, HeaderError>(MemoryBankType::MBC2)
            <==> (code == 0x05 || code == 0x06),
        memory_bank_type_of(code) == Ok::<MemoryBankType, HeaderError>(MemoryBankType::MMM01)
            <==> 0x0B <= code <= 0x0D,
        memory_bank_type_of(code) == Ok::<MemoryBankType, HeaderError>(MemoryBankType::MBC3)
            <==> 0x0F <= code <= 0x13,
        memory_bank_type_of(code) == Ok::<MemoryBankType, HeaderError>(MemoryBankType::MBC5)
            <==> 0x19 <= code <= 0x1E,
        memory_bank_type_of(code) == Ok::<MemoryBankType, HeaderError>(MemoryBankType::MBC6)
            <==> code == 0x20,
        memory_bank_type_of(code) == Ok::<MemoryBankType, HeaderError>(MemoryBankType::MBC7)
            <==> code == 0x22,
        memory_bank_type_of(code) is Err <==> memory_bank_type_of(code) == Err::<
            MemoryBankType,
            HeaderError,
        >(HeaderError::InvalidCartridgeType(code)),
{
}

/// Whatever byte stands at the cartridge-type offset of an image that reaches
/// it, decoding yields a controller family or the invalid-type error for that
/// very byte, and no other error.
pub proof fn lemma_memory_bank_type_total(bytes: Seq<u8>)
    requires
        bytes.len() > CARTRIDGE_TYPE_INDEX,
    ensures
        memory_bank_type_at(bytes) is Ok || memory_bank_type_at(bytes) == Err::<
            MemoryBankType,
            HeaderError,
        >(HeaderError::InvalidCartridgeType(bytes[CARTRIDGE_TYPE_INDEX as int])),
{
}

/// A ROM-size code up to the largest assigned one decodes to 32 KiB doubled
/// once per step of the code, from 32 KiB for code 0 to 8 MiB for code 8.
/// Every higher code is refused with the error that carries it.
pub proof fn lemma_rom_size_formula(code: u8)
    ensures
        code <= MAX_ROM_SIZE_CODE ==> (rom_size_of(code) matches Ok(size) && size == 32768 * pow2(
            code as nat,
        ) && 32768 <= size <= 8388608),
        code > MAX_ROM_SIZE_CODE ==> rom_size_of(code) == Err::<u32, HeaderError>(
            HeaderError::InvalidRomSize(code),
        ),
        rom_size_of(0) == Ok::<u32, HeaderError>(32768),
        rom_size_of(8) == Ok::<u32, HeaderError>(8388608),
{
    lemma2_to64();
    assert(rom_capacity(0) == 32768);
    assert(rom_capacity(8) == 8388608);
}

/// The RAM-size table, entry by entry. Codes 0 and 1 declare no RAM, code 5
/// declares less than code 4, and every code above 5 is refused with the
/// error that carries it.
pub proof fn lemma_ram_size_table(code: u8)
    ensures
        code == 0x00 || code == 0x01 ==> ram_size_of(code) == Ok::<u32, HeaderError>(0),
        code == 0x02 ==> ram_size_of(code) == Ok::<u32, HeaderError>(8192),
        code == 0x03 ==> ram_size_of(code) == Ok::<u32, HeaderError>(32768),
        code == 0x04 ==> ram_size_of(code) == Ok::<u32, HeaderError>(131072),
        code == 0x05 ==> ram_size_of(code) == Ok::<u32, HeaderError>(65536),
        code > 0x05 ==> ram_size_of(code) == Err::<u32, HeaderError>(
            HeaderError::InvalidRamSize(code),
        ),
{
}

/// For an image that declares an MBC2 (cartridge-type byte 5 or 6) the
/// cross-check passes exactly when the RAM-size code is 0 or 1, the two that
/// declare no RAM. A code that declares RAM is refused with the declared
/// capacity, and a code outside the table with the invalid-size error.
pub proof fn lemma_mbc2_requires_no_ram(bytes: Seq<u8>)
    requires
        bytes.len() > RAM_SIZE_INDEX,
        bytes[CARTRIDGE_TYPE_INDEX as int] == 0x05 || bytes[CARTRIDGE_TYPE_INDEX as int] == 0x06,
    ensures
        memory_bank_ram_check(bytes) is Ok <==> (bytes[RAM_SIZE_INDEX as int] == 0x00
            || bytes[RAM_SIZE_INDEX as int] == 0x01),
        ram_size_at(bytes) matches Ok(ram_size) ==> ram_size != 0 ==> memory_bank_ram_check(bytes)
            == Err::<(), HeaderError>(HeaderError::Mbc2RamMismatch(ram_size)),
        bytes[RAM_SIZE_INDEX as int] == 0x02 ==> memory_bank_ram_check(bytes) == Err::<
            (),
            HeaderError,
        >(HeaderError::Mbc2RamMismatch(8192)),
        ram_size_at(bytes) matches Err(e) ==> memory_bank_ram_check(bytes) == Err::<
            (),
            HeaderError,
        >(e),
{
}

/// For an image that declares any controller family but an MBC2, the
/// cross-check passes whenever both bytes decode.
pub proof fn lemma_other_banks_accept_any_ram(bytes: Seq<u8>)
    requires
        memory_bank_type_at(bytes) matches Ok(bank) && bank != MemoryBankType::MBC2,
        ram_size_at(bytes) is Ok,
    ensures
        memory_bank_ram_check(bytes) is Ok,
{
}

/// The checksum check looks at nothing but the covered bytes and the stored
/// checksum behind them: bytes elsewhere, the logo among them, do not change
/// its outcome.
pub proof fn lemma_checksum_ignores_other_bytes(bytes: Seq<u8>, offset: int, byte: u8)
    requires
        0 <= offset < bytes.len(),
        !(HEADER_CHECKSUM_START <= offset <= HEADER_CHECKSUM_INDEX),
    ensures
        header_checksum_check(bytes.update(offset, byte)) == header_checksum_check(bytes),
{
    if bytes.len() > HEADER_CHECKSUM_INDEX {
        assert(checksum_region(bytes.update(offset, byte)) =~= checksum_region(bytes));
    }
}

/// An image passes validation exactly when its header is valid.
pub proof fn lemma_header_check_accepts_valid_headers(bytes: Seq<u8>)
    ensures
        header_check(bytes) is Ok <==> valid_header(bytes),
{
}

/// An image passes validation exactly when each of the checks passes on its
/// own, and then it holds the whole header and all three hardware bytes
/// decode.
pub proof fn lemma_header_check_is_conjunction(bytes: Seq<u8>)
    ensures
        header_check(bytes) is Ok <==> (logo_check(bytes) is Ok && memory_bank_ram_check(bytes)
            is Ok && rom_size_at(bytes) is Ok && header_checksum_check(bytes) is Ok),
        header_check(bytes) is Ok ==> bytes.len() >= HEADER_END && memory_bank_type_at(bytes)
            is Ok && ram_size_at(bytes) is Ok,
{
}

/// Validation never fails with an error of its own: a refused image is
/// refused with the error of one of the checks.
pub proof fn lemma_header_check_reports_a_failed_check(bytes: Seq<u8>)
    requires
        header_check(bytes) is Err,
    ensures
        header_check(bytes) == logo_check(bytes) || header_check(bytes) == memory_bank_ram_check(
            bytes,
        ) || header_check(bytes) == header_checksum_check(bytes) || (rom_size_at(bytes)
            matches Err(e) && header_check(bytes) == Err::<(), HeaderError>(e)),
{
}

/// Validation has no hidden state: whatever two runs over images with the
/// same bytes return, they return the same.
pub proof fn lemma_validation_is_deterministic(
    first: Rom,
    second: Rom,
    first_outcome: Result<(), HeaderError>,
    second_outcome: Result<(), HeaderError>,
)
    requires
        first@ == second@,
        call_ensures(Rom::validate, (&first,), first_outcome),
        call_ensures(Rom::validate, (&second,), second_outcome),
    ensures
        first_outcome == second_outcome,
{
}

/// Construction has no hidden state either: two attempts on the same bytes
/// both succeed, with images of the same bytes, or both fail with the same
/// error.
pub proof fn lemma_construction_is_deterministic(
    content: Vec<u8>,
    first: Result<Rom, HeaderError>,
    second: Result<Rom, HeaderError>,
)
    requires
        call_ensures(Rom::new, (content,), first),
        call_ensures(Rom::new, (content,), second),
    ensures
        first == second,
        first matches Ok(rom) ==> rom@ == content@,
{
}

} // verus!
