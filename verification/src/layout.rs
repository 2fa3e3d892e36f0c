//! The fixed layout of the cartridge header: where each field lives.

use vstd::prelude::*;

verus! {

/// The boot-logo bitmap that every valid header reproduces byte for byte.
pub const NINTENDO_LOGO: [u8; 48] = [
    0xCE, 0xED, 0x66, 0x66, 0xCC, 0x0D, 0x00, 0x0B, 0x03, 0x73, 0x00, 0x83, 0x00, 0x0C, 0x00, 0x0D,
    0x00, 0x08, 0x11, 0x1F, 0x88, 0x89, 0x00, 0x0E, 0xDC, 0xCC, 0x6E, 0xE6, 0xDD, 0xDD, 0xD9, 0x99,
    0xBB, 0xBB, 0x67, 0x63, 0x6E, 0x0E, 0xEC, 0xCC, 0xDD, 0xDC, 0x99, 0x9F, 0xBB, 0xB9, 0x33, 0x3E,
];

/// Offset of the first byte of the logo bitmap.
pub const NINTENDO_LOGO_START: usize = 0x104;

/// Offset just past the last byte of the logo bitmap.
pub const NINTENDO_LOGO_END: usize = 0x134;

/// Offset of the cartridge-type byte.
pub const CARTRIDGE_TYPE_INDEX: usize = 0x147;

/// Offset of the ROM-size byte.
pub const ROM_SIZE_INDEX: usize = 0x148;

/// Offset of the RAM-size byte.
pub const RAM_SIZE_INDEX: usize = 0x149;

/// Offset of the first byte that the header checksum covers.
pub const HEADER_CHECKSUM_START: usize = 0x134;

/// Offset just past the last byte that the header checksum covers.
pub const HEADER_CHECKSUM_END: usize = 0x14D;

/// Offset of the stored header checksum.
pub const HEADER_CHECKSUM_INDEX: usize = 0x14D;

/// Length of the shortest image that holds the whole header.
pub const HEADER_END: usize = 0x14E;

} // verus!
