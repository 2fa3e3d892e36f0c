//! Validation of the header region of a Game Boy cartridge image.
//!
//! A cartridge image is a plain byte sequence. Its header carries a fixed boot
//! logo, three byte codes that describe the cartridge hardware, and a checksum
//! over part of the header. This crate decodes those fields and checks them.
//! Every executable function carries a contract that is proved against a
//! mathematical model of the image, a `Seq<u8>`.

pub mod checksum;
pub mod error;
pub mod geometry;
pub mod laws;
pub mod layout;
pub mod rom;
