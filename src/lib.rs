//! Decoding and validation of the cartridge header of a Game Boy ROM image.

pub mod layout;
pub mod checksum;
pub mod rom;
pub mod text;
