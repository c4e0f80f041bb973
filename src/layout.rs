//! Where each field of the cartridge header lies in a ROM image.

use vstd::prelude::*;

verus! {

pub const ENTRY_POINT_ADDR: usize = 0x0100;
pub const ENTRY_POINT_LEN: usize = 4;
pub const NINTENDO_LOGO_ADDR: usize = 0x0104;
pub const NINTENDO_LOGO_LEN: usize = 48;
pub const TITLE_ADDR: usize = 0x0134;
pub const TITLE_LEN: usize = 11;
pub const MANUFACTURER_CODE_ADDR: usize = 0x013F;
pub const MANUFACTURER_CODE_LEN: usize = 4;
pub const CGB_FLAG_ADDR: usize = 0x0143;
pub const NEW_LICENSEE_CODE_ADDR: usize = 0x0144;
pub const NEW_LICENSEE_CODE_LEN: usize = 2;
pub const SGB_FLAG_ADDR: usize = 0x0146;
pub const CARTRIDGE_TYPE_ADDR: usize = 0x0147;
pub const ROM_SIZE_ADDR: usize = 0x0148;
pub const RAM_SIZE_ADDR: usize = 0x0149;
pub const DESTINATION_CODE_ADDR: usize = 0x014A;
pub const OLD_LICENSEE_CODE_ADDR: usize = 0x014B;
pub const MASK_ROM_VERSION_NUMBER_ADDR: usize = 0x014C;
pub const HEADER_CHECKSUM_ADDR: usize = 0x014D;
/// The high byte of the global checksum; the low byte follows it.
pub const GLOBAL_CHECKSUM_ADDR: usize = 0x014E;
/// The smallest image that holds a whole header.
pub const MIN_IMAGE_LEN: usize = 0x0150;

/// The bitmap that a genuine cartridge carries at `NINTENDO_LOGO_ADDR`.
pub const REFERENCE_LOGO: [u8; 48] = [
    0xCE, 0xED, 0x66, 0x66, 0xCC, 0x0D, 0x00, 0x0B, 0x03, 0x73, 0x00, 0x83,
    0x00, 0x0C, 0x00, 0x0D, 0x00, 0x08, 0x11, 0x1F, 0x88, 0x89, 0x00, 0x0E,
    0xDC, 0xCC, 0x6E, 0xE6, 0xDD, 0xDD, 0xD9, 0x99, 0xBB, 0xBB, 0x67, 0x63,
    0x6E, 0x0E, 0xEC, 0xCC, 0xDD, 0xDC, 0x99, 0x9F, 0xBB, 0xB9, 0x33, 0x3E,
];

} // verus!
