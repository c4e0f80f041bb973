use gbrom::layout::{
    GLOBAL_CHECKSUM_ADDR, HEADER_CHECKSUM_ADDR, MIN_IMAGE_LEN, NINTENDO_LOGO_ADDR, REFERENCE_LOGO,
    TITLE_ADDR,
};
use gbrom::rom::{Rom, RomLoadError};
use gbrom::text::bytes_to_utf8_string;

fn header_checksum_by_hand(img: &[u8]) -> u8 {
    let mut acc: u16 = 0;
    for i in TITLE_ADDR..HEADER_CHECKSUM_ADDR {
        acc = acc.wrapping_sub(img[i] as u16).wrapping_sub(1);
    }
    acc as u8
}

fn with_logo(mut img: Vec<u8>) -> Vec<u8> {
    img[NINTENDO_LOGO_ADDR..NINTENDO_LOGO_ADDR + 48].copy_from_slice(&REFERENCE_LOGO);
    img
}

#[test]
fn parse_ten_bytes_is_format_error() {
    let r = Rom::parse(vec![0u8; 10]);
    assert!(matches!(r, Err(RomLoadError::FormatError)));
}

#[test]
fn parse_empty_is_format_error() {
    assert!(matches!(Rom::parse(Vec::new()), Err(RomLoadError::FormatError)));
}

#[test]
fn parse_one_byte_short_is_format_error() {
    assert!(matches!(Rom::parse(vec![0u8; 0x014F]), Err(RomLoadError::FormatError)));
}

#[test]
fn parse_smallest_image_succeeds() {
    let rom = Rom::parse(vec![0u8; 0x0150]).unwrap();
    assert_eq!(rom.rom_data.len(), MIN_IMAGE_LEN);
}

#[test]
fn parse_extracts_every_field_at_its_offset() {
    let img: Vec<u8> = (0..0x200usize).map(|i| (i % 256) as u8).collect();
    let rom = Rom::parse(img.clone()).unwrap();
    assert_eq!(rom.entry_point, [0x00, 0x01, 0x02, 0x03]);
    assert_eq!(&rom.nintendo_logo[..], &img[0x104..0x134]);
    assert_eq!(&rom.title[..], b"456789:;<=>");
    assert_eq!(&rom.manufacturer_code[..], b"?@AB");
    assert_eq!(rom.cgb_flag, 0x43);
    assert_eq!(&rom.new_licensee_code[..], b"DE");
    assert_eq!(rom.sgb_flag, 0x46);
    assert_eq!(rom.cartridge_type, 0x47);
    assert_eq!(rom.rom_size_flag, 0x48);
    assert_eq!(rom.ram_size_flag, 0x49);
    assert_eq!(rom.destination_code, 0x4A);
    assert_eq!(rom.old_licensee_code, 0x4B);
    assert_eq!(rom.mask_rom_version_number, 0x4C);
    assert_eq!(rom.header_checksum, 0x4D);
    assert_eq!(rom.global_checksum, 0x4E4F);
    assert_eq!(rom.rom_data, img);
}

#[test]
fn parse_invalid_title_is_text_decode_error() {
    let mut img = vec![0u8; 0x150];
    img[TITLE_ADDR] = 0xFF;
    assert!(matches!(Rom::parse(img), Err(RomLoadError::TextDecodeError)));
}

#[test]
fn parse_invalid_manufacturer_code_is_text_decode_error() {
    let mut img = vec![0u8; 0x150];
    img[0x013F] = 0xC3;
    assert!(matches!(Rom::parse(img), Err(RomLoadError::TextDecodeError)));
}

#[test]
fn parse_invalid_new_licensee_code_is_text_decode_error() {
    let mut img = vec![0u8; 0x150];
    img[0x0145] = 0x80;
    assert!(matches!(Rom::parse(img), Err(RomLoadError::TextDecodeError)));
}

#[test]
fn header_checksum_of_zero_image_is_valid() {
    let mut img = vec![0u8; 336];
    img[HEADER_CHECKSUM_ADDR] = 0xE7;
    let rom = Rom::parse(img).unwrap();
    assert!(rom.is_header_checksum_valid());
}

#[test]
fn header_checksum_of_zero_image_rejects_zero_byte() {
    let rom = Rom::parse(vec![0u8; 336]).unwrap();
    assert!(!rom.is_header_checksum_valid());
}

#[test]
fn header_checksum_exact_value() {
    let mut img = vec![0u8; 0x150];
    img[TITLE_ADDR..TITLE_ADDR + 6].copy_from_slice(b"TETRIS");
    // the bytes of "TETRIS" add up to 0x1DB; -(0x1DB + 25) mod 256 = 0x0C
    img[HEADER_CHECKSUM_ADDR] = 0x0C;
    let rom = Rom::parse(img.clone()).unwrap();
    assert!(rom.is_header_checksum_valid());
    img[HEADER_CHECKSUM_ADDR] = 0x0D;
    assert!(!Rom::parse(img).unwrap().is_header_checksum_valid());
}

#[test]
fn header_checksum_ignores_bytes_outside_its_range() {
    let mut img = vec![0u8; 0x150];
    img[HEADER_CHECKSUM_ADDR] = 0xE7;
    img[0x0133] = 0x55;
    img[GLOBAL_CHECKSUM_ADDR] = 0x66;
    assert!(Rom::parse(img).unwrap().is_header_checksum_valid());
}

#[test]
fn global_checksum_of_zero_image_is_valid() {
    assert!(Rom::parse(vec![0u8; 0x150]).unwrap().is_global_checksum_valid());
}

#[test]
fn global_checksum_is_big_endian() {
    let mut img = vec![0u8; 0x150];
    img[0] = 0x12;
    img[0x200 - 0x100] = 0x34;
    // 0x12 + 0x34 = 0x46
    img[GLOBAL_CHECKSUM_ADDR + 1] = 0x46;
    assert!(Rom::parse(img.clone()).unwrap().is_global_checksum_valid());
    img[GLOBAL_CHECKSUM_ADDR] = 0x46;
    img[GLOBAL_CHECKSUM_ADDR + 1] = 0x00;
    assert!(!Rom::parse(img).unwrap().is_global_checksum_valid());
}

#[test]
fn global_checksum_wraps_at_sixteen_bits() {
    let mut img = vec![0x7Fu8; 1000];
    // 998 * 0x7F = 126746, and 126746 mod 65536 = 61210 = 0xEF1A
    img[GLOBAL_CHECKSUM_ADDR] = 0xEF;
    img[GLOBAL_CHECKSUM_ADDR + 1] = 0x1A;
    let rom = Rom::parse(img).unwrap();
    assert_eq!(rom.global_checksum, 0xEF1A);
    assert!(rom.is_global_checksum_valid());
}

#[test]
fn global_checksum_detects_a_changed_byte() {
    let mut img = vec![0x7Fu8; 1000];
    img[GLOBAL_CHECKSUM_ADDR] = 0xEF;
    img[GLOBAL_CHECKSUM_ADDR + 1] = 0x1A;
    img[999] = 0x7E;
    assert!(!Rom::parse(img).unwrap().is_global_checksum_valid());
}

#[test]
fn zero_logo_is_invalid() {
    let rom = Rom::parse(vec![0u8; 0x150]).unwrap();
    assert!(!rom.is_logo_valid());
}

#[test]
fn reference_logo_is_valid() {
    let rom = Rom::parse(with_logo(vec![0u8; 0x150])).unwrap();
    assert!(rom.is_logo_valid());
    assert_eq!(rom.nintendo_logo[0], 0xCE);
    assert_eq!(rom.nintendo_logo[47], 0x3E);
}

#[test]
fn logo_with_one_changed_byte_is_invalid() {
    for k in 0..48 {
        let mut img = with_logo(vec![0u8; 0x150]);
        img[NINTENDO_LOGO_ADDR + k] ^= 0x01;
        assert!(!Rom::parse(img).unwrap().is_logo_valid());
    }
}

#[test]
fn parse_round_trip_of_chosen_fields() {
    let mut img = vec![0xAAu8; 0x100];
    img.extend_from_slice(&[0x00, 0xC3, 0x50, 0x01]);
    img.extend_from_slice(&REFERENCE_LOGO);
    img.extend_from_slice(b"POKEMON RED");
    img.extend_from_slice(b"ABCD");
    img.push(0x80);
    img.extend_from_slice(b"01");
    img.extend_from_slice(&[0x03, 0x13, 0x05, 0x03, 0x01, 0x33, 0x02]);
    img.push(0);
    img.extend_from_slice(&[0x12, 0x34]);
    img.extend_from_slice(&[0x55u8; 0x100]);
    img[HEADER_CHECKSUM_ADDR] = header_checksum_by_hand(&img);
    let rom = Rom::parse(img).unwrap();
    assert!(rom.is_header_checksum_valid());
    assert!(rom.is_logo_valid());
    assert_eq!(rom.entry_point, [0x00, 0xC3, 0x50, 0x01]);
    assert_eq!(rom.get_title_string().unwrap(), "POKEMON RED");
    assert_eq!(rom.get_manufacturer_code_string().unwrap(), "ABCD");
    assert_eq!(rom.cgb_flag, 0x80);
    assert_eq!(rom.get_new_licensee_code_string().unwrap(), "01");
    assert_eq!(rom.sgb_flag, 0x03);
    assert_eq!(rom.cartridge_type, 0x13);
    assert_eq!(rom.rom_size_flag, 0x05);
    assert_eq!(rom.ram_size_flag, 0x03);
    assert_eq!(rom.destination_code, 0x01);
    assert_eq!(rom.old_licensee_code, 0x33);
    assert_eq!(rom.mask_rom_version_number, 0x02);
    assert_eq!(rom.global_checksum, 0x1234);
}

#[test]
fn title_keeps_padding() {
    let mut img = vec![0u8; 0x150];
    img[TITLE_ADDR..TITLE_ADDR + 6].copy_from_slice(b"TETRIS");
    let rom = Rom::parse(img).unwrap();
    assert_eq!(rom.get_title_string().unwrap(), "TETRIS\0\0\0\0\0");
}

#[test]
fn getters_report_invalid_text() {
    let mut rom = Rom::parse(vec![0u8; 0x150]).unwrap();
    rom.title[0] = 0xFF;
    rom.manufacturer_code[3] = 0xE2;
    rom.new_licensee_code = [0xC0, 0x80];
    assert!(matches!(rom.get_title_string(), Err(RomLoadError::TextDecodeError)));
    assert!(matches!(rom.get_manufacturer_code_string(), Err(RomLoadError::TextDecodeError)));
    assert!(matches!(rom.get_new_licensee_code_string(), Err(RomLoadError::TextDecodeError)));
}

#[test]
fn utf8_of_ascii_bytes() {
    assert_eq!(bytes_to_utf8_string(b"AB").unwrap(), "AB");
}

#[test]
fn utf8_of_multibyte_sequence() {
    let s = bytes_to_utf8_string(&[0x43, 0xC3, 0xA9]).unwrap();
    assert_eq!(s, "C\u{e9}");
    assert_eq!(s.chars().count(), 2);
}

#[test]
fn utf8_of_malformed_bytes_is_error() {
    assert!(matches!(bytes_to_utf8_string(&[0xFF, 0x41]), Err(RomLoadError::TextDecodeError)));
}

#[test]
fn io_error_converts_into_load_error() {
    let e = std::io::Error::new(std::io::ErrorKind::UnexpectedEof, "short read");
    assert!(matches!(RomLoadError::from(e), RomLoadError::IoError(_)));
}
