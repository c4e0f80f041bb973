//! The cartridge header of a ROM image: how it is read from the image's bytes,
//! and whether it agrees with itself.

use vstd::prelude::*;
use vstd::arithmetic::div_mod::{lemma_add_mod_noop, lemma_mod_mod, lemma_sub_mod_noop};
use crate::checksum::{
    byte_sum, global_checksum_holds, header_checksum_holds, header_checksum_of,
    lemma_byte_sum_same, stored_global_checksum,
};
use crate::layout::{
    CARTRIDGE_TYPE_ADDR, CGB_FLAG_ADDR, DESTINATION_CODE_ADDR, ENTRY_POINT_ADDR, ENTRY_POINT_LEN,
    GLOBAL_CHECKSUM_ADDR, HEADER_CHECKSUM_ADDR, MANUFACTURER_CODE_ADDR, MANUFACTURER_CODE_LEN,
    MASK_ROM_VERSION_NUMBER_ADDR, MIN_IMAGE_LEN, NEW_LICENSEE_CODE_ADDR, NEW_LICENSEE_CODE_LEN,
    NINTENDO_LOGO_ADDR, NINTENDO_LOGO_LEN, OLD_LICENSEE_CODE_ADDR, RAM_SIZE_ADDR, REFERENCE_LOGO,
    ROM_SIZE_ADDR, SGB_FLAG_ADDR, TITLE_ADDR, TITLE_LEN,
};
use crate::text::{bytes_to_utf8_string, utf8_decoding};

verus! {

/// Declares `std::io::Error` so that a load error can carry the error of the read
/// that failed. It is carried through as it is: nothing is read from it.
#[verifier::external_type_specification]
#[verifier::external_body]
pub struct ExIoError(std::io::Error);

/// Why a ROM image could not be loaded.
#[derive(Debug)]
pub enum RomLoadError {
    /// Reading the image failed.
    IoError(std::io::Error),
    /// The image is too short to hold a whole header.
    FormatError,
    /// A text field of the header is not well-formed UTF-8.
    TextDecodeError,
}

impl From<std::io::Error> for RomLoadError {
    fn from(err: std::io::Error) -> (r: Self)
        ensures
            r == RomLoadError::IoError(err),
    {
        RomLoadError::IoError(err)
    }
}

impl vstd::std_specs::convert::FromSpecImpl<std::io::Error> for RomLoadError {
    open spec fn obeys_from_spec() -> bool {
        true
    }

    open spec fn from_spec(err: std::io::Error) -> RomLoadError {
        RomLoadError::IoError(err)
    }
}

/// The bytes of `img` from `start` on, `len` of them.
pub open spec fn field(img: Seq<u8>, start: usize, len: usize) -> Seq<u8> {
    img.subrange(start as int, start + len)
}

/// The three text fields of the image are well-formed UTF-8.
pub open spec fn text_fields_decode(img: Seq<u8>) -> bool {
    &&& utf8_decoding(field(img, TITLE_ADDR, TITLE_LEN)) is Some
    &&& utf8_decoding(field(img, MANUFACTURER_CODE_ADDR, MANUFACTURER_CODE_LEN)) is Some
    &&& utf8_decoding(field(img, NEW_LICENSEE_CODE_ADDR, NEW_LICENSEE_CODE_LEN)) is Some
}

/// The image carries the reference bitmap where the logo belongs.
pub open spec fn logo_holds(img: Seq<u8>) -> bool {
    field(img, NINTENDO_LOGO_ADDR, NINTENDO_LOGO_LEN) == REFERENCE_LOGO@
}

/// The decoded header of a ROM image, together with the whole image.
#[derive(Debug)]
pub struct Rom {
    pub entry_point: [u8; 4],
    pub nintendo_logo: [u8; 48],
    pub title: [u8; 11],
    pub manufacturer_code: [u8; 4],
    pub cgb_flag: u8,
    pub new_licensee_code: [u8; 2],
    pub sgb_flag: u8,
    pub cartridge_type: u8,
    pub rom_size_flag: u8,
    pub ram_size_flag: u8,
    pub destination_code: u8,
    pub old_licensee_code: u8,
    pub mask_rom_version_number: u8,
    pub header_checksum: u8,
    pub global_checksum: u16,
    pub rom_data: Vec<u8>,
}

/// Copies `N` bytes of `buf` from `start` on.
fn read_field<const N: usize>(buf: &Vec<u8>, start: usize) -> (r: [u8; N])
    requires
        start + N <= buf.len(),
    ensures
        r@ == field(buf@, start, N),
{
    let mut out = [0u8; N];
    let mut i: usize = 0;
    while i < N
        invariant
            i <= N,
            start + N <= buf.len(),
            forall|j: int| 0 <= j < i ==> out@[j] == buf@[start + j],
        decreases N - i,
    {
        out.set(i, buf[start + i]);
        i += 1;
    }
    assert(out@ =~= field(buf@, start, N));
    out
}

impl Rom {
    /// Every field holds the bytes of `img` at its place in the header, and the
    /// image is long enough to hold a whole header.
    pub open spec fn matches_image(&self, img: Seq<u8>) -> bool {
        &&& img.len() >= MIN_IMAGE_LEN
        &&& self.rom_data@ == img
        &&& self.entry_point@ == field(img, ENTRY_POINT_ADDR, ENTRY_POINT_LEN)
        &&& self.nintendo_logo@ == field(img, NINTENDO_LOGO_ADDR, NINTENDO_LOGO_LEN)
        &&& self.title@ == field(img, TITLE_ADDR, TITLE_LEN)
        &&& self.manufacturer_code@ == field(img, MANUFACTURER_CODE_ADDR, MANUFACTURER_CODE_LEN)
        &&& self.cgb_flag == img[CGB_FLAG_ADDR as int]
        &&& self.new_licensee_code@ == field(img, NEW_LICENSEE_CODE_ADDR, NEW_LICENSEE_CODE_LEN)
        &&& self.sgb_flag == img[SGB_FLAG_ADDR as int]
        &&& self.cartridge_type == img[CARTRIDGE_TYPE_ADDR as int]
        &&& self.rom_size_flag == img[ROM_SIZE_ADDR as int]
        &&& self.ram_size_flag == img[RAM_SIZE_ADDR as int]
        &&& self.destination_code == img[DESTINATION_CODE_ADDR as int]
        &&& self.old_licensee_code == img[OLD_LICENSEE_CODE_ADDR as int]
        &&& self.mask_rom_version_number == img[MASK_ROM_VERSION_NUMBER_ADDR as int]
        &&& self.header_checksum == img[HEADER_CHECKSUM_ADDR as int]
        &&& self.global_checksum == stored_global_checksum(img)
    }

    /// The fields agree with the image that the value holds.
    pub open spec fn wf(&self) -> bool {
        self.matches_image(self.rom_data@)
    }

    /// Reads the header out of a whole ROM image.
    pub fn parse(buf: Vec<u8>) -> (r: Result<Rom, RomLoadError>)
        ensures
            r matches Err(RomLoadError::FormatError) <==> buf.len() < MIN_IMAGE_LEN,
            r matches Err(RomLoadError::TextDecodeError) <==> buf.len() >= MIN_IMAGE_LEN
                && !text_fields_decode(buf@),
            r is Ok <==> buf.len() >= MIN_IMAGE_LEN && text_fields_decode(buf@),
            r matches Ok(rom) ==> rom.matches_image(buf@),
    {
        if buf.len() < MIN_IMAGE_LEN {
            return Err(RomLoadError::FormatError);
        }
        let entry_point: [u8; 4] = read_field(&buf, ENTRY_POINT_ADDR);
        let nintendo_logo: [u8; 48] = read_field(&buf, NINTENDO_LOGO_ADDR);
        let title: [u8; 11] = read_field(&buf, TITLE_ADDR);
        let manufacturer_code: [u8; 4] = read_field(&buf, MANUFACTURER_CODE_ADDR);
        let new_licensee_code: [u8; 2] = read_field(&buf, NEW_LICENSEE_CODE_ADDR);
        if bytes_to_utf8_string(&title).is_err() || bytes_to_utf8_string(&manufacturer_code).is_err()
            || bytes_to_utf8_string(&new_licensee_code).is_err() {
            return Err(RomLoadError::TextDecodeError);
        }
        let global_checksum = (buf[GLOBAL_CHECKSUM_ADDR] as u16) * 256 + buf[GLOBAL_CHECKSUM_ADDR
            + 1] as u16;
        Ok(
            Rom {
                entry_point,
                nintendo_logo,
                title,
                manufacturer_code,
                cgb_flag: buf[CGB_FLAG_ADDR],
                new_licensee_code,
                sgb_flag: buf[SGB_FLAG_ADDR],
                cartridge_type: buf[CARTRIDGE_TYPE_ADDR],
                rom_size_flag: buf[ROM_SIZE_ADDR],
                ram_size_flag: buf[RAM_SIZE_ADDR],
                destination_code: buf[DESTINATION_CODE_ADDR],
                old_licensee_code: buf[OLD_LICENSEE_CODE_ADDR],
                mask_rom_version_number: buf[MASK_ROM_VERSION_NUMBER_ADDR],
                header_checksum: buf[HEADER_CHECKSUM_ADDR],
                global_checksum,
                rom_data: buf,
            },
        )
    }

    /// The title as text.
    pub fn get_title_string(&self) -> (r: Result<&str, RomLoadError>)
        ensures
            match utf8_decoding(self.title@) {
                Some(text) => r matches Ok(s) && s@ == text,
                None => r matches Err(RomLoadError::TextDecodeError),
            },
    {
        bytes_to_utf8_string(&self.title)
    }

    /// The manufacturer code as text.
    pub fn get_manufacturer_code_string(&self) -> (r: Result<&str, RomLoadError>)
        ensures
            match utf8_decoding(self.manufacturer_code@) {
                Some(text) => r matches Ok(s) && s@ == text,
                None => r matches Err(RomLoadError::TextDecodeError),
            },
    {
        bytes_to_utf8_string(&self.manufacturer_code)
    }

    /// The new licensee code as text.
    pub fn get_new_licensee_code_string(&self) -> (r: Result<&str, RomLoadError>)
        ensures
            match utf8_decoding(self.new_licensee_code@) {
                Some(text) => r matches Ok(s) && s@ == text,
                None => r matches Err(RomLoadError::TextDecodeError),
            },
    {
        bytes_to_utf8_string(&self.new_licensee_code)
    }

    /// Says whether the stored header checksum agrees with the header's bytes.
    pub fn is_header_checksum_valid(&self) -> (r: bool)
        requires
            self.wf(),
        ensures
            r == header_checksum_holds(self.rom_data@),
    {
        let ghost img = self.rom_data@;
        let mut acc: u16 = 0;
        let mut i: usize = TITLE_ADDR;
        while i < HEADER_CHECKSUM_ADDR
            invariant
                TITLE_ADDR <= i <= HEADER_CHECKSUM_ADDR,
                self.wf(),
                img == self.rom_data@,
                acc as int == (0 - (byte_sum(img, TITLE_ADDR as int, i as int) + (i - TITLE_ADDR))) % 65536,
            decreases HEADER_CHECKSUM_ADDR - i,
        {
            let b = self.rom_data[i];
            proof {
                let x = 0 - (byte_sum(img, TITLE_ADDR as int, i as int) + (i - TITLE_ADDR));
                lemma_sub_mod_noop(x, b as int, 65536);
                lemma_sub_mod_noop(x - b, 1, 65536);
            }
            acc = acc.wrapping_sub(b as u16).wrapping_sub(1);
            i += 1;
        }
        proof {
            let x = 0 - (byte_sum(img, TITLE_ADDR as int, i as int) + (i - TITLE_ADDR));
            lemma_mod_mod(x, 256, 256);
        }
        ((acc % 256) as u8) == self.header_checksum
    }

    /// Says whether the stored global checksum agrees with the image's bytes.
    pub fn is_global_checksum_valid(&self) -> (r: bool)
        requires
            self.wf(),
        ensures
            r == global_checksum_holds(self.rom_data@),
    {
        let ghost img = self.rom_data@;
        let mut acc: u16 = 0;
        let mut i: usize = 0;
        while i < self.rom_data.len()
            invariant
                i <= img.len(),
                self.wf(),
                img == self.rom_data@,
                acc as int == (byte_sum(img, 0, i as int) - (if i > GLOBAL_CHECKSUM_ADDR { img[GLOBAL_CHECKSUM_ADDR as int] as int } else { 0 })
                    - (if i > GLOBAL_CHECKSUM_ADDR + 1 { img[GLOBAL_CHECKSUM_ADDR + 1] as int } else { 0 })) % 65536,
            decreases img.len() - i,
        {
            let b = self.rom_data[i];
            if i != GLOBAL_CHECKSUM_ADDR && i != GLOBAL_CHECKSUM_ADDR + 1 {
                proof {
                    let x = byte_sum(img, 0, i as int) - (if i > GLOBAL_CHECKSUM_ADDR { img[GLOBAL_CHECKSUM_ADDR as int] as int } else { 0 })
                        - (if i > GLOBAL_CHECKSUM_ADDR + 1 { img[GLOBAL_CHECKSUM_ADDR + 1] as int } else { 0 });
                    lemma_add_mod_noop(x, b as int, 65536);
                }
                acc = acc.wrapping_add(b as u16);
            }
            i += 1;
        }
        acc == self.global_checksum
    }

    /// Says whether the header carries the reference logo bitmap.
    pub fn is_logo_valid(&self) -> (r: bool)
        requires
            self.wf(),
        ensures
            r == logo_holds(self.rom_data@),
    {
        let mut i: usize = 0;
        while i < NINTENDO_LOGO_LEN
            invariant
                i <= NINTENDO_LOGO_LEN,
                self.wf(),
                forall|j: int| 0 <= j < i ==> self.nintendo_logo@[j] == REFERENCE_LOGO@[j],
            decreases NINTENDO_LOGO_LEN - i,
        {
            if self.nintendo_logo[i] != REFERENCE_LOGO[i] {
                assert(field(self.rom_data@, NINTENDO_LOGO_ADDR, NINTENDO_LOGO_LEN)[i as int]
                    != REFERENCE_LOGO@[i as int]);
                return false;
            }
            i += 1;
        }
        assert(self.nintendo_logo@ =~= REFERENCE_LOGO@);
        true
    }
}

/// The header laid out as it stands in an image, from the entry point to the
/// global checksum, with the field values of `h` and the given checksum byte.
pub open spec fn header_bytes(h: &Rom, header_checksum: u8) -> Seq<u8> {
    h.entry_point@ + h.nintendo_logo@ + h.title@ + h.manufacturer_code@ + seq![h.cgb_flag]
        + h.new_licensee_code@ + seq![
        h.sgb_flag,
        h.cartridge_type,
        h.rom_size_flag,
        h.ram_size_flag,
        h.destination_code,
        h.old_licensee_code,
        h.mask_rom_version_number,
        header_checksum,
        (h.global_checksum / 256) as u8,
        (h.global_checksum % 256) as u8,
    ]
}

/// An image whose header holds the field values of `h`, with `prefix` before the
/// header and `rest` after it, and whose header checksum byte is the one that
/// the header's own bytes call for.
pub open spec fn image_with_header(h: &Rom, prefix: Seq<u8>, rest: Seq<u8>) -> Seq<u8> {
    let unsummed = prefix + header_bytes(h, 0) + rest;
    prefix + header_bytes(h, header_checksum_of(unsummed) as u8) + rest
}

/// Changing any one byte of the logo of an image that carries the reference
/// logo makes the logo invalid.
pub proof fn lemma_logo_perturbed(img: Seq<u8>, i: int, v: u8)
    requires
        img.len() >= MIN_IMAGE_LEN,
        logo_holds(img),
        NINTENDO_LOGO_ADDR <= i < NINTENDO_LOGO_ADDR + NINTENDO_LOGO_LEN,
        v != img[i],
    ensures
        !logo_holds(img.update(i, v)),
{
    let j = i - NINTENDO_LOGO_ADDR;
    assert(field(img.update(i, v), NINTENDO_LOGO_ADDR, NINTENDO_LOGO_LEN)[j] == v);
    assert(field(img, NINTENDO_LOGO_ADDR, NINTENDO_LOGO_LEN)[j] == img[i]);
}

/// An image built from chosen header fields, with its header checksum byte
/// computed from them, has a valid header checksum, and a header read from it
/// holds the chosen fields. Reading it succeeds exactly when the chosen text
/// fields are well-formed UTF-8.
pub proof fn lemma_parse_round_trip(chosen: Rom, prefix: Seq<u8>, rest: Seq<u8>, parsed: Rom)
    requires
        prefix.len() == ENTRY_POINT_ADDR,
        parsed.matches_image(image_with_header(&chosen, prefix, rest)),
    ensures
        header_checksum_holds(parsed.rom_data@),
        text_fields_decode(parsed.rom_data@) <==> {
            &&& utf8_decoding(chosen.title@) is Some
            &&& utf8_decoding(chosen.manufacturer_code@) is Some
            &&& utf8_decoding(chosen.new_licensee_code@) is Some
        },
        parsed.entry_point == chosen.entry_point,
        parsed.nintendo_logo == chosen.nintendo_logo,
        parsed.title == chosen.title,
        parsed.manufacturer_code == chosen.manufacturer_code,
        parsed.cgb_flag == chosen.cgb_flag,
        parsed.new_licensee_code == chosen.new_licensee_code,
        parsed.sgb_flag == chosen.sgb_flag,
        parsed.cartridge_type == chosen.cartridge_type,
        parsed.rom_size_flag == chosen.rom_size_flag,
        parsed.ram_size_flag == chosen.ram_size_flag,
        parsed.destination_code == chosen.destination_code,
        parsed.old_licensee_code == chosen.old_licensee_code,
        parsed.mask_rom_version_number == chosen.mask_rom_version_number,
        parsed.global_checksum == chosen.global_checksum,
{
    let unsummed = prefix + header_bytes(&chosen, 0) + rest;
    let hc = header_checksum_of(unsummed) as u8;
    let img = image_with_header(&chosen, prefix, rest);
    assert(img == prefix + header_bytes(&chosen, hc) + rest);
    assert(header_bytes(&chosen, hc).len() == MIN_IMAGE_LEN - ENTRY_POINT_ADDR);
    assert forall|i: int| 0 <= i < HEADER_CHECKSUM_ADDR implies #[trigger] img[i] == unsummed[i] by {
        if i >= ENTRY_POINT_ADDR {
            assert(header_bytes(&chosen, hc)[i - ENTRY_POINT_ADDR] == header_bytes(&chosen, 0)[i
                - ENTRY_POINT_ADDR]);
        }
    }
    lemma_byte_sum_same(img, unsummed, TITLE_ADDR as int, HEADER_CHECKSUM_ADDR as int);
    assert(header_checksum_of(img) == header_checksum_of(unsummed));
    assert(img[HEADER_CHECKSUM_ADDR as int] == hc);
    assert(parsed.entry_point@ =~= chosen.entry_point@);
    assert(parsed.nintendo_logo@ =~= chosen.nintendo_logo@);
    assert(parsed.title@ =~= chosen.title@);
    assert(parsed.manufacturer_code@ =~= chosen.manufacturer_code@);
    assert(parsed.new_licensee_code@ =~= chosen.new_licensee_code@);
    assert(parsed.entry_point == chosen.entry_point);
    assert(parsed.nintendo_logo == chosen.nintendo_logo);
    assert(parsed.title == chosen.title);
    assert(parsed.manufacturer_code == chosen.manufacturer_code);
    assert(parsed.new_licensee_code == chosen.new_licensee_code);
}

} // verus!
