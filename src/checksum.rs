//! The two checksums of the cartridge header, stated over the bytes of an image.

use vstd::prelude::*;
use crate::layout::{GLOBAL_CHECKSUM_ADDR, HEADER_CHECKSUM_ADDR, TITLE_ADDR};

verus! {

/// The sum of `img[i]` for `lo <= i < hi`.
pub open spec fn byte_sum(img: Seq<u8>, lo: int, hi: int) -> int
    decreases hi - lo,
{
    if hi <= lo {
        0
    } else {
        byte_sum(img, lo, hi - 1) + img[hi - 1]
    }
}

/// The header checksum of an image: starting from zero, each byte from the title
/// up to the checksum byte is subtracted together with one, and the result is
/// taken modulo 256.
pub open spec fn header_checksum_of(img: Seq<u8>) -> int {
    (0 - (byte_sum(img, TITLE_ADDR as int, HEADER_CHECKSUM_ADDR as int) + (HEADER_CHECKSUM_ADDR
        - TITLE_ADDR))) % 256
}

/// The global checksum of an image: the sum of all its bytes but the two that
/// store the global checksum, modulo 65536.
pub open spec fn global_checksum_of(img: Seq<u8>) -> int {
    (byte_sum(img, 0, img.len() as int) - img[GLOBAL_CHECKSUM_ADDR as int] - img[GLOBAL_CHECKSUM_ADDR
        + 1]) % 65536
}

/// The global checksum that an image stores: two bytes, the high one first.
pub open spec fn stored_global_checksum(img: Seq<u8>) -> int {
    img[GLOBAL_CHECKSUM_ADDR as int] * 256 + img[GLOBAL_CHECKSUM_ADDR + 1]
}

/// The header checksum that the image stores agrees with its bytes.
pub open spec fn header_checksum_holds(img: Seq<u8>) -> bool {
    header_checksum_of(img) == img[HEADER_CHECKSUM_ADDR as int]
}

/// The global checksum that the image stores agrees with its bytes.
pub open spec fn global_checksum_holds(img: Seq<u8>) -> bool {
    global_checksum_of(img) == stored_global_checksum(img)
}

/// The sum over a range only depends on the bytes in that range.
pub proof fn lemma_byte_sum_same(a: Seq<u8>, b: Seq<u8>, lo: int, hi: int)
    requires
        0 <= lo,
        hi <= a.len(),
        hi <= b.len(),
        forall|i: int| lo <= i < hi ==> a[i] == b[i],
    ensures
        byte_sum(a, lo, hi) == byte_sum(b, lo, hi),
    decreases hi - lo,
{
    if lo < hi {
        lemma_byte_sum_same(a, b, lo, hi - 1);
    }
}

} // verus!
