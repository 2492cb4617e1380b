//! Conversions between the raw forms that cross the boundary — packed
//! address/length words and UTF-8 byte buffers — and in-process values.

use vstd::prelude::*;

verus! {

use vstd::utf8::decode_utf8;
use vstd::utf8::valid_utf8;

/// The single 64-bit word that carries a buffer's address and byte length
/// across a boundary call limited to one return value: the address in the
/// high 32 bits, the length in the low 32 bits.
pub open spec fn packed_word(addr: u32, len: u32) -> u64 {
    (addr as int * 0x1_0000_0000 + len as int) as u64
}

/// Address carried in the high half of a packed word.
pub open spec fn word_addr(w: u64) -> u32 {
    (w as int / 0x1_0000_0000) as u32
}

/// Length carried in the low half of a packed word.
pub open spec fn word_len(w: u64) -> u32 {
    (w as int % 0x1_0000_0000) as u32
}

/// Packs an address and a length into one 64-bit word.
pub fn pack_ptr_len(addr: u32, len: u32) -> (r: u64)
    ensures
        r == packed_word(addr, len),
{
    let r: u64 = ((addr as u64) << 32) | (len as u64);
    proof {
        let a = addr as u64;
        let l = len as u64;
        assert((a << 32u64) | l == a * 0x1_0000_0000 + l) by (bit_vector)
            requires
                a < 0x1_0000_0000,
                l < 0x1_0000_0000,
        ;
    }
    r
}

/// Recovers the address from a packed word.
pub fn unpack_addr(w: u64) -> (r: u32)
    ensures
        r == word_addr(w),
{
    let r = (w >> 32) as u32;
    proof {
        assert(w >> 32u64 == w / 0x1_0000_0000u64) by (bit_vector);
    }
    r
}

/// Recovers the length from a packed word.
pub fn unpack_len(w: u64) -> (r: u32)
    ensures
        r == word_len(w),
{
    let r = (w & 0xffff_ffff) as u32;
    proof {
        assert(w & 0xffff_ffffu64 == w % 0x1_0000_0000u64) by (bit_vector);
    }
    r
}

/// Packing an address and a length and unpacking the word again yields the
/// pair that went in: the word carries exactly the two halves it was built
/// from, nothing more.
pub proof fn lemma_pack_round_trip(addr: u32, len: u32)
    ensures
        word_addr(packed_word(addr, len)) == addr,
        word_len(packed_word(addr, len)) == len,
{
    let a = addr as int;
    let l = len as int;
    assert((a * 0x1_0000_0000 + l) / 0x1_0000_0000 == a) by (nonlinear_arith)
        requires
            0 <= a,
            0 <= l < 0x1_0000_0000,
    ;
    assert((a * 0x1_0000_0000 + l) % 0x1_0000_0000 == l) by (nonlinear_arith)
        requires
            0 <= a,
            0 <= l < 0x1_0000_0000,
    ;
}

/// Relies on `String::from_utf8_lossy`: on bytes that are valid UTF-8 it
/// returns exactly the text those bytes encode, unchanged.
#[verifier::external_body]
pub(crate) fn decode_buffer(bytes: &Vec<u8>) -> (r: String)
    ensures
        valid_utf8(bytes@) ==> r@ == decode_utf8(bytes@),
{
    String::from_utf8_lossy(bytes).into_owned()
}

} // verus!
