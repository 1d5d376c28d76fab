use vstd::prelude::*;
use vstd::slice::slice_subrange;
use byteorder::ByteOrder;
use byteorder::LittleEndian;

verus! {

/// The unsigned number that the two bytes from `off` on hold, least significant byte first.
pub open spec fn spec_u16_le(s: Seq<u8>, off: int) -> int {
    s[off] as int + 0x100 * (s[off + 1] as int)
}

/// The unsigned number that the four bytes from `off` on hold, least significant byte first.
pub open spec fn spec_u32_le(s: Seq<u8>, off: int) -> int {
    s[off] as int + 0x100 * (s[off + 1] as int) + 0x1_0000 * (s[off + 2] as int) + 0x100_0000 * (
    s[off + 3] as int)
}

/// The unsigned number that the eight bytes from `off` on hold, least significant byte first.
pub open spec fn spec_u64_le(s: Seq<u8>, off: int) -> int {
    spec_u32_le(s, off) + 0x1_0000_0000 * spec_u32_le(s, off + 4)
}

/// The unsigned number that the `width` bytes from `off` on hold; `width` is 2, 4 or 8.
pub open spec fn spec_uint_le(s: Seq<u8>, off: int, width: int) -> int {
    if width == 2 {
        spec_u16_le(s, off)
    } else if width == 4 {
        spec_u32_le(s, off)
    } else {
        spec_u64_le(s, off)
    }
}

/// The signed number of `bits` bits whose two's complement pattern is `u`.
pub open spec fn spec_signed(u: int, bits: nat) -> int {
    if u < vstd::arithmetic::power2::pow2((bits - 1) as nat) as int {
        u
    } else {
        u - vstd::arithmetic::power2::pow2(bits) as int
    }
}

pub proof fn lemma_le_bounds(s: Seq<u8>, off: int)
    ensures
        0 <= spec_u16_le(s, off) < 0x1_0000,
        0 <= spec_u32_le(s, off) < 0x1_0000_0000,
        0 <= spec_u64_le(s, off) < 0x1_0000_0000_0000_0000,
{
}

/// `LittleEndian::read_u16` of byteorder: the first two bytes of `buf` as one
/// number, least significant byte first. It panics on a shorter slice.
#[verifier::external_body]
pub(crate) fn le_read_u16(buf: &[u8]) -> (r: u16)
    requires
        buf@.len() >= 2,
    ensures
        r as int == spec_u16_le(buf@, 0),
{
    LittleEndian::read_u16(buf)
}

/// `LittleEndian::read_u32` of byteorder: the first four bytes of `buf` as one
/// number, least significant byte first. It panics on a shorter slice.
#[verifier::external_body]
pub(crate) fn le_read_u32(buf: &[u8]) -> (r: u32)
    requires
        buf@.len() >= 4,
    ensures
        r as int == spec_u32_le(buf@, 0),
{
    LittleEndian::read_u32(buf)
}

/// `LittleEndian::read_u64` of byteorder: the first eight bytes of `buf` as one
/// number, least significant byte first. It panics on a shorter slice.
#[verifier::external_body]
pub(crate) fn le_read_u64(buf: &[u8]) -> (r: u64)
    requires
        buf@.len() >= 8,
    ensures
        r as int == spec_u64_le(buf@, 0),
{
    LittleEndian::read_u64(buf)
}

/// `LittleEndian::read_i16` of byteorder: what `read_u16` gives, taken as a
/// two's complement pattern.
#[verifier::external_body]
pub(crate) fn le_read_i16(buf: &[u8]) -> (r: i16)
    requires
        buf@.len() >= 2,
    ensures
        r as int == spec_signed(spec_u16_le(buf@, 0), 16),
{
    LittleEndian::read_i16(buf)
}

/// `LittleEndian::read_i32` of byteorder: what `read_u32` gives, taken as a
/// two's complement pattern.
#[verifier::external_body]
pub(crate) fn le_read_i32(buf: &[u8]) -> (r: i32)
    requires
        buf@.len() >= 4,
    ensures
        r as int == spec_signed(spec_u32_le(buf@, 0), 32),
{
    LittleEndian::read_i32(buf)
}

/// `LittleEndian::read_i64` of byteorder: what `read_u64` gives, taken as a
/// two's complement pattern.
#[verifier::external_body]
pub(crate) fn le_read_i64(buf: &[u8]) -> (r: i64)
    requires
        buf@.len() >= 8,
    ensures
        r as int == spec_signed(spec_u64_le(buf@, 0), 64),
{
    LittleEndian::read_i64(buf)
}

/// Whether `width` bytes from `off` on lie within `len` bytes.
pub open spec fn in_bounds(len: int, off: int, width: int) -> bool {
    0 <= off && off + width <= len
}

/// The byte at `off`, if there is one.
pub fn read_u8_at(data: &[u8], off: usize) -> (r: Option<u8>)
    ensures
        r == if in_bounds(data@.len() as int, off as int, 1) {
            Some(data@[off as int])
        } else {
            None
        },
{
    if off < data.len() {
        Some(data[off])
    } else {
        None
    }
}

/// The 16-bit number at `off`, if two bytes are there.
pub fn read_u16_at(data: &[u8], off: usize) -> (r: Option<u16>)
    ensures
        in_bounds(data@.len() as int, off as int, 2) ==> r is Some && r.unwrap() as int
            == spec_u16_le(data@, off as int),
        !in_bounds(data@.len() as int, off as int, 2) ==> r is None,
{
    if off <= data.len() && data.len() - off >= 2 {
        let part = slice_subrange(data, off, off + 2);
        Some(le_read_u16(part))
    } else {
        None
    }
}

/// The 32-bit number at `off`, if four bytes are there.
pub fn read_u32_at(data: &[u8], off: usize) -> (r: Option<u32>)
    ensures
        in_bounds(data@.len() as int, off as int, 4) ==> r is Some && r.unwrap() as int
            == spec_u32_le(data@, off as int),
        !in_bounds(data@.len() as int, off as int, 4) ==> r is None,
{
    if off <= data.len() && data.len() - off >= 4 {
        let part = slice_subrange(data, off, off + 4);
        Some(le_read_u32(part))
    } else {
        None
    }
}

/// The 64-bit number at `off`, if eight bytes are there.
pub fn read_u64_at(data: &[u8], off: usize) -> (r: Option<u64>)
    ensures
        in_bounds(data@.len() as int, off as int, 8) ==> r is Some && r.unwrap() as int
            == spec_u64_le(data@, off as int),
        !in_bounds(data@.len() as int, off as int, 8) ==> r is None,
{
    if off <= data.len() && data.len() - off >= 8 {
        let part = slice_subrange(data, off, off + 8);
        Some(le_read_u64(part))
    } else {
        None
    }
}

/// The position of the first zero byte at or after `offset`, or the length
/// where there is none.
pub open spec fn spec_c_str_end(s: Seq<u8>, offset: int) -> int
    decreases s.len() - offset,
{
    if offset < 0 || offset >= s.len() {
        s.len() as int
    } else if s[offset] == 0 {
        offset
    } else {
        spec_c_str_end(s, offset + 1)
    }
}

pub proof fn lemma_c_str_end(s: Seq<u8>, offset: int)
    requires
        0 <= offset <= s.len(),
    ensures
        offset <= spec_c_str_end(s, offset) <= s.len(),
        forall|i: int| offset <= i < spec_c_str_end(s, offset) ==> s[i] != 0,
        spec_c_str_end(s, offset) < s.len() ==> s[spec_c_str_end(s, offset)] == 0,
    decreases s.len() - offset,
{
    if offset < s.len() && s[offset] != 0 {
        lemma_c_str_end(s, offset + 1);
    }
}

/// The end of a run without zero bytes is the end of the C string that starts there.
pub proof fn lemma_c_str_end_unique(s: Seq<u8>, offset: int, end: int)
    requires
        0 <= offset <= end <= s.len(),
        forall|i: int| offset <= i < end ==> s[i] != 0,
        end < s.len() ==> s[end] == 0,
    ensures
        spec_c_str_end(s, offset) == end,
    decreases end - offset,
{
    if offset < end {
        lemma_c_str_end_unique(s, offset + 1, end);
    }
}

/// The bytes from `offset` up to the first zero byte, or to the end where no
/// zero byte follows.
pub fn as_c_str<'a>(data: &'a [u8], offset: usize) -> (r: &'a [u8])
    requires
        offset <= data@.len(),
    ensures
        r@ == data@.subrange(offset as int, spec_c_str_end(data@, offset as int)),
{
    let mut end = offset;
    while end < data.len() && data[end] != 0
        invariant
            offset <= end <= data@.len(),
            forall|i: int| offset <= i < end ==> data@[i] != 0,
        decreases data@.len() - end,
    {
        end += 1;
    }
    proof {
        lemma_c_str_end_unique(data@, offset as int, end as int);
    }
    slice_subrange(data, offset, end)
}

/// `len` bytes from `start` on.
pub fn sub_slice<'a>(data: &'a [u8], start: usize, len: usize) -> (r: &'a [u8])
    requires
        start + len <= data@.len(),
    ensures
        r@ == data@.subrange(start as int, start + len),
{
    let total = data.len();
    assert(start + len <= total);
    slice_subrange(data, start, start + len)
}

/// What a string with a one-byte length in front holds: nothing for the
/// length 0, absent for the length 0xff, else that many bytes.
pub open spec fn spec_as_string(s: Seq<u8>, offset: int) -> Option<Seq<u8>> {
    if s[offset] == 0 {
        Some(Seq::empty())
    } else if s[offset] == 0xff {
        None
    } else {
        Some(s.subrange(offset + 1, offset + 1 + s[offset] as int))
    }
}

/// The string with a one-byte length in front that starts at `offset`.
pub fn as_string<'a>(data: &'a [u8], offset: usize) -> (r: Option<&'a [u8]>)
    requires
        offset < data@.len(),
        data@[offset as int] != 0xff ==> offset + 1 + data@[offset as int] <= data@.len(),
    ensures
        r is Some == spec_as_string(data@, offset as int) is Some,
        r matches Some(b) ==> b@ == spec_as_string(data@, offset as int).unwrap(),
{
    let length = data[offset];
    if length == 0 {
        let e = slice_subrange(data, offset, offset);
        assert(e@ =~= Seq::<u8>::empty());
        Some(e)
    } else if length == 0xff {
        None
    } else {
        Some(sub_slice(data, offset + 1, length as usize))
    }
}

/// Whether bit number `bit` of `v` is set; bit 0 is the least significant.
pub open spec fn bit_is_set(v: u32, bit: u32) -> bool {
    (v >> bit) & 1 == 1
}

/// Tests one bit of a 16-bit value.
pub fn get_bit_u16(v: u16, bit: u32) -> (r: bool)
    requires
        bit < 16,
    ensures
        r == bit_is_set(v as u32, bit),
{
    let r = ((1u16 << bit) & v) != 0;
    assert((((1u16 << bit) & v) != 0) == (((v as u32) >> bit) & 1 == 1)) by (bit_vector)
        requires
            bit < 16,
    ;
    r
}

/// Tests one bit of a 32-bit value.
pub fn get_bit_u32(v: u32, bit: u32) -> (r: bool)
    requires
        bit < 32,
    ensures
        r == bit_is_set(v, bit),
{
    let r = ((1u32 << bit) & v) != 0;
    assert((((1u32 << bit) & v) != 0) == ((v >> bit) & 1 == 1)) by (bit_vector)
        requires
            bit < 32,
    ;
    r
}

} // verus!
