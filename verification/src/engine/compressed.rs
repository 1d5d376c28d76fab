use vstd::prelude::*;
use crate::error::DecodeError;
use crate::error::DecodeErrorKind;

verus! {

/// How many bytes a compressed unsigned integer takes, by its first byte:
/// one where the top bit is clear, two where the top bits are `10`, four
/// where they are `110`. No other first byte starts one.
pub open spec fn spec_compressed_width(first: u8) -> Option<int> {
    if first < 0x80 {
        Some(1)
    } else if first < 0xC0 {
        Some(2)
    } else if first < 0xE0 {
        Some(4)
    } else {
        None
    }
}

/// The number that the compressed unsigned integer at `pos` holds: the bits
/// of the first byte below its marker, then the bytes that follow, most
/// significant first.
pub open spec fn spec_compressed_value(s: Seq<u8>, pos: int) -> int {
    if s[pos] < 0x80 {
        s[pos] as int
    } else if s[pos] < 0xC0 {
        (s[pos] - 0x80) * 0x100 + s[pos + 1]
    } else {
        (s[pos] - 0xC0) * 0x100_0000 + s[pos + 1] * 0x1_0000 + s[pos + 2] * 0x100 + s[pos + 3]
    }
}

/// The compressed unsigned integer at `pos` and its width, or why there is none.
pub open spec fn spec_uncompress(s: Seq<u8>, pos: int) -> Result<(u32, int), DecodeErrorKind> {
    if pos < 0 || pos >= s.len() {
        Err(DecodeErrorKind::UnexpectedEof)
    } else {
        match spec_compressed_width(s[pos]) {
            None => Err(DecodeErrorKind::InvalidCompressedInteger),
            Some(w) => if s.len() < pos + w {
                Err(DecodeErrorKind::UnexpectedEof)
            } else {
                Ok((spec_compressed_value(s, pos) as u32, w))
            },
        }
    }
}

/// The bytes that hold `value` as a compressed unsigned integer of `width` bytes.
pub open spec fn spec_compress(value: int, width: int) -> Seq<u8> {
    if width == 1 {
        seq![value as u8]
    } else if width == 2 {
        seq![(0x80 + value / 0x100) as u8, (value % 0x100) as u8]
    } else {
        seq![
            (0xC0 + value / 0x100_0000) as u8,
            (value / 0x1_0000 % 0x100) as u8,
            (value / 0x100 % 0x100) as u8,
            (value % 0x100) as u8,
        ]
    }
}

/// A decoded value is below the limit of its width.
pub proof fn lemma_uncompress_range(s: Seq<u8>, pos: int)
    ensures
        spec_uncompress(s, pos) matches Ok((v, w)) ==> {
            &&& w == 1 || w == 2 || w == 4
            &&& v == spec_compressed_value(s, pos)
            &&& w == 1 ==> v <= 0x7F
            &&& w == 2 ==> v <= 0x3FFF
            &&& w == 4 ==> v <= 0x1FFF_FFFF
        },
{
}

/// A number written as digits of base 256 gives the digits back under
/// division and remainder.
proof fn lemma_digits(a: int, b1: int, b2: int, b3: int)
    requires
        0 <= a,
        0 <= b1 < 0x100,
        0 <= b2 < 0x100,
        0 <= b3 < 0x100,
    ensures
        (a * 0x100 + b1) / 0x100 == a,
        (a * 0x100 + b1) % 0x100 == b1,
        (a * 0x100_0000 + b1 * 0x1_0000 + b2 * 0x100 + b3) / 0x100_0000 == a,
        (a * 0x100_0000 + b1 * 0x1_0000 + b2 * 0x100 + b3) / 0x1_0000 % 0x100 == b1,
        (a * 0x100_0000 + b1 * 0x1_0000 + b2 * 0x100 + b3) / 0x100 % 0x100 == b2,
        (a * 0x100_0000 + b1 * 0x1_0000 + b2 * 0x100 + b3) % 0x100 == b3,
{
    let v = a * 0x100_0000 + b1 * 0x1_0000 + b2 * 0x100 + b3;
    assert(v / 0x1_0000 == a * 0x100 + b1);
    assert(v / 0x100 == a * 0x1_0000 + b1 * 0x100 + b2);
}

/// Decoding and then encoding to the same width gives back the bytes that
/// were decoded.
pub proof fn lemma_uncompress_round_trip(s: Seq<u8>, pos: int)
    ensures
        spec_uncompress(s, pos) matches Ok((v, w)) ==> spec_compress(v as int, w) == s.subrange(
            pos,
            pos + w,
        ),
{
    if spec_uncompress(s, pos) is Ok {
        let first = s[pos];
        let value = spec_compressed_value(s, pos);
        if first < 0x80 {
            assert(spec_compress(value, 1) =~= s.subrange(pos, pos + 1));
        } else if first < 0xC0 {
            lemma_digits(first - 0x80, s[pos + 1] as int, 0, 0);
            assert(spec_compress(value, 2) =~= s.subrange(pos, pos + 2));
        } else {
            lemma_digits(first - 0xC0, s[pos + 1] as int, s[pos + 2] as int, s[pos + 3] as int);
            assert(spec_compress(value, 4) =~= s.subrange(pos, pos + 4));
        }
    }
}

/// Encoding a value that fits its width and then decoding gives back the value.
pub proof fn lemma_compress_round_trip(value: int, width: int)
    requires
        width == 1 && 0 <= value <= 0x7F || width == 2 && 0 <= value <= 0x3FFF || width == 4 && 0
            <= value <= 0x1FFF_FFFF,
    ensures
        spec_uncompress(spec_compress(value, width), 0) == Ok::<(u32, int), DecodeErrorKind>(
            (value as u32, width),
        ),
{
    let s = spec_compress(value, width);
    if width == 2 {
        assert(value == (value / 0x100) * 0x100 + value % 0x100);
        assert(s[0] == 0x80 + value / 0x100);
    } else if width == 4 {
        let a = value / 0x100_0000;
        let b1 = value / 0x1_0000 % 0x100;
        let b2 = value / 0x100 % 0x100;
        let b3 = value % 0x100;
        assert(value == a * 0x100_0000 + b1 * 0x1_0000 + b2 * 0x100 + b3);
        assert(s[0] == 0xC0 + a);
    }
}

/// Reads the compressed unsigned integer at `pos`; gives the number and the
/// position after it.
pub fn read_compressed(data: &[u8], pos: usize) -> (r: Result<(u32, usize), DecodeError>)
    ensures
        match spec_uncompress(data@, pos as int) {
            Ok((v, w)) => r matches Ok((value, next)) && value == v && next == pos + w && pos < next
                <= data@.len(),
            Err(kind) => r matches Err(e) && e == DecodeError(kind),
        },
{
    let len = data.len();
    if pos >= len {
        return Err(DecodeError(DecodeErrorKind::UnexpectedEof));
    }
    let first = data[pos];
    if first < 0x80 {
        Ok((first as u32, pos + 1))
    } else if first < 0xC0 {
        if len - pos < 2 {
            return Err(DecodeError(DecodeErrorKind::UnexpectedEof));
        }
        let value = (first - 0x80) as u32 * 0x100 + data[pos + 1] as u32;
        Ok((value, pos + 2))
    } else if first < 0xE0 {
        if len - pos < 4 {
            return Err(DecodeError(DecodeErrorKind::UnexpectedEof));
        }
        let value = (first - 0xC0) as u32 * 0x100_0000 + data[pos + 1] as u32 * 0x1_0000 + data[pos
            + 2] as u32 * 0x100 + data[pos + 3] as u32;
        Ok((value, pos + 4))
    } else {
        Err(DecodeError(DecodeErrorKind::InvalidCompressedInteger))
    }
}

} // verus!
