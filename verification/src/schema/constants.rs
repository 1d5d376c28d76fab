use vstd::prelude::*;
use vstd::slice::slice_subrange;
use crate::engine::bytes::in_bounds;
use crate::engine::bytes::le_read_i16;
use crate::engine::bytes::le_read_i32;
use crate::engine::bytes::le_read_i64;
use crate::engine::bytes::read_u16_at;
use crate::engine::bytes::read_u32_at;
use crate::engine::bytes::read_u64_at;
use crate::engine::bytes::spec_signed;
use crate::engine::bytes::spec_u16_le;
use crate::engine::bytes::spec_u32_le;
use crate::engine::bytes::spec_u64_le;
use crate::engine::database::TableRow;
use crate::error::DecodeError;
use crate::error::DecodeErrorKind;
use crate::schema::rows::Constant;
use crate::schema::signatures::PrimitiveType;

verus! {

/// The type of a constant value.
#[derive(Clone, Copy, Debug, PartialEq, Eq, Structural)]
pub enum ConstantType {
    Boolean,
    Char,
    Int8,
    UInt8,
    Int16,
    UInt16,
    Int32,
    UInt32,
    Int64,
    UInt64,
    Float32,
    Float64,
    String,
    Class,
}

impl ConstantType {
    /// The number that stands for this type in the table.
    pub open spec fn spec_value(self) -> u16 {
        match self {
            ConstantType::Boolean => 0x02,
            ConstantType::Char => 0x03,
            ConstantType::Int8 => 0x04,
            ConstantType::UInt8 => 0x05,
            ConstantType::Int16 => 0x06,
            ConstantType::UInt16 => 0x07,
            ConstantType::Int32 => 0x08,
            ConstantType::UInt32 => 0x09,
            ConstantType::Int64 => 0x0a,
            ConstantType::UInt64 => 0x0b,
            ConstantType::Float32 => 0x0c,
            ConstantType::Float64 => 0x0d,
            ConstantType::String => 0x0e,
            ConstantType::Class => 0x12,
        }
    }

    /// The type that the number `v` stands for, if it stands for one.
    pub open spec fn spec_from_u16(v: u16) -> Option<ConstantType> {
        if v == 0x02 {
            Some(ConstantType::Boolean)
        } else if v == 0x03 {
            Some(ConstantType::Char)
        } else if v == 0x04 {
            Some(ConstantType::Int8)
        } else if v == 0x05 {
            Some(ConstantType::UInt8)
        } else if v == 0x06 {
            Some(ConstantType::Int16)
        } else if v == 0x07 {
            Some(ConstantType::UInt16)
        } else if v == 0x08 {
            Some(ConstantType::Int32)
        } else if v == 0x09 {
            Some(ConstantType::UInt32)
        } else if v == 0x0a {
            Some(ConstantType::Int64)
        } else if v == 0x0b {
            Some(ConstantType::UInt64)
        } else if v == 0x0c {
            Some(ConstantType::Float32)
        } else if v == 0x0d {
            Some(ConstantType::Float64)
        } else if v == 0x0e {
            Some(ConstantType::String)
        } else if v == 0x12 {
            Some(ConstantType::Class)
        } else {
            None
        }
    }

    /// The primitive type of the values of this type, for the types that
    /// have primitive values.
    pub open spec fn spec_primitive(self) -> Option<PrimitiveType> {
        match self {
            ConstantType::Boolean => Some(PrimitiveType::Boolean),
            ConstantType::Char => Some(PrimitiveType::Char),
            ConstantType::Int8 => Some(PrimitiveType::I1),
            ConstantType::UInt8 => Some(PrimitiveType::U1),
            ConstantType::Int16 => Some(PrimitiveType::I2),
            ConstantType::UInt16 => Some(PrimitiveType::U2),
            ConstantType::Int32 => Some(PrimitiveType::I4),
            ConstantType::UInt32 => Some(PrimitiveType::U4),
            ConstantType::Int64 => Some(PrimitiveType::I8),
            ConstantType::UInt64 => Some(PrimitiveType::U8),
            ConstantType::Float32 => Some(PrimitiveType::R4),
            ConstantType::Float64 => Some(PrimitiveType::R8),
            _ => None,
        }
    }

    /// The number that stands for this type in the table.
    pub fn value(self) -> (r: u16)
        ensures
            r == self.spec_value(),
            ConstantType::spec_from_u16(r) == Some(self),
    {
        match self {
            ConstantType::Boolean => 0x02,
            ConstantType::Char => 0x03,
            ConstantType::Int8 => 0x04,
            ConstantType::UInt8 => 0x05,
            ConstantType::Int16 => 0x06,
            ConstantType::UInt16 => 0x07,
            ConstantType::Int32 => 0x08,
            ConstantType::UInt32 => 0x09,
            ConstantType::Int64 => 0x0a,
            ConstantType::UInt64 => 0x0b,
            ConstantType::Float32 => 0x0c,
            ConstantType::Float64 => 0x0d,
            ConstantType::String => 0x0e,
            ConstantType::Class => 0x12,
        }
    }

    /// The type that the number `v` stands for, if it stands for one.
    pub fn from_u16(v: u16) -> (r: Option<ConstantType>)
        ensures
            r == ConstantType::spec_from_u16(v),
    {
        match v {
            0x02 => Some(ConstantType::Boolean),
            0x03 => Some(ConstantType::Char),
            0x04 => Some(ConstantType::Int8),
            0x05 => Some(ConstantType::UInt8),
            0x06 => Some(ConstantType::Int16),
            0x07 => Some(ConstantType::UInt16),
            0x08 => Some(ConstantType::Int32),
            0x09 => Some(ConstantType::UInt32),
            0x0a => Some(ConstantType::Int64),
            0x0b => Some(ConstantType::UInt64),
            0x0c => Some(ConstantType::Float32),
            0x0d => Some(ConstantType::Float64),
            0x0e => Some(ConstantType::String),
            0x12 => Some(ConstantType::Class),
            _ => None,
        }
    }

    /// The primitive type of the values of this type, for the types that
    /// have primitive values.
    pub fn primitive(self) -> (r: Option<PrimitiveType>)
        ensures
            r == self.spec_primitive(),
    {
        match self {
            ConstantType::Boolean => Some(PrimitiveType::Boolean),
            ConstantType::Char => Some(PrimitiveType::Char),
            ConstantType::Int8 => Some(PrimitiveType::I1),
            ConstantType::UInt8 => Some(PrimitiveType::U1),
            ConstantType::Int16 => Some(PrimitiveType::I2),
            ConstantType::UInt16 => Some(PrimitiveType::U2),
            ConstantType::Int32 => Some(PrimitiveType::I4),
            ConstantType::UInt32 => Some(PrimitiveType::U4),
            ConstantType::Int64 => Some(PrimitiveType::I8),
            ConstantType::UInt64 => Some(PrimitiveType::U8),
            ConstantType::Float32 => Some(PrimitiveType::R4),
            ConstantType::Float64 => Some(PrimitiveType::R8),
            _ => None,
        }
    }
}

/// A value of a primitive type. A floating point number is held as the bits
/// of its IEEE 754 form.
#[derive(Clone, Copy, Debug, PartialEq, Eq, Structural)]
pub enum PrimitiveValue {
    Boolean(bool),
    Char(u16),
    Int8(i8),
    UInt8(u8),
    Int16(i16),
    UInt16(u16),
    Int32(i32),
    UInt32(u32),
    Int64(i64),
    UInt64(u64),
    Float32(u32),
    Float64(u64),
}

/// How many bytes a value of the primitive type `ty` takes; the native
/// integers `I` and `U` have no values here.
pub open spec fn spec_primitive_size(ty: PrimitiveType) -> Option<int> {
    match ty {
        PrimitiveType::Boolean | PrimitiveType::I1 | PrimitiveType::U1 => Some(1),
        PrimitiveType::Char | PrimitiveType::I2 | PrimitiveType::U2 => Some(2),
        PrimitiveType::I4 | PrimitiveType::U4 | PrimitiveType::R4 => Some(4),
        PrimitiveType::I8 | PrimitiveType::U8 | PrimitiveType::R8 => Some(8),
        PrimitiveType::I | PrimitiveType::U => None,
    }
}

/// The value of the primitive type `ty` that the bytes from `pos` on hold,
/// least significant byte first, and the position after it.
pub open spec fn spec_primitive_value(ty: PrimitiveType, s: Seq<u8>, pos: int) -> Result<
    (PrimitiveValue, int),
    DecodeErrorKind,
> {
    match spec_primitive_size(ty) {
        None => Err(DecodeErrorKind::UnsupportedSignature),
        Some(size) => if !in_bounds(s.len() as int, pos, size) {
            Err(DecodeErrorKind::UnexpectedEof)
        } else {
            Ok(
                (
                    match ty {
                        PrimitiveType::Boolean => PrimitiveValue::Boolean(s[pos] != 0),
                        PrimitiveType::Char => PrimitiveValue::Char(spec_u16_le(s, pos) as u16),
                        PrimitiveType::I1 => PrimitiveValue::Int8(
                            spec_signed(s[pos] as int, 8) as i8,
                        ),
                        PrimitiveType::U1 => PrimitiveValue::UInt8(s[pos]),
                        PrimitiveType::I2 => PrimitiveValue::Int16(
                            spec_signed(spec_u16_le(s, pos), 16) as i16,
                        ),
                        PrimitiveType::U2 => PrimitiveValue::UInt16(spec_u16_le(s, pos) as u16),
                        PrimitiveType::I4 => PrimitiveValue::Int32(
                            spec_signed(spec_u32_le(s, pos), 32) as i32,
                        ),
                        PrimitiveType::U4 => PrimitiveValue::UInt32(spec_u32_le(s, pos) as u32),
                        PrimitiveType::I8 => PrimitiveValue::Int64(
                            spec_signed(spec_u64_le(s, pos), 64) as i64,
                        ),
                        PrimitiveType::U8 => PrimitiveValue::UInt64(spec_u64_le(s, pos) as u64),
                        PrimitiveType::R4 => PrimitiveValue::Float32(spec_u32_le(s, pos) as u32),
                        _ => PrimitiveValue::Float64(spec_u64_le(s, pos) as u64),
                    },
                    pos + size,
                ),
            )
        },
    }
}

impl PrimitiveType {
    /// Reads a value of this type at `pos`; gives it and the position after it.
    pub fn parse_value(&self, data: &[u8], pos: usize) -> (r: Result<
        (PrimitiveValue, usize),
        DecodeError,
    >)
        ensures
            match spec_primitive_value(*self, data@, pos as int) {
                Ok((v, next)) => r matches Ok((value, p)) && value == v && p == next && pos < next
                    <= data@.len(),
                Err(kind) => r matches Err(e) && e == DecodeError(kind),
            },
    {
        let len = data.len();
        let size: usize = match self {
            PrimitiveType::Boolean | PrimitiveType::I1 | PrimitiveType::U1 => 1,
            PrimitiveType::Char | PrimitiveType::I2 | PrimitiveType::U2 => 2,
            PrimitiveType::I4 | PrimitiveType::U4 | PrimitiveType::R4 => 4,
            PrimitiveType::I8 | PrimitiveType::U8 | PrimitiveType::R8 => 8,
            PrimitiveType::I | PrimitiveType::U => {
                return Err(DecodeError(DecodeErrorKind::UnsupportedSignature));
            },
        };
        if pos > len || len - pos < size {
            return Err(DecodeError(DecodeErrorKind::UnexpectedEof));
        }
        let part = slice_subrange(data, pos, pos + size);
        proof {
            vstd::arithmetic::power2::lemma2_to64();
            crate::engine::bytes::lemma_le_bounds(data@, pos as int);
            crate::engine::bytes::lemma_le_bounds(data@, pos + 4);
            assert(size >= 2 ==> spec_u16_le(part@, 0) == spec_u16_le(data@, pos as int));
            assert(size >= 4 ==> spec_u32_le(part@, 0) == spec_u32_le(data@, pos as int));
            assert(size >= 8 ==> spec_u64_le(part@, 0) == spec_u64_le(data@, pos as int));
        }
        let value = match self {
            PrimitiveType::Boolean => PrimitiveValue::Boolean(data[pos] != 0),
            PrimitiveType::Char => PrimitiveValue::Char(read_u16_at(data, pos).unwrap()),
            PrimitiveType::I1 => {
                let b = data[pos];
                assert(vstd::arithmetic::power2::pow2(7) == 128 && vstd::arithmetic::power2::pow2(8)
                    == 256) by {
                    vstd::arithmetic::power2::lemma2_to64();
                }
                if b < 128 {
                    PrimitiveValue::Int8(b as i8)
                } else {
                    PrimitiveValue::Int8((b as i16 - 256) as i8)
                }
            },
            PrimitiveType::U1 => PrimitiveValue::UInt8(data[pos]),
            PrimitiveType::I2 => PrimitiveValue::Int16(le_read_i16(part)),
            PrimitiveType::U2 => PrimitiveValue::UInt16(read_u16_at(data, pos).unwrap()),
            PrimitiveType::I4 => PrimitiveValue::Int32(le_read_i32(part)),
            PrimitiveType::U4 => PrimitiveValue::UInt32(read_u32_at(data, pos).unwrap()),
            PrimitiveType::I8 => PrimitiveValue::Int64(le_read_i64(part)),
            PrimitiveType::U8 => PrimitiveValue::UInt64(read_u64_at(data, pos).unwrap()),
            PrimitiveType::R4 => PrimitiveValue::Float32(read_u32_at(data, pos).unwrap()),
            _ => PrimitiveValue::Float64(read_u64_at(data, pos).unwrap()),
        };
        Ok((value, pos + size))
    }
}

/// Whether the 16-bit unit `u` is the first half of a surrogate pair.
pub open spec fn is_high_surrogate(u: int) -> bool {
    0xD800 <= u <= 0xDBFF
}

/// Whether the 16-bit unit `u` is the second half of a surrogate pair.
pub open spec fn is_low_surrogate(u: int) -> bool {
    0xDC00 <= u <= 0xDFFF
}

/// Whether the 16-bit units that `s` holds from unit `i` up to unit `n`,
/// least significant byte first, are well-formed UTF-16: every first half of
/// a surrogate pair is followed by a second half, and no second half stands
/// alone.
pub open spec fn spec_valid_utf16(s: Seq<u8>, i: int, n: int) -> bool
    decreases n - i,
{
    if i >= n {
        true
    } else if is_high_surrogate(spec_u16_le(s, 2 * i)) {
        i + 1 < n && is_low_surrogate(spec_u16_le(s, 2 * i + 2)) && spec_valid_utf16(s, i + 2, n)
    } else if is_low_surrogate(spec_u16_le(s, 2 * i)) {
        false
    } else {
        spec_valid_utf16(s, i + 1, n)
    }
}

/// Whether the bytes `data`, two for each unit and a last odd byte left
/// out, are well-formed UTF-16.
pub fn valid_utf16(data: &[u8]) -> (r: bool)
    ensures
        r == spec_valid_utf16(data@, 0, data@.len() as int / 2),
{
    let len = data.len();
    let n = len / 2;
    let mut i: usize = 0;
    while i < n
        invariant
            i <= n,
            len == data@.len(),
            n == data@.len() / 2,
            spec_valid_utf16(data@, 0, n as int) == spec_valid_utf16(data@, i as int, n as int),
        decreases n - i,
    {
        let unit = read_u16_at(data, 2 * i).unwrap();
        if 0xD800 <= unit && unit <= 0xDBFF {
            if i + 1 >= n {
                return false;
            }
            let next = read_u16_at(data, 2 * i + 2).unwrap();
            if !(0xDC00 <= next && next <= 0xDFFF) {
                return false;
            }
            i += 2;
        } else if 0xDC00 <= unit && unit <= 0xDFFF {
            return false;
        } else {
            i += 1;
        }
    }
    true
}

/// What the initial value of a field, parameter or property is.
pub enum FieldInitModel {
    Primitive(PrimitiveValue),
    /// The bytes of a string in UTF-16, least significant byte first.
    String(Option<Seq<u8>>),
    NullRef,
}

/// The initial value of a field, parameter or property.
#[derive(Clone, Copy, Debug)]
pub enum FieldInit<'db> {
    Primitive(PrimitiveValue),
    /// A string, as the bytes of its UTF-16 units, least significant byte
    /// first. A decoded string is always present.
    String(Option<&'db [u8]>),
    /// The null reference.
    NullRef,
}

impl<'db> View for FieldInit<'db> {
    type V = FieldInitModel;

    open spec fn view(&self) -> FieldInitModel {
        match self {
            FieldInit::Primitive(p) => FieldInitModel::Primitive(*p),
            FieldInit::String(Some(s)) => FieldInitModel::String(Some(s@)),
            FieldInit::String(None) => FieldInitModel::String(None),
            FieldInit::NullRef => FieldInitModel::NullRef,
        }
    }
}

/// The value of type `ty` that the blob `blob` holds. A primitive value is
/// read least significant byte first; a string is the whole units of the
/// blob, which must be well-formed UTF-16; a class is the null reference,
/// held as four zero bytes.
pub open spec fn spec_constant_value(ty: ConstantType, blob: Seq<u8>) -> Result<
    FieldInitModel,
    DecodeErrorKind,
> {
    match ty.spec_primitive() {
        Some(p) => match spec_primitive_value(p, blob, 0) {
            Ok((v, next)) => Ok(FieldInitModel::Primitive(v)),
            Err(kind) => Err(kind),
        },
        None => if ty == ConstantType::String {
            if spec_valid_utf16(blob, 0, blob.len() as int / 2) {
                Ok(FieldInitModel::String(Some(blob.subrange(0, 2 * (blob.len() as int / 2)))))
            } else {
                Err(DecodeErrorKind::InvalidUtf16)
            }
        } else {
            if blob.len() == 4 && spec_u32_le(blob, 0) == 0 {
                Ok(FieldInitModel::NullRef)
            } else {
                Err(DecodeErrorKind::InvalidConstantValue)
            }
        },
    }
}

/// Decodes the blob `blob` as a value of type `ty`.
pub fn decode_constant<'a>(ty: ConstantType, blob: &'a [u8]) -> (r: Result<FieldInit<'a>, DecodeError>)
    ensures
        match spec_constant_value(ty, blob@) {
            Ok(v) => r matches Ok(value) && value@ == v,
            Err(kind) => r matches Err(e) && e == DecodeError(kind),
        },
{
    match ty.primitive() {
        Some(p) => match p.parse_value(blob, 0) {
            Ok((v, _)) => Ok(FieldInit::Primitive(v)),
            Err(e) => Err(e),
        },
        None => match ty {
            ConstantType::String => {
                if valid_utf16(blob) {
                    let n = blob.len() / 2;
                    Ok(FieldInit::String(Some(slice_subrange(blob, 0, 2 * n))))
                } else {
                    Err(DecodeError(DecodeErrorKind::InvalidUtf16))
                }
            },
            _ => {
                if blob.len() == 4 && read_u32_at(blob, 0).unwrap() == 0 {
                    Ok(FieldInit::NullRef)
                } else {
                    Err(DecodeError(DecodeErrorKind::InvalidConstantValue))
                }
            },
        },
    }
}

/// The value of a constant whose type column holds `type_cell` and whose
/// value column names `blob`.
pub open spec fn spec_constant(type_cell: int, blob: Result<Option<Seq<u8>>, DecodeErrorKind>)
    -> Result<FieldInitModel, DecodeErrorKind> {
    match blob {
        Err(kind) => Err(kind),
        Ok(None) => Err(DecodeErrorKind::MissingBlob),
        Ok(Some(bytes)) => match ConstantType::spec_from_u16(type_cell as u16) {
            None => Err(DecodeErrorKind::InvalidConstantType),
            Some(ty) => spec_constant_value(ty, bytes),
        },
    }
}

impl<'db> Constant<'db> {
    /// The type of the value.
    pub fn type_(&self) -> (r: Result<ConstantType, DecodeError>)
        ensures
            match ConstantType::spec_from_u16(self.row().cell(0) as u16) {
                Some(ty) => r == Ok::<ConstantType, DecodeError>(ty),
                None => r == Err::<ConstantType, DecodeError>(
                    DecodeError(DecodeErrorKind::InvalidConstantType),
                ),
            },
    {
        let raw = self.as_row().get_u16(0);
        match ConstantType::from_u16(raw) {
            Some(ty) => Ok(ty),
            None => Err(DecodeError(DecodeErrorKind::InvalidConstantType)),
        }
    }

    /// The value: the blob of the row, decoded by the type of the row.
    pub fn value(&self) -> (r: Result<FieldInit<'db>, DecodeError>)
        ensures
            match spec_constant(self.row().cell(0), self.row().blob(2)) {
                Ok(v) => r matches Ok(value) && value@ == v,
                Err(kind) => r matches Err(e) && e == DecodeError(kind),
            },
    {
        let bytes = match self.as_row().get_blob(2) {
            Err(e) => {
                return Err(e);
            },
            Ok(None) => {
                return Err(DecodeError(DecodeErrorKind::MissingBlob));
            },
            Ok(Some(bytes)) => bytes,
        };
        match self.type_() {
            Err(e) => Err(e),
            Ok(ty) => decode_constant(ty, bytes),
        }
    }
}

} // verus!
