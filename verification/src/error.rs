use vstd::prelude::*;

verus! {

/// The structural failures that decoding a metadata image can meet.
#[derive(Clone, Copy, Debug, PartialEq, Eq, Structural)]
pub enum DecodeErrorKind {
    /// A read would go past the end of the bytes at hand.
    UnexpectedEof,
    InvalidDosSignature,
    InvalidPeSectionCount,
    /// No PE section covers the address of the CLI header.
    MissingCliHeaderSection,
    InvalidCliHeader,
    /// No PE section covers the address of the metadata root.
    MissingMetadataSection,
    InvalidMetadataSignature,
    UnknownStream,
    MissingStringsStream,
    MissingBlobStream,
    MissingGuidStream,
    MissingTablesStream,
    UnknownTable,
    InvalidRowIndex,
    /// More than one row has a key that at most one row may have.
    AmbiguousKey,
    InvalidCodedIndexTag,
    InvalidCompressedInteger,
    InvalidBlobEncoding,
    MissingStringTerminator,
    InvalidUtf8,
    InvalidUtf16,
    InvalidConstantType,
    InvalidConstantValue,
    /// A column that must name a blob held the index zero.
    MissingBlob,
    InvalidSignature,
    UnsupportedSignature,
    InvalidEnumType,
    /// A type specification was asked for its name.
    TypeSpecHasNoName,
    InvalidCustomAttributeProlog,
    InvalidNamedArgument,
    UnresolvedEnumType,
    InvalidCustomAttributeType,
}

/// A failure to decode, with its cause.
#[derive(Clone, Copy, Debug, PartialEq, Eq, Structural)]
pub struct DecodeError(pub DecodeErrorKind);

impl DecodeError {
    pub open spec fn spec_message(self) -> Seq<char> {
        match self.0 {
            DecodeErrorKind::UnexpectedEof => "Unexpected end of file"@,
            DecodeErrorKind::InvalidDosSignature => "Invalid DOS signature"@,
            DecodeErrorKind::InvalidPeSectionCount => "Invalid PE section count"@,
            DecodeErrorKind::MissingCliHeaderSection => "PE section containing CLI header not found"@,
            DecodeErrorKind::InvalidCliHeader => "Invalid CLI header"@,
            DecodeErrorKind::MissingMetadataSection => "PE section containing CLI metadata not found"@,
            DecodeErrorKind::InvalidMetadataSignature => "CLI metadata magic signature not found"@,
            DecodeErrorKind::UnknownStream => "Unknown metadata stream"@,
            DecodeErrorKind::MissingStringsStream => "Missing Strings stream"@,
            DecodeErrorKind::MissingBlobStream => "Missing Blob stream"@,
            DecodeErrorKind::MissingGuidStream => "Missing GUID stream"@,
            DecodeErrorKind::MissingTablesStream => "Missing tables stream"@,
            DecodeErrorKind::UnknownTable => "Unknown metadata table"@,
            DecodeErrorKind::InvalidRowIndex => "Invalid row index"@,
            DecodeErrorKind::AmbiguousKey => "More than one row for a unique key"@,
            DecodeErrorKind::InvalidCodedIndexTag => "Invalid coded index tag"@,
            DecodeErrorKind::InvalidCompressedInteger => "Invalid compressed integer in blob"@,
            DecodeErrorKind::InvalidBlobEncoding => "Invalid blob encoding"@,
            DecodeErrorKind::MissingStringTerminator => "Missing string terminator"@,
            DecodeErrorKind::InvalidUtf8 => "Invalid UTF8 in string heap"@,
            DecodeErrorKind::InvalidUtf16 => "Invalid UTF16 in constant value"@,
            DecodeErrorKind::InvalidConstantType => "Invalid ConstantType"@,
            DecodeErrorKind::InvalidConstantValue => "Invalid constant value"@,
            DecodeErrorKind::MissingBlob => "Blob index was NULL"@,
            DecodeErrorKind::InvalidSignature => "Invalid signature blob"@,
            DecodeErrorKind::UnsupportedSignature => "Unsupported signature shape"@,
            DecodeErrorKind::InvalidEnumType => "Enum without a single primitive underlying type"@,
            DecodeErrorKind::TypeSpecHasNoName => "TypeSpec has no namespace/name pair"@,
            DecodeErrorKind::InvalidCustomAttributeProlog => "CustomAttribute blobs must start with prolog of 0x0001"@,
            DecodeErrorKind::InvalidNamedArgument => "NamedArg must be either FIELD or PROPERTY"@,
            DecodeErrorKind::UnresolvedEnumType => "CustomAttribute named param referenced unresolved enum type"@,
            DecodeErrorKind::InvalidCustomAttributeType => "Unexpected type in CustomAttribute"@,
        }
    }

    /// The cause of this failure.
    pub fn kind(&self) -> (r: DecodeErrorKind)
        ensures
            r == self.0,
    {
        self.0
    }

    /// A short text that names the cause.
    pub fn message(&self) -> (r: &'static str)
        ensures
            r@ == self.spec_message(),
    {
        match self.0 {
            DecodeErrorKind::UnexpectedEof => "Unexpected end of file",
            DecodeErrorKind::InvalidDosSignature => "Invalid DOS signature",
            DecodeErrorKind::InvalidPeSectionCount => "Invalid PE section count",
            DecodeErrorKind::MissingCliHeaderSection => "PE section containing CLI header not found",
            DecodeErrorKind::InvalidCliHeader => "Invalid CLI header",
            DecodeErrorKind::MissingMetadataSection => "PE section containing CLI metadata not found",
            DecodeErrorKind::InvalidMetadataSignature => "CLI metadata magic signature not found",
            DecodeErrorKind::UnknownStream => "Unknown metadata stream",
            DecodeErrorKind::MissingStringsStream => "Missing Strings stream",
            DecodeErrorKind::MissingBlobStream => "Missing Blob stream",
            DecodeErrorKind::MissingGuidStream => "Missing GUID stream",
            DecodeErrorKind::MissingTablesStream => "Missing tables stream",
            DecodeErrorKind::UnknownTable => "Unknown metadata table",
            DecodeErrorKind::InvalidRowIndex => "Invalid row index",
            DecodeErrorKind::AmbiguousKey => "More than one row for a unique key",
            DecodeErrorKind::InvalidCodedIndexTag => "Invalid coded index tag",
            DecodeErrorKind::InvalidCompressedInteger => "Invalid compressed integer in blob",
            DecodeErrorKind::InvalidBlobEncoding => "Invalid blob encoding",
            DecodeErrorKind::MissingStringTerminator => "Missing string terminator",
            DecodeErrorKind::InvalidUtf8 => "Invalid UTF8 in string heap",
            DecodeErrorKind::InvalidUtf16 => "Invalid UTF16 in constant value",
            DecodeErrorKind::InvalidConstantType => "Invalid ConstantType",
            DecodeErrorKind::InvalidConstantValue => "Invalid constant value",
            DecodeErrorKind::MissingBlob => "Blob index was NULL",
            DecodeErrorKind::InvalidSignature => "Invalid signature blob",
            DecodeErrorKind::UnsupportedSignature => "Unsupported signature shape",
            DecodeErrorKind::InvalidEnumType => "Enum without a single primitive underlying type",
            DecodeErrorKind::TypeSpecHasNoName => "TypeSpec has no namespace/name pair",
            DecodeErrorKind::InvalidCustomAttributeProlog => "CustomAttribute blobs must start with prolog of 0x0001",
            DecodeErrorKind::InvalidNamedArgument => "NamedArg must be either FIELD or PROPERTY",
            DecodeErrorKind::UnresolvedEnumType => "CustomAttribute named param referenced unresolved enum type",
            DecodeErrorKind::InvalidCustomAttributeType => "Unexpected type in CustomAttribute",
        }
    }
}

} // verus!
