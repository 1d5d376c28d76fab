use vstd::prelude::*;
use crate::engine::bytes::as_c_str;
use crate::engine::bytes::lemma_c_str_end;
use crate::engine::bytes::read_u16_at;
use crate::engine::bytes::read_u32_at;
use crate::engine::bytes::spec_c_str_end;
use crate::engine::bytes::spec_u16_le;
use crate::engine::bytes::spec_u32_le;
use crate::error::DecodeError;
use crate::error::DecodeErrorKind;

verus! {

/// The streams that a metadata root may name.
#[derive(Clone, Copy, Debug, PartialEq, Eq, Structural)]
pub enum StreamKind {
    /// `#Strings`
    Strings,
    /// `#Blob`
    Blob,
    /// `#GUID`
    Guid,
    /// `#~`
    Tables,
    /// `#US`, which is passed over.
    UserStrings,
    /// Any other name.
    Unknown,
}

/// Where a stream lies within the image.
#[derive(Clone, Copy, Debug, PartialEq, Eq, Structural)]
pub struct StreamRange {
    pub start: usize,
    pub size: usize,
}

/// The streams found so far.
#[derive(Clone, Copy, Debug, PartialEq, Eq, Structural)]
pub struct Streams {
    pub strings: Option<StreamRange>,
    pub blobs: Option<StreamRange>,
    pub guids: Option<StreamRange>,
    pub tables: Option<StreamRange>,
}

/// The stream that the name `name` stands for.
pub open spec fn spec_stream_kind(name: Seq<u8>) -> StreamKind {
    if name == seq![0x23u8, 0x53, 0x74, 0x72, 0x69, 0x6e, 0x67, 0x73] {
        StreamKind::Strings
    } else if name == seq![0x23u8, 0x42, 0x6c, 0x6f, 0x62] {
        StreamKind::Blob
    } else if name == seq![0x23u8, 0x47, 0x55, 0x49, 0x44] {
        StreamKind::Guid
    } else if name == seq![0x23u8, 0x7e] {
        StreamKind::Tables
    } else if name == seq![0x23u8, 0x55, 0x53] {
        StreamKind::UserStrings
    } else {
        StreamKind::Unknown
    }
}

/// The stream that the name `name` stands for.
pub fn stream_kind(name: &[u8]) -> (r: StreamKind)
    ensures
        r == spec_stream_kind(name@),
{
    let n = name.len();
    if n == 8 && name[0] == 0x23 && name[1] == 0x53 && name[2] == 0x74 && name[3] == 0x72
        && name[4] == 0x69 && name[5] == 0x6e && name[6] == 0x67 && name[7] == 0x73 {
        assert(name@ =~= seq![0x23u8, 0x53, 0x74, 0x72, 0x69, 0x6e, 0x67, 0x73]);
        StreamKind::Strings
    } else if n == 5 && name[0] == 0x23 && name[1] == 0x42 && name[2] == 0x6c && name[3] == 0x6f
        && name[4] == 0x62 {
        assert(name@ =~= seq![0x23u8, 0x42, 0x6c, 0x6f, 0x62]);
        StreamKind::Blob
    } else if n == 5 && name[0] == 0x23 && name[1] == 0x47 && name[2] == 0x55 && name[3] == 0x49
        && name[4] == 0x44 {
        assert(name@ =~= seq![0x23u8, 0x47, 0x55, 0x49, 0x44]);
        StreamKind::Guid
    } else if n == 2 && name[0] == 0x23 && name[1] == 0x7e {
        assert(name@ =~= seq![0x23u8, 0x7e]);
        StreamKind::Tables
    } else if n == 3 && name[0] == 0x23 && name[1] == 0x55 && name[2] == 0x53 {
        assert(name@ =~= seq![0x23u8, 0x55, 0x53]);
        StreamKind::UserStrings
    } else {
        StreamKind::Unknown
    }
}

/// The size of a stream header whose name has `name_len` bytes: eight bytes
/// of offset and size, the name, and one to four zero bytes that pad it to a
/// multiple of four.
pub open spec fn spec_stream_offset(name_len: int) -> int {
    8 + name_len + (4 - name_len % 4)
}

/// The size of the stream header with the name `name`.
pub fn stream_offset(name: &[u8]) -> (r: usize)
    requires
        name@.len() + 12 <= usize::MAX,
    ensures
        r == spec_stream_offset(name@.len() as int),
{
    let padding = 4 - name.len() % 4;
    8 + name.len() + padding
}

impl Streams {
    /// No stream found yet.
    pub open spec fn spec_empty() -> Streams {
        Streams { strings: None, blobs: None, guids: None, tables: None }
    }

    /// These streams with the stream of kind `kind` at `range`; a stream
    /// found again takes the place of the first.
    pub open spec fn spec_with(self, kind: StreamKind, range: StreamRange) -> Streams {
        match kind {
            StreamKind::Strings => Streams { strings: Some(range), ..self },
            StreamKind::Blob => Streams { blobs: Some(range), ..self },
            StreamKind::Guid => Streams { guids: Some(range), ..self },
            StreamKind::Tables => Streams { tables: Some(range), ..self },
            _ => self,
        }
    }

    /// Every stream that was found lies within `len` bytes.
    pub open spec fn within(self, len: int) -> bool {
        &&& self.strings matches Some(r) ==> r.start + r.size <= len
        &&& self.blobs matches Some(r) ==> r.start + r.size <= len
        &&& self.guids matches Some(r) ==> r.start + r.size <= len
        &&& self.tables matches Some(r) ==> r.start + r.size <= len
    }

    /// The first of the four streams that is missing, in the order strings,
    /// blobs, GUIDs, tables.
    pub open spec fn spec_missing(self) -> Option<DecodeErrorKind> {
        if self.strings is None {
            Some(DecodeErrorKind::MissingStringsStream)
        } else if self.blobs is None {
            Some(DecodeErrorKind::MissingBlobStream)
        } else if self.guids is None {
            Some(DecodeErrorKind::MissingGuidStream)
        } else if self.tables is None {
            Some(DecodeErrorKind::MissingTablesStream)
        } else {
            None
        }
    }
}

/// Walks `remaining` stream headers from `pos` on and notes where each known
/// stream lies; offsets count from `root`.
pub open spec fn spec_scan_streams(
    data: Seq<u8>,
    root: int,
    pos: int,
    remaining: int,
    found: Streams,
) -> Result<Streams, DecodeErrorKind>
    decreases remaining,
{
    if remaining <= 0 {
        Ok(found)
    } else if data.len() < pos + 8 {
        Err(DecodeErrorKind::UnexpectedEof)
    } else {
        let start = root + spec_u32_le(data, pos);
        let size = spec_u32_le(data, pos + 4);
        let name = data.subrange(pos + 8, spec_c_str_end(data, pos + 8));
        let kind = spec_stream_kind(name);
        let next = pos + spec_stream_offset(name.len() as int);
        if kind is Unknown {
            Err(DecodeErrorKind::UnknownStream)
        } else if !(kind is UserStrings) && data.len() < start + size {
            Err(DecodeErrorKind::UnexpectedEof)
        } else if data.len() < next {
            Err(DecodeErrorKind::UnexpectedEof)
        } else {
            spec_scan_streams(
                data,
                root,
                next,
                remaining - 1,
                found.spec_with(kind, StreamRange { start: start as usize, size: size as usize }),
            )
        }
    }
}

/// The four streams of the metadata whose root starts at `root`.
pub open spec fn spec_streams(data: Seq<u8>, root: int) -> Result<Streams, DecodeErrorKind> {
    let version_length = spec_u32_le(data, root + 12);
    let count = spec_u16_le(data, root + version_length + 18);
    if data.len() < root + 16 {
        Err(DecodeErrorKind::UnexpectedEof)
    } else if data.len() < root + version_length + 20 {
        Err(DecodeErrorKind::UnexpectedEof)
    } else {
        match spec_scan_streams(data, root, root + version_length + 20, count, Streams::spec_empty()) {
            Err(kind) => Err(kind),
            Ok(found) => match found.spec_missing() {
                Some(kind) => Err(kind),
                None => Ok(found),
            },
        }
    }
}

/// Reads the stream headers that follow the metadata root at `root` and
/// finds the string, blob and GUID heaps and the tables stream.
pub fn find_streams(data: &[u8], root: usize) -> (r: Result<Streams, DecodeError>)
    requires
        root <= data@.len(),
    ensures
        match spec_streams(data@, root as int) {
            Ok(found) => r == Ok::<Streams, DecodeError>(found) && found.within(
                data@.len() as int,
            ) && found.spec_missing() is None,
            Err(kind) => r == Err::<Streams, DecodeError>(DecodeError(kind)),
        },
{
    let len = data.len();
    if len - root < 16 {
        return Err(DecodeError(DecodeErrorKind::UnexpectedEof));
    }
    let version_length = read_u32_at(data, root + 12).unwrap();
    if ((len - root) as u64) < version_length as u64 + 20 {
        return Err(DecodeError(DecodeErrorKind::UnexpectedEof));
    }
    let count = read_u16_at(data, root + version_length as usize + 18).unwrap();
    let mut pos: usize = root + version_length as usize + 20;
    let mut found = Streams { strings: None, blobs: None, guids: None, tables: None };
    let mut remaining: u16 = count;
    while remaining > 0
        invariant
            len == data@.len(),
            root <= pos <= len,
            root + 16 <= len,
            root + version_length + 20 <= len,
            version_length == spec_u32_le(data@, root + 12),
            count == spec_u16_le(data@, root + version_length + 18),
            found.within(len as int),
            spec_scan_streams(
                data@,
                root as int,
                root + version_length + 20,
                count as int,
                Streams::spec_empty(),
            ) == spec_scan_streams(data@, root as int, pos as int, remaining as int, found),
        decreases remaining,
    {
        if len - pos < 8 {
            return Err(DecodeError(DecodeErrorKind::UnexpectedEof));
        }
        let offset = read_u32_at(data, pos).unwrap();
        let size = read_u32_at(data, pos + 4).unwrap();
        let name = as_c_str(data, pos + 8);
        proof {
            lemma_c_str_end(data@, pos + 8);
        }
        let kind = stream_kind(name);
        match kind {
            StreamKind::Unknown => {
                return Err(DecodeError(DecodeErrorKind::UnknownStream));
            },
            StreamKind::UserStrings => {},
            _ => {
                if ((len - root) as u64) < offset as u64 + size as u64 {
                    return Err(DecodeError(DecodeErrorKind::UnexpectedEof));
                }
                let range = StreamRange { start: root + offset as usize, size: size as usize };
                match kind {
                    StreamKind::Strings => {
                        found.strings = Some(range);
                    },
                    StreamKind::Blob => {
                        found.blobs = Some(range);
                    },
                    StreamKind::Guid => {
                        found.guids = Some(range);
                    },
                    _ => {
                        found.tables = Some(range);
                    },
                }
            },
        }
        let room = len - pos - 8;
        let padding = 4 - name.len() % 4;
        if room - name.len() < padding {
            return Err(DecodeError(DecodeErrorKind::UnexpectedEof));
        }
        pos = pos + stream_offset(name);
        remaining -= 1;
    }
    if found.strings.is_none() {
        return Err(DecodeError(DecodeErrorKind::MissingStringsStream));
    }
    if found.blobs.is_none() {
        return Err(DecodeError(DecodeErrorKind::MissingBlobStream));
    }
    if found.guids.is_none() {
        return Err(DecodeError(DecodeErrorKind::MissingGuidStream));
    }
    if found.tables.is_none() {
        return Err(DecodeError(DecodeErrorKind::MissingTablesStream));
    }
    Ok(found)
}

} // verus!
