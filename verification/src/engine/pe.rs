#![allow(non_snake_case)]
#![allow(non_camel_case_types)]
use vstd::prelude::*;
use vstd::slice::slice_subrange;
use crate::engine::bytes::le_read_i32;
use crate::engine::bytes::read_u16_at;
use crate::engine::bytes::read_u32_at;
use crate::engine::bytes::spec_signed;
use crate::engine::bytes::spec_u16_le;
use crate::engine::bytes::spec_u32_le;
use crate::error::DecodeError;
use crate::error::DecodeErrorKind;

verus! {

/// The size of the DOS header that opens a PE image.
pub const DOS_HEADER_SIZE: usize = 64;

/// The size of the NT headers of a 32-bit PE image.
pub const NT_HEADERS_SIZE: usize = 248;

/// The size of one section header.
pub const SECTION_HEADER_SIZE: usize = 40;

/// The size of the CLI header.
pub const COR20_HEADER_SIZE: usize = 72;

/// The magic number of a DOS header, "MZ".
pub const DOS_SIGNATURE: u16 = 0x5A4D;

/// The magic number of a metadata root, "BSJB".
pub const METADATA_SIGNATURE: u32 = 0x424A5342;

/// What is read of the DOS header: its magic number and where the NT headers start.
#[derive(Clone, Copy, Debug, PartialEq, Eq, Structural)]
pub struct image_dos_header {
    pub e_magic: u16,
    pub e_lfanew: i32,
}

/// What is read of the file header: the number of section headers.
#[derive(Clone, Copy, Debug, PartialEq, Eq, Structural)]
pub struct image_file_header {
    pub NumberOfSections: u16,
}

/// An entry of the data directory: where a part of the image lies in memory.
#[derive(Clone, Copy, Debug, PartialEq, Eq, Structural)]
pub struct image_data_directory {
    pub VirtualAddress: u32,
    pub Size: u32,
}

/// What is read of the optional header: the entry of the data directory that
/// locates the CLI header.
#[derive(Clone, Copy, Debug, PartialEq, Eq, Structural)]
pub struct image_optional_header32 {
    pub ComDescriptor: image_data_directory,
}

/// The NT headers.
#[derive(Clone, Copy, Debug, PartialEq, Eq, Structural)]
pub struct image_nt_headers32 {
    pub Signature: u32,
    pub FileHeader: image_file_header,
    pub OptionalHeader: image_optional_header32,
}

/// What is read of a section header: where the section lies in memory and in the file.
#[derive(Clone, Copy, Debug, PartialEq, Eq, Structural)]
pub struct image_section_header {
    pub Union_PhysicalAddress_VirtualSize: u32,
    pub VirtualAddress: u32,
    pub SizeOfRawData: u32,
    pub PointerToRawData: u32,
}

/// What is read of the CLI header: its size and where the metadata lies in memory.
#[derive(Clone, Copy, Debug, PartialEq, Eq, Structural)]
pub struct image_cor20_header {
    pub cb: u32,
    pub MetaData: image_data_directory,
}

/// The DOS header at the start of `data`.
pub open spec fn spec_dos_header(data: Seq<u8>) -> image_dos_header {
    image_dos_header {
        e_magic: spec_u16_le(data, 0) as u16,
        e_lfanew: spec_signed(spec_u32_le(data, 60), 32) as i32,
    }
}

/// The data directory entry at `off`.
pub open spec fn spec_data_directory(data: Seq<u8>, off: int) -> image_data_directory {
    image_data_directory {
        VirtualAddress: spec_u32_le(data, off) as u32,
        Size: spec_u32_le(data, off + 4) as u32,
    }
}

/// The NT headers at `off`.
pub open spec fn spec_nt_headers(data: Seq<u8>, off: int) -> image_nt_headers32 {
    image_nt_headers32 {
        Signature: spec_u32_le(data, off) as u32,
        FileHeader: image_file_header { NumberOfSections: spec_u16_le(data, off + 6) as u16 },
        OptionalHeader: image_optional_header32 {
            ComDescriptor: spec_data_directory(data, off + 232),
        },
    }
}

/// The section header at `off`.
pub open spec fn spec_section_header(data: Seq<u8>, off: int) -> image_section_header {
    image_section_header {
        Union_PhysicalAddress_VirtualSize: spec_u32_le(data, off + 8) as u32,
        VirtualAddress: spec_u32_le(data, off + 12) as u32,
        SizeOfRawData: spec_u32_le(data, off + 16) as u32,
        PointerToRawData: spec_u32_le(data, off + 20) as u32,
    }
}

/// The `count` section headers that start at `base`.
pub open spec fn spec_sections(data: Seq<u8>, base: int, count: int) -> Seq<image_section_header> {
    Seq::new(count as nat, |i: int| spec_section_header(data, base + SECTION_HEADER_SIZE * i))
}

/// The CLI header at `off`.
pub open spec fn spec_cor20_header(data: Seq<u8>, off: int) -> image_cor20_header {
    image_cor20_header {
        cb: spec_u32_le(data, off) as u32,
        MetaData: spec_data_directory(data, off + 8),
    }
}

/// Whether the address `rva` lies in the memory range of `section`.
pub open spec fn spec_covers(section: image_section_header, rva: u32) -> bool {
    section.VirtualAddress <= rva && rva < section.VirtualAddress
        + section.Union_PhysicalAddress_VirtualSize
}

/// The index of the first section from `from` on that covers `rva`.
pub open spec fn spec_first_covering(sections: Seq<image_section_header>, rva: u32, from: int)
    -> Option<int>
    decreases sections.len() - from,
{
    if from < 0 || from >= sections.len() {
        None
    } else if spec_covers(sections[from], rva) {
        Some(from)
    } else {
        spec_first_covering(sections, rva, from + 1)
    }
}

/// The first section that covers `rva`.
pub open spec fn spec_section_from_rva(sections: Seq<image_section_header>, rva: u32) -> Option<
    image_section_header,
> {
    match spec_first_covering(sections, rva, 0) {
        Some(i) => Some(sections[i]),
        None => None,
    }
}

/// The first section covers `rva`, and none before it does.
pub proof fn lemma_first_covering(sections: Seq<image_section_header>, rva: u32, from: int)
    requires
        0 <= from <= sections.len(),
    ensures
        spec_first_covering(sections, rva, from) matches Some(i) ==> from <= i < sections.len()
            && spec_covers(sections[i], rva) && forall|j: int|
            from <= j < i ==> !spec_covers(sections[j], rva),
        spec_first_covering(sections, rva, from) is None ==> forall|j: int|
            from <= j < sections.len() ==> !spec_covers(sections[j], rva),
    decreases sections.len() - from,
{
    if from < sections.len() && !spec_covers(sections[from], rva) {
        lemma_first_covering(sections, rva, from + 1);
    }
}

/// The first of `sections` whose memory range holds the address `rva`.
pub fn section_from_rva<'a>(sections: &'a [image_section_header], rva: u32) -> (r: Option<
    &'a image_section_header,
>)
    ensures
        r is Some == spec_section_from_rva(sections@, rva) is Some,
        r matches Some(s) ==> Some(*s) == spec_section_from_rva(sections@, rva) && spec_covers(
            *s,
            rva,
        ),
{
    let mut i: usize = 0;
    while i < sections.len()
        invariant
            i <= sections@.len(),
            spec_first_covering(sections@, rva, 0) == spec_first_covering(sections@, rva, i as int),
        decreases sections@.len() - i,
    {
        let s = &sections[i];
        if s.VirtualAddress <= rva && (rva - s.VirtualAddress)
            < s.Union_PhysicalAddress_VirtualSize {
            return Some(s);
        }
        i += 1;
    }
    None
}

/// Where in the file the address `rva` of `section` lies.
pub open spec fn spec_offset_from_rva(section: image_section_header, rva: u32) -> int {
    rva - section.VirtualAddress + section.PointerToRawData
}

/// Where in the file the address `rva` lies, for a section that covers it.
pub fn offset_from_rva(section: &image_section_header, rva: u32) -> (r: u64)
    requires
        section.VirtualAddress <= rva,
    ensures
        r == spec_offset_from_rva(*section, rva),
{
    (rva - section.VirtualAddress) as u64 + section.PointerToRawData as u64
}

/// Where the metadata root of the image `data` starts, or why the image has none.
pub open spec fn spec_locate_metadata(data: Seq<u8>) -> Result<int, DecodeErrorKind> {
    let dos = spec_dos_header(data);
    let nt_off = dos.e_lfanew as int;
    let nt = spec_nt_headers(data, nt_off);
    let count = nt.FileHeader.NumberOfSections as int;
    let sections = spec_sections(data, nt_off + NT_HEADERS_SIZE, count);
    let com_rva = nt.OptionalHeader.ComDescriptor.VirtualAddress;
    if data.len() < DOS_HEADER_SIZE {
        Err(DecodeErrorKind::UnexpectedEof)
    } else if dos.e_magic != DOS_SIGNATURE {
        Err(DecodeErrorKind::InvalidDosSignature)
    } else if nt_off < 0 || data.len() < nt_off + NT_HEADERS_SIZE {
        Err(DecodeErrorKind::UnexpectedEof)
    } else if count == 0 || count > 100 {
        Err(DecodeErrorKind::InvalidPeSectionCount)
    } else if data.len() < nt_off + NT_HEADERS_SIZE + SECTION_HEADER_SIZE * count {
        Err(DecodeErrorKind::UnexpectedEof)
    } else {
        match spec_section_from_rva(sections, com_rva) {
            None => Err(DecodeErrorKind::MissingCliHeaderSection),
            Some(s) => {
                let cli_off = spec_offset_from_rva(s, com_rva);
                let cli = spec_cor20_header(data, cli_off);
                if data.len() < cli_off + COR20_HEADER_SIZE {
                    Err(DecodeErrorKind::UnexpectedEof)
                } else if cli.cb != COR20_HEADER_SIZE {
                    Err(DecodeErrorKind::InvalidCliHeader)
                } else {
                    match spec_section_from_rva(sections, cli.MetaData.VirtualAddress) {
                        None => Err(DecodeErrorKind::MissingMetadataSection),
                        Some(m) => {
                            let root = spec_offset_from_rva(m, cli.MetaData.VirtualAddress);
                            if data.len() < root + 4 {
                                Err(DecodeErrorKind::UnexpectedEof)
                            } else if spec_u32_le(data, root) != METADATA_SIGNATURE {
                                Err(DecodeErrorKind::InvalidMetadataSignature)
                            } else {
                                Ok(root)
                            }
                        },
                    }
                }
            },
        }
    }
}

/// The DOS header of an image of at least 64 bytes.
pub fn read_dos_header(data: &[u8]) -> (r: image_dos_header)
    requires
        data@.len() >= DOS_HEADER_SIZE,
    ensures
        r == spec_dos_header(data@),
{
    let magic = read_u16_at(data, 0).unwrap();
    let tail = slice_subrange(data, 60, 64);
    let lfanew = le_read_i32(tail);
    proof {
        vstd::arithmetic::power2::lemma2_to64();
        crate::engine::bytes::lemma_le_bounds(data@, 0);
        crate::engine::bytes::lemma_le_bounds(data@, 60);
        assert(spec_u32_le(tail@, 0) == spec_u32_le(data@, 60));
    }
    image_dos_header { e_magic: magic, e_lfanew: lfanew }
}

/// The data directory entry at `off`.
pub fn read_data_directory(data: &[u8], off: usize) -> (r: image_data_directory)
    requires
        off + 8 <= data@.len(),
    ensures
        r == spec_data_directory(data@, off as int),
{
    let total = data.len();
    assert(off + 8 <= total);
    let va = read_u32_at(data, off).unwrap();
    let size = read_u32_at(data, off + 4).unwrap();
    image_data_directory { VirtualAddress: va, Size: size }
}

/// The NT headers at `off`.
pub fn read_nt_headers(data: &[u8], off: usize) -> (r: image_nt_headers32)
    requires
        off + NT_HEADERS_SIZE <= data@.len(),
    ensures
        r == spec_nt_headers(data@, off as int),
{
    let total = data.len();
    assert(off + NT_HEADERS_SIZE <= total);
    let signature = read_u32_at(data, off).unwrap();
    let count = read_u16_at(data, off + 6).unwrap();
    let com = read_data_directory(data, off + 232);
    image_nt_headers32 {
        Signature: signature,
        FileHeader: image_file_header { NumberOfSections: count },
        OptionalHeader: image_optional_header32 { ComDescriptor: com },
    }
}

/// The section header at `off`.
pub fn read_section_header(data: &[u8], off: usize) -> (r: image_section_header)
    requires
        off + SECTION_HEADER_SIZE <= data@.len(),
    ensures
        r == spec_section_header(data@, off as int),
{
    let total = data.len();
    assert(off + SECTION_HEADER_SIZE <= total);
    let vsize = read_u32_at(data, off + 8).unwrap();
    let va = read_u32_at(data, off + 12).unwrap();
    let raw_size = read_u32_at(data, off + 16).unwrap();
    let raw = read_u32_at(data, off + 20).unwrap();
    image_section_header {
        Union_PhysicalAddress_VirtualSize: vsize,
        VirtualAddress: va,
        SizeOfRawData: raw_size,
        PointerToRawData: raw,
    }
}

/// The `count` section headers that start at `base`.
pub fn read_sections(data: &[u8], base: usize, count: usize) -> (r: Vec<image_section_header>)
    requires
        base + SECTION_HEADER_SIZE * count <= data@.len(),
    ensures
        r@ == spec_sections(data@, base as int, count as int),
{
    let mut sections: Vec<image_section_header> = Vec::new();
    let mut i: usize = 0;
    let total = data.len();
    while i < count
        invariant
            i <= count,
            base + SECTION_HEADER_SIZE * count <= data@.len(),
            total == data@.len(),
            sections@.len() == i,
            forall|j: int|
                0 <= j < i ==> sections@[j] == spec_section_header(
                    data@,
                    base + SECTION_HEADER_SIZE * j,
                ),
        decreases count - i,
    {
        sections.push(read_section_header(data, base + SECTION_HEADER_SIZE * i));
        i += 1;
    }
    assert(sections@ =~= spec_sections(data@, base as int, count as int));
    sections
}

/// The CLI header at `off`.
pub fn read_cor20_header(data: &[u8], off: usize) -> (r: image_cor20_header)
    requires
        off + COR20_HEADER_SIZE <= data@.len(),
    ensures
        r == spec_cor20_header(data@, off as int),
{
    let total = data.len();
    assert(off + COR20_HEADER_SIZE <= total);
    let cb = read_u32_at(data, off).unwrap();
    let metadata = read_data_directory(data, off + 8);
    image_cor20_header { cb: cb, MetaData: metadata }
}

/// Finds the metadata root of a PE image: through the DOS header, the NT
/// headers, the section that holds the CLI header, and the section that
/// holds the metadata.
pub fn locate_metadata(data: &[u8]) -> (r: Result<usize, DecodeError>)
    ensures
        match spec_locate_metadata(data@) {
            Ok(root) => r matches Ok(v) && v == root && root + 4 <= data@.len(),
            Err(kind) => r == Err::<usize, DecodeError>(DecodeError(kind)),
        },
{
    let len = data.len();
    if len < DOS_HEADER_SIZE {
        return Err(DecodeError(DecodeErrorKind::UnexpectedEof));
    }
    let dos = read_dos_header(data);
    if dos.e_magic != DOS_SIGNATURE {
        return Err(DecodeError(DecodeErrorKind::InvalidDosSignature));
    }
    if dos.e_lfanew < 0 {
        return Err(DecodeError(DecodeErrorKind::UnexpectedEof));
    }
    let nt_off64 = dos.e_lfanew as u64;
    if (len as u64) < nt_off64 + NT_HEADERS_SIZE as u64 {
        return Err(DecodeError(DecodeErrorKind::UnexpectedEof));
    }
    let nt_off = nt_off64 as usize;
    let nt = read_nt_headers(data, nt_off);
    let count = nt.FileHeader.NumberOfSections;
    if count == 0 || count > 100 {
        return Err(DecodeError(DecodeErrorKind::InvalidPeSectionCount));
    }
    if (len as u64) < nt_off64 + NT_HEADERS_SIZE as u64 + SECTION_HEADER_SIZE as u64 * count as u64 {
        return Err(DecodeError(DecodeErrorKind::UnexpectedEof));
    }
    let sections = read_sections(data, nt_off + NT_HEADERS_SIZE, count as usize);
    let com_rva = nt.OptionalHeader.ComDescriptor.VirtualAddress;
    let section = match section_from_rva(sections.as_slice(), com_rva) {
        None => {
            return Err(DecodeError(DecodeErrorKind::MissingCliHeaderSection));
        },
        Some(s) => s,
    };
    let cli_off64 = offset_from_rva(section, com_rva);
    if (len as u64) < cli_off64 + COR20_HEADER_SIZE as u64 {
        return Err(DecodeError(DecodeErrorKind::UnexpectedEof));
    }
    let cli = read_cor20_header(data, cli_off64 as usize);
    if cli.cb != COR20_HEADER_SIZE as u32 {
        return Err(DecodeError(DecodeErrorKind::InvalidCliHeader));
    }
    let md_rva = cli.MetaData.VirtualAddress;
    let section = match section_from_rva(sections.as_slice(), md_rva) {
        None => {
            return Err(DecodeError(DecodeErrorKind::MissingMetadataSection));
        },
        Some(s) => s,
    };
    let root64 = offset_from_rva(section, md_rva);
    if (len as u64) < root64 + 4 {
        return Err(DecodeError(DecodeErrorKind::UnexpectedEof));
    }
    let root = root64 as usize;
    let magic = read_u32_at(data, root).unwrap();
    if magic != METADATA_SIGNATURE {
        return Err(DecodeError(DecodeErrorKind::InvalidMetadataSignature));
    }
    Ok(root)
}

/// Whether `data` is a PE image that holds CLI metadata: whether its headers
/// lead to a metadata root with the right magic number. Nothing beyond the
/// root is looked at.
pub fn is_database(data: &[u8]) -> (r: bool)
    ensures
        r == spec_locate_metadata(data@) is Ok,
{
    match locate_metadata(data) {
        Ok(_) => true,
        Err(_) => false,
    }
}

} // verus!
