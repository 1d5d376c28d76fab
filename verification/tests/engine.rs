use climeta::engine::bytes::as_c_str;
use climeta::engine::bytes::as_string;
use climeta::engine::bytes::get_bit_u16;
use climeta::engine::bytes::get_bit_u32;
use climeta::engine::bytes::read_u16_at;
use climeta::engine::bytes::read_u32_at;
use climeta::engine::bytes::read_u64_at;
use climeta::engine::bytes::read_u8_at;
use climeta::engine::bytes::sub_slice;
use climeta::cache::hash_names;
use climeta::engine::columns::columns;
use climeta::engine::database::read_guid;
use climeta::engine::columns::heap_index_size;
use climeta::engine::columns::layout;
use climeta::engine::columns::needs_4byte_index;
use climeta::engine::columns::width;
use climeta::engine::columns::Column;
use climeta::engine::columns::ColumnType;
use climeta::engine::columns::DynamicSize;
use climeta::engine::compressed::read_compressed;
use climeta::engine::tables::read_row_counts;
use climeta::engine::tables::table_present;
use climeta::engine::tables::Tables;
use climeta::engine::pe::image_section_header;
use climeta::engine::pe::locate_metadata;
use climeta::engine::pe::offset_from_rva;
use climeta::engine::pe::read_cor20_header;
use climeta::engine::pe::read_dos_header;
use climeta::engine::pe::read_nt_headers;
use climeta::engine::pe::read_sections;
use climeta::engine::pe::section_from_rva;
use climeta::engine::search::equal_range_with;
use climeta::engine::search::lower_bound_with;
use climeta::engine::streams::find_streams;
use climeta::engine::streams::stream_kind;
use climeta::engine::streams::stream_offset;
use climeta::engine::streams::StreamKind;
use climeta::engine::table::TableInfo;
use climeta::schema::constants::valid_utf16;
use climeta::schema::custom_attributes::read_ser_string;
use climeta::schema::custom_attributes::split_name;
use climeta::schema::signatures::primitive;
use climeta::schema::types::bytes_eq;
use climeta::schema::types::str_eq;
use climeta::schema::PrimitiveType;
use climeta::schema::PrimitiveValue;
use climeta::CodedIndexKind;
use climeta::DecodeError;
use climeta::DecodeErrorKind;
use climeta::TableId;

#[test]
fn little_endian_reads() {
    let data = [0x01u8, 0x02, 0x03, 0x04, 0x05, 0x06, 0x07, 0x08, 0x09];
    assert_eq!(read_u8_at(&data, 8), Some(9));
    assert_eq!(read_u8_at(&data, 9), None);
    assert_eq!(read_u16_at(&data, 0), Some(0x0201));
    assert_eq!(read_u16_at(&data, 7), Some(0x0908));
    assert_eq!(read_u16_at(&data, 8), None);
    assert_eq!(read_u16_at(&data, usize::MAX), None);
    assert_eq!(read_u32_at(&data, 1), Some(0x0504_0302));
    assert_eq!(read_u32_at(&data, 5), Some(0x0908_0706));
    assert_eq!(read_u32_at(&data, 6), None);
    assert_eq!(read_u64_at(&data, 1), Some(0x0908_0706_0504_0302));
    assert_eq!(read_u64_at(&data, 2), None);
    assert_eq!(read_u32_at(&[0xff, 0xff, 0xff, 0xff], 0), Some(u32::MAX));
    assert_eq!(read_u64_at(&[0xff; 8], 0), Some(u64::MAX));
}

#[test]
fn primitive_values_are_read_at_a_position() {
    let data = [0xaa, 0xfe, 0xff, 0xff, 0xff, 0xff, 0xff, 0xff, 0x7f];
    let value = |t: PrimitiveType, pos: usize| t.parse_value(&data, pos);
    assert_eq!(value(PrimitiveType::I1, 1), Ok((PrimitiveValue::Int8(-2), 2)));
    assert_eq!(value(PrimitiveType::I1, 8), Ok((PrimitiveValue::Int8(127), 9)));
    assert_eq!(value(PrimitiveType::I1, 0), Ok((PrimitiveValue::Int8(-86), 1)));
    assert_eq!(value(PrimitiveType::I2, 1), Ok((PrimitiveValue::Int16(-2), 3)));
    assert_eq!(value(PrimitiveType::I2, 7), Ok((PrimitiveValue::Int16(0x7fff), 9)));
    assert_eq!(value(PrimitiveType::I4, 1), Ok((PrimitiveValue::Int32(-2), 5)));
    assert_eq!(value(PrimitiveType::I4, 5), Ok((PrimitiveValue::Int32(0x7fff_ffff), 9)));
    assert_eq!(value(PrimitiveType::I8, 1), Ok((PrimitiveValue::Int64(0x7fff_ffff_ffff_fffe), 9)));
    assert_eq!(value(PrimitiveType::I8, 0), Ok((PrimitiveValue::Int64(-342), 8)));
    assert_eq!(value(PrimitiveType::U2, 0), Ok((PrimitiveValue::UInt16(0xfeaa), 2)));
    assert_eq!(value(PrimitiveType::Char, 0), Ok((PrimitiveValue::Char(0xfeaa), 2)));
    assert_eq!(value(PrimitiveType::Boolean, 0), Ok((PrimitiveValue::Boolean(true), 1)));
    assert_eq!(value(PrimitiveType::R4, 5), Ok((PrimitiveValue::Float32(0x7fff_ffff), 9)));
    assert_eq!(value(PrimitiveType::I8, 2), Err(DecodeError(DecodeErrorKind::UnexpectedEof)));
    assert_eq!(value(PrimitiveType::U1, 9), Err(DecodeError(DecodeErrorKind::UnexpectedEof)));
    assert_eq!(value(PrimitiveType::U1, 10), Err(DecodeError(DecodeErrorKind::UnexpectedEof)));
    assert_eq!(value(PrimitiveType::I, 0), Err(DecodeError(DecodeErrorKind::UnsupportedSignature)));
    assert_eq!(value(PrimitiveType::U, 0), Err(DecodeError(DecodeErrorKind::UnsupportedSignature)));
    assert_eq!(primitive(0x02), Some(PrimitiveType::Boolean));
    assert_eq!(primitive(0x0d), Some(PrimitiveType::R8));
    assert_eq!(primitive(0x18), Some(PrimitiveType::I));
    assert_eq!(primitive(0x19), Some(PrimitiveType::U));
    assert_eq!(primitive(0x01), None);
    assert_eq!(primitive(0x0e), None);
}

#[test]
fn byte_views() {
    let data = b"ab\0cd";
    assert_eq!(as_c_str(data, 0), b"ab");
    assert_eq!(as_c_str(data, 1), b"b");
    assert_eq!(as_c_str(data, 2), b"");
    assert_eq!(as_c_str(data, 3), b"cd");
    assert_eq!(as_c_str(data, 5), b"");
    assert_eq!(sub_slice(data, 1, 3), b"b\0c");
    assert_eq!(sub_slice(data, 5, 0), b"");
    assert_eq!(as_string(&[3, 1, 2, 3, 4], 0), Some(&[1u8, 2, 3][..]));
    assert_eq!(as_string(&[0, 1], 0), Some(&[][..]));
    assert_eq!(as_string(&[9, 0xff], 1), None);
    assert_eq!(as_string(&[9, 1, 7], 1), Some(&[7u8][..]));
    assert!(get_bit_u16(0x8000, 15) && !get_bit_u16(0x7fff, 15) && get_bit_u16(1, 0));
    assert!(get_bit_u32(0x8000_0000, 31) && !get_bit_u32(0x8000_0000, 30));
    assert!(bytes_eq(b"abc", b"abc") && !bytes_eq(b"abc", b"abd") && !bytes_eq(b"abc", b"ab"));
    assert!(bytes_eq(b"", b""));
    assert!(str_eq("System", "System") && !str_eq("System", "system") && !str_eq("", "a"));
}

fn encode(value: u32, width: usize) -> Vec<u8> {
    match width {
        1 => vec![value as u8],
        2 => vec![0x80 | (value >> 8) as u8, value as u8],
        _ => vec![0xc0 | (value >> 24) as u8, (value >> 16) as u8, (value >> 8) as u8, value as u8],
    }
}

#[test]
fn compressed_integers_round_trip() {
    let cases: [(&[u8], u32); 9] = [
        (&[0x00], 0),
        (&[0x03], 3),
        (&[0x7f], 0x7f),
        (&[0x80, 0x80], 0x80),
        (&[0x80, 0x00], 0),
        (&[0xae, 0x57], 0x2e57),
        (&[0xbf, 0xff], 0x3fff),
        (&[0xc0, 0x00, 0x40, 0x00], 0x4000),
        (&[0xdf, 0xff, 0xff, 0xff], 0x1fff_ffff),
    ];
    for (bytes, value) in cases {
        let mut padded = vec![0x55];
        padded.extend_from_slice(bytes);
        padded.push(0x99);
        let (found, next) = read_compressed(&padded, 1).unwrap();
        assert_eq!(found, value);
        assert_eq!(next, 1 + bytes.len());
        assert_eq!(encode(found, bytes.len()), bytes);
    }
    for value in [0u32, 1, 0x7f, 0x80, 0x3fff, 0x4000, 0x1fff_ffff] {
        for width in [1usize, 2, 4] {
            let fits = match width {
                1 => value <= 0x7f,
                2 => value <= 0x3fff,
                _ => true,
            };
            if fits {
                assert_eq!(read_compressed(&encode(value, width), 0), Ok((value, width)));
            }
        }
    }
    let eof = Err(DecodeError(DecodeErrorKind::UnexpectedEof));
    let invalid = Err(DecodeError(DecodeErrorKind::InvalidCompressedInteger));
    assert_eq!(read_compressed(&[], 0), eof);
    assert_eq!(read_compressed(&[0x01], 1), eof);
    assert_eq!(read_compressed(&[0x01], 5), eof);
    assert_eq!(read_compressed(&[0x80], 0), eof);
    assert_eq!(read_compressed(&[0xc0, 0, 0], 0), eof);
    assert_eq!(read_compressed(&[0xe0, 0, 0, 0], 0), invalid);
    assert_eq!(read_compressed(&[0xff], 0), invalid);
    assert_eq!(read_compressed(&[0xf0, 0, 0, 0, 0], 0), invalid);
}

#[test]
fn serialized_strings_and_names() {
    assert_eq!(read_ser_string(&[0x02, b'h', b'i', 0x99], 0), Ok((Some("hi"), 3)));
    assert_eq!(read_ser_string(&[0x00], 0), Ok((Some(""), 1)));
    assert_eq!(read_ser_string(&[0x01, 0xff, 0x01], 1), Ok((None, 2)));
    assert_eq!(
        read_ser_string(&[0x03, b'h', b'i'], 0),
        Err(DecodeError(DecodeErrorKind::UnexpectedEof))
    );
    assert_eq!(read_ser_string(&[], 0), Err(DecodeError(DecodeErrorKind::UnexpectedEof)));
    assert_eq!(
        read_ser_string(&[0x01, 0x80], 0),
        Err(DecodeError(DecodeErrorKind::InvalidUtf8))
    );
    assert_eq!(
        read_ser_string(&[0xe1, 0x80], 0),
        Err(DecodeError(DecodeErrorKind::InvalidCompressedInteger))
    );
    let mut long = vec![0x80, 0xff];
    long.extend_from_slice(&[b'a'; 255]);
    assert_eq!(read_ser_string(&long, 0).unwrap().0.unwrap().len(), 255);
    assert_eq!(split_name(b"Windows.Foundation.Point"), (&b"Windows.Foundation"[..], &b"Point"[..]));
    assert_eq!(split_name(b"Point"), (&b""[..], &b"Point"[..]));
    assert_eq!(split_name(b".Point"), (&b""[..], &b"Point"[..]));
    assert_eq!(split_name(b"A."), (&b"A"[..], &b""[..]));
    assert_eq!(split_name(b""), (&b""[..], &b""[..]));
    assert_eq!(split_name(b"."), (&b""[..], &b""[..]));
    assert!(valid_utf16(&[0x41, 0x00]) && valid_utf16(&[]) && valid_utf16(&[0x41]));
    assert!(valid_utf16(&[0x3d, 0xd8, 0x00, 0xde, 0x41, 0x00]));
    assert!(!valid_utf16(&[0x00, 0xde, 0x3d, 0xd8]));
    assert!(!valid_utf16(&[0x3d, 0xd8, 0x3d, 0xd8, 0x00, 0xde]));
}

#[test]
fn searches_over_other_ranges() {
    let slice = [1u32, 3, 3, 3, 5, 7, 7, 9];
    for x in 0..11u32 {
        let lower = slice.iter().filter(|v| **v < x).count();
        let upper = slice.iter().filter(|v| **v <= x).count();
        assert_eq!(lower_bound_with(0, slice.len(), |i| slice[i], x), lower);
        assert_eq!(equal_range_with(0, slice.len(), |i| slice[i], x), (lower, upper));
    }
    assert_eq!(lower_bound_with(2, 6, |i| slice[i], 0), 2);
    assert_eq!(lower_bound_with(2, 6, |i| slice[i], 100), 6);
    assert_eq!(equal_range_with(2, 3, |i| slice[i], 3), (2, 3));
    assert_eq!(equal_range_with(0, 1, |i| slice[i], 1), (0, 1));
    // a range that is not sorted still gives a range within its bounds
    let unsorted = [5u32, 1, 4, 1, 5];
    let (a, b) = equal_range_with(0, 5, |i| unsorted[i], 4);
    assert!(a <= b && b <= 5);
}

#[test]
fn pe_sections() {
    let section = |va, size, raw| image_section_header {
        Union_PhysicalAddress_VirtualSize: size,
        VirtualAddress: va,
        SizeOfRawData: size,
        PointerToRawData: raw,
    };
    let sections = [section(0x1000, 0x200, 0x400), section(0x2000, 0x10, 0x600), section(0x1100, 0x1000, 0x800)];
    assert!(section_from_rva(&sections, 0x0fff).is_none());
    assert_eq!(section_from_rva(&sections, 0x1000), Some(&sections[0]));
    assert_eq!(section_from_rva(&sections, 0x11ff), Some(&sections[0]));
    assert_eq!(section_from_rva(&sections, 0x1200), Some(&sections[2]));
    assert_eq!(section_from_rva(&sections, 0x2000), Some(&sections[1]));
    assert_eq!(section_from_rva(&sections, 0x200f), Some(&sections[1]));
    assert_eq!(section_from_rva(&sections, 0x2010), Some(&sections[2]));
    assert!(section_from_rva(&sections, 0x2100).is_none());
    assert!(section_from_rva(&[], 0).is_none());
    let wide = [section(0xffff_fff0, 0x100, 0)];
    assert_eq!(section_from_rva(&wide, 0xffff_ffff), Some(&wide[0]));
    assert!(section_from_rva(&wide, 0).is_none());
    assert_eq!(offset_from_rva(&sections[0], 0x1010), 0x410);
    assert_eq!(offset_from_rva(&sections[1], 0x2000), 0x600);
    assert_eq!(offset_from_rva(&section(0, 0xffff_ffff, 0xffff_ffff), 0xffff_ffff), 0x1_ffff_fffe);
}

#[test]
fn pe_headers() {
    let mut data = vec![0u8; 1024];
    data[0] = b'M';
    data[1] = b'Z';
    data[60] = 0x80;
    let dos = read_dos_header(&data);
    assert_eq!(dos.e_magic, 0x5A4D);
    assert_eq!(dos.e_lfanew, 0x80);
    data[60..64].copy_from_slice(&(-3i32).to_le_bytes());
    assert_eq!(read_dos_header(&data).e_lfanew, -3);
    assert_eq!(locate_metadata(&data), Err(DecodeError(DecodeErrorKind::UnexpectedEof)));
    data[0x80..0x84].copy_from_slice(b"PE\0\0");
    data[0x86] = 3;
    data[0x80 + 232..0x80 + 236].copy_from_slice(&0x1234u32.to_le_bytes());
    data[0x80 + 236..0x80 + 240].copy_from_slice(&72u32.to_le_bytes());
    let nt = read_nt_headers(&data, 0x80);
    assert_eq!(nt.Signature, 0x4550);
    assert_eq!(nt.FileHeader.NumberOfSections, 3);
    assert_eq!(nt.OptionalHeader.ComDescriptor.VirtualAddress, 0x1234);
    assert_eq!(nt.OptionalHeader.ComDescriptor.Size, 72);
    for i in 0..3u8 {
        let at = 0x200 + 40 * i as usize;
        data[at + 8] = 1 + i;
        data[at + 12] = 2 + i;
        data[at + 16] = 3 + i;
        data[at + 20] = 4 + i;
    }
    let sections = read_sections(&data, 0x200, 3);
    assert_eq!(sections.len(), 3);
    assert_eq!(sections[2].Union_PhysicalAddress_VirtualSize, 3);
    assert_eq!(sections[2].VirtualAddress, 4);
    assert_eq!(sections[2].SizeOfRawData, 5);
    assert_eq!(sections[2].PointerToRawData, 6);
    assert!(read_sections(&data, 0x200, 0).is_empty());
    data[0x300] = 72;
    data[0x308] = 0x44;
    data[0x30c] = 0x55;
    let cli = read_cor20_header(&data, 0x300);
    assert_eq!((cli.cb, cli.MetaData.VirtualAddress, cli.MetaData.Size), (72, 0x44, 0x55));
}

#[test]
fn stream_headers() {
    assert_eq!(stream_kind(b"#Strings"), StreamKind::Strings);
    assert_eq!(stream_kind(b"#Blob"), StreamKind::Blob);
    assert_eq!(stream_kind(b"#GUID"), StreamKind::Guid);
    assert_eq!(stream_kind(b"#~"), StreamKind::Tables);
    assert_eq!(stream_kind(b"#US"), StreamKind::UserStrings);
    for other in [&b""[..], b"#", b"#-", b"#Strings2", b"#String", b"#blob", b"#GUIE", b"#Us", b"~#"] {
        assert_eq!(stream_kind(other), StreamKind::Unknown);
    }
    assert_eq!(stream_offset(b"#~"), 12);
    assert_eq!(stream_offset(b"#US"), 12);
    assert_eq!(stream_offset(b"#Blob"), 16);
    assert_eq!(stream_offset(b"#Strings"), 20);
    assert_eq!(stream_offset(b""), 12);
    assert_eq!(stream_offset(b"1234567"), 16);
    // the later of two streams with one name is the one that counts; the
    // root starts at 4 and its version has no length
    let mut image = vec![0u8; 4 + 16];
    image.extend_from_slice(&[0, 0, 5, 0]);
    for (name, offset, size) in
        [("#~", 1u8, 2u8), ("#Strings", 3, 4), ("#Blob", 5, 6), ("#GUID", 7, 8), ("#~", 9, 10)]
    {
        image.extend_from_slice(&[offset, 0, 0, 0, size, 0, 0, 0]);
        image.extend_from_slice(name.as_bytes());
        image.extend(std::iter::repeat(0).take(4 - name.len() % 4));
    }
    let found = find_streams(&image, 4).unwrap();
    assert_eq!((found.tables.unwrap().start, found.tables.unwrap().size), (4 + 9, 10));
    assert_eq!((found.strings.unwrap().start, found.strings.unwrap().size), (4 + 3, 4));
    assert_eq!((found.blobs.unwrap().start, found.blobs.unwrap().size), (4 + 5, 6));
    assert_eq!((found.guids.unwrap().start, found.guids.unwrap().size), (4 + 7, 8));
    assert_eq!(find_streams(&image, image.len()), Err(DecodeError(DecodeErrorKind::UnexpectedEof)));
}

#[test]
fn table_layout() {
    let (cols, size) = layout(&vec![4, 2, 2, 4, 2, 8]);
    assert_eq!(size, 22);
    let offsets: Vec<u8> = cols.iter().map(|c| c.offset).collect();
    let sizes: Vec<u8> = cols.iter().map(|c| c.size).collect();
    assert_eq!(offsets, vec![0, 4, 6, 8, 12, 14]);
    assert_eq!(sizes, vec![4, 2, 2, 4, 2, 8]);
    assert_eq!(layout(&vec![]), (vec![], 0));
    assert_eq!(layout(&vec![8]), (vec![Column { offset: 0, size: 8 }], 8));
    assert_eq!(
        columns(TableId::TypeDef),
        vec![
            ColumnType::Fixed4,
            ColumnType::StringIndex,
            ColumnType::StringIndex,
            ColumnType::Coded(CodedIndexKind::TypeDefOrRef),
            ColumnType::Index(TableId::Field),
            ColumnType::Index(TableId::MethodDef),
        ]
    );
    assert_eq!(
        columns(TableId::CustomAttribute),
        vec![
            ColumnType::Coded(CodedIndexKind::HasCustomAttribute),
            ColumnType::Coded(CodedIndexKind::CustomAttributeType),
            ColumnType::BlobIndex,
        ]
    );
    assert_eq!(columns(TableId::Module).len(), 5);
    assert_eq!(columns(TableId::Assembly)[1], ColumnType::Fixed8);
    let counts = vec![0u32; 45];
    for bit in 0..3u8 {
        assert_eq!(heap_index_size(1 << bit, bit), DynamicSize::Size4);
        assert_eq!(heap_index_size(!(1 << bit), bit), DynamicSize::Size2);
    }
    assert_eq!(width(ColumnType::StringIndex, 1, &counts), 4);
    assert_eq!(width(ColumnType::GuidIndex, 1, &counts), 2);
    assert_eq!(width(ColumnType::GuidIndex, 2, &counts), 4);
    assert_eq!(width(ColumnType::BlobIndex, 3, &counts), 2);
    assert_eq!(width(ColumnType::BlobIndex, 4, &counts), 4);
    assert_eq!(width(ColumnType::Fixed8, 7, &counts), 8);
    assert_eq!(width(ColumnType::Index(TableId::Field), 7, &counts), 2);
    assert!(!needs_4byte_index(0x7fff, 1) && needs_4byte_index(0x8000, 1));
    assert!(!needs_4byte_index(0x3fff, 2) && needs_4byte_index(0x4000, 2));
    assert!(!needs_4byte_index(0x1fff, 3) && needs_4byte_index(0x2000, 3));
    assert!(!needs_4byte_index(0x7ff, 5) && needs_4byte_index(0x800, 5));
    assert_eq!(DynamicSize::Size2.size(), 2);
    assert_eq!(DynamicSize::Size4.size(), 4);
    assert_eq!(DynamicSize::default(), DynamicSize::Unset);
}

#[test]
fn table_info_steps() {
    let mut info = TableInfo::default();
    assert_eq!((info.len(), info.m_row_size, info.m_columns.len()), (0, 0, 0));
    assert!(info.m_data.is_none());
    info.set_row_count(2);
    assert_eq!(info.index_size(), DynamicSize::Size2);
    info.set_columns(&vec![2, 4, 8]);
    assert_eq!(info.m_row_size, 14);
    let bytes: Vec<u8> = (0..30).collect();
    let rest = info.set_data(&bytes);
    assert_eq!(rest, &[28, 29]);
    assert_eq!(info.m_data.unwrap().len(), 28);
    assert_eq!(info.get_value(0, 0), Ok(0x0100));
    assert_eq!(info.get_value(1, 0), Ok(0x0504_0302));
    assert_eq!(info.get_value(2, 0), Ok(0x0d0c_0b0a_0908_0706));
    assert_eq!(info.get_value(0, 1), Ok(0x0f0e));
    assert_eq!(info.get_value(2, 1), Ok(0x1b1a_1918_1716_1514));
    assert_eq!(info.get_value(0, 2), Err(DecodeError(DecodeErrorKind::InvalidRowIndex)));
    let mut empty = TableInfo::default();
    empty.set_columns(&vec![2]);
    assert_eq!(empty.set_data(&bytes).len(), 30);
    assert_eq!(empty.m_data, Some(&[][..]));
    let mut long = TableInfo::default();
    long.set_row_count(0x1_0000);
    assert_eq!(long.index_size(), DynamicSize::Size4);
    long.set_row_count(0xffff);
    assert_eq!(long.index_size(), DynamicSize::Size2);
}

#[test]
fn tables_stream_passes() {
    assert!(table_present(0b101, 0) && !table_present(0b101, 1) && table_present(1 << 63, 63));
    let mut stream = vec![0u8; 24];
    stream[6] = 0;
    stream[8] = 0b0000_0101; // Module and TypeDef
    stream.extend_from_slice(&[1, 0, 0, 0, 2, 0, 0, 0]);
    let (counts, pos) = read_row_counts(&stream, 0b101).unwrap();
    assert_eq!(pos, 32);
    assert_eq!(counts.len(), 45);
    assert_eq!((counts[0], counts[1], counts[2]), (1, 0, 2));
    assert_eq!(read_row_counts(&stream, 0b111), Err(DecodeError(DecodeErrorKind::UnexpectedEof)));
    assert_eq!(read_row_counts(&stream, 0b1001), Err(DecodeError(DecodeErrorKind::UnknownTable)));
    // one row of ten bytes and two rows of fourteen
    let rows: Vec<u8> = (1..=38).collect();
    stream.extend_from_slice(&rows);
    stream.push(0xcc);
    let tables = Tables::parse(&stream).ok().unwrap();
    let module = tables.get_table_info(TableId::Module);
    assert_eq!((module.len(), module.m_row_size), (1, 10));
    assert_eq!(module.m_data.unwrap(), &rows[..10]);
    let type_def = tables.get_table_info(TableId::TypeDef);
    assert_eq!((type_def.len(), type_def.m_row_size), (2, 14));
    assert_eq!(type_def.m_data.unwrap(), &rows[10..]);
    assert_eq!(type_def.get_value(5, 1), Ok(0x2625));
    let type_ref = tables.get_table_info(TableId::TypeRef);
    assert_eq!((type_ref.len(), type_ref.m_row_size), (0, 6));
    assert_eq!(type_ref.m_data, Some(&[][..]));
    stream.truncate(24 + 8 + 37);
    assert_eq!(Tables::parse(&stream).err(), Some(DecodeError(DecodeErrorKind::UnexpectedEof)));
}

#[test]
fn table_and_index_kinds() {
    let mut seen = 0;
    for n in 0..64usize {
        if let Some(table) = TableId::from_number(n) {
            assert_eq!(table.number(), n);
            seen += 1;
        }
    }
    assert_eq!(seen, 38);
    for n in [3usize, 5, 7, 0x13, 0x16, 0x1e, 0x1f, 0x2d] {
        assert!(TableId::from_number(n).is_none());
    }
    assert_eq!(TableId::GenericParamConstraint.number(), 0x2c);
    let keys = [
        (TableId::ClassLayout, 2usize),
        (TableId::Constant, 1),
        (TableId::CustomAttribute, 0),
        (TableId::DeclSecurity, 1),
        (TableId::FieldLayout, 1),
        (TableId::FieldMarshal, 0),
        (TableId::FieldRVA, 1),
        (TableId::GenericParam, 2),
        (TableId::GenericParamConstraint, 0),
        (TableId::ImplMap, 1),
        (TableId::InterfaceImpl, 0),
        (TableId::MethodImpl, 0),
        (TableId::MethodSemantics, 2),
        (TableId::NestedClass, 0),
    ];
    for (table, key) in keys {
        assert_eq!(table.key_column(), Some(key));
    }
    assert_eq!(TableId::TypeDef.key_column(), None);
    let kinds = [
        (CodedIndexKind::TypeDefOrRef, 2u8, 3usize),
        (CodedIndexKind::HasConstant, 2, 3),
        (CodedIndexKind::HasCustomAttribute, 5, 21),
        (CodedIndexKind::HasFieldMarshal, 1, 2),
        (CodedIndexKind::HasDeclSecurity, 2, 3),
        (CodedIndexKind::MemberRefParent, 3, 5),
        (CodedIndexKind::HasSemantics, 1, 2),
        (CodedIndexKind::MethodDefOrRef, 1, 2),
        (CodedIndexKind::MemberForwarded, 1, 2),
        (CodedIndexKind::Implementation, 2, 3),
        (CodedIndexKind::CustomAttributeType, 3, 2),
        (CodedIndexKind::ResolutionScope, 2, 4),
        (CodedIndexKind::TypeOrMethodDef, 1, 2),
    ];
    for (kind, bits, targets) in kinds {
        assert_eq!(kind.tag_bits(), bits);
        let mut found = 0;
        for tag in 0..64u32 {
            if let Some(table) = kind.target(tag) {
                assert!(tag < (1 << bits));
                assert_eq!(kind.tag_of(table), Some(tag));
                found += 1;
            }
        }
        assert_eq!(found, targets);
    }
    assert_eq!(CodedIndexKind::HasCustomAttribute.target(8), None);
    assert_eq!(CodedIndexKind::HasCustomAttribute.target(21), Some(TableId::MethodSpec));
    assert_eq!(CodedIndexKind::CustomAttributeType.target(0), None);
    assert_eq!(CodedIndexKind::CustomAttributeType.target(2), Some(TableId::MethodDef));
    assert_eq!(CodedIndexKind::CustomAttributeType.target(3), Some(TableId::MemberRef));
    assert_eq!(CodedIndexKind::TypeDefOrRef.tag_of(TableId::Field), None);
    assert_eq!(CodedIndexKind::ResolutionScope.target(3), Some(TableId::TypeRef));
}

#[test]
fn error_messages() {
    let e = DecodeError(DecodeErrorKind::InvalidDosSignature);
    assert_eq!(e.kind(), DecodeErrorKind::InvalidDosSignature);
    assert_eq!(e.message(), "Invalid DOS signature");
    assert_eq!(DecodeError(DecodeErrorKind::UnexpectedEof).message(), "Unexpected end of file");
    assert_eq!(DecodeError(DecodeErrorKind::InvalidRowIndex).message(), "Invalid row index");
    assert_eq!(
        DecodeError(DecodeErrorKind::InvalidCustomAttributeProlog).message(),
        "CustomAttribute blobs must start with prolog of 0x0001"
    );
}

fn reference_hash(namespace: &[u8], name: &[u8]) -> u64 {
    let mut h: u64 = 0xcbf2_9ce4_8422_2325;
    for b in namespace.iter().chain([0xffu8].iter()).chain(name.iter()) {
        h ^= *b as u64;
        h = h.wrapping_mul(0x0000_0100_0000_01b3);
    }
    h
}

#[test]
fn name_hash() {
    assert_eq!(hash_names(b"", b""), 0xaf64_724c_8602_eb6e);
    assert_eq!(hash_names(b"", b""), reference_hash(b"", b""));
    for (namespace, name) in [
        (&b"a"[..], &b"b"[..]),
        (b"Windows.Foundation", b"Point"),
        (b"", b"<Module>"),
        (b"System", b""),
    ] {
        assert_eq!(hash_names(namespace, name), reference_hash(namespace, name));
    }
    assert_ne!(hash_names(b"ab", b""), hash_names(b"a", b"b"));
    assert_ne!(hash_names(b"a", b"b"), hash_names(b"b", b"a"));
}

#[test]
fn guid_heap() {
    let heap: Vec<u8> = (0..40).collect();
    assert_eq!(read_guid(&heap, 0), Ok(None));
    assert_eq!(read_guid(&heap, 1), Ok(Some(&heap[0..16])));
    assert_eq!(read_guid(&heap, 2), Ok(Some(&heap[16..32])));
    assert_eq!(read_guid(&heap, 3), Err(DecodeError(DecodeErrorKind::UnexpectedEof)));
    assert_eq!(read_guid(&heap, u32::MAX), Err(DecodeError(DecodeErrorKind::UnexpectedEof)));
    assert_eq!(read_guid(&[], 0), Ok(None));
    assert_eq!(read_guid(&[], 1), Err(DecodeError(DecodeErrorKind::UnexpectedEof)));
}
