use climeta::engine::columns::widths;
use climeta::engine::columns::DynamicSize;
use climeta::engine::database::read_blob;
use climeta::engine::database::read_string;
use climeta::schema::coded::decode;
use climeta::schema::constants::decode_constant;
use climeta::schema::flags::TypeSemantics;
use climeta::schema::signatures::parse_generic_inst;
use climeta::schema::AssemblyRef;
use climeta::schema::Assembly;
use climeta::schema::Constant;
use climeta::schema::ConstantType;
use climeta::schema::CustomAttribute;
use climeta::schema::CustomAttributeType;
use climeta::schema::Elem;
use climeta::schema::Field;
use climeta::schema::FieldInit;
use climeta::schema::FixedArg;
use climeta::schema::HasConstant;
use climeta::schema::HasCustomAttribute;
use climeta::schema::InterfaceImpl;
use climeta::schema::MemberRef;
use climeta::schema::MemberRefParent;
use climeta::schema::MemberRefSig;
use climeta::schema::MethodDef;
use climeta::schema::MethodDefSig;
use climeta::schema::FieldSig;
use climeta::schema::Module;
use climeta::schema::NamedArgName;
use climeta::schema::Param;
use climeta::schema::ParamKind;
use climeta::schema::PrimitiveType;
use climeta::schema::PrimitiveValue;
use climeta::schema::RetTypeKind;
use climeta::schema::Type;
use climeta::schema::TypeCategory;
use climeta::schema::TypeDef;
use climeta::schema::TypeDefOrRef;
use climeta::schema::TypeRef;
use climeta::schema::TypeSpec;
use climeta::schema::TypeSpecSig;
use climeta::schema::TypeTag;
use climeta::schema::CodedIndex;
use climeta::Cache;
use climeta::CodedIndexKind;
use climeta::Database;
use climeta::DecodeError;
use climeta::DecodeErrorKind;
use climeta::TableId;
use climeta::TableRow;

fn put(v: &mut Vec<u8>, value: u64, width: usize) {
    for i in 0..width {
        v.push((value >> (8 * i)) as u8);
    }
}

fn set(v: &mut Vec<u8>, at: usize, value: u64, width: usize) {
    for i in 0..width {
        v[at + i] = (value >> (8 * i)) as u8;
    }
}

/// A metadata image under construction.
struct Image {
    heap_sizes: u8,
    strings: Vec<u8>,
    blobs: Vec<u8>,
    guids: Vec<u8>,
    rows: Vec<Vec<Vec<u64>>>,
    extra_valid: u64,
}

impl Image {
    fn new() -> Image {
        Image {
            heap_sizes: 0,
            strings: vec![0],
            blobs: vec![0],
            guids: vec![0; 16],
            rows: vec![Vec::new(); 45],
            extra_valid: 0,
        }
    }

    fn string(&mut self, s: &str) -> u64 {
        let at = self.strings.len();
        self.strings.extend_from_slice(s.as_bytes());
        self.strings.push(0);
        at as u64
    }

    fn blob(&mut self, b: &[u8]) -> u64 {
        let at = self.blobs.len();
        assert!(b.len() < 0x80);
        self.blobs.push(b.len() as u8);
        self.blobs.extend_from_slice(b);
        at as u64
    }

    fn add(&mut self, table: TableId, cells: &[u64]) -> u32 {
        let n = table.number();
        self.rows[n].push(cells.to_vec());
        (self.rows[n].len() - 1) as u32
    }

    fn counts(&self) -> Vec<u32> {
        self.rows.iter().map(|r| r.len() as u32).collect()
    }

    fn tables_stream(&self) -> Vec<u8> {
        let mut s = Vec::new();
        put(&mut s, 0, 4);
        s.push(2);
        s.push(0);
        s.push(self.heap_sizes);
        s.push(1);
        let mut valid: u64 = self.extra_valid;
        for n in 0..45 {
            if !self.rows[n].is_empty() {
                valid |= 1 << n;
            }
        }
        put(&mut s, valid, 8);
        put(&mut s, 0, 8);
        for n in 0..64 {
            if valid >> n & 1 == 1 {
                let count = if n < 45 { self.rows[n].len() as u64 } else { 0 };
                put(&mut s, count, 4);
            }
        }
        let counts = self.counts();
        for n in 0..45 {
            if let Some(table) = TableId::from_number(n) {
                let w = widths(table, self.heap_sizes, &counts);
                for row in &self.rows[n] {
                    assert_eq!(row.len(), w.len());
                    for (cell, width) in row.iter().zip(w.iter()) {
                        put(&mut s, *cell, *width as usize);
                    }
                }
            }
        }
        s
    }

    fn metadata(&self) -> Vec<u8> {
        let streams: Vec<(&str, Vec<u8>)> = vec![
            ("#~", self.tables_stream()),
            ("#Strings", self.strings.clone()),
            ("#US", vec![0]),
            ("#GUID", self.guids.clone()),
            ("#Blob", self.blobs.clone()),
        ];
        metadata_with(&streams)
    }

    fn build(&self) -> Vec<u8> {
        image_with(&self.metadata())
    }
}

fn metadata_with(streams: &[(&str, Vec<u8>)]) -> Vec<u8> {
    let mut m = Vec::new();
    put(&mut m, 0x424A5342, 4);
    put(&mut m, 1, 2);
    put(&mut m, 1, 2);
    put(&mut m, 0, 4);
    put(&mut m, 12, 4);
    m.extend_from_slice(b"v4.0.30319\0\0");
    put(&mut m, 0, 2);
    put(&mut m, streams.len() as u64, 2);
    let mut headers = 0;
    for (name, _) in streams {
        headers += 8 + name.len() + (4 - name.len() % 4);
    }
    let mut at = m.len() + headers;
    for (name, data) in streams {
        put(&mut m, at as u64, 4);
        put(&mut m, data.len() as u64, 4);
        m.extend_from_slice(name.as_bytes());
        for _ in 0..(4 - name.len() % 4) {
            m.push(0);
        }
        at += data.len();
    }
    for (_, data) in streams {
        m.extend_from_slice(data);
    }
    m
}

const NT: usize = 64;
const SECTION: usize = 64 + 248;
const CLI: usize = 0x200;
const ROOT: usize = 0x200 + 72;

fn image_with(metadata: &[u8]) -> Vec<u8> {
    let mut f = vec![0u8; CLI];
    set(&mut f, 0, 0x5A4D, 2);
    set(&mut f, 60, NT as u64, 4);
    set(&mut f, NT, 0x4550, 4);
    set(&mut f, NT + 6, 1, 2);
    set(&mut f, NT + 232, 0x2000, 4);
    set(&mut f, NT + 236, 72, 4);
    set(&mut f, SECTION + 8, 0x10000, 4);
    set(&mut f, SECTION + 12, 0x2000, 4);
    set(&mut f, SECTION + 16, 0x10000, 4);
    set(&mut f, SECTION + 20, CLI as u64, 4);
    put(&mut f, 72, 4);
    put(&mut f, 2, 2);
    put(&mut f, 5, 2);
    put(&mut f, 0x2000 + 72, 4);
    put(&mut f, metadata.len() as u64, 4);
    while f.len() < ROOT {
        f.push(0);
    }
    f.extend_from_slice(metadata);
    f
}

fn type_def_or_ref(table: TableId, row: u64) -> u64 {
    let tag = match table {
        TableId::TypeDef => 0,
        TableId::TypeRef => 1,
        _ => 2,
    };
    ((row + 1) << 2) | tag
}

/// An image with a struct, an enum, an interface and a class.
fn sample() -> Image {
    let mut i = Image::new();
    let name = i.string("test.winmd");
    i.add(TableId::Module, &[0, name, 1, 0, 0]);
    let system = i.string("System");
    let scope = (1 << 2) | 2;
    let value_type = i.string("ValueType");
    i.add(TableId::TypeRef, &[scope, value_type, system]);
    let enum_name = i.string("Enum");
    i.add(TableId::TypeRef, &[scope, enum_name, system]);
    let attribute = i.string("Attribute");
    i.add(TableId::TypeRef, &[scope, attribute, system]);
    let guid_attribute = i.string("GuidAttribute");
    let metadata = i.string("Windows.Foundation.Metadata");
    i.add(TableId::TypeRef, &[scope, guid_attribute, metadata]);
    let delegate = i.string("MulticastDelegate");
    i.add(TableId::TypeRef, &[scope, delegate, system]);

    let foundation = i.string("Windows.Foundation");
    let module = i.string("<Module>");
    i.add(TableId::TypeDef, &[0, module, 0, 0, 1, 1]);
    let point = i.string("Point");
    i.add(
        TableId::TypeDef,
        &[0x0010_4109, point, foundation, type_def_or_ref(TableId::TypeRef, 0), 1, 1],
    );
    let status = i.string("AsyncStatus");
    i.add(
        TableId::TypeDef,
        &[0x0000_4101, status, foundation, type_def_or_ref(TableId::TypeRef, 1), 3, 1],
    );
    let closable = i.string("IClosable");
    i.add(TableId::TypeDef, &[0x0000_40A1, closable, foundation, 0, 6, 1]);
    let test = i.string("Test");
    let widget = i.string("Widget");
    i.add(
        TableId::TypeDef,
        &[0x0000_4001, widget, test, type_def_or_ref(TableId::TypeDef, 1), 6, 2],
    );
    let handler = i.string("Handler");
    i.add(
        TableId::TypeDef,
        &[0x0000_4101, handler, test, type_def_or_ref(TableId::TypeRef, 4), 6, 3],
    );

    let r4 = i.blob(&[0x06, 0x0c]);
    let x = i.string("X");
    i.add(TableId::Field, &[0x0006, x, r4]);
    let y = i.string("Y");
    i.add(TableId::Field, &[0x0006, y, r4]);
    let i4 = i.blob(&[0x06, 0x08]);
    let value = i.string("value__");
    i.add(TableId::Field, &[0x0601, value, i4]);
    let own = i.blob(&[0x06, 0x11, type_def_or_ref(TableId::TypeDef, 2) as u8]);
    let canceled = i.string("Canceled");
    i.add(TableId::Field, &[0x8056, canceled, own]);
    let completed = i.string("Completed");
    i.add(TableId::Field, &[0x8056, completed, own]);

    let two = i.blob(&[2, 0, 0, 0]);
    i.add(TableId::Constant, &[0x08, (4 << 2) | 0, two]);
    let one = i.blob(&[1, 0, 0, 0]);
    i.add(TableId::Constant, &[0x08, (5 << 2) | 0, one]);

    let close_sig = i.blob(&[0x20, 0x00, 0x01]);
    let close = i.string("Close");
    i.add(TableId::MethodDef, &[0, 0, 0x05C6, close, close_sig, 1]);
    let resize_sig =
        i.blob(&[0x20, 0x02, 0x01, 0x08, 0x11, type_def_or_ref(TableId::TypeDef, 1) as u8]);
    let resize = i.string("Resize");
    i.add(TableId::MethodDef, &[0x1000, 0x0003, 0x0086, resize, resize_sig, 1]);

    let count = i.string("count");
    i.add(TableId::Param, &[1, 1, count]);
    let origin = i.string("origin");
    i.add(TableId::Param, &[2, 2, origin]);

    i.add(TableId::InterfaceImpl, &[5, type_def_or_ref(TableId::TypeDef, 3)]);

    let ctor = i.string(".ctor");
    let ctor_sig = i.blob(&[0x20, 0x02, 0x01, 0x09, 0x0e]);
    i.add(TableId::MemberRef, &[(4 << 3) | 1, ctor, ctor_sig]);

    let value = i.blob(&[0x01, 0x00, 0x78, 0x56, 0x34, 0x12, 0x02, b'h', b'i', 0x00, 0x00]);
    i.add(TableId::CustomAttribute, &[(2 << 5) | 3, (1 << 3) | 3, value]);
    i.add(TableId::CustomAttribute, &[(5 << 5) | 3, (1 << 3) | 3, 0]);

    let generic =
        i.blob(&[0x15, 0x12, type_def_or_ref(TableId::TypeRef, 2) as u8, 0x02, 0x08, 0x1c]);
    i.add(TableId::TypeSpec, &[generic]);
    let array = i.blob(&[0x1d, 0x08]);
    i.add(TableId::TypeSpec, &[array]);

    let test_name = i.string("test");
    i.add(TableId::Assembly, &[0x8004, 0x0004_0003_0002_0001, 0x0200, 0, test_name, 0]);
    let mscorlib = i.string("mscorlib");
    i.add(TableId::AssemblyRef, &[0x0000_0000_0000_0004, 0, 0, mscorlib, 0, 0]);
    i
}

fn kind(r: Result<Database, DecodeError>) -> DecodeErrorKind {
    match r {
        Ok(_) => panic!("the image was loaded"),
        Err(e) => e.kind(),
    }
}

#[test]
fn load_sample_image() {
    let bytes = sample().build();
    assert!(Database::is_database(&bytes));
    let db = Database::load(&bytes).unwrap();
    assert_eq!(db.table::<TypeDef>().len(), 6);
    assert_eq!(db.table::<TypeRef>().len(), 5);
    assert_eq!(db.table::<Field>().len(), 5);
    assert_eq!(db.table::<MethodDef>().len(), 2);
    assert_eq!(db.table::<Param>().len(), 2);
    assert_eq!(db.table::<Module>().len(), 1);
    assert_eq!(db.table::<climeta::schema::Event>().len(), 0);
    let info = db.get_table_info(TableId::TypeDef);
    assert_eq!(info.m_row_size, 4 + 2 + 2 + 2 + 2 + 2);
    assert_eq!(info.m_columns.len(), 6);
    assert_eq!(info.m_columns[3].offset, 8);
    assert_eq!(info.m_columns[3].size, 2);
    let from_data = Database::from_data(&bytes).unwrap();
    assert_eq!(from_data.table::<TypeDef>().len(), 6);
}

#[test]
fn module_and_assembly_rows() {
    let bytes = sample().build();
    let db = Database::load(&bytes).unwrap();
    let module = db.table::<Module>().get_row(0).unwrap();
    assert_eq!(module.name().unwrap(), "test.winmd");
    assert_eq!(module.generation().unwrap(), 0);
    assert_eq!(module.mvid().unwrap(), 1);
    assert_eq!(module.get_index(), 0);
    let assembly = db.table::<Assembly>().get_row(0).unwrap();
    assert_eq!(assembly.hash_alg_id().unwrap(), 0x8004);
    assert_eq!(assembly.version().unwrap(), 0x0004_0003_0002_0001);
    assert!(assembly.flags().unwrap().windows_runtime());
    assert_eq!(assembly.name().unwrap(), "test");
    assert_eq!(assembly.culture().unwrap(), "");
    assert!(assembly.public_key().unwrap().is_none());
    assert_eq!(assembly.custom_attributes().unwrap().count(), 0);
    let reference = db.table::<AssemblyRef>().get_row(0).unwrap();
    assert_eq!(reference.name().unwrap(), "mscorlib");
    assert_eq!(reference.version().unwrap(), 4);
    assert!(reference.hash_value().unwrap().is_none());
    assert!(reference.public_key_or_token().unwrap().is_none());
}

#[test]
fn row_index_out_of_range() {
    let bytes = sample().build();
    let db = Database::load(&bytes).unwrap();
    let table = db.table::<TypeDef>();
    assert!(table.get_row(5).is_ok());
    assert_eq!(table.get_row(6).err(), Some(DecodeError(DecodeErrorKind::InvalidRowIndex)));
    assert_eq!(table.get_row(u32::MAX).err(), Some(DecodeError(DecodeErrorKind::InvalidRowIndex)));
    let info = db.get_table_info(TableId::TypeDef);
    assert_eq!(info.get_value(0, 1), Ok(0x0010_4109));
    assert_eq!(info.get_value(0, 6), Err(DecodeError(DecodeErrorKind::InvalidRowIndex)));
}

#[test]
fn struct_type_is_found_and_categorised() {
    let bytes = sample().build();
    let db = Database::load(&bytes).unwrap();
    let mut found = None;
    let mut rows = db.table::<TypeDef>().iter();
    while let Some(t) = rows.next() {
        if t.type_namespace().unwrap() == "Windows.Foundation" && t.name().unwrap() == "Point" {
            found = Some(t);
        }
    }
    let point = found.unwrap();
    assert!(!point.is_enum());
    assert!(!point.is_interface());
    assert_eq!(point.type_category().unwrap(), TypeCategory::Struct);
    let fields = point.field_list().unwrap().to_vec();
    assert_eq!(fields.len(), 2);
    assert!(fields.iter().any(|f| !f.flags().unwrap().static_()));
    assert_eq!(fields[0].name().unwrap(), "X");
    assert_eq!(fields[1].name().unwrap(), "Y");
    match point.extends().unwrap() {
        Some(TypeDefOrRef::TypeRef(r)) => {
            assert_eq!(r.namespace_name_pair().unwrap(), ("System", "ValueType"));
            assert_eq!(r.get_index(), 0);
            assert!(r.resolution_scope().unwrap().is_some());
        },
        _ => panic!("a struct extends a type reference"),
    }
    assert_eq!(point.namespace_name_pair().unwrap(), ("Windows.Foundation", "Point"));
}

#[test]
fn type_categories() {
    let bytes = sample().build();
    let db = Database::load(&bytes).unwrap();
    let table = db.table::<TypeDef>();
    let expected = [
        TypeCategory::Class,
        TypeCategory::Struct,
        TypeCategory::Enum,
        TypeCategory::Interface,
        TypeCategory::Class,
        TypeCategory::Delegate,
    ];
    for (i, category) in expected.iter().enumerate() {
        let row = table.get_row(i as u32).unwrap();
        assert_eq!(row.type_category().unwrap(), *category);
        assert_eq!(row.is_enum(), *category == TypeCategory::Enum);
        assert_eq!(row.is_interface(), *category == TypeCategory::Interface);
    }
    let interface = table.get_row(3).unwrap();
    assert!(matches!(interface.flags().unwrap().semantics(), TypeSemantics::Interface));
    assert!(interface.flags().unwrap().abstract_());
    assert!(interface.flags().unwrap().windows_runtime());
    assert!(interface.extends().unwrap().is_none());
}

#[test]
fn enum_underlying_type() {
    let bytes = sample().build();
    let db = Database::load(&bytes).unwrap();
    let table = db.table::<TypeDef>();
    let status = table.get_row(2).unwrap();
    assert_eq!(status.enum_get_underlying_type(), Ok(PrimitiveType::I4));
    // a struct with two instance fields has no single type beneath it
    let point = table.get_row(1).unwrap();
    assert_eq!(
        point.enum_get_underlying_type(),
        Err(DecodeError(DecodeErrorKind::InvalidEnumType))
    );
    // nor has a type without fields
    let widget = table.get_row(4).unwrap();
    assert_eq!(
        widget.enum_get_underlying_type(),
        Err(DecodeError(DecodeErrorKind::InvalidEnumType))
    );
    let fields = db.table::<Field>();
    assert_eq!(fields.get_row(2).unwrap().enum_base_type(), Ok(PrimitiveType::I4));
    assert_eq!(fields.get_row(0).unwrap().enum_base_type(), Ok(PrimitiveType::R4));
    // a field of a value type has no primitive type
    assert_eq!(
        fields.get_row(3).unwrap().enum_base_type(),
        Err(DecodeError(DecodeErrorKind::InvalidEnumType))
    );
    // an enum with a second instance field
    let mut i = sample();
    i.rows[TableId::Field.number()][3][0] = 0x0006;
    let bytes = i.build();
    let db = Database::load(&bytes).unwrap();
    assert_eq!(
        db.table::<TypeDef>().get_row(2).unwrap().enum_get_underlying_type(),
        Err(DecodeError(DecodeErrorKind::InvalidEnumType))
    );
}

#[test]
fn enum_over_every_primitive_type() {
    let types = [
        (0x02u8, PrimitiveType::Boolean),
        (0x03, PrimitiveType::Char),
        (0x04, PrimitiveType::I1),
        (0x05, PrimitiveType::U1),
        (0x06, PrimitiveType::I2),
        (0x07, PrimitiveType::U2),
        (0x08, PrimitiveType::I4),
        (0x09, PrimitiveType::U4),
        (0x0a, PrimitiveType::I8),
        (0x0b, PrimitiveType::U8),
        (0x0c, PrimitiveType::R4),
        (0x0d, PrimitiveType::R8),
        (0x18, PrimitiveType::I),
        (0x19, PrimitiveType::U),
    ];
    for (element, expected) in types {
        let mut i = sample();
        let sig = i.blob(&[0x06, element]);
        i.rows[TableId::Field.number()][2][2] = sig;
        let bytes = i.build();
        let db = Database::load(&bytes).unwrap();
        let status = db.table::<TypeDef>().get_row(2).unwrap();
        assert!(status.is_enum());
        assert_eq!(status.enum_get_underlying_type(), Ok(expected));
    }
    // the one instance field is a string
    let mut i = sample();
    let sig = i.blob(&[0x06, 0x0e]);
    i.rows[TableId::Field.number()][2][2] = sig;
    let bytes = i.build();
    let db = Database::load(&bytes).unwrap();
    assert_eq!(
        db.table::<TypeDef>().get_row(2).unwrap().enum_get_underlying_type(),
        Err(DecodeError(DecodeErrorKind::InvalidEnumType))
    );
    // the one instance field has no signature
    let mut i = sample();
    i.rows[TableId::Field.number()][2][2] = 0;
    let bytes = i.build();
    let db = Database::load(&bytes).unwrap();
    assert_eq!(
        db.table::<TypeDef>().get_row(2).unwrap().enum_get_underlying_type(),
        Err(DecodeError(DecodeErrorKind::MissingBlob))
    );
}

#[test]
fn list_columns_give_ranges() {
    let bytes = sample().build();
    let db = Database::load(&bytes).unwrap();
    let table = db.table::<TypeDef>();
    let expected_fields = [0usize, 2, 3, 0, 0, 0];
    let expected_methods = [0usize, 0, 0, 1, 1, 0];
    for i in 0..6 {
        let row = table.get_row(i).unwrap();
        assert_eq!(row.field_list().unwrap().count(), expected_fields[i as usize]);
        assert_eq!(row.method_list().unwrap().count(), expected_methods[i as usize]);
    }
    let status = table.get_row(2).unwrap();
    let mut fields = status.field_list().unwrap();
    assert_eq!(fields.size_hint(), (3, Some(3)));
    assert_eq!(fields.last().unwrap().name().unwrap(), "Completed");
    assert_eq!(fields.nth(1).unwrap().name().unwrap(), "Canceled");
    assert!(fields.nth(3).is_none());
    assert_eq!(fields.next().unwrap().get_index(), 2);
    assert_eq!(fields.next().unwrap().get_index(), 3);
    assert_eq!(fields.next().unwrap().get_index(), 4);
    assert!(fields.next().is_none());
    assert!(fields.last().is_none());
    assert_eq!(fields.count(), 0);
}

#[test]
fn list_of_the_last_row_ends_with_the_target() {
    let bytes = sample().build();
    let db = Database::load(&bytes).unwrap();
    let methods = db.table::<MethodDef>();
    let first = methods.get_row(0).unwrap();
    assert_eq!(first.param_list().unwrap().count(), 0);
    let last = methods.get_row(1).unwrap();
    let params = last.param_list().unwrap().to_vec();
    assert_eq!(params.len(), 2);
    assert_eq!(params[1].get_index(), db.table::<Param>().len() - 1);
    assert_eq!(params[0].name().unwrap(), "count");
    assert_eq!(params[0].sequence().unwrap(), 1);
    assert!(params[0].flags().unwrap().in_());
    assert!(params[1].flags().unwrap().out());
}

#[test]
fn list_column_with_a_bad_number_is_an_error() {
    let mut i = sample();
    // the field list of the second type starts before that of the first
    i.rows[TableId::TypeDef.number()][0][4] = 3;
    let bytes = i.build();
    let db = Database::load(&bytes).unwrap();
    let row = db.table::<TypeDef>().get_row(0).unwrap();
    assert_eq!(row.field_list().err(), Some(DecodeError(DecodeErrorKind::InvalidRowIndex)));
    let mut i = sample();
    i.rows[TableId::TypeDef.number()][5][4] = 0;
    let bytes = i.build();
    let db = Database::load(&bytes).unwrap();
    let row = db.table::<TypeDef>().get_row(5).unwrap();
    assert_eq!(row.field_list().err(), Some(DecodeError(DecodeErrorKind::InvalidRowIndex)));
    let mut i = sample();
    i.rows[TableId::TypeDef.number()][5][4] = 7;
    let bytes = i.build();
    let db = Database::load(&bytes).unwrap();
    let row = db.table::<TypeDef>().get_row(5).unwrap();
    assert_eq!(row.field_list().err(), Some(DecodeError(DecodeErrorKind::InvalidRowIndex)));
}

#[test]
fn lookup_by_key_finds_the_whole_run() {
    let bytes = sample().build();
    let db = Database::load(&bytes).unwrap();
    let table = db.table::<TypeDef>();
    let point = table.get_row(1).unwrap();
    let attributes = point.custom_attributes().unwrap().to_vec();
    assert_eq!(attributes.len(), 1);
    assert_eq!(attributes[0].get_index(), 0);
    let widget = table.get_row(4).unwrap();
    let attributes = widget.custom_attributes().unwrap().to_vec();
    assert_eq!(attributes.len(), 1);
    assert_eq!(attributes[0].get_index(), 1);
    assert_eq!(table.get_row(0).unwrap().custom_attributes().unwrap().count(), 0);
    assert_eq!(table.get_row(5).unwrap().custom_attributes().unwrap().count(), 0);
    let impls = widget.interface_impls().unwrap().to_vec();
    assert_eq!(impls.len(), 1);
    assert_eq!(impls[0].class().unwrap().get_index(), 4);
    match impls[0].interface().unwrap() {
        Some(TypeDefOrRef::TypeDef(t)) => assert_eq!(t.name().unwrap(), "IClosable"),
        _ => panic!("the interface is a type definition"),
    }
    assert_eq!(point.interface_impls().unwrap().count(), 0);
    assert_eq!(db.table::<InterfaceImpl>().len(), 1);
}

#[test]
fn single_lookup_by_key() {
    let bytes = sample().build();
    let db = Database::load(&bytes).unwrap();
    let fields = db.table::<Field>();
    assert!(fields.get_row(0).unwrap().constant().unwrap().is_none());
    assert!(fields.get_row(2).unwrap().constant().unwrap().is_none());
    let canceled = fields.get_row(3).unwrap().constant().unwrap().unwrap();
    assert_eq!(canceled.get_index(), 0);
    let completed = fields.get_row(4).unwrap().constant().unwrap().unwrap();
    assert_eq!(completed.get_index(), 1);
    match completed.parent().unwrap() {
        Some(HasConstant::Field(f)) => assert_eq!(f.get_index(), 4),
        _ => panic!("the constant belongs to a field"),
    }
    // two constants for one field
    let mut i = sample();
    i.rows[TableId::Constant.number()][1][1] = (4 << 2) | 0;
    let bytes = i.build();
    let db = Database::load(&bytes).unwrap();
    let field = db.table::<Field>().get_row(3).unwrap();
    assert_eq!(field.constant().err(), Some(DecodeError(DecodeErrorKind::AmbiguousKey)));
}

#[test]
fn constants_are_decoded() {
    let bytes = sample().build();
    let db = Database::load(&bytes).unwrap();
    let constants = db.table::<Constant>();
    let first = constants.get_row(0).unwrap();
    assert_eq!(first.type_(), Ok(ConstantType::Int32));
    assert!(matches!(first.value(), Ok(FieldInit::Primitive(PrimitiveValue::Int32(2)))));
    let second = constants.get_row(1).unwrap();
    assert!(matches!(second.value(), Ok(FieldInit::Primitive(PrimitiveValue::Int32(1)))));

    let mut i = sample();
    i.rows[TableId::Constant.number()][0][0] = 0x0f;
    i.rows[TableId::Constant.number()][1][2] = 0;
    let bytes = i.build();
    let db = Database::load(&bytes).unwrap();
    let constants = db.table::<Constant>();
    let first = constants.get_row(0).unwrap();
    assert_eq!(first.type_(), Err(DecodeError(DecodeErrorKind::InvalidConstantType)));
    assert_eq!(first.value().err(), Some(DecodeError(DecodeErrorKind::InvalidConstantType)));
    let second = constants.get_row(1).unwrap();
    assert_eq!(second.value().err(), Some(DecodeError(DecodeErrorKind::MissingBlob)));
}

#[test]
fn constant_values_of_every_type() {
    let minus_two = [0xfe, 0xff, 0xff, 0xff, 0xff, 0xff, 0xff, 0xff];
    let p = |t: ConstantType, b: &[u8]| match decode_constant(t, b) {
        Ok(FieldInit::Primitive(v)) => v,
        _ => panic!("not a primitive value"),
    };
    assert_eq!(p(ConstantType::Boolean, &[1]), PrimitiveValue::Boolean(true));
    assert_eq!(p(ConstantType::Boolean, &[0]), PrimitiveValue::Boolean(false));
    assert_eq!(p(ConstantType::Char, &[0x41, 0x00]), PrimitiveValue::Char(0x41));
    assert_eq!(p(ConstantType::Int8, &minus_two), PrimitiveValue::Int8(-2));
    assert_eq!(p(ConstantType::Int8, &[0x7f]), PrimitiveValue::Int8(127));
    assert_eq!(p(ConstantType::UInt8, &minus_two), PrimitiveValue::UInt8(0xfe));
    assert_eq!(p(ConstantType::Int16, &minus_two), PrimitiveValue::Int16(-2));
    assert_eq!(p(ConstantType::Int16, &[0x34, 0x12]), PrimitiveValue::Int16(0x1234));
    assert_eq!(p(ConstantType::UInt16, &minus_two), PrimitiveValue::UInt16(0xfffe));
    assert_eq!(p(ConstantType::Int32, &minus_two), PrimitiveValue::Int32(-2));
    assert_eq!(p(ConstantType::UInt32, &minus_two), PrimitiveValue::UInt32(0xffff_fffe));
    assert_eq!(p(ConstantType::UInt32, &[0x78, 0x56, 0x34, 0x12]), PrimitiveValue::UInt32(0x12345678));
    assert_eq!(p(ConstantType::Int64, &minus_two), PrimitiveValue::Int64(-2));
    assert_eq!(
        p(ConstantType::UInt64, &[8, 7, 6, 5, 4, 3, 2, 1]),
        PrimitiveValue::UInt64(0x0102_0304_0506_0708)
    );
    assert_eq!(
        p(ConstantType::Float32, &1.5f32.to_le_bytes()),
        PrimitiveValue::Float32(1.5f32.to_bits())
    );
    assert_eq!(
        p(ConstantType::Float64, &(-0.25f64).to_le_bytes()),
        PrimitiveValue::Float64((-0.25f64).to_bits())
    );
    assert_eq!(
        decode_constant(ConstantType::Int32, &[1, 2, 3]).err(),
        Some(DecodeError(DecodeErrorKind::UnexpectedEof))
    );
    assert!(matches!(decode_constant(ConstantType::Class, &[0, 0, 0, 0]), Ok(FieldInit::NullRef)));
    assert_eq!(
        decode_constant(ConstantType::Class, &[0, 0, 1, 0]).err(),
        Some(DecodeError(DecodeErrorKind::InvalidConstantValue))
    );
    assert_eq!(
        decode_constant(ConstantType::Class, &[0, 0, 0, 0, 0]).err(),
        Some(DecodeError(DecodeErrorKind::InvalidConstantValue))
    );
    match decode_constant(ConstantType::String, &[0x48, 0x00, 0x69, 0x00, 0x3d, 0xd8, 0x00, 0xde]) {
        Ok(FieldInit::String(Some(s))) => {
            let units: Vec<u16> =
                s.chunks(2).map(|c| u16::from_le_bytes([c[0], c[1]])).collect();
            assert_eq!(String::from_utf16(&units).unwrap(), "Hi\u{1F600}");
        },
        _ => panic!("not a string"),
    }
    match decode_constant(ConstantType::String, &[0x48, 0x00, 0x69]) {
        Ok(FieldInit::String(Some(s))) => assert_eq!(s, &[0x48, 0x00]),
        _ => panic!("not a string"),
    }
    assert!(matches!(decode_constant(ConstantType::String, &[]), Ok(FieldInit::String(Some(s))) if s.is_empty()));
    assert_eq!(
        decode_constant(ConstantType::String, &[0x00, 0xd8, 0x41, 0x00]).err(),
        Some(DecodeError(DecodeErrorKind::InvalidUtf16))
    );
    assert_eq!(
        decode_constant(ConstantType::String, &[0x00, 0xdc]).err(),
        Some(DecodeError(DecodeErrorKind::InvalidUtf16))
    );
    assert_eq!(
        decode_constant(ConstantType::String, &[0x00, 0xd8]).err(),
        Some(DecodeError(DecodeErrorKind::InvalidUtf16))
    );
    for v in [0x02u16, 0x03, 0x04, 0x05, 0x06, 0x07, 0x08, 0x09, 0x0a, 0x0b, 0x0c, 0x0d, 0x0e, 0x12] {
        assert_eq!(ConstantType::from_u16(v).unwrap().value(), v);
    }
    assert!(ConstantType::from_u16(0x01).is_none());
    assert!(ConstantType::from_u16(0x0f).is_none());
    assert!(ConstantType::from_u16(0x13).is_none());
}

#[test]
fn coded_index_decoding() {
    let bytes = sample().build();
    let db = Database::load(&bytes).unwrap();
    assert!(TypeDefOrRef::decode(0, &db).unwrap().is_none());
    match TypeDefOrRef::decode(5, &db).unwrap() {
        Some(TypeDefOrRef::TypeRef(r)) => assert_eq!(r.get_index(), 0),
        _ => panic!("5 is the first type reference"),
    }
    match TypeDefOrRef::decode(10, &db).unwrap() {
        Some(TypeDefOrRef::TypeSpec(s)) => assert_eq!(s.get_index(), 1),
        _ => panic!("10 is the second type specification"),
    }
    // tag 0 and row number 1: the first row of the first table
    match TypeDefOrRef::decode(4, &db).unwrap() {
        Some(TypeDefOrRef::TypeDef(d)) => {
            assert_eq!(d.get_index(), 0);
            assert_eq!(TypeDefOrRef::TypeDef(d).encode(), 4);
        },
        _ => panic!("4 is the first type definition"),
    }
    // the tag 3 is not in use
    assert_eq!(
        TypeDefOrRef::decode(7, &db).err(),
        Some(DecodeError(DecodeErrorKind::InvalidCodedIndexTag))
    );
    // a tag without a row number
    assert_eq!(
        TypeDefOrRef::decode(1, &db).err(),
        Some(DecodeError(DecodeErrorKind::InvalidRowIndex))
    );
    // one past the last type specification
    assert_eq!(
        TypeDefOrRef::decode((3 << 2) | 2, &db).err(),
        Some(DecodeError(DecodeErrorKind::InvalidRowIndex))
    );
    // the tag 8 of this kind is not in use
    assert_eq!(
        HasCustomAttribute::decode((1 << 5) | 8, &db).err(),
        Some(DecodeError(DecodeErrorKind::InvalidCodedIndexTag))
    );
    match HasCustomAttribute::decode((2 << 5) | 3, &db).unwrap() {
        Some(HasCustomAttribute::TypeDef(d)) => assert_eq!(d.name().unwrap(), "Point"),
        _ => panic!("a type definition"),
    }
    let generic: Option<TypeDefOrRef> = decode(9, &db).unwrap();
    assert_eq!(generic.unwrap().as_row().get_index(), 1);
    let point = db.table::<TypeDef>().get_row(1).unwrap();
    assert_eq!(point.as_row().encode(CodedIndexKind::HasCustomAttribute), (2 << 5) | 3);
    assert_eq!(point.as_row().encode(CodedIndexKind::TypeDefOrRef), 8);
}

#[test]
fn coded_index_widths() {
    let mut counts = vec![0u32; 45];
    assert_eq!(TypeDefOrRef::index_size(&counts), DynamicSize::Size2);
    counts[TableId::TypeRef.number()] = 0x3fff;
    assert_eq!(TypeDefOrRef::index_size(&counts), DynamicSize::Size2);
    counts[TableId::TypeRef.number()] = 0x4000;
    assert_eq!(TypeDefOrRef::index_size(&counts), DynamicSize::Size4);
    assert_eq!(HasConstant::index_size(&counts), DynamicSize::Size2);
    assert_eq!(HasCustomAttribute::index_size(&counts), DynamicSize::Size4);
    counts[TableId::TypeRef.number()] = 0x7ff;
    assert_eq!(HasCustomAttribute::index_size(&counts), DynamicSize::Size2);
    counts[TableId::MethodSpec.number()] = 0x800;
    assert_eq!(HasCustomAttribute::index_size(&counts), DynamicSize::Size4);
    assert_eq!(widths(TableId::TypeDef, 0, &counts), vec![4, 2, 2, 2, 2, 2]);
    counts[TableId::Field.number()] = 0x1_0000;
    assert_eq!(widths(TableId::TypeDef, 0, &counts), vec![4, 2, 2, 2, 4, 2]);
    assert_eq!(widths(TableId::Field, 5, &counts), vec![2, 4, 4]);
    assert_eq!(widths(TableId::Module, 2, &counts), vec![2, 2, 4, 4, 4]);
    assert_eq!(widths(TableId::Assembly, 0, &counts), vec![4, 8, 4, 2, 2, 2]);
    assert_eq!(widths(TableId::CustomAttribute, 0, &counts), vec![4, 2, 2]);
}

#[test]
fn wide_heap_indices_are_accepted() {
    let mut i = sample();
    i.heap_sizes = 0b111;
    let bytes = i.build();
    let db = Database::load(&bytes).unwrap();
    let info = db.get_table_info(TableId::Module);
    assert_eq!(info.m_row_size, 2 + 4 + 4 + 4 + 4);
    let info = db.get_table_info(TableId::Field);
    assert_eq!(info.m_columns[1].size, 4);
    assert_eq!(info.m_columns[2].size, 4);
    let point = db.table::<TypeDef>().get_row(1).unwrap();
    assert_eq!(point.name().unwrap(), "Point");
    assert_eq!(point.type_category().unwrap(), TypeCategory::Struct);
    assert_eq!(point.field_list().unwrap().count(), 2);
}

#[test]
fn table_without_rows() {
    let bytes = sample().build();
    let db = Database::load(&bytes).unwrap();
    let info = db.get_table_info(TableId::Event);
    assert_eq!(info.len(), 0);
    assert_eq!(info.m_row_size, 6);
    assert_eq!(info.m_columns.len(), 3);
    assert_eq!(info.m_data, Some(&[][..]));
    let table = db.table::<climeta::schema::Event>();
    assert_eq!(table.len(), 0);
    assert!(table.iter().next().is_none());
    assert_eq!(table.iter().count(), 0);
    assert!(table.iter().to_vec().is_empty());
    assert_eq!(table.get_row(0).err(), Some(DecodeError(DecodeErrorKind::InvalidRowIndex)));
}

#[test]
fn method_signatures() {
    let bytes = sample().build();
    let db = Database::load(&bytes).unwrap();
    let methods = db.table::<MethodDef>();
    let close = methods.get_row(0).unwrap();
    assert_eq!(close.name().unwrap(), "Close");
    assert_eq!(close.rva().unwrap(), 0);
    let sig = close.signature().unwrap();
    assert!(sig.has_this());
    assert!(!sig.explicit_this());
    assert!(!sig.is_generic());
    assert!(!sig.is_vararg());
    assert_eq!(sig.generic_param_count(), 0);
    assert_eq!(sig.params().len(), 0);
    assert!(matches!(sig.return_type().kind(), RetTypeKind::Void));
    assert!(sig.return_type().custom_mod().is_empty());
    let flags = close.flags().unwrap();
    assert!(flags.virtual_() && flags.hide_by_sig() && flags.abstract_());
    let resize = methods.get_row(1).unwrap();
    assert_eq!(resize.rva().unwrap(), 0x1000);
    assert!(matches!(
        resize.impl_flags().unwrap().code_type(),
        climeta::schema::flags::CodeType::Runtime
    ));
    let sig = resize.signature().unwrap();
    assert_eq!(sig.params().len(), 2);
    assert!(matches!(sig.params()[0].kind(), ParamKind::Type(Type::Primitive(PrimitiveType::I4))));
    match sig.params()[1].kind() {
        ParamKind::Type(Type::Ref(TypeTag::ValueType, TypeDefOrRef::TypeDef(t), None)) => {
            assert_eq!(t.name().unwrap(), "Point");
        },
        _ => panic!("the second parameter is a value type"),
    }
}

fn method_sig<'a>(db: &'a Database<'a>, blob: &[u8]) -> Result<MethodDefSig<'a>, DecodeError> {
    MethodDefSig::parse(blob, db)
}

#[test]
fn signature_shapes() {
    let bytes = sample().build();
    let db = Database::load(&bytes).unwrap();
    // generic method with a by-reference return and modifiers
    let sig = method_sig(&db, &[0x30, 0x02, 0x01, 0x20, 0x05, 0x10, 0x1e, 0x01, 0x16]).unwrap();
    assert!(sig.is_generic() && sig.has_this());
    assert_eq!(sig.generic_param_count(), 2);
    assert_eq!(sig.return_type().custom_mod().len(), 1);
    assert!(matches!(
        sig.return_type().custom_mod()[0].tag(),
        climeta::schema::CustomModTag::Required
    ));
    assert!(matches!(sig.return_type().custom_mod()[0].type_(), TypeDefOrRef::TypeRef(_)));
    assert!(matches!(
        sig.return_type().kind(),
        RetTypeKind::TypeByRef(Type::GenericVar(climeta::schema::GenericVarScope::Method, 1))
    ));
    assert!(matches!(sig.params()[0].kind(), ParamKind::TypedReference));
    let sig = method_sig(&db, &[0x05, 0x03, 0x16, 0x10, 0x0e, 0x1f, 0x04, 0x1c, 0x13, 0x00]).unwrap();
    assert!(sig.is_vararg() && !sig.has_this());
    assert!(matches!(sig.return_type().kind(), RetTypeKind::TypedReference));
    assert!(matches!(sig.params()[0].kind(), ParamKind::TypeByRef(Type::String)));
    assert!(matches!(sig.params()[1].kind(), ParamKind::Type(Type::Object)));
    assert!(matches!(
        sig.params()[1].custom_mod()[0].tag(),
        climeta::schema::CustomModTag::Optional
    ));
    assert!(matches!(
        sig.params()[2].kind(),
        ParamKind::Type(Type::GenericVar(climeta::schema::GenericVarScope::Type, 0))
    ));
    // an array of arrays of bytes, and a class
    let sig = method_sig(&db, &[0x00, 0x02, 0x1d, 0x1d, 0x05, 0x12, 0x09, 0x18]).unwrap();
    match sig.return_type().kind() {
        RetTypeKind::Type(Type::Array(a)) => match a.elem_type() {
            Type::Array(b) => {
                assert!(matches!(b.elem_type(), Type::Primitive(PrimitiveType::U1)));
                assert!(b.custom_mod().is_empty());
            },
            _ => panic!("an array of arrays"),
        },
        _ => panic!("an array"),
    }
    assert!(matches!(
        sig.params()[0].kind(),
        ParamKind::Type(Type::Ref(TypeTag::Class, TypeDefOrRef::TypeRef(_), None))
    ));
    assert!(matches!(sig.params()[1].kind(), ParamKind::Type(Type::Primitive(PrimitiveType::I))));
    // generic instantiation
    let sig = method_sig(&db, &[0x00, 0x00, 0x15, 0x11, 0x08, 0x02, 0x0a, 0x15, 0x12, 0x05, 0x01, 0x02]).unwrap();
    match sig.return_type().kind() {
        RetTypeKind::Type(Type::Ref(TypeTag::ValueType, TypeDefOrRef::TypeDef(_), Some(args))) => {
            assert_eq!(args.len(), 2);
            assert!(matches!(args[0], Type::Primitive(PrimitiveType::I8)));
            assert!(matches!(&args[1], Type::Ref(TypeTag::Class, _, Some(inner)) if inner.len() == 1));
        },
        _ => panic!("an instantiation"),
    }
    let e = |blob: &[u8]| method_sig(&db, blob).err().unwrap().kind();
    assert_eq!(e(&[]), DecodeErrorKind::UnexpectedEof);
    assert_eq!(e(&[0x00]), DecodeErrorKind::UnexpectedEof);
    assert_eq!(e(&[0x00, 0x01, 0x01]), DecodeErrorKind::UnexpectedEof);
    assert_eq!(e(&[0x00, 0x00, 0x14]), DecodeErrorKind::UnsupportedSignature);
    assert_eq!(e(&[0x00, 0x00, 0x1b]), DecodeErrorKind::UnsupportedSignature);
    assert_eq!(e(&[0x00, 0x00, 0x0f]), DecodeErrorKind::UnsupportedSignature);
    assert_eq!(e(&[0x00, 0x00, 0x17]), DecodeErrorKind::InvalidSignature);
    assert_eq!(e(&[0x00, 0x01, 0x01, 0x01]), DecodeErrorKind::InvalidSignature);
    assert_eq!(e(&[0x00, 0x00, 0x12, 0x00]), DecodeErrorKind::InvalidSignature);
    assert_eq!(e(&[0x00, 0x00, 0x12, 0x07]), DecodeErrorKind::InvalidCodedIndexTag);
    assert_eq!(e(&[0x00, 0x00, 0x12, 0x7c]), DecodeErrorKind::InvalidRowIndex);
    assert_eq!(e(&[0x00, 0x00, 0xff]), DecodeErrorKind::InvalidCompressedInteger);
    assert_eq!(e(&[0x00, 0x00, 0x15, 0x08]), DecodeErrorKind::InvalidSignature);
    assert_eq!(e(&[0x10, 0xff]), DecodeErrorKind::InvalidCompressedInteger);
    let (tag, target, args, next) = parse_generic_inst(&[0x12, 0x05, 0x01, 0x0e, 0xaa], 0, &db).unwrap();
    assert!(matches!(tag, TypeTag::Class));
    assert_eq!(target.as_row().get_index(), 0);
    assert!(matches!(args[0], Type::String));
    assert_eq!(next, 4);
}

#[test]
fn field_and_type_spec_signatures() {
    let bytes = sample().build();
    let db = Database::load(&bytes).unwrap();
    let fields = db.table::<Field>();
    let x = fields.get_row(0).unwrap().signature().unwrap();
    assert!(matches!(x.type_(), Type::Primitive(PrimitiveType::R4)));
    assert!(x.custom_mod().is_empty());
    let canceled = fields.get_row(3).unwrap().signature().unwrap();
    match canceled.type_() {
        Type::Ref(TypeTag::ValueType, TypeDefOrRef::TypeDef(t), None) => {
            assert_eq!(t.name().unwrap(), "AsyncStatus")
        },
        _ => panic!("a value type"),
    }
    assert_eq!(
        FieldSig::parse(&[0x07, 0x08], &db).err(),
        Some(DecodeError(DecodeErrorKind::InvalidSignature))
    );
    let sig = FieldSig::parse(&[0x06, 0x1f, 0x05, 0x20, 0x09, 0x08], &db).unwrap();
    assert_eq!(sig.custom_mod().len(), 2);
    let specs = db.table::<TypeSpec>();
    match specs.get_row(0).unwrap().signature().unwrap() {
        TypeSpecSig::GenericInst(TypeTag::Class, TypeDefOrRef::TypeRef(r), args) => {
            assert_eq!(r.name().unwrap(), "Attribute");
            assert_eq!(args.len(), 2);
            assert!(matches!(args[1], Type::Object));
        },
        _ => panic!("an instantiation"),
    }
    assert_eq!(
        specs.get_row(1).unwrap().signature().err(),
        Some(DecodeError(DecodeErrorKind::UnsupportedSignature))
    );
    assert_eq!(
        TypeSpecSig::parse(&[0x08], &db).err(),
        Some(DecodeError(DecodeErrorKind::InvalidSignature))
    );
    // a type specification has no name
    match TypeDefOrRef::decode(6, &db).unwrap() {
        Some(t) => {
            assert_eq!(
                t.namespace_name_pair().err(),
                Some(DecodeError(DecodeErrorKind::TypeSpecHasNoName))
            );
        },
        None => panic!("a type specification"),
    }
}

#[test]
fn member_reference() {
    let bytes = sample().build();
    let db = Database::load(&bytes).unwrap();
    let member = db.table::<MemberRef>().get_row(0).unwrap();
    assert_eq!(member.name().unwrap(), ".ctor");
    match member.class().unwrap() {
        MemberRefParent::TypeRef(r) => assert_eq!(r.name().unwrap(), "GuidAttribute"),
        _ => panic!("a type reference"),
    }
    let sig = member.method_signature().unwrap();
    assert_eq!(sig.params().len(), 2);
    assert!(matches!(member.signature().unwrap(), MemberRefSig::Method(_)));
    let mut i = sample();
    let field = i.blob(&[0x06, 0x08]);
    i.rows[TableId::MemberRef.number()][0][2] = field;
    i.rows[TableId::MemberRef.number()][0][0] = 0;
    let bytes = i.build();
    let db = Database::load(&bytes).unwrap();
    let member = db.table::<MemberRef>().get_row(0).unwrap();
    assert!(matches!(member.signature().unwrap(), MemberRefSig::Field(_)));
    assert_eq!(
        member.method_signature().err(),
        Some(DecodeError(DecodeErrorKind::InvalidSignature))
    );
    assert_eq!(member.class().err(), Some(DecodeError(DecodeErrorKind::InvalidRowIndex)));
}

fn cache_of<'a>(db: Database<'a>) -> Cache<'a> {
    let mut cache = Cache::new();
    cache.insert(db);
    cache
}

#[test]
fn custom_attribute_value() {
    let bytes = sample().build();
    let cache = cache_of(Database::load(&bytes).unwrap());
    let db = cache.get(0).unwrap();
    let attributes = db.table::<CustomAttribute>();
    let first = attributes.get_row(0).unwrap();
    match first.parent().unwrap() {
        HasCustomAttribute::TypeDef(t) => assert_eq!(t.name().unwrap(), "Point"),
        _ => panic!("attached to a type"),
    }
    assert!(matches!(first.type_().unwrap(), CustomAttributeType::MemberRef(_)));
    assert_eq!(
        first.namespace_name_pair().unwrap(),
        ("Windows.Foundation.Metadata", "GuidAttribute")
    );
    assert_eq!(first.constructor_signature().unwrap().params().len(), 2);
    let value = first.value(&cache).unwrap();
    assert_eq!(value.fixed_args().len(), 2);
    assert!(matches!(
        value.fixed_args()[0],
        FixedArg::Elem(Elem::Primitive(PrimitiveValue::UInt32(0x12345678)))
    ));
    assert!(matches!(value.fixed_args()[1], FixedArg::Elem(Elem::String(Some("hi")))));
    assert!(value.named_args().is_empty());
    // an attribute without a blob has no arguments
    let second = attributes.get_row(1).unwrap();
    let value = second.value(&cache).unwrap();
    assert!(value.fixed_args().is_empty() && value.named_args().is_empty());
}

#[test]
fn attribute_is_found_by_the_name_of_its_type() {
    let bytes = sample().build();
    let db = Database::load(&bytes).unwrap();
    let table = db.table::<TypeDef>();
    let point = table.get_row(1).unwrap();
    let found = point.get_attribute("Windows.Foundation.Metadata", "GuidAttribute").unwrap();
    assert_eq!(found.unwrap().get_index(), 0);
    assert!(point.get_attribute("Windows.Foundation.Metadata", "Other").unwrap().is_none());
    assert!(point.get_attribute("Windows.Foundation", "GuidAttribute").unwrap().is_none());
    assert!(table.get_row(0).unwrap().get_attribute("A", "B").unwrap().is_none());
    // a constructor that is a method definition leads to no type
    let mut i = sample();
    i.rows[TableId::CustomAttribute.number()][0][1] = (1 << 3) | 2;
    let bytes = i.build();
    let db = Database::load(&bytes).unwrap();
    let point = db.table::<TypeDef>().get_row(1).unwrap();
    assert_eq!(
        point.get_attribute("Windows.Foundation.Metadata", "GuidAttribute").err(),
        Some(DecodeError(DecodeErrorKind::UnsupportedSignature))
    );
    let attribute = db.table::<CustomAttribute>().get_row(0).unwrap();
    assert!(matches!(attribute.type_().unwrap(), CustomAttributeType::MethodDef(_)));
    // the constructor of that method has no parameters, so the blob holds too much
    assert!(attribute.constructor_signature().is_ok());
    // a member reference of a module
    let mut i = sample();
    i.add(TableId::ModuleRef, &[0]);
    i.rows[TableId::MemberRef.number()][0][0] = (1 << 3) | 2;
    let bytes = i.build();
    let db = Database::load(&bytes).unwrap();
    let attribute = db.table::<CustomAttribute>().get_row(0).unwrap();
    assert_eq!(
        attribute.namespace_name_pair().err(),
        Some(DecodeError(DecodeErrorKind::InvalidCustomAttributeType))
    );
}

fn attribute_with(ctor_sig: &[u8], value: &[u8]) -> Image {
    let mut i = sample();
    let sig = i.blob(ctor_sig);
    i.rows[TableId::MemberRef.number()][0][2] = sig;
    let blob = i.blob(value);
    i.rows[TableId::CustomAttribute.number()][0][2] = blob;
    i
}

fn attribute_error(ctor_sig: &[u8], value: &[u8]) -> DecodeErrorKind {
    let bytes = attribute_with(ctor_sig, value).build();
    let cache = cache_of(Database::load(&bytes).unwrap());
    let db = cache.get(0).unwrap();
    let attribute = db.table::<CustomAttribute>().get_row(0).unwrap();
    let r = attribute.value(&cache);
    r.err().unwrap().kind()
}

#[test]
fn custom_attribute_arguments() {
    // an enum of this image, a type name, an array, and named arguments
    let enum_ref = type_def_or_ref(TableId::TypeDef, 2) as u8;
    let image = attribute_with(
        &[0x20, 0x04, 0x01, 0x11, enum_ref, 0x12, 0x19, 0x1d, 0x06, 0x02],
        &[
            0x01, 0x00, // prolog
            0x02, 0x00, 0x00, 0x00, // the enum value
            0x03, b'A', b'.', b'B', // the name of a type
            0x02, 0x00, 0x00, 0x00, 0xff, 0xff, 0x01, 0x00, // two 16-bit numbers
            0x01, // a boolean
            0x03, 0x00, // three named arguments
            0x53, 0x0e, 0x01, b'n', 0xff, // a field with no string
            0x54, 0x55, 0x1e, b'W', b'i', b'n', b'd', b'o', b'w', b's', b'.', b'F', b'o', b'u',
            b'n', b'd', b'a', b't', b'i', b'o', b'n', b'.', b'A', b's', b'y', b'n', b'c', b'S',
            b't', b'a', b't', b'u', b's', 0x01, b'e', 0x01, 0x00, 0x00, 0x00,
            0x54, 0x1d, 0x50, 0x01, b't', 0x01, 0x00, 0x00, 0x00, 0x01, b'T',
        ],
    );
    let mut image = image;
    let type_text = image.string("Type");
    let system = image.string("System");
    image.add(TableId::TypeRef, &[(1 << 2) | 2, type_text, system]);
    let bytes = image.build();
    let cache = cache_of(Database::load(&bytes).unwrap());
    let db = cache.get(0).unwrap();
    let attribute = db.table::<CustomAttribute>().get_row(0).unwrap();
    let value = attribute.value(&cache).unwrap();
    let fixed = value.fixed_args();
    assert_eq!(fixed.len(), 4);
    match &fixed[0] {
        FixedArg::Elem(Elem::EnumValue(t, PrimitiveValue::Int32(2))) => {
            assert_eq!(t.name().unwrap(), "AsyncStatus")
        },
        _ => panic!("an enum value"),
    }
    assert!(matches!(fixed[1], FixedArg::Elem(Elem::SystemType("A.B"))));
    match &fixed[2] {
        FixedArg::Array(v) => {
            assert_eq!(v.len(), 2);
            assert!(matches!(v[0], Elem::Primitive(PrimitiveValue::Int16(-1))));
            assert!(matches!(v[1], Elem::Primitive(PrimitiveValue::Int16(1))));
        },
        _ => panic!("an array"),
    }
    assert!(matches!(fixed[3], FixedArg::Elem(Elem::Primitive(PrimitiveValue::Boolean(true)))));
    let named = value.named_args();
    assert_eq!(named.len(), 3);
    assert!(matches!(named[0].name, NamedArgName::Field("n")));
    assert!(matches!(named[0].value, FixedArg::Elem(Elem::String(None))));
    assert!(matches!(named[1].name, NamedArgName::Property("e")));
    assert!(matches!(
        named[1].value,
        FixedArg::Elem(Elem::EnumValue(_, PrimitiveValue::Int32(1)))
    ));
    assert!(matches!(named[2].name, NamedArgName::Property("t")));
    match &named[2].value {
        FixedArg::Array(v) => assert!(matches!(v[0], Elem::SystemType("T"))),
        _ => panic!("an array"),
    }
}

#[test]
fn custom_attribute_failures() {
    let plain = [0x20, 0x01, 0x01, 0x08];
    assert_eq!(attribute_error(&plain, &[0x01]), DecodeErrorKind::UnexpectedEof);
    assert_eq!(
        attribute_error(&plain, &[0x02, 0x00, 1, 0, 0, 0, 0, 0]),
        DecodeErrorKind::InvalidCustomAttributeProlog
    );
    assert_eq!(attribute_error(&plain, &[0x01, 0x00, 1, 0, 0]), DecodeErrorKind::UnexpectedEof);
    assert_eq!(attribute_error(&plain, &[0x01, 0x00, 1, 0, 0, 0]), DecodeErrorKind::UnexpectedEof);
    assert_eq!(
        attribute_error(&plain, &[0x01, 0x00, 1, 0, 0, 0, 1, 0, 0x52]),
        DecodeErrorKind::InvalidNamedArgument
    );
    assert_eq!(
        attribute_error(&plain, &[0x01, 0x00, 1, 0, 0, 0, 1, 0, 0x53, 0x08, 0xff]),
        DecodeErrorKind::InvalidNamedArgument
    );
    assert_eq!(
        attribute_error(&plain, &[0x01, 0x00, 1, 0, 0, 0, 1, 0, 0x53, 0x51, 0x00]),
        DecodeErrorKind::InvalidCustomAttributeType
    );
    assert_eq!(
        attribute_error(&plain, &[0x01, 0x00, 1, 0, 0, 0, 1, 0, 0x53, 0x55, 0x03, b'N', b'.', b'X']),
        DecodeErrorKind::UnresolvedEnumType
    );
    assert_eq!(
        attribute_error(&plain, &[0x01, 0x00, 1, 0, 0, 0, 1, 0, 0x53, 0x55, 0xff]),
        DecodeErrorKind::InvalidNamedArgument
    );
    // the name of a type that is no enum
    assert_eq!(
        attribute_error(
            &plain,
            &[0x01, 0x00, 1, 0, 0, 0, 1, 0, 0x53, 0x55, 0x0b, b'T', b'e', b's', b't', b'.',
              b'W', b'i', b'd', b'g', b'e', b't']
        ),
        DecodeErrorKind::InvalidCustomAttributeType
    );
    assert_eq!(
        attribute_error(&plain, &[0x01, 0x00, 1, 0, 0, 0, 1, 0, 0x53, 0x0e, 0x01, 0xc3, 0x01, b'x']),
        DecodeErrorKind::InvalidUtf8
    );
    // parameters that have no values in a blob
    assert_eq!(
        attribute_error(&[0x20, 0x01, 0x01, 0x18], &[0x01, 0x00]),
        DecodeErrorKind::InvalidCustomAttributeType
    );
    assert_eq!(
        attribute_error(&[0x20, 0x01, 0x01, 0x10, 0x08], &[0x01, 0x00]),
        DecodeErrorKind::InvalidCustomAttributeType
    );
    assert_eq!(
        attribute_error(&[0x20, 0x01, 0x01, 0x1c], &[0x01, 0x00]),
        DecodeErrorKind::UnsupportedSignature
    );
    assert_eq!(
        attribute_error(&[0x20, 0x01, 0x01, 0x12, 0x05], &[0x01, 0x00]),
        DecodeErrorKind::UnsupportedSignature
    );
    // a value type that is a struct, and one that the cache does not know
    assert_eq!(
        attribute_error(&[0x20, 0x01, 0x01, 0x11, 0x08], &[0x01, 0x00]),
        DecodeErrorKind::InvalidCustomAttributeType
    );
    assert_eq!(
        attribute_error(&[0x20, 0x01, 0x01, 0x11, 0x05], &[0x01, 0x00]),
        DecodeErrorKind::UnresolvedEnumType
    );
    assert_eq!(
        attribute_error(&[0x20, 0x01, 0x01, 0x11, 0x06], &[0x01, 0x00]),
        DecodeErrorKind::TypeSpecHasNoName
    );
    // a null array
    let bytes = attribute_with(
        &[0x20, 0x01, 0x01, 0x1d, 0x08],
        &[0x01, 0x00, 0xff, 0xff, 0xff, 0xff, 0x00, 0x00],
    )
    .build();
    let cache = cache_of(Database::load(&bytes).unwrap());
    let db = cache.get(0).unwrap();
    let value = db.table::<CustomAttribute>().get_row(0).unwrap().value(&cache).unwrap();
    assert!(matches!(&value.fixed_args()[0], FixedArg::Array(v) if v.is_empty()));
}

#[test]
fn string_heap() {
    let heap = b"\0Foo\0Bar\0";
    assert_eq!(read_string(heap, 1), Ok("Foo"));
    assert_eq!(read_string(heap, 5), Ok("Bar"));
    assert_eq!(read_string(heap, 0), Ok(""));
    assert_eq!(read_string(heap, 2), Ok("oo"));
    assert_eq!(read_string(heap, 8), Ok(""));
    // the same index gives the same string again
    assert_eq!(read_string(heap, 5), read_string(heap, 5));
    assert_eq!(read_string(heap, 9), Err(DecodeError(DecodeErrorKind::MissingStringTerminator)));
    assert_eq!(read_string(heap, 10), Err(DecodeError(DecodeErrorKind::UnexpectedEof)));
    assert_eq!(
        read_string(b"\0Foo", 1),
        Err(DecodeError(DecodeErrorKind::MissingStringTerminator))
    );
    assert_eq!(
        read_string(b"\0\xc3\x28\0", 1),
        Err(DecodeError(DecodeErrorKind::InvalidUtf8))
    );
    assert_eq!(read_string("\0Gr\u{fc}\u{df}e\0".as_bytes(), 1), Ok("Gr\u{fc}\u{df}e"));
    let bytes = sample().build();
    let db = Database::load(&bytes).unwrap();
    assert_eq!(db.get_string(0), Ok(""));
    assert_eq!(db.get_string(1), Ok("test.winmd"));
    assert_eq!(db.get_string(100_000).err(), Some(DecodeError(DecodeErrorKind::UnexpectedEof)));
}

#[test]
fn blob_heap() {
    let mut heap = vec![0x00, 0x03, 1, 2, 3, 0x80, 0x02, 9, 8, 0xc0, 0x00, 0x00, 0x01, 7];
    assert_eq!(read_blob(&heap, 0), Ok(&[][..]));
    assert_eq!(read_blob(&heap, 1), Ok(&[1u8, 2, 3][..]));
    assert_eq!(read_blob(&heap, 5), Ok(&[9u8, 8][..]));
    assert_eq!(read_blob(&heap, 9), Ok(&[7u8][..]));
    assert_eq!(read_blob(&heap, 14), Err(DecodeError(DecodeErrorKind::UnexpectedEof)));
    assert_eq!(read_blob(&heap, 13), Err(DecodeError(DecodeErrorKind::UnexpectedEof)));
    heap.push(0xe0);
    assert_eq!(read_blob(&heap, 14), Err(DecodeError(DecodeErrorKind::InvalidBlobEncoding)));
    heap.push(0xff);
    assert_eq!(read_blob(&heap, 15), Err(DecodeError(DecodeErrorKind::InvalidBlobEncoding)));
    heap.push(0x81);
    assert_eq!(read_blob(&heap, 16), Err(DecodeError(DecodeErrorKind::UnexpectedEof)));
    let bytes = sample().build();
    let db = Database::load(&bytes).unwrap();
    assert_eq!(db.get_blob(1), Ok(&[0x06u8, 0x0c][..]));
    let field = db.table::<Field>().get_row(0).unwrap();
    assert_eq!(field.as_row().get_blob(2).unwrap(), Some(&[0x06u8, 0x0c][..]));
    assert_eq!(field.as_row().get_value(0), 6);
    assert_eq!(field.as_row().get_u16(0), 6);
    assert_eq!(field.as_row().get_string(1).unwrap(), "X");
    assert_eq!(field.as_row().table_id(), TableId::Field);
}

#[test]
fn cache_finds_the_first_type_with_a_name() {
    let first = sample().build();
    let mut other = Image::new();
    let name = other.string("other.winmd");
    other.add(TableId::Module, &[0, name, 1, 0, 0]);
    let foundation = other.string("Windows.Foundation");
    let point = other.string("Point");
    other.add(TableId::TypeDef, &[0x0001, point, foundation, 0, 1, 1]);
    let rect = other.string("Rect");
    other.add(TableId::TypeDef, &[0x0001, rect, foundation, 0, 1, 1]);
    other.add(TableId::TypeDef, &[0x0001, rect, foundation, 0, 1, 1]);
    let second = other.build();

    let mut cache = Cache::new();
    assert_eq!(cache.len(), 0);
    assert!(cache.find("Windows.Foundation", "Point").is_none());
    assert_eq!(cache.insert(Database::load(&first).unwrap()), 0);
    assert_eq!(cache.insert(Database::load(&second).unwrap()), 1);
    assert_eq!(cache.len(), 2);
    assert!(cache.get(2).is_none());
    assert_eq!(cache.get(0).unwrap().table::<TypeDef>().len(), 6);
    assert_eq!(cache.get(1).unwrap().table::<TypeDef>().len(), 3);

    let found = cache.find("Windows.Foundation", "Point").unwrap();
    assert_eq!(found.name().unwrap(), "Point");
    // the one of the image that came first: the second row there, a struct
    assert_eq!(found.get_index(), 1);
    assert_eq!(found.type_category().unwrap(), TypeCategory::Struct);
    assert_eq!(found.as_row().database().table::<TypeDef>().len(), 6);

    let rect = cache.find("Windows.Foundation", "Rect").unwrap();
    assert_eq!(rect.get_index(), 1);
    assert_eq!(rect.as_row().database().table::<TypeDef>().len(), 3);
    assert!(cache.find("Windows.Foundation", "Size").is_none());
    assert!(cache.find("Windows", "Foundation.Point").is_none());
    assert_eq!(cache.find("", "<Module>").unwrap().get_index(), 0);
    assert_eq!(cache.find_bytes(b"Test", b"Widget").unwrap().get_index(), 4);

    let by_name = climeta::schema::attributes::resolve_name(&cache, "Windows.Foundation.Rect");
    assert_eq!(by_name.unwrap().get_index(), 1);
    assert!(climeta::schema::attributes::resolve_name(&cache, "Rect").is_none());
    assert_eq!(
        climeta::schema::attributes::resolve_name(&cache, "<Module>").unwrap().get_index(),
        0
    );
}

#[test]
fn references_are_resolved_through_the_cache() {
    let first = sample().build();
    let mut other = Image::new();
    let name = other.string("system.winmd");
    other.add(TableId::Module, &[0, name, 1, 0, 0]);
    let system = other.string("System");
    let value_type = other.string("ValueType");
    other.add(TableId::TypeDef, &[0x0001, value_type, system, 0, 1, 1]);
    let second = other.build();
    let mut cache = Cache::new();
    cache.insert(Database::load(&first).unwrap());
    cache.insert(Database::load(&second).unwrap());
    let db = cache.get(0).unwrap();
    let point = db.table::<TypeDef>().get_row(1).unwrap();
    let base = point.extends().unwrap().unwrap();
    let resolved = base.resolve(&cache).unwrap().unwrap();
    assert_eq!(resolved.namespace_name_pair().unwrap(), ("System", "ValueType"));
    assert_eq!(resolved.as_row().database().table::<TypeDef>().len(), 1);
    let status = db.table::<TypeDef>().get_row(2).unwrap();
    assert!(status.extends().unwrap().unwrap().resolve(&cache).unwrap().is_none());
    let widget = db.table::<TypeDef>().get_row(4).unwrap();
    let own = widget.extends().unwrap().unwrap().resolve(&cache).unwrap().unwrap();
    assert_eq!(own.name().unwrap(), "Point");
    let reference = db.table::<TypeRef>().get_row(0).unwrap();
    assert_eq!(reference.resolve(&cache).unwrap().unwrap().get_index(), 0);
    match TypeDefOrRef::decode(6, db).unwrap() {
        Some(spec) => assert_eq!(
            spec.resolve(&cache).err(),
            Some(DecodeError(DecodeErrorKind::TypeSpecHasNoName))
        ),
        None => panic!("a type specification"),
    }
}

#[test]
fn load_failures_of_the_tables_stream() {
    let mut i = sample();
    i.extra_valid = 1 << 3;
    assert_eq!(kind(Database::load(&i.build())), DecodeErrorKind::UnknownTable);
    let mut i = sample();
    i.extra_valid = 1 << 50;
    assert_eq!(kind(Database::load(&i.build())), DecodeErrorKind::UnknownTable);
    // rows that the stream does not hold
    let i = sample();
    let mut tables = i.tables_stream();
    tables.truncate(tables.len() - 1);
    let metadata = metadata_with(&[
        ("#~", tables),
        ("#Strings", i.strings.clone()),
        ("#GUID", i.guids.clone()),
        ("#Blob", i.blobs.clone()),
    ]);
    assert_eq!(kind(Database::load(&image_with(&metadata))), DecodeErrorKind::UnexpectedEof);
    let metadata = metadata_with(&[
        ("#~", vec![0; 23]),
        ("#Strings", i.strings.clone()),
        ("#GUID", i.guids.clone()),
        ("#Blob", i.blobs.clone()),
    ]);
    assert_eq!(kind(Database::load(&image_with(&metadata))), DecodeErrorKind::UnexpectedEof);
    let mut header = vec![0u8; 24];
    header[8] = 1;
    let metadata = metadata_with(&[
        ("#~", header),
        ("#Strings", i.strings.clone()),
        ("#GUID", i.guids.clone()),
        ("#Blob", i.blobs.clone()),
    ]);
    assert_eq!(kind(Database::load(&image_with(&metadata))), DecodeErrorKind::UnexpectedEof);
    // an image without tables is an image
    let metadata = metadata_with(&[
        ("#~", vec![0; 24]),
        ("#Strings", vec![0]),
        ("#GUID", vec![]),
        ("#Blob", vec![0]),
    ]);
    let bytes = image_with(&metadata);
    let db = Database::load(&bytes).unwrap();
    assert_eq!(db.table::<TypeDef>().len(), 0);
    assert_eq!(db.table::<Module>().len(), 0);
}

#[test]
fn load_failures_of_the_streams() {
    let i = sample();
    let all = |skip: &str, extra: Option<&'static str>| {
        let mut streams: Vec<(&str, Vec<u8>)> = Vec::new();
        for (name, data) in [
            ("#~", i.tables_stream()),
            ("#Strings", i.strings.clone()),
            ("#GUID", i.guids.clone()),
            ("#Blob", i.blobs.clone()),
        ] {
            if name != skip {
                streams.push((name, data));
            }
        }
        if let Some(name) = extra {
            streams.push((name, vec![1, 2, 3]));
        }
        kind(Database::load(&image_with(&metadata_with(&streams))))
    };
    assert_eq!(all("#Strings", None), DecodeErrorKind::MissingStringsStream);
    assert_eq!(all("#Blob", None), DecodeErrorKind::MissingBlobStream);
    assert_eq!(all("#GUID", None), DecodeErrorKind::MissingGuidStream);
    assert_eq!(all("#~", None), DecodeErrorKind::MissingTablesStream);
    assert_eq!(all("", Some("#Pdb")), DecodeErrorKind::UnknownStream);
    assert_eq!(all("", Some("#strings")), DecodeErrorKind::UnknownStream);
    assert_eq!(all("#Strings", Some("#Other")), DecodeErrorKind::UnknownStream);
    // a stream beyond the end of the image
    let mut bytes = i.build();
    set(&mut bytes, ROOT + 32 + 4, 0x00ff_ffff, 4);
    assert_eq!(kind(Database::load(&bytes)), DecodeErrorKind::UnexpectedEof);
    // more streams than there are headers
    let mut bytes = i.build();
    set(&mut bytes, ROOT + 30, 200, 2);
    assert!(Database::load(&bytes).is_err());
    // a header that ends before its name
    let mut bytes = i.build();
    bytes.truncate(ROOT + 39);
    assert_eq!(kind(Database::load(&bytes)), DecodeErrorKind::UnexpectedEof);
    let mut bytes = i.build();
    bytes.truncate(ROOT + 40);
    assert_eq!(kind(Database::load(&bytes)), DecodeErrorKind::UnknownStream);
    // and one that ends within the padding of its name
    let mut bytes = i.build();
    bytes.truncate(ROOT + 43);
    assert_eq!(kind(Database::load(&bytes)), DecodeErrorKind::UnexpectedEof);
    let mut bytes = i.build();
    bytes.truncate(ROOT + 14);
    assert_eq!(kind(Database::load(&bytes)), DecodeErrorKind::UnexpectedEof);
    let mut bytes = i.build();
    bytes.truncate(ROOT + 30);
    assert_eq!(kind(Database::load(&bytes)), DecodeErrorKind::UnexpectedEof);
}

#[test]
fn load_failures_of_the_headers() {
    let good = sample().build();
    assert_eq!(kind(Database::load(&[])), DecodeErrorKind::UnexpectedEof);
    assert!(!Database::is_database(&[]));
    assert_eq!(kind(Database::load(&good[..63])), DecodeErrorKind::UnexpectedEof);
    let mut bytes = good.clone();
    bytes[0] = b'Z';
    assert_eq!(kind(Database::load(&bytes)), DecodeErrorKind::InvalidDosSignature);
    assert!(!Database::is_database(&bytes));
    assert_eq!(kind(Database::load(&good[..NT + 247])), DecodeErrorKind::UnexpectedEof);
    let mut bytes = good.clone();
    set(&mut bytes, 60, 0xffff_ff00, 4);
    assert_eq!(kind(Database::load(&bytes)), DecodeErrorKind::UnexpectedEof);
    let mut bytes = good.clone();
    set(&mut bytes, 60, 0x7fff_ffff, 4);
    assert_eq!(kind(Database::load(&bytes)), DecodeErrorKind::UnexpectedEof);
    let mut bytes = good.clone();
    set(&mut bytes, NT + 6, 0, 2);
    assert_eq!(kind(Database::load(&bytes)), DecodeErrorKind::InvalidPeSectionCount);
    set(&mut bytes, NT + 6, 101, 2);
    assert_eq!(kind(Database::load(&bytes)), DecodeErrorKind::InvalidPeSectionCount);
    set(&mut bytes, NT + 6, 100, 2);
    assert_eq!(kind(Database::load(&bytes)), DecodeErrorKind::UnexpectedEof);
    bytes.resize(SECTION + 100 * 40, 0);
    assert!(Database::load(&bytes).is_ok());
    assert_eq!(kind(Database::load(&good[..SECTION + 39])), DecodeErrorKind::UnexpectedEof);
    let mut bytes = good.clone();
    set(&mut bytes, NT + 232, 0x1fff, 4);
    assert_eq!(kind(Database::load(&bytes)), DecodeErrorKind::MissingCliHeaderSection);
    set(&mut bytes, NT + 232, 0x2000 + 0x10000, 4);
    assert_eq!(kind(Database::load(&bytes)), DecodeErrorKind::MissingCliHeaderSection);
    let mut bytes = good.clone();
    set(&mut bytes, CLI, 71, 4);
    assert_eq!(kind(Database::load(&bytes)), DecodeErrorKind::InvalidCliHeader);
    let mut bytes = good.clone();
    set(&mut bytes, CLI + 8, 0x100, 4);
    assert_eq!(kind(Database::load(&bytes)), DecodeErrorKind::MissingMetadataSection);
    let mut bytes = good.clone();
    set(&mut bytes, ROOT, 0x424A5343, 4);
    assert_eq!(kind(Database::load(&bytes)), DecodeErrorKind::InvalidMetadataSignature);
    assert!(!Database::is_database(&bytes));
    assert_eq!(kind(Database::load(&good[..CLI + 71])), DecodeErrorKind::UnexpectedEof);
    assert_eq!(kind(Database::load(&good[..ROOT + 3])), DecodeErrorKind::UnexpectedEof);
    // the headers alone make an image, though it cannot be loaded
    assert!(Database::is_database(&good[..ROOT + 4]));
    assert_eq!(kind(Database::load(&good[..ROOT + 4])), DecodeErrorKind::UnexpectedEof);
    // the metadata may lie in another section than the header
    let mut bytes = good.clone();
    set(&mut bytes, NT + 6, 2, 2);
    let mut moved = bytes[..SECTION + 40].to_vec();
    moved.extend_from_slice(&[0u8; 40]);
    set(&mut moved, SECTION + 40 + 8, 0x1000, 4);
    set(&mut moved, SECTION + 40 + 12, 0x20000, 4);
    set(&mut moved, SECTION + 40 + 20, ROOT as u64, 4);
    moved.extend_from_slice(&bytes[SECTION + 80..]);
    set(&mut moved, CLI + 8, 0x20000, 4);
    let db = Database::load(&moved).unwrap();
    assert_eq!(db.table::<TypeDef>().len(), 6);
}

#[test]
fn cache_of_many_types() {
    let mut first = Image::new();
    let mut second = Image::new();
    let even = first.string("Even");
    let odd = first.string("Odd");
    let other_even = second.string("Even");
    for n in 0..300u32 {
        let name = first.string(&format!("T{}", n));
        first.add(TableId::TypeDef, &[0, name, if n % 2 == 0 { even } else { odd }, 0, 1, 1]);
    }
    for n in (0..400u32).rev() {
        let name = second.string(&format!("T{}", n));
        second.add(TableId::TypeDef, &[0, name, other_even, 0, 1, 1]);
    }
    let first = first.build();
    let second = second.build();
    let mut cache = Cache::new();
    cache.insert(Database::load(&first).unwrap());
    cache.insert(Database::load(&second).unwrap());
    for n in 0..400u32 {
        let name = format!("T{}", n);
        let found = cache.find("Even", &name).unwrap();
        assert_eq!(found.name().unwrap(), name);
        let rows = found.as_row().database().table::<TypeDef>().len();
        if n < 300 && n % 2 == 0 {
            assert_eq!((rows, found.get_index()), (300, n));
        } else {
            assert_eq!((rows, found.get_index()), (400, 399 - n));
        }
        assert_eq!(cache.find("Odd", &name).is_some(), n < 300 && n % 2 == 1);
    }
    assert!(cache.find("Even", "T400").is_none());
    assert!(cache.find("", "T1").is_none());
}

#[test]
fn table_size_and_guids() {
    let bytes = sample().build();
    let db = Database::load(&bytes).unwrap();
    assert_eq!(db.table::<TypeDef>().size(), 6);
    assert_eq!(db.get_table::<Field>().size(), 5);
    assert_eq!(db.get_guid(0), Ok(None));
    assert_eq!(db.get_guid(1), Ok(Some(&[0u8; 16][..])));
    assert_eq!(db.get_guid(2), Err(DecodeError(DecodeErrorKind::UnexpectedEof)));
    assert_eq!(db.get_assembly().unwrap().name().unwrap(), "test");
    assert_eq!(db.assembly_name(), Some("test"));
    let mut i = sample();
    i.rows[TableId::Assembly.number()].clear();
    let bytes = i.build();
    let db = Database::load(&bytes).unwrap();
    assert!(db.get_assembly().is_none());
    assert_eq!(db.assembly_name(), None);
}
