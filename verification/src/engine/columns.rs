use vstd::prelude::*;
use crate::engine::kinds::CodedIndexKind;
use crate::engine::kinds::TableId;
use crate::engine::kinds::TABLE_SLOTS;

verus! {

/// Where a column lies within a row, and how many bytes it takes.
#[derive(Clone, Copy, Debug, PartialEq, Eq, Structural)]
pub struct Column {
    pub offset: u8,
    pub size: u8,
}

/// The width of a column that holds an index: two bytes while every index
/// fits in them, else four. It is unset until the row counts are known.
#[derive(Clone, Copy, Debug, PartialEq, Eq, Structural)]
pub enum DynamicSize {
    Unset,
    Size2,
    Size4,
}

impl DynamicSize {
    pub open spec fn spec_size(self) -> u8 {
        match self {
            DynamicSize::Unset => 0,
            DynamicSize::Size2 => 2,
            DynamicSize::Size4 => 4,
        }
    }

    /// The width in bytes. A width that is still unset has none.
    pub fn size(&self) -> (r: u8)
        requires
            !(*self is Unset),
        ensures
            r == self.spec_size(),
            r == 2 || r == 4,
    {
        match self {
            DynamicSize::Unset => 0,
            DynamicSize::Size2 => 2,
            DynamicSize::Size4 => 4,
        }
    }
}

impl Default for DynamicSize {
    fn default() -> (r: Self)
        ensures
            r == DynamicSize::Unset,
    {
        DynamicSize::Unset
    }
}

/// What a column holds, which decides its width.
#[derive(Clone, Copy, Debug, PartialEq, Eq, Structural)]
pub enum ColumnType {
    Fixed2,
    Fixed4,
    Fixed8,
    /// An offset into the string heap.
    StringIndex,
    /// A number of a GUID in the GUID heap.
    GuidIndex,
    /// An offset into the blob heap.
    BlobIndex,
    /// A row number of one table.
    Index(TableId),
    /// A coded index.
    Coded(CodedIndexKind),
}

impl ColumnType {
    /// Whether the width of such a column depends on the image.
    pub open spec fn is_dynamic(self) -> bool {
        !(self is Fixed2 || self is Fixed4 || self is Fixed8)
    }

    /// Whether `size` is a width that such a column can have.
    pub open spec fn admits(self, size: u8) -> bool {
        match self {
            ColumnType::Fixed2 => size == 2,
            ColumnType::Fixed4 => size == 4,
            ColumnType::Fixed8 => size == 8,
            _ => size == 2 || size == 4,
        }
    }
}

/// The columns of each table, in the order in which a row holds them.
pub open spec fn spec_columns(table: TableId) -> Seq<ColumnType> {
    match table {
        TableId::Module => seq![
            ColumnType::Fixed2,
            ColumnType::StringIndex,
            ColumnType::GuidIndex,
            ColumnType::GuidIndex,
            ColumnType::GuidIndex,
        ],
        TableId::TypeRef => seq![
            ColumnType::Coded(CodedIndexKind::ResolutionScope),
            ColumnType::StringIndex,
            ColumnType::StringIndex,
        ],
        TableId::TypeDef => seq![
            ColumnType::Fixed4,
            ColumnType::StringIndex,
            ColumnType::StringIndex,
            ColumnType::Coded(CodedIndexKind::TypeDefOrRef),
            ColumnType::Index(TableId::Field),
            ColumnType::Index(TableId::MethodDef),
        ],
        TableId::Field => seq![
            ColumnType::Fixed2,
            ColumnType::StringIndex,
            ColumnType::BlobIndex,
        ],
        TableId::MethodDef => seq![
            ColumnType::Fixed4,
            ColumnType::Fixed2,
            ColumnType::Fixed2,
            ColumnType::StringIndex,
            ColumnType::BlobIndex,
            ColumnType::Index(TableId::Param),
        ],
        TableId::Param => seq![
            ColumnType::Fixed2,
            ColumnType::Fixed2,
            ColumnType::StringIndex,
        ],
        TableId::InterfaceImpl => seq![
            ColumnType::Index(TableId::TypeDef),
            ColumnType::Coded(CodedIndexKind::TypeDefOrRef),
        ],
        TableId::MemberRef => seq![
            ColumnType::Coded(CodedIndexKind::MemberRefParent),
            ColumnType::StringIndex,
            ColumnType::BlobIndex,
        ],
        TableId::Constant => seq![
            ColumnType::Fixed2,
            ColumnType::Coded(CodedIndexKind::HasConstant),
            ColumnType::BlobIndex,
        ],
        TableId::CustomAttribute => seq![
            ColumnType::Coded(CodedIndexKind::HasCustomAttribute),
            ColumnType::Coded(CodedIndexKind::CustomAttributeType),
            ColumnType::BlobIndex,
        ],
        TableId::FieldMarshal => seq![
            ColumnType::Coded(CodedIndexKind::HasFieldMarshal),
            ColumnType::BlobIndex,
        ],
        TableId::DeclSecurity => seq![
            ColumnType::Fixed2,
            ColumnType::Coded(CodedIndexKind::HasDeclSecurity),
            ColumnType::BlobIndex,
        ],
        TableId::ClassLayout => seq![
            ColumnType::Fixed2,
            ColumnType::Fixed4,
            ColumnType::Index(TableId::TypeDef),
        ],
        TableId::FieldLayout => seq![
            ColumnType::Fixed4,
            ColumnType::Index(TableId::Field),
        ],
        TableId::StandAloneSig => seq![
            ColumnType::BlobIndex,
        ],
        TableId::EventMap => seq![
            ColumnType::Index(TableId::TypeDef),
            ColumnType::Index(TableId::Event),
        ],
        TableId::Event => seq![
            ColumnType::Fixed2,
            ColumnType::StringIndex,
            ColumnType::Coded(CodedIndexKind::TypeDefOrRef),
        ],
        TableId::PropertyMap => seq![
            ColumnType::Index(TableId::TypeDef),
            ColumnType::Index(TableId::Property),
        ],
        TableId::Property => seq![
            ColumnType::Fixed2,
            ColumnType::StringIndex,
            ColumnType::BlobIndex,
        ],
        TableId::MethodSemantics => seq![
            ColumnType::Fixed2,
            ColumnType::Index(TableId::MethodDef),
            ColumnType::Coded(CodedIndexKind::HasSemantics),
        ],
        TableId::MethodImpl => seq![
            ColumnType::Index(TableId::TypeDef),
            ColumnType::Coded(CodedIndexKind::MethodDefOrRef),
            ColumnType::Coded(CodedIndexKind::MethodDefOrRef),
        ],
        TableId::ModuleRef => seq![
            ColumnType::StringIndex,
        ],
        TableId::TypeSpec => seq![
            ColumnType::BlobIndex,
        ],
        TableId::ImplMap => seq![
            ColumnType::Fixed2,
            ColumnType::Coded(CodedIndexKind::MemberForwarded),
            ColumnType::StringIndex,
            ColumnType::Index(TableId::ModuleRef),
        ],
        TableId::FieldRVA => seq![
            ColumnType::Fixed4,
            ColumnType::Index(TableId::Field),
        ],
        TableId::Assembly => seq![
            ColumnType::Fixed4,
            ColumnType::Fixed8,
            ColumnType::Fixed4,
            ColumnType::BlobIndex,
            ColumnType::StringIndex,
            ColumnType::StringIndex,
        ],
        TableId::AssemblyProcessor => seq![
            ColumnType::Fixed4,
        ],
        TableId::AssemblyOS => seq![
            ColumnType::Fixed4,
            ColumnType::Fixed4,
            ColumnType::Fixed4,
        ],
        TableId::AssemblyRef => seq![
            ColumnType::Fixed8,
            ColumnType::Fixed4,
            ColumnType::BlobIndex,
            ColumnType::StringIndex,
            ColumnType::StringIndex,
            ColumnType::BlobIndex,
        ],
        TableId::AssemblyRefProcessor => seq![
            ColumnType::Fixed4,
            ColumnType::Index(TableId::AssemblyRef),
        ],
        TableId::AssemblyRefOS => seq![
            ColumnType::Fixed4,
            ColumnType::Fixed4,
            ColumnType::Fixed4,
            ColumnType::Index(TableId::AssemblyRef),
        ],
        TableId::File => seq![
            ColumnType::Fixed4,
            ColumnType::StringIndex,
            ColumnType::BlobIndex,
        ],
        TableId::ExportedType => seq![
            ColumnType::Fixed4,
            ColumnType::Fixed4,
            ColumnType::StringIndex,
            ColumnType::StringIndex,
            ColumnType::Coded(CodedIndexKind::Implementation),
        ],
        TableId::ManifestResource => seq![
            ColumnType::Fixed4,
            ColumnType::Fixed4,
            ColumnType::StringIndex,
            ColumnType::Coded(CodedIndexKind::Implementation),
        ],
        TableId::NestedClass => seq![
            ColumnType::Index(TableId::TypeDef),
            ColumnType::Index(TableId::TypeDef),
        ],
        TableId::GenericParam => seq![
            ColumnType::Fixed2,
            ColumnType::Fixed2,
            ColumnType::Coded(CodedIndexKind::TypeOrMethodDef),
            ColumnType::StringIndex,
        ],
        TableId::MethodSpec => seq![
            ColumnType::Coded(CodedIndexKind::MethodDefOrRef),
            ColumnType::BlobIndex,
        ],
        TableId::GenericParamConstraint => seq![
            ColumnType::Index(TableId::GenericParam),
            ColumnType::Coded(CodedIndexKind::TypeDefOrRef),
        ],
    }
}

/// The columns of each table, in the order in which a row holds them.
pub fn columns(table: TableId) -> (r: Vec<ColumnType>)
    ensures
        r@ == spec_columns(table),
        1 <= r@.len() <= 6,
{
    let r = match table {
        TableId::Module => vec![
            ColumnType::Fixed2,
            ColumnType::StringIndex,
            ColumnType::GuidIndex,
            ColumnType::GuidIndex,
            ColumnType::GuidIndex,
        ],
        TableId::TypeRef => vec![
            ColumnType::Coded(CodedIndexKind::ResolutionScope),
            ColumnType::StringIndex,
            ColumnType::StringIndex,
        ],
        TableId::TypeDef => vec![
            ColumnType::Fixed4,
            ColumnType::StringIndex,
            ColumnType::StringIndex,
            ColumnType::Coded(CodedIndexKind::TypeDefOrRef),
            ColumnType::Index(TableId::Field),
            ColumnType::Index(TableId::MethodDef),
        ],
        TableId::Field => vec![
            ColumnType::Fixed2,
            ColumnType::StringIndex,
            ColumnType::BlobIndex,
        ],
        TableId::MethodDef => vec![
            ColumnType::Fixed4,
            ColumnType::Fixed2,
            ColumnType::Fixed2,
            ColumnType::StringIndex,
            ColumnType::BlobIndex,
            ColumnType::Index(TableId::Param),
        ],
        TableId::Param => vec![
            ColumnType::Fixed2,
            ColumnType::Fixed2,
            ColumnType::StringIndex,
        ],
        TableId::InterfaceImpl => vec![
            ColumnType::Index(TableId::TypeDef),
            ColumnType::Coded(CodedIndexKind::TypeDefOrRef),
        ],
        TableId::MemberRef => vec![
            ColumnType::Coded(CodedIndexKind::MemberRefParent),
            ColumnType::StringIndex,
            ColumnType::BlobIndex,
        ],
        TableId::Constant => vec![
            ColumnType::Fixed2,
            ColumnType::Coded(CodedIndexKind::HasConstant),
            ColumnType::BlobIndex,
        ],
        TableId::CustomAttribute => vec![
            ColumnType::Coded(CodedIndexKind::HasCustomAttribute),
            ColumnType::Coded(CodedIndexKind::CustomAttributeType),
            ColumnType::BlobIndex,
        ],
        TableId::FieldMarshal => vec![
            ColumnType::Coded(CodedIndexKind::HasFieldMarshal),
            ColumnType::BlobIndex,
        ],
        TableId::DeclSecurity => vec![
            ColumnType::Fixed2,
            ColumnType::Coded(CodedIndexKind::HasDeclSecurity),
            ColumnType::BlobIndex,
        ],
        TableId::ClassLayout => vec![
            ColumnType::Fixed2,
            ColumnType::Fixed4,
            ColumnType::Index(TableId::TypeDef),
        ],
        TableId::FieldLayout => vec![
            ColumnType::Fixed4,
            ColumnType::Index(TableId::Field),
        ],
        TableId::StandAloneSig => vec![
            ColumnType::BlobIndex,
        ],
        TableId::EventMap => vec![
            ColumnType::Index(TableId::TypeDef),
            ColumnType::Index(TableId::Event),
        ],
        TableId::Event => vec![
            ColumnType::Fixed2,
            ColumnType::StringIndex,
            ColumnType::Coded(CodedIndexKind::TypeDefOrRef),
        ],
        TableId::PropertyMap => vec![
            ColumnType::Index(TableId::TypeDef),
            ColumnType::Index(TableId::Property),
        ],
        TableId::Property => vec![
            ColumnType::Fixed2,
            ColumnType::StringIndex,
            ColumnType::BlobIndex,
        ],
        TableId::MethodSemantics => vec![
            ColumnType::Fixed2,
            ColumnType::Index(TableId::MethodDef),
            ColumnType::Coded(CodedIndexKind::HasSemantics),
        ],
        TableId::MethodImpl => vec![
            ColumnType::Index(TableId::TypeDef),
            ColumnType::Coded(CodedIndexKind::MethodDefOrRef),
            ColumnType::Coded(CodedIndexKind::MethodDefOrRef),
        ],
        TableId::ModuleRef => vec![
            ColumnType::StringIndex,
        ],
        TableId::TypeSpec => vec![
            ColumnType::BlobIndex,
        ],
        TableId::ImplMap => vec![
            ColumnType::Fixed2,
            ColumnType::Coded(CodedIndexKind::MemberForwarded),
            ColumnType::StringIndex,
            ColumnType::Index(TableId::ModuleRef),
        ],
        TableId::FieldRVA => vec![
            ColumnType::Fixed4,
            ColumnType::Index(TableId::Field),
        ],
        TableId::Assembly => vec![
            ColumnType::Fixed4,
            ColumnType::Fixed8,
            ColumnType::Fixed4,
            ColumnType::BlobIndex,
            ColumnType::StringIndex,
            ColumnType::StringIndex,
        ],
        TableId::AssemblyProcessor => vec![
            ColumnType::Fixed4,
        ],
        TableId::AssemblyOS => vec![
            ColumnType::Fixed4,
            ColumnType::Fixed4,
            ColumnType::Fixed4,
        ],
        TableId::AssemblyRef => vec![
            ColumnType::Fixed8,
            ColumnType::Fixed4,
            ColumnType::BlobIndex,
            ColumnType::StringIndex,
            ColumnType::StringIndex,
            ColumnType::BlobIndex,
        ],
        TableId::AssemblyRefProcessor => vec![
            ColumnType::Fixed4,
            ColumnType::Index(TableId::AssemblyRef),
        ],
        TableId::AssemblyRefOS => vec![
            ColumnType::Fixed4,
            ColumnType::Fixed4,
            ColumnType::Fixed4,
            ColumnType::Index(TableId::AssemblyRef),
        ],
        TableId::File => vec![
            ColumnType::Fixed4,
            ColumnType::StringIndex,
            ColumnType::BlobIndex,
        ],
        TableId::ExportedType => vec![
            ColumnType::Fixed4,
            ColumnType::Fixed4,
            ColumnType::StringIndex,
            ColumnType::StringIndex,
            ColumnType::Coded(CodedIndexKind::Implementation),
        ],
        TableId::ManifestResource => vec![
            ColumnType::Fixed4,
            ColumnType::Fixed4,
            ColumnType::StringIndex,
            ColumnType::Coded(CodedIndexKind::Implementation),
        ],
        TableId::NestedClass => vec![
            ColumnType::Index(TableId::TypeDef),
            ColumnType::Index(TableId::TypeDef),
        ],
        TableId::GenericParam => vec![
            ColumnType::Fixed2,
            ColumnType::Fixed2,
            ColumnType::Coded(CodedIndexKind::TypeOrMethodDef),
            ColumnType::StringIndex,
        ],
        TableId::MethodSpec => vec![
            ColumnType::Coded(CodedIndexKind::MethodDefOrRef),
            ColumnType::BlobIndex,
        ],
        TableId::GenericParamConstraint => vec![
            ColumnType::Index(TableId::GenericParam),
            ColumnType::Coded(CodedIndexKind::TypeDefOrRef),
        ],
    };
    assert(r@ =~= spec_columns(table));
    r
}

/// Every table has between one and six columns, and its key column is one of them.
pub proof fn lemma_columns_len(table: TableId)
    ensures
        1 <= spec_columns(table).len() <= 6,
        table.spec_key_column() matches Some(c) ==> 0 <= c < spec_columns(table).len()
            && spec_columns(table)[c].is_dynamic(),
{
}

/// The width of an index into a heap: four bytes where the bit `bit` of the
/// heap sizes is set, else two.
pub open spec fn spec_heap_index_size(heap_sizes: u8, bit: u8) -> DynamicSize {
    if (heap_sizes >> bit) & 1 == 1 {
        DynamicSize::Size4
    } else {
        DynamicSize::Size2
    }
}

/// The width of an index into a heap: four bytes where the bit `bit` of the
/// heap sizes is set, else two.
pub fn heap_index_size(heap_sizes: u8, bit: u8) -> (r: DynamicSize)
    requires
        bit < 8,
    ensures
        r == spec_heap_index_size(heap_sizes, bit),
{
    if (heap_sizes >> bit) & 1 == 1 {
        DynamicSize::Size4
    } else {
        DynamicSize::Size2
    }
}

/// The width of a row number of a table with `row_count` rows.
pub open spec fn spec_index_size(row_count: u32) -> DynamicSize {
    if row_count < 0x1_0000 {
        DynamicSize::Size2
    } else {
        DynamicSize::Size4
    }
}

/// Whether a table with `row_count` rows is too long for a two-byte coded
/// index with `tag_bits` tag bits.
pub open spec fn spec_needs_4byte_index(row_count: u32, tag_bits: int) -> bool {
    row_count >= (1u32 << ((16 - tag_bits) as u32))
}

/// Whether a table with `row_count` rows is too long for a two-byte coded
/// index with `tag_bits` tag bits.
pub fn needs_4byte_index(row_count: u32, tag_bits: u8) -> (r: bool)
    requires
        tag_bits <= 16,
    ensures
        r == spec_needs_4byte_index(row_count, tag_bits as int),
{
    row_count >= (1u32 << ((16 - tag_bits) as u32))
}

/// The width of a coded index of kind `kind`: two bytes iff every table that
/// it can refer to has few enough rows.
pub open spec fn spec_coded_index_size(kind: CodedIndexKind, counts: Seq<u32>) -> DynamicSize {
    if exists|tag: int|
        0 <= tag < 32 && (#[trigger] kind.spec_target(tag)) is Some && spec_needs_4byte_index(
            counts[kind.spec_target(tag).unwrap().spec_number()],
            kind.spec_tag_bits(),
        ) {
        DynamicSize::Size4
    } else {
        DynamicSize::Size2
    }
}

/// The width of a coded index of kind `kind`, given the row count of every table.
pub fn coded_index_size(kind: CodedIndexKind, counts: &Vec<u32>) -> (r: DynamicSize)
    requires
        counts@.len() == TABLE_SLOTS,
    ensures
        r == spec_coded_index_size(kind, counts@),
{
    let bits = kind.tag_bits();
    let mut tag: u32 = 0;
    while tag < 32
        invariant
            tag <= 32,
            counts@.len() == TABLE_SLOTS,
            bits == kind.spec_tag_bits(),
            1 <= bits <= 5,
            forall|t: int|
                0 <= t < tag && (#[trigger] kind.spec_target(t)) is Some
                    ==> !spec_needs_4byte_index(
                    counts@[kind.spec_target(t).unwrap().spec_number()],
                    kind.spec_tag_bits(),
                ),
        decreases 32 - tag,
    {
        match kind.target(tag) {
            Some(t) => {
                if needs_4byte_index(counts[t.number()], bits) {
                    assert(kind.spec_target(tag as int) is Some);
                    return DynamicSize::Size4;
                }
            },
            None => {},
        }
        tag += 1;
    }
    DynamicSize::Size2
}

/// The width in bytes of a column that holds `column`, in an image with the
/// heap sizes `heap_sizes` whose tables have the row counts `counts`.
pub open spec fn spec_width(column: ColumnType, heap_sizes: u8, counts: Seq<u32>) -> u8 {
    match column {
        ColumnType::Fixed2 => 2,
        ColumnType::Fixed4 => 4,
        ColumnType::Fixed8 => 8,
        ColumnType::StringIndex => spec_heap_index_size(heap_sizes, 0).spec_size(),
        ColumnType::GuidIndex => spec_heap_index_size(heap_sizes, 1).spec_size(),
        ColumnType::BlobIndex => spec_heap_index_size(heap_sizes, 2).spec_size(),
        ColumnType::Index(t) => spec_index_size(counts[t.spec_number()]).spec_size(),
        ColumnType::Coded(k) => spec_coded_index_size(k, counts).spec_size(),
    }
}

/// The width in bytes of a column that holds `column`.
pub fn width(column: ColumnType, heap_sizes: u8, counts: &Vec<u32>) -> (r: u8)
    requires
        counts@.len() == TABLE_SLOTS,
    ensures
        r == spec_width(column, heap_sizes, counts@),
        column.admits(r),
{
    match column {
        ColumnType::Fixed2 => 2,
        ColumnType::Fixed4 => 4,
        ColumnType::Fixed8 => 8,
        ColumnType::StringIndex => heap_index_size(heap_sizes, 0).size(),
        ColumnType::GuidIndex => heap_index_size(heap_sizes, 1).size(),
        ColumnType::BlobIndex => heap_index_size(heap_sizes, 2).size(),
        ColumnType::Index(t) => {
            if counts[t.number()] < 0x1_0000 {
                2
            } else {
                4
            }
        },
        ColumnType::Coded(k) => coded_index_size(k, counts).size(),
    }
}

/// The widths of the columns of `table`, in order.
pub open spec fn spec_widths(table: TableId, heap_sizes: u8, counts: Seq<u32>) -> Seq<u8> {
    Seq::new(
        spec_columns(table).len(),
        |i: int| spec_width(spec_columns(table)[i], heap_sizes, counts),
    )
}

/// The widths of the columns of `table`, in order.
pub fn widths(table: TableId, heap_sizes: u8, counts: &Vec<u32>) -> (r: Vec<u8>)
    requires
        counts@.len() == TABLE_SLOTS,
    ensures
        r@ == spec_widths(table, heap_sizes, counts@),
{
    let cols = columns(table);
    let mut r: Vec<u8> = Vec::new();
    let mut i: usize = 0;
    while i < cols.len()
        invariant
            i <= cols@.len(),
            cols@ == spec_columns(table),
            counts@.len() == TABLE_SLOTS,
            r@.len() == i,
            forall|j: int| 0 <= j < i ==> r@[j] == spec_width(cols@[j], heap_sizes, counts@),
        decreases cols@.len() - i,
    {
        r.push(width(cols[i], heap_sizes, counts));
        i += 1;
    }
    assert(r@ =~= spec_widths(table, heap_sizes, counts@));
    r
}

/// The sum of the first `i` of `widths`: where column `i` starts.
pub open spec fn spec_offset(widths: Seq<u8>, i: int) -> int
    decreases i,
{
    if i <= 0 {
        0
    } else {
        spec_offset(widths, i - 1) + widths[i - 1] as int
    }
}

/// The size of a row whose columns have the widths `widths`: their sum.
pub open spec fn spec_row_size(widths: Seq<u8>) -> int {
    spec_offset(widths, widths.len() as int)
}

/// The columns with the widths `widths`, each starting where the one before ends.
pub open spec fn spec_layout(widths: Seq<u8>) -> Seq<Column> {
    Seq::new(
        widths.len(),
        |i: int| Column { offset: spec_offset(widths, i) as u8, size: widths[i] },
    )
}

pub proof fn lemma_offset_bound(widths: Seq<u8>, i: int)
    requires
        0 <= i <= widths.len(),
        forall|j: int| 0 <= j < widths.len() ==> widths[j] <= 8,
    ensures
        0 <= spec_offset(widths, i) <= 8 * i,
    decreases i,
{
    if i > 0 {
        lemma_offset_bound(widths, i - 1);
    }
}

/// Columns never overlap and the row size covers all of them.
pub proof fn lemma_offset_monotone(widths: Seq<u8>, i: int, j: int)
    requires
        0 <= i <= j <= widths.len(),
    ensures
        spec_offset(widths, i) <= spec_offset(widths, j),
        i < j ==> spec_offset(widths, i) + widths[i] <= spec_offset(widths, j),
    decreases j - i,
{
    if i < j {
        lemma_offset_monotone(widths, i, j - 1);
    }
}

/// The columns with the widths `widths`, and the size of the row.
pub fn layout(widths: &Vec<u8>) -> (r: (Vec<Column>, u8))
    requires
        widths@.len() <= 6,
        forall|j: int| 0 <= j < widths@.len() ==> widths@[j] <= 8,
    ensures
        r.0@ == spec_layout(widths@),
        r.1 == spec_row_size(widths@),
{
    let mut cols: Vec<Column> = Vec::new();
    let mut offset: u8 = 0;
    let mut i: usize = 0;
    while i < widths.len()
        invariant
            i <= widths@.len() <= 6,
            forall|j: int| 0 <= j < widths@.len() ==> widths@[j] <= 8,
            offset == spec_offset(widths@, i as int),
            offset <= 8 * i,
            cols@.len() == i,
            forall|j: int| 0 <= j < i ==> cols@[j] == spec_layout(widths@)[j],
        decreases widths@.len() - i,
    {
        cols.push(Column { offset: offset, size: widths[i] });
        offset = offset + widths[i];
        i += 1;
    }
    assert(cols@ =~= spec_layout(widths@));
    (cols, offset)
}

} // verus!
