use vstd::prelude::*;
use vstd::slice::slice_subrange;
use vstd::string::StringSliceAdditionalSpecFns;
use crate::engine::bytes::as_c_str;
use crate::engine::bytes::lemma_c_str_end;
use crate::engine::bytes::spec_c_str_end;
use crate::engine::columns::lemma_columns_len;
use crate::engine::columns::spec_columns;
use crate::engine::compressed::read_compressed;
use crate::engine::compressed::spec_uncompress;
use crate::engine::tables::spec_tables;
use crate::engine::tables::tables_wf;
use crate::engine::tables::utf8_str;
use crate::engine::tables::Tables;
use crate::engine::kinds::CodedIndexKind;
use crate::engine::kinds::TableId;
use crate::engine::pe::locate_metadata;
use crate::engine::pe::spec_locate_metadata;
use crate::engine::search::equal_range_with;
use crate::engine::search::sorted_over;
use crate::engine::streams::find_streams;
use crate::engine::streams::spec_streams;
use crate::engine::streams::StreamRange;
use crate::engine::table::TableInfo;
use crate::engine::table::TableModel;
use crate::error::DecodeError;
use crate::error::DecodeErrorKind;

verus! {

/// What a loaded image is: its three heaps and its tables, by table number.
pub struct DatabaseModel {
    pub strings: Seq<u8>,
    pub blobs: Seq<u8>,
    pub guids: Seq<u8>,
    pub tables: Seq<TableModel>,
}

/// The string that starts at `index` in the string heap `heap`: the bytes up
/// to the next zero byte, which must be valid UTF-8.
pub open spec fn spec_read_string(heap: Seq<u8>, index: int) -> Result<Seq<u8>, DecodeErrorKind> {
    let end = spec_c_str_end(heap, index);
    if index < 0 || index > heap.len() {
        Err(DecodeErrorKind::UnexpectedEof)
    } else if end >= heap.len() {
        Err(DecodeErrorKind::MissingStringTerminator)
    } else if !vstd::utf8::valid_utf8(heap.subrange(index, end)) {
        Err(DecodeErrorKind::InvalidUtf8)
    } else {
        Ok(heap.subrange(index, end))
    }
}

/// The blob that starts at `index` in the blob heap `heap`: a compressed
/// length, then that many bytes.
pub open spec fn spec_read_blob(heap: Seq<u8>, index: int) -> Result<Seq<u8>, DecodeErrorKind> {
    match spec_uncompress(heap, index) {
        Err(DecodeErrorKind::InvalidCompressedInteger) => Err(DecodeErrorKind::InvalidBlobEncoding),
        Err(kind) => Err(kind),
        Ok((size, width)) => if heap.len() < index + width + size {
            Err(DecodeErrorKind::UnexpectedEof)
        } else {
            Ok(heap.subrange(index + width, index + width + size))
        },
    }
}

/// The GUID with the number `index` in the GUID heap `heap`: the numbers
/// count from one, each GUID takes sixteen bytes, and zero stands for none.
pub open spec fn spec_read_guid(heap: Seq<u8>, index: int) -> Result<
    Option<Seq<u8>>,
    DecodeErrorKind,
> {
    if index == 0 {
        Ok(None)
    } else if index < 0 || heap.len() < 16 * index {
        Err(DecodeErrorKind::UnexpectedEof)
    } else {
        Ok(Some(heap.subrange(16 * (index - 1), 16 * index)))
    }
}

/// The GUID with the number `index` in the GUID heap `guids`.
pub fn read_guid<'a>(guids: &'a [u8], index: u32) -> (r: Result<Option<&'a [u8]>, DecodeError>)
    ensures
        match spec_read_guid(guids@, index as int) {
            Ok(Some(bytes)) => r matches Ok(Some(b)) && b@ == bytes,
            Ok(None) => r matches Ok(None),
            Err(kind) => r matches Err(e) && e == DecodeError(kind),
        },
{
    if index == 0 {
        return Ok(None);
    }
    let len = guids.len();
    let end = 16 * index as u64;
    if (len as u64) < end {
        return Err(DecodeError(DecodeErrorKind::UnexpectedEof));
    }
    Ok(Some(slice_subrange(guids, (end - 16) as usize, end as usize)))
}

/// Reading a string again gives the same range of bytes: it starts at the
/// index, ends before the first zero byte and holds none.
pub proof fn lemma_read_string_range(heap: Seq<u8>, index: int)
    ensures
        spec_read_string(heap, index) matches Ok(bytes) ==> {
            &&& 0 <= index <= index + bytes.len() < heap.len()
            &&& bytes == heap.subrange(index, index + bytes.len())
            &&& heap[index + bytes.len()] == 0
            &&& forall|i: int| 0 <= i < bytes.len() ==> bytes[i] != 0
            &&& spec_read_string(heap, index) == Ok::<Seq<u8>, DecodeErrorKind>(
                heap.subrange(index, index + bytes.len()),
            )
        },
{
    if 0 <= index <= heap.len() {
        lemma_c_str_end(heap, index);
    }
}

/// The string that starts at `index` in the string heap `strings`.
pub fn read_string<'a>(strings: &'a [u8], index: u32) -> (r: Result<&'a str, DecodeError>)
    ensures
        match spec_read_string(strings@, index as int) {
            Ok(bytes) => r matches Ok(s) && s.spec_bytes() == bytes,
            Err(kind) => r matches Err(e) && e == DecodeError(kind),
        },
{
    let len = strings.len();
    if index as u64 > len as u64 {
        return Err(DecodeError(DecodeErrorKind::UnexpectedEof));
    }
    let bytes = as_c_str(strings, index as usize);
    proof {
        lemma_c_str_end(strings@, index as int);
    }
    if bytes.len() >= len - index as usize {
        return Err(DecodeError(DecodeErrorKind::MissingStringTerminator));
    }
    match utf8_str(bytes) {
        Some(s) => Ok(s),
        None => Err(DecodeError(DecodeErrorKind::InvalidUtf8)),
    }
}

/// The blob that starts at `index` in the blob heap `blobs`.
pub fn read_blob<'a>(blobs: &'a [u8], index: u32) -> (r: Result<&'a [u8], DecodeError>)
    ensures
        match spec_read_blob(blobs@, index as int) {
            Ok(bytes) => r matches Ok(b) && b@ == bytes,
            Err(kind) => r matches Err(e) && e == DecodeError(kind),
        },
{
    let len = blobs.len();
    if index as u64 >= len as u64 {
        return Err(DecodeError(DecodeErrorKind::UnexpectedEof));
    }
    match read_compressed(blobs, index as usize) {
        Err(e) => {
            if e.0 == DecodeErrorKind::InvalidCompressedInteger {
                Err(DecodeError(DecodeErrorKind::InvalidBlobEncoding))
            } else {
                Err(e)
            }
        },
        Ok((size, start)) => {
            if ((len - start) as u64) < size as u64 {
                Err(DecodeError(DecodeErrorKind::UnexpectedEof))
            } else {
                Ok(slice_subrange(blobs, start, start + size as usize))
            }
        },
    }
}

impl DatabaseModel {
    /// Every table is laid out as its columns ask.
    pub open spec fn wf(self) -> bool {
        tables_wf(self.tables)
    }

    /// The table `table`.
    pub open spec fn table(self, table: TableId) -> TableModel {
        self.tables[table.spec_number()]
    }

    /// The number of rows of `table`.
    pub open spec fn row_count(self, table: TableId) -> int {
        self.table(table).row_count as int
    }

    /// The number in the cell of `table` at row `row` and column `col`.
    pub open spec fn cell(self, table: TableId, row: int, col: int) -> int {
        self.table(table).cell(row, col)
    }

    /// The string that a cell names.
    pub open spec fn string(self, table: TableId, row: int, col: int) -> Result<
        Seq<u8>,
        DecodeErrorKind,
    > {
        spec_read_string(self.strings, self.cell(table, row, col))
    }

    /// The blob that a cell names; the index zero names none.
    pub open spec fn blob(self, table: TableId, row: int, col: int) -> Result<
        Option<Seq<u8>>,
        DecodeErrorKind,
    > {
        if self.cell(table, row, col) == 0 {
            Ok(None)
        } else {
            match spec_read_blob(self.blobs, self.cell(table, row, col)) {
                Ok(bytes) => Ok(Some(bytes)),
                Err(kind) => Err(kind),
            }
        }
    }

    /// The rows of `table` never decrease in their key column.
    pub open spec fn key_sorted(self, table: TableId) -> bool {
        forall|i: int, j: int|
            0 <= i <= j < self.row_count(table) ==> self.cell(
                table,
                i,
                table.spec_key_column().unwrap(),
            ) <= self.cell(table, j, table.spec_key_column().unwrap())
    }

    /// A cell of a table of a well-formed image is a number of as many bytes
    /// as its column is wide, read from within the bytes of its row.
    pub proof fn lemma_cell(self, table: TableId, row: int, col: int)
        requires
            self.wf(),
            0 <= row < self.row_count(table),
            0 <= col < spec_columns(table).len(),
        ensures
            spec_columns(table)[col].admits(self.table(table).columns[col].size),
            self.table(table).cell_offset(row, col) + self.table(table).columns[col].size <= (row
                + 1) * self.table(table).row_size <= self.table(table).data.len(),
            self.table(table).data.len() == self.row_count(table) * self.table(table).row_size,
            self.table(table).columns[col].size == 2 ==> 0 <= self.cell(table, row, col)
                < 0x1_0000,
            self.table(table).columns[col].size == 4 ==> 0 <= self.cell(table, row, col)
                < 0x1_0000_0000,
            0 <= self.cell(table, row, col) < 0x1_0000_0000_0000_0000,
    {
        table.lemma_number_round_trip();
        let t = self.table(table);
        assert(t.wf());
        assert(t.conforms(table));
        t.lemma_cell_in_bounds(row, col);
        crate::engine::bytes::lemma_le_bounds(t.data, t.cell_offset(row, col));
        crate::engine::bytes::lemma_le_bounds(t.data, t.cell_offset(row, col) + 4);
    }
}

/// The bytes of the stream at `range`.
pub open spec fn spec_stream(data: Seq<u8>, range: StreamRange) -> Seq<u8> {
    data.subrange(range.start as int, range.start + range.size)
}

/// What loading the image `data` gives: the metadata root is found through
/// the PE headers, the streams through the root, and the tables are read
/// from the tables stream.
pub open spec fn spec_load(data: Seq<u8>) -> Result<DatabaseModel, DecodeErrorKind> {
    match spec_locate_metadata(data) {
        Err(kind) => Err(kind),
        Ok(root) => match spec_streams(data, root) {
            Err(kind) => Err(kind),
            Ok(streams) => match spec_tables(spec_stream(data, streams.tables.unwrap())) {
                Err(kind) => Err(kind),
                Ok(tables) => Ok(
                    DatabaseModel {
                        strings: spec_stream(data, streams.strings.unwrap()),
                        blobs: spec_stream(data, streams.blobs.unwrap()),
                        guids: spec_stream(data, streams.guids.unwrap()),
                        tables: tables,
                    },
                ),
            },
        },
    }
}

/// A loaded image. It borrows the bytes it was loaded from and never changes.
pub struct Database<'db> {
    strings: &'db [u8],
    blobs: &'db [u8],
    guids: &'db [u8],
    tables: Tables<'db>,
}

impl<'db> View for Database<'db> {
    type V = DatabaseModel;

    closed spec fn view(&self) -> DatabaseModel {
        DatabaseModel {
            strings: self.strings@,
            blobs: self.blobs@,
            guids: self.guids@,
            tables: self.tables@,
        }
    }
}

/// The part of `data` that the stream at `range` takes.
fn stream_bytes<'a>(data: &'a [u8], range: StreamRange) -> (r: &'a [u8])
    requires
        range.start + range.size <= data@.len(),
    ensures
        r@ == spec_stream(data@, range),
{
    let len = data.len();
    slice_subrange(data, range.start, range.start + range.size)
}

impl<'db> Database<'db> {
    #[verifier::type_invariant]
    spec fn inv(self) -> bool {
        tables_wf(self.tables@) && self.tables.filled()
    }

    /// Loads the image `data`. The first failure ends the load.
    pub fn load(data: &'db [u8]) -> (r: Result<Database<'db>, DecodeError>)
        ensures
            match spec_load(data@) {
                Ok(model) => r matches Ok(db) && db@ == model && model.wf(),
                Err(kind) => r matches Err(e) && e == DecodeError(kind),
            },
    {
        let root = match locate_metadata(data) {
            Err(e) => {
                return Err(e);
            },
            Ok(root) => root,
        };
        let streams = match find_streams(data, root) {
            Err(e) => {
                return Err(e);
            },
            Ok(streams) => streams,
        };
        let (strings, blobs, guids, stream) = match (
            streams.strings,
            streams.blobs,
            streams.guids,
            streams.tables,
        ) {
            (Some(s), Some(b), Some(g), Some(t)) => (
                stream_bytes(data, s),
                stream_bytes(data, b),
                stream_bytes(data, g),
                stream_bytes(data, t),
            ),
            _ => {
                return Err(DecodeError(DecodeErrorKind::MissingTablesStream));
            },
        };
        let tables = match Tables::parse(stream) {
            Err(e) => {
                return Err(e);
            },
            Ok(tables) => tables,
        };
        Ok(Database { strings: strings, blobs: blobs, guids: guids, tables: tables })
    }

    /// Loads the image `data`.
    pub fn from_data(data: &'db [u8]) -> (r: Result<Database<'db>, DecodeError>)
        ensures
            match spec_load(data@) {
                Ok(model) => r matches Ok(db) && db@ == model && model.wf(),
                Err(kind) => r matches Err(e) && e == DecodeError(kind),
            },
    {
        Database::load(data)
    }

    /// Whether `data` is an image that `load` would find the metadata root
    /// of; nothing beyond the root is looked at.
    pub fn is_database(data: &[u8]) -> (r: bool)
        ensures
            r == spec_locate_metadata(data@) is Ok,
    {
        crate::engine::pe::is_database(data)
    }

    /// The table `table`: its row count, its layout and its bytes.
    pub fn get_table_info(&self, table: TableId) -> (r: &TableInfo<'db>)
        ensures
            r@ == self@.table(table),
            r@.wf(),
            r@.conforms(table),
            r.m_data matches Some(data) && data@ == r@.data,
            self@.wf(),
    {
        proof {
            use_type_invariant(self);
            table.lemma_number_round_trip();
        }
        self.tables.get_table_info(table)
    }

    /// The string that starts at `index` in the string heap.
    pub fn get_string(&self, index: u32) -> (r: Result<&'db str, DecodeError>)
        ensures
            match spec_read_string(self@.strings, index as int) {
                Ok(bytes) => r matches Ok(s) && s.spec_bytes() == bytes,
                Err(kind) => r matches Err(e) && e == DecodeError(kind),
            },
    {
        read_string(self.strings, index)
    }

    /// The GUID with the number `index` in the GUID heap; zero stands for none.
    pub fn get_guid(&self, index: u32) -> (r: Result<Option<&'db [u8]>, DecodeError>)
        ensures
            match spec_read_guid(self@.guids, index as int) {
                Ok(Some(bytes)) => r matches Ok(Some(b)) && b@ == bytes,
                Ok(None) => r matches Ok(None),
                Err(kind) => r matches Err(e) && e == DecodeError(kind),
            },
    {
        read_guid(self.guids, index)
    }

    /// The blob that starts at `index` in the blob heap.
    pub fn get_blob(&self, index: u32) -> (r: Result<&'db [u8], DecodeError>)
        ensures
            match spec_read_blob(self@.blobs, index as int) {
                Ok(bytes) => r matches Ok(b) && b@ == bytes,
                Err(kind) => r matches Err(e) && e == DecodeError(kind),
            },
    {
        read_blob(self.blobs, index)
    }
}


/// The coded index `value` of kind `kind`, taken apart: zero stands for no
/// reference; else the low bits are the tag, which must pick a table, and
/// the rest is the number of a row of that table, counted from one.
pub open spec fn spec_decode_coded(kind: CodedIndexKind, value: u32, model: DatabaseModel)
    -> Result<Option<(TableId, int)>, DecodeErrorKind> {
    let bits = kind.spec_tag_bits() as u32;
    let tag = value & (((1u32 << bits) - 1) as u32);
    let row = value >> bits;
    if value == 0 {
        Ok(None)
    } else {
        match kind.spec_target(tag as int) {
            None => Err(DecodeErrorKind::InvalidCodedIndexTag),
            Some(t) => if row == 0 || row > model.row_count(t) {
                Err(DecodeErrorKind::InvalidRowIndex)
            } else {
                Ok(Some((t, row - 1)))
            },
        }
    }
}

/// The coded index of kind `kind` that refers to the row `index` of `table`.
pub open spec fn spec_encode_coded(kind: CodedIndexKind, table: TableId, index: u32) -> u32 {
    (((index + 1) as u32) << (kind.spec_tag_bits() as u32)) | (kind.spec_tag_of(table).unwrap() as u32)
}

/// The rows of `target` that the list column `col` of the row `row` of
/// `table` names: from the number in the cell up to the number in the same
/// cell of the next row, or up to the end of `target` for the last row. Both
/// numbers count from one.
pub open spec fn spec_list_range(
    model: DatabaseModel,
    table: TableId,
    row: int,
    col: int,
    target: TableId,
) -> Result<(int, int), DecodeErrorKind> {
    let first = model.cell(table, row, col);
    let last = if row + 1 < model.row_count(table) {
        model.cell(table, row + 1, col)
    } else {
        model.row_count(target) + 1
    };
    if 1 <= first <= last <= model.row_count(target) + 1 {
        Ok((first - 1, last - 1))
    } else {
        Err(DecodeErrorKind::InvalidRowIndex)
    }
}

/// `r` is the string `expected`, or the failure that stands in its place.
pub open spec fn is_string(r: Result<&str, DecodeError>, expected: Result<Seq<u8>, DecodeErrorKind>)
    -> bool {
    match expected {
        Ok(bytes) => r matches Ok(s) && s.spec_bytes() == bytes,
        Err(kind) => r matches Err(e) && e == DecodeError(kind),
    }
}

/// `r` is the blob `expected`, or the failure that stands in its place.
pub open spec fn is_blob(
    r: Result<Option<&[u8]>, DecodeError>,
    expected: Result<Option<Seq<u8>>, DecodeErrorKind>,
) -> bool {
    match expected {
        Ok(Some(bytes)) => r matches Ok(Some(b)) && b@ == bytes,
        Ok(None) => r matches Ok(None),
        Err(kind) => r matches Err(e) && e == DecodeError(kind),
    }
}

/// `r` is a run of the rows `expected` of the image `model`, or the failure
/// that stands in its place.
pub open spec fn is_list<'db, R: TableRow<'db>>(
    r: Result<TableRowIterator<'db, R>, DecodeError>,
    expected: Result<(int, int), DecodeErrorKind>,
    model: DatabaseModel,
) -> bool {
    match expected {
        Ok((first, last)) => r matches Ok(it) && it.model() == model && it.start() == first
            && it.end() == last && it.valid(),
        Err(kind) => r matches Err(e) && e == DecodeError(kind),
    }
}

/// `r` is a run of rows of the image `model` that have the key `key`: all
/// the rows with that key where their table is sorted by it.
pub open spec fn is_key_list<'db, R: TableRow<'db>>(
    r: Result<TableRowIterator<'db, R>, DecodeError>,
    key: u32,
    model: DatabaseModel,
) -> bool {
    r matches Ok(it) && it.model() == model && it.valid() && key_range(
        model,
        R::kind(),
        key,
        it.start(),
        it.end(),
    )
}

/// `row` is the row `index` of the table of `R` in the image `model`.
pub open spec fn is_row<'db, R: TableRow<'db>>(row: R, model: DatabaseModel, index: int) -> bool {
    row.row().model() == model && row.row().table() == R::kind() && row.row().index() == index
}

/// A row of a table of a loaded image: a handle that can be copied.
#[derive(Clone, Copy)]
pub struct Row<'db> {
    db: &'db Database<'db>,
    table: TableId,
    index: u32,
}

/// A kind of row: the rows of one table, with their accessors.
pub trait TableRow<'db>: Sized {
    /// The table that these rows are of.
    spec fn kind() -> TableId;

    /// The row behind this value.
    spec fn row(&self) -> Row<'db>;

    /// The table that these rows are of.
    fn table_id() -> (r: TableId)
        ensures
            r == Self::kind(),
    ;

    /// Takes a row of the right table as a row of this kind.
    fn from_row(row: Row<'db>) -> (r: Self)
        requires
            row.table() == Self::kind(),
        ensures
            r.row() == row,
    ;

    /// The number of this row within its table, from zero.
    fn get_index(&self) -> (r: u32)
        ensures
            r == self.row().index(),
    ;

    /// The row behind this value.
    fn as_row(&self) -> (r: Row<'db>)
        ensures
            r == self.row(),
            r.table() == Self::kind(),
            r.valid(),
    ;
}

impl<'db> Row<'db> {
    #[verifier::type_invariant]
    spec fn inv(self) -> bool {
        (self.index as int) < self.db@.row_count(self.table)
    }

    /// The image that the row belongs to.
    pub closed spec fn model(self) -> DatabaseModel {
        self.db@
    }

    /// The table that the row belongs to.
    pub closed spec fn table(self) -> TableId {
        self.table
    }

    /// The number of the row within its table, from zero.
    pub closed spec fn index(self) -> int {
        self.index as int
    }

    /// The row is one of the rows of its table, in a well-formed image.
    pub open spec fn valid(self) -> bool {
        self.model().wf() && 0 <= self.index() < self.model().row_count(self.table())
    }

    /// The number in the cell of this row at column `col`.
    pub open spec fn cell(self, col: int) -> int {
        self.model().cell(self.table(), self.index(), col)
    }

    /// The string that the cell at column `col` names.
    pub open spec fn string(self, col: int) -> Result<Seq<u8>, DecodeErrorKind> {
        self.model().string(self.table(), self.index(), col)
    }

    /// The blob that the cell at column `col` names.
    pub open spec fn blob(self, col: int) -> Result<Option<Seq<u8>>, DecodeErrorKind> {
        self.model().blob(self.table(), self.index(), col)
    }

    /// The row that the coded index of kind `kind` at column `col` refers to.
    pub open spec fn coded(self, col: int, kind: CodedIndexKind) -> Result<
        Option<(TableId, int)>,
        DecodeErrorKind,
    > {
        spec_decode_coded(kind, self.cell(col) as u32, self.model())
    }

    /// The rows of `target` that the list column `col` names.
    pub open spec fn list(self, col: int, target: TableId) -> Result<(int, int), DecodeErrorKind> {
        spec_list_range(self.model(), self.table(), self.index(), col, target)
    }

    /// Whether `col` is a column of this row whose width depends on the image.
    pub open spec fn dynamic_column(self, col: int) -> bool {
        0 <= col < spec_columns(self.table()).len() && spec_columns(self.table())[col].is_dynamic()
    }

    /// The row `index` of `table` in `db`.
    pub fn new(db: &'db Database<'db>, table: TableId, index: u32) -> (r: Row<'db>)
        requires
            index < db@.row_count(table),
        ensures
            r.model() == db@,
            r.table() == table,
            r.index() == index,
            r.valid(),
    {
        proof {
            use_type_invariant(db);
        }
        Row { db: db, table: table, index: index }
    }

    /// The image that the row belongs to.
    pub fn database(&self) -> (r: &'db Database<'db>)
        ensures
            r@ == self.model(),
            self.valid(),
    {
        proof {
            use_type_invariant(self);
            use_type_invariant(self.db);
        }
        self.db
    }

    /// The table that the row belongs to.
    pub fn table_id(&self) -> (r: TableId)
        ensures
            r == self.table(),
    {
        self.table
    }

    /// The number of the row within its table, from zero.
    pub fn get_index(&self) -> (r: u32)
        ensures
            r == self.index(),
            self.valid(),
    {
        proof {
            use_type_invariant(self);
            use_type_invariant(self.db);
        }
        self.index
    }

    /// The number in the cell at column `col`, whatever the width of the column.
    pub fn get_value(&self, col: usize) -> (r: u64)
        requires
            col < spec_columns(self.table()).len(),
        ensures
            r == self.cell(col as int),
            self.valid(),
    {
        proof {
            use_type_invariant(self);
            use_type_invariant(self.db);
            self.db@.lemma_cell(self.table, self.index as int, col as int);
        }
        let info = self.db.get_table_info(self.table);
        match info.get_value(col, self.index) {
            Ok(v) => v,
            Err(_) => 0,
        }
    }

    /// The number in the cell at the two-byte column `col`.
    pub fn get_u16(&self, col: usize) -> (r: u16)
        requires
            col < spec_columns(self.table()).len(),
            spec_columns(self.table())[col as int] is Fixed2,
        ensures
            r == self.cell(col as int),
            self.valid(),
    {
        proof {
            use_type_invariant(self);
            use_type_invariant(self.db);
            self.db@.lemma_cell(self.table, self.index as int, col as int);
        }
        self.get_value(col) as u16
    }

    /// The number in the cell at the column `col`, which is at most four bytes wide.
    pub fn get_u32(&self, col: usize) -> (r: u32)
        requires
            col < spec_columns(self.table()).len(),
            !(spec_columns(self.table())[col as int] is Fixed8),
        ensures
            r == self.cell(col as int),
            self.valid(),
    {
        proof {
            use_type_invariant(self);
            use_type_invariant(self.db);
            self.db@.lemma_cell(self.table, self.index as int, col as int);
        }
        self.get_value(col) as u32
    }

    /// The string that the cell at column `col` names.
    pub fn get_string(&self, col: usize) -> (r: Result<&'db str, DecodeError>)
        requires
            self.dynamic_column(col as int),
        ensures
            is_string(r, self.string(col as int)),
    {
        let index = self.get_u32(col);
        self.db.get_string(index)
    }

    /// The blob that the cell at column `col` names; the index zero names none.
    pub fn get_blob(&self, col: usize) -> (r: Result<Option<&'db [u8]>, DecodeError>)
        requires
            self.dynamic_column(col as int),
        ensures
            is_blob(r, self.blob(col as int)),
    {
        let value = self.get_u32(col);
        if value == 0 {
            Ok(None)
        } else {
            match self.db.get_blob(value) {
                Ok(b) => Ok(Some(b)),
                Err(e) => Err(e),
            }
        }
    }

    /// The row that the coded index `value` of kind `kind` refers to.
    pub fn decode_coded_index(db: &'db Database<'db>, kind: CodedIndexKind, value: u32) -> (r:
        Result<Option<Row<'db>>, DecodeError>)
        ensures
            match spec_decode_coded(kind, value, db@) {
                Ok(Some((t, i))) => r matches Ok(Some(row)) && row.model() == db@ && row.table()
                    == t && row.index() == i && row.valid() && kind.spec_tag_of(t) is Some,
                Ok(None) => r matches Ok(None),
                Err(e) => r matches Err(err) && err == DecodeError(e),
            },
    {
        if value == 0 {
            return Ok(None);
        }
        let bits = kind.tag_bits() as u32;
        assert(1u32 << bits >= 1) by (bit_vector)
            requires
                1 <= bits <= 5,
        ;
        let tag = value & ((1u32 << bits) - 1);
        let row = value >> bits;
        match kind.target(tag) {
            None => Err(DecodeError(DecodeErrorKind::InvalidCodedIndexTag)),
            Some(t) => {
                proof {
                    kind.lemma_tags(tag as int);
                }
                let info = db.get_table_info(t);
                if row == 0 || row > info.len() {
                    Err(DecodeError(DecodeErrorKind::InvalidRowIndex))
                } else {
                    Ok(Some(Row::new(db, t, row - 1)))
                }
            },
        }
    }

    /// The row that the coded index in the cell at column `col` refers to.
    pub fn get_coded_index(&self, col: usize, kind: CodedIndexKind) -> (r: Result<
        Option<Row<'db>>,
        DecodeError,
    >)
        requires
            self.dynamic_column(col as int),
        ensures
            match spec_decode_coded(kind, self.cell(col as int) as u32, self.model()) {
                Ok(Some((t, i))) => r matches Ok(Some(row)) && row.model() == self.model()
                    && row.table() == t && row.index() == i && row.valid() && kind.spec_tag_of(t)
                    is Some,
                Ok(None) => r matches Ok(None),
                Err(e) => r matches Err(err) && err == DecodeError(e),
            },
    {
        let value = self.get_u32(col);
        Row::decode_coded_index(self.db, kind, value)
    }

    /// The coded index of kind `kind` that refers to this row.
    pub fn encode(&self, kind: CodedIndexKind) -> (r: u32)
        requires
            kind.spec_tag_of(self.table()) is Some,
        ensures
            r == spec_encode_coded(kind, self.table(), self.index() as u32),
    {
        proof {
            use_type_invariant(self);
        }
        let bits = kind.tag_bits() as u32;
        let tag = match kind.tag_of(self.table) {
            Some(tag) => tag,
            None => 0,
        };
        ((self.index + 1) << bits) | tag
    }

    /// The rows of the table of `R` that the list column `col` names.
    pub fn get_list<R: TableRow<'db>>(&self, col: usize) -> (r: Result<
        TableRowIterator<'db, R>,
        DecodeError,
    >)
        requires
            self.dynamic_column(col as int),
        ensures
            is_list(r, self.list(col as int, R::kind()), self.model()),
    {
        proof {
            use_type_invariant(self);
            use_type_invariant(self.db);
        }
        let target = R::table_id();
        let target_len = self.db.get_table_info(target).len();
        let own_len = self.db.get_table_info(self.table).len();
        let first = self.get_u32(col);
        let last: u64 = if self.index + 1 < own_len {
            let next = Row::new(self.db, self.table, self.index + 1);
            next.get_u32(col) as u64
        } else {
            target_len as u64 + 1
        };
        if 1 <= first && first as u64 <= last && last <= target_len as u64 + 1 {
            Ok(
                TableRowIterator {
                    db: self.db,
                    m_row: first - 1,
                    m_end: (last - 1) as u32,
                    p: core::marker::PhantomData,
                },
            )
        } else {
            Err(DecodeError(DecodeErrorKind::InvalidRowIndex))
        }
    }

    /// The row of the table of `R` whose number, counted from one, the cell
    /// at column `col` holds.
    pub fn get_target_row<R: TableRow<'db>>(&self, col: usize) -> (r: Result<R, DecodeError>)
        requires
            self.dynamic_column(col as int),
        ensures
            1 <= self.cell(col as int) <= self.model().row_count(R::kind()) ==> (r matches Ok(row)
                && row.row().model() == self.model() && row.row().table() == R::kind()
                && row.row().index() == self.cell(col as int) - 1),
            !(1 <= self.cell(col as int) <= self.model().row_count(R::kind())) ==> (r matches Err(e)
                && e == DecodeError(DecodeErrorKind::InvalidRowIndex)),
    {
        let target = R::table_id();
        let target_len = self.db.get_table_info(target).len();
        let row = self.get_u32(col);
        if row == 0 || row > target_len {
            Err(DecodeError(DecodeErrorKind::InvalidRowIndex))
        } else {
            Ok(R::from_row(Row::new(self.db, target, row - 1)))
        }
    }

    /// The rows of the table of `R`, which is sorted by its key column, whose
    /// key is `encoded_idx`.
    pub fn get_list_by_key<R: TableRow<'db>>(&self, encoded_idx: u32) -> (r: Result<
        TableRowIterator<'db, R>,
        DecodeError,
    >)
        requires
            R::kind().spec_key_column() is Some,
        ensures
            is_key_list(r, encoded_idx, self.model()),
    {
        Ok(TableRowIterator::by_key(self.db, encoded_idx))
    }

    /// The one row of the table of `R`, which is sorted by its key column,
    /// whose key is `encoded_idx`, or none where no row has that key. More
    /// than one such row is a fault of the image.
    pub fn get_single_by_key<R: TableRow<'db>>(&self, encoded_idx: u32) -> (r: Result<
        Option<R>,
        DecodeError,
    >)
        requires
            R::kind().spec_key_column() is Some,
        ensures
            exists|first: int, last: int| #[trigger]
                key_range(self.model(), R::kind(), encoded_idx, first, last) && match r {
                    Ok(None) => first == last,
                    Ok(Some(row)) => last == first + 1 && row.row().model() == self.model()
                        && row.row().table() == R::kind() && row.row().index() == first,
                    Err(e) => last > first + 1 && e == DecodeError(DecodeErrorKind::AmbiguousKey),
                },
    {
        let mut it: TableRowIterator<'db, R> = TableRowIterator::by_key(self.db, encoded_idx);
        let ghost first = it.start();
        let ghost last = it.end();
        assert(key_range(self.model(), R::kind(), encoded_idx, first, last));
        let count = it.count();
        if count == 0 {
            Ok(None)
        } else if count == 1 {
            match it.next() {
                Some(row) => Ok(Some(row)),
                None => Ok(None),
            }
        } else {
            Err(DecodeError(DecodeErrorKind::AmbiguousKey))
        }
    }
}

/// The rows `[first, last)` of `table` are rows with the key `key`: all of
/// them hold it, the row that follows them does not, and where the table is
/// sorted by its key they are all the rows that hold it.
pub open spec fn key_range(model: DatabaseModel, table: TableId, key: u32, first: int, last: int)
    -> bool {
    let col = table.spec_key_column().unwrap();
    &&& 0 <= first <= last <= model.row_count(table)
    &&& forall|i: int| first <= i < last ==> model.cell(table, i, col) == key
    &&& last < model.row_count(table) ==> model.cell(table, last, col) != key
    &&& model.key_sorted(table) ==> forall|i: int|
        0 <= i < model.row_count(table) && model.cell(table, i, col) == key ==> first <= i < last
}

/// A table of a loaded image, seen as rows of one kind.
pub struct Table<'db, R: TableRow<'db>> {
    db: &'db Database<'db>,
    p: core::marker::PhantomData<R>,
}

/// A run of rows of one table, handed out one by one in ascending order.
pub struct TableRowIterator<'db, R: TableRow<'db>> {
    db: &'db Database<'db>,
    m_row: u32,
    m_end: u32,
    p: core::marker::PhantomData<R>,
}

impl<'db, R: TableRow<'db>> TableRowIterator<'db, R> {
    #[verifier::type_invariant]
    spec fn inv(self) -> bool {
        self.m_row <= self.m_end <= self.db@.row_count(R::kind())
    }

    /// The image that the rows belong to.
    pub closed spec fn model(self) -> DatabaseModel {
        self.db@
    }

    /// The number of the next row to hand out.
    pub closed spec fn start(self) -> int {
        self.m_row as int
    }

    /// The number of the row after the last one to hand out.
    pub closed spec fn end(self) -> int {
        self.m_end as int
    }

    /// The run lies within the table, in a well-formed image.
    pub open spec fn valid(self) -> bool {
        self.model().wf() && 0 <= self.start() <= self.end() <= self.model().row_count(R::kind())
    }

    /// The rows of the table of `R` whose key is `key`, found by binary search.
    fn by_key(db: &'db Database<'db>, key: u32) -> (r: Self)
        requires
            R::kind().spec_key_column() is Some,
        ensures
            r.model() == db@,
            r.valid(),
            key_range(db@, R::kind(), key, r.start(), r.end()),
    {
        let target = R::table_id();
        let info = db.get_table_info(target);
        let count = info.len() as usize;
        let col = match target.key_column() {
            Some(c) => c,
            None => 0,
        };
        let ghost model = db@;
        proof {
            lemma_columns_len(target);
            assert forall|i: int| 0 <= i < count implies 0 <= #[trigger] model.cell(target, i, col as int)
                < 0x1_0000_0000 by {
                model.lemma_cell(target, i, col as int);
            }
        }
        let mapping = |i: usize| -> (v: u32)
            requires
                i < count,
            ensures
                v == info@.cell(i as int, col as int),
            {
                match info.get_value(col, i as u32) {
                    Ok(v) => v as u32,
                    Err(_) => 0,
                }
            };
        let (begin, end) = equal_range_with(0, count, mapping, key);
        proof {
            assert forall|i: int| begin <= i < end implies model.cell(target, i, col as int)
                == key by {
                assert(mapping.ensures((i as usize,), key));
            }
            if model.key_sorted(target) {
                assert(sorted_over(mapping, 0, count)) by {
                    assert forall|i: usize, j: usize, vi: u32, vj: u32|
                        0 <= i <= j < count && #[trigger] mapping.ensures((i,), vi)
                            && #[trigger] mapping.ensures((j,), vj) implies vi <= vj by {
                        assert(model.cell(target, i as int, col as int) <= model.cell(
                            target,
                            j as int,
                            col as int,
                        ));
                    }
                }
                assert forall|i: int|
                    0 <= i < model.row_count(target) && model.cell(target, i, col as int)
                        == key implies begin <= i < end by {
                    if i < begin {
                        let (b, v) = choose|b: usize, v: u32|
                            b + 1 == begin && #[trigger] mapping.ensures((b,), v) && v < key;
                        assert(model.cell(target, i, col as int) <= model.cell(
                            target,
                            b as int,
                            col as int,
                        ));
                    } else if i >= end {
                        let v = choose|v: u32| #[trigger] mapping.ensures((end,), v) && v > key;
                        assert(model.cell(target, end as int, col as int) <= model.cell(
                            target,
                            i,
                            col as int,
                        ));
                    }
                }
            }
            if end < count {
                let v = choose|v: u32| #[trigger] mapping.ensures((end,), v) && v != key;
            }
        }
        TableRowIterator { db: db, m_row: begin as u32, m_end: end as u32, p: core::marker::PhantomData }
    }

    /// The next row, if the run has one left.
    pub fn next(&mut self) -> (r: Option<R>)
        ensures
            final(self).model() == old(self).model(),
            final(self).end() == old(self).end(),
            old(self).start() < old(self).end() ==> (r matches Some(row) && row.row().model()
                == old(self).model() && row.row().table() == R::kind() && row.row().index()
                == old(self).start() && final(self).start() == old(self).start() + 1),
            old(self).start() >= old(self).end() ==> r is None && final(self).start() == old(
                self,
            ).start(),
    {
        proof {
            use_type_invariant(&*self);
        }
        if self.m_row < self.m_end {
            let row = Row::new(self.db, R::table_id(), self.m_row);
            self.m_row = self.m_row + 1;
            Some(R::from_row(row))
        } else {
            None
        }
    }

    /// How many rows are left.
    pub fn count(&self) -> (r: usize)
        ensures
            r == self.end() - self.start(),
            self.valid(),
    {
        proof {
            use_type_invariant(self);
            use_type_invariant(self.db);
        }
        (self.m_end - self.m_row) as usize
    }

    /// How many rows are left, as the least and the most that will come.
    pub fn size_hint(&self) -> (r: (usize, Option<usize>))
        ensures
            r.0 == self.end() - self.start(),
            r.1 == Some(r.0),
    {
        let size = self.count();
        (size, Some(size))
    }

    /// The last row of the run, if the run has a row left.
    pub fn last(&self) -> (r: Option<R>)
        ensures
            self.start() < self.end() ==> (r matches Some(row) && row.row().model() == self.model()
                && row.row().table() == R::kind() && row.row().index() == self.end() - 1),
            self.start() >= self.end() ==> r is None,
    {
        proof {
            use_type_invariant(self);
        }
        if self.m_row < self.m_end {
            Some(R::from_row(Row::new(self.db, R::table_id(), self.m_end - 1)))
        } else {
            None
        }
    }

    /// The row `n` places after the next one, if the run reaches that far.
    /// The run itself stays as it is.
    pub fn nth(&self, n: usize) -> (r: Option<R>)
        ensures
            self.start() + n < self.end() ==> (r matches Some(row) && row.row().model()
                == self.model() && row.row().table() == R::kind() && row.row().index()
                == self.start() + n),
            self.start() + n >= self.end() ==> r is None,
    {
        proof {
            use_type_invariant(self);
        }
        if n < (self.m_end - self.m_row) as usize {
            Some(R::from_row(Row::new(self.db, R::table_id(), self.m_row + n as u32)))
        } else {
            None
        }
    }

    /// The rows that are left, in order.
    pub fn to_vec(&self) -> (r: Vec<R>)
        ensures
            r@.len() == self.end() - self.start(),
            forall|i: int|
                0 <= i < r@.len() ==> (#[trigger] r@[i]).row().model() == self.model()
                    && r@[i].row().table() == R::kind() && r@[i].row().index() == self.start() + i,
    {
        proof {
            use_type_invariant(self);
        }
        let mut rows: Vec<R> = Vec::new();
        let mut i = self.m_row;
        while i < self.m_end
            invariant
                self.m_row <= i <= self.m_end <= self.db@.row_count(R::kind()),
                rows@.len() == i - self.m_row,
                forall|k: int|
                    0 <= k < rows@.len() ==> (#[trigger] rows@[k]).row().model() == self.db@
                        && rows@[k].row().table() == R::kind() && rows@[k].row().index()
                        == self.m_row + k,
            decreases self.m_end - i,
        {
            rows.push(R::from_row(Row::new(self.db, R::table_id(), i)));
            i = i + 1;
        }
        rows
    }
}

impl<'db, R: TableRow<'db>> Table<'db, R> {
    /// The image that the table belongs to.
    pub closed spec fn model(self) -> DatabaseModel {
        self.db@
    }

    /// The number of rows.
    pub fn len(&self) -> (r: u32)
        ensures
            r == self.model().row_count(R::kind()),
    {
        self.db.get_table_info(R::table_id()).len()
    }

    /// The number of rows.
    pub fn size(&self) -> (r: u32)
        ensures
            r == self.model().row_count(R::kind()),
    {
        self.len()
    }

    /// All rows of the table, in order.
    pub fn iter(&self) -> (r: TableRowIterator<'db, R>)
        ensures
            r.model() == self.model(),
            r.start() == 0,
            r.end() == self.model().row_count(R::kind()),
            r.valid(),
    {
        let end = self.len();
        proof {
            use_type_invariant(self.db);
        }
        TableRowIterator { db: self.db, m_row: 0, m_end: end, p: core::marker::PhantomData }
    }

    /// The row with the number `row`, from zero.
    pub fn get_row(&self, row: u32) -> (r: Result<R, DecodeError>)
        ensures
            row < self.model().row_count(R::kind()) ==> (r matches Ok(v) && v.row().model()
                == self.model() && v.row().table() == R::kind() && v.row().index() == row),
            row >= self.model().row_count(R::kind()) ==> (r matches Err(e) && e == DecodeError(
                DecodeErrorKind::InvalidRowIndex,
            )),
    {
        if row >= self.len() {
            return Err(DecodeError(DecodeErrorKind::InvalidRowIndex));
        }
        Ok(R::from_row(Row::new(self.db, R::table_id(), row)))
    }
}

impl<'db> Database<'db> {
    /// The table of the rows of kind `R`.
    pub fn get_table<R: TableRow<'db>>(&'db self) -> (r: Table<'db, R>)
        ensures
            r.model() == self@,
    {
        Table { db: self, p: core::marker::PhantomData }
    }

    /// The table of the rows of kind `R`.
    pub fn table<R: TableRow<'db>>(&'db self) -> (r: Table<'db, R>)
        ensures
            r.model() == self@,
    {
        self.get_table()
    }
}

} // verus!
