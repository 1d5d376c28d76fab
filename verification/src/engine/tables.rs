use vstd::prelude::*;
use vstd::slice::slice_subrange;
use vstd::string::StringSliceAdditionalSpecFns;
use crate::engine::bytes::read_u32_at;
use crate::engine::bytes::read_u64_at;
use crate::engine::bytes::spec_u32_le;
use crate::engine::bytes::spec_u64_le;
use crate::engine::columns::lemma_offset_bound;
use crate::engine::columns::lemma_offset_monotone;
use crate::engine::columns::spec_columns;
use crate::engine::columns::spec_layout;
use crate::engine::columns::spec_row_size;
use crate::engine::columns::spec_widths;
use crate::engine::columns::widths;
use crate::engine::kinds::TableId;
use crate::engine::kinds::TABLE_SLOTS;
use crate::engine::table::TableInfo;
use crate::engine::table::TableModel;
use crate::error::DecodeError;
use crate::error::DecodeErrorKind;

verus! {

/// `std::str::from_utf8`: the bytes as a string, where they are valid UTF-8,
/// and nothing where they are not.
#[verifier::external_body]
pub(crate) fn utf8_str<'a>(bytes: &'a [u8]) -> (r: Option<&'a str>)
    ensures
        r is Some <==> vstd::utf8::valid_utf8(bytes@),
        r matches Some(s) ==> s.spec_bytes() == bytes@,
{
    match std::str::from_utf8(bytes) {
        Ok(s) => Some(s),
        Err(_) => None,
    }
}

/// Whether the mask `valid` has the bit of the table number `i` set.
pub open spec fn spec_table_present(valid: u64, i: int) -> bool {
    (valid >> (i as u64)) & 1 == 1
}

/// Whether the mask `valid` has the bit of the table number `i` set.
pub fn table_present(valid: u64, i: u64) -> (r: bool)
    requires
        i < 64,
    ensures
        r == spec_table_present(valid, i as int),
{
    (valid >> i) & 1 == 1
}

/// A row count of zero for every table number.
pub open spec fn spec_no_rows() -> Seq<u32> {
    Seq::new(TABLE_SLOTS as nat, |i: int| 0u32)
}

/// The first pass over the tables stream: for each bit of `valid` from `i`
/// on, in ascending order, one row count is taken from `pos`. Gives the row
/// count of every table number and the position after the last count.
pub open spec fn spec_row_counts(stream: Seq<u8>, valid: u64, i: int, pos: int, counts: Seq<u32>)
    -> Result<(Seq<u32>, int), DecodeErrorKind>
    decreases 64 - i,
{
    if i >= 64 {
        Ok((counts, pos))
    } else if !spec_table_present(valid, i) {
        spec_row_counts(stream, valid, i + 1, pos, counts)
    } else if stream.len() < pos + 4 {
        Err(DecodeErrorKind::UnexpectedEof)
    } else if TableId::spec_from_number(i) is None {
        Err(DecodeErrorKind::UnknownTable)
    } else {
        spec_row_counts(
            stream,
            valid,
            i + 1,
            pos + 4,
            counts.update(i, spec_u32_le(stream, pos) as u32),
        )
    }
}

/// The table with the number `n` before its bytes are known: its row count
/// and the layout of its columns. A number that the format does not use has
/// no columns.
pub open spec fn spec_table_layout(n: int, heap_sizes: u8, counts: Seq<u32>) -> TableModel {
    match TableId::spec_from_number(n) {
        Some(t) => TableModel {
            row_count: counts[n],
            row_size: spec_row_size(spec_widths(t, heap_sizes, counts)) as u8,
            columns: spec_layout(spec_widths(t, heap_sizes, counts)),
            data: Seq::empty(),
        },
        None => TableModel { row_count: counts[n], row_size: 0, columns: Seq::empty(), data: Seq::empty() },
    }
}

/// The third pass: from the table number `n` on, in ascending order, each
/// table takes the bytes of its rows from `pos`.
pub open spec fn spec_slice_tables(
    stream: Seq<u8>,
    heap_sizes: u8,
    counts: Seq<u32>,
    n: int,
    pos: int,
    done: Seq<TableModel>,
) -> Result<Seq<TableModel>, DecodeErrorKind>
    decreases TABLE_SLOTS - n,
{
    if n >= TABLE_SLOTS {
        Ok(done)
    } else {
        let table = spec_table_layout(n, heap_sizes, counts);
        let bytes = table.row_count * table.row_size;
        if stream.len() < pos + bytes {
            Err(DecodeErrorKind::UnexpectedEof)
        } else {
            spec_slice_tables(
                stream,
                heap_sizes,
                counts,
                n + 1,
                pos + bytes,
                done.push(TableModel { data: stream.subrange(pos, pos + bytes), ..table }),
            )
        }
    }
}

/// The tables that the tables stream `stream` holds, by table number.
pub open spec fn spec_tables(stream: Seq<u8>) -> Result<Seq<TableModel>, DecodeErrorKind> {
    if stream.len() < 24 {
        Err(DecodeErrorKind::UnexpectedEof)
    } else {
        match spec_row_counts(stream, spec_u64_le(stream, 8) as u64, 0, 24, spec_no_rows()) {
            Err(kind) => Err(kind),
            Ok((counts, pos)) => spec_slice_tables(stream, stream[6], counts, 0, pos, Seq::empty()),
        }
    }
}

/// The width that the layout gives a column is one that its kind admits.
pub proof fn lemma_width_admits(table: TableId, heap_sizes: u8, counts: Seq<u32>, c: int)
    requires
        0 <= c < spec_columns(table).len(),
    ensures
        spec_columns(table)[c].admits(spec_widths(table, heap_sizes, counts)[c]),
        spec_widths(table, heap_sizes, counts)[c] == 2 || spec_widths(table, heap_sizes, counts)[c]
            == 4 || spec_widths(table, heap_sizes, counts)[c] == 8,
{
}

/// The layout of a table lies within its row and conforms to its columns.
pub proof fn lemma_table_layout(n: int, heap_sizes: u8, counts: Seq<u32>, data: Seq<u8>)
    requires
        0 <= n < TABLE_SLOTS,
        counts.len() == TABLE_SLOTS,
        TableId::spec_from_number(n) is None ==> counts[n] == 0,
        data.len() == spec_table_layout(n, heap_sizes, counts).row_count * spec_table_layout(
            n,
            heap_sizes,
            counts,
        ).row_size,
    ensures
        (TableModel { data: data, ..spec_table_layout(n, heap_sizes, counts) }).wf(),
        TableId::spec_from_number(n) matches Some(t) ==> (TableModel {
            data: data,
            ..spec_table_layout(n, heap_sizes, counts)
        }).conforms(t) && spec_row_size(spec_widths(t, heap_sizes, counts)) <= 48,
{
    let m = TableModel { data: data, ..spec_table_layout(n, heap_sizes, counts) };
    match TableId::spec_from_number(n) {
        Some(t) => {
            let w = spec_widths(t, heap_sizes, counts);
            crate::engine::columns::lemma_columns_len(t);
            assert forall|c: int| 0 <= c < w.len() implies w[c] <= 8 && (w[c] == 2 || w[c] == 4
                || w[c] == 8) && spec_columns(t)[c].admits(w[c]) by {
                lemma_width_admits(t, heap_sizes, counts, c);
            }
            lemma_offset_bound(w, w.len() as int);
            assert forall|c: int| 0 <= c < m.columns.len() implies {
                &&& (#[trigger] m.columns[c]).size == 2 || m.columns[c].size == 4
                    || m.columns[c].size == 8
                &&& m.columns[c].offset + m.columns[c].size <= m.row_size
            } by {
                lemma_offset_bound(w, c);
                lemma_offset_monotone(w, c, w.len() as int);
            }
            assert forall|c: int| 0 <= c < m.columns.len() implies (#[trigger] spec_columns(
                t,
            )[c]).admits(m.columns[c].size) by {
                lemma_width_admits(t, heap_sizes, counts, c);
            }
        },
        None => {},
    }
}

/// The tables of a loaded image, by table number.
pub struct Tables<'db> {
    pub infos: Vec<TableInfo<'db>>,
}

impl<'db> View for Tables<'db> {
    type V = Seq<TableModel>;

    open spec fn view(&self) -> Seq<TableModel> {
        Seq::new(self.infos@.len(), |i: int| self.infos@[i]@)
    }
}

/// Every table number has a table; a number that the format uses has a
/// table that conforms to its columns, and another has no rows.
pub open spec fn tables_wf(tables: Seq<TableModel>) -> bool {
    &&& tables.len() == TABLE_SLOTS
    &&& forall|n: int|
        0 <= n < TABLE_SLOTS ==> {
            &&& (#[trigger] tables[n]).wf()
            &&& match TableId::spec_from_number(n) {
                Some(t) => tables[n].conforms(t),
                None => tables[n].row_count == 0,
            }
        }
}

/// The first pass: the row count of each table that the mask names.
pub fn read_row_counts(stream: &[u8], valid: u64) -> (r: Result<(Vec<u32>, usize), DecodeError>)
    requires
        stream@.len() >= 24,
    ensures
        match spec_row_counts(stream@, valid, 0, 24, spec_no_rows()) {
            Ok((counts, pos)) => r matches Ok((c, p)) && c@ == counts && p == pos && pos
                <= stream@.len() && counts.len() == TABLE_SLOTS && forall|n: int|
                0 <= n < TABLE_SLOTS && TableId::spec_from_number(n) is None ==> counts[n] == 0,
            Err(kind) => r matches Err(e) && e == DecodeError(kind),
        },
{
    let len = stream.len();
    let mut counts: Vec<u32> = Vec::new();
    let mut k: usize = 0;
    while k < TABLE_SLOTS
        invariant
            k <= TABLE_SLOTS,
            counts@.len() == k,
            forall|j: int| 0 <= j < k ==> counts@[j] == 0,
        decreases TABLE_SLOTS - k,
    {
        counts.push(0);
        k += 1;
    }
    assert(counts@ =~= spec_no_rows());
    let mut pos: usize = 24;
    let mut i: u64 = 0;
    while i < 64
        invariant
            i <= 64,
            len == stream@.len(),
            24 <= pos <= len,
            counts@.len() == TABLE_SLOTS,
            forall|n: int|
                0 <= n < TABLE_SLOTS && TableId::spec_from_number(n) is None ==> counts@[n] == 0,
            spec_row_counts(stream@, valid, 0, 24, spec_no_rows()) == spec_row_counts(
                stream@,
                valid,
                i as int,
                pos as int,
                counts@,
            ),
        decreases 64 - i,
    {
        if table_present(valid, i) {
            if len - pos < 4 {
                return Err(DecodeError(DecodeErrorKind::UnexpectedEof));
            }
            let row_count = read_u32_at(stream, pos).unwrap();
            if i >= TABLE_SLOTS as u64 {
                return Err(DecodeError(DecodeErrorKind::UnknownTable));
            }
            match TableId::from_number(i as usize) {
                None => {
                    return Err(DecodeError(DecodeErrorKind::UnknownTable));
                },
                Some(_) => {
                    counts[i as usize] = row_count;
                },
            }
            pos = pos + 4;
        }
        i += 1;
    }
    Ok((counts, pos))
}

impl<'db> Tables<'db> {
    /// Every table holds the slice of its rows, an empty one where it has
    /// no rows.
    pub open spec fn filled(&self) -> bool {
        forall|k: int| 0 <= k < self.infos@.len() ==> (#[trigger] self.infos@[k]).m_data is Some
    }

    /// The table with the number of `table`.
    pub fn get_table_info(&self, table: TableId) -> (r: &TableInfo<'db>)
        requires
            self.infos@.len() == TABLE_SLOTS,
        ensures
            r@ == self@[table.spec_number()],
            *r == self.infos@[table.spec_number()],
    {
        &self.infos[table.number()]
    }

    /// Reads the tables stream in three passes: the row count of every table
    /// that the mask of valid tables names; the width of every column, which
    /// the heap sizes and the row counts decide; and the bytes of the rows,
    /// table after table in ascending order of table number.
    pub fn parse(stream: &'db [u8]) -> (r: Result<Tables<'db>, DecodeError>)
        ensures
            match spec_tables(stream@) {
                Ok(tables) => r matches Ok(t) && t@ == tables && tables_wf(tables) && t.filled(),
                Err(kind) => r matches Err(e) && e == DecodeError(kind),
            },
    {
        let len = stream.len();
        if len < 24 {
            return Err(DecodeError(DecodeErrorKind::UnexpectedEof));
        }
        let heap_sizes = stream[6];
        let valid = read_u64_at(stream, 8).unwrap();
        proof {
            crate::engine::bytes::lemma_le_bounds(stream@, 8);
        }
        let (counts, start) = match read_row_counts(stream, valid) {
            Err(e) => {
                return Err(e);
            },
            Ok(found) => found,
        };
        let mut infos: Vec<TableInfo<'db>> = Vec::new();
        let mut n: usize = 0;
        while n < TABLE_SLOTS
            invariant
                n <= TABLE_SLOTS,
                counts@.len() == TABLE_SLOTS,
                forall|k: int|
                    0 <= k < TABLE_SLOTS && TableId::spec_from_number(k) is None ==> counts@[k]
                        == 0,
                infos@.len() == n,
                forall|k: int|
                    0 <= k < n ==> (#[trigger] infos@[k])@ == spec_table_layout(
                        k,
                        heap_sizes,
                        counts@,
                    ) && infos@[k].m_data is None,
            decreases TABLE_SLOTS - n,
        {
            let mut info = TableInfo::default();
            info.set_row_count(counts[n]);
            match TableId::from_number(n) {
                Some(t) => {
                    let w = widths(t, heap_sizes, &counts);
                    proof {
                        crate::engine::columns::lemma_columns_len(t);
                        assert forall|c: int| 0 <= c < w@.len() implies w@[c] <= 8 by {
                            lemma_width_admits(t, heap_sizes, counts@, c);
                        }
                        lemma_offset_bound(w@, w@.len() as int);
                    }
                    info.set_columns(&w);
                },
                None => {},
            }
            assert(info@.columns =~= spec_table_layout(n as int, heap_sizes, counts@).columns);
            assert(info@.data =~= spec_table_layout(n as int, heap_sizes, counts@).data);
            assert(info@ == spec_table_layout(n as int, heap_sizes, counts@));
            infos.push(info);
            n += 1;
        }
        let mut view: &'db [u8] = slice_subrange(stream, start, len);
        let mut pos: usize = start;
        let mut n: usize = 0;
        let ghost mut done: Seq<TableModel> = Seq::empty();
        while n < TABLE_SLOTS
            invariant
                n <= TABLE_SLOTS,
                len == stream@.len(),
                len >= 24,
                heap_sizes == stream@[6],
                valid == spec_u64_le(stream@, 8),
                spec_row_counts(stream@, valid, 0, 24, spec_no_rows()) == Ok::<
                    (Seq<u32>, int),
                    DecodeErrorKind,
                >((counts@, start as int)),
                pos <= len,
                view@ == stream@.subrange(pos as int, len as int),
                counts@.len() == TABLE_SLOTS,
                forall|k: int|
                    0 <= k < TABLE_SLOTS && TableId::spec_from_number(k) is None ==> counts@[k]
                        == 0,
                infos@.len() == TABLE_SLOTS,
                done.len() == n,
                forall|k: int|
                    0 <= k < n ==> (#[trigger] infos@[k])@ == done[k] && infos@[k].m_data is Some,
                forall|k: int|
                    0 <= k < n ==> {
                        &&& (#[trigger] done[k]).wf()
                        &&& match TableId::spec_from_number(k) {
                            Some(t) => done[k].conforms(t),
                            None => done[k].row_count == 0,
                        }
                    },
                forall|k: int|
                    n <= k < TABLE_SLOTS ==> (#[trigger] infos@[k])@ == spec_table_layout(
                        k,
                        heap_sizes,
                        counts@,
                    ) && infos@[k].m_data is None,
                spec_slice_tables(stream@, heap_sizes, counts@, 0, start as int, Seq::empty())
                    == spec_slice_tables(stream@, heap_sizes, counts@, n as int, pos as int, done),
            decreases TABLE_SLOTS - n,
        {
            let ghost table = spec_table_layout(n as int, heap_sizes, counts@);
            let row_count = infos[n].m_row_count;
            let row_size = infos[n].m_row_size;
            assert(row_count as u64 * row_size as u64 <= 0xffff_ffff * 0xff) by (nonlinear_arith)
                requires
                    row_count <= 0xffff_ffff,
                    row_size <= 0xff,
            ;
            let bytes = row_count as u64 * row_size as u64;
            assert(bytes == table.row_count * table.row_size) by (nonlinear_arith)
                requires
                    bytes == (row_count as u64 * row_size as u64) as u64,
                    row_count == table.row_count,
                    row_size == table.row_size,
                    row_count <= 0xffff_ffff,
                    row_size <= 0xff,
            ;
            if ((len - pos) as u64) < bytes {
                return Err(DecodeError(DecodeErrorKind::UnexpectedEof));
            }
            proof {
                lemma_table_layout(
                    n as int,
                    heap_sizes,
                    counts@,
                    stream@.subrange(pos as int, pos + bytes),
                );
                if row_count > 0 {
                    assert(TableId::spec_from_number(n as int) is Some);
                    crate::engine::columns::lemma_columns_len(
                        TableId::spec_from_number(n as int).unwrap(),
                    );
                }
            }
            let ghost before = infos@;
            view = infos[n].set_data(view);
            proof {
                let filled = TableModel {
                    data: stream@.subrange(pos as int, pos + bytes),
                    ..table
                };
                assert(infos@[n as int]@.data =~= filled.data);
                assert(infos@[n as int]@ == filled);
                assert(view@ =~= stream@.subrange(pos + bytes, len as int));
                assert forall|k: int| 0 <= k < TABLE_SLOTS && k != n implies infos@[k]
                    == before[k] by {}
                done = done.push(filled);
            }
            pos = pos + bytes as usize;
            n += 1;
        }
        let tables = Tables { infos: infos };
        assert(tables@ =~= done);
        Ok(tables)
    }
}

} // verus!
