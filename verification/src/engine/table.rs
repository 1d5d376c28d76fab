use vstd::prelude::*;
use vstd::slice::slice_subrange;
use crate::engine::bytes::read_u16_at;
use crate::engine::bytes::read_u32_at;
use crate::engine::bytes::read_u64_at;
use crate::engine::bytes::spec_uint_le;
use crate::engine::columns::layout;
use crate::engine::columns::spec_columns;
use crate::engine::columns::spec_index_size;
use crate::engine::columns::spec_layout;
use crate::engine::columns::spec_row_size;
use crate::engine::columns::Column;
use crate::engine::columns::DynamicSize;
use crate::engine::kinds::TableId;
use crate::error::DecodeError;
use crate::error::DecodeErrorKind;

verus! {

/// What a table is: how many rows it has, how a row is laid out, and the
/// bytes of its rows.
pub struct TableModel {
    pub row_count: u32,
    pub row_size: u8,
    pub columns: Seq<Column>,
    pub data: Seq<u8>,
}

impl TableModel {
    /// Every column lies within a row and has a width that can be read, and
    /// the bytes are exactly those of the rows.
    pub open spec fn wf(self) -> bool {
        &&& self.columns.len() <= 6
        &&& forall|c: int|
            0 <= c < self.columns.len() ==> {
                &&& (#[trigger] self.columns[c]).size == 2 || self.columns[c].size == 4
                    || self.columns[c].size == 8
                &&& self.columns[c].offset + self.columns[c].size <= self.row_size
            }
        &&& self.data.len() == self.row_count * self.row_size
    }

    /// The table has the columns of `table`, each with a width that its kind admits.
    pub open spec fn conforms(self, table: TableId) -> bool {
        &&& self.columns.len() == spec_columns(table).len()
        &&& forall|c: int|
            0 <= c < self.columns.len() ==> (#[trigger] spec_columns(table)[c]).admits(
                self.columns[c].size,
            )
    }

    /// Where the cell of row `row` and column `col` starts within the bytes.
    pub open spec fn cell_offset(self, row: int, col: int) -> int {
        row * self.row_size + self.columns[col].offset
    }

    /// The number that the cell of row `row` and column `col` holds.
    pub open spec fn cell(self, row: int, col: int) -> int {
        spec_uint_le(self.data, self.cell_offset(row, col), self.columns[col].size as int)
    }

    /// A cell of a row of the table lies within the bytes of its row.
    pub proof fn lemma_cell_in_bounds(self, row: int, col: int)
        requires
            self.wf(),
            0 <= row < self.row_count,
            0 <= col < self.columns.len(),
        ensures
            row * self.row_size <= self.cell_offset(row, col),
            self.cell_offset(row, col) + self.columns[col].size <= (row + 1) * self.row_size,
            (row + 1) * self.row_size <= self.data.len(),
    {
        let size = self.row_size as int;
        assert((row + 1) * size == row * size + size) by (nonlinear_arith);
        assert((row + 1) * size <= self.row_count * size) by (nonlinear_arith)
            requires
                row + 1 <= self.row_count,
                0 <= size,
        ;
    }
}

/// One table of a loaded image. The bytes of the rows are unset until they
/// were taken from the tables stream; from then on a table without rows
/// holds an empty slice.
pub struct TableInfo<'db> {
    pub m_row_count: u32,
    pub m_row_size: u8,
    pub m_columns: Vec<Column>,
    pub m_data: Option<&'db [u8]>,
}

impl<'db> View for TableInfo<'db> {
    type V = TableModel;

    open spec fn view(&self) -> TableModel {
        TableModel {
            row_count: self.m_row_count,
            row_size: self.m_row_size,
            columns: self.m_columns@,
            data: match self.m_data {
                Some(d) => d@,
                None => Seq::empty(),
            },
        }
    }
}

impl<'db> Default for TableInfo<'db> {
    /// A table without rows, columns or bytes.
    fn default() -> (r: Self)
        ensures
            r.m_row_count == 0,
            r.m_row_size == 0,
            r.m_columns@.len() == 0,
            r.m_data is None,
    {
        TableInfo { m_row_count: 0, m_row_size: 0, m_columns: Vec::new(), m_data: None }
    }
}

impl<'db> TableInfo<'db> {
    /// Lays out the columns of a table whose layout is not set yet: column
    /// after column with the widths `widths`.
    pub fn set_columns(&mut self, widths: &Vec<u8>)
        requires
            old(self).m_row_size == 0,
            widths@.len() <= 6,
            forall|j: int| 0 <= j < widths@.len() ==> widths@[j] <= 8,
        ensures
            final(self).m_columns@ == spec_layout(widths@),
            final(self).m_row_size == spec_row_size(widths@),
            final(self).m_row_count == old(self).m_row_count,
            final(self).m_data == old(self).m_data,
    {
        let (cols, size) = layout(widths);
        self.m_row_size = size;
        self.m_columns = cols;
    }

    /// Sets the number of rows.
    pub fn set_row_count(&mut self, count: u32)
        ensures
            final(self).m_row_count == count,
            final(self).m_row_size == old(self).m_row_size,
            final(self).m_columns == old(self).m_columns,
            final(self).m_data == old(self).m_data,
    {
        self.m_row_count = count;
    }

    /// The width of a column that holds a row number of this table.
    pub fn index_size(&self) -> (r: DynamicSize)
        ensures
            r == spec_index_size(self.m_row_count),
    {
        if self.m_row_count < 0x1_0000 {
            DynamicSize::Size2
        } else {
            DynamicSize::Size4
        }
    }

    /// Takes the bytes of the rows from the front of `view` and returns
    /// what follows them. A table without rows takes nothing and holds an
    /// empty slice.
    pub fn set_data(&mut self, view: &'db [u8]) -> (r: &'db [u8])
        requires
            old(self).m_data is None,
            old(self).m_row_count > 0 ==> old(self).m_row_size != 0,
            old(self).m_row_count * old(self).m_row_size <= view@.len(),
        ensures
            final(self).m_row_count == old(self).m_row_count,
            final(self).m_row_size == old(self).m_row_size,
            final(self).m_columns == old(self).m_columns,
            final(self).m_data matches Some(data) && data@ == view@.subrange(
                0,
                old(self).m_row_count * old(self).m_row_size,
            ),
            r@ == view@.subrange(
                old(self).m_row_count * old(self).m_row_size,
                view@.len() as int,
            ),
    {
        let total = view.len();
        let ghost want = self.m_row_count * self.m_row_size;
        assert(self.m_row_count as u64 * self.m_row_size as u64 <= 0xffff_ffff * 0xff)
            by (nonlinear_arith)
            requires
                self.m_row_count <= 0xffff_ffff,
                self.m_row_size <= 0xff,
        ;
        let n = self.m_row_count as u64 * self.m_row_size as u64;
        assert(n == want) by (nonlinear_arith)
            requires
                n == (self.m_row_count as u64 * self.m_row_size as u64) as u64,
                want == self.m_row_count * self.m_row_size,
                self.m_row_count <= 0xffff_ffff,
                self.m_row_size <= 0xff,
        ;
        let n = n as usize;
        let left = slice_subrange(view, 0, n);
        let right = slice_subrange(view, n, total);
        self.m_data = Some(left);
        right
    }

    /// The number in the cell of row `row` and column `col`.
    pub fn get_value(&self, col: usize, row: u32) -> (r: Result<u64, DecodeError>)
        requires
            self@.wf(),
            col < self@.columns.len(),
        ensures
            row < self.m_row_count ==> r == Ok::<u64, DecodeError>(
                self@.cell(row as int, col as int) as u64,
            ) && self@.cell(row as int, col as int) <= u64::MAX,
            row >= self.m_row_count ==> r == Err::<u64, DecodeError>(
                DecodeError(DecodeErrorKind::InvalidRowIndex),
            ),
    {
        if row >= self.len() {
            return Err(DecodeError(DecodeErrorKind::InvalidRowIndex));
        }
        let column = self.m_columns[col];
        proof {
            self@.lemma_cell_in_bounds(row as int, col as int);
            crate::engine::bytes::lemma_le_bounds(self@.data, self@.cell_offset(row as int, col as int));
            crate::engine::bytes::lemma_le_bounds(self@.data, self@.cell_offset(row as int, col as int) + 4);
        }
        match self.m_data {
            None => Err(DecodeError(DecodeErrorKind::InvalidRowIndex)),
            Some(data) => {
                let total = data.len();
                assert(row * self.m_row_size >= 0) by (nonlinear_arith)
                    requires
                        row >= 0,
                        self.m_row_size >= 0,
                ;
                let offset = row as usize * self.m_row_size as usize + column.offset as usize;
                if column.size == 2 {
                    Ok(read_u16_at(data, offset).unwrap() as u64)
                } else if column.size == 4 {
                    Ok(read_u32_at(data, offset).unwrap() as u64)
                } else {
                    Ok(read_u64_at(data, offset).unwrap())
                }
            },
        }
    }

    /// The number of rows.
    pub fn len(&self) -> (r: u32)
        ensures
            r == self.m_row_count,
    {
        self.m_row_count
    }
}

} // verus!
