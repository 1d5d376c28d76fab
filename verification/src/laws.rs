use vstd::prelude::*;
use crate::engine::columns::spec_columns;
use crate::engine::columns::spec_heap_index_size;
use crate::engine::columns::spec_needs_4byte_index;
use crate::engine::columns::DynamicSize;
use crate::engine::database::key_range;
use crate::engine::database::spec_decode_coded;
use crate::engine::database::spec_encode_coded;
use crate::engine::database::spec_list_range;
use crate::engine::database::DatabaseModel;
use crate::engine::kinds::CodedIndexKind;
use crate::engine::kinds::TableId;
use crate::error::DecodeErrorKind;

verus! {

/// A coded index decodes to no reference exactly when it is zero; it
/// decodes to a row exactly when it is not zero, its tag picks a table, and
/// what stands above the tag is the number of a row of that table, counted
/// from one.
pub proof fn lemma_coded_index_decodes(kind: CodedIndexKind, value: u32, model: DatabaseModel)
    ensures
        spec_decode_coded(kind, value, model) == Ok::<Option<(TableId, int)>, DecodeErrorKind>(None)
            <==> value == 0,
        spec_decode_coded(kind, value, model) matches Ok(Some((t, i))) ==> {
            &&& value != 0
            &&& kind.spec_target(
                (value & (((1u32 << (kind.spec_tag_bits() as u32)) - 1) as u32)) as int,
            ) == Some(t)
            &&& 1 <= (value >> (kind.spec_tag_bits() as u32)) <= model.row_count(t)
            &&& i == (value >> (kind.spec_tag_bits() as u32)) - 1
        },
{
}

/// The coded index of a row decodes to that row, as long as the number of
/// the row leaves room for the tag.
pub proof fn lemma_coded_index_round_trip(
    kind: CodedIndexKind,
    table: TableId,
    index: u32,
    model: DatabaseModel,
)
    requires
        kind.spec_tag_of(table) is Some,
        index < model.row_count(table),
        index + 1 < 0x0800_0000,
    ensures
        spec_decode_coded(kind, spec_encode_coded(kind, table, index), model) == Ok::<
            Option<(TableId, int)>,
            DecodeErrorKind,
        >(Some((table, index as int))),
{
    let bits = kind.spec_tag_bits() as u32;
    let tag = kind.spec_tag_of(table).unwrap() as u32;
    let row = (index + 1) as u32;
    kind.lemma_tag_of(table);
    kind.lemma_tags(tag as int);
    assert(1 <= bits <= 5);
    assert(tag < (1u32 << bits)) by {
        assert((1u32 << 1u32) == 2 && (1u32 << 2u32) == 4 && (1u32 << 3u32) == 8 && (1u32 << 5u32)
            == 32) by (bit_vector);
    }
    let value = (row << bits) | tag;
    assert(value >> bits == row && value & (((1u32 << bits) - 1) as u32) == tag && (row != 0
        ==> value != 0)) by (bit_vector)
        requires
            1 <= bits <= 5,
            tag < (1u32 << bits),
            row < 0x0800_0000,
            value == (row << bits) | tag,
    ;
}

/// The coded index zero refers to nothing, while the one with the tag zero
/// and the row number one refers to the first row of the first table.
pub proof fn lemma_coded_index_zero_and_first(kind: CodedIndexKind, model: DatabaseModel)
    requires
        kind.spec_target(0) matches Some(t) && model.row_count(t) >= 1,
    ensures
        spec_decode_coded(kind, 0, model) == Ok::<Option<(TableId, int)>, DecodeErrorKind>(None),
        spec_decode_coded(kind, 1u32 << (kind.spec_tag_bits() as u32), model) == Ok::<
            Option<(TableId, int)>,
            DecodeErrorKind,
        >(Some((kind.spec_target(0).unwrap(), 0int))),
{
    let bits = kind.spec_tag_bits() as u32;
    let value = 1u32 << bits;
    assert(value >> bits == 1 && value & (((1u32 << bits) - 1) as u32) == 0 && value != 0)
        by (bit_vector)
        requires
            1 <= bits <= 5,
            value == 1u32 << bits,
    ;
}

/// The number that ends the list of the row `row`: the number in the same
/// cell of the next row, or one more than the length of the target for the
/// last row.
pub open spec fn spec_list_end(
    model: DatabaseModel,
    table: TableId,
    row: int,
    col: int,
    target: TableId,
) -> int {
    if row + 1 < model.row_count(table) {
        model.cell(table, row + 1, col)
    } else {
        model.row_count(target) + 1
    }
}

/// A list column names a run of rows of its target exactly when the number
/// in the cell is at least one, is not above the number that ends the list,
/// and that number is at most one more than the length of the target. The
/// run then has as many rows as lie between the two numbers, and the list
/// of the last row ends where the target ends.
pub proof fn lemma_list_range(
    model: DatabaseModel,
    table: TableId,
    row: int,
    col: int,
    target: TableId,
)
    ensures
        spec_list_range(model, table, row, col, target) is Ok <==> 1 <= model.cell(table, row, col)
            <= spec_list_end(model, table, row, col, target) <= model.row_count(target) + 1,
        spec_list_range(model, table, row, col, target) matches Ok((first, last)) ==> {
            &&& first == model.cell(table, row, col) - 1
            &&& last == spec_list_end(model, table, row, col, target) - 1
            &&& 0 <= first <= last <= model.row_count(target)
            &&& last - first == spec_list_end(model, table, row, col, target) - model.cell(
                table,
                row,
                col,
            )
            &&& row + 1 >= model.row_count(table) ==> last == model.row_count(target)
        },
{
}

/// Where a table is sorted by its key, a run of rows with a key holds
/// exactly the rows with that key.
pub proof fn lemma_sorted_lookup(model: DatabaseModel, table: TableId, key: u32, first: int, last: int)
    requires
        table.spec_key_column() is Some,
        model.key_sorted(table),
        key_range(model, table, key, first, last),
    ensures
        forall|i: int|
            0 <= i < model.row_count(table) ==> (first <= i < last <==> model.cell(
                table,
                i,
                table.spec_key_column().unwrap(),
            ) == key),
{
}

/// Where a table is sorted by its key, there is one run of rows with a
/// key: two lookups of the same key find the same rows, or both find none.
pub proof fn lemma_sorted_lookup_unique(
    model: DatabaseModel,
    table: TableId,
    key: u32,
    first: int,
    last: int,
    other_first: int,
    other_last: int,
)
    requires
        table.spec_key_column() is Some,
        model.key_sorted(table),
        key_range(model, table, key, first, last),
        key_range(model, table, key, other_first, other_last),
    ensures
        last - first == other_last - other_first,
        first < last ==> first == other_first && last == other_last,
{
    let col = table.spec_key_column().unwrap();
    if first < last {
        assert(model.cell(table, first, col) == key);
        assert(model.cell(table, last - 1, col) == key);
        assert(other_first <= first < other_last);
        assert(other_first <= last - 1 < other_last);
        assert(model.cell(table, other_first, col) == key);
        assert(model.cell(table, other_last - 1, col) == key);
    } else if other_first < other_last {
        assert(model.cell(table, other_first, col) == key);
    }
}

/// With all three bits of the heap sizes set, the indices into all three
/// heaps are four bytes wide; with none set, two.
pub proof fn lemma_heap_index_sizes()
    ensures
        spec_heap_index_size(0b111, 0) == DynamicSize::Size4,
        spec_heap_index_size(0b111, 1) == DynamicSize::Size4,
        spec_heap_index_size(0b111, 2) == DynamicSize::Size4,
        spec_heap_index_size(0, 0) == DynamicSize::Size2,
        spec_heap_index_size(0, 1) == DynamicSize::Size2,
        spec_heap_index_size(0, 2) == DynamicSize::Size2,
{
    assert((0b111u8 >> 0u8) & 1 == 1 && (0b111u8 >> 1u8) & 1 == 1 && (0b111u8 >> 2u8) & 1 == 1 && (
    0u8 >> 0u8) & 1 == 0 && (0u8 >> 1u8) & 1 == 0 && (0u8 >> 2u8) & 1 == 0) by (bit_vector);
}

/// A coded index is four bytes wide as soon as one table that it can refer
/// to has a row count that does not fit in the bits left beside the tag.
pub proof fn lemma_coded_index_limits()
    ensures
        forall|count: u32| #[trigger] spec_needs_4byte_index(count, 1) <==> count >= 0x8000,
        forall|count: u32| #[trigger] spec_needs_4byte_index(count, 2) <==> count >= 0x4000,
        forall|count: u32| #[trigger] spec_needs_4byte_index(count, 3) <==> count >= 0x2000,
        forall|count: u32| #[trigger] spec_needs_4byte_index(count, 5) <==> count >= 0x800,
{
    assert((1u32 << 15u32) == 0x8000 && (1u32 << 14u32) == 0x4000 && (1u32 << 13u32) == 0x2000 && (
    1u32 << 11u32) == 0x800) by (bit_vector);
}

/// A table without rows still has its layout, and it has no bytes.
pub proof fn lemma_empty_table(model: DatabaseModel, table: TableId)
    requires
        model.wf(),
        model.row_count(table) == 0,
    ensures
        model.table(table).data.len() == 0,
        model.table(table).conforms(table),
        model.table(table).columns.len() == spec_columns(table).len(),
{
    table.lemma_number_round_trip();
    assert(model.table(table).wf());
}

} // verus!
