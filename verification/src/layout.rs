//! The row-padded buffer layout.
//!
//! A copy between a texture and a buffer moves whole rows, and the copy
//! engine wants each row of the buffer to start at a multiple of
//! [`ROW_ALIGNMENT`]. A *packed* buffer has no gap between rows; a
//! *padded* buffer has rows that are `stride` bytes apart, of which only
//! the first `row_bytes` belong to the image.

use vstd::prelude::*;
use vstd::arithmetic::div_mod::{lemma_fundamental_div_mod, lemma_fundamental_div_mod_converse};
use crate::gpu::{copy_bytes_per_row_alignment, ROW_ALIGNMENT};

verus! {

/// Bytes of one row of `width` pixels with no padding.
pub open spec fn spec_packed_stride(width: int) -> int {
    width * 4
}

/// Bytes of one row of `width` pixels, rounded up to the next multiple of
/// [`ROW_ALIGNMENT`].
pub open spec fn spec_padded_stride(width: int) -> int {
    ((spec_packed_stride(width) + (ROW_ALIGNMENT - 1)) / (ROW_ALIGNMENT as int)) * ROW_ALIGNMENT
}

/// The byte at column `column` of row `row` in a buffer whose rows are
/// `stride` bytes apart.
pub open spec fn row_byte(buffer: Seq<u8>, stride: int, row: int, column: int) -> u8 {
    buffer[row * stride + column]
}

/// The packed image inside a padded buffer: the first `row_bytes` bytes of
/// each of its `rows` rows.
pub open spec fn spec_strip_padding(padded: Seq<u8>, row_bytes: int, stride: int, rows: int) -> Seq<
    u8,
> {
    Seq::new(
        (row_bytes * rows) as nat,
        |i: int| row_byte(padded, stride, i / row_bytes, i % row_bytes),
    )
}

/// The padded buffer for a packed image: each row at its aligned offset,
/// followed by zeros up to the stride.
pub open spec fn spec_insert_padding(packed: Seq<u8>, row_bytes: int, stride: int, rows: int) -> Seq<
    u8,
> {
    Seq::new(
        (stride * rows) as nat,
        |i: int|
            if i % stride < row_bytes {
                row_byte(packed, row_bytes, i / stride, i % stride)
            } else {
                0u8
            },
    )
}

/// Whether the padded buffer `staging` holds the rows of the packed image
/// `packed`, whatever stands in its padding.
pub open spec fn holds_rows(
    staging: Seq<u8>,
    packed: Seq<u8>,
    row_bytes: int,
    stride: int,
    rows: int,
) -> bool {
    &&& staging.len() == stride * rows
    &&& packed.len() == row_bytes * rows
    &&& forall|row: int, column: int|
        0 <= row < rows && 0 <= column < row_bytes ==> #[trigger] row_byte(
            staging,
            stride,
            row,
            column,
        ) == row_byte(packed, row_bytes, row, column)
}

/// The padded stride is no shorter than the packed one, is aligned, and
/// wastes less than one alignment unit.
pub proof fn lemma_padded_stride(width: int)
    requires
        0 <= width,
    ensures
        spec_padded_stride(width) >= spec_packed_stride(width),
        spec_padded_stride(width) % (ROW_ALIGNMENT as int) == 0,
        spec_padded_stride(width) < spec_packed_stride(width) + ROW_ALIGNMENT,
{
}

/// Offsets inside a rows-by-stride buffer stay inside it.
pub proof fn lemma_row_offset_in_bounds(stride: int, rows: int, row: int, column: int)
    requires
        0 <= row < rows,
        0 <= column <= stride,
    ensures
        0 <= row * stride,
        row * stride + column <= stride * rows,
        row * stride + stride <= stride * rows,
{
    assert(0 <= row * stride && row * stride + stride <= stride * rows) by (nonlinear_arith)
        requires
            0 <= row < rows,
            0 <= stride,
    ;
}

/// The row and column of a byte offset `row * stride + column`.
pub proof fn lemma_row_column(stride: int, row: int, column: int)
    requires
        0 <= column < stride,
    ensures
        (row * stride + column) / stride == row,
        (row * stride + column) % stride == column,
{
    lemma_fundamental_div_mod_converse(row * stride + column, stride, row, column);
}

/// Every byte offset below `stride * rows` lies in one of the rows.
pub proof fn lemma_offset_row_column(stride: int, rows: int, offset: int)
    requires
        0 <= offset < stride * rows,
        0 < stride,
    ensures
        0 <= offset / stride < rows,
        0 <= offset % stride < stride,
        offset == (offset / stride) * stride + offset % stride,
{
    lemma_fundamental_div_mod(offset, stride);
    let q = offset / stride;
    assert(stride * q == q * stride) by (nonlinear_arith);
    assert(0 <= q < rows) by (nonlinear_arith)
        requires
            0 <= offset < stride * rows,
            0 < stride,
            offset == q * stride + offset % stride,
            0 <= offset % stride < stride,
    ;
}

/// The byte of row `row`, column `column` of the image is the one that
/// stripping puts at `row * row_bytes + column`.
pub proof fn lemma_strip_padding_index(
    padded: Seq<u8>,
    row_bytes: int,
    stride: int,
    rows: int,
    row: int,
    column: int,
)
    requires
        0 <= row < rows,
        0 <= column < row_bytes,
    ensures
        row * row_bytes + column < spec_strip_padding(padded, row_bytes, stride, rows).len(),
        spec_strip_padding(padded, row_bytes, stride, rows)[row * row_bytes + column] == row_byte(
            padded,
            stride,
            row,
            column,
        ),
{
    lemma_row_offset_in_bounds(row_bytes, rows, row, column);
    lemma_row_column(row_bytes, row, column);
}

/// Stripping one more row appends the image bytes of that row.
pub proof fn lemma_strip_padding_next_row(padded: Seq<u8>, row_bytes: int, stride: int, rows: int)
    requires
        0 <= rows,
        0 <= row_bytes <= stride,
        stride * (rows + 1) <= padded.len(),
    ensures
        rows * stride + row_bytes <= padded.len(),
        spec_strip_padding(padded, row_bytes, stride, rows + 1) == spec_strip_padding(
            padded,
            row_bytes,
            stride,
            rows,
        ) + padded.subrange(rows * stride, rows * stride + row_bytes),
{
    lemma_row_offset_in_bounds(stride, rows + 1, rows, row_bytes);
    let more = spec_strip_padding(padded, row_bytes, stride, rows + 1);
    let less = spec_strip_padding(padded, row_bytes, stride, rows);
    let row = padded.subrange(rows * stride, rows * stride + row_bytes);
    assert(row_bytes * (rows + 1) == row_bytes * rows + row_bytes && 0 <= row_bytes * rows)
        by (nonlinear_arith)
        requires
            0 <= rows,
            0 <= row_bytes,
    ;
    assert(more.len() == less.len() + row.len());
    assert forall|i: int| 0 <= i < more.len() implies more[i] == (less + row)[i] by {
        if i >= less.len() {
            let column = i - row_bytes * rows;
            assert(i == rows * row_bytes + column) by (nonlinear_arith)
                requires
                    column == i - row_bytes * rows,
            ;
            lemma_row_column(row_bytes, rows, column);
        }
    }
    assert(more =~= less + row);
}

/// Stripping the padding from a buffer that holds the rows of an image
/// gives that image.
pub proof fn lemma_strip_padding_of_held_rows(
    staging: Seq<u8>,
    packed: Seq<u8>,
    row_bytes: int,
    stride: int,
    rows: int,
)
    requires
        0 <= rows,
        0 <= row_bytes,
        holds_rows(staging, packed, row_bytes, stride, rows),
    ensures
        spec_strip_padding(staging, row_bytes, stride, rows) == packed,
{
    let stripped = spec_strip_padding(staging, row_bytes, stride, rows);
    assert(0 <= row_bytes * rows) by (nonlinear_arith)
        requires
            0 <= rows,
            0 <= row_bytes,
    ;
    assert forall|i: int| 0 <= i < stripped.len() implies stripped[i] == packed[i] by {
        assert(0 < row_bytes) by (nonlinear_arith)
            requires
                0 <= row_bytes,
                0 <= i < row_bytes * rows,
        ;
        lemma_offset_row_column(row_bytes, rows, i);
        let row = i / row_bytes;
        let column = i % row_bytes;
        assert(row_byte(staging, stride, row, column) == row_byte(packed, row_bytes, row, column));
    }
    assert(stripped =~= packed);
}

/// The buffer that `spec_insert_padding` builds holds the rows of the
/// image it was built from.
pub proof fn lemma_insert_padding_holds_rows(
    packed: Seq<u8>,
    row_bytes: int,
    stride: int,
    rows: int,
)
    requires
        0 <= rows,
        0 <= row_bytes <= stride,
        packed.len() == row_bytes * rows,
    ensures
        holds_rows(
            spec_insert_padding(packed, row_bytes, stride, rows),
            packed,
            row_bytes,
            stride,
            rows,
        ),
{
    let padded = spec_insert_padding(packed, row_bytes, stride, rows);
    assert(0 <= stride * rows) by (nonlinear_arith)
        requires
            0 <= rows,
            0 <= stride,
    ;
    assert forall|row: int, column: int| 0 <= row < rows && 0 <= column < row_bytes implies row_byte(
        padded,
        stride,
        row,
        column,
    ) == row_byte(packed, row_bytes, row, column) by {
        lemma_row_offset_in_bounds(stride, rows, row, column);
        lemma_row_column(stride, row, column);
    }
}

/// Inserting padding and stripping it again gives the packed image back.
pub proof fn lemma_strip_insert_round_trip(packed: Seq<u8>, row_bytes: int, stride: int, rows: int)
    requires
        0 <= rows,
        0 <= row_bytes <= stride,
        packed.len() == row_bytes * rows,
    ensures
        spec_strip_padding(
            spec_insert_padding(packed, row_bytes, stride, rows),
            row_bytes,
            stride,
            rows,
        ) == packed,
{
    lemma_insert_padding_holds_rows(packed, row_bytes, stride, rows);
    lemma_strip_padding_of_held_rows(
        spec_insert_padding(packed, row_bytes, stride, rows),
        packed,
        row_bytes,
        stride,
        rows,
    );
}

/// Bytes of one row of `width` pixels with no padding.
pub fn packed_stride(width: u32) -> (stride: u64)
    ensures
        stride == spec_packed_stride(width as int),
{
    width as u64 * 4
}

/// Bytes of one row of `width` pixels in a buffer that the copy engine
/// accepts: the packed stride rounded up to the row alignment.
pub fn padded_stride(width: u32) -> (stride: u64)
    ensures
        stride == spec_padded_stride(width as int),
        stride >= width * 4,
        stride % (ROW_ALIGNMENT as u64) == 0,
        stride < width * 4 + ROW_ALIGNMENT,
{
    let alignment = copy_bytes_per_row_alignment() as u64;
    let packed = packed_stride(width);
    ((packed + (alignment - 1)) / alignment) * alignment
}

/// Copies the image out of a padded buffer: the first `row_bytes` bytes of
/// each row, row after row, without the padding.
pub fn strip_padding(padded: &[u8], row_bytes: usize, stride: usize, rows: usize) -> (packed: Vec<
    u8,
>)
    requires
        row_bytes <= stride,
        padded@.len() == stride * rows,
    ensures
        packed@ == spec_strip_padding(padded@, row_bytes as int, stride as int, rows as int),
        packed@.len() == row_bytes * rows,
{
    let mut packed: Vec<u8> = Vec::new();
    let mut row: usize = 0;
    assert(packed@ =~= spec_strip_padding(padded@, row_bytes as int, stride as int, 0));
    assert(padded.len() <= usize::MAX);
    while row < rows
        invariant
            row <= rows,
            row_bytes <= stride,
            padded@.len() == stride * rows,
            stride * rows <= usize::MAX,
            packed@ == spec_strip_padding(padded@, row_bytes as int, stride as int, row as int),
        decreases rows - row,
    {
        proof {
            lemma_row_offset_in_bounds(stride as int, rows as int, row as int, row_bytes as int);
            assert(stride * (row + 1) <= stride * rows) by (nonlinear_arith)
                requires
                    row < rows,
                    0 <= stride,
            ;
            lemma_strip_padding_next_row(padded@, row_bytes as int, stride as int, row as int);
        }
        let start: usize = row * stride;
        let image_row = &padded[start..start + row_bytes];
        packed.extend_from_slice(image_row);
        assert(packed@ =~= spec_strip_padding(padded@, row_bytes as int, stride as int, row as int)
            + image_row@);
        row += 1;
    }
    packed
}

/// Lays a packed image out in a padded buffer: each row at its aligned
/// offset, the bytes between the rows zero.
pub fn insert_padding(packed: &[u8], row_bytes: usize, stride: usize, rows: usize) -> (padded: Vec<
    u8,
>)
    requires
        row_bytes <= stride,
        packed@.len() == row_bytes * rows,
        stride * rows <= usize::MAX,
    ensures
        padded@ == spec_insert_padding(packed@, row_bytes as int, stride as int, rows as int),
        padded@.len() == stride * rows,
        holds_rows(padded@, packed@, row_bytes as int, stride as int, rows as int),
{
    let mut padded: Vec<u8> = Vec::new();
    let mut row: usize = 0;
    assert(padded@ =~= spec_insert_padding(packed@, row_bytes as int, stride as int, 0));
    assert(packed.len() <= usize::MAX);
    while row < rows
        invariant
            row <= rows,
            row_bytes <= stride,
            packed@.len() == row_bytes * rows,
            row_bytes * rows <= usize::MAX,
            stride * rows <= usize::MAX,
            padded@ == spec_insert_padding(packed@, row_bytes as int, stride as int, row as int),
        decreases rows - row,
    {
        let ghost before = padded@;
        proof {
            lemma_row_offset_in_bounds(row_bytes as int, rows as int, row as int, row_bytes as int);
            lemma_row_offset_in_bounds(stride as int, rows as int, row as int, stride as int);
        }
        let start: usize = row * row_bytes;
        padded.extend_from_slice(&packed[start..start + row_bytes]);
        let end: usize = row * stride + stride;
        padded.resize(end, 0u8);
        proof {
            let next = spec_insert_padding(
                packed@,
                row_bytes as int,
                stride as int,
                (row + 1) as int,
            );
            assert(stride * (row + 1) == row * stride + stride) by (nonlinear_arith);
            assert(before.len() == row * stride) by (nonlinear_arith)
                requires
                    before.len() == stride * row,
            ;
            assert forall|i: int| 0 <= i < next.len() implies padded@[i] == next[i] by {
                if i < before.len() {
                    assert(padded@.subrange(0, before.len() + row_bytes)[i] == padded@[i]);
                } else {
                    let column = i - row * stride;
                    lemma_row_column(stride as int, row as int, column);
                    if column < row_bytes {
                        assert(padded@.subrange(0, before.len() + row_bytes)[i] == padded@[i]);
                    }
                }
            }
            assert(padded@ =~= next);
        }
        row += 1;
    }
    proof {
        lemma_insert_padding_holds_rows(packed@, row_bytes as int, stride as int, rows as int);
    }
    padded
}

} // verus!
