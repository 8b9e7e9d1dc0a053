//! A padded pixel buffer seen as a grid of pixels.

use vstd::prelude::*;
use vstd::arithmetic::div_mod::lemma_fundamental_div_mod_converse;
use crate::dimension::Dimension;
use crate::layout::{
    holds_rows, lemma_offset_row_column, lemma_row_column, lemma_row_offset_in_bounds,
    lemma_strip_padding_index, row_byte, spec_strip_padding, strip_padding,
};
use crate::pixels::Pixels;
use crate::rgba::Rgba;

verus! {

/// The pixels of a texture while they are being edited: the padded staging
/// bytes together with their row stride and the texture's size.
///
/// The view owns the bytes for as long as it lives and hands them back
/// through [`PixelsMut::into_bytes`]. Coordinates outside the texture are
/// answered with `None` or `false`, and change nothing.
#[derive(Debug)]
pub struct PixelsMut {
    buffer: Vec<u8>,
    stride: usize,
    size: Dimension,
}

/// Where pixel `(x, y)` starts in a buffer whose rows are `stride` bytes
/// apart.
pub open spec fn pixel_offset(stride: int, x: int, y: int) -> int {
    y * stride + x * 4
}

/// Whether `len` bytes at row stride `stride` are a padded buffer for a
/// texture of size `size`.
pub open spec fn is_padded_buffer(len: int, stride: int, size: Dimension) -> bool {
    &&& size.width > 0
    &&& size.height > 0
    &&& size.width * 4 <= stride
    &&& len == stride * size.height
}

/// A later row starts no earlier than where the row before it ends.
proof fn lemma_rows_apart(stride: int, row: int, later: int)
    requires
        0 <= stride,
        row < later,
    ensures
        row * stride + stride <= later * stride,
{
    assert(row * stride + stride <= later * stride) by (nonlinear_arith)
        requires
            0 <= stride,
            row + 1 <= later,
    ;
}

impl PixelsMut {
    #[verifier::type_invariant]
    spec fn inv(self) -> bool {
        self.wf()
    }

    /// The padded bytes, padding included.
    pub closed spec fn bytes(&self) -> Seq<u8> {
        self.buffer@
    }

    /// Distance in bytes between the starts of two rows.
    pub closed spec fn spec_stride(&self) -> usize {
        self.stride
    }

    /// The size of the texture.
    pub closed spec fn spec_size(&self) -> Dimension {
        self.size
    }

    /// What holds of every view: the bytes are a padded buffer for the
    /// size.
    pub open spec fn wf(&self) -> bool {
        is_padded_buffer(self.bytes().len() as int, self.spec_stride() as int, self.spec_size())
    }

    /// The color of pixel `(x, y)`.
    pub open spec fn pixel(&self, x: int, y: int) -> Rgba {
        Rgba::decode(self.bytes(), pixel_offset(self.spec_stride() as int, x, y))
    }

    /// Whether `(x, y)` is the coordinate of a pixel of the texture.
    pub open spec fn contains(&self, x: int, y: int) -> bool {
        0 <= x < self.spec_size().width && 0 <= y < self.spec_size().height
    }

    /// What [`PixelsMut::get_color`] answers, and what
    /// [`PixelsMut::set_color`] returns as the previous color.
    pub open spec fn spec_get_color(&self, x: u32, y: u32) -> Option<Rgba> {
        if self.contains(x as int, y as int) {
            Some(self.pixel(x as int, y as int))
        } else {
            None
        }
    }

    /// The bytes of the view after [`PixelsMut::set_color`].
    pub open spec fn spec_set_color(&self, x: u32, y: u32, color: Rgba) -> Seq<u8> {
        if self.contains(x as int, y as int) {
            color.store(self.bytes(), pixel_offset(self.spec_stride() as int, x as int, y as int))
        } else {
            self.bytes()
        }
    }

    /// The packed bytes of the image, without the padding.
    pub open spec fn packed(&self) -> Seq<u8> {
        spec_strip_padding(
            self.bytes(),
            self.spec_size().width * 4,
            self.spec_stride() as int,
            self.spec_size().height as int,
        )
    }

    /// All pixels in row-major order: pixel `(x, y)` stands at index
    /// `y * width + x`.
    pub open spec fn view(&self) -> Seq<Rgba> {
        Seq::new(
            (self.spec_size().width * self.spec_size().height) as nat,
            |i: int| self.pixel(i % (self.spec_size().width as int), i / (self.spec_size().width as int)),
        )
    }

    /// Pixel `(x, y)` of a view is the element `y * width + x` of its
    /// row-major sequence.
    pub proof fn lemma_view_index(&self, x: int, y: int)
        requires
            0 <= x < self.spec_size().width,
            0 <= y < self.spec_size().height,
        ensures
            0 <= y * self.spec_size().width + x < self@.len(),
            self@[y * self.spec_size().width + x] == self.pixel(x, y),
    {
        let width = self.spec_size().width as int;
        let height = self.spec_size().height as int;
        lemma_row_offset_in_bounds(width, height, y, x);
        lemma_row_column(width, y, x);
        assert(width * height == self.spec_size().width * self.spec_size().height);
    }

    /// The pixels of a well-formed view lie inside its bytes.
    pub proof fn lemma_pixel_in_bounds(&self, x: int, y: int)
        requires
            self.wf(),
            0 <= x < self.spec_size().width,
            0 <= y < self.spec_size().height,
        ensures
            0 <= pixel_offset(self.spec_stride() as int, x, y),
            pixel_offset(self.spec_stride() as int, x, y) + 4 <= self.bytes().len(),
    {
        lemma_row_offset_in_bounds(
            self.spec_stride() as int,
            self.spec_size().height as int,
            y,
            x * 4 + 4,
        );
    }

    /// The bytes of a view hold the rows of its packed image, and the
    /// packed image holds each pixel of the view at four times its
    /// row-major index.
    pub proof fn lemma_packed_pixel(&self, x: int, y: int)
        requires
            self.wf(),
            self.contains(x, y),
        ensures
            holds_rows(
                self.bytes(),
                self.packed(),
                self.spec_size().width * 4,
                self.spec_stride() as int,
                self.spec_size().height as int,
            ),
            (y * self.spec_size().width + x) * 4 + 4 <= self.packed().len(),
            Rgba::decode(self.packed(), (y * self.spec_size().width + x) * 4) == self.pixel(x, y),
    {
        let width = self.spec_size().width as int;
        let height = self.spec_size().height as int;
        let stride = self.spec_stride() as int;
        let row_bytes = width * 4;
        let packed = self.packed();
        assert(0 <= row_bytes * height) by (nonlinear_arith)
            requires
                0 <= row_bytes,
                0 <= height,
        ;
        assert forall|row: int, column: int|
            0 <= row < height && 0 <= column < row_bytes implies #[trigger] row_byte(
            self.bytes(),
            stride,
            row,
            column,
        ) == row_byte(packed, row_bytes, row, column) by {
            lemma_strip_padding_index(self.bytes(), row_bytes, stride, height, row, column);
            assert(row * row_bytes + column == row * (width * 4) + column);
        }
        let start = (y * width + x) * 4;
        assert(start == y * row_bytes + x * 4) by (nonlinear_arith)
            requires
                start == (y * width + x) * 4,
                row_bytes == width * 4,
        ;
        lemma_strip_padding_index(self.bytes(), row_bytes, stride, height, y, x * 4);
        lemma_strip_padding_index(self.bytes(), row_bytes, stride, height, y, x * 4 + 1);
        lemma_strip_padding_index(self.bytes(), row_bytes, stride, height, y, x * 4 + 2);
        lemma_strip_padding_index(self.bytes(), row_bytes, stride, height, y, x * 4 + 3);
    }

    /// A coordinate on the right or the lower edge, where `x` is the width
    /// or `y` is the height, is outside the texture: reading there finds
    /// nothing and writing there changes nothing.
    pub proof fn lemma_edge_is_outside(&self, x: u32, y: u32, color: Rgba)
        requires
            x == self.spec_size().width || y == self.spec_size().height,
        ensures
            self.spec_get_color(x, y) is None,
            self.spec_set_color(x, y, color) == self.bytes(),
    {
    }

    /// Setting a pixel and reading it again gives the color that was set,
    /// and every other pixel of the texture keeps its color.
    pub proof fn lemma_set_then_get(&self, after: Self, x: u32, y: u32, color: Rgba)
        requires
            self.wf(),
            self.contains(x as int, y as int),
            after.spec_size() == self.spec_size(),
            after.spec_stride() == self.spec_stride(),
            after.bytes() == self.spec_set_color(x, y, color),
        ensures
            after.wf(),
            after.spec_get_color(x, y) == Some(color),
            forall|i: u32, j: u32|
                self.contains(i as int, j as int) && (i != x || j != y)
                    ==> #[trigger] after.spec_get_color(i, j) == self.spec_get_color(i, j),
    {
        self.lemma_pixel_in_bounds(x as int, y as int);
        Self::lemma_store_updates_one_pixel(*self, after, x as int, y as int, color);
        after.lemma_view_index(x as int, y as int);
        assert forall|i: u32, j: u32|
            self.contains(i as int, j as int) && (i != x || j != y) implies #[trigger] after.spec_get_color(
            i,
            j,
        ) == self.spec_get_color(i, j) by {
            self.lemma_view_index(i as int, j as int);
            after.lemma_view_index(i as int, j as int);
            let width = self.spec_size().width as int;
            if j as int * width + i == y as int * width + x {
                lemma_row_column(width, j as int, i as int);
                lemma_row_column(width, y as int, x as int);
            }
        }
    }

    /// Makes a view of `buffer`, whose rows are `stride` bytes apart, as a
    /// texture of size `size`.
    ///
    /// Returns `None` unless both sides of `size` are positive, a row of
    /// pixels fits in `stride`, and `buffer` holds exactly `stride` bytes
    /// for each row.
    pub fn new(buffer: Vec<u8>, stride: usize, size: Dimension) -> (view: Option<Self>)
        ensures
            view is Some <==> is_padded_buffer(buffer@.len() as int, stride as int, size),
            view matches Some(v) ==> v.bytes() == buffer@ && v.spec_stride() == stride
                && v.spec_size() == size && v.wf(),
    {
        if size.width == 0 || size.height == 0 {
            return None;
        }
        if (size.width as u64) * 4 > stride as u64 {
            return None;
        }
        assert(stride * size.height <= u128::MAX) by (nonlinear_arith)
            requires
                stride <= u64::MAX,
                size.height <= u32::MAX,
        ;
        if (stride as u128) * (size.height as u128) != buffer.len() as u128 {
            return None;
        }
        Some(Self { buffer, stride, size })
    }

    /// The size of the texture.
    #[verifier::when_used_as_spec(spec_size)]
    pub fn size(&self) -> (size: Dimension)
        ensures
            size == self.spec_size(),
            self.wf(),
    {
        proof {
            use_type_invariant(self);
        }
        self.size
    }

    /// Distance in bytes between the starts of two rows.
    #[verifier::when_used_as_spec(spec_stride)]
    pub fn stride(&self) -> (stride: usize)
        ensures
            stride == self.spec_stride(),
            self.wf(),
    {
        proof {
            use_type_invariant(self);
        }
        self.stride
    }

    /// The number of pixels.
    pub fn len(&self) -> (count: u64)
        ensures
            count == self@.len(),
            count == self.spec_size().width * self.spec_size().height,
    {
        assert(self.size.width * self.size.height <= u64::MAX) by (nonlinear_arith)
            requires
                self.size.width <= u32::MAX,
                self.size.height <= u32::MAX,
        ;
        self.size.width as u64 * self.size.height as u64
    }

    /// Where pixel `(x, y)` starts in the buffer.
    fn offset_of(&self, x: u32, y: u32) -> (offset: usize)
        requires
            x < self.spec_size().width,
            y < self.spec_size().height,
        ensures
            offset == pixel_offset(self.spec_stride() as int, x as int, y as int),
            offset + 4 <= self.bytes().len(),
            offset + 4 <= usize::MAX,
            self.wf(),
    {
        let len = self.buffer.len();
        proof {
            use_type_invariant(self);
            self.lemma_pixel_in_bounds(x as int, y as int);
            lemma_row_offset_in_bounds(
                self.stride as int,
                self.size.height as int,
                y as int,
                0,
            );
        }
        y as usize * self.stride + x as usize * 4
    }

    /// The color of pixel `(x, y)`, or `None` when the coordinate lies
    /// outside the texture.
    pub fn get_color(&self, x: u32, y: u32) -> (color: Option<Rgba>)
        ensures
            color == self.spec_get_color(x, y),
            self.wf(),
    {
        proof {
            use_type_invariant(self);
        }
        if x >= self.size.width || y >= self.size.height {
            return None;
        }
        let offset = self.offset_of(x, y);
        Some(
            Rgba::new(
                self.buffer[offset],
                self.buffer[offset + 1],
                self.buffer[offset + 2],
                self.buffer[offset + 3],
            ),
        )
    }

    /// Sets pixel `(x, y)` to `color` and returns the color it had. A
    /// coordinate outside the texture changes nothing and returns `None`.
    pub fn set_color(&mut self, x: u32, y: u32, color: Rgba) -> (previous: Option<Rgba>)
        ensures
            final(self).spec_size() == old(self).spec_size(),
            final(self).spec_stride() == old(self).spec_stride(),
            final(self).wf(),
            previous == old(self).spec_get_color(x, y),
            final(self).bytes() == old(self).spec_set_color(x, y, color),
            final(self)@ == if old(self).contains(x as int, y as int) {
                old(self)@.update(y * old(self).spec_size().width + x, color)
            } else {
                old(self)@
            },
    {
        proof {
            use_type_invariant(&*self);
        }
        if x >= self.size.width || y >= self.size.height {
            return None;
        }
        let offset = self.offset_of(x, y);
        let previous = Rgba::new(
            self.buffer[offset],
            self.buffer[offset + 1],
            self.buffer[offset + 2],
            self.buffer[offset + 3],
        );
        self.buffer[offset] = color.red;
        self.buffer[offset + 1] = color.green;
        self.buffer[offset + 2] = color.blue;
        self.buffer[offset + 3] = color.alpha;
        proof {
            Self::lemma_store_updates_one_pixel(*old(self), *self, x as int, y as int, color);
        }
        Some(previous)
    }

    /// Overwriting the four bytes of one pixel changes that pixel of the
    /// row-major view and no other.
    proof fn lemma_store_updates_one_pixel(before: Self, after: Self, x: int, y: int, color: Rgba)
        requires
            before.wf(),
            0 <= x < before.spec_size().width,
            0 <= y < before.spec_size().height,
            after.spec_size() == before.spec_size(),
            after.spec_stride() == before.spec_stride(),
            after.bytes() == color.store(
                before.bytes(),
                pixel_offset(before.spec_stride() as int, x, y),
            ),
        ensures
            after@ == before@.update(y * before.spec_size().width + x, color),
    {
        let width = before.spec_size().width as int;
        let height = before.spec_size().height as int;
        let stride = before.spec_stride() as int;
        let target = pixel_offset(stride, x, y);
        before.lemma_pixel_in_bounds(x, y);
        before.lemma_view_index(x, y);
        assert(0 <= width * height) by (nonlinear_arith)
            requires
                0 <= width,
                0 <= height,
        ;
        assert forall|i: int| 0 <= i < before@.len() implies after@[i] == before@.update(
            y * width + x,
            color,
        )[i] by {
            lemma_offset_row_column(width, height, i);
            let column = i % width;
            let row = i / width;
            let offset = pixel_offset(stride, column, row);
            before.lemma_pixel_in_bounds(column, row);
            if i == y * width + x {
                lemma_fundamental_div_mod_converse(i, width, y, x);
            } else {
                assert(row != y || column != x);
                if row < y {
                    lemma_rows_apart(stride, row, y);
                } else if y < row {
                    lemma_rows_apart(stride, y, row);
                }
                assert(offset + 4 <= target || target + 4 <= offset);
            }
        }
        assert(after@ =~= before@.update(y * width + x, color));
    }

    /// The bytes of row `y` that belong to the image, without the padding
    /// behind them, or `None` when there is no such row.
    pub fn row(&self, y: u32) -> (row: Option<&[u8]>)
        ensures
            row is Some <==> y < self.spec_size().height,
            row matches Some(bytes) ==> bytes@ == self.bytes().subrange(
                y * self.spec_stride(),
                y * self.spec_stride() + self.spec_size().width * 4,
            ),
            self.wf(),
    {
        proof {
            use_type_invariant(self);
        }
        if y >= self.size.height {
            return None;
        }
        let len = self.buffer.len();
        proof {
            lemma_row_offset_in_bounds(
                self.stride as int,
                self.size.height as int,
                y as int,
                self.size.width * 4,
            );
        }
        let start: usize = y as usize * self.stride;
        let end: usize = start + self.size.width as usize * 4;
        Some(&self.buffer.as_slice()[start..end])
    }

    /// Replaces the image bytes of row `y` by `row` and leaves the padding
    /// alone. Returns `false`, and changes nothing, when there is no such
    /// row or `row` is not exactly one row of pixels long.
    pub fn write_row(&mut self, y: u32, row: &[u8]) -> (written: bool)
        ensures
            final(self).spec_size() == old(self).spec_size(),
            final(self).spec_stride() == old(self).spec_stride(),
            final(self).wf(),
            written == (y < old(self).spec_size().height && row@.len() == old(
                self,
            ).spec_size().width * 4),
            written ==> final(self).bytes() == old(self).bytes().subrange(
                0,
                y * old(self).spec_stride(),
            ) + row@ + old(self).bytes().subrange(
                y * old(self).spec_stride() + row@.len(),
                old(self).bytes().len() as int,
            ),
            !written ==> final(self).bytes() == old(self).bytes(),
    {
        proof {
            use_type_invariant(&*self);
        }
        if y >= self.size.height || row.len() as u64 != self.size.width as u64 * 4 {
            return false;
        }
        let len = self.buffer.len();
        proof {
            lemma_row_offset_in_bounds(
                self.stride as int,
                self.size.height as int,
                y as int,
                self.size.width * 4,
            );
        }
        let start: usize = y as usize * self.stride;
        let count: usize = row.len();
        let mut column: usize = 0;
        while column < count
            invariant
                column <= count,
                count == row@.len(),
                start + count <= self.buffer@.len(),
                self.buffer@.len() <= usize::MAX,
                old(self).wf(),
                self.buffer@.len() == old(self).buffer@.len(),
                self.stride == old(self).stride,
                self.size == old(self).size,
                forall|i: int|
                    0 <= i < self.buffer@.len() ==> self.buffer@[i] == if start <= i < start
                        + column {
                        row@[i - start]
                    } else {
                        old(self).buffer@[i]
                    },
            decreases count - column,
        {
            self.buffer[start + column] = row[column];
            column += 1;
        }
        assert(self.buffer@ =~= old(self).buffer@.subrange(0, start as int) + row@ + old(
            self,
        ).buffer@.subrange(start + count, old(self).buffer@.len() as int));
        true
    }

    /// The pixel at position `index` of the row-major order together with
    /// its coordinate: `x = index % width`, `y = index / width`. `None`
    /// once `index` is past the last pixel.
    pub fn pixel_at(&self, index: u64) -> (found: Option<(u32, u32, Rgba)>)
        ensures
            found is Some <==> index < self@.len(),
            found matches Some((x, y, color)) ==> {
                &&& x == index % (self.spec_size().width as u64)
                &&& y == index / (self.spec_size().width as u64)
                &&& color == self@[index as int]
                &&& color == self.pixel(x as int, y as int)
            },
            self.wf(),
    {
        proof {
            use_type_invariant(self);
        }
        if index >= self.len() {
            return None;
        }
        proof {
            lemma_offset_row_column(self.size.width as int, self.size.height as int, index as int);
        }
        let x: u32 = (index % self.size.width as u64) as u32;
        let y: u32 = (index / self.size.width as u64) as u32;
        match self.get_color(x, y) {
            Some(color) => Some((x, y, color)),
            None => None,
        }
    }

    /// A packed copy of the image: the rows without their padding.
    pub fn to_pixels(&self) -> (pixels: Pixels)
        ensures
            pixels@ == self.packed(),
            pixels.spec_size() == self.spec_size(),
            pixels.is_packed(),
            self.wf(),
    {
        proof {
            use_type_invariant(self);
            assert(self.size.width * self.size.height * 4 == (self.size.width * 4)
                * self.size.height) by (nonlinear_arith);
        }
        let packed = strip_padding(
            self.buffer.as_slice(),
            self.size.width as usize * 4,
            self.stride,
            self.size.height as usize,
        );
        Pixels::from_raw_parts(self.size, packed)
    }

    /// Gives up the view and returns its padded bytes.
    pub fn into_bytes(self) -> (bytes: Vec<u8>)
        ensures
            bytes@ == self.bytes(),
            self.wf(),
    {
        proof {
            use_type_invariant(&self);
        }
        self.buffer
    }
}

} // verus!
