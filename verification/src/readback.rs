//! The staging buffer that receives the processed texture: how its rows are
//! laid out, how large it is, and how the image is taken out of it again.
//!
//! A copy from a texture into a buffer wants every row to start at a multiple
//! of the copy alignment, so the buffer is wider than the image. The rows of
//! the exported image are tight. This module keeps the two pitches apart.

use vstd::prelude::*;
use vstd::arithmetic::div_mod::*;
use vstd::arithmetic::mul::*;
use crate::error::ResourceError;
use crate::layout::{
    align_up, lemma_align_up_least_multiple, COPY_BYTES_PER_ROW_ALIGNMENT, RGBA8_BYTES_PER_PIXEL,
};

verus! {

/// The image that a row-padded buffer holds: `rows` rows of `row_bytes`
/// bytes, row `r` taken from offset `r * pitch` of `data`.
pub open spec fn unpadded_rows(data: Seq<u8>, row_bytes: int, pitch: int, rows: int) -> Seq<u8> {
    Seq::new(
        (rows * row_bytes) as nat,
        |k: int| data[(k / row_bytes) * pitch + k % row_bytes],
    )
}

/// The least number of bytes a buffer must hold to contain `rows` rows of
/// `row_bytes` bytes at a pitch of `pitch`: the last row needs no padding.
pub open spec fn padded_extent(row_bytes: int, pitch: int, rows: int) -> int {
    if rows <= 0 {
        0
    } else {
        (rows - 1) * pitch + row_bytes
    }
}

/// What a [`ReadbackLayout`] stands for: the size of the image in pixels.
pub struct ReadbackGeometry {
    pub width: nat,
    pub height: nat,
}

impl ReadbackGeometry {
    /// Bytes of one row of the exported image.
    pub open spec fn unpadded_bytes_per_row(self) -> int {
        self.width as int * RGBA8_BYTES_PER_PIXEL as int
    }

    /// Bytes from one row of the staging buffer to the next.
    pub open spec fn padded_bytes_per_row(self) -> int {
        align_up(self.unpadded_bytes_per_row(), COPY_BYTES_PER_ROW_ALIGNMENT as int)
    }

    /// Bytes of the staging buffer.
    pub open spec fn buffer_size(self) -> int {
        self.padded_bytes_per_row() * self.height
    }

    /// Bytes of the exported image.
    pub open spec fn image_size(self) -> int {
        self.width as int * self.height as int * RGBA8_BYTES_PER_PIXEL as int
    }

    /// Bytes of a mapped staging buffer that hold the image or lie between
    /// its rows.
    pub open spec fn extent(self) -> int {
        padded_extent(self.unpadded_bytes_per_row(), self.padded_bytes_per_row(), self.height as int)
    }

    /// Where byte `k` of the image lies in the staging buffer: in the row
    /// and the column that it has in the image.
    pub open spec fn source_index(self, k: int) -> int {
        (k / self.unpadded_bytes_per_row()) * self.padded_bytes_per_row() + k
            % self.unpadded_bytes_per_row()
    }

    /// Whether offset `i` of the staging buffer holds a byte of the image
    /// rather than padding: it lies in one of the rows and, within its row,
    /// before the end of the tight row.
    pub open spec fn holds_image_byte(self, i: int) -> bool {
        &&& 0 <= i
        &&& i / self.padded_bytes_per_row() < self.height
        &&& i % self.padded_bytes_per_row() < self.unpadded_bytes_per_row()
    }

    /// The image held by a mapped staging buffer.
    pub open spec fn image(self, data: Seq<u8>) -> Seq<u8> {
        unpadded_rows(
            data,
            self.unpadded_bytes_per_row(),
            self.padded_bytes_per_row(),
            self.height as int,
        )
    }
}

/// Byte `k` of an image with tight rows lies in row `k / row_bytes` at
/// column `k % row_bytes`, and the other way round.
pub proof fn lemma_row_and_column(row: int, column: int, row_bytes: int)
    requires
        0 <= row,
        0 <= column < row_bytes,
    ensures
        (row * row_bytes + column) / row_bytes == row,
        (row * row_bytes + column) % row_bytes == column,
{
    lemma_mul_is_commutative(row, row_bytes);
    lemma_fundamental_div_mod_converse(row * row_bytes + column, row_bytes, row, column);
}

/// Unpadding gives back exactly the image whose rows the buffer holds: where
/// byte `c` of row `r` of `image` sits at `r * pitch + c` of `data`, the
/// unpadded rows are `image`, whatever lies in the padding.
pub proof fn lemma_unpadded_rows_recover_image(
    image: Seq<u8>,
    data: Seq<u8>,
    row_bytes: int,
    pitch: int,
    rows: int,
)
    requires
        0 <= rows,
        0 < row_bytes <= pitch,
        image.len() == rows * row_bytes,
        forall|r: int, c: int|
            0 <= r < rows && 0 <= c < row_bytes ==> #[trigger] data[r * pitch + c] == image[r
                * row_bytes + c],
    ensures
        unpadded_rows(data, row_bytes, pitch, rows) == image,
{
    let out = unpadded_rows(data, row_bytes, pitch, rows);
    lemma_mul_nonnegative(rows, row_bytes);
    assert forall|k: int| 0 <= k < out.len() implies out[k] == image[k] by {
        let r = k / row_bytes;
        let c = k % row_bytes;
        lemma_fundamental_div_mod(k, row_bytes);
        lemma_mod_bound(k, row_bytes);
        lemma_div_pos_is_pos(k, row_bytes);
        lemma_mul_is_commutative(r, row_bytes);
        if r >= rows {
            lemma_mul_inequality(rows, r, row_bytes);
        }
        assert(data[r * pitch + c] == image[r * row_bytes + c]);
    }
    assert(out =~= image);
}

/// The image taken out of a staging buffer has four bytes for every pixel,
/// whatever the width, and every one of them is a byte of the image in the
/// buffer: no byte of the padding is among them.
pub proof fn lemma_image_holds_no_padding(geometry: ReadbackGeometry, data: Seq<u8>)
    requires
        geometry.width > 0,
        geometry.height > 0,
        data.len() >= geometry.extent(),
    ensures
        geometry.image(data).len() == geometry.width * geometry.height * 4,
        forall|k: int|
            0 <= k < geometry.image(data).len() ==> {
                &&& geometry.holds_image_byte(#[trigger] geometry.source_index(k))
                &&& geometry.source_index(k) < data.len()
                &&& geometry.image(data)[k] == data[geometry.source_index(k)]
            },
{
    let tight = geometry.unpadded_bytes_per_row();
    let pitch = geometry.padded_bytes_per_row();
    let rows = geometry.height as int;
    lemma_align_up_least_multiple(tight, 256);
    assert(rows * tight == geometry.width * geometry.height * 4) by (nonlinear_arith)
        requires
            tight == geometry.width * 4,
            rows == geometry.height,
    ;
    assert forall|k: int| 0 <= k < geometry.image(data).len() implies {
        &&& geometry.holds_image_byte(#[trigger] geometry.source_index(k))
        &&& geometry.source_index(k) < data.len()
        &&& geometry.image(data)[k] == data[geometry.source_index(k)]
    } by {
        let row = k / tight;
        let column = k % tight;
        lemma_fundamental_div_mod(k, tight);
        lemma_mod_bound(k, tight);
        lemma_div_pos_is_pos(k, tight);
        lemma_mul_is_commutative(row, tight);
        if row >= rows {
            lemma_mul_inequality(rows, row, tight);
        }
        lemma_mul_inequality(row, rows - 1, pitch);
        lemma_mul_nonnegative(row, pitch);
        lemma_mul_is_commutative(row, pitch);
        lemma_fundamental_div_mod_converse(row * pitch + column, pitch, row, column);
    }
}

/// Where the width is a multiple of 64 pixels the rows of the staging buffer
/// are tight already, and the image is the buffer up to the image's size.
pub proof fn lemma_aligned_width_needs_no_padding(geometry: ReadbackGeometry, data: Seq<u8>)
    requires
        geometry.width > 0,
        geometry.height > 0,
        geometry.width % 64 == 0,
        data.len() >= geometry.extent(),
    ensures
        geometry.padded_bytes_per_row() == geometry.unpadded_bytes_per_row(),
        geometry.extent() == geometry.image_size(),
        geometry.image(data) == data.take(geometry.image_size()),
{
    let tight = geometry.unpadded_bytes_per_row();
    assert(tight % 256 == 0) by {
        lemma_fundamental_div_mod(geometry.width as int, 64);
        lemma_mod_multiples_basic(geometry.width as int / 64, 256);
        assert(tight == (geometry.width as int / 64) * 256) by (nonlinear_arith)
            requires
                tight == geometry.width * 4,
                geometry.width as int == 64 * (geometry.width as int / 64) + geometry.width as int
                    % 64,
                geometry.width as int % 64 == 0,
        ;
    }
    lemma_align_up_least_multiple(tight, 256);
    lemma_image_holds_no_padding(geometry, data);
    assert(geometry.extent() == geometry.image_size()) by (nonlinear_arith)
        requires
            geometry.extent() == (geometry.height - 1) * tight + tight,
            geometry.image_size() == geometry.width * geometry.height * 4,
            tight == geometry.width * 4,
    ;
    let image = geometry.image(data);
    assert forall|k: int| 0 <= k < image.len() implies image[k] == data[k] by {
        lemma_fundamental_div_mod(k, tight);
        lemma_mul_is_commutative(k / tight, tight);
    }
    assert(image =~= data.take(geometry.image_size()));
}

/// Layout of the staging buffer for one RGBA8 image: the tight row, the
/// padded row and the buffer size, fixed at construction.
#[derive(Clone, Copy, Debug)]
pub struct ReadbackLayout {
    width: u32,
    height: u32,
    pitch: u32,
}

impl View for ReadbackLayout {
    type V = ReadbackGeometry;

    closed spec fn view(&self) -> ReadbackGeometry {
        ReadbackGeometry { width: self.width as nat, height: self.height as nat }
    }
}

impl ReadbackLayout {
    #[verifier::type_invariant]
    spec fn consistent(&self) -> bool {
        &&& self.width > 0
        &&& self.height > 0
        &&& self.pitch as int == align_up(self.width * 4, 256)
    }

    /// Whether a staging buffer for a `width` by `height` image can be
    /// described: the image has pixels and its padded row fits the 32 bits
    /// that a copy takes for a row pitch.
    pub open spec fn describable(width: u32, height: u32) -> bool {
        &&& width > 0
        &&& height > 0
        &&& align_up(
            width as int * RGBA8_BYTES_PER_PIXEL as int,
            COPY_BYTES_PER_ROW_ALIGNMENT as int,
        ) <= u32::MAX
    }

    /// The layout for a `width` by `height` image. An image without pixels is
    /// refused as empty, one whose padded row does not fit 32 bits as too
    /// large.
    pub fn new(width: u32, height: u32) -> (layout: Result<ReadbackLayout, ResourceError>)
        ensures
            layout is Ok <==> Self::describable(width, height),
            layout matches Ok(l) ==> l@.width == width && l@.height == height,
            layout matches Err(e) ==> e == (if width == 0 || height == 0 {
                ResourceError::EmptyImage
            } else {
                ResourceError::DimensionExceedsLimit
            }),
    {
        if width == 0 || height == 0 {
            return Err(ResourceError::EmptyImage);
        }
        proof {
            lemma_align_up_least_multiple(width * 4, 256);
        }
        let tight: u64 = width as u64 * 4;
        let padded: u64 = tight + (256 - tight % 256) % 256;
        if padded > u32::MAX as u64 {
            return Err(ResourceError::DimensionExceedsLimit);
        }
        Ok(ReadbackLayout { width, height, pitch: padded as u32 })
    }

    /// Width of the image in pixels.
    pub fn width(&self) -> (width: u32)
        ensures
            width == self@.width,
            width > 0,
    {
        proof {
            use_type_invariant(self);
        }
        self.width
    }

    /// Height of the image in pixels.
    pub fn height(&self) -> (height: u32)
        ensures
            height == self@.height,
            height > 0,
    {
        proof {
            use_type_invariant(self);
        }
        self.height
    }

    /// Bytes of one row of the exported image.
    pub fn unpadded_bytes_per_row(&self) -> (bytes: u32)
        ensures
            bytes == self@.unpadded_bytes_per_row(),
    {
        proof {
            use_type_invariant(self);
            lemma_align_up_least_multiple(self.width * 4, 256);
        }
        self.width * 4
    }

    /// Bytes from one row of the staging buffer to the next: the tight row
    /// rounded up to the copy alignment.
    pub fn padded_bytes_per_row(&self) -> (bytes: u32)
        ensures
            bytes == self@.padded_bytes_per_row(),
            bytes % 256 == 0,
            self@.unpadded_bytes_per_row() <= bytes < self@.unpadded_bytes_per_row() + 256,
    {
        proof {
            use_type_invariant(self);
            lemma_align_up_least_multiple(self.width * 4, 256);
        }
        self.pitch
    }

    /// Bytes to allocate for the staging buffer: one padded row per image row.
    pub fn buffer_size(&self) -> (bytes: u64)
        ensures
            bytes == self@.buffer_size(),
            bytes >= self@.extent(),
    {
        proof {
            use_type_invariant(self);
            lemma_align_up_least_multiple(self.width * 4, 256);
            lemma_mul_upper_bound(
                self.pitch as int,
                u32::MAX as int,
                self.height as int,
                u32::MAX as int,
            );
            assert(self.pitch * self.height >= (self.height - 1) * self.pitch + self.width * 4)
                by (nonlinear_arith)
                requires
                    self.pitch >= self.width * 4,
            ;
        }
        self.pitch as u64 * self.height as u64
    }

    /// The image in a mapped staging buffer, its rows packed tightly: of
    /// every row the first `4 * width` bytes, in order, and none of the
    /// padding. `None` exactly when `data` is too short to hold the rows.
    pub fn strip_padding(&self, data: &[u8]) -> (image: Option<Vec<u8>>)
        ensures
            image is Some <==> data@.len() >= self@.extent(),
            image matches Some(bytes) ==> bytes@ == self@.image(data@) && bytes@.len()
                == self@.image_size(),
    {
        proof {
            use_type_invariant(self);
            lemma_align_up_least_multiple(self.width * 4, 256);
        }
        let tight: u64 = self.width as u64 * 4;
        let pitch: u64 = self.pitch as u64;
        let rows: u64 = self.height as u64;
        assert((rows - 1) * pitch <= 0xffff_ffff * 0xffff_ffff) by (nonlinear_arith)
            requires
                0 <= rows - 1 <= 0xffff_ffff,
                0 <= pitch <= 0xffff_ffff,
        ;
        let extent: u64 = (rows - 1) * pitch + tight;
        if (data.len() as u64) < extent {
            return None;
        }
        let mut out: Vec<u8> = Vec::new();
        let mut row: u64 = 0;
        while row < rows
            invariant
                0 < tight <= pitch,
                row <= rows,
                extent == (rows - 1) * pitch + tight,
                extent <= data@.len() <= usize::MAX,
                out@ == unpadded_rows(data@, tight as int, pitch as int, row as int),
            decreases rows - row,
        {
            assert(row * pitch + tight <= extent) by (nonlinear_arith)
                requires
                    row <= rows - 1,
                    extent == (rows - 1) * pitch + tight,
                    pitch >= 0,
            ;
            let start: u64 = row * pitch;
            let mut column: u64 = 0;
            while column < tight
                invariant
                    0 < tight <= pitch,
                    column <= tight,
                    row < rows,
                    start == row * pitch,
                    start + tight <= data@.len() <= usize::MAX,
                    out@.len() == row * tight + column,
                    forall|k: int|
                        0 <= k < out@.len() ==> out@[k] == data@[(k / tight as int) * pitch + k
                            % tight as int],
                decreases tight - column,
            {
                proof {
                    lemma_row_and_column(row as int, column as int, tight as int);
                }
                out.push(data[(start + column) as usize]);
                column = column + 1;
            }
            proof {
                assert((row + 1) * tight == row * tight + tight) by (nonlinear_arith);
                assert(out@ =~= unpadded_rows(data@, tight as int, pitch as int, row + 1));
            }
            row = row + 1;
        }
        proof {
            assert(rows * tight == self@.image_size()) by (nonlinear_arith)
                requires
                    rows == self@.height,
                    tight == self@.width * 4,
            ;
        }
        Some(out)
    }
}

} // verus!
