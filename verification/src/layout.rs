//! Integer geometry of the pipeline: tiles that cover an image and row
//! pitches rounded up to the alignment a texture-to-buffer copy asks for.

use vstd::prelude::*;
use vstd::arithmetic::div_mod::*;
use vstd::arithmetic::mul::*;

verus! {

/// Bytes of one texel of the processed texture (four normalized 8-bit channels).
pub const RGBA8_BYTES_PER_PIXEL: u32 = 4;

/// Bytes of one texel of the linear input texture (four 32-bit channels).
pub const LINEAR_BYTES_PER_PIXEL: u32 = 16;

/// Row alignment, in bytes, of a texture-to-buffer copy.
pub const COPY_BYTES_PER_ROW_ALIGNMENT: u32 = 256;

/// Side of the square tile that one workgroup of the colour transform covers.
pub const WORKGROUP_SIZE: u32 = 16;

/// How many blocks of `block` elements it takes to cover `n` elements.
pub open spec fn ceil_div(n: int, block: int) -> int
    recommends
        n >= 0,
        block > 0,
{
    if n % block == 0 {
        n / block
    } else {
        n / block + 1
    }
}

/// `n` rounded up to a multiple of `align`.
pub open spec fn align_up(n: int, align: int) -> int
    recommends
        n >= 0,
        align > 0,
{
    ceil_div(n, align) * align
}

/// `ceil_div(n, block)` blocks cover `n` elements, one block fewer does not,
/// and no smaller count covers them. It is also what the usual
/// add-then-divide formula computes.
pub proof fn lemma_ceil_div_least_cover(n: int, block: int)
    requires
        n >= 0,
        block > 0,
    ensures
        ceil_div(n, block) >= 0,
        ceil_div(n, block) * block >= n,
        (ceil_div(n, block) - 1) * block < n,
        forall|k: int| #[trigger] (k * block) >= n ==> k >= ceil_div(n, block),
        ceil_div(n, block) == (n + block - 1) / block,
{
    let q = n / block;
    let r = n % block;
    let c = ceil_div(n, block);
    lemma_fundamental_div_mod(n, block);
    lemma_mod_bound(n, block);
    lemma_div_pos_is_pos(n, block);
    assert(c * block >= n && (c - 1) * block < n) by (nonlinear_arith)
        requires
            n == block * q + r,
            0 <= r < block,
            c == if r == 0 { q } else { q + 1 },
    ;
    assert forall|k: int| #[trigger] (k * block) >= n implies k >= c by {
        if k < c {
            lemma_mul_inequality(k, c - 1, block);
        }
    }
    if r == 0 {
        lemma_fundamental_div_mod_converse(n + block - 1, block, q, block - 1);
    } else {
        assert(n + block - 1 == block * (q + 1) + (r - 1)) by (nonlinear_arith)
            requires
                n == block * q + r,
        ;
        lemma_fundamental_div_mod_converse(n + block - 1, block, q + 1, r - 1);
    }
}

/// `align_up(n, align)` is the least multiple of `align` that is not below
/// `n`; it exceeds `n` by less than `align`, by exactly the padding
/// `(align - n % align) % align`.
pub proof fn lemma_align_up_least_multiple(n: int, align: int)
    requires
        n >= 0,
        align > 0,
    ensures
        align_up(n, align) % align == 0,
        n <= align_up(n, align) < n + align,
        forall|m: int| m >= n && #[trigger] (m % align) == 0 ==> m >= align_up(n, align),
        align_up(n, align) == ((n + align - 1) / align) * align,
        align_up(n, align) == n + (align - n % align) % align,
        n % align == 0 ==> align_up(n, align) == n,
{
    let c = ceil_div(n, align);
    let r = n % align;
    lemma_ceil_div_least_cover(n, align);
    lemma_fundamental_div_mod(n, align);
    lemma_mod_bound(n, align);
    lemma_mod_multiples_basic(c, align);
    assert(c * align < n + align) by (nonlinear_arith)
        requires
            (c - 1) * align < n,
    ;
    assert forall|m: int| m >= n && #[trigger] (m % align) == 0 implies m >= align_up(n, align) by {
        lemma_fundamental_div_mod(m, align);
        assert((m / align) * align == m) by (nonlinear_arith)
            requires
                m == align * (m / align) + m % align,
                m % align == 0,
        ;
        assert(m / align >= c);
        lemma_mul_inequality(c, m / align, align);
    }
    if r == 0 {
        lemma_mod_self_0(align);
        assert(c * align == n) by (nonlinear_arith)
            requires
                n == align * (n / align) + r,
                r == 0,
                c == n / align,
        ;
    } else {
        lemma_small_mod((align - r) as nat, align as nat);
        assert(c * align == n + (align - r)) by (nonlinear_arith)
            requires
                n == align * (n / align) + r,
                c == n / align + 1,
        ;
    }
}

/// Blocks of `block` elements that cover `n` elements.
pub fn block_count(n: u32, block: u32) -> (count: u32)
    requires
        block > 0,
    ensures
        count == ceil_div(n as int, block as int),
{
    let whole: u32 = n / block;
    if n % block == 0 {
        whole
    } else {
        assert(whole < u32::MAX) by (nonlinear_arith)
            requires
                whole == n as int / block as int,
                n as int % block as int != 0,
                block > 0,
                n <= u32::MAX,
        {
            if block == 1 {
                assert(n as int % 1 == 0);
            } else {
                assert(n as int == block * (n as int / block as int) + n as int % block as int);
            }
        }
        whole + 1
    }
}

/// Workgroups, per axis, that a dispatch over an image of `size` takes when
/// one workgroup covers `workgroup` pixels: the ceiling of the quotient on
/// each axis, so that every pixel lies in some tile.
pub fn compute_work_group_count(size: (u32, u32), workgroup: (u32, u32)) -> (count: (u32, u32))
    requires
        workgroup.0 > 0,
        workgroup.1 > 0,
    ensures
        count.0 == ceil_div(size.0 as int, workgroup.0 as int),
        count.1 == ceil_div(size.1 as int, workgroup.1 as int),
{
    (block_count(size.0, workgroup.0), block_count(size.1, workgroup.1))
}

/// Bytes from the start of one row to the start of the next in a staging
/// buffer that receives an RGBA8 image `width` pixels wide: the tight row
/// rounded up to the copy alignment.
pub fn padded_bytes_per_row(width: u32) -> (pitch: usize)
    requires
        align_up(
            width as int * RGBA8_BYTES_PER_PIXEL as int,
            COPY_BYTES_PER_ROW_ALIGNMENT as int,
        ) <= usize::MAX,
    ensures
        pitch == align_up(
            width as int * RGBA8_BYTES_PER_PIXEL as int,
            COPY_BYTES_PER_ROW_ALIGNMENT as int,
        ),
{
    proof {
        lemma_align_up_least_multiple(width * 4, 256);
    }
    let bytes_per_row: usize = width as usize * 4;
    let padding: usize = (256 - bytes_per_row % 256) % 256;
    bytes_per_row + padding
}

} // verus!
