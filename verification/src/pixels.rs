//! Pixel conversion: a raw frame of interleaved 3-byte color triplets is
//! sampled into a fixed-size framebuffer of packed 32-bit pixels
//! (`0x00RRGGBB`), cropping a sub-region of the wider source frame.

use vstd::prelude::*;
use vstd::arithmetic::div_mod::lemma_fundamental_div_mod;
use vstd::arithmetic::div_mod::lemma_mod_multiples_basic;
use vstd::arithmetic::div_mod::lemma_mul_mod_noop_general;
use vstd::arithmetic::div_mod::lemma_add_mod_noop;

verus! {

/// Failure of the conversion step: the sampled region does not fit in the
/// raw buffer.
#[derive(Clone, Copy, Debug, PartialEq, Eq, Structural)]
pub enum ConversionError {
    SourceIndexOutOfRange,
}

/// Byte distance between the starts of consecutive rows of a raw frame:
/// three bytes per pixel.
pub open spec fn row_stride(src_width: int) -> int {
    src_width * 3
}

/// Index of the first byte of the source triplet sampled for destination
/// pixel `(x, y)`: `x` scaled source pixels to the right of the horizontal
/// crop offset, `y` scaled rows down.
pub open spec fn sample_index(x: int, y: int, scale: int, stride: int, x_offset: int) -> int {
    x * scale * 3 + x_offset + y * scale * stride
}

/// One packed framebuffer pixel: blue in the low byte, then green, then red.
pub open spec fn pack_rgb(r: u8, g: u8, b: u8) -> u32 {
    (b as u32) | ((g as u32) << 8) | ((r as u32) << 16)
}

/// The packed pixel sampled from the triplet starting at byte `si` of `raw`.
pub open spec fn pixel_at(raw: Seq<u8>, si: int) -> u32 {
    pack_rgb(raw[si], raw[si + 1], raw[si + 2])
}

/// Whether every triplet the conversion samples lies inside a raw buffer of
/// `raw_len` bytes. The largest index is sampled for the bottom-right
/// destination pixel, so only that one needs to be in range.
pub open spec fn crop_in_range(
    raw_len: int,
    dst_width: int,
    dst_height: int,
    scale: int,
    stride: int,
    x_offset: int,
) -> bool {
    dst_width == 0 || dst_height == 0 || sample_index(
        dst_width - 1,
        dst_height - 1,
        scale,
        stride,
        x_offset,
    ) + 2 < raw_len
}

/// The converted framebuffer: destination pixels in row-major order, pixel
/// `i` sampled at destination coordinates `(i % dst_width, i / dst_width)`.
pub open spec fn converted(
    raw: Seq<u8>,
    dst_width: int,
    dst_height: int,
    scale: int,
    stride: int,
    x_offset: int,
) -> Seq<u32> {
    Seq::new(
        (dst_width * dst_height) as nat,
        |i: int| pixel_at(raw, sample_index(i % dst_width, i / dst_width, scale, stride, x_offset)),
    )
}

/// The sample index grows with both destination coordinates, so the
/// bottom-right pixel samples the largest index.
pub proof fn lemma_sample_index_monotonic(
    x1: int,
    y1: int,
    x2: int,
    y2: int,
    scale: int,
    stride: int,
    x_offset: int,
)
    requires
        0 <= x1 <= x2,
        0 <= y1 <= y2,
        scale >= 0,
        stride >= 0,
    ensures
        sample_index(x1, y1, scale, stride, x_offset) <= sample_index(
            x2,
            y2,
            scale,
            stride,
            x_offset,
        ),
{
    assert(x1 * scale * 3 <= x2 * scale * 3) by (nonlinear_arith)
        requires
            0 <= x1 <= x2,
            scale >= 0,
    ;
    assert(y1 * scale * stride <= y2 * scale * stride) by (nonlinear_arith)
        requires
            0 <= y1 <= y2,
            scale >= 0,
            stride >= 0,
    ;
}

/// Every term of a sample index is non-negative when the inputs are.
proof fn lemma_sample_index_terms_nonneg(x: int, y: int, scale: int, stride: int, x_offset: int)
    requires
        x >= 0,
        y >= 0,
        scale >= 0,
        stride >= 0,
        x_offset >= 0,
    ensures
        x * scale * 3 >= 0,
        y * scale * stride >= 0,
        sample_index(x, y, scale, stride, x_offset) >= 0,
{
    assert(x * scale * 3 >= 0) by (nonlinear_arith)
        requires
            x >= 0,
            scale >= 0,
    ;
    assert(y * scale * stride >= 0) by (nonlinear_arith)
        requires
            y >= 0,
            scale >= 0,
            stride >= 0,
    ;
}

/// A packed pixel uses only the low 24 bits.
pub proof fn lemma_pack_rgb_bound(r: u8, g: u8, b: u8)
    ensures
        pack_rgb(r, g, b) <= 0xFFFFFF,
{
    assert((b as u32) | ((g as u32) << 8) | ((r as u32) << 16) <= 0xFFFFFF) by (bit_vector);
}

/// Computes a sample index in machine arithmetic, reporting overflow. An
/// overflowing index is in particular larger than any buffer length.
fn checked_sample_index(x: usize, y: usize, scale: usize, stride: usize, x_offset: usize) -> (r:
    Option<usize>)
    ensures
        ({
            let si = sample_index(x as int, y as int, scale as int, stride as int, x_offset as int);
            match r {
                Some(v) => v == si,
                None => si > usize::MAX,
            }
        }),
{
    proof {
        lemma_sample_index_terms_nonneg(
            x as int,
            y as int,
            scale as int,
            stride as int,
            x_offset as int,
        );
    }
    let xs: usize = match x.checked_mul(scale) {
        Some(v) => v,
        None => {
            return None;
        },
    };
    let xs3: usize = match xs.checked_mul(3) {
        Some(v) => v,
        None => {
            return None;
        },
    };
    let yss: usize = if scale == 0 || stride == 0 {
        proof {
            assert((y as int) * (scale as int) * (stride as int) == 0) by (nonlinear_arith)
                requires
                    scale == 0 || stride == 0,
            ;
        }
        0
    } else {
        let ys: usize = match y.checked_mul(scale) {
            Some(v) => v,
            None => {
                proof {
                    assert((y as int) * (scale as int) <= (y as int) * (scale as int) * (
                    stride as int)) by (nonlinear_arith)
                        requires
                            y >= 0,
                            scale >= 0,
                            stride >= 1,
                    ;
                }
                return None;
            },
        };
        match ys.checked_mul(stride) {
            Some(v) => v,
            None => {
                return None;
            },
        }
    };
    let a: usize = match xs3.checked_add(x_offset) {
        Some(v) => v,
        None => {
            return None;
        },
    };
    let si: usize = match a.checked_add(yss) {
        Some(v) => v,
        None => {
            return None;
        },
    };
    Some(si)
}

/// Converts raw interleaved color triplets into a `dst_width × dst_height`
/// framebuffer of packed pixels, sampling every `scale`-th source pixel of
/// every `scale`-th row starting `x_offset` bytes into each row. Fails fast,
/// without reading out of bounds, when the sampled region does not fit in
/// `raw`.
pub fn convert(
    raw: &Vec<u8>,
    src_width: u32,
    _src_height: u32,
    dst_width: u32,
    dst_height: u32,
    scale: usize,
    x_offset: usize,
) -> (r: Result<Vec<u32>, ConversionError>)
    requires
        dst_width == dst_height,
        dst_width * dst_height <= usize::MAX,
        row_stride(src_width as int) <= usize::MAX,
    ensures
        ({
            let stride = row_stride(src_width as int);
            let fits = crop_in_range(
                raw@.len() as int,
                dst_width as int,
                dst_height as int,
                scale as int,
                stride,
                x_offset as int,
            );
            match r {
                Ok(fb) => fits && fb@ == converted(
                    raw@,
                    dst_width as int,
                    dst_height as int,
                    scale as int,
                    stride,
                    x_offset as int,
                ),
                Err(e) => e == ConversionError::SourceIndexOutOfRange && !fits,
            }
        }),
{
    let stride: usize = (src_width as usize) * 3;
    let w: usize = dst_width as usize;
    let h: usize = dst_height as usize;
    let total: usize = w * h;
    let ghost gstride: int = stride as int;
    let ghost gscale: int = scale as int;
    let ghost goffs: int = x_offset as int;
    let ghost target: Seq<u32> = converted(raw@, w as int, h as int, gscale, gstride, goffs);
    if total == 0 {
        proof {
            assert(w == 0 || h == 0) by (nonlinear_arith)
                requires
                    w * h == 0,
            ;
            assert(target =~= Seq::<u32>::empty());
        }
        return Ok(Vec::new());
    }
    proof {
        assert(w > 0 && h > 0) by (nonlinear_arith)
            requires
                w * h > 0,
        ;
    }
    let rlen: usize = raw.len();
    let max_si: usize = match checked_sample_index(w - 1, h - 1, scale, stride, x_offset) {
        Some(v) => v,
        None => {
            proof {
                assert(rlen <= usize::MAX);
            }
            return Err(ConversionError::SourceIndexOutOfRange);
        },
    };
    if !(rlen >= 3 && max_si < rlen - 2) {
        proof {
            assert(max_si + 2 >= rlen);
        }
        return Err(ConversionError::SourceIndexOutOfRange);
    }
    let mut fb: Vec<u32> = Vec::new();
    let mut i: usize = 0;
    while i < total
        invariant
            total == w * h,
            w > 0,
            h > 0,
            i <= total,
            gscale == scale as int,
            gstride == stride as int,
            goffs == x_offset as int,
            max_si == sample_index(w - 1, h - 1, gscale, gstride, goffs),
            rlen == raw@.len(),
            max_si + 2 < rlen,
            target == converted(raw@, w as int, h as int, gscale, gstride, goffs),
            fb@.len() == i,
            forall|j: int| 0 <= j < i ==> fb@[j] == target[j],
        decreases total - i,
    {
        let x: usize = i % w;
        let y: usize = i / w;
        let ghost si_spec: int = sample_index(x as int, y as int, gscale, gstride, goffs);
        proof {
            lemma_fundamental_div_mod(i as int, w as int);
            assert(y < h) by (nonlinear_arith)
                requires
                    w * (y as int) + (x as int) == i,
                    0 <= x < w,
                    i < w * h,
                    w > 0,
                    y >= 0,
            ;
            lemma_sample_index_terms_nonneg(x as int, y as int, gscale, gstride, goffs);
            lemma_sample_index_monotonic(
                x as int,
                y as int,
                w - 1,
                h - 1,
                gscale,
                gstride,
                goffs,
            );
            assert(si_spec <= max_si);
        }
        let si: usize = match checked_sample_index(x, y, scale, stride, x_offset) {
            Some(v) => v,
            None => {
                proof {
                    assert(false);
                }
                vstd::pervasive::unreached()
            },
        };
        let red: u32 = raw[si] as u32;
        let green: u32 = raw[si + 1] as u32;
        let blue: u32 = raw[si + 2] as u32;
        let color: u32 = blue | (green << 8u32) | (red << 16u32);
        proof {
            assert(color == pixel_at(raw@, si_spec));
            assert(target[i as int] == pixel_at(raw@, si_spec));
        }
        fb.push(color);
        i = i + 1;
    }
    proof {
        assert(fb@ =~= target);
    }
    Ok(fb)
}

/// Law: for a square destination, the conversion yields exactly
/// `dst_width * dst_height` pixels, each a packed value of at most
/// `0xFFFFFF`.
pub proof fn lemma_converted_size_and_range(
    raw: Seq<u8>,
    dst_width: int,
    dst_height: int,
    scale: int,
    stride: int,
    x_offset: int,
)
    requires
        dst_width == dst_height,
        dst_width >= 0,
    ensures
        converted(raw, dst_width, dst_height, scale, stride, x_offset).len() == dst_width
            * dst_height,
        forall|i: int|
            0 <= i < dst_width * dst_height ==> converted(
                raw,
                dst_width,
                dst_height,
                scale,
                stride,
                x_offset,
            )[i] <= 0xFFFFFF,
{
    assert(dst_width * dst_height >= 0) by (nonlinear_arith)
        requires
            dst_width >= 0,
            dst_height >= 0,
    ;
    assert forall|i: int| 0 <= i < dst_width * dst_height implies converted(
        raw,
        dst_width,
        dst_height,
        scale,
        stride,
        x_offset,
    )[i] <= 0xFFFFFF by {
        let si = sample_index(i % dst_width, i / dst_width, scale, stride, x_offset);
        lemma_pack_rgb_bound(raw[si], raw[si + 1], raw[si + 2]);
    }
}

/// Law: when every source triplet holds the same color `(r, g, b)` and the
/// row stride and crop offset are multiples of three, every converted pixel
/// is that color packed. (An offset that is not a multiple of three samples
/// straddling triplets and rotates the channels instead.)
pub proof fn lemma_uniform_source_roundtrip(
    raw: Seq<u8>,
    r: u8,
    g: u8,
    b: u8,
    dst_width: int,
    dst_height: int,
    scale: int,
    stride: int,
    x_offset: int,
)
    requires
        dst_width > 0,
        dst_height > 0,
        scale >= 0,
        stride >= 0,
        x_offset >= 0,
        stride % 3 == 0,
        x_offset % 3 == 0,
        crop_in_range(raw.len() as int, dst_width, dst_height, scale, stride, x_offset),
        forall|k: int|
            0 <= k < raw.len() ==> raw[k] == (if k % 3 == 0 {
                r
            } else if k % 3 == 1 {
                g
            } else {
                b
            }),
    ensures
        forall|i: int|
            0 <= i < dst_width * dst_height ==> converted(
                raw,
                dst_width,
                dst_height,
                scale,
                stride,
                x_offset,
            )[i] == pack_rgb(r, g, b),
{
    assert forall|i: int| 0 <= i < dst_width * dst_height implies converted(
        raw,
        dst_width,
        dst_height,
        scale,
        stride,
        x_offset,
    )[i] == pack_rgb(r, g, b) by {
        let x = i % dst_width;
        let y = i / dst_width;
        let si = sample_index(x, y, scale, stride, x_offset);
        lemma_fundamental_div_mod(i, dst_width);
        assert(0 <= x < dst_width);
        assert(y < dst_height) by (nonlinear_arith)
            requires
                dst_width * y + x == i,
                0 <= x < dst_width,
                i < dst_width * dst_height,
                dst_width > 0,
                y >= 0,
        ;
        lemma_sample_index_terms_nonneg(x, y, scale, stride, x_offset);
        lemma_sample_index_monotonic(
            x,
            y,
            dst_width - 1,
            dst_height - 1,
            scale,
            stride,
            x_offset,
        );
        assert(si + 2 < raw.len());
        lemma_mod_multiples_basic(x * scale, 3);
        assert((x * scale * 3) % 3 == 0);
        lemma_mul_mod_noop_general(y * scale, stride, 3);
        assert((y * scale * stride) % 3 == 0);
        lemma_add_mod_noop(x * scale * 3, x_offset, 3);
        lemma_add_mod_noop(x * scale * 3 + x_offset, y * scale * stride, 3);
        assert(si % 3 == 0);
        lemma_add_mod_noop(si, 1, 3);
        lemma_add_mod_noop(si, 2, 3);
        assert((si + 1) % 3 == 1);
        assert((si + 2) % 3 == 2);
        assert(raw[si] == r);
        assert(raw[si + 1] == g);
        assert(raw[si + 2] == b);
    }
}

/// Law: a raw buffer sized exactly for the sampled crop region — up to and
/// including the triplet of the bottom-right destination pixel — is within
/// range, so the conversion does not fail.
pub proof fn lemma_exact_crop_in_range(
    raw_len: int,
    dst_width: int,
    dst_height: int,
    scale: int,
    stride: int,
    x_offset: int,
)
    requires
        dst_width > 0,
        dst_height > 0,
        raw_len == sample_index(dst_width - 1, dst_height - 1, scale, stride, x_offset) + 3,
    ensures
        crop_in_range(raw_len, dst_width, dst_height, scale, stride, x_offset),
{
}

/// The horizontal crop offset the capture pipeline uses: a quarter of the
/// row stride, which places the sampled square region toward the middle of
/// the wider source frame.
pub fn centered_offset(src_width: u32) -> (r: usize)
    requires
        row_stride(src_width as int) <= usize::MAX,
    ensures
        r == row_stride(src_width as int) / 4,
{
    (src_width as usize) * 3 / 4
}

} // verus!
