//! Conversion of NV12 pictures (a luma plane, then a plane of interleaved chroma
//! at half resolution) to BGRA.

use vstd::prelude::*;

use crate::color_spec::{ColorMatrix, ColorSpec};
use crate::text;
use crate::text::push_decimal;

verus! {

/// Where the planes of a picture lie in its buffer.
pub struct Layout {
    pub width: nat,
    pub height: nat,
    pub y_stride: nat,
    pub uv_stride: nat,
    pub uv_offset: nat,
}

/// `value / 256`, rounded down, within the range of a byte.
pub open spec fn scaled_byte(value: int) -> u8 {
    if value < 0 {
        0
    } else if value / 256 > 255 {
        255
    } else {
        (value / 256) as u8
    }
}

/// The luma above black.
pub open spec fn lifted(luma: u8) -> int {
    if luma >= 16 {
        luma - 16
    } else {
        0
    }
}

/// The blue, green and red of a pixel.
pub open spec fn blue(matrix: ColorMatrix, luma: u8, u: u8, v: u8) -> u8 {
    match matrix {
        ColorMatrix::Bt601 => scaled_byte(298 * lifted(luma) + 516 * (u - 128) + 128),
        ColorMatrix::Bt709 => scaled_byte(298 * lifted(luma) + 541 * (u - 128) + 128),
    }
}

pub open spec fn green(matrix: ColorMatrix, luma: u8, u: u8, v: u8) -> u8 {
    match matrix {
        ColorMatrix::Bt601 => scaled_byte(
            298 * lifted(luma) - 100 * (u - 128) - 208 * (v - 128) + 128,
        ),
        ColorMatrix::Bt709 => scaled_byte(
            298 * lifted(luma) - 55 * (u - 128) - 136 * (v - 128) + 128,
        ),
    }
}

pub open spec fn red(matrix: ColorMatrix, luma: u8, u: u8, v: u8) -> u8 {
    match matrix {
        ColorMatrix::Bt601 => scaled_byte(298 * lifted(luma) + 409 * (v - 128) + 128),
        ColorMatrix::Bt709 => scaled_byte(298 * lifted(luma) + 459 * (v - 128) + 128),
    }
}

impl Layout {
    /// The luma of the pixel in column `x` of row `y`.
    pub open spec fn luma(self, nv12: Seq<u8>, x: int, y: int) -> u8 {
        nv12[y * self.y_stride + x]
    }

    /// Where the chroma pair of that pixel lies; two by two pixels share one.
    pub open spec fn chroma_at(self, x: int, y: int) -> int {
        self.uv_offset + (y / 2) * self.uv_stride + (x - x % 2)
    }

    /// The four bytes of that pixel.
    pub open spec fn pixel(self, nv12: Seq<u8>, matrix: ColorMatrix, x: int, y: int) -> Seq<u8> {
        let luma = self.luma(nv12, x, y);
        let u = nv12[self.chroma_at(x, y)];
        let v = nv12[self.chroma_at(x, y) + 1];
        seq![
            blue(matrix, luma, u, v),
            green(matrix, luma, u, v),
            red(matrix, luma, u, v),
            255u8,
        ]
    }

    /// The first `n` pixels, row by row.
    pub open spec fn pixels(self, nv12: Seq<u8>, matrix: ColorMatrix, n: nat) -> Seq<u8>
        decreases n,
    {
        if n == 0 {
            Seq::empty()
        } else {
            let p = n - 1;
            self.pixels(nv12, matrix, p as nat) + self.pixel(
                nv12,
                matrix,
                p % self.width as int,
                p / self.width as int,
            )
        }
    }

    /// The picture in BGRA.
    pub open spec fn picture(self, nv12: Seq<u8>, matrix: ColorMatrix) -> Seq<u8> {
        self.pixels(nv12, matrix, self.width * self.height)
    }

    /// The first rule that the layout breaks for a buffer of `len` bytes.
    pub open spec fn error(self, len: nat) -> Option<Seq<char>> {
        if self.width == 0 || self.height == 0 || self.width % 2 != 0 || self.height % 2 != 0 {
            Some("NV12 width and height must be non-zero even values"@)
        } else if self.y_stride < self.width || self.uv_stride < self.width {
            Some(
                "NV12 stride is smaller than width: width="@ + text::decimal(self.width)
                    + ", y_stride="@ + text::decimal(self.y_stride) + ", uv_stride="@
                    + text::decimal(self.uv_stride),
            )
        } else if self.y_stride * self.height > usize::MAX {
            Some("NV12 Y plane size overflow"@)
        } else if self.uv_offset < self.y_stride * self.height {
            Some(
                "NV12 UV offset overlaps visible Y plane: uv_offset="@ + text::decimal(
                    self.uv_offset,
                ) + ", visible_y_size="@ + text::decimal(self.y_stride * self.height),
            )
        } else if self.uv_stride * (self.height / 2) > usize::MAX {
            Some("NV12 UV plane size overflow"@)
        } else if self.uv_offset + self.uv_stride * (self.height / 2) > usize::MAX {
            Some("NV12 buffer size overflow"@)
        } else if len < self.uv_offset + self.uv_stride * (self.height / 2) {
            Some(
                "NV12 buffer too small: expected at least "@ + text::decimal(
                    self.uv_offset + self.uv_stride * (self.height / 2),
                ) + ", got "@ + text::decimal(len),
            )
        } else if self.width * self.height * 4 > usize::MAX {
            Some("BGRA buffer size overflow"@)
        } else {
            None
        }
    }
}

/// The bytes of a pixel lie within the buffer.
proof fn lemma_pixel_in_buffer(layout: Layout, len: nat, x: int, y: int)
    requires
        layout.error(len) is None,
        0 <= x < layout.width,
        0 <= y < layout.height,
    ensures
        0 <= y * layout.y_stride + x < len,
        0 <= y * layout.y_stride,
        0 <= (y / 2) * layout.uv_stride,
        layout.uv_offset <= layout.chroma_at(x, y),
        layout.chroma_at(x, y) + 1 < len,
{
    let h = layout.height as int;
    let ys = layout.y_stride as int;
    let us = layout.uv_stride as int;
    assert(y * ys + x < ys * h) by (nonlinear_arith)
        requires
            0 <= x < ys,
            0 <= y < h,
    ;
    assert(0 <= y * ys) by (nonlinear_arith)
        requires
            0 <= y,
            0 <= ys,
    ;
    let half = y / 2;
    assert(0 <= half < h / 2);
    assert(0 <= half * us && half * us + us <= us * (h / 2)) by (nonlinear_arith)
        requires
            0 <= half < h / 2,
            0 <= us,
    ;
    assert(layout.y_stride * layout.height == ys * h);
    assert(layout.uv_stride * (layout.height / 2) == us * (h / 2));
}

fn scale_byte(value: i32) -> (r: u8)
    ensures
        r == scaled_byte(value as int),
{
    if value < 0 {
        0
    } else {
        clamp_u8(value / 256)
    }
}

fn clamp_u8(value: i32) -> (r: u8)
    ensures
        r == if value < 0 {
            0
        } else if value > 255 {
            255
        } else {
            value as int
        },
{
    if value < 0 {
        0
    } else if value > 255 {
        255
    } else {
        value as u8
    }
}

/// Converts a picture whose rows are packed.
pub fn convert(nv12: &[u8], width: u32, height: u32, bgra: &mut Vec<u8>) -> (r: Result<(), String>)
    ensures
        convert_outcome(
            nv12@,
            packed(width, height, width as usize, width as usize),
            ColorMatrix::Bt709,
            old(bgra)@,
            final(bgra)@,
            r,
        ),
{
    convert_with_strides(nv12, width, height, width as usize, width as usize, bgra)
}

/// The layout in which the chroma plane follows the luma plane at once.
pub open spec fn packed(width: u32, height: u32, y_stride: usize, uv_stride: usize) -> Layout {
    Layout {
        width: width as nat,
        height: height as nat,
        y_stride: y_stride as nat,
        uv_stride: uv_stride as nat,
        uv_offset: (y_stride * height) as nat,
    }
}

/// What a conversion does: the picture replaces the output, or the output stays
/// and the first broken rule is reported.
pub open spec fn convert_outcome(
    nv12: Seq<u8>,
    layout: Layout,
    matrix: ColorMatrix,
    before: Seq<u8>,
    after: Seq<u8>,
    r: Result<(), String>,
) -> bool {
    let error = if layout.uv_offset > usize::MAX {
        Some("NV12 UV offset overflow"@)
    } else {
        layout.error(nv12.len())
    };
    match error {
        Some(text) => r is Err && r->Err_0@ == text && after == before,
        None => r is Ok && after == layout.picture(nv12, matrix),
    }
}

/// Converts a picture whose chroma plane follows its luma plane at once.
pub fn convert_with_strides(
    nv12: &[u8],
    width: u32,
    height: u32,
    y_stride: usize,
    uv_stride: usize,
    bgra: &mut Vec<u8>,
) -> (r: Result<(), String>)
    ensures
        convert_outcome(
            nv12@,
            packed(width, height, y_stride, uv_stride),
            ColorMatrix::Bt709,
            old(bgra)@,
            final(bgra)@,
            r,
        ),
{
    let uv_offset: usize = match y_stride.checked_mul(height as usize) {
        Some(uv_offset) => uv_offset,
        None => {
            return Err("NV12 UV offset overflow".to_string());
        },
    };
    convert_with_layout(nv12, width, height, y_stride, uv_stride, uv_offset, bgra)
}

/// Converts a picture in the default colour coding.
pub fn convert_with_layout(
    nv12: &[u8],
    width: u32,
    height: u32,
    y_stride: usize,
    uv_stride: usize,
    uv_offset: usize,
    bgra: &mut Vec<u8>,
) -> (r: Result<(), String>)
    ensures
        convert_outcome(
            nv12@,
            Layout {
                width: width as nat,
                height: height as nat,
                y_stride: y_stride as nat,
                uv_stride: uv_stride as nat,
                uv_offset: uv_offset as nat,
            },
            ColorMatrix::Bt709,
            old(bgra)@,
            final(bgra)@,
            r,
        ),
{
    convert_with_layout_and_spec(
        nv12,
        width,
        height,
        y_stride,
        uv_stride,
        uv_offset,
        bgra,
        ColorSpec::default(),
    )
}

fn stride_message(width: usize, y_stride: usize, uv_stride: usize) -> (r: String)
    ensures
        r@ == "NV12 stride is smaller than width: width="@ + text::decimal(width as nat)
            + ", y_stride="@ + text::decimal(y_stride as nat) + ", uv_stride="@ + text::decimal(
            uv_stride as nat,
        ),
{
    let mut error: String = "NV12 stride is smaller than width: width=".to_string();
    push_decimal(&mut error, width as u64);
    error.append(", y_stride=");
    push_decimal(&mut error, y_stride as u64);
    error.append(", uv_stride=");
    push_decimal(&mut error, uv_stride as u64);
    error
}

/// Converts a picture.
pub fn convert_with_layout_and_spec(
    nv12: &[u8],
    width: u32,
    height: u32,
    y_stride: usize,
    uv_stride: usize,
    uv_offset: usize,
    bgra: &mut Vec<u8>,
    color: ColorSpec,
) -> (r: Result<(), String>)
    ensures
        convert_outcome(
            nv12@,
            Layout {
                width: width as nat,
                height: height as nat,
                y_stride: y_stride as nat,
                uv_stride: uv_stride as nat,
                uv_offset: uv_offset as nat,
            },
            color.matrix,
            old(bgra)@,
            final(bgra)@,
            r,
        ),
{
    let ghost layout = Layout {
        width: width as nat,
        height: height as nat,
        y_stride: y_stride as nat,
        uv_stride: uv_stride as nat,
        uv_offset: uv_offset as nat,
    };
    if width == 0 || height == 0 || width % 2 != 0 || height % 2 != 0 {
        return Err("NV12 width and height must be non-zero even values".to_string());
    }
    let width: usize = width as usize;
    let height: usize = height as usize;
    if y_stride < width || uv_stride < width {
        return Err(stride_message(width, y_stride, uv_stride));
    }
    let visible_y_size: usize = match y_stride.checked_mul(height) {
        Some(size) => size,
        None => {
            return Err("NV12 Y plane size overflow".to_string());
        },
    };
    if uv_offset < visible_y_size {
        let mut error: String = "NV12 UV offset overlaps visible Y plane: uv_offset=".to_string();
        push_decimal(&mut error, uv_offset as u64);
        error.append(", visible_y_size=");
        push_decimal(&mut error, visible_y_size as u64);
        return Err(error);
    }
    let uv_plane_size: usize = match uv_stride.checked_mul(height / 2) {
        Some(size) => size,
        None => {
            return Err("NV12 UV plane size overflow".to_string());
        },
    };
    let expected: usize = match uv_offset.checked_add(uv_plane_size) {
        Some(size) => size,
        None => {
            return Err("NV12 buffer size overflow".to_string());
        },
    };
    let length: usize = nv12.len();
    if length < expected {
        let mut error: String = "NV12 buffer too small: expected at least ".to_string();
        push_decimal(&mut error, expected as u64);
        error.append(", got ");
        push_decimal(&mut error, length as u64);
        return Err(error);
    }
    let pixels: Option<usize> = width.checked_mul(height);
    let output_size: Option<usize> = match pixels {
        Some(pixels) => pixels.checked_mul(4),
        None => None,
    };
    let (pixels, output_size): (usize, usize) = match (pixels, output_size) {
        (Some(pixels), Some(size)) => (pixels, size),
        _ => {
            return Err("BGRA buffer size overflow".to_string());
        },
    };
    assert(layout.error(nv12@.len()) is None);
    bgra.clear();
    bgra.reserve(output_size);
    let mut x: usize = 0;
    let mut y: usize = 0;
    let mut p: usize = 0;
    assert(layout.pixels(nv12@, color.matrix, 0) =~= Seq::empty());
    while p < pixels
        invariant
            length == nv12@.len(),
            layout.error(nv12@.len()) is None,
            layout.width == width,
            layout.height == height,
            layout.y_stride == y_stride,
            layout.uv_stride == uv_stride,
            layout.uv_offset == uv_offset,
            pixels == width * height,
            0 < width,
            p <= pixels,
            x < width,
            p == y * width + x,
            bgra@ == layout.pixels(nv12@, color.matrix, p as nat),
        decreases pixels - p,
    {
        proof {
            assert(y < height) by (nonlinear_arith)
                requires
                    p == y * width + x,
                    p < width * height,
                    0 < width,
            ;
            lemma_pixel_in_buffer(layout, nv12@.len(), x as int, y as int);
            vstd::arithmetic::div_mod::lemma_fundamental_div_mod_converse(
                p as int,
                width as int,
                y as int,
                x as int,
            );
        }
        let luma: u8 = nv12[y * y_stride + x];
        let uv_index: usize = uv_offset + (y / 2) * uv_stride + (x - x % 2);
        let u: u8 = nv12[uv_index];
        let v: u8 = nv12[uv_index + 1];
        let c: i32 = if luma >= 16 {
            luma as i32 - 16
        } else {
            0
        };
        let cu: i32 = u as i32 - 128;
        let cv: i32 = v as i32 - 128;
        let (red, green, blue): (u8, u8, u8) = match color.matrix {
            ColorMatrix::Bt601 => (
                scale_byte(298 * c + 409 * cv + 128),
                scale_byte(298 * c - 100 * cu - 208 * cv + 128),
                scale_byte(298 * c + 516 * cu + 128),
            ),
            ColorMatrix::Bt709 => (
                scale_byte(298 * c + 459 * cv + 128),
                scale_byte(298 * c - 55 * cu - 136 * cv + 128),
                scale_byte(298 * c + 541 * cu + 128),
            ),
        };
        let ghost done = bgra@;
        bgra.push(blue);
        bgra.push(green);
        bgra.push(red);
        bgra.push(255);
        assert(bgra@ =~= done + layout.pixel(nv12@, color.matrix, x as int, y as int));
        p = p + 1;
        if x + 1 < width {
            x = x + 1;
        } else {
            assert((y + 1) * width == y * width + width) by (nonlinear_arith);
            assert(y + 1 <= usize::MAX);
            x = 0;
            y = y + 1;
        }
    }
    Ok(())
}

/// The size of a BGRA picture.
pub fn bgra_size(width: u32, height: u32) -> (r: Result<usize, String>)
    ensures
        text::agrees(
            r,
            if width * height * 4 <= usize::MAX {
                Ok((width * height * 4) as usize)
            } else {
                Err("BGRA buffer size overflow"@)
            },
        ),
{
    let size: Option<usize> = match (width as usize).checked_mul(height as usize) {
        Some(pixels) => pixels.checked_mul(4),
        None => None,
    };
    match size {
        Some(size) => Ok(size),
        None => Err("BGRA buffer size overflow".to_string()),
    }
}

/// A picture has four bytes for each pixel, and those of pixel `p` are the pixel in
/// column `p % width` of row `p / width`.
pub proof fn law_picture_holds_its_pixels(
    layout: Layout,
    nv12: Seq<u8>,
    matrix: ColorMatrix,
    p: int,
)
    requires
        0 <= p < layout.width * layout.height,
    ensures
        layout.picture(nv12, matrix).len() == layout.width * layout.height * 4,
        layout.picture(nv12, matrix).subrange(4 * p, 4 * p + 4) == layout.pixel(
            nv12,
            matrix,
            p % layout.width as int,
            p / layout.width as int,
        ),
{
    lemma_pixels_prefix(layout, nv12, matrix, layout.width * layout.height, p);
}

proof fn lemma_pixels_prefix(
    layout: Layout,
    nv12: Seq<u8>,
    matrix: ColorMatrix,
    n: nat,
    p: int,
)
    requires
        0 <= p < n,
    ensures
        layout.pixels(nv12, matrix, n).len() == n * 4,
        layout.pixels(nv12, matrix, n).subrange(4 * p, 4 * p + 4) == layout.pixel(
            nv12,
            matrix,
            p % layout.width as int,
            p / layout.width as int,
        ),
    decreases n,
{
    let all = layout.pixels(nv12, matrix, n);
    let front = layout.pixels(nv12, matrix, (n - 1) as nat);
    let last = layout.pixel(
        nv12,
        matrix,
        (n - 1) % layout.width as int,
        (n - 1) / layout.width as int,
    );
    assert(all == front + last);
    if n > 1 {
        lemma_pixels_prefix(
            layout,
            nv12,
            matrix,
            (n - 1) as nat,
            if p < n - 1 {
                p
            } else {
                0
            },
        );
    } else {
        assert(front =~= Seq::empty());
    }
    if p < n - 1 {
        assert(all.subrange(4 * p, 4 * p + 4) =~= front.subrange(4 * p, 4 * p + 4));
    } else {
        assert(all.subrange(4 * p, 4 * p + 4) =~= last);
    }
}

/// Every pixel is opaque.
pub proof fn law_pictures_are_opaque(layout: Layout, nv12: Seq<u8>, matrix: ColorMatrix, p: int)
    requires
        0 <= p < layout.width * layout.height,
    ensures
        layout.picture(nv12, matrix)[4 * p + 3] == 255,
{
    law_picture_holds_its_pixels(layout, nv12, matrix, p);
    assert(layout.picture(nv12, matrix).subrange(4 * p, 4 * p + 4)[3] == 255);
}

/// Neutral chroma gives grey, in either matrix.
pub proof fn law_neutral_chroma_is_grey(matrix: ColorMatrix, luma: u8)
    ensures
        blue(matrix, luma, 128, 128) == green(matrix, luma, 128, 128),
        green(matrix, luma, 128, 128) == red(matrix, luma, 128, 128),
{
}

/// Whether the given channel of every pixel lies between `low` and `high`.
fn channel_within(picture: &Vec<u8>, channel: usize, low: u8, high: u8) -> (r: bool)
    requires
        channel < 4,
    ensures
        r == (forall|i: int|
            0 <= i < picture@.len() && i % 4 == channel ==> low <= #[trigger] picture@[i] <= high),
{
    let mut i: usize = 0;
    while i < picture.len()
        invariant
            i <= picture@.len(),
            forall|j: int|
                0 <= j < i && j % 4 == channel ==> low <= #[trigger] picture@[j] <= high,
        decreases picture@.len() - i,
    {
        if i % 4 == channel && (picture[i] < low || picture[i] > high) {
            assert(!(low <= picture@[i as int] <= high));
            return false;
        }
        i = i + 1;
    }
    true
}

/// Two by two pixels of one colour.
proof fn lemma_small_picture(layout: Layout, nv12: Seq<u8>, matrix: ColorMatrix, luma: u8)
    requires
        layout.width == 2,
        layout.height == 2,
        forall|x: int, y: int|
            0 <= x < 2 && 0 <= y < 2 ==> #[trigger] layout.luma(nv12, x, y) == luma,
        nv12[layout.uv_offset as int] == 128,
        nv12[layout.uv_offset as int + 1] == 128,
    ensures
        layout.picture(nv12, matrix).len() == 16,
        forall|i: int|
            0 <= i < 16 && i % 4 == 3 ==> #[trigger] layout.picture(nv12, matrix)[i] == 255,
        forall|i: int|
            0 <= i < 16 && i % 4 == 0 ==> #[trigger] layout.picture(nv12, matrix)[i] == blue(
                matrix,
                luma,
                128,
                128,
            ),
{
    let picture = layout.picture(nv12, matrix);
    assert(layout.width * layout.height == 4);
    law_picture_holds_its_pixels(layout, nv12, matrix, 0);
    assert forall|i: int| 0 <= i < 16 && (i % 4 == 3 || i % 4 == 0) implies #[trigger] picture[i]
        == if i % 4 == 3 {
        255
    } else {
        blue(matrix, luma, 128, 128)
    } by {
        let p = i / 4;
        law_picture_holds_its_pixels(layout, nv12, matrix, p);
        assert(layout.luma(nv12, p % 2, p / 2) == luma);
        assert((p / 2) / 2 == 0 && p % 2 - p % 2 % 2 == 0);
        assert(((p / 2) / 2) * layout.uv_stride == 0) by (nonlinear_arith)
            requires
                (p / 2) / 2 == 0,
        ;
        assert(picture.subrange(4 * p, 4 * p + 4)[i - 4 * p] == picture[i]);
    }
}

/// Converts small pictures in each layout.  It never fails.
pub fn run_self_test() -> (r: Result<(), String>)
    ensures
        r is Ok,
{
    let black: [u8; 6] = [16u8, 16, 16, 16, 128, 128];
    let mut output: Vec<u8> = Vec::new();
    proof {
        lemma_small_picture(packed(2, 2, 2, 2), black@, ColorMatrix::Bt709, 16);
    }
    convert(black.as_slice(), 2, 2, &mut output)?;
    if output.len() != 16 || !channel_within(&output, 3, 255, 255) {
        return Err("NV12 to BGRA black-frame conversion failed".to_string());
    }
    let white: [u8; 6] = [235u8, 235, 235, 235, 128, 128];
    proof {
        lemma_small_picture(packed(2, 2, 2, 2), white@, ColorMatrix::Bt709, 235);
    }
    convert(white.as_slice(), 2, 2, &mut output)?;
    if !channel_within(&output, 0, 250, 255) {
        return Err("NV12 to BGRA white-frame conversion failed".to_string());
    }
    let padded: [u8; 12] = [16u8, 16, 99, 99, 16, 16, 99, 99, 128, 128, 77, 77];
    proof {
        lemma_small_picture(packed(2, 2, 4, 4), padded@, ColorMatrix::Bt709, 16);
    }
    convert_with_strides(padded.as_slice(), 2, 2, 4, 4, &mut output)?;
    if output.len() != 16 || !channel_within(&output, 0, 0, 2) {
        return Err("NV12 padded-stride conversion failed".to_string());
    }
    let aligned_height: [u8; 10] = [16u8, 16, 16, 16, 99, 99, 99, 99, 128, 128];
    proof {
        lemma_small_picture(
            Layout { width: 2, height: 2, y_stride: 2, uv_stride: 2, uv_offset: 8 },
            aligned_height@,
            ColorMatrix::Bt709,
            16,
        );
    }
    convert_with_layout(aligned_height.as_slice(), 2, 2, 2, 2, 8, &mut output)?;
    if !channel_within(&output, 0, 0, 2) {
        return Err("NV12 aligned-height UV offset conversion failed".to_string());
    }
    Ok(())
}

/// The pixel in column `x` of row `y` stands at that place of the picture, in the order
/// blue, green, red, and is made of the luma in column `x` of row `y` and of the chroma pair
/// of its two by two pixels: U first, then V.
proof fn lemma_pixel_at(layout: Layout, nv12: Seq<u8>, matrix: ColorMatrix, x: int, y: int)
    requires
        0 <= x < layout.width,
        0 <= y < layout.height,
    ensures
        ({
            let p = 4 * (y * layout.width + x);
            let picture = layout.picture(nv12, matrix);
            let luma = nv12[y * layout.y_stride + x];
            let chroma = layout.uv_offset + (y / 2) * layout.uv_stride + 2 * (x / 2);
            &&& 0 <= p
            &&& p + 3 < picture.len()
            &&& picture[p] == blue(matrix, luma, nv12[chroma], nv12[chroma + 1])
            &&& picture[p + 1] == green(matrix, luma, nv12[chroma], nv12[chroma + 1])
            &&& picture[p + 2] == red(matrix, luma, nv12[chroma], nv12[chroma + 1])
            &&& picture[p + 3] == 255
        }),
{
    let w = layout.width as int;
    let h = layout.height as int;
    let n = y * w + x;
    assert(0 <= n < w * h) by (nonlinear_arith)
        requires
            n == y * w + x,
            0 <= x < w,
            0 <= y < h,
    ;
    vstd::arithmetic::div_mod::lemma_fundamental_div_mod_converse(n, w, y, x);
    law_picture_holds_its_pixels(layout, nv12, matrix, n);
    let bytes = layout.picture(nv12, matrix).subrange(4 * n, 4 * n + 4);
    assert(x - x % 2 == 2 * (x / 2));
    assert(bytes[0] == layout.picture(nv12, matrix)[4 * n]);
    assert(bytes[1] == layout.picture(nv12, matrix)[4 * n + 1]);
    assert(bytes[2] == layout.picture(nv12, matrix)[4 * n + 2]);
    assert(bytes[3] == layout.picture(nv12, matrix)[4 * n + 3]);
}

/// The first byte of a chroma pair is U and the second V.  Two pictures whose pixel has the
/// same luma: their blue is the same where the first bytes are, and does not fall as it
/// grows; their red is the same where the second bytes are, and does not fall as it grows;
/// their green does not grow with either.
pub proof fn law_first_chroma_byte_is_blue(
    layout: Layout,
    matrix: ColorMatrix,
    one: Seq<u8>,
    other: Seq<u8>,
    x: int,
    y: int,
)
    requires
        0 <= x < layout.width,
        0 <= y < layout.height,
        one[y * layout.y_stride + x] == other[y * layout.y_stride + x],
    ensures
        ({
            let p = 4 * (y * layout.width + x);
            let c = layout.uv_offset + (y / 2) * layout.uv_stride + 2 * (x / 2);
            let a = layout.picture(one, matrix);
            let b = layout.picture(other, matrix);
            &&& one[c] == other[c] ==> a[p] == b[p]
            &&& one[c] <= other[c] ==> a[p] <= b[p]
            &&& one[c + 1] == other[c + 1] ==> a[p + 2] == b[p + 2]
            &&& one[c + 1] <= other[c + 1] ==> a[p + 2] <= b[p + 2]
            &&& one[c] <= other[c] && one[c + 1] <= other[c + 1] ==> a[p + 1] >= b[p + 1]
        }),
{
    lemma_pixel_at(layout, one, matrix, x, y);
    lemma_pixel_at(layout, other, matrix, x, y);
}

/// A pixel does not get darker in any of its colors as its luma grows, and below black the
/// luma makes no difference.
pub proof fn law_more_luma_is_lighter(
    layout: Layout,
    matrix: ColorMatrix,
    one: Seq<u8>,
    other: Seq<u8>,
    x: int,
    y: int,
)
    requires
        0 <= x < layout.width,
        0 <= y < layout.height,
        ({
            let c = layout.uv_offset + (y / 2) * layout.uv_stride + 2 * (x / 2);
            one[c] == other[c] && one[c + 1] == other[c + 1]
        }),
    ensures
        ({
            let p = 4 * (y * layout.width + x);
            let i = y * layout.y_stride + x;
            let a = layout.picture(one, matrix);
            let b = layout.picture(other, matrix);
            &&& one[i] <= other[i] ==> a[p] <= b[p] && a[p + 1] <= b[p + 1] && a[p + 2] <= b[p
                + 2]
            &&& one[i] <= 16 && other[i] <= 16 ==> a[p] == b[p] && a[p + 1] == b[p + 1] && a[p
                + 2] == b[p + 2]
        }),
{
    lemma_pixel_at(layout, one, matrix, x, y);
    lemma_pixel_at(layout, other, matrix, x, y);
}

/// `value` divided by 256 and rounded down is the byte, where it is a byte.
pub open spec fn rounds_to(value: int, byte: u8) -> bool {
    &&& 0 <= value < 65536 ==> 256 * byte <= value < 256 * byte + 256
    &&& value < 0 ==> byte == 0
    &&& value >= 65536 ==> byte == 255
}

/// The colors of a pixel are those of BT.601 or BT.709, in steps of a 256th.
pub proof fn law_colors_follow_the_matrix(layout: Layout, nv12: Seq<u8>, x: int, y: int)
    requires
        0 <= x < layout.width,
        0 <= y < layout.height,
        nv12[y * layout.y_stride + x] >= 16,
    ensures
        ({
            let p = 4 * (y * layout.width + x);
            let c = layout.uv_offset + (y / 2) * layout.uv_stride + 2 * (x / 2);
            let light = 298 * (nv12[y * layout.y_stride + x] - 16) + 128;
            let u = nv12[c] - 128;
            let v = nv12[c + 1] - 128;
            let old = layout.picture(nv12, ColorMatrix::Bt601);
            let new = layout.picture(nv12, ColorMatrix::Bt709);
            &&& rounds_to(light + 516 * u, old[p])
            &&& rounds_to(light - 100 * u - 208 * v, old[p + 1])
            &&& rounds_to(light + 409 * v, old[p + 2])
            &&& old[p + 3] == 255
            &&& rounds_to(light + 541 * u, new[p])
            &&& rounds_to(light - 55 * u - 136 * v, new[p + 1])
            &&& rounds_to(light + 459 * v, new[p + 2])
            &&& new[p + 3] == 255
        }),
{
    lemma_pixel_at(layout, nv12, ColorMatrix::Bt601, x, y);
    lemma_pixel_at(layout, nv12, ColorMatrix::Bt709, x, y);
}

/// Black is black and white is white in either matrix, wherever the pixel stands.
pub proof fn law_black_and_white(
    layout: Layout,
    nv12: Seq<u8>,
    matrix: ColorMatrix,
    x: int,
    y: int,
)
    requires
        0 <= x < layout.width,
        0 <= y < layout.height,
        ({
            let c = layout.uv_offset + (y / 2) * layout.uv_stride + 2 * (x / 2);
            nv12[c] == 128 && nv12[c + 1] == 128
        }),
    ensures
        ({
            let p = 4 * (y * layout.width + x);
            let luma = nv12[y * layout.y_stride + x];
            let picture = layout.picture(nv12, matrix);
            &&& picture[p] == picture[p + 1] && picture[p + 1] == picture[p + 2]
            &&& luma <= 16 ==> picture[p] == 0
            &&& luma >= 235 ==> picture[p] == 255
        }),
{
    lemma_pixel_at(layout, nv12, matrix, x, y);
}

/// A layout is refused exactly where a side is odd or nothing, a row is longer than its
/// stride, the planes overlap, or the buffer ends before the chroma plane.
pub proof fn law_usable_layouts_are_taken(layout: Layout, len: nat)
    requires
        layout.y_stride * layout.height <= usize::MAX,
        layout.uv_offset + layout.uv_stride * (layout.height / 2) <= usize::MAX,
        layout.width * layout.height * 4 <= usize::MAX,
    ensures
        layout.error(len) is None <==> {
            &&& layout.width >= 2 && layout.width % 2 == 0
            &&& layout.height >= 2 && layout.height % 2 == 0
            &&& layout.width <= layout.y_stride && layout.width <= layout.uv_stride
            &&& layout.y_stride * layout.height <= layout.uv_offset
            &&& layout.uv_offset + layout.uv_stride * (layout.height / 2) <= len
        },
{
}

/// A conversion of a usable layout succeeds and leaves the picture, whatever stood in the
/// output; one of another layout fails and leaves the output as it was.
pub proof fn law_conversion_gives_the_picture(
    nv12: Seq<u8>,
    layout: Layout,
    matrix: ColorMatrix,
    before: Seq<u8>,
    after: Seq<u8>,
    r: Result<(), String>,
)
    requires
        layout.uv_offset <= usize::MAX,
        convert_outcome(nv12, layout, matrix, before, after, r),
    ensures
        layout.error(nv12.len()) is None ==> r is Ok && after == layout.picture(nv12, matrix),
        layout.error(nv12.len()) is Some ==> r is Err && after == before,
{
}

/// In a packed picture the chroma plane begins where the luma plane ends.
pub proof fn law_packed_planes_touch(width: u32, height: u32, y_stride: usize, uv_stride: usize)
    ensures
        ({
            let layout = packed(width, height, y_stride, uv_stride);
            &&& layout.width == width
            &&& layout.height == height
            &&& layout.y_stride == y_stride
            &&& layout.uv_stride == uv_stride
            &&& layout.uv_offset == y_stride * height
        }),
{
}

} // verus!
