//! Moving test pictures in NV12.

use vstd::prelude::*;

use crate::text;
use crate::text::push_decimal;

verus! {

/// The bytes of a picture.
pub open spec fn picture_bytes(width: int, height: int) -> int {
    width * height + width * height / 2
}

/// The size of a picture, or the first rule that its dimensions break.
pub open spec fn size_of_picture(width: u32, height: u32) -> Result<usize, Seq<char>> {
    if width == 0 || height == 0 || width % 2 != 0 || height % 2 != 0 {
        Err("NV12 width and height must be non-zero even values"@)
    } else if width * height > usize::MAX {
        Err("NV12 dimensions overflow"@)
    } else if picture_bytes(width as int, height as int) > usize::MAX {
        Err("NV12 buffer size overflow"@)
    } else {
        Ok(picture_bytes(width as int, height as int) as usize)
    }
}

/// The size of a picture.
pub fn buffer_size(width: u32, height: u32) -> (r: Result<usize, String>)
    ensures
        text::agrees(r, size_of_picture(width, height)),
{
    if width == 0 || height == 0 || width % 2 != 0 || height % 2 != 0 {
        return Err("NV12 width and height must be non-zero even values".to_string());
    }
    let pixels: usize = match (width as usize).checked_mul(height as usize) {
        Some(pixels) => pixels,
        None => {
            return Err("NV12 dimensions overflow".to_string());
        },
    };
    match pixels.checked_add(pixels / 2) {
        Some(size) => Ok(size),
        None => Err("NV12 buffer size overflow".to_string()),
    }
}

/// How far the background has moved.
pub open spec fn motion(frame_index: u64) -> int {
    5 * frame_index
}

/// The background: a gradient along the row with a checker pattern, in rows that
/// are light or dark.
pub open spec fn background(frame_index: u64, row: int, column: int) -> int {
    let moved = motion(frame_index);
    let base: int = if ((row + moved) / 64 + frame_index / 4) % 2 == 0 {
        56
    } else {
        32
    };
    let gradient = (column + moved) % 256 / 2;
    let checker: int = if (column + moved) / 64 % 2 == 0 {
        24
    } else {
        0
    };
    base + gradient + checker
}

/// The extent of the textured block along a side of `extent` pixels.
pub open spec fn block_extent(extent: int) -> int {
    if extent / 4 > 2 {
        extent / 4
    } else {
        2
    }
}

/// Where the textured block begins along that side, when it moves `step` pixels
/// with each frame.
pub open spec fn block_start(frame_index: u64, step: int, extent: int) -> int {
    (frame_index * step) % (extent - block_extent(extent) + 1)
}

/// `value`, turned left by `count` bits.
pub open spec fn rotated(value: u32, count: u32) -> u32 {
    if count == 0 {
        value
    } else {
        (value << count) | (value >> ((32 - count) as u32))
    }
}

/// The texture at a place within the block.
pub open spec fn texture(frame_index: u64, row: int, column: int) -> u8 {
    let frame_seed = ((frame_index % 0x1_0000_0000) as u32).wrapping_mul(0x045d_9f3b);
    let row_seed = (row as u32).wrapping_mul(0x9e37_79b9) ^ frame_seed;
    let value = (column as u32).wrapping_mul(73).wrapping_add(row_seed);
    (rotated(value, ((row + column) % 8) as u32) % 256) as u8
}

/// The luma in the given row and column.
pub open spec fn luma(width: int, height: int, frame_index: u64, row: int, column: int) -> u8 {
    let block_row = row - block_start(frame_index, 7, height);
    let block_column = column - block_start(frame_index, 13, width);
    if 0 <= block_row < block_extent(height) && 0 <= block_column < block_extent(width) {
        texture(frame_index, block_row, block_column)
    } else {
        background(frame_index, row, column) as u8
    }
}

/// Half of the chroma's distance from its middle, rounded towards it.
pub open spec fn chroma_swing(frame_index: u64) -> int {
    let phase = frame_index % 48;
    if phase >= 24 {
        (phase - 24) / 2
    } else {
        -((24 - phase) / 2)
    }
}

/// Byte `i` of a picture: luma row by row, then pairs of chroma.
pub open spec fn picture_byte(width: int, height: int, frame_index: u64, i: int) -> u8 {
    if i < width * height {
        luma(width, height, frame_index, i / width, i % width)
    } else if (i - width * height) % 2 == 0 {
        (112 + chroma_swing(frame_index)) as u8
    } else {
        (144 - chroma_swing(frame_index)) as u8
    }
}

/// Picture number `frame_index`.
pub open spec fn picture(width: u32, height: u32, frame_index: u64) -> Seq<u8> {
    Seq::new(
        picture_bytes(width as int, height as int) as nat,
        |i: int| picture_byte(width as int, height as int, frame_index, i),
    )
}

/// The steps of a moving picture can be counted in a machine word.
pub open spec fn countable(width: u32, height: u32, frame_index: u64) -> bool {
    &&& frame_index * 13 <= usize::MAX
    &&& motion(frame_index) + width - 1 <= usize::MAX
    &&& motion(frame_index) + height - 1 <= usize::MAX
}

fn rotate(value: u32, count: u32) -> (r: u32)
    requires
        count < 32,
    ensures
        r == rotated(value, count),
{
    if count == 0 {
        value
    } else {
        (value << count) | (value >> (32 - count))
    }
}

fn texture_value(frame_index: u64, row: u32, column: u32) -> (r: u8)
    ensures
        r == texture(frame_index, row as int, column as int),
{
    let frame_seed: u32 = ((frame_index % 0x1_0000_0000) as u32).wrapping_mul(0x045d_9f3b);
    let row_seed: u32 = row.wrapping_mul(0x9e37_79b9) ^ frame_seed;
    let value: u32 = column.wrapping_mul(73).wrapping_add(row_seed);
    let count: u32 = ((row as u64 + column as u64) % 8) as u32;
    (rotate(value, count) % 256) as u8
}

fn background_value(frame_index: u64, row: usize, column: usize) -> (r: u8)
    requires
        motion(frame_index) + row <= usize::MAX,
        motion(frame_index) + column <= usize::MAX,
    ensures
        r == background(frame_index, row as int, column as int),
{
    let moved: u64 = frame_index * 5;
    let base: u8 = if ((row as u64 + moved) / 64 + frame_index / 4) % 2 == 0 {
        56
    } else {
        32
    };
    let gradient: u8 = ((column as u64 + moved) % 256 / 2) as u8;
    let checker: u8 = if (column as u64 + moved) / 64 % 2 == 0 {
        24
    } else {
        0
    };
    base + gradient + checker
}

/// Draws picture number `frame_index`.
pub fn fill_frame(buffer: &mut [u8], width: u32, height: u32, frame_index: u64) -> (r: Result<
    (),
    String,
>)
    requires
        size_of_picture(width, height) == Ok::<usize, Seq<char>>(old(buffer).len()) ==> countable(
            width,
            height,
            frame_index,
        ),
    ensures
        match size_of_picture(width, height) {
            Err(error) => r is Err && r->Err_0@ == error && final(buffer)@ == old(buffer)@,
            Ok(expected) => if old(buffer)@.len() != expected {
                r is Err && final(buffer)@ == old(buffer)@ && r->Err_0@
                    == "NV12 buffer length mismatch: expected "@ + text::decimal(expected as nat)
                    + ", got "@ + text::decimal(old(buffer)@.len())
            } else {
                r is Ok && final(buffer)@ == picture(width, height, frame_index)
            },
        },
{
    let expected: usize = buffer_size(width, height)?;
    if buffer.len() != expected {
        let mut error: String = "NV12 buffer length mismatch: expected ".to_string();
        push_decimal(&mut error, expected as u64);
        error.append(", got ");
        push_decimal(&mut error, buffer.len() as u64);
        return Err(error);
    }
    let length: usize = buffer.len();
    let width: usize = width as usize;
    let height: usize = height as usize;
    let pixels: usize = width * height;
    let block_width: usize = (width / 4).max(2);
    let block_height: usize = (height / 4).max(2);
    let block_x: usize = (frame_index * 13) as usize % (width - block_width + 1);
    let block_y: usize = (frame_index * 7) as usize % (height - block_height + 1);
    let mut row: usize = 0;
    let mut column: usize = 0;
    let mut i: usize = 0;
    while i < pixels
        invariant
            length == buffer@.len(),
            pixels == width * height,
            pixels <= length,
            0 < width <= u32::MAX,
            0 < height <= u32::MAX,
            motion(frame_index) + width - 1 <= usize::MAX,
            motion(frame_index) + height - 1 <= usize::MAX,
            block_width == block_extent(width as int),
            block_height == block_extent(height as int),
            block_x == block_start(frame_index, 13, width as int),
            block_y == block_start(frame_index, 7, height as int),
            block_x + block_width <= width,
            block_y + block_height <= height,
            i <= pixels,
            column < width,
            i == row * width + column,
            forall|j: int|
                0 <= j < i ==> #[trigger] buffer@[j] == picture_byte(
                    width as int,
                    height as int,
                    frame_index,
                    j,
                ),
        decreases pixels - i,
    {
        proof {
            assert(row < height) by (nonlinear_arith)
                requires
                    i == row * width + column,
                    i < width * height,
                    0 < width,
            ;
            vstd::arithmetic::div_mod::lemma_fundamental_div_mod_converse(
                i as int,
                width as int,
                row as int,
                column as int,
            );
        }
        let in_block: bool = block_y <= row && row < block_y + block_height && block_x <= column
            && column < block_x + block_width;
        buffer[i] = if in_block {
            texture_value(frame_index, (row - block_y) as u32, (column - block_x) as u32)
        } else {
            background_value(frame_index, row, column)
        };
        i = i + 1;
        if column + 1 < width {
            column = column + 1;
        } else {
            assert((row + 1) * width == row * width + width) by (nonlinear_arith);
            column = 0;
            row = row + 1;
        }
    }
    let phase: u8 = (frame_index % 48) as u8;
    let (u, v): (u8, u8) = if phase >= 24 {
        (112 + (phase - 24) / 2, 144 - (phase - 24) / 2)
    } else {
        (112 - (24 - phase) / 2, 144 + (24 - phase) / 2)
    };
    while i < length
        invariant
            length == buffer@.len(),
            pixels == width * height,
            pixels <= i <= length,
            u == 112 + chroma_swing(frame_index),
            v == 144 - chroma_swing(frame_index),
            forall|j: int|
                0 <= j < i ==> #[trigger] buffer@[j] == picture_byte(
                    width as int,
                    height as int,
                    frame_index,
                    j,
                ),
        decreases length - i,
    {
        buffer[i] = if (i - pixels) % 2 == 0 {
            u
        } else {
            v
        };
        i = i + 1;
    }
    assert(buffer@ =~= picture(width as u32, height as u32, frame_index));
    Ok(())
}

/// The picture moves: the first two differ at every size.
pub proof fn law_first_pictures_differ(width: u32, height: u32)
    requires
        size_of_picture(width, height) is Ok,
    ensures
        picture(width, height, 0) != picture(width, height, 1),
{
    let i = width * height;
    assert(2 * 2 <= i) by (nonlinear_arith)
        requires
            i == width * height,
            width >= 2,
            height >= 2,
    ;
    assert(picture(width, height, 0)[i] == 100);
    assert(picture(width, height, 1)[i] == 101);
}

/// A picture has one byte and a half for each pixel, and its sides are even.
pub proof fn law_pictures_have_even_sides(width: u32, height: u32)
    ensures
        size_of_picture(width, height) matches Ok(size) ==> width > 0 && height > 0 && width % 2
            == 0 && height % 2 == 0 && 2 * size == 3 * (width * height),
        width > 0 && height > 0 && width % 2 == 0 && height % 2 == 0 && 3 * (width * height) <= 2
            * usize::MAX ==> size_of_picture(width, height) is Ok,
        width == 0 || height == 0 || width % 2 != 0 || height % 2 != 0 ==> size_of_picture(
            width,
            height,
        ) == Err::<usize, Seq<char>>("NV12 width and height must be non-zero even values"@),
{
    if width % 2 == 0 && height % 2 == 0 {
        lemma_even_sides(width as int, height as int);
    }
}

proof fn lemma_even_sides(width: int, height: int)
    requires
        0 <= width,
        0 <= height,
        width % 2 == 0,
        height % 2 == 0,
    ensures
        width * height >= 0,
        2 * picture_bytes(width, height) == 3 * (width * height),
{
    let w = width / 2;
    let h = height / 2;
    let quarter = w * h;
    let pixels = width * height;
    assert(pixels == 4 * quarter && quarter >= 0) by (nonlinear_arith)
        requires
            pixels == width * height,
            quarter == w * h,
            width == 2 * w,
            height == 2 * h,
            w >= 0,
            h >= 0,
    ;
    assert(pixels / 2 == 2 * quarter);
}

/// With each frame the background moves by five pixels up and to the left; every fourth
/// time its light and dark rows change places, as if it moved by a whole row of them.
pub proof fn law_background_moves(frame_index: u64, row: int, column: int)
    requires
        frame_index < u64::MAX,
        row >= 0,
        column >= 0,
    ensures
        frame_index % 4 != 3 ==> background((frame_index + 1) as u64, row, column) == background(
            frame_index,
            row + 5,
            column + 5,
        ),
        frame_index % 4 == 3 ==> background((frame_index + 1) as u64, row, column) == background(
            frame_index,
            row + 5 + 64,
            column + 5,
        ),
        background(0, row, column) == (if row / 64 % 2 == 0 {
            56int
        } else {
            32
        }) + column % 256 / 2 + (if column / 64 % 2 == 0 {
            24int
        } else {
            0
        }),
        32 <= background(frame_index, row, column) <= 207,
{
    let next = (frame_index + 1) as u64;
    assert(motion(next) == motion(frame_index) + 5);
    if frame_index % 4 != 3 {
        assert(next / 4 == frame_index / 4);
    } else {
        assert(next / 4 == frame_index / 4 + 1);
        assert((row + 5 + 64 + motion(frame_index)) / 64 == (row + motion(next)) / 64 + 1);
    }
}

/// The two chroma bytes of a picture add up to a constant; the first grows by at most one
/// with each frame, from the same place every 48 frames.
pub proof fn law_chroma_swings(width: u32, height: u32, frame_index: u64, i: int)
    requires
        size_of_picture(width, height) is Ok,
        0 <= i,
        width * height + 2 * i + 1 < picture_bytes(width as int, height as int),
        frame_index <= u64::MAX - 48,
    ensures
        ({
            let at = width * height + 2 * i;
            let u = picture(width, height, frame_index)[at];
            let next = picture(width, height, (frame_index + 1) as u64)[at];
            &&& u + picture(width, height, frame_index)[at + 1] == 256
            &&& 100 <= u <= 123
            &&& picture(width, height, (frame_index + 48) as u64)[at] == u
            &&& frame_index % 48 == 0 ==> u == 100
            &&& frame_index % 48 == 24 ==> u == 112
            &&& frame_index % 48 == 47 ==> u == 123
            &&& frame_index % 48 != 47 ==> u <= next <= u + 1
            &&& frame_index % 48 < 23 ==> (next == u + 1 <==> frame_index % 2 == 0)
            &&& 24 <= frame_index % 48 < 47 ==> (next == u + 1 <==> frame_index % 2 == 1)
        }),
{
    assert(0 <= width * height) by (nonlinear_arith)
        requires
            width >= 0,
            height >= 0,
    ;
    let at = width * height + 2 * i;
    let phase = frame_index % 48;
    let next = (frame_index + 1) as u64;
    let later = (frame_index + 48) as u64;
    assert(later % 48 == phase);
    assert(phase < 47 ==> next % 48 == phase + 1);
    assert(frame_index % 2 == phase % 2);
    assert((at - width * height) % 2 == 0 && (at + 1 - width * height) % 2 == 1);
}

/// A picture is its luma row by row, and within the moving block the luma is the texture of
/// the block at that place, elsewhere the background.
pub proof fn law_block_moves_over_the_background(
    width: u32,
    height: u32,
    frame_index: u64,
    row: int,
    column: int,
)
    requires
        size_of_picture(width, height) is Ok,
        0 <= row < height,
        0 <= column < width,
    ensures
        ({
            let byte = picture(width, height, frame_index)[row * width + column];
            let top = (7 * frame_index) % (height - block_extent(height as int) + 1);
            let left = (13 * frame_index) % (width - block_extent(width as int) + 1);
            let inside = top <= row < top + block_extent(height as int) && left <= column < left
                + block_extent(width as int);
            &&& inside ==> byte == texture(frame_index, row - top, column - left)
            &&& !inside ==> byte == background(frame_index, row, column) as u8
            &&& width >= 8 ==> block_extent(width as int) == width as int / 4
            &&& width < 12 ==> block_extent(width as int) == 2
            &&& top + block_extent(height as int) <= height
            &&& left + block_extent(width as int) <= width
        }),
{
    let i = row * width + column;
    assert(0 <= i < width * height) by (nonlinear_arith)
        requires
            i == row * width + column,
            0 <= row < height,
            0 <= column < width,
    ;
    vstd::arithmetic::div_mod::lemma_fundamental_div_mod_converse(
        i,
        width as int,
        row,
        column,
    );
    assert(frame_index * 7 == 7 * frame_index && frame_index * 13 == 13 * frame_index);
    assert(block_extent(width as int) <= width && block_extent(height as int) <= height);
}

} // verus!
