//! The test-pattern rasterizer: a gradient whose blue channel follows the
//! column and whose green channel follows the line, both shifted by a scroll
//! offset.

use crate::surface::{GameOffScreenBuffer, Pixel, SurfaceView};
use vstd::arithmetic::div_mod::{lemma_fundamental_div_mod, lemma_fundamental_div_mod_converse};
use vstd::prelude::*;

verus! {

/// The channel value at `coordinate` under scroll `offset`: their sum
/// reduced modulo 256.
pub open spec fn gradient_channel(coordinate: int, offset: int) -> u8 {
    ((coordinate + offset) % 256) as u8
}

/// The pattern's pixel at `(x, y)`: blue follows `x`, green follows `y`, the
/// other two bytes are zero.
pub open spec fn gradient_pixel(x: int, y: int, x_offset: int, y_offset: int) -> Pixel {
    Pixel {
        blue: gradient_channel(x, x_offset),
        green: gradient_channel(y, y_offset),
        red: 0,
        padding: 0,
    }
}

/// Byte `i` of the buffer once the pattern is drawn over `v`. A byte that
/// belongs to a pixel takes that pixel's channel; a byte in the unused tail
/// of a stored row keeps what `v` holds there.
pub open spec fn gradient_byte(v: SurfaceView, x_offset: int, y_offset: int, i: int) -> u8 {
    let column = i % v.pitch;
    let line = v.stored_row(i / v.pitch);
    if column < v.width * 4 {
        let pixel = gradient_pixel(column / 4, line, x_offset, y_offset);
        if column % 4 == 0 {
            pixel.blue
        } else if column % 4 == 1 {
            pixel.green
        } else if column % 4 == 2 {
            pixel.red
        } else {
            pixel.padding
        }
    } else {
        v.bytes[i]
    }
}

/// The surface `v` with the pattern drawn over it.
pub open spec fn gradient(v: SurfaceView, x_offset: int, y_offset: int) -> SurfaceView {
    SurfaceView {
        bytes: Seq::new(v.bytes.len(), |i: int| gradient_byte(v, x_offset, y_offset, i)),
        ..v
    }
}

/// Whether byte `i` belongs to a pixel that comes before `(x, y)` when the
/// image is walked line by line.
spec fn painted(v: SurfaceView, x: int, y: int, i: int) -> bool {
    let column = i % v.pitch;
    let line = v.stored_row(i / v.pitch);
    column < v.width * 4 && (line < y || (line == y && column / 4 < x))
}

/// Byte `i` while the walk stands at `(x, y)`.
spec fn partial_byte(v: SurfaceView, x_offset: int, y_offset: int, x: int, y: int, i: int) -> u8 {
    if painted(v, x, y, i) {
        gradient_byte(v, x_offset, y_offset, i)
    } else {
        v.bytes[i]
    }
}

/// Byte `k` of pixel `(x, y)` sits in stored row `stored_row(y)` at column
/// `4 * x + k`.
proof fn lemma_pixel_byte_position(v: SurfaceView, x: int, y: int, k: int)
    requires
        v.wf(),
        v.contains(x, y),
        0 <= k < 4,
    ensures
        (v.pixel_offset(x, y) + k) / v.pitch == v.stored_row(y),
        (v.pixel_offset(x, y) + k) % v.pitch == 4 * x + k,
        v.stored_row(v.stored_row(y)) == y,
{
    lemma_fundamental_div_mod_converse(
        v.pixel_offset(x, y) + k,
        v.pitch,
        v.stored_row(y),
        4 * x + k,
    );
}

/// A byte inside the buffer lies in one of the stored rows, and is found
/// again from its row and column.
proof fn lemma_byte_position(v: SurfaceView, i: int)
    requires
        v.wf(),
        0 <= i < v.bytes.len(),
    ensures
        0 <= i / v.pitch < v.height,
        0 <= i % v.pitch < v.pitch,
        i == (i / v.pitch) * v.pitch + i % v.pitch,
        v.contains(0, v.stored_row(i / v.pitch)),
        v.stored_row(v.stored_row(i / v.pitch)) == i / v.pitch,
{
    let q = i / v.pitch;
    let p = v.pitch;
    let h = v.height;
    lemma_fundamental_div_mod(i, p);
    assert(p * q == q * p) by (nonlinear_arith);
    assert(0 <= q < h) by (nonlinear_arith)
        requires
            0 <= i < p * h,
            p > 0,
            i == q * p + i % p,
            0 <= i % p < p,
    ;
}

/// Storing the pattern's pixel at `(x, y)` moves the walk one pixel on.
proof fn lemma_paint_step(
    v: SurfaceView,
    x_offset: int,
    y_offset: int,
    x: int,
    y: int,
    now: Seq<u8>,
    next: Seq<u8>,
)
    requires
        v.wf(),
        v.contains(x, y),
        now.len() == v.bytes.len(),
        forall|i: int|
            0 <= i < now.len() ==> now[i] == partial_byte(v, x_offset, y_offset, x, y, i),
        next == (SurfaceView { bytes: now, ..v }).with_pixel(
            x,
            y,
            gradient_pixel(x, y, x_offset, y_offset),
        ).bytes,
    ensures
        next.len() == v.bytes.len(),
        forall|i: int|
            0 <= i < next.len() ==> next[i] == partial_byte(v, x_offset, y_offset, x + 1, y, i),
{
    let at = v.pixel_offset(x, y);
    crate::surface::lemma_pixel_in_bounds(v, x, y);
    lemma_pixel_byte_position(v, x, y, 0);
    lemma_pixel_byte_position(v, x, y, 1);
    lemma_pixel_byte_position(v, x, y, 2);
    lemma_pixel_byte_position(v, x, y, 3);
    assert forall|i: int| 0 <= i < next.len() implies next[i] == partial_byte(
        v,
        x_offset,
        y_offset,
        x + 1,
        y,
        i,
    ) by {
        if at <= i < at + 4 {
            assert(painted(v, x + 1, y, i));
        } else {
            assert(next[i] == now[i]);
            lemma_byte_position(v, i);
            let column = i % v.pitch;
            let line = v.stored_row(i / v.pitch);
            if column < v.width * 4 && line == y && column / 4 == x {
                assert(i == at + column % 4);
            }
            assert(painted(v, x + 1, y, i) == painted(v, x, y, i));
        }
    }
}

/// The end of one line is the start of the next.
proof fn lemma_paint_line_end(v: SurfaceView, x_offset: int, y_offset: int, y: int, i: int)
    requires
        v.wf(),
        0 <= i < v.bytes.len(),
    ensures
        partial_byte(v, x_offset, y_offset, v.width, y, i) == partial_byte(
            v,
            x_offset,
            y_offset,
            0,
            y + 1,
            i,
        ),
{
    lemma_byte_position(v, i);
}

/// Once the walk has passed the last line every byte holds the pattern.
proof fn lemma_paint_done(v: SurfaceView, x_offset: int, y_offset: int, i: int)
    requires
        v.wf(),
        0 <= i < v.bytes.len(),
    ensures
        partial_byte(v, x_offset, y_offset, 0, v.height, i) == gradient_byte(
            v,
            x_offset,
            y_offset,
            i,
        ),
{
    lemma_byte_position(v, i);
}

/// The channel value for `coordinate` under `offset`.
fn channel(coordinate: i32, offset: i32) -> (value: u8)
    ensures
        value == gradient_channel(coordinate as int, offset as int),
{
    let shifted: i64 = coordinate as i64 + offset as i64 + 0x1_0000_0000;
    (shifted % 256) as u8
}

/// Draws the pattern over the whole image: pixel `(x, y)` gets blue
/// `(x + x_offset) mod 256`, green `(y + y_offset) mod 256`, and zero in its
/// other two bytes. Bytes that belong to no pixel are left alone, and the
/// layout does not change.
pub fn render_weird_gradient(buffer: &mut GameOffScreenBuffer, x_offset: i32, y_offset: i32)
    ensures
        final(buffer).wf(),
        final(buffer)@ == gradient(old(buffer)@, x_offset as int, y_offset as int),
{
    let ghost before = buffer@;
    let width = buffer.width();
    let height = buffer.height();
    proof {
        assert forall|i: int| 0 <= i < before.bytes.len() implies !painted(before, 0, 0, i) by {
            lemma_byte_position(before, i);
        }
    }
    let mut y: i32 = 0;
    while y < height
        invariant
            before.wf(),
            width == before.width,
            height == before.height,
            0 <= y <= height,
            buffer.wf(),
            buffer@.same_layout(before),
            forall|i: int|
                0 <= i < before.bytes.len() ==> buffer@.bytes[i] == partial_byte(
                    before,
                    x_offset as int,
                    y_offset as int,
                    0,
                    y as int,
                    i,
                ),
        decreases height - y,
    {
        let mut x: i32 = 0;
        while x < width
            invariant
                before.wf(),
                width == before.width,
                height == before.height,
                0 <= y < height,
                0 <= x <= width,
                buffer.wf(),
                buffer@.same_layout(before),
                forall|i: int|
                    0 <= i < before.bytes.len() ==> buffer@.bytes[i] == partial_byte(
                        before,
                        x_offset as int,
                        y_offset as int,
                        x as int,
                        y as int,
                        i,
                    ),
            decreases width - x,
        {
            let ghost now = buffer@;
            let pixel = Pixel {
                blue: channel(x, x_offset),
                green: channel(y, y_offset),
                red: 0,
                padding: 0,
            };
            buffer.set_pixel(x, y, pixel);
            proof {
                assert(now == SurfaceView { bytes: now.bytes, ..before });
                lemma_paint_step(
                    before,
                    x_offset as int,
                    y_offset as int,
                    x as int,
                    y as int,
                    now.bytes,
                    buffer@.bytes,
                );
            }
            x += 1;
        }
        proof {
            assert forall|i: int| 0 <= i < before.bytes.len() implies buffer@.bytes[i]
                == partial_byte(before, x_offset as int, y_offset as int, 0, y + 1, i) by {
                lemma_paint_line_end(before, x_offset as int, y_offset as int, y as int, i);
            }
        }
        y += 1;
    }
    proof {
        assert forall|i: int| 0 <= i < before.bytes.len() implies buffer@.bytes[i]
            == gradient_byte(before, x_offset as int, y_offset as int, i) by {
            lemma_paint_done(before, x_offset as int, y_offset as int, i);
        }
        assert(buffer@.bytes =~= gradient(before, x_offset as int, y_offset as int).bytes);
    }
}

/// After the pattern is drawn, the pixel at `(x, y)` has blue
/// `(x + x_offset) mod 256` and green `(y + y_offset) mod 256`, with zero in
/// its other two bytes, whichever way the rows are stored and whatever the
/// surface held before.
pub proof fn lemma_gradient_pixel(v: SurfaceView, x_offset: int, y_offset: int, x: int, y: int)
    requires
        v.wf(),
        v.contains(x, y),
    ensures
        gradient(v, x_offset, y_offset).wf(),
        gradient(v, x_offset, y_offset).pixel(x, y) == gradient_pixel(x, y, x_offset, y_offset),
        gradient(v, x_offset, y_offset).pixel(x, y).blue == (x + x_offset) % 256,
        gradient(v, x_offset, y_offset).pixel(x, y).green == (y + y_offset) % 256,
        gradient(v, x_offset, y_offset).pixel(x, y).red == 0,
        gradient(v, x_offset, y_offset).pixel(x, y).padding == 0,
{
    crate::surface::lemma_pixel_in_bounds(v, x, y);
    lemma_pixel_byte_position(v, x, y, 0);
    lemma_pixel_byte_position(v, x, y, 1);
    lemma_pixel_byte_position(v, x, y, 2);
    lemma_pixel_byte_position(v, x, y, 3);
}

/// The row order decides where a pixel is stored and nothing else: two
/// surfaces of one size that store their rows in opposite orders show the
/// same pattern, each line in the other's mirrored stored row.
pub proof fn lemma_gradient_ignores_row_order(
    a: SurfaceView,
    b: SurfaceView,
    x_offset: int,
    y_offset: int,
    x: int,
    y: int,
)
    requires
        a.wf(),
        b.wf(),
        a.width == b.width,
        a.height == b.height,
        a.pitch == b.pitch,
        a.row_order != b.row_order,
        a.contains(x, y),
    ensures
        gradient(a, x_offset, y_offset).pixel(x, y) == gradient(b, x_offset, y_offset).pixel(x, y),
        a.pixel_offset(x, y) == b.pixel_offset(x, a.height - 1 - y),
{
    lemma_gradient_pixel(a, x_offset, y_offset, x, y);
    lemma_gradient_pixel(b, x_offset, y_offset, x, y);
}

/// On a surface with packed rows the pattern fixes every byte: what the
/// buffer held before has no part in the result.
pub proof fn lemma_gradient_forgets_contents(
    a: SurfaceView,
    b: SurfaceView,
    x_offset: int,
    y_offset: int,
)
    requires
        a.wf(),
        a.same_layout(b),
        a.pitch == a.width * 4,
    ensures
        gradient(a, x_offset, y_offset) == gradient(b, x_offset, y_offset),
{
    assert forall|i: int| 0 <= i < a.bytes.len() implies gradient_byte(a, x_offset, y_offset, i)
        == gradient_byte(b, x_offset, y_offset, i) by {
        lemma_byte_position(a, i);
    }
    assert(gradient(a, x_offset, y_offset).bytes =~= gradient(b, x_offset, y_offset).bytes);
}

} // verus!
