//! The presentation bridge: what has to be handed to the host so that it
//! copies a surface into a window's drawing surface, stretched over the whole
//! client area.

use crate::geometry::Rect;
use crate::surface::{GameOffScreenBuffer, RowOrder, SurfaceView};
use vstd::prelude::*;

verus! {

/// Size in bytes of the host's bitmap header.
pub const BITMAP_HEADER_SIZE: u32 = 40;

/// Colour planes of a device-independent bitmap: always one.
pub const BITMAP_PLANES: u16 = 1;

/// Bits in one pixel.
pub const BITS_PER_PIXEL: u16 = 32;

/// The host's code for uncompressed red-green-blue data.
pub const COMPRESSION_RGB: u32 = 0;

/// The host's description of how a pixel buffer is laid out.
#[derive(Clone, Copy, Debug, PartialEq, Eq, Structural)]
pub struct BitmapInfo {
    /// Size of the header itself, in bytes.
    pub size: u32,
    /// Pixels that one stored row spans.
    pub width: i32,
    /// Lines of the image; negative when the top line is stored first.
    pub height: i32,
    pub planes: u16,
    pub bit_count: u16,
    pub compression: u32,
}

/// One stretch-copy for the host to carry out: the part of the buffer to
/// read, the part of the drawing surface to cover, and the buffer's layout.
#[derive(Clone, Copy, Debug, PartialEq, Eq, Structural)]
pub struct BlitRequest {
    pub source: Rect,
    pub destination: Rect,
    pub bitmap_info: BitmapInfo,
}

/// The header that describes a surface to the host.
pub open spec fn bitmap_info_of(v: SurfaceView) -> BitmapInfo {
    BitmapInfo {
        size: BITMAP_HEADER_SIZE,
        width: (v.pitch / 4) as i32,
        height: match v.row_order {
            RowOrder::TopDown => (-v.height) as i32,
            RowOrder::BottomUp => v.height as i32,
        },
        planes: BITMAP_PLANES,
        bit_count: BITS_PER_PIXEL,
        compression: COMPRESSION_RGB,
    }
}

/// The copy that shows the whole image of `v` on a client area of
/// `target_width` by `target_height`, or `None` when the area has no pixels:
/// then nothing is drawn.
pub open spec fn blit_plan(v: SurfaceView, target_width: int, target_height: int) -> Option<
    BlitRequest,
> {
    if target_width > 0 && target_height > 0 {
        Some(
            BlitRequest {
                source: Rect { x: 0, y: 0, width: v.width as i32, height: v.height as i32 },
                destination: Rect {
                    x: 0,
                    y: 0,
                    width: target_width as i32,
                    height: target_height as i32,
                },
                bitmap_info: bitmap_info_of(v),
            },
        )
    } else {
        None
    }
}

impl GameOffScreenBuffer {
    /// The header that describes this surface to the host.
    pub fn bitmap_info(&self) -> (info: BitmapInfo)
        ensures
            info == bitmap_info_of(self@),
    {
        let lines = self.height();
        BitmapInfo {
            size: BITMAP_HEADER_SIZE,
            width: (self.pitch() / 4) as i32,
            height: match self.row_order() {
                RowOrder::TopDown => -lines,
                RowOrder::BottomUp => lines,
            },
            planes: BITMAP_PLANES,
            bit_count: BITS_PER_PIXEL,
            compression: COMPRESSION_RGB,
        }
    }
}

/// Plans the copy of `buffer` onto a client area of `window_width` by
/// `window_height`: the whole image, stretched to cover the whole area. A
/// client area without pixels, as a minimised window has, gets no copy.
pub fn blit_buffer_to_window(buffer: &GameOffScreenBuffer, window_width: i32, window_height: i32) -> (request: Option<BlitRequest>)
    ensures
        request == blit_plan(buffer@, window_width as int, window_height as int),
{
    if window_width <= 0 || window_height <= 0 {
        return None;
    }
    Some(
        BlitRequest {
            source: Rect { x: 0, y: 0, width: buffer.width(), height: buffer.height() },
            destination: Rect { x: 0, y: 0, width: window_width, height: window_height },
            bitmap_info: buffer.bitmap_info(),
        },
    )
}

/// A client area with no width or no height is never drawn to.
pub proof fn lemma_empty_target_gets_no_copy(v: SurfaceView, target_width: int, target_height: int)
    requires
        target_width == 0 || target_height == 0,
    ensures
        blit_plan(v, target_width, target_height) is None,
{
}

/// A copy always reads the whole image and covers the whole client area.
pub proof fn lemma_copy_covers_everything(v: SurfaceView, target_width: int, target_height: int)
    requires
        v.wf(),
        v.width <= i32::MAX,
        v.height <= i32::MAX,
        0 < target_width <= i32::MAX,
        0 < target_height <= i32::MAX,
    ensures
        blit_plan(v, target_width, target_height) is Some,
        blit_plan(v, target_width, target_height)->0.source.x == 0,
        blit_plan(v, target_width, target_height)->0.source.y == 0,
        blit_plan(v, target_width, target_height)->0.source.width == v.width,
        blit_plan(v, target_width, target_height)->0.source.height == v.height,
        blit_plan(v, target_width, target_height)->0.destination.x == 0,
        blit_plan(v, target_width, target_height)->0.destination.y == 0,
        blit_plan(v, target_width, target_height)->0.destination.width == target_width,
        blit_plan(v, target_width, target_height)->0.destination.height == target_height,
        blit_plan(v, target_width, target_height)->0.bitmap_info.width * 4 == v.pitch,
        v.row_order == RowOrder::TopDown ==> blit_plan(
            v,
            target_width,
            target_height,
        )->0.bitmap_info.height == -v.height,
        v.row_order == RowOrder::BottomUp ==> blit_plan(
            v,
            target_width,
            target_height,
        )->0.bitmap_info.height == v.height,
{
}

} // verus!
