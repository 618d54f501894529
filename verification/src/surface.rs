//! The off-screen pixel surface: a rectangular raster of four-byte pixels
//! together with the layout that says where each pixel is stored.

use vstd::prelude::*;

verus! {

/// Bytes that one pixel occupies: blue, green, red and one unused byte, in
/// that order.
pub const BYTES_PER_PIXEL: usize = 4;

/// Which stored row holds the top line of the image.
#[derive(Clone, Copy, Debug, PartialEq, Eq, Structural)]
pub enum RowOrder {
    /// Stored row 0 is the top line.
    TopDown,
    /// Stored row 0 is the bottom line.
    BottomUp,
}

/// The channels of one pixel, in storage order.
#[derive(Clone, Copy, Debug, PartialEq, Eq, Structural)]
pub struct Pixel {
    pub blue: u8,
    pub green: u8,
    pub red: u8,
    pub padding: u8,
}

/// Whether a surface of `width` by `height` pixels with `pitch` bytes per
/// stored row can exist: both extents are positive, a row holds all its
/// pixels, rows start on a pixel boundary, the number of pixels a stored row
/// spans fits the host's signed 32-bit width field, and the buffer fits in
/// memory.
pub open spec fn valid_dimensions(width: int, height: int, pitch: int) -> bool {
    &&& width > 0
    &&& height > 0
    &&& pitch >= width * 4
    &&& pitch % 4 == 0
    &&& pitch / 4 <= i32::MAX
    &&& pitch * height <= isize::MAX
}

/// Mathematical model of a surface: its layout and the bytes it holds.
pub struct SurfaceView {
    pub width: int,
    pub height: int,
    pub pitch: int,
    pub row_order: RowOrder,
    pub bytes: Seq<u8>,
}

impl SurfaceView {
    /// The layout is valid and the buffer is exactly `pitch * height` bytes.
    pub open spec fn wf(self) -> bool {
        &&& valid_dimensions(self.width, self.height, self.pitch)
        &&& self.bytes.len() == self.pitch * self.height
    }

    /// Whether `(x, y)` names a pixel of the image.
    pub open spec fn contains(self, x: int, y: int) -> bool {
        0 <= x < self.width && 0 <= y < self.height
    }

    /// The stored row that holds image line `y`.
    pub open spec fn stored_row(self, y: int) -> int {
        match self.row_order {
            RowOrder::TopDown => y,
            RowOrder::BottomUp => self.height - 1 - y,
        }
    }

    /// Index of the first byte of pixel `(x, y)`.
    pub open spec fn pixel_offset(self, x: int, y: int) -> int {
        self.stored_row(y) * self.pitch + x * 4
    }

    /// The pixel stored at `(x, y)`.
    pub open spec fn pixel(self, x: int, y: int) -> Pixel {
        let at = self.pixel_offset(x, y);
        Pixel {
            blue: self.bytes[at],
            green: self.bytes[at + 1],
            red: self.bytes[at + 2],
            padding: self.bytes[at + 3],
        }
    }

    /// This surface with pixel `(x, y)` replaced by `pixel`.
    pub open spec fn with_pixel(self, x: int, y: int, pixel: Pixel) -> SurfaceView {
        let at = self.pixel_offset(x, y);
        SurfaceView {
            bytes: self.bytes.update(at, pixel.blue).update(at + 1, pixel.green).update(
                at + 2,
                pixel.red,
            ).update(at + 3, pixel.padding),
            ..self
        }
    }

    /// Same layout, whatever the bytes.
    pub open spec fn same_layout(self, other: SurfaceView) -> bool {
        &&& self.width == other.width
        &&& self.height == other.height
        &&& self.pitch == other.pitch
        &&& self.row_order == other.row_order
        &&& self.bytes.len() == other.bytes.len()
    }

    /// The all-zero surface of the given layout.
    pub open spec fn blank(width: int, height: int, pitch: int, row_order: RowOrder) -> SurfaceView {
        SurfaceView {
            width,
            height,
            pitch,
            row_order,
            bytes: Seq::new((pitch * height) as nat, |i: int| 0u8),
        }
    }
}

/// Every pixel of a well-formed surface lies wholly inside the buffer.
pub proof fn lemma_pixel_in_bounds(v: SurfaceView, x: int, y: int)
    requires
        v.wf(),
        v.contains(x, y),
    ensures
        0 <= v.stored_row(y) < v.height,
        0 <= v.pixel_offset(x, y),
        v.pixel_offset(x, y) + 4 <= v.bytes.len(),
{
    let row = v.stored_row(y);
    assert(0 <= row < v.height);
    assert(0 <= row * v.pitch && (row + 1) * v.pitch <= v.height * v.pitch) by (nonlinear_arith)
        requires
            0 <= row < v.height,
            v.pitch >= 0,
    ;
    assert((row + 1) * v.pitch == row * v.pitch + v.pitch) by (nonlinear_arith);
    assert(v.height * v.pitch == v.pitch * v.height) by (nonlinear_arith);
}

/// A CPU-side raster image. The buffer is owned exclusively, always holds
/// exactly `pitch * height` bytes, and is replaced as a whole when the
/// surface is resized.
pub struct GameOffScreenBuffer {
    memory: Vec<u8>,
    width: i32,
    height: i32,
    pitch: usize,
    row_order: RowOrder,
}

impl View for GameOffScreenBuffer {
    type V = SurfaceView;

    closed spec fn view(&self) -> SurfaceView {
        SurfaceView {
            width: self.width as int,
            height: self.height as int,
            pitch: self.pitch as int,
            row_order: self.row_order,
            bytes: self.memory@,
        }
    }
}

impl GameOffScreenBuffer {
    /// The surface's invariant, stated over its model. It holds of every
    /// surface that exists while the program runs.
    #[verifier::type_invariant]
    pub open spec fn wf(&self) -> bool {
        self@.wf()
    }

    /// A zeroed surface of `width` by `height` pixels whose rows are packed
    /// (`pitch` is four times `width`), or `None` when such a surface cannot
    /// exist.
    pub fn new(width: i32, height: i32, row_order: RowOrder) -> (made: Option<Self>)
        ensures
            made is Some <==> valid_dimensions(width as int, height as int, width * 4),
            made matches Some(s) ==> s.wf() && s@ == SurfaceView::blank(
                width as int,
                height as int,
                width * 4,
                row_order,
            ),
    {
        if width <= 0 {
            return None;
        }
        let packed: u64 = 4 * (width as u64);
        if packed > usize::MAX as u64 {
            assert(!valid_dimensions(width as int, height as int, width * 4)) by (nonlinear_arith)
                requires
                    width * 4 > isize::MAX,
            ;
            return None;
        }
        Self::with_pitch(width, height, packed as usize, row_order)
    }

    /// A zeroed surface whose stored rows are `pitch` bytes apart, or `None`
    /// when `valid_dimensions` rejects the layout.
    pub fn with_pitch(width: i32, height: i32, pitch: usize, row_order: RowOrder) -> (made: Option<
        Self,
    >)
        ensures
            made is Some <==> valid_dimensions(width as int, height as int, pitch as int),
            made matches Some(s) ==> s.wf() && s@ == SurfaceView::blank(
                width as int,
                height as int,
                pitch as int,
                row_order,
            ),
    {
        if width <= 0 || height <= 0 {
            return None;
        }
        if pitch % 4 != 0 || (pitch as u128) < 4 * (width as u128) || pitch / 4 > i32::MAX as usize {
            return None;
        }
        assert(pitch * height <= 0xffff_ffff_ffff_ffff * 0x7fff_ffff) by (nonlinear_arith)
            requires
                0 <= pitch <= 0xffff_ffff_ffff_ffff,
                0 <= height <= 0x7fff_ffff,
        ;
        let total: u128 = (pitch as u128) * (height as u128);
        if total > isize::MAX as u128 {
            return None;
        }
        let memory: Vec<u8> = vec![0u8; total as usize];
        let made = GameOffScreenBuffer { memory, width, height, pitch, row_order };
        assert(made@.bytes =~= SurfaceView::blank(
            width as int,
            height as int,
            pitch as int,
            row_order,
        ).bytes);
        Some(made)
    }

    /// Replaces the surface by a zeroed one of the new size with packed rows.
    /// Nothing of the old contents is kept. Where the new size is not valid
    /// the surface stays as it was and `false` is returned.
    pub fn resize(&mut self, width: i32, height: i32) -> (resized: bool)
        ensures
            resized <==> valid_dimensions(width as int, height as int, width * 4),
            resized ==> final(self)@ == SurfaceView::blank(
                width as int,
                height as int,
                width * 4,
                old(self)@.row_order,
            ),
            !resized ==> *final(self) == *old(self),
            final(self).wf(),
    {
        proof {
            use_type_invariant(&*self);
        }
        match Self::new(width, height, self.row_order) {
            Some(fresh) => {
                *self = fresh;
                true
            },
            None => false,
        }
    }

    /// Width in pixels.
    pub fn width(&self) -> (w: i32)
        ensures
            w == self@.width,
            self.wf(),
    {
        proof {
            use_type_invariant(self);
        }
        self.width
    }

    /// Height in pixels.
    pub fn height(&self) -> (h: i32)
        ensures
            h == self@.height,
            self.wf(),
    {
        proof {
            use_type_invariant(self);
        }
        self.height
    }

    /// Bytes from the start of one stored row to the start of the next.
    pub fn pitch(&self) -> (p: usize)
        ensures
            p == self@.pitch,
            self.wf(),
    {
        proof {
            use_type_invariant(self);
        }
        self.pitch
    }

    /// Which stored row holds the top line.
    pub fn row_order(&self) -> (order: RowOrder)
        ensures
            order == self@.row_order,
            self.wf(),
    {
        proof {
            use_type_invariant(self);
        }
        self.row_order
    }

    /// The whole buffer, stored row after stored row.
    pub fn memory(&self) -> (bytes: &[u8])
        ensures
            bytes@ == self@.bytes,
            self.wf(),
    {
        proof {
            use_type_invariant(self);
        }
        self.memory.as_slice()
    }

    /// Index of the first byte of pixel `(x, y)`.
    fn offset_of(&self, x: i32, y: i32) -> (at: usize)
        requires
            self@.contains(x as int, y as int),
        ensures
            at == self@.pixel_offset(x as int, y as int),
            at + 4 <= self@.bytes.len(),
            self.wf(),
    {
        proof {
            use_type_invariant(self);
        }
        let row: usize = match self.row_order {
            RowOrder::TopDown => y as usize,
            RowOrder::BottomUp => (self.height - 1 - y) as usize,
        };
        proof {
            lemma_pixel_in_bounds(self@, x as int, y as int);
        }
        row * self.pitch + (x as usize) * BYTES_PER_PIXEL
    }

    /// The pixel at `(x, y)`, or `None` when the point is outside the image.
    pub fn pixel_at(&self, x: i32, y: i32) -> (found: Option<Pixel>)
        ensures
            found == if self@.contains(x as int, y as int) {
                Some(self@.pixel(x as int, y as int))
            } else {
                None
            },
    {
        if x < 0 || x >= self.width || y < 0 || y >= self.height {
            return None;
        }
        let at = self.offset_of(x, y);
        Some(
            Pixel {
                blue: self.memory[at],
                green: self.memory[at + 1],
                red: self.memory[at + 2],
                padding: self.memory[at + 3],
            },
        )
    }

    /// Stores `pixel` at `(x, y)`. A point outside the image is refused:
    /// nothing is written and `false` is returned.
    pub fn set_pixel(&mut self, x: i32, y: i32, pixel: Pixel) -> (written: bool)
        ensures
            written <==> old(self)@.contains(x as int, y as int),
            written ==> final(self)@ == old(self)@.with_pixel(x as int, y as int, pixel),
            !written ==> final(self)@ == old(self)@,
            final(self).wf(),
    {
        proof {
            use_type_invariant(&*self);
        }
        if x < 0 || x >= self.width || y < 0 || y >= self.height {
            return false;
        }
        let at = self.offset_of(x, y);
        self.memory[at] = pixel.blue;
        self.memory[at + 1] = pixel.green;
        self.memory[at + 2] = pixel.red;
        self.memory[at + 3] = pixel.padding;
        true
    }
}

/// The buffer of a well-formed surface is exactly `pitch * height` bytes
/// long, and a stored row has room for every pixel of a line.
pub proof fn lemma_buffer_matches_layout(surface: GameOffScreenBuffer)
    requires
        surface.wf(),
    ensures
        surface@.width > 0,
        surface@.height > 0,
        surface@.bytes.len() == surface@.pitch * surface@.height,
        surface@.pitch >= surface@.width * 4,
{
}

} // verus!
