//! A framebuffer for drawing a single widget off-screen: a slice of pixels covering a rectangle
//! of the display, row by row.

use crate::geometry::{Point, Rectangle, Size};
use vstd::prelude::*;

verus! {

/// A framebuffer over a caller-provided slice of pixels, for the rectangle of `size` at
/// `position`. The pixel at `(x, y)` of the display is stored at index
/// `(y - position.y) * size.width + (x - position.x)`.
pub struct WidgetFramebuf<'a, C> {
    pub buf: &'a mut [C],
    pub size: Size,
    pub position: Point,
    pub len: usize,
}

/// The index of the display point `pt` in a framebuffer at `position` of width `width`.
pub open spec fn pixel_index(pt: Point, position: Point, width: u32) -> int {
    (pt.y - position.y) * width + (pt.x - position.x)
}

/// `buf` after the pixel `color` is drawn at `pt`: written at its index when that lies within
/// the first `len` pixels, otherwise left out.
pub open spec fn with_pixel<C>(buf: Seq<C>, pt: Point, color: C, position: Point, width: u32, len: int) -> Seq<C> {
    let i = pixel_index(pt, position, width);
    if 0 <= i < len {
        buf.update(i, color)
    } else {
        buf
    }
}

/// `buf` after the pixels are drawn in order.
pub open spec fn with_pixels<C>(buf: Seq<C>, pixels: Seq<(Point, C)>, position: Point, width: u32, len: int) -> Seq<C>
    decreases pixels.len(),
{
    if pixels.len() == 0 {
        buf
    } else {
        with_pixels(
            with_pixel(buf, pixels[0].0, pixels[0].1, position, width, len),
            pixels.drop_first(),
            position,
            width,
            len,
        )
    }
}

/// A pixel drawn at a point inside the framebuffer can be read back at its index, and no other
/// pixel changes; a pixel outside it changes nothing.
pub proof fn law_pixel_lands<C>(buf: Seq<C>, pt: Point, color: C, position: Point, width: u32, len: int)
    requires
        len <= buf.len(),
    ensures
        ({
            let i = pixel_index(pt, position, width);
            let after = with_pixel(buf, pt, color, position, width, len);
            &&& after.len() == buf.len()
            &&& 0 <= i < len ==> after[i] == color
            &&& forall|j: int| 0 <= j < buf.len() && j != i ==> after[j] == buf[j]
            &&& !(0 <= i < len) ==> after == buf
        }),
{
}

/// The pixel at column `x` and row `y` of the framebuffer (both counted from its top left
/// corner, `x` below its width) has the index `y * width + x`.
pub proof fn law_pixel_index_row_major(position: Point, width: u32, x: int, y: int)
    requires
        0 <= x < width,
        0 <= y,
        i32::MIN <= position.x + x <= i32::MAX,
        i32::MIN <= position.y + y <= i32::MAX,
    ensures
        pixel_index(Point { x: (position.x + x) as i32, y: (position.y + y) as i32 }, position, width) == y * width + x,
{
}

impl<'a, C: Copy> WidgetFramebuf<'a, C> {
    /// The pixels.
    pub open spec fn pixels(&self) -> Seq<C> {
        self.buf@
    }

    /// The slice the pixels are kept in.
    pub open spec fn target(&self) -> &'a mut [C] {
        self.buf
    }

    pub open spec fn size_spec(&self) -> Size {
        self.size
    }

    pub open spec fn position_spec(&self) -> Point {
        self.position
    }

    /// The number of pixels the framebuffer covers.
    pub open spec fn len_spec(&self) -> usize {
        self.len
    }

    /// The framebuffer covers `width * height` pixels, and the slice holds them.
    pub open spec fn wf(&self) -> bool {
        &&& self.len_spec() == self.size_spec().width * self.size_spec().height
        &&& self.len_spec() <= self.pixels().len()
    }

    /// A framebuffer over `buf` for the rectangle of `size` at `position`.
    ///
    /// `buf` must hold `size.width * size.height` pixels.
    pub fn new(buf: &'a mut [C], size: Size, position: Point) -> (f: Self)
        requires
            size.width * size.height <= old(buf)@.len(),
        ensures
            f.wf(),
            f.pixels() == old(buf)@,
            final(f.target())@ == final(buf)@,
            f.size_spec() == size,
            f.position_spec() == position,
            f.len_spec() == size.width * size.height,
    {
        let w: u64 = size.width as u64;
        let h: u64 = size.height as u64;
        assert(w * h <= 0xffff_ffffu64 * 0xffff_ffffu64) by (nonlinear_arith)
            requires
                w <= 0xffff_ffffu64,
                h <= 0xffff_ffffu64,
        ;
        let n: usize = buf.len();
        assert(w * h <= n);
        let len: usize = (w * h) as usize;
        WidgetFramebuf { buf, size, position, len }
    }

    /// A framebuffer over `buf` for the rectangle of `size` at `position`, or `None` when `buf`
    /// is too small for it.
    pub fn try_new(buf: &'a mut [C], size: Size, position: Point) -> (f: Option<Self>)
        ensures
            size.width * size.height <= old(buf)@.len() ==> (f matches Some(fb) && fb.wf() && fb.pixels()
                == old(buf)@ && final(fb.target())@ == final(buf)@ && fb.size_spec() == size
                && fb.position_spec() == position && fb.len_spec() == size.width * size.height),
            size.width * size.height > old(buf)@.len() ==> f is None,
    {
        let w: u64 = size.width as u64;
        let h: u64 = size.height as u64;
        assert(w * h <= 0xffff_ffffu64 * 0xffff_ffffu64) by (nonlinear_arith)
            requires
                w <= 0xffff_ffffu64,
                h <= 0xffff_ffffu64,
        ;
        if w * h <= buf.len() as u64 {
            Some(WidgetFramebuf { buf, size, position, len: (w * h) as usize })
        } else {
            None
        }
    }

    /// The position of the framebuffer's top left corner on the display.
    pub fn get_pos(&self) -> (p: Point)
        ensures
            p == self.position_spec(),
    {
        self.position
    }

    /// The size of the framebuffer.
    pub fn get_size(&self) -> (s: Size)
        ensures
            s == self.size_spec(),
    {
        self.size
    }

    /// The number of pixels the framebuffer covers.
    pub fn len(&self) -> (n: usize)
        ensures
            n == self.len_spec(),
    {
        self.len
    }

    /// The pixels, row by row.
    pub fn buffer(&self) -> (b: &[C])
        ensures
            b@ == self.pixels(),
    {
        &*self.buf
    }

    /// The rectangle of the display that the framebuffer covers.
    pub fn bounding_box(&self) -> (r: Rectangle)
        ensures
            r == (Rectangle { top_left: self.position_spec(), size: self.size_spec() }),
    {
        Rectangle::new(self.position, self.size)
    }

    /// Draws the pixel `color` at the display point `pt`; a point outside the framebuffer is
    /// left out.
    pub fn set_pixel(&mut self, pt: Point, color: C)
        requires
            old(self).wf(),
        ensures
            final(self).wf(),
            final(self).pixels() == with_pixel(
                old(self).pixels(),
                pt,
                color,
                old(self).position_spec(),
                old(self).size_spec().width,
                old(self).len_spec() as int,
            ),
            final(final(self).target())@ == final(old(self).target())@,
            final(self).size_spec() == old(self).size_spec(),
            final(self).position_spec() == old(self).position_spec(),
            final(self).len_spec() == old(self).len_spec(),
    {
        let dy: i128 = pt.y as i128 - self.position.y as i128;
        let dx: i128 = pt.x as i128 - self.position.x as i128;
        let w: i128 = self.size.width as i128;
        assert(-0x1_0000_0000i128 * 0x1_0000_0000i128 <= dy * w <= 0x1_0000_0000i128 * 0x1_0000_0000i128) by (nonlinear_arith)
            requires
                -0x1_0000_0000i128 <= dy <= 0x1_0000_0000i128,
                0 <= w <= 0x1_0000_0000i128,
        ;
        let pos: i128 = dy * w + dx;
        if pos < 0 || pos >= self.len as i128 {
            return;
        }
        self.buf[pos as usize] = color;
    }

    /// Draws the pixels in order (see [`WidgetFramebuf::set_pixel`]).
    pub fn draw_iter(&mut self, pixels: &[(Point, C)])
        requires
            old(self).wf(),
        ensures
            final(self).wf(),
            final(self).pixels() == with_pixels(
                old(self).pixels(),
                pixels@,
                old(self).position_spec(),
                old(self).size_spec().width,
                old(self).len_spec() as int,
            ),
            final(final(self).target())@ == final(old(self).target())@,
            final(self).size_spec() == old(self).size_spec(),
            final(self).position_spec() == old(self).position_spec(),
            final(self).len_spec() == old(self).len_spec(),
    {
        let mut i: usize = 0;
        assert(pixels@.skip(0) =~= pixels@);
        while i < pixels.len()
            invariant
                0 <= i <= pixels@.len(),
                self.wf(),
                with_pixels(self.pixels(), pixels@.skip(i as int), self.position_spec(), self.size_spec().width, self.len_spec() as int)
                    == with_pixels(old(self).pixels(), pixels@, old(self).position_spec(), old(self).size_spec().width, old(self).len_spec() as int),
                final(self.target())@ == final(old(self).target())@,
                self.size_spec() == old(self).size_spec(),
                self.position_spec() == old(self).position_spec(),
                self.len_spec() == old(self).len_spec(),
            decreases pixels@.len() - i,
        {
            let (pt, color) = pixels[i];
            assert(pixels@.skip(i as int).drop_first() =~= pixels@.skip(i + 1));
            self.set_pixel(pt, color);
            i = i + 1;
        }
        assert(pixels@.skip(i as int) =~= Seq::<(Point, C)>::empty());
    }
}

} // verus!
