use vstd::prelude::*;

use crate::color::Color;

verus! {

/// Something with a size in pixels.
pub trait Dimensions {
    /// The width and height in pixels.
    spec fn spec_dimensions(&self) -> (nat, nat);

    /// Returns the width of this object.
    fn get_width(&self) -> (w: usize)
        ensures
            w == self.spec_dimensions().0,
    ;

    /// Returns the height of this object.
    fn get_height(&self) -> (h: usize)
        ensures
            h == self.spec_dimensions().1,
    ;
}

/// A CPU-side RGBA8 pixel buffer, row-major with the origin at the top left.
pub struct Texture {
    pub tex_data: Vec<u8>,
    width: usize,
    height: usize,
}

/// Offset of the first byte of pixel (x, y) in a buffer `width` pixels wide.
pub open spec fn pixel_offset(width: int, x: int, y: int) -> int {
    (y * width + x) * 4
}

impl Texture {
    /// The pixel bytes.
    pub closed spec fn spec_data(&self) -> Seq<u8> {
        self.tex_data@
    }

    pub closed spec fn spec_width(&self) -> nat {
        self.width as nat
    }

    pub closed spec fn spec_height(&self) -> nat {
        self.height as nat
    }

    /// The buffer holds four bytes for each pixel.
    pub open spec fn wf(&self) -> bool {
        self.spec_data().len() == self.spec_width() * self.spec_height() * 4
    }

    /// Writes one pixel; the rest of the buffer is unchanged.
    pub fn draw_pixel(&mut self, color: &Color, x: usize, y: usize)
        requires
            old(self).wf(),
            x < old(self).spec_width(),
            y < old(self).spec_height(),
        ensures
            final(self).wf(),
            final(self).spec_width() == old(self).spec_width(),
            final(self).spec_height() == old(self).spec_height(),
            final(self).spec_data() == old(self).spec_data().update(
                pixel_offset(old(self).spec_width() as int, x as int, y as int),
                color.r,
            ).update(
                pixel_offset(old(self).spec_width() as int, x as int, y as int) + 1,
                color.g,
            ).update(
                pixel_offset(old(self).spec_width() as int, x as int, y as int) + 2,
                color.b,
            ).update(
                pixel_offset(old(self).spec_width() as int, x as int, y as int) + 3,
                color.a,
            ),
    {
        let w = self.width;
        let h = self.height;
        let len = self.tex_data.len();
        proof {
            assert((y * w + x) * 4 + 3 < w * h * 4) by (nonlinear_arith)
                requires
                    x < w,
                    y < h,
            ;
        }
        let starting_pos = (y * self.width + x) * 4;
        self.tex_data.set(starting_pos, color.r);
        self.tex_data.set(starting_pos + 1, color.g);
        self.tex_data.set(starting_pos + 2, color.b);
        self.tex_data.set(starting_pos + 3, color.a);
    }

    /// A buffer holding the given RGBA bytes.
    pub fn from_rgba(tex_data: Vec<u8>, width: usize, height: usize) -> (t: Self)
        requires
            tex_data@.len() == width * height * 4,
        ensures
            t.wf(),
            t.spec_width() == width,
            t.spec_height() == height,
            t.spec_data() == tex_data@,
    {
        Texture { tex_data, width, height }
    }

    /// Gives up the pixel bytes.
    pub fn into_data(self) -> (d: Vec<u8>)
        ensures
            d@ == self.spec_data(),
    {
        self.tex_data
    }

    pub fn get_width(&self) -> (w: usize)
        ensures
            w == self.spec_width(),
    {
        self.width
    }

    pub fn get_height(&self) -> (h: usize)
        ensures
            h == self.spec_height(),
    {
        self.height
    }

    /// A zero-filled buffer of the given size.
    pub fn new(width: usize, height: usize) -> (t: Self)
        requires
            width * height * 4 <= usize::MAX,
        ensures
            t.wf(),
            t.spec_width() == width,
            t.spec_height() == height,
            forall|i: int| 0 <= i < t.spec_data().len() ==> t.spec_data()[i] == 0,
    {
        let n: usize = width * height * 4;
        let mut tex_data: Vec<u8> = Vec::new();
        while tex_data.len() < n
            invariant
                tex_data@.len() <= n,
                forall|i: int| 0 <= i < tex_data@.len() ==> tex_data@[i] == 0,
            decreases n - tex_data@.len(),
        {
            tex_data.push(0);
        }
        Texture { tex_data, width, height }
    }
}

impl Dimensions for Texture {
    open spec fn spec_dimensions(&self) -> (nat, nat) {
        (self.spec_width(), self.spec_height())
    }

    fn get_width(&self) -> usize {
        self.width
    }

    fn get_height(&self) -> usize {
        self.height
    }
}

} // verus!
