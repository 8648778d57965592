use vstd::prelude::*;

verus! {

/// An RGBA color with four 8-bit channels.
#[derive(Clone, Copy, Debug, PartialEq, Eq, Structural, PartialOrd, Ord, Hash)]
pub struct Color {
    pub r: u8,
    pub g: u8,
    pub b: u8,
    pub a: u8,
}

impl Color {
    /// The four channels in the order red, green, blue, alpha.
    pub open spec fn channels(self) -> Seq<u8> {
        seq![self.r, self.g, self.b, self.a]
    }

    /// A copy of this color with only the alpha channel replaced.
    pub fn alpha(&self, a: u8) -> (r: Self)
        ensures
            r == (Color { a, ..*self }),
    {
        let mut cloned = *self;
        cloned.a = a;
        cloned
    }

    pub fn new_4byte(r: u8, g: u8, b: u8, a: u8) -> (c: Self)
        ensures
            c == (Color { r, g, b, a }),
    {
        Color { r, g, b, a }
    }

    /// An opaque color.
    pub fn new_3byte(r: u8, g: u8, b: u8) -> (c: Self)
        ensures
            c == (Color { r, g, b, a: 255 }),
    {
        Color::new_4byte(r, g, b, 255)
    }
}

} // verus!
