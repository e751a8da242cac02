use vstd::prelude::*;

verus! {

/// An RGBA colour with each channel held in tenths, 0 through 10
/// (so 7 stands for the fraction seven tenths).  The integer scale
/// keeps the channel arithmetic exact; a renderer divides by ten.
#[derive(Debug, Clone, Copy, PartialEq, Eq, Structural)]
pub struct Color {
    pub red: u8,
    pub green: u8,
    pub blue: u8,
    pub alpha: u8,
}

impl Color {
    /// The four channels in order: red, green, blue, alpha.
    pub fn as_list(&self) -> (r: [u8; 4])
        ensures
            r@ == seq![self.red, self.green, self.blue, self.alpha],
    {
        let r = [self.red, self.green, self.blue, self.alpha];
        proof {
            assert(r@ =~= seq![self.red, self.green, self.blue, self.alpha]);
        }
        r
    }

    /// Opaque black.
    pub fn black() -> (r: Color)
        ensures
            r == (Color { red: 0, green: 0, blue: 0, alpha: 10 }),
    {
        Color { red: 0, green: 0, blue: 0, alpha: 10 }
    }

    /// Opaque white.
    pub fn white() -> (r: Color)
        ensures
            r == (Color { red: 10, green: 10, blue: 10, alpha: 10 }),
    {
        Color { red: 10, green: 10, blue: 10, alpha: 10 }
    }
}

} // verus!
