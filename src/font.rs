//! Font families and the ladder of text sizes.
use vstd::prelude::*;

verus! {

/// The faces of one family, by asset path. A family without a bold or an
/// italic face uses its regular face instead.
#[derive(Clone, Debug)]
pub struct FontFamily {
    pub regular: String,
    pub bold: Option<String>,
    pub italic: Option<String>,
}

impl FontFamily {
    pub fn regular(&self) -> (r: String)
        ensures
            r@ == self.regular@,
    {
        self.regular.clone()
    }

    pub fn bold(&self) -> (r: String)
        ensures
            r@ == match self.bold {
                Some(b) => b@,
                None => self.regular@,
            },
    {
        match &self.bold {
            Some(b) => b.clone(),
            None => self.regular.clone(),
        }
    }

    pub fn italic(&self) -> (r: String)
        ensures
            r@ == match self.italic {
                Some(i) => i@,
                None => self.regular@,
            },
    {
        match &self.italic {
            Some(i) => i.clone(),
            None => self.regular.clone(),
        }
    }
}

/// Text sizes, in canvas units, from smallest to largest.
#[derive(Clone, Copy, Debug, PartialEq, Eq, Structural)]
pub struct FontSizeMap {
    pub xxsmall: u32,
    pub xsmall: u32,
    pub small: u32,
    pub medium: u32,
    pub large: u32,
    pub xlarge: u32,
    pub xxlarge: u32,
}

impl Default for FontSizeMap {
    /// Twice the usual point sizes 8, 12, 16, 24, 32, 48 and 64.
    fn default() -> (r: FontSizeMap)
        ensures
            r == (FontSizeMap {
                xxsmall: 16,
                xsmall: 24,
                small: 32,
                medium: 48,
                large: 64,
                xlarge: 96,
                xxlarge: 128,
            }),
    {
        FontSizeMap {
            xxsmall: 8 * 2,
            xsmall: 12 * 2,
            small: 16 * 2,
            medium: 24 * 2,
            large: 32 * 2,
            xlarge: 48 * 2,
            xxlarge: 64 * 2,
        }
    }
}

} // verus!
