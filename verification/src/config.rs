use vstd::prelude::*;

verus! {

/// Default page width in PDF user-space units (points).
pub const DEFAULT_PAGE_WIDTH: i32 = 300;

/// Default page height in PDF user-space units (points).
pub const DEFAULT_PAGE_HEIGHT: i32 = 600;

/// Page dimensions for a generated document, in PDF user-space units.
///
/// Dimensions are whole points; both must be strictly positive for the
/// configuration to be accepted by the service.
#[derive(Clone, Copy, Debug, PartialEq, Eq, Structural)]
pub struct PageConfig {
    pub width: i32,
    pub height: i32,
}

impl PageConfig {
    /// A configuration is valid exactly when both dimensions are positive.
    pub open spec fn is_valid(self) -> bool {
        self.width > 0 && self.height > 0
    }

    pub fn new(width: i32, height: i32) -> (c: Self)
        ensures
            c.width == width,
            c.height == height,
    {
        PageConfig { width, height }
    }

    /// Runtime check of `is_valid`.
    pub fn valid(&self) -> (b: bool)
        ensures
            b == self.is_valid(),
    {
        self.width > 0 && self.height > 0
    }
}

impl Default for PageConfig {
    /// The default page size is 300 x 600 points.
    fn default() -> (c: Self)
        ensures
            c.width == DEFAULT_PAGE_WIDTH,
            c.height == DEFAULT_PAGE_HEIGHT,
            c.is_valid(),
    {
        PageConfig { width: DEFAULT_PAGE_WIDTH, height: DEFAULT_PAGE_HEIGHT }
    }
}

} // verus!
