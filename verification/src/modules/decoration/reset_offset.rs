use vstd::prelude::*;

verus! {

#[derive(Debug, Clone, Copy)]
/// Return to the left edge: the next module starts at horizontal offset 0
pub struct ResetOffset {
    /// The width the module reports
    pub width: isize,
    /// The height the module reports
    pub height: isize,
}

impl ResetOffset {
    /// A reset that takes no space
    pub fn new() -> (r: Self)
        ensures
            r.width == 0 && r.height == 0,
    {
        ResetOffset { width: 0, height: 0 }
    }

    /// The height of the module
    pub fn get_height(&self) -> (r: isize)
        ensures
            r == self.height,
    {
        self.height
    }

    /// The width of the module
    pub fn get_width(&self) -> (r: isize)
        ensures
            r == self.width,
    {
        self.width
    }

    /// Move the drawing position back to the left edge
    pub fn modify_offset_cursor(&self, current: (isize, isize)) -> (r: (isize, isize))
        ensures
            r == (0isize, current.1),
    {
        (0, current.1)
    }
}

} // verus!
