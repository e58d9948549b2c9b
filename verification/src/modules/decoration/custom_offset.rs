use vstd::prelude::*;

verus! {

/// Move the drawing position as a function of your own says
pub struct CustomOffset<F> {
    /// The function that gives the new drawing position from the old one
    pub function: F,
}

impl<F: Fn((i32, i32)) -> (i32, i32)> CustomOffset<F> {
    /// Use the given function
    pub fn new(function: F) -> (r: Self)
        ensures
            r.function == function,
    {
        CustomOffset { function }
    }

    /// The height of the module (it takes none)
    pub fn get_height(&self) -> (r: i32)
        ensures
            r == 0,
    {
        0
    }

    /// The width of the module (it takes none)
    pub fn get_width(&self) -> (r: i32)
        ensures
            r == 0,
    {
        0
    }

    /// Move the drawing position as the function says
    pub fn modify_offset_cursor(&self, current: (i32, i32)) -> (r: (i32, i32))
        requires
            self.function.requires((current,)),
        ensures
            self.function.ensures((current,), r),
    {
        (self.function)(current)
    }
}

} // verus!
