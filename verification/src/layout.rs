use vstd::prelude::*;
use crate::gui::{coord, fits_i32};

verus! {

/// The running measure of a window's modules laid out one below the other: the furthest
/// right and bottom edges reached so far, and where the next module goes
#[derive(Debug, Clone, Copy, PartialEq, Eq, Structural)]
pub struct ModuleLayout {
    /// The furthest right edge reached
    pub min_width: i32,
    /// The furthest bottom edge reached
    pub min_height: i32,
    /// How far right of the margin the next module starts
    pub extra_horizontal_offset: i32,
    /// How far down the next module starts
    pub extra_vertical_offset: i32,
}

/// The larger of two integers
pub open spec fn max_int(a: int, b: int) -> int {
    if a >= b { a } else { b }
}

/// The layout after a module of the given size was placed at the current offsets
pub open spec fn placed(l: ModuleLayout, width: i32, height: i32, horizontal_margin: usize, vertical_margin: usize) -> ModuleLayout {
    let x = coord(horizontal_margin) + l.extra_horizontal_offset;
    let y = l.extra_vertical_offset as int;
    ModuleLayout {
        min_width: max_int(l.min_width as int, x + width) as i32,
        min_height: max_int(l.min_height as int, y + height) as i32,
        extra_horizontal_offset: l.extra_horizontal_offset,
        extra_vertical_offset: (l.extra_vertical_offset + height + coord(vertical_margin)) as i32,
    }
}

/// Placing the module keeps every value in `i32`
pub open spec fn placement_fits(l: ModuleLayout, width: i32, height: i32, horizontal_margin: usize, vertical_margin: usize) -> bool {
    let x = coord(horizontal_margin) + l.extra_horizontal_offset;
    &&& fits_i32(x)
    &&& fits_i32(x + width)
    &&& fits_i32(l.extra_vertical_offset + height)
    &&& fits_i32(l.extra_vertical_offset + height + coord(vertical_margin))
}

impl ModuleLayout {
    /// Nothing placed yet: every value is 0
    pub fn new() -> (r: Self)
        ensures
            r == (ModuleLayout { min_width: 0, min_height: 0, extra_horizontal_offset: 0, extra_vertical_offset: 0 }),
    {
        ModuleLayout { min_width: 0, min_height: 0, extra_horizontal_offset: 0, extra_vertical_offset: 0 }
    }

    /// Place a module of the given size at the current offsets (the horizontal margin in from
    /// the left): the furthest edges grow to cover it, and the next module goes below it,
    /// one vertical margin further down
    pub fn place_module(&mut self, width: i32, height: i32, horizontal_margin: usize, vertical_margin: usize)
        requires
            placement_fits(*old(self), width, height, horizontal_margin, vertical_margin),
        ensures
            *final(self) == placed(*old(self), width, height, horizontal_margin, vertical_margin),
    {
        #[verifier::truncate]
        let hm = horizontal_margin as i32;
        #[verifier::truncate]
        let vm = vertical_margin as i32;
        let x = hm + self.extra_horizontal_offset;
        let y = self.extra_vertical_offset;
        let total_width = x + width;
        let total_height = y + height;
        if total_width > self.min_width {
            self.min_width = total_width;
        }
        if total_height > self.min_height {
            self.min_height = total_height;
        }
        self.extra_vertical_offset = self.extra_vertical_offset + height + vm;
    }

    /// The size at which every placed module is visible: the furthest edges plus a
    /// horizontal margin to the right and two vertical margins below
    pub fn size_to_see_all(&self, horizontal_margin: usize, vertical_margin: usize) -> (r: (i32, i32))
        requires
            fits_i32(self.min_width + coord(horizontal_margin)),
            fits_i32(coord(vertical_margin) * 2),
            fits_i32(self.min_height + coord(vertical_margin) * 2),
        ensures
            r.0 == self.min_width + coord(horizontal_margin),
            r.1 == self.min_height + coord(vertical_margin) * 2,
    {
        #[verifier::truncate]
        let hm = horizontal_margin as i32;
        #[verifier::truncate]
        let vm = vertical_margin as i32;
        (self.min_width + hm, self.min_height + vm * 2)
    }
}

} // verus!
