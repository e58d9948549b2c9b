use vstd::prelude::*;

verus! {

/// A line dividing modules, horizontal or vertical
pub struct Separator {
    /// The height of the module
    pub height: usize,
    /// The width of the module
    pub width: usize,
    /// The thickness of the line
    pub thickness: usize,
    /// If the line runs vertically
    pub is_vertical: bool,
    /// If the module needs to be redrawn
    pub needs_redraw: bool,
}

/// The line thickness when none is given
pub const DEFAULT_LINE_THICKNESS: usize = 5;

impl Separator {
    /// A separator of the given size and direction (with the default thickness when none is given)
    pub fn new(height: usize, width: usize, is_vertical: bool, line_thickness: Option<usize>) -> (r: Self)
        ensures
            r.height == height,
            r.width == width,
            r.is_vertical == is_vertical,
            r.thickness == match line_thickness { Some(t) => t, None => DEFAULT_LINE_THICKNESS },
            r.needs_redraw,
    {
        Separator {
            height,
            width,
            thickness: match line_thickness { Some(t) => t, None => DEFAULT_LINE_THICKNESS },
            is_vertical,
            needs_redraw: true,
        }
    }

    /// Report (once) that the module needs to be redrawn
    pub fn need_redraw(&mut self) -> (r: bool)
        ensures
            r == old(self).needs_redraw,
            !final(self).needs_redraw,
            final(self).height == old(self).height && final(self).width == old(self).width,
    {
        if self.needs_redraw {
            self.needs_redraw = false;
            true
        } else {
            false
        }
    }
}

} // verus!
