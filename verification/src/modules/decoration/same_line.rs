use vstd::prelude::*;

verus! {

#[derive(Debug, Clone, Copy, PartialEq, Eq, Structural)]
/// Place the next module beside the previous one instead of below it
pub struct SameLine {
    /// The space between the previous module and the next one
    pub width: isize,
}

/// Where the next module goes: beside the module placed before this one when there is one;
/// `size` is the (width, height) of that module
pub open spec fn same_line_offset(
    width: isize,
    used_idx: Seq<usize>,
    size: (isize, isize),
    vertical_margin: usize,
    current: (isize, isize),
) -> (int, int) {
    if used_idx.len() < 2 {
        (current.0 as int, current.1 as int)
    } else {
        (current.0 + width + size.0, current.1 - (size.1 + vertical_margin * 2))
    }
}

impl SameLine {
    /// Leave `margin` of space between the two modules
    pub fn new(margin: isize) -> (r: Self)
        ensures
            r.width == margin,
    {
        SameLine { width: margin }
    }

    /// The height of the module (it takes none)
    pub fn get_height(&self) -> (r: i32)
        ensures
            r == 0,
    {
        0
    }

    /// Move the drawing position `current` beside the previous module. `used_idx` are the
    /// positions of the modules placed so far (this one last); `size_of` gives the (width,
    /// height) of the module at a position.
    pub fn modify_offset_cursor<F: Fn(usize) -> (isize, isize)>(
        &self,
        used_idx: &Vec<usize>,
        size_of: &F,
        vertical_margin: usize,
        current: (isize, isize),
    ) -> (r: (isize, isize))
        requires
            forall|i: usize| #[trigger] size_of.requires((i,)),
            forall|i: usize, s: (isize, isize)| #[trigger] size_of.ensures((i,), s) ==> {
                &&& vertical_margin * 2 + s.1 <= isize::MAX
                &&& current.0 + self.width + s.0 <= isize::MAX
                &&& current.0 + self.width + s.0 >= isize::MIN
                &&& current.1 - (s.1 + vertical_margin * 2) >= isize::MIN
                &&& current.1 - (s.1 + vertical_margin * 2) <= isize::MAX
                &&& s.1 + vertical_margin * 2 >= isize::MIN
            },
            vertical_margin * 2 <= isize::MAX,
            isize::MIN <= current.0 + self.width <= isize::MAX,
        ensures
            used_idx@.len() < 2 ==> r == current,
            used_idx@.len() >= 2 ==> exists|s: (isize, isize)|
                #[trigger] size_of.ensures((used_idx@[used_idx@.len() - 2],), s)
                && (r.0 as int, r.1 as int) == same_line_offset(self.width, used_idx@, s, vertical_margin, current),
    {
        if used_idx.len() < 2 {
            return current;
        }
        let previous_idx = used_idx[used_idx.len() - 2];
        let size = size_of(previous_idx);
        let vm = vertical_margin as isize;
        let r = (current.0 + self.width + size.0, current.1 - (size.1 + vm * 2));
        assert(size_of.ensures((previous_idx,), size));
        r
    }
}

} // verus!
