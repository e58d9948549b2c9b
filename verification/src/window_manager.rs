use vstd::prelude::*;
use crate::focus_taken::{FocusTaken, focus_join};
use crate::output::{GuiOutput, GuiOutputView, output_join, output_with_focus};
use crate::gui::fits_i32;

verus! {

/// What the windows of a manager reported so far in one update: the focus the next window
/// is told was taken, the first window that took functional focus, and the combined output
pub struct FocusPass {
    /// The focus taken by the windows so far
    pub focus_taken: FocusTaken,
    /// The first window that took functional focus
    pub to_switch: Option<usize>,
    /// The outputs of the windows, combined
    pub output: GuiOutput,
}

impl FocusPass {
    /// Nothing reported yet, starting from the focus the manager was given
    pub fn new(focus_taken: FocusTaken) -> (r: Self)
        ensures
            r.focus_taken == focus_taken,
            r.to_switch is None,
            r.output@ == output_with_focus(FocusTaken::FocusFree),
    {
        FocusPass { focus_taken, to_switch: None, output: GuiOutput::empty() }
    }

    /// Take in what window `idx` reported
    pub fn absorb(&mut self, idx: usize, o: GuiOutput)
        ensures
            final(self).focus_taken == focus_join(old(self).focus_taken, o.focus_taken),
            final(self).to_switch == if old(self).to_switch is None && o.focus_taken == FocusTaken::FunctionallyTaken {
                Some(idx)
            } else {
                old(self).to_switch
            },
            final(self).output@ == output_join(old(self).output@, o@),
    {
        self.focus_taken = self.focus_taken | o.focus_taken;
        if o.focus_taken.is_focus_taken() {
            if o.focus_taken == FocusTaken::FunctionallyTaken && self.to_switch.is_none() {
                self.to_switch = Some(idx);
            }
        }
        self.output.or_assign(o);
    }
}

/// Bring the window that took functional focus to the front (index 0); the front window
/// takes its place
pub fn bring_to_front<T>(windows: &mut Vec<T>, to_switch: Option<usize>)
    requires
        match to_switch {
            Some(i) => i < old(windows)@.len(),
            None => true,
        },
    ensures
        match to_switch {
            Some(i) => final(windows)@ == old(windows)@.update(0, old(windows)@[i as int]).update(i as int, old(windows)@[0]),
            None => final(windows)@ == old(windows)@,
        },
{
    if let Some(i) = to_switch {
        if i != 0 {
            let ghost w = windows@;
            let b = windows.remove(i);
            let a = windows.remove(0);
            windows.insert(0, b);
            windows.insert(i, a);
            proof {
                assert(windows@ =~= w.update(0, w[i as int]).update(i as int, w[0]));
            }
        }
    }
}

/// The bounds (top, left, right, bottom) of the first `n` window rectangles (x, y, width,
/// height), starting from the origin
pub open spec fn bounds_of(rects: Seq<(i32, i32, i32, i32)>) -> (int, int, int, int)
    decreases rects.len(),
{
    if rects.len() == 0 {
        (0, 0, 0, 0)
    } else {
        let b = bounds_of(rects.drop_last());
        let r = rects.last();
        let right = r.0 + r.2;
        let bottom = r.1 + r.3;
        (
            if r.1 < b.0 { r.1 as int } else { b.0 },
            if r.0 < b.1 { r.0 as int } else { b.1 },
            if right > b.2 { right } else { b.2 },
            if bottom > b.3 { bottom } else { b.3 },
        )
    }
}

/// The bounds hold every window and the origin, and are the tightest such box: each window
/// rectangle (x, y, width, height) lies inside them, the origin too, and each side is the
/// origin's or lies on some window's edge
pub proof fn lemma_bounds_hold_every_window(rects: Seq<(i32, i32, i32, i32)>)
    ensures
        ({
            let b = bounds_of(rects);
            &&& forall|i: int| 0 <= i < rects.len() ==> {
                &&& b.0 <= (#[trigger] rects[i]).1
                &&& b.1 <= rects[i].0
                &&& rects[i].0 + rects[i].2 <= b.2
                &&& rects[i].1 + rects[i].3 <= b.3
            }
            &&& b.0 <= 0 && b.1 <= 0 && 0 <= b.2 && 0 <= b.3
            &&& b.0 == 0 || exists|i: int| 0 <= i < rects.len() && b.0 == (#[trigger] rects[i]).1
            &&& b.1 == 0 || exists|i: int| 0 <= i < rects.len() && b.1 == (#[trigger] rects[i]).0
            &&& b.2 == 0 || exists|i: int| 0 <= i < rects.len() && b.2 == (#[trigger] rects[i]).0 + rects[i].2
            &&& b.3 == 0 || exists|i: int| 0 <= i < rects.len() && b.3 == (#[trigger] rects[i]).1 + rects[i].3
        }),
    decreases rects.len(),
{
    if rects.len() > 0 {
        let p = rects.drop_last();
        lemma_bounds_hold_every_window(p);
        let n = rects.len() - 1;
        assert forall|i: int| 0 <= i < n implies #[trigger] rects[i] == p[i] by {}
        let b = bounds_of(rects);
        let bp = bounds_of(p);
        if b.0 != 0 && b.0 != rects[n].1 {
            let i = choose|i: int| 0 <= i < p.len() && bp.0 == (#[trigger] p[i]).1;
            assert(rects[i] == p[i]);
        }
        if b.1 != 0 && b.1 != rects[n].0 {
            let i = choose|i: int| 0 <= i < p.len() && bp.1 == (#[trigger] p[i]).0;
            assert(rects[i] == p[i]);
        }
        if b.2 != 0 && b.2 != rects[n].0 + rects[n].2 {
            let i = choose|i: int| 0 <= i < p.len() && bp.2 == (#[trigger] p[i]).0 + p[i].2;
            assert(rects[i] == p[i]);
        }
        if b.3 != 0 && b.3 != rects[n].1 + rects[n].3 {
            let i = choose|i: int| 0 <= i < p.len() && bp.3 == (#[trigger] p[i]).1 + p[i].3;
            assert(rects[i] == p[i]);
        }
    }
}

/// Get the bounds (top, left, right, bottom) of all windows, given as rectangles (x, y,
/// width, height); the origin is always inside
pub fn get_bounds(rects: &Vec<(i32, i32, i32, i32)>) -> (r: (i32, i32, i32, i32))
    requires
        forall|i: int| 0 <= i < rects@.len() ==> fits_i32(#[trigger] rects@[i].0 + rects@[i].2) && fits_i32(rects@[i].1 + rects@[i].3),
    ensures
        (r.0 as int, r.1 as int, r.2 as int, r.3 as int) == bounds_of(rects@),
{
    let mut top: i32 = 0;
    let mut right: i32 = 0;
    let mut left: i32 = 0;
    let mut bottom: i32 = 0;
    let mut i: usize = 0;
    while i < rects.len()
        invariant
            i <= rects@.len(),
            forall|j: int| 0 <= j < rects@.len() ==> fits_i32(#[trigger] rects@[j].0 + rects@[j].2) && fits_i32(rects@[j].1 + rects@[j].3),
            (top as int, left as int, right as int, bottom as int) == bounds_of(rects@.subrange(0, i as int)),
        decreases rects.len() - i,
    {
        let r = rects[i];
        assert(rects@.subrange(0, i + 1).drop_last() =~= rects@.subrange(0, i as int));
        if r.0 < left {
            left = r.0;
        }
        let this_right = r.0 + r.2;
        if this_right > right {
            right = this_right;
        }
        if r.1 < top {
            top = r.1;
        }
        let this_bottom = r.1 + r.3;
        if this_bottom > bottom {
            bottom = this_bottom;
        }
        i = i + 1;
    }
    assert(rects@.subrange(0, rects@.len() as int) =~= rects@);
    (top, left, right, bottom)
}

/// The size (width, height) it takes to see all windows, given as rectangles
pub fn get_size_to_see_all_windows(rects: &Vec<(i32, i32, i32, i32)>) -> (r: (i32, i32))
    requires
        forall|i: int| 0 <= i < rects@.len() ==> fits_i32(#[trigger] rects@[i].0 + rects@[i].2) && fits_i32(rects@[i].1 + rects@[i].3),
        fits_i32(bounds_of(rects@).2 - bounds_of(rects@).1),
        fits_i32(bounds_of(rects@).3 - bounds_of(rects@).0),
    ensures
        r.0 == bounds_of(rects@).2 - bounds_of(rects@).1,
        r.1 == bounds_of(rects@).3 - bounds_of(rects@).0,
{
    let bounds = get_bounds(rects);
    (bounds.2 - bounds.1, bounds.3 - bounds.0)
}

} // verus!
