use vstd::prelude::*;
use crate::focus_taken::FocusTaken;
use crate::output::{CursorStyle, GuiOutput, GuiOutputView, output_with_focus};

verus! {

/// A list of options, each with a box (or a radio button) to select it
pub struct Selection {
    /// The text of each option
    pub text: Vec<String>,
    /// The height of one option
    pub height: usize,
    /// The color of the text
    pub color: u32,
    /// If the module needs to be redrawn
    pub needs_redraw: bool,
    /// Which options are selected
    pub currently_selected: Vec<bool>,
    /// The width of the module
    pub width: usize,
    /// The height of the module
    pub total_height: usize,
    /// If only one option can be selected at a time
    pub radio_buttons: bool,
}

/// The height of `n` options of height `h` with a margin of `m` under each
pub open spec fn options_height(n: nat, h: usize, m: usize) -> int {
    n * (h + m)
}

/// The widest of the text widths (0 for none)
pub open spec fn widest(widths: Seq<usize>) -> usize
    decreases widths.len(),
{
    if widths.len() == 0 {
        0
    } else {
        let w = widest(widths.drop_last());
        if widths.last() > w { widths.last() } else { w }
    }
}

/// The first selected option, if any
pub open spec fn first_selected(s: Seq<bool>) -> Option<usize> {
    if exists|i: int| 0 <= i < s.len() && s[i] {
        Some((choose|i: int| 0 <= i < s.len() && s[i] && forall|j: int| 0 <= j < i ==> !s[j]) as usize)
    } else {
        None
    }
}

/// The selection after a click on option `idx`: it flips, and with radio buttons every
/// other option is deselected
pub open spec fn clicked_selection(s: Seq<bool>, idx: int, radio: bool) -> Seq<bool> {
    let base = if radio { Seq::new(s.len(), |_i: int| false) } else { s };
    base.update(idx, !s[idx])
}

impl Selection {
    /// A selection of the given options; every option starts unselected unless initial states
    /// are given. `vertical_margin` and `horizontal_margin` come from the formatting, and
    /// `text_widths` holds the width of each option's text.
    pub fn new(
        text: Vec<String>,
        height: usize,
        radio_buttons: bool,
        vertical_margin: usize,
        horizontal_margin: usize,
        text_widths: &Vec<usize>,
        initial_states: Option<Vec<bool>>,
    ) -> (r: Self)
        requires
            options_height(text@.len(), height, vertical_margin) <= usize::MAX,
            widest(text_widths@) + height + horizontal_margin <= usize::MAX,
        ensures
            r.text == text,
            r.height == height,
            r.radio_buttons == radio_buttons,
            r.color == 0xFFFFFFFFu32,
            r.needs_redraw,
            r.currently_selected@ == match initial_states {
                Some(s) => s@,
                None => Seq::new(text@.len(), |_i: int| false),
            },
            r.total_height == options_height(text@.len(), height, vertical_margin),
            r.width == widest(text_widths@) + height + horizontal_margin,
    {
        let n = text.len();
        let selected = match initial_states {
            Some(s) => s,
            None => {
                let mut fresh: Vec<bool> = Vec::new();
                let mut k: usize = 0;
                while k < n
                    invariant
                        k <= n,
                        fresh@ =~= Seq::new(k as nat, |_i: int| false),
                    decreases n - k,
                {
                    fresh.push(false);
                    k = k + 1;
                }
                fresh
            },
        };
        let mut myself = Selection {
            text,
            height,
            color: 0xFFFFFFFFu32,
            needs_redraw: true,
            currently_selected: selected,
            width: 0,
            total_height: 0,
            radio_buttons,
        };
        myself.total_height = myself.get_total_height(vertical_margin);
        myself.width = myself.get_total_width(horizontal_margin, text_widths);
        myself
    }

    /// The height of all options: the option height and the vertical margin (of the
    /// formatting) for each
    pub fn get_total_height(&self, vertical_margin: usize) -> (r: usize)
        requires
            options_height(self.text@.len(), self.height, vertical_margin) <= usize::MAX,
        ensures
            r == options_height(self.text@.len(), self.height, vertical_margin),
    {
        let mut total_height: usize = 0;
        let mut i: usize = 0;
        while i < self.text.len()
            invariant
                i <= self.text@.len(),
                total_height == options_height(i as nat, self.height, vertical_margin),
                options_height(self.text@.len(), self.height, vertical_margin) <= usize::MAX,
            decreases self.text.len() - i,
        {
            proof {
                assert(options_height((i + 1) as nat, self.height, vertical_margin)
                    == options_height(i as nat, self.height, vertical_margin) + self.height + vertical_margin) by (nonlinear_arith);
                assert(options_height((i + 1) as nat, self.height, vertical_margin)
                    <= options_height(self.text@.len(), self.height, vertical_margin)) by (nonlinear_arith)
                    requires i + 1 <= self.text@.len();
            }
            total_height = total_height + self.height;
            total_height = total_height + vertical_margin;
            i = i + 1;
        }
        total_height
    }

    /// The width of the module: the widest text (`text_widths` holds the width of each
    /// option's text), the option height and the horizontal margin (of the formatting)
    pub fn get_total_width(&self, horizontal_margin: usize, text_widths: &Vec<usize>) -> (r: usize)
        requires
            widest(text_widths@) + self.height + horizontal_margin <= usize::MAX,
        ensures
            r == widest(text_widths@) + self.height + horizontal_margin,
    {
        let mut m: usize = 0;
        let mut i: usize = 0;
        while i < text_widths.len()
            invariant
                i <= text_widths@.len(),
                m == widest(text_widths@.subrange(0, i as int)),
            decreases text_widths.len() - i,
        {
            assert(text_widths@.subrange(0, i + 1).drop_last() =~= text_widths@.subrange(0, i as int));
            if text_widths[i] > m {
                m = text_widths[i];
            }
            i = i + 1;
        }
        assert(text_widths@.subrange(0, text_widths@.len() as int) =~= text_widths@);
        m + self.height + horizontal_margin
    }

    /// The option selected first (for radio buttons: the selected one)
    pub fn radio_button_get_idx(&self) -> (r: Option<usize>)
        ensures
            match r {
                Some(i) => i < self.currently_selected@.len() && self.currently_selected@[i as int]
                    && forall|j: int| 0 <= j < i ==> !self.currently_selected@[j],
                None => forall|j: int| 0 <= j < self.currently_selected@.len() ==> !self.currently_selected@[j],
            },
    {
        let mut i: usize = 0;
        while i < self.currently_selected.len()
            invariant
                i <= self.currently_selected@.len(),
                forall|j: int| 0 <= j < i ==> !self.currently_selected@[j],
            decreases self.currently_selected.len() - i,
        {
            if self.currently_selected[i] {
                return Some(i);
            }
            i = i + 1;
        }
        None
    }

    /// Click option `idx`: it flips; with radio buttons the others are deselected
    fn click_option(&mut self, idx: usize)
        requires
            idx < old(self).currently_selected@.len(),
        ensures
            final(self).currently_selected@ == clicked_selection(old(self).currently_selected@, idx as int, old(self).radio_buttons),
            final(self).needs_redraw,
            final(self).text == old(self).text,
            final(self).radio_buttons == old(self).radio_buttons,
    {
        let was_true = self.currently_selected[idx];
        if self.radio_buttons {
            let n = self.currently_selected.len();
            let mut fresh: Vec<bool> = Vec::new();
            let mut k: usize = 0;
            while k < n
                invariant
                    k <= n,
                    fresh@ =~= Seq::new(k as nat, |_i: int| false),
                decreases n - k,
            {
                fresh.push(false);
                k = k + 1;
            }
            self.currently_selected = fresh;
        }
        self.needs_redraw = true;
        self.currently_selected.set(idx, !was_true);
    }

    /// Report (once) that the module needs to be redrawn
    pub fn need_redraw(&mut self) -> (r: bool)
        ensures
            r == old(self).needs_redraw,
            !final(self).needs_redraw,
            final(self).currently_selected == old(self).currently_selected,
    {
        if self.needs_redraw {
            self.needs_redraw = false;
            true
        } else {
            false
        }
    }
}


/// The mouse is on the box (or radio button) of the option drawn at `offset`
pub open spec fn on_option(p: (isize, isize), offset: int, height: int, radio: bool) -> bool {
    if radio {
        let half = height / 2;
        let dx = p.0 - half;
        let dy = p.1 - (offset + half);
        dx * dx + dy * dy <= height * height
    } else {
        0 <= p.0 <= height && offset <= p.1 <= offset + height
    }
}

/// The first option the mouse is on, looking at options from `from` on, if any
pub open spec fn option_at(p: (isize, isize), n: int, from: int, height: int, margin: int, radio: bool) -> Option<int>
    decreases n - from,
{
    if from >= n || from < 0 {
        None
    } else if on_option(p, from * (height + margin), height, radio) {
        Some(from)
    } else {
        option_at(p, n, from + 1, height, margin, radio)
    }
}

/// All values the hit test computes fit an `isize`
pub open spec fn option_test_fits(p: (isize, isize), n: int, height: int, margin: int) -> bool {
    &&& n * (height + margin) + height <= isize::MAX
    &&& -0x1000_0000 <= p.0 <= 0x1000_0000
    &&& -0x1000_0000 <= p.1 <= 0x1000_0000
    &&& height <= 0x1000_0000
    &&& n * (height + margin) + height <= 0x1000_0000
}

impl Selection {
    /// If the mouse is on the option drawn at `offset`
    fn hits(&self, p: (isize, isize), offset: isize) -> (r: bool)
        requires
            0 <= offset <= 0x1000_0000,
            self.height <= 0x1000_0000,
            offset + self.height <= 0x1000_0000,
            -0x1000_0000 <= p.0 <= 0x1000_0000,
            -0x1000_0000 <= p.1 <= 0x1000_0000,
        ensures
            r == on_option(p, offset as int, self.height as int, self.radio_buttons),
    {
        let h = self.height as isize;
        if self.radio_buttons {
            let half = h / 2;
            let dx = p.0 - half;
            let dy = p.1 - (offset + half);
            let dx2 = dx as i128;
            let dy2 = dy as i128;
            let h2 = h as i128;
            assert(dx2 * dx2 <= 0x1000_0000_0000_0000) by (nonlinear_arith)
                requires -0x3000_0000 <= dx2 <= 0x3000_0000;
            assert(dy2 * dy2 <= 0x1000_0000_0000_0000) by (nonlinear_arith)
                requires -0x3000_0000 <= dy2 <= 0x3000_0000;
            assert(0 <= dx2 * dx2 && 0 <= dy2 * dy2) by (nonlinear_arith);
            assert(h2 * h2 <= 0x1000_0000_0000_0000) by (nonlinear_arith)
                requires 0 <= h2 <= 0x1000_0000;
            dx2 * dx2 + dy2 * dy2 <= h2 * h2
        } else {
            0 <= p.0 && p.0 <= h && offset <= p.1 && p.1 <= offset + h
        }
    }

    /// React to the mouse: over an option the cursor becomes a pointer, and a click
    /// selects (or deselects) the first option under the mouse and takes functional focus;
    /// nothing when focus was already taken
    #[verifier::loop_isolation(false)]
    pub fn update(&mut self, focus_taken: FocusTaken, mouse_pos: Option<(isize, isize)>, left_clicked: bool, vertical_margin: usize) -> (r: GuiOutput)
        requires
            old(self).currently_selected@.len() == old(self).text@.len(),
            mouse_pos is Some ==> option_test_fits(mouse_pos->0, old(self).text@.len() as int, old(self).height as int, vertical_margin as int),
        ensures
            focus_taken != FocusTaken::FocusFree ==> r@ == output_with_focus(FocusTaken::FocusFree) && *final(self) == *old(self),
            focus_taken == FocusTaken::FocusFree ==> match mouse_pos {
                Some(p) => match option_at(p, old(self).text@.len() as int, 0, old(self).height as int, vertical_margin as int, old(self).radio_buttons) {
                    Some(i) => if left_clicked {
                        &&& r@ == GuiOutputView { new_cursor_style: Some(CursorStyle::Pointer), ..output_with_focus(FocusTaken::FunctionallyTaken) }
                        &&& final(self).currently_selected@ == clicked_selection(old(self).currently_selected@, i, old(self).radio_buttons)
                        &&& final(self).needs_redraw
                        &&& final(self).text == old(self).text
                    } else {
                        &&& r@ == GuiOutputView { new_cursor_style: Some(CursorStyle::Pointer), ..output_with_focus(FocusTaken::FocusFree) }
                        &&& *final(self) == *old(self)
                    },
                    None => r@ == output_with_focus(FocusTaken::FocusFree) && *final(self) == *old(self),
                },
                None => r@ == output_with_focus(FocusTaken::FocusFree) && *final(self) == *old(self),
            },
    {
        if focus_taken.is_focus_taken() {
            return GuiOutput::empty();
        }
        let p = match mouse_pos {
            Some(p) => p,
            None => {
                return GuiOutput::empty();
            },
        };
        let n = self.text.len();
        let ghost h = self.height as int;
        let ghost m = vertical_margin as int;
        let mut idx: usize = 0;
        let mut offset: isize = 0;
        while idx < n
            invariant
                n == old(self).text@.len(),
                *self == *old(self),
                idx <= n,
                offset == idx * (h + m),
                h == self.height,
                m == vertical_margin,
                h >= 0 && m >= 0,
                option_test_fits(p, n as int, h, m),
                option_at(p, n as int, 0, h, m, self.radio_buttons) == option_at(p, n as int, idx as int, h, m, self.radio_buttons),
            decreases n - idx,
        {
            proof {
                assert(idx * (h + m) <= n * (h + m)) by (nonlinear_arith)
                    requires idx <= n, h >= 0, m >= 0;
                assert((idx + 1) * (h + m) <= n * (h + m)) by (nonlinear_arith)
                    requires idx + 1 <= n, h >= 0, m >= 0;
                assert((idx + 1) * (h + m) == idx * (h + m) + h + m) by (nonlinear_arith);
            }
            if self.hits(p, offset) {
                if left_clicked {
                    self.click_option(idx);
                    return GuiOutput::empty().with_cursor(CursorStyle::Pointer).set_focus_to(FocusTaken::FunctionallyTaken);
                }
                return GuiOutput::empty().with_cursor(CursorStyle::Pointer);
            }
            offset = offset + self.height as isize + vertical_margin as isize;
            idx = idx + 1;
        }
        GuiOutput::empty()
    }
}
} // verus!
