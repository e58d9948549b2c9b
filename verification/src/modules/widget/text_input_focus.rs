use vstd::prelude::*;
use crate::focus_taken::FocusTaken;
use crate::gui::{coord, rect_contains};
use crate::output::{ClipboardData, CursorStyle, GuiOutput, GuiOutputView, clipboard_opt_view};
use crate::modules::widget::text_input::{
    Caret, TextInput, TextPosition, fresh_caret, structure_left, structure_right,
};

verus! {

/// The height of a text input: every line with its margin, and a margin above and below
pub open spec fn input_height(line_height: usize, max_lines: usize, vertical_margin: usize) -> int {
    (line_height + vertical_margin) * max_lines + vertical_margin * 2
}

/// The caret a click at `column` of `line` gives: the caret itself, or, when the caret already
/// stood exactly there, the structure around it selected
pub open spec fn clicked_caret(old: Caret, l: Seq<char>, line: usize, column: usize, skip_back: usize, skip_fwd: usize) -> Caret {
    let n = fresh_caret(line, column);
    if old == n {
        Caret {
            column: structure_right(l, column, skip_fwd),
            highlight_enabled: true,
            highlight_pos: TextPosition { line, column: structure_left(l, column, skip_back) },
            ..n
        }
    } else {
        n
    }
}

impl TextInput {
    /// Everything but the selection, the text and the carets is the same in both inputs
    pub open spec fn same_but_selection(&self, other: &TextInput) -> bool {
        &&& self.width == other.width
        &&& self.line_height == other.line_height
        &&& self.max_lines == other.max_lines
        &&& self.needs_redraw == other.needs_redraw
        &&& self.remove_behind == other.remove_behind
        &&& self.last_states == other.last_states
        &&& self.current_state == other.current_state
        &&& self.placeholder_text == other.placeholder_text
        &&& self.read_only == other.read_only
        &&& self.indent_length == other.indent_length
        &&& self.indent_char == other.indent_char
        &&& self.allow_caret_wrap == other.allow_caret_wrap
        &&& self.line_number_offset == other.line_number_offset
        &&& self.overwrite_mode == other.overwrite_mode
        &&& self.retain_indent == other.retain_indent
        &&& self.menu_open == other.menu_open
        &&& self.show_line_numbers == other.show_line_numbers
        &&& self.blacklist == other.blacklist
        &&& self.blacklist_is_whitelist == other.blacklist_is_whitelist
    }

    /// The height of the module: every line with its margin, and a margin above and below
    pub fn get_height(&self, vertical_margin: usize) -> (r: i32)
        requires
            self.line_height + vertical_margin <= usize::MAX,
            input_height(self.line_height, self.max_lines, vertical_margin) <= usize::MAX,
        ensures
            r as int == coord(input_height(self.line_height, self.max_lines, vertical_margin) as usize),
    {
        let per_line = self.line_height + vertical_margin;
        proof {
            assert(per_line * self.max_lines <= input_height(self.line_height, self.max_lines, vertical_margin)) by (nonlinear_arith)
                requires
                    per_line == self.line_height + vertical_margin,
                    vertical_margin >= 0,
            {}
        }
        let h = per_line * self.max_lines + vertical_margin * 2;
        #[verifier::truncate]
        let r = h as i32;
        r
    }

    /// The width of the module
    pub fn get_width(&self) -> (r: i32)
        ensures
            r as int == coord(self.width),
    {
        #[verifier::truncate]
        let r = self.width as i32;
        r
    }

    /// When another module took the functional focus in the container the input is selected
    /// in, the input is deselected and its first caret goes back to the start, unhighlighted
    pub fn release_selection(&mut self, focus_taken: FocusTaken, container_id: usize)
        requires
            old(self).caret@.len() > 0,
        ensures
            if focus_taken == FocusTaken::FunctionallyTaken && container_id == old(self).selected {
                &&& final(self).selected == 0
                &&& final(self).caret@ == old(self).caret@.update(0, fresh_caret(0, 0))
                &&& final(self).text == old(self).text
                &&& final(self).same_but_selection(old(self))
            } else {
                *final(self) == *old(self)
            },
    {
        if focus_taken == FocusTaken::FunctionallyTaken && container_id == self.selected {
            self.selected = 0;
            self.caret.set(0, Caret::new(0, 0));
        }
    }

    /// React to the mouse in the container `container_id`. Over the input a left click selects
    /// it there (when it is selected nowhere else); when the click was right of the line
    /// numbers, the first caret moves to `target` (its line clamped to the last line), or,
    /// when it already stood exactly there, selects the structure around it, which starts at
    /// `skip_back` and ends at `skip_fwd`. A left click elsewhere deselects the input in this
    /// container. A read-only input ends up selected nowhere. Returns if the click was taken
    /// and if the mouse is over the input.
    pub fn handle_mouse(
        &mut self,
        container_id: usize,
        mouse_pos: Option<(i32, i32)>,
        left_clicked: bool,
        vertical_margin: usize,
        target: (usize, usize),
        skip_back: usize,
        skip_fwd: usize,
    ) -> (r: (bool, bool))
        requires
            old(self).caret@.len() > 0,
            old(self).text@.len() > 0,
            old(self).line_height + vertical_margin <= usize::MAX,
            input_height(old(self).line_height, old(self).max_lines, vertical_margin) <= usize::MAX,
            target.1 < usize::MAX,
        ensures
            ({
                let over = match mouse_pos {
                    Some(p) => rect_contains(0, 0, coord(old(self).width),
                        coord(input_height(old(self).line_height, old(self).max_lines, vertical_margin) as usize), p),
                    None => false,
                };
                let taken = over && left_clicked && (old(self).selected == 0 || old(self).selected == container_id);
                let moved = taken && mouse_pos.unwrap().0 > coord(old(self).line_number_offset);
                let line = if target.0 < old(self).text@.len() - 1 { target.0 } else { (old(self).text@.len() - 1) as usize };
                let selected = if old(self).read_only {
                    0
                } else if taken {
                    container_id
                } else if mouse_pos is Some && !over && left_clicked && old(self).selected == container_id {
                    0
                } else {
                    old(self).selected
                };
                &&& r == (taken, over)
                &&& final(self).selected == selected
                &&& final(self).text == old(self).text
                &&& final(self).same_but_selection(old(self))
                &&& final(self).caret@ == if moved {
                    old(self).caret@.update(0, clicked_caret(old(self).caret@[0], old(self).lines()[line as int],
                        line, target.1, skip_back, skip_fwd))
                } else {
                    old(self).caret@
                }
            }),
    {
        let mut taken = false;
        let mut over = false;
        if let Some(p) = mouse_pos {
            let w = self.get_width();
            let h = self.get_height(vertical_margin);
            over = 0 <= p.0 && p.0 <= w && 0 <= p.1 && p.1 <= h;
            if over {
                if left_clicked && (self.selected == 0 || self.selected == container_id) {
                    taken = true;
                    self.selected = container_id;
                    #[verifier::truncate]
                    let offset = self.line_number_offset as i32;
                    if p.0 > offset {
                        let last = self.text.len() - 1;
                        let line = if target.0 < last { target.0 } else { last };
                        let n = Caret::new(line, target.1);
                        if self.caret[0] == n {
                            self.select_structure(0, skip_back, skip_fwd);
                        } else {
                            self.caret.set(0, n);
                        }
                    }
                }
            } else if left_clicked && self.selected == container_id {
                self.selected = 0;
            }
        }
        if self.read_only {
            self.selected = 0;
        }
        (taken, over)
    }

    /// The output of an update: functional focus when something was taken, visual focus
    /// while selected in this container, free otherwise; the text cursor while over an
    /// editable input; the clipboard request and data that the keys gave
    pub fn update_output(
        &self,
        took_functional: bool,
        container_id: usize,
        over: bool,
        request_clipboard: bool,
        clipboard: Option<ClipboardData>,
    ) -> (r: GuiOutput)
        ensures
            r@ == (GuiOutputView {
                new_clipboard_data: clipboard_opt_view(clipboard),
                new_cursor_position: None,
                focus_taken: if took_functional {
                    FocusTaken::FunctionallyTaken
                } else if self.selected == container_id {
                    FocusTaken::VisuallyTaken
                } else {
                    FocusTaken::FocusFree
                },
                hide_cursor: false,
                text_input_selected: self.selected > 0,
                new_cursor_style: if over && !self.read_only { Some(CursorStyle::Text) } else { None },
                request_clipboard_data: request_clipboard,
            }),
    {
        let focus = if took_functional {
            FocusTaken::FunctionallyTaken
        } else if self.selected == container_id {
            FocusTaken::VisuallyTaken
        } else {
            FocusTaken::FocusFree
        };
        let style = if over && !self.read_only { Some(CursorStyle::Text) } else { None };
        GuiOutput::empty()
            .set_focus_to(focus)
            .with_optional_cursor(style)
            .select_text_input(self.selected > 0)
            .request_clipboard(request_clipboard)
            .with_clipboard_data(clipboard)
    }
}

} // verus!
