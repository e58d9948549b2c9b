use vstd::prelude::*;
use crate::focus_taken::FocusTaken;
use crate::output::{ClipboardData, CursorStyle, GuiOutput, GuiOutputView, clipboard_opt_view};
use crate::modules::widget::number_input::{Caret, NumberInput};
use crate::modules::widget::text_input::TextPosition;

verus! {

/// The caret a click at `column` gives: the caret itself, or, when the caret already stood
/// exactly there, the whole number selected
pub open spec fn clicked_number_caret(old: Caret, digits: nat, column: usize) -> Caret {
    let n = Caret { column, highlight_pos: TextPosition { line: 0, column: 0 }, highlight_enabled: false };
    if old == n {
        Caret { column: digits as usize, highlight_pos: TextPosition { line: 0, column: 0 }, highlight_enabled: true }
    } else {
        n
    }
}

impl NumberInput {
    /// Everything but the selection, the number and the caret is the same in both inputs
    pub open spec fn same_but_selection(&self, other: &NumberInput) -> bool {
        &&& self.width == other.width
        &&& self.needs_redraw == other.needs_redraw
        &&& self.remove_behind == other.remove_behind
        &&& self.last_states == other.last_states
        &&& self.current_state == other.current_state
        &&& self.read_only == other.read_only
        &&& self.allow_caret_wrap == other.allow_caret_wrap
        &&& self.overwrite_mode == other.overwrite_mode
        &&& self.blacklist == other.blacklist
        &&& self.blacklist_is_whitelist == other.blacklist_is_whitelist
    }

    /// When another module took the functional focus in the container the input is selected
    /// in, the input is deselected and its caret goes back to the start, unhighlighted
    pub fn release_selection(&mut self, focus_taken: FocusTaken, container_id: usize)
        ensures
            if focus_taken == FocusTaken::FunctionallyTaken && container_id == old(self).selected {
                &&& final(self).selected == 0
                &&& final(self).caret == (Caret { column: 0, highlight_pos: TextPosition { line: 0, column: 0 }, highlight_enabled: false })
                &&& final(self).number == old(self).number
                &&& final(self).same_but_selection(old(self))
            } else {
                *final(self) == *old(self)
            },
    {
        if focus_taken == FocusTaken::FunctionallyTaken && container_id == self.selected {
            self.selected = 0;
            self.caret = Caret::new(0);
        }
    }

    /// React to the mouse in the container `container_id`; `over` tells if the mouse is over
    /// the input (`None` without a mouse). Over the input a left click selects it there (when
    /// it is selected nowhere else) and moves the caret to `column`, or, when the caret already
    /// stood exactly there, selects the whole number. A left click elsewhere deselects the
    /// input in this container. A read-only input ends up selected nowhere. Returns if the
    /// click was taken.
    pub fn handle_mouse(&mut self, container_id: usize, over: Option<bool>, left_clicked: bool, column: usize) -> (taken: bool)
        ensures
            ({
                let inside = over == Some(true);
                let took = inside && left_clicked && (old(self).selected == 0 || old(self).selected == container_id);
                &&& taken == took
                &&& final(self).selected == if old(self).read_only {
                    0
                } else if took {
                    container_id
                } else if over == Some(false) && left_clicked && old(self).selected == container_id {
                    0
                } else {
                    old(self).selected
                }
                &&& final(self).caret == if took {
                    clicked_number_caret(old(self).caret, old(self).digits().len(), column)
                } else {
                    old(self).caret
                }
                &&& final(self).number == old(self).number
                &&& final(self).same_but_selection(old(self))
            }),
    {
        let mut taken = false;
        match over {
            Some(true) => {
                if left_clicked && (self.selected == 0 || self.selected == container_id) {
                    taken = true;
                    self.selected = container_id;
                    let n = Caret::new(column);
                    if self.caret == n {
                        self.select_structure();
                    } else {
                        self.caret = n;
                    }
                }
            },
            Some(false) => {
                if left_clicked && self.selected == container_id {
                    self.selected = 0;
                }
            },
            None => {},
        }
        if self.read_only {
            self.selected = 0;
        }
        taken
    }

    /// The output of an update: functional focus when something was taken, visual focus
    /// while selected in this container, free otherwise; a read-only input shows the
    /// "not allowed" cursor, an editable one the text cursor while the mouse is over it;
    /// the clipboard request and data that the keys gave
    pub fn update_output(
        &self,
        took_functional: bool,
        container_id: usize,
        over: bool,
        request_clipboard: bool,
        clipboard: Option<ClipboardData>,
    ) -> (r: GuiOutput)
        ensures
            r@ == (GuiOutputView {
                new_clipboard_data: clipboard_opt_view(clipboard),
                new_cursor_position: None,
                focus_taken: if took_functional {
                    FocusTaken::FunctionallyTaken
                } else if self.selected == container_id {
                    FocusTaken::VisuallyTaken
                } else {
                    FocusTaken::FocusFree
                },
                hide_cursor: false,
                text_input_selected: self.selected == container_id,
                new_cursor_style: if self.read_only {
                    Some(CursorStyle::NotAllowed)
                } else if over {
                    Some(CursorStyle::Text)
                } else {
                    None
                },
                request_clipboard_data: request_clipboard,
            }),
    {
        let focus = if took_functional {
            FocusTaken::FunctionallyTaken
        } else if self.selected == container_id {
            FocusTaken::VisuallyTaken
        } else {
            FocusTaken::FocusFree
        };
        let style = if self.read_only {
            Some(CursorStyle::NotAllowed)
        } else if over {
            Some(CursorStyle::Text)
        } else {
            None
        };
        GuiOutput::empty()
            .set_focus_to(focus)
            .with_optional_cursor(style)
            .select_text_input(self.selected == container_id)
            .request_clipboard(request_clipboard)
            .with_clipboard_data(clipboard)
    }
}

} // verus!
