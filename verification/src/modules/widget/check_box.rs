use vstd::prelude::*;
use crate::focus_taken::FocusTaken;
use crate::gui::{coord, rect_contains};
use crate::output::{CursorStyle, GuiOutput, GuiOutputView, output_with_focus};

verus! {

/// A box that cycles through its states when clicked, with a text beside it; `B` is the
/// image drawn for each state
pub struct CheckBox<B> {
    /// The current state (0 is unticked)
    pub checked: usize,
    /// The image of each state
    pub states: Vec<B>,
    /// The text beside the box
    pub text: String,
    /// The height of the box
    pub height: usize,
    /// The space between the box and the text
    pub margin: usize,
    /// If the module needs to be redrawn
    pub needs_redraw: bool,
}

impl<B> CheckBox<B> {
    /// Start in the given state (taken modulo the number of states)
    pub fn with_state(self, state: usize) -> (r: Self)
        requires
            self.states@.len() > 0,
        ensures
            r.checked == state % (self.states@.len() as usize),
            r.states == self.states && r.text == self.text && r.height == self.height,
            r.margin == self.margin && r.needs_redraw == self.needs_redraw,
    {
        let mut s = self;
        s.checked = state % s.states.len();
        s
    }

    /// A check box of the given height with the given states (and start state, 0 without one)
    pub fn new(height: usize, text: String, states: Vec<B>, checked: Option<usize>) -> (r: Self)
        ensures
            r.height == height,
            r.text == text,
            r.states == states,
            r.checked == match checked { Some(c) => c, None => 0 },
            r.margin == height / 10,
            r.needs_redraw,
    {
        CheckBox {
            height,
            text,
            checked: match checked { Some(c) => c, None => 0 },
            states,
            margin: height / 10,
            needs_redraw: true,
        }
    }

    /// A check box with two states: unticked and ticked
    pub fn new_2_state(height: usize, text: String, unticked: B, ticked: B) -> (r: Self)
        ensures
            r.height == height,
            r.text == text,
            r.states@ == seq![unticked, ticked],
            r.checked == 0,
            r.margin == height / 10,
            r.needs_redraw,
    {
        let mut states: Vec<B> = Vec::new();
        states.push(unticked);
        states.push(ticked);
        CheckBox { height, text, checked: 0, states, margin: height / 10, needs_redraw: true }
    }

    /// A check box with three states: unticked, ticked and blocked
    pub fn new_3_state(height: usize, text: String, unticked: B, ticked: B, blocked: B) -> (r: Self)
        ensures
            r.height == height,
            r.text == text,
            r.states@ == seq![unticked, ticked, blocked],
            r.checked == 0,
            r.margin == height / 10,
            r.needs_redraw,
    {
        let mut states: Vec<B> = Vec::new();
        states.push(unticked);
        states.push(ticked);
        states.push(blocked);
        CheckBox { height, text, checked: 0, states, margin: height / 10, needs_redraw: true }
    }

    /// If the box is in any state but the first
    pub fn is_ticked(&self) -> (r: bool)
        ensures
            r == (self.checked != 0),
    {
        self.checked != 0
    }

    /// The height of the module
    pub fn get_height(&self) -> (r: i32)
        ensures
            r as int == coord(self.height),
    {
        #[verifier::truncate]
        let h = self.height as i32;
        h
    }

    /// React to the mouse: over the box a click moves to the next state (taking functional
    /// focus), hovering takes visual focus; nothing when focus was already taken
    pub fn update(&mut self, focus_taken: FocusTaken, mouse_pos: Option<(i32, i32)>, left_clicked: bool) -> (r: GuiOutput)
        requires
            ({
                let over = match mouse_pos {
                    Some(p) => rect_contains(0, 0, coord(old(self).height), coord(old(self).height), p),
                    None => false,
                };
                focus_taken == FocusTaken::FocusFree && over && left_clicked ==> {
                    &&& old(self).states@.len() > 0
                    &&& old(self).checked < usize::MAX
                }
            }),
        ensures
            ({
                let over = match mouse_pos {
                    Some(p) => rect_contains(0, 0, coord(old(self).height), coord(old(self).height), p),
                    None => false,
                };
                if focus_taken != FocusTaken::FocusFree || !over {
                    &&& r@ == output_with_focus(FocusTaken::FocusFree)
                    &&& *final(self) == *old(self)
                } else if left_clicked {
                    &&& r@ == GuiOutputView {
                        new_cursor_style: Some(CursorStyle::Pointer),
                        ..output_with_focus(FocusTaken::FunctionallyTaken)
                    }
                    &&& final(self).checked == (old(self).checked + 1) % (old(self).states@.len() as int)
                    &&& final(self).needs_redraw
                    &&& final(self).states == old(self).states && final(self).text == old(self).text
                    &&& final(self).height == old(self).height && final(self).margin == old(self).margin
                } else {
                    &&& r@ == GuiOutputView {
                        new_cursor_style: Some(CursorStyle::Pointer),
                        ..output_with_focus(FocusTaken::VisuallyTaken)
                    }
                    &&& *final(self) == *old(self)
                }
            }),
    {
        if focus_taken.is_focus_taken() {
            return GuiOutput::empty();
        }
        if let Some(p) = mouse_pos {
            let h = self.get_height();
            let collides = 0 <= p.0 && p.0 <= h && 0 <= p.1 && p.1 <= h;
            if collides {
                let focus = if left_clicked {
                    self.needs_redraw = true;
                    self.checked = (self.checked + 1) % self.states.len();
                    FocusTaken::FunctionallyTaken
                } else {
                    FocusTaken::VisuallyTaken
                };
                return GuiOutput::empty().with_cursor(CursorStyle::Pointer).set_focus_to(focus);
            }
        }
        GuiOutput::empty()
    }

    /// Report (once) that the module needs to be redrawn
    pub fn need_redraw(&mut self) -> (r: bool)
        ensures
            r == old(self).needs_redraw,
            !final(self).needs_redraw,
            final(self).checked == old(self).checked && final(self).states == old(self).states,
            final(self).text == old(self).text && final(self).height == old(self).height,
    {
        if self.needs_redraw {
            self.needs_redraw = false;
            true
        } else {
            false
        }
    }
}

} // verus!
