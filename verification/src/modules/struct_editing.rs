use vstd::prelude::*;
use crate::modules::widget::check_box::CheckBox;
use crate::modules::widget::text_input::{TextInput, ready_text, expand_tabs, join_lines};

verus! {

/// The editor of a `bool` field: a two-state check box that is ticked when the value is true
pub struct InspectBool<B> {
    /// The check box showing the value
    pub state: CheckBox<B>,
}

impl<B> InspectBool<B> {
    /// The editor of `value`: an untitled two-state box of the given height, in state 1
    /// when `value` is true and in state 0 otherwise
    pub fn new_from_value(value: bool, height: usize, unticked: B, ticked: B) -> (r: Self)
        ensures
            r.state.checked == (if value { 1usize } else { 0usize }),
            r.state.states@ == seq![unticked, ticked],
            r.state.height == height,
            r.state.text@ == Seq::<char>::empty(),
            r.state.needs_redraw,
    {
        let b = CheckBox::new_2_state(height, String::new(), unticked, ticked);
        let s: usize = if value { 1 } else { 0 };
        InspectBool { state: b.with_state(s) }
    }

    /// The name of the inspected type
    pub fn get_name(&self) -> (r: &'static str)
        ensures
            r@ == "bool"@,
    {
        "bool"
    }

    /// Take over the value shown by another editor of the same field, and ask for a redraw
    pub fn sync(&mut self, new: &InspectBool<B>)
        ensures
            final(self).state.checked == new.state.checked,
            final(self).state.needs_redraw,
            final(self).state.states == old(self).state.states,
            final(self).state.text == old(self).state.text,
            final(self).state.height == old(self).state.height,
            final(self).state.margin == old(self).state.margin,
    {
        self.state.checked = new.state.checked;
        self.state.needs_redraw = true;
    }
}

/// The editor of a `String` field: a single line text input three lines wide
pub struct InspectString {
    /// The text input showing the value
    pub state: TextInput,
}

impl InspectString {
    /// The editor of `value`, with tabs expanded to four spaces, lines of the given height,
    /// a width of three line heights and a limit of one line
    pub fn new_from_value(value: &str, height: usize) -> (r: Self)
        requires
            height * 3 <= usize::MAX,
        ensures
            join_lines(r.state.lines()) == expand_tabs(value@, 4),
            r.state.line_height == height,
            r.state.width == height * 3,
            r.state.max_lines == 1,
            r.state.current_state == 0,
            r.state.last_states@.len() == 0,
    {
        let text = ready_text(value, 4);
        InspectString { state: TextInput::new(height, height * 3, 1, Some(text)) }
    }

    /// The name of the inspected type
    pub fn get_name(&self) -> (r: &'static str)
        ensures
            r@ == "String"@,
    {
        "String"
    }

    /// Take over everything another editor of the same field holds
    pub fn sync(&mut self, new: InspectString)
        ensures
            *final(self) == new,
    {
        *self = new;
    }
}

} // verus!
