use vstd::prelude::*;

verus! {

/// A text shown as it is
pub struct TextDisplay {
    /// The text
    pub text: String,
    /// If the module needs to be redrawn
    pub needs_redraw: bool,
}

/// If two strings hold the same characters
pub(crate) fn same_text(a: &str, b: &str) -> (r: bool)
    ensures
        r == (a@ == b@),
{
    let x = crate::modules::widget::text_support::chars_of(a);
    let y = crate::modules::widget::text_support::chars_of(b);
    if x.len() != y.len() {
        return false;
    }
    let mut i: usize = 0;
    while i < x.len()
        invariant
            x@ == a@,
            y@ == b@,
            x@.len() == y@.len(),
            i <= x@.len(),
            forall|j: int| 0 <= j < i ==> x@[j] == y@[j],
        decreases x.len() - i,
    {
        if x[i] != y[i] {
            assert(x@[i as int] != y@[i as int]);
            return false;
        }
        i = i + 1;
    }
    assert(x@ =~= y@);
    true
}

impl TextDisplay {
    /// Show the given text
    pub fn new(text: &str) -> (r: Self)
        ensures
            r.text@ == text@,
            r.needs_redraw,
    {
        TextDisplay { text: text.to_owned(), needs_redraw: true }
    }

    /// Show another text; only a different text asks for a redraw
    pub fn set_text(&mut self, text: String)
        ensures
            final(self).text@ == text@,
            final(self).needs_redraw == (old(self).needs_redraw || text@ != old(self).text@),
    {
        if !same_text(text.as_str(), self.text.as_str()) {
            self.text = text;
            self.needs_redraw = true;
        }
    }

    /// Report (once) that the module needs to be redrawn
    pub fn need_redraw(&mut self) -> (r: bool)
        ensures
            r == old(self).needs_redraw,
            !final(self).needs_redraw,
            final(self).text == old(self).text,
    {
        if self.needs_redraw {
            self.needs_redraw = false;
            true
        } else {
            false
        }
    }
}

} // verus!
