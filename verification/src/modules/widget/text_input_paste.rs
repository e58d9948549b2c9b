use vstd::prelude::*;
use crate::modules::widget::text_input::{
    Caret, KeyInput, TextInput, keys_view, state_after_empty_line, typed,
};

verus! {

/// The lines and the carets of a text input
pub type TextView = (Seq<Seq<char>>, Seq<Caret>);

/// The keys of every pasted line as mathematical values
pub open spec fn pasted_keys(lines: Seq<Vec<KeyInput>>) -> Seq<Seq<(u32, Option<Seq<char>>)>> {
    lines.map_values(|v: Vec<KeyInput>| keys_view(v@))
}

impl TextInput {
    /// One pasted line: the keys are typed at the first caret, then an empty line (holding
    /// the retained indent) is put below it when the line limit allows one
    pub open spec fn paste_step(&self, s: TextView, keys: Seq<(u32, Option<Seq<char>>)>, uppercase: bool) -> TextView {
        let c = s.1[0];
        let (l, col) = typed(s.0[c.line as int], c.column as int, keys, uppercase, self.blacklist@, self.blacklist_is_whitelist);
        let lines = s.0.update(c.line as int, l);
        let carets = s.1.update(0, Caret { column: col as usize, ..c });
        if lines.len() < self.max_lines {
            state_after_empty_line(lines, carets, 0, self.retain_indent, self.indent_char)
        } else {
            (lines, carets)
        }
    }

    /// The lines and carets after pasting the given lines, one after the other
    pub open spec fn pasted(&self, s: TextView, lines: Seq<Seq<(u32, Option<Seq<char>>)>>, uppercase: bool) -> TextView
        decreases lines.len(),
    {
        if lines.len() == 0 {
            s
        } else {
            self.pasted(self.paste_step(s, lines[0], uppercase), lines.skip(1), uppercase)
        }
    }

    /// Every pasted line starts on an existing line, and its columns fit in a `usize`
    pub open spec fn paste_fits(&self, s: TextView, lines: Seq<Seq<(u32, Option<Seq<char>>)>>, uppercase: bool) -> bool
        decreases lines.len(),
    {
        lines.len() == 0 || {
            &&& s.1.len() > 0
            &&& s.1[0].line < s.0.len()
            &&& s.1[0].column + lines[0].len() <= usize::MAX
            &&& self.paste_fits(self.paste_step(s, lines[0], uppercase), lines.skip(1), uppercase)
        }
    }

    /// Paste a list of lines at the first caret: each one is typed, then followed by a new
    /// line (while the line limit allows one)
    pub fn paste_lines(&mut self, lines: &Vec<Vec<KeyInput>>, uppercase: bool)
        requires
            old(self).paste_fits((old(self).lines(), old(self).caret@), pasted_keys(lines@), uppercase),
        ensures
            final(self).same_settings(old(self)),
            (final(self).lines(), final(self).caret@)
                == old(self).pasted((old(self).lines(), old(self).caret@), pasted_keys(lines@), uppercase),
    {
        let ghost kv = pasted_keys(lines@);
        let ghost start: TextView = (self.lines(), self.caret@);
        let mut i: usize = 0;
        assert(kv.skip(0) =~= kv);
        while i < lines.len()
            invariant
                0 <= i <= lines@.len(),
                kv == pasted_keys(lines@),
                self.same_settings(old(self)),
                old(self).paste_fits((self.lines(), self.caret@), kv.skip(i as int), uppercase),
                old(self).pasted((self.lines(), self.caret@), kv.skip(i as int), uppercase)
                    == old(self).pasted(start, kv, uppercase),
                start == (old(self).lines(), old(self).caret@),
            decreases lines.len() - i,
        {
            let ghost s0: TextView = (self.lines(), self.caret@);
            proof {
                assert(kv.skip(i as int)[0] == kv[i as int]);
                assert(kv.skip(i as int).skip(1) =~= kv.skip(i + 1));
                assert(kv[i as int] == keys_view(lines@[i as int]@));
            }
            self.write(&lines[i], uppercase, 0);
            self.new_line_without_shifting(0);
            proof {
                assert((self.lines(), self.caret@) == old(self).paste_step(s0, kv[i as int], uppercase));
            }
            i = i + 1;
        }
        assert(kv.skip(i as int).len() == 0);
    }
}

} // verus!
