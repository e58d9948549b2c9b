use vstd::prelude::*;
use vstd::arithmetic::div_mod::{lemma_fundamental_div_mod, lemma_mod_bound, lemma_mod_multiples_basic};
use crate::output::ClipboardData;
use crate::modules::widget::text_support::{
    CharacterType, char_type_spec, chars_of, concat_chars, contains_code, get_char_type,
    lowercase_of, repeat_char, skip_chars, skip_upto, string_of, take_chars, take_upto,
    to_lowercase_string, to_uppercase_string, uppercase_of,
};

verus! {

#[derive(Debug, Clone, Copy, PartialEq, Eq, Structural, Hash)]
/// A 2d position in a text: the line and the column inside that line
pub struct TextPosition {
    /// Vertical
    pub line: usize,
    /// Horizontal
    pub column: usize,
}

/// `a` comes strictly before `b`: an earlier line, or the same line and an earlier column
pub open spec fn pos_lt(a: TextPosition, b: TextPosition) -> bool {
    a.line < b.line || (a.line == b.line && a.column < b.column)
}

impl TextPosition {
    /// Create a position
    pub fn new(line: usize, column: usize) -> (r: Self)
        ensures
            r.line == line,
            r.column == column,
    {
        TextPosition { line, column }
    }

    /// If this position comes strictly before the other one
    pub fn is_before(&self, other: &Self) -> (r: bool)
        ensures
            r == pos_lt(*self, *other),
    {
        self.line < other.line || (self.line == other.line && self.column < other.column)
    }
}

#[derive(Debug, Clone, Copy, PartialEq, Eq, Structural, Hash)]
/// The position of a caret
pub struct Caret {
    /// Vertical
    pub line: usize,
    /// Horizontal
    pub column: usize,
    /// The origin of the highlight
    pub highlight_pos: TextPosition,
    /// If highlight is active
    pub highlight_enabled: bool,
    /// When moving vertically into a line with less characters, the "current" column position is forgotten. This variable is used to remember the last horizontal progress
    pub retain_column: Option<TextPosition>,
    /// Used for retaining the last largest horizontal positioning
    pub last_pos: TextPosition,
}

/// The position a caret is at
pub open spec fn caret_pos(c: Caret) -> TextPosition {
    TextPosition { line: c.line, column: c.column }
}

/// A caret at the given place, with no highlight and no retained column
pub open spec fn fresh_caret(line: usize, column: usize) -> Caret {
    Caret {
        line,
        column,
        highlight_pos: TextPosition { line: 0, column: 0 },
        highlight_enabled: false,
        retain_column: None,
        last_pos: TextPosition { line: 0, column: 0 },
    }
}

impl Default for Caret {
    fn default() -> (r: Self)
        ensures
            r == fresh_caret(0, 0),
    {
        Caret::new(0, 0)
    }
}

impl Caret {
    /// A caret at the given line and column
    pub fn new(line: usize, column: usize) -> (r: Self)
        ensures
            r == fresh_caret(line, column),
    {
        Caret {
            line,
            column,
            highlight_pos: TextPosition { line: 0, column: 0 },
            highlight_enabled: false,
            retain_column: None,
            last_pos: TextPosition { line: 0, column: 0 },
        }
    }

    /// Set the highlight position to the current if there is no highlight
    pub fn enable_highlight(&mut self)
        ensures
            *final(self) == if old(self).highlight_enabled {
                *old(self)
            } else {
                Caret { highlight_enabled: true, highlight_pos: caret_pos(*old(self)), ..*old(self) }
            },
    {
        if !self.highlight_enabled {
            self.highlight_enabled = true;
            self.highlight_pos = self.to_position();
        }
    }

    /// Set the origin of the highlight to the current position
    pub fn set_highlight_origin_to_current_pos(&mut self)
        ensures
            *final(self) == (Caret { highlight_pos: caret_pos(*old(self)), ..*old(self) }),
    {
        self.highlight_pos = self.to_position();
    }

    /// Get if the cursor is highlighting something
    pub fn is_highlighting(&self) -> (r: bool)
        ensures
            r == self.highlight_enabled,
    {
        self.highlight_enabled
    }

    /// Disable the highlight
    pub fn reset_highlighted(&mut self)
        ensures
            *final(self) == (Caret { highlight_enabled: false, ..*old(self) }),
    {
        self.highlight_enabled = false;
    }

    /// The position the caret is at
    pub fn to_position(&self) -> (r: TextPosition)
        ensures
            r == caret_pos(*self),
    {
        TextPosition { line: self.line, column: self.column }
    }

    /// Set the current position to the given position
    pub fn move_to_pos(&mut self, position: TextPosition)
        ensures
            *final(self) == (Caret { line: position.line, column: position.column, ..*old(self) }),
    {
        self.line = position.line;
        self.column = position.column;
    }

    /// Get the highlighted area as 2 positions: the origin of the highlight and the caret
    pub fn get_highlighted_area(&self) -> (r: (TextPosition, TextPosition))
        ensures
            r == (self.highlight_pos, caret_pos(*self)),
    {
        (self.highlight_pos, self.to_position())
    }

    /// Get the current line
    pub fn line(&self) -> (r: usize)
        ensures
            r == self.line,
    {
        self.line
    }

    /// Get the current column
    pub fn column(&self) -> (r: usize)
        ensures
            r == self.column,
    {
        self.column
    }
}

#[derive(Debug, Clone, Copy, PartialEq, Eq, Structural)]
/// Available menus
pub enum TextInputMenu {
    /// No menu open
    Closed,
    /// Search for a string
    Search,
    /// Search and replace
    Replace,
    /// Go to the specified line
    SkipToLine,
}

/// A snapshot of the text and the carets, used for undo/redo
pub type TextState = (Vec<String>, Vec<Caret>);

/// A multi line text input: the text, the carets, and the undo history
pub struct TextInput {
    /// The width of the writeable section + line counter
    pub width: usize,
    /// The height of individual lines
    pub line_height: usize,
    /// How many lines are allowed
    pub max_lines: usize,
    /// The text the input contains, one string per line
    pub text: Vec<String>,
    /// If the module needs to be redrawn
    pub needs_redraw: bool,
    /// The container the input is selected in (0 when not selected)
    pub selected: usize,
    /// The carets; every editing action works on the first one
    pub caret: Vec<Caret>,
    /// When at the front of a string, should pressing backspace allow you to delete what is behind?
    pub remove_behind: bool,
    /// Last text states allowing for undo/redo
    pub last_states: Vec<TextState>,
    /// The index of the current state in `last_states`
    pub current_state: usize,
    /// What text should be displayed when no text is written
    pub placeholder_text: String,
    /// If you can select the input field
    pub read_only: bool,
    /// How big an "indent" is
    pub indent_length: usize,
    /// What an indent is
    pub indent_char: char,
    /// Lets the caret wrap around from the start to the end/end to the start
    pub allow_caret_wrap: bool,
    /// How much space is reserved for the line number
    pub line_number_offset: usize,
    /// When in overwrite mode, instead of inserting characters, characters that already exist will be overwritten
    pub overwrite_mode: bool,
    /// If the whitespace at the start of a previous line should be conserved on a new line
    pub retain_indent: bool,
    /// What menu is currently open
    pub menu_open: TextInputMenu,
    /// If the line number should be shown
    pub show_line_numbers: bool,
    /// The key codes that are/aren't allowed
    pub blacklist: Vec<u32>,
    /// If the purpose of the blacklist should be inverted
    pub blacklist_is_whitelist: bool,
}

/// The lines of a text as character sequences
pub open spec fn lines_of(text: Seq<String>) -> Seq<Seq<char>> {
    text.map_values(|s: String| s@)
}

/// `min(a, b)` on integers
pub open spec fn min_usize(a: usize, b: usize) -> usize {
    if a <= b { a } else { b }
}

/// The index of the last line (0 for an empty text)
pub open spec fn last_line_idx(lines: Seq<Seq<char>>) -> usize {
    if lines.len() == 0 { 0 } else { (lines.len() - 1) as usize }
}

/// A line index clamped to the last line
pub open spec fn clamp_line(lines: Seq<Seq<char>>, line: usize) -> usize {
    min_usize(last_line_idx(lines), line)
}

/// A column clamped to the length of the (clamped) line
pub open spec fn clamp_col(lines: Seq<Seq<char>>, line: usize, column: usize) -> usize {
    min_usize(lines[clamp_line(lines, line) as int].len() as usize, column)
}

/// The caret after remembering where it came from: when it returns to where it was last
/// placed by a vertical move, the retained column is restored (clamped to the line)
pub open spec fn restored_caret(lines: Seq<Seq<char>>, c: Caret, last_pos: TextPosition) -> Option<Caret> {
    match c.retain_column {
        Some(highest) => if c.last_pos == last_pos {
            let col = clamp_col(lines, c.line, highest.column);
            Some(Caret { column: col, last_pos: TextPosition { line: c.line, column: col }, ..c })
        } else {
            None
        },
        None => None,
    }
}

/// The caret after a vertical move has landed on `c.line`: either the retained column is
/// restored, or the current position is retained and the column clamped to the line
pub open spec fn land_vertically(lines: Seq<Seq<char>>, c: Caret, pos: TextPosition) -> Caret {
    match restored_caret(lines, c, pos) {
        Some(r) => r,
        None => {
            let col = clamp_col(lines, c.line, c.column);
            Caret {
                retain_column: Some(caret_pos(c)),
                column: col,
                last_pos: TextPosition { line: c.line, column: col },
                ..c
            }
        },
    }
}

/// The caret moved one line up: at the top it goes to the start of the line
pub open spec fn caret_up(lines: Seq<Seq<char>>, c: Caret) -> Caret {
    if c.line == 0 {
        Caret { column: 0, ..c }
    } else {
        land_vertically(lines, Caret { line: (c.line - 1) as usize, ..c }, caret_pos(c))
    }
}

/// The caret moved one line down: at the bottom it goes to the end of the line
pub open spec fn caret_down(lines: Seq<Seq<char>>, c: Caret) -> Caret {
    let nl = clamp_line(lines, (c.line + 1) as usize);
    if nl == c.line {
        Caret { column: lines[c.line as int].len() as usize, ..c }
    } else {
        land_vertically(lines, Caret { line: nl, ..c }, caret_pos(c))
    }
}

/// The caret moved one column right: a highlight collapses to its later end, the end of a
/// line continues on the next line, the end of the text wraps to the start if allowed
pub open spec fn caret_right(lines: Seq<Seq<char>>, c: Caret, wrap: bool) -> Caret {
    if c.highlight_enabled {
        let p = if pos_lt(c.highlight_pos, caret_pos(c)) { caret_pos(c) } else { c.highlight_pos };
        Caret { line: p.line, column: p.column, ..c }
    } else if c.column == lines[c.line as int].len() {
        if c.line == last_line_idx(lines) {
            if wrap { Caret { line: 0, column: 0, ..c } } else { c }
        } else {
            Caret { line: clamp_line(lines, (c.line + 1) as usize), column: 0, ..c }
        }
    } else {
        Caret { column: (c.column + 1) as usize, ..c }
    }
}

/// The caret moved one column left: a highlight collapses to its earlier end, the start of a
/// line continues at the end of the previous line, the start of the text wraps to the end if allowed
pub open spec fn caret_left(lines: Seq<Seq<char>>, c: Caret, wrap: bool) -> Caret {
    if c.highlight_enabled {
        let p = if pos_lt(caret_pos(c), c.highlight_pos) { caret_pos(c) } else { c.highlight_pos };
        Caret { line: p.line, column: p.column, ..c }
    } else if c.column == 0 {
        if c.line == 0 {
            if wrap {
                let l = last_line_idx(lines);
                Caret { line: l, column: lines[l as int].len() as usize, ..c }
            } else {
                c
            }
        } else {
            let l = (c.line - 1) as usize;
            Caret { line: l, column: lines[l as int].len() as usize, ..c }
        }
    } else {
        Caret { column: (c.column - 1) as usize, ..c }
    }
}

/// With a highlight, one step right puts the caret at the later end of the highlight and one
/// step left at the earlier end, in text order: the caret lands on one of the two ends, and
/// not before (right) or after (left) either of them
pub proof fn lemma_highlight_steps_go_to_its_ends(lines: Seq<Seq<char>>, c: Caret, wrap: bool)
    requires
        c.highlight_enabled,
    ensures
        ({
            let r = caret_right(lines, c, wrap);
            let h = c.highlight_pos;
            &&& (r.line == h.line && r.column == h.column) || (r.line == c.line && r.column == c.column)
            &&& r.line > h.line || (r.line == h.line && r.column >= h.column)
            &&& r.line > c.line || (r.line == c.line && r.column >= c.column)
        }),
        ({
            let l = caret_left(lines, c, wrap);
            let h = c.highlight_pos;
            &&& (l.line == h.line && l.column == h.column) || (l.line == c.line && l.column == c.column)
            &&& l.line < h.line || (l.line == h.line && l.column <= h.column)
            &&& l.line < c.line || (l.line == c.line && l.column <= c.column)
        }),
{
}

/// Without a highlight, a step left and then a step right bring a caret inside the text back
/// to where it was (unless it was at the very start of the text), and a step right and then a
/// step left bring it back (unless it was at the very end of the text)
pub proof fn lemma_steps_left_and_right_undo_each_other(lines: Seq<Seq<char>>, c: Caret, wrap: bool)
    requires
        !c.highlight_enabled,
        c.line < lines.len(),
        c.column <= lines[c.line as int].len(),
        lines.len() <= usize::MAX,
        forall|i: int| 0 <= i < lines.len() ==> (#[trigger] lines[i]).len() <= usize::MAX,
    ensures
        c.line != 0 || c.column != 0 ==> caret_right(lines, caret_left(lines, c, wrap), wrap) == c,
        c.line != lines.len() - 1 || c.column != lines[c.line as int].len() ==> caret_left(lines, caret_right(lines, c, wrap), wrap) == c,
{
}

/// The caret lies inside the text: on an existing line, at most at its end
pub open spec fn caret_in_text(lines: Seq<Seq<char>>, c: Caret) -> bool {
    c.line < lines.len() && c.column <= lines[c.line as int].len()
}

impl TextInput {
    /// The lines of the text as character sequences
    pub open spec fn lines(&self) -> Seq<Seq<char>> {
        lines_of(self.text@)
    }

    /// Everything but the text and the carets is the same in both inputs
    pub open spec fn same_settings(&self, other: &TextInput) -> bool {
        &&& self.width == other.width
        &&& self.line_height == other.line_height
        &&& self.max_lines == other.max_lines
        &&& self.needs_redraw == other.needs_redraw
        &&& self.selected == other.selected
        &&& self.remove_behind == other.remove_behind
        &&& self.last_states == other.last_states
        &&& self.current_state == other.current_state
        &&& self.placeholder_text == other.placeholder_text
        &&& self.read_only == other.read_only
        &&& self.indent_length == other.indent_length
        &&& self.indent_char == other.indent_char
        &&& self.allow_caret_wrap == other.allow_caret_wrap
        &&& self.line_number_offset == other.line_number_offset
        &&& self.overwrite_mode == other.overwrite_mode
        &&& self.retain_indent == other.retain_indent
        &&& self.menu_open == other.menu_open
        &&& self.show_line_numbers == other.show_line_numbers
        &&& self.blacklist == other.blacklist
        &&& self.blacklist_is_whitelist == other.blacklist_is_whitelist
    }

    /// Only the caret `idx` changed, to `c`
    pub open spec fn only_caret_changed(&self, old: &TextInput, idx: int, c: Caret) -> bool {
        &&& self.same_settings(old)
        &&& self.text == old.text
        &&& self.caret@ == old.caret@.update(idx, c)
    }

    /// The caret `idx` exists and lies inside the text
    pub open spec fn caret_valid(&self, idx: int) -> bool {
        0 <= idx < self.caret@.len() && caret_in_text(self.lines(), self.caret@[idx])
    }

    /// Get the length of a line in characters
    pub fn get_line_length(&self, line: usize) -> (r: usize)
        requires
            line < self.text@.len(),
        ensures
            r == self.lines()[line as int].len(),
    {
        let v = chars_of(self.text[line].as_str());
        v.len()
    }

    /// The index of the last line (0 for an empty text)
    pub fn line_count_idx(&self) -> (r: usize)
        ensures
            r == last_line_idx(self.lines()),
    {
        if self.text.len() == 0 { 0 } else { self.text.len() - 1 }
    }

    /// Clamp a value to the line count
    pub fn clamp_to_line_count(&self, other: usize) -> (r: usize)
        ensures
            r == clamp_line(self.lines(), other),
    {
        let l = self.line_count_idx();
        if l <= other { l } else { other }
    }

    /// Clamp a value to the column of the specified line
    pub fn clamp_to_column(&self, line: usize, column: usize) -> (r: usize)
        requires
            self.text@.len() >= 1,
        ensures
            r == clamp_col(self.lines(), line, column),
    {
        let l = self.clamp_to_line_count(line);
        let len = self.get_line_length(l);
        if len <= column { len } else { column }
    }

    /// Get a single character from line, column
    pub fn get_character(&self, line: usize, column: usize) -> (r: Option<char>)
        requires
            line < self.text@.len(),
        ensures
            r == if column < self.lines()[line as int].len() {
                Some(self.lines()[line as int][column as int])
            } else {
                None
            },
    {
        let v = chars_of(self.text[line].as_str());
        if column < v.len() { Some(v[column]) } else { None }
    }

    /// Split a line at the given column and return both parts
    pub fn split_line(&self, line: usize, idx: usize) -> (r: (String, String))
        requires
            line < self.text@.len(),
        ensures
            r.0@ == take_upto(self.lines()[line as int], idx as int),
            r.1@ == skip_upto(self.lines()[line as int], idx as int),
    {
        let v = chars_of(self.text[line].as_str());
        let before = take_chars(&v, idx);
        let after = skip_chars(&v, idx);
        (string_of(before.as_slice()), string_of(after.as_slice()))
    }
}


/// Two caret changes of the same caret in a row are one caret change
pub proof fn lemma_caret_change_chain(a: &TextInput, b: &TextInput, c: &TextInput, idx: int, c1: Caret, c2: Caret)
    requires
        0 <= idx < a.caret@.len(),
        b.only_caret_changed(a, idx, c1),
        c.only_caret_changed(b, idx, c2),
    ensures
        c.only_caret_changed(a, idx, c2),
{
    assert(c.caret@ =~= a.caret@.update(idx, c2));
}

/// Movement
impl TextInput {
    /// Replace the caret `idx`
    fn set_caret(&mut self, idx: usize, c: Caret)
        requires
            idx < old(self).caret@.len(),
        ensures
            final(self).only_caret_changed(old(self), idx as int, c),
    {
        self.caret.set(idx, c);
    }

    /// Sets the caret position to the end of the specified line
    pub fn move_to_end_of_line(&mut self, idx: usize, line: usize)
        requires
            idx < old(self).caret@.len(),
            line < old(self).text@.len(),
        ensures
            final(self).only_caret_changed(
                old(self),
                idx as int,
                Caret { line, column: old(self).lines()[line as int].len() as usize, ..old(self).caret@[idx as int] },
            ),
    {
        let mut c = self.caret[idx];
        c.line = line;
        c.column = self.get_line_length(line);
        self.set_caret(idx, c);
    }

    /// Move to the last character of the last line
    pub fn move_to_end_of_document(&mut self, idx: usize)
        requires
            idx < old(self).caret@.len(),
            old(self).text@.len() >= 1,
        ensures
            final(self).only_caret_changed(
                old(self),
                idx as int,
                Caret {
                    line: last_line_idx(old(self).lines()),
                    column: old(self).lines()[last_line_idx(old(self).lines()) as int].len() as usize,
                    ..old(self).caret@[idx as int]
                },
            ),
    {
        let l = self.line_count_idx();
        self.move_to_end_of_line(idx, l);
    }

    /// Sets the caret position to the end of the current line
    pub fn move_to_end_of_this_line(&mut self, idx: usize)
        requires
            idx < old(self).caret@.len(),
            old(self).caret@[idx as int].line < old(self).text@.len(),
        ensures
            final(self).only_caret_changed(
                old(self),
                idx as int,
                Caret {
                    column: old(self).lines()[old(self).caret@[idx as int].line as int].len() as usize,
                    ..old(self).caret@[idx as int]
                },
            ),
    {
        let mut c = self.caret[idx];
        c.column = self.get_line_length(c.line);
        self.set_caret(idx, c);
    }

    /// Sets the caret position to the start of the specified line
    pub fn move_to_start_of_line(&mut self, idx: usize, line: usize)
        requires
            idx < old(self).caret@.len(),
        ensures
            final(self).only_caret_changed(
                old(self),
                idx as int,
                Caret { line, column: 0, ..old(self).caret@[idx as int] },
            ),
    {
        let mut c = self.caret[idx];
        c.line = line;
        c.column = 0;
        self.set_caret(idx, c);
    }

    /// Sets the caret position to the start of the current line
    pub fn move_to_start_of_this_line(&mut self, idx: usize)
        requires
            idx < old(self).caret@.len(),
        ensures
            final(self).only_caret_changed(
                old(self),
                idx as int,
                Caret { column: 0, ..old(self).caret@[idx as int] },
            ),
    {
        let mut c = self.caret[idx];
        c.column = 0;
        self.set_caret(idx, c);
    }

    /// If a previous column position has been retained and the caret has not been moved
    /// since, restore that column (clamped to the current line)
    pub fn if_not_moved_restore_column(&mut self, last_pos: TextPosition, idx: usize) -> (r: bool)
        requires
            idx < old(self).caret@.len(),
            old(self).text@.len() >= 1,
        ensures
            r == restored_caret(old(self).lines(), old(self).caret@[idx as int], last_pos) is Some,
            final(self).only_caret_changed(
                old(self),
                idx as int,
                match restored_caret(old(self).lines(), old(self).caret@[idx as int], last_pos) {
                    Some(c) => c,
                    None => old(self).caret@[idx as int],
                },
            ),
    {
        let c = self.caret[idx];
        match c.retain_column {
            Some(highest) => {
                if c.last_pos == last_pos {
                    let col = self.clamp_to_column(c.line, highest.column);
                    let mut n = c;
                    n.column = col;
                    n.last_pos = TextPosition { line: c.line, column: col };
                    self.set_caret(idx, n);
                    true
                } else {
                    self.set_caret(idx, c);
                    false
                }
            },
            None => {
                self.set_caret(idx, c);
                false
            },
        }
    }

    /// The caret has been placed on a new line by a vertical move from `pos`:
    /// restore the retained column or retain this one
    fn land_caret(&mut self, idx: usize, pos: TextPosition)
        requires
            idx < old(self).caret@.len(),
            old(self).text@.len() >= 1,
        ensures
            final(self).only_caret_changed(
                old(self),
                idx as int,
                land_vertically(old(self).lines(), old(self).caret@[idx as int], pos),
            ),
    {
        let ghost s0 = *self;
        let restored = self.if_not_moved_restore_column(pos, idx);
        let ghost s1 = *self;
        if !restored {
            let mut c = self.caret[idx];
            c.retain_column = Some(c.to_position());
            c.column = self.clamp_to_column(c.line, c.column);
            c.last_pos = c.to_position();
            self.set_caret(idx, c);
            proof {
                lemma_caret_change_chain(&s0, &s1, self, idx as int, s0.caret@[idx as int], c);
            }
        }
    }

    /// Move the caret one line up (at the top: to the start of the line)
    pub fn move_up(&mut self, idx: usize)
        requires
            idx < old(self).caret@.len(),
            old(self).text@.len() >= 1,
        ensures
            final(self).only_caret_changed(
                old(self),
                idx as int,
                caret_up(old(self).lines(), old(self).caret@[idx as int]),
            ),
    {
        let pos = self.caret[idx].to_position();
        let previous = self.caret[idx].line;
        if previous == 0 {
            self.move_to_start_of_this_line(idx);
        } else {
            let ghost s0 = *self;
            let mut c = self.caret[idx];
            c.line = previous - 1;
            self.set_caret(idx, c);
            let ghost s1 = *self;
            self.land_caret(idx, pos);
            proof {
                lemma_caret_change_chain(&s0, &s1, self, idx as int, c, self.caret@[idx as int]);
            }
        }
    }

    /// Move the caret one line down (at the bottom: to the end of the line)
    pub fn move_down(&mut self, idx: usize)
        requires
            idx < old(self).caret@.len(),
            old(self).text@.len() >= 1,
            old(self).caret@[idx as int].line < usize::MAX,
        ensures
            final(self).only_caret_changed(
                old(self),
                idx as int,
                caret_down(old(self).lines(), old(self).caret@[idx as int]),
            ),
    {
        let pos = self.caret[idx].to_position();
        let previous = self.caret[idx].line;
        let nl = self.clamp_to_line_count(previous + 1);
        if nl == previous {
            self.move_to_end_of_this_line(idx);
        } else {
            let ghost s0 = *self;
            let mut c = self.caret[idx];
            c.line = nl;
            self.set_caret(idx, c);
            let ghost s1 = *self;
            self.land_caret(idx, pos);
            proof {
                lemma_caret_change_chain(&s0, &s1, self, idx as int, c, self.caret@[idx as int]);
            }
        }
    }

    /// Move the caret one space to the right
    pub fn move_right(&mut self, idx: usize)
        requires
            idx < old(self).caret@.len(),
            !old(self).caret@[idx as int].highlight_enabled ==> {
                &&& old(self).caret@[idx as int].line < old(self).text@.len()
                &&& old(self).caret@[idx as int].column < usize::MAX
            },
        ensures
            final(self).only_caret_changed(
                old(self),
                idx as int,
                caret_right(old(self).lines(), old(self).caret@[idx as int], old(self).allow_caret_wrap),
            ),
    {
        let mut c = self.caret[idx];
        if c.is_highlighting() {
            let pos1 = c.highlight_pos;
            let pos2 = c.to_position();
            if pos1.is_before(&pos2) {
                c.move_to_pos(pos2);
            } else {
                c.move_to_pos(pos1);
            }
        } else if c.column == self.get_line_length(c.line) {
            if c.line == self.line_count_idx() {
                if self.allow_caret_wrap {
                    c.column = 0;
                    c.line = 0;
                }
            } else {
                let n = self.text.len();
                assert(c.line < n);
                c.column = 0;
                c.line = self.clamp_to_line_count(c.line + 1);
            }
        } else {
            c.column = c.column + 1;
        }
        self.set_caret(idx, c);
    }

    /// Move the caret one space to the left
    pub fn move_left(&mut self, idx: usize)
        requires
            idx < old(self).caret@.len(),
            !old(self).caret@[idx as int].highlight_enabled && old(self).caret@[idx as int].column == 0 ==> {
                if old(self).caret@[idx as int].line == 0 {
                    old(self).allow_caret_wrap ==> old(self).text@.len() >= 1
                } else {
                    old(self).caret@[idx as int].line - 1 < old(self).text@.len()
                }
            },
        ensures
            final(self).only_caret_changed(
                old(self),
                idx as int,
                caret_left(old(self).lines(), old(self).caret@[idx as int], old(self).allow_caret_wrap),
            ),
    {
        let mut c = self.caret[idx];
        if c.is_highlighting() {
            let pos1 = c.highlight_pos;
            let pos2 = c.to_position();
            if pos2.is_before(&pos1) {
                c.move_to_pos(pos2);
            } else {
                c.move_to_pos(pos1);
            }
        } else if c.column == 0 {
            if c.line == 0 {
                if self.allow_caret_wrap {
                    c.line = self.line_count_idx();
                    c.column = self.get_line_length(c.line);
                }
            } else {
                c.line = c.line - 1;
                c.column = self.get_line_length(c.line);
            }
        } else {
            c.column = c.column - 1;
        }
        self.set_caret(idx, c);
    }

    /// Move the first caret up if it is at or under the given line (and not on the first line)
    pub fn move_caret_under_line_up(&mut self, line: usize)
        requires
            old(self).caret@.len() >= 1,
            old(self).text@.len() >= 1,
        ensures
            final(self).only_caret_changed(
                old(self),
                0,
                if old(self).caret@[0].line >= line && old(self).caret@[0].line != 0 {
                    caret_up(old(self).lines(), old(self).caret@[0])
                } else {
                    old(self).caret@[0]
                },
            ),
    {
        if self.caret[0].line() >= line && self.caret[0].line() != 0 {
            self.move_up(0);
        } else {
            let c = self.caret[0];
            self.set_caret(0, c);
        }
    }

    /// Move the first caret down if it is under the given line (and not on the first line)
    pub fn move_caret_under_line_down(&mut self, line: usize)
        requires
            old(self).caret@.len() >= 1,
            old(self).text@.len() >= 1,
            old(self).caret@[0].line < usize::MAX,
        ensures
            final(self).only_caret_changed(
                old(self),
                0,
                if old(self).caret@[0].line > line && old(self).caret@[0].line != 0 {
                    caret_down(old(self).lines(), old(self).caret@[0])
                } else {
                    old(self).caret@[0]
                },
            ),
    {
        if self.caret[0].line() > line && self.caret[0].line() != 0 {
            self.move_down(0);
        } else {
            let c = self.caret[0];
            self.set_caret(0, c);
        }
    }
}


/// A line with `s` inserted at column `idx` (appended when the line is shorter)
pub open spec fn insert_in_line(l: Seq<char>, idx: int, s: Seq<char>) -> Seq<char> {
    take_upto(l, idx) + s + skip_upto(l, idx)
}

/// A line with up to `amount` characters removed starting at column `pos`;
/// unchanged when `pos` is not inside the line
pub open spec fn remove_chars_at(l: Seq<char>, pos: int, amount: int) -> Seq<char> {
    if pos < l.len() {
        let end = if pos + amount <= l.len() { pos + amount } else { l.len() as int };
        l.subrange(0, pos) + l.subrange(end, l.len() as int)
    } else {
        l
    }
}

/// The first caret after a line at or above it has been removed
pub open spec fn caret_after_removal(lines: Seq<Seq<char>>, c: Caret, removed: usize) -> Caret {
    if c.line >= removed && c.line != 0 {
        caret_up(lines, c)
    } else {
        c
    }
}

/// The first caret after a line has been inserted above it
pub open spec fn caret_after_insertion(lines: Seq<Seq<char>>, c: Caret, inserted: usize) -> Caret {
    if c.line > inserted && c.line != 0 {
        caret_down(lines, c)
    } else {
        c
    }
}

/// The number of leading `c` characters of a line
pub open spec fn leading_count(l: Seq<char>, c: char) -> nat
    decreases l.len(),
{
    if l.len() > 0 && l[0] == c {
        1 + leading_count(l.subrange(1, l.len() as int), c)
    } else {
        0
    }
}

/// Text editing
impl TextInput {
    /// Replace a whole line
    fn set_line(&mut self, line: usize, content: String)
        requires
            line < old(self).text@.len(),
        ensures
            final(self).same_settings(old(self)),
            final(self).caret == old(self).caret,
            final(self).text@ == old(self).text@.update(line as int, content),
            final(self).lines() == old(self).lines().update(line as int, content@),
    {
        self.text.set(line, content);
        proof {
            assert(self.lines() =~= old(self).lines().update(line as int, content@));
        }
    }

    /// Insert a string into the middle of a line
    pub fn insert_string_into_line(&mut self, line: usize, idx: usize, string: &str)
        requires
            line < old(self).text@.len(),
        ensures
            final(self).same_settings(old(self)),
            final(self).caret == old(self).caret,
            final(self).lines() == old(self).lines().update(
                line as int,
                insert_in_line(old(self).lines()[line as int], idx as int, string@),
            ),
    {
        let v = chars_of(self.text[line].as_str());
        let before = take_chars(&v, idx);
        let after = skip_chars(&v, idx);
        let middle = chars_of(string);
        let joined = concat_chars(&concat_chars(&before, &middle), &after);
        self.set_line(line, string_of(joined.as_slice()));
    }

    /// Remove up to `amount` characters from a line, starting at column `idx`
    pub fn remove_chars_from_line(&mut self, line: usize, idx: usize, amount: usize)
        requires
            line < old(self).text@.len(),
            idx < old(self).lines()[line as int].len() ==> idx + amount <= usize::MAX,
        ensures
            final(self).same_settings(old(self)),
            final(self).caret == old(self).caret,
            final(self).lines() == old(self).lines().update(
                line as int,
                remove_chars_at(old(self).lines()[line as int], idx as int, amount as int),
            ),
    {
        let v = chars_of(self.text[line].as_str());
        let len = v.len();
        if idx < len {
            let end = if idx + amount <= len { idx + amount } else { len };
            let before = take_chars(&v, idx);
            let after = skip_chars(&v, end);
            let joined = concat_chars(&before, &after);
            self.set_line(line, string_of(joined.as_slice()));
        } else {
            proof {
                assert(self.lines().update(line as int, self.lines()[line as int]) =~= self.lines());
            }
        }
    }

    /// Deletes a line and moves the first caret up if it was at or below it
    pub fn remove_line(&mut self, line: usize)
        requires
            line < old(self).text@.len(),
            old(self).caret@.len() >= 1,
            !(old(self).text@.len() == 1 && old(self).caret@[0].line != 0),
        ensures
            final(self).same_settings(old(self)),
            final(self).lines() == old(self).lines().remove(line as int),
            final(self).caret@ == old(self).caret@.update(
                0,
                caret_after_removal(old(self).lines().remove(line as int), old(self).caret@[0], line),
            ),
    {
        let ghost s0 = *self;
        self.text.remove(line);
        proof {
            assert(self.lines() =~= s0.lines().remove(line as int));
        }
        if self.caret[0].line() >= line && self.caret[0].line() != 0 {
            self.move_up(0);
        }
    }

    /// Joins together this and the other line -> the other line will be consumed
    pub fn merge_lines(&mut self, line: usize, other: usize)
        requires
            line < old(self).text@.len(),
            other < old(self).text@.len(),
            old(self).caret@.len() >= 1,
        ensures
            final(self).same_settings(old(self)),
            line == other ==> final(self).lines() == old(self).lines() && final(self).caret == old(self).caret,
            line != other ==> {
                let merged = old(self).lines().update(
                    line as int,
                    old(self).lines()[line as int] + old(self).lines()[other as int],
                ).remove(other as int);
                &&& final(self).lines() == merged
                &&& final(self).caret@ == old(self).caret@.update(
                    0,
                    caret_after_removal(merged, old(self).caret@[0], other),
                )
            },
    {
        if line == other {
            return;
        }
        let a = chars_of(self.text[line].as_str());
        let b = chars_of(self.text[other].as_str());
        let joined = concat_chars(&a, &b);
        self.set_line(line, string_of(joined.as_slice()));
        let ghost s1 = *self;
        self.text.remove(other);
        proof {
            assert(self.lines() =~= s1.lines().remove(other as int));
        }
        if self.caret[0].line() >= other && self.caret[0].line() != 0 {
            self.move_up(0);
        }
    }

    /// Swap the position of the first caret between two lines
    pub fn swap_caret_position(&mut self, line1: usize, line2: usize)
        requires
            old(self).caret@.len() >= 1,
        ensures
            final(self).only_caret_changed(
                old(self),
                0,
                if old(self).caret@[0].line == line1 {
                    Caret { line: line2, ..old(self).caret@[0] }
                } else if old(self).caret@[0].line == line2 {
                    Caret { line: line1, ..old(self).caret@[0] }
                } else {
                    old(self).caret@[0]
                },
            ),
    {
        let mut c = self.caret[0];
        if c.line == line1 {
            c.line = line2;
        } else if c.line == line2 {
            c.line = line1;
        }
        self.set_caret(0, c);
    }

    /// Swap the position of 2 lines (the first caret moves with its line)
    pub fn swap_lines(&mut self, line1: usize, line2: usize)
        requires
            line1 < old(self).text@.len(),
            line2 < old(self).text@.len(),
            old(self).caret@.len() >= 1,
        ensures
            final(self).same_settings(old(self)),
            final(self).lines() == old(self).lines().update(line1 as int, old(self).lines()[line2 as int]).update(
                line2 as int,
                old(self).lines()[line1 as int],
            ),
            final(self).caret@ == old(self).caret@.update(
                0,
                if old(self).caret@[0].line == line1 {
                    Caret { line: line2, ..old(self).caret@[0] }
                } else if old(self).caret@[0].line == line2 {
                    Caret { line: line1, ..old(self).caret@[0] }
                } else {
                    old(self).caret@[0]
                },
            ),
    {
        let ghost s0 = *self;
        let a = self.text[line1].clone();
        let b = self.text[line2].clone();
        self.text.set(line1, b);
        self.text.set(line2, a);
        proof {
            assert(self.lines() =~= s0.lines().update(line1 as int, s0.lines()[line2 as int]).update(
                line2 as int,
                s0.lines()[line1 as int],
            ));
        }
        self.swap_caret_position(line1, line2);
    }

    /// Insert a text line and move the first caret down if it is under it;
    /// fails (returning false, changing nothing) when the maximum line count is reached
    pub fn insert_line(&mut self, line_idx: usize, line_content: String) -> (r: bool)
        requires
            old(self).text@.len() < old(self).max_lines ==> line_idx <= old(self).text@.len(),
            old(self).caret@.len() >= 1,
            old(self).caret@[0].line < usize::MAX,
        ensures
            final(self).same_settings(old(self)),
            r == (old(self).text@.len() < old(self).max_lines),
            !r ==> final(self).text == old(self).text && final(self).caret == old(self).caret,
            r ==> {
                let inserted = old(self).lines().insert(line_idx as int, line_content@);
                &&& final(self).lines() == inserted
                &&& final(self).caret@ == old(self).caret@.update(
                    0,
                    caret_after_insertion(inserted, old(self).caret@[0], line_idx),
                )
            },
    {
        if self.text.len() >= self.max_lines {
            return false;
        }
        let ghost s0 = *self;
        self.text.insert(line_idx, line_content);
        proof {
            assert(self.lines() =~= s0.lines().insert(line_idx as int, line_content@));
        }
        if self.caret[0].line() > line_idx && self.caret[0].line() != 0 {
            self.move_down(0);
        }
        true
    }

    /// Get the number of indent characters at the start of a line
    pub fn get_line_indent(&self, line: usize) -> (r: usize)
        requires
            line < self.text@.len(),
        ensures
            r == leading_count(self.lines()[line as int], self.indent_char),
    {
        let v = chars_of(self.text[line].as_str());
        let mut amount: usize = 0;
        assert(v@.subrange(0, v@.len() as int) =~= v@);
        while amount < v.len() && v[amount] == self.indent_char
            invariant
                amount <= v@.len(),
                leading_count(v@, self.indent_char) == amount + leading_count(
                    v@.subrange(amount as int, v@.len() as int),
                    self.indent_char,
                ),
            decreases v.len() - amount,
        {
            proof {
                let rest = v@.subrange(amount as int, v@.len() as int);
                assert(rest.subrange(1, rest.len() as int) =~= v@.subrange(amount + 1, v@.len() as int));
            }
            amount = amount + 1;
        }
        proof {
            let rest = v@.subrange(amount as int, v@.len() as int);
            assert(v@.subrange(0, v@.len() as int) =~= v@);
        }
        amount
    }
}


/// The area between two positions in text order: first line, last line, first column, last column
pub open spec fn area_bounds(p: (TextPosition, TextPosition)) -> (usize, usize, usize, usize) {
    let head = p.0;
    let tail = p.1;
    if head.line > tail.line {
        (tail.line, head.line, tail.column, head.column)
    } else if tail.line > head.line || tail.column > head.column {
        (head.line, tail.line, head.column, tail.column)
    } else {
        (head.line, tail.line, tail.column, head.column)
    }
}

/// The area covers no character at all
pub open spec fn area_is_empty(p: (TextPosition, TextPosition)) -> bool {
    let (ls, le, fp, bp) = area_bounds(p);
    ls == le && fp == bp
}

/// The area lies inside the text: its lines exist, and its columns are inside their lines
pub open spec fn area_in_text(lines: Seq<Seq<char>>, p: (TextPosition, TextPosition)) -> bool {
    let (ls, le, fp, bp) = area_bounds(p);
    &&& le < lines.len()
    &&& fp <= lines[ls as int].len()
    &&& bp <= lines[le as int].len()
}

/// The lines with the area removed: the start of its first line joined with the rest of its last line
pub open spec fn lines_without_area(lines: Seq<Seq<char>>, p: (TextPosition, TextPosition)) -> Seq<Seq<char>> {
    let (ls, le, fp, bp) = area_bounds(p);
    if ls == le && fp == bp {
        lines
    } else if ls == le {
        lines.update(ls as int, lines[ls as int].subrange(0, fp as int) + lines[ls as int].subrange(bp as int, lines[ls as int].len() as int))
    } else {
        let joined = take_upto(lines[ls as int], fp as int) + skip_upto(lines[le as int], bp as int);
        lines.subrange(0, ls as int).push(joined) + lines.subrange(le + 1, lines.len() as int)
    }
}

/// The text inside the area, one entry per line it touches
pub open spec fn selected_lines(lines: Seq<Seq<char>>, p: (TextPosition, TextPosition)) -> Seq<Seq<char>> {
    let (ls, le, fp, bp) = area_bounds(p);
    if ls == le && fp == bp {
        Seq::empty()
    } else if ls == le {
        seq![lines[ls as int].subrange(fp as int, bp as int)]
    } else {
        seq![lines[ls as int].subrange(fp as int, lines[ls as int].len() as int)]
            + lines.subrange(ls + 1, le as int)
            + seq![lines[le as int].subrange(0, bp as int)]
    }
}

/// The lines with a block of lines inserted at a position: the first block line continues the
/// line at the position, the last block line is followed by the rest of that line
pub open spec fn insert_block(lines: Seq<Seq<char>>, at: TextPosition, block: Seq<Seq<char>>) -> Seq<Seq<char>> {
    if block.len() == 0 {
        lines
    } else {
        let l = lines[at.line as int];
        let head = l.subrange(0, at.column as int);
        let tail = l.subrange(at.column as int, l.len() as int);
        if block.len() == 1 {
            lines.update(at.line as int, head + block[0] + tail)
        } else {
            lines.subrange(0, at.line as int)
                + seq![head + block[0]]
                + block.subrange(1, block.len() - 1)
                + seq![block[block.len() - 1] + tail]
                + lines.subrange(at.line + 1, lines.len() as int)
        }
    }
}

/// The lines as one text, joined by line breaks
pub open spec fn joined(lines: Seq<Seq<char>>) -> Seq<char>
    decreases lines.len(),
{
    if lines.len() == 0 {
        Seq::empty()
    } else if lines.len() == 1 {
        lines[0]
    } else {
        joined(lines.drop_last()) + seq!['\n'] + lines.last()
    }
}

/// Where position `at` lies in the joined text of the lines
pub open spec fn joined_offset(lines: Seq<Seq<char>>, at: TextPosition) -> int {
    if at.line == 0 {
        at.column as int
    } else {
        joined(lines.subrange(0, at.line as int)).len() + 1 + at.column
    }
}

/// The joined text before the line after `before`: nothing, or that text and a line break
pub open spec fn joined_before(before: Seq<Seq<char>>) -> Seq<char> {
    if before.len() == 0 { Seq::empty() } else { joined(before) + seq!['\n'] }
}

/// The joined text after the line before `after`: nothing, or a line break and that text
pub open spec fn joined_after(after: Seq<Seq<char>>) -> Seq<char> {
    if after.len() == 0 { Seq::empty() } else { seq!['\n'] + joined(after) }
}

/// Joining two non-empty runs of lines puts one line break between them
proof fn lemma_joined_concat(a: Seq<Seq<char>>, b: Seq<Seq<char>>)
    requires
        a.len() >= 1,
        b.len() >= 1,
    ensures
        joined(a + b) == joined(a) + seq!['\n'] + joined(b),
    decreases b.len(),
{
    let ab = a + b;
    if b.len() == 1 {
        assert(ab.drop_last() =~= a);
    } else {
        assert(ab.drop_last() =~= a + b.drop_last());
        lemma_joined_concat(a, b.drop_last());
        assert(joined(ab) =~= joined(a) + seq!['\n'] + joined(b));
    }
}

/// Text put before the first line comes first in the joined text
proof fn lemma_joined_prefix(s: Seq<Seq<char>>, h: Seq<char>)
    requires
        s.len() >= 1,
    ensures
        joined(s.update(0, h + s[0])) == h + joined(s),
    decreases s.len(),
{
    let u = s.update(0, h + s[0]);
    if s.len() > 1 {
        assert(u.drop_last() =~= s.drop_last().update(0, h + s.drop_last()[0]));
        lemma_joined_prefix(s.drop_last(), h);
        assert(joined(u) =~= h + joined(s));
    }
}

/// Text put after the last line comes last in the joined text
proof fn lemma_joined_suffix(s: Seq<Seq<char>>, t: Seq<char>)
    requires
        s.len() >= 1,
    ensures
        joined(s.update(s.len() - 1, s.last() + t)) == joined(s) + t,
{
    let u = s.update(s.len() - 1, s.last() + t);
    if s.len() > 1 {
        assert(u.drop_last() =~= s.drop_last());
        assert(joined(u) =~= joined(s) + t);
    }
}

/// A run of lines between two others is joined between their joined texts
proof fn lemma_joined_around(p: Seq<Seq<char>>, x: Seq<Seq<char>>, q: Seq<Seq<char>>)
    requires
        x.len() >= 1,
    ensures
        joined(p + x + q) == joined_before(p) + joined(x) + joined_after(q),
{
    if p.len() == 0 {
        assert(p + x =~= x);
        if q.len() == 0 {
            assert(x + q =~= x);
            assert(joined(p + x + q) =~= joined_before(p) + joined(x) + joined_after(q));
        } else {
            lemma_joined_concat(x, q);
            assert(joined(p + x + q) =~= joined_before(p) + joined(x) + joined_after(q));
        }
    } else {
        lemma_joined_concat(p, x);
        if q.len() == 0 {
            assert(p + x + q =~= p + x);
            assert(joined(p + x + q) =~= joined_before(p) + joined(x) + joined_after(q));
        } else {
            lemma_joined_concat(p + x, q);
            assert(joined(p + x + q) =~= joined_before(p) + joined(x) + joined_after(q));
        }
    }
}

/// The joined text around one line, and where a position on that line lies in it
proof fn lemma_joined_split(lines: Seq<Seq<char>>, at: TextPosition)
    requires
        at.line < lines.len(),
    ensures
        ({
            let p = lines.subrange(0, at.line as int);
            let q = lines.subrange(at.line + 1, lines.len() as int);
            &&& joined(lines) == joined_before(p) + lines[at.line as int] + joined_after(q)
            &&& joined_offset(lines, at) == joined_before(p).len() + at.column
        }),
{
    let p = lines.subrange(0, at.line as int);
    let q = lines.subrange(at.line + 1, lines.len() as int);
    let x = seq![lines[at.line as int]];
    assert(lines =~= p + x + q);
    lemma_joined_around(p, x, q);
}

/// Inserting a block of lines at a position inserts the block's joined text at that
/// position's place in the joined text
proof fn lemma_joined_insert_block(lines: Seq<Seq<char>>, at: TextPosition, block: Seq<Seq<char>>)
    requires
        at.line < lines.len(),
        at.column <= lines[at.line as int].len(),
        block.len() >= 1,
    ensures
        ({
            let j = joined(lines);
            let o = joined_offset(lines, at);
            joined(insert_block(lines, at, block)) == j.subrange(0, o) + joined(block) + j.subrange(o, j.len() as int)
        }),
{
    let l = lines[at.line as int];
    let h = l.subrange(0, at.column as int);
    let t = l.subrange(at.column as int, l.len() as int);
    let p = lines.subrange(0, at.line as int);
    let q = lines.subrange(at.line + 1, lines.len() as int);
    let n = block.len();
    let b1 = block.update(0, h + block[0]);
    let b2 = b1.update(n - 1, b1.last() + t);
    lemma_joined_prefix(block, h);
    lemma_joined_suffix(b1, t);
    assert(insert_block(lines, at, block) =~= p + b2 + q);
    lemma_joined_around(p, b2, q);
    lemma_joined_split(lines, at);
    let j = joined(lines);
    let o = joined_offset(lines, at);
    assert(l =~= h + t);
    assert(j.subrange(0, o) =~= joined_before(p) + h);
    assert(j.subrange(o, j.len() as int) =~= t + joined_after(q));
    assert(joined(insert_block(lines, at, block)) =~= j.subrange(0, o) + joined(block) + j.subrange(o, j.len() as int));
}

/// Deleting an area and inserting its selected text back at the area's start, as joined
/// text: the text before the deletion is the text after it with the selected lines, joined,
/// put back at the offset of the area's start
pub proof fn lemma_delete_then_reinsert_joined(lines: Seq<Seq<char>>, p: (TextPosition, TextPosition))
    requires
        area_in_text(lines, p),
    ensures
        ({
            let (ls, le, fp, bp) = area_bounds(p);
            let rest = joined(lines_without_area(lines, p));
            let o = joined_offset(lines_without_area(lines, p), TextPosition { line: ls, column: fp });
            joined(lines) == rest.subrange(0, o) + joined(selected_lines(lines, p)) + rest.subrange(o, rest.len() as int)
        }),
{
    let (ls, le, fp, bp) = area_bounds(p);
    let del = lines_without_area(lines, p);
    let sel = selected_lines(lines, p);
    let at = TextPosition { line: ls, column: fp };
    lemma_delete_then_reinsert_restores(lines, p);
    if ls == le && fp == bp {
        lemma_joined_split(lines, at);
        let rest = joined(del);
        assert(rest.subrange(0, joined_offset(del, at)) + joined(sel) + rest.subrange(joined_offset(del, at), rest.len() as int) =~= rest);
    } else {
        if ls == le {
            assert(del[ls as int].len() >= fp);
        } else {
            assert(del[ls as int] == take_upto(lines[ls as int], fp as int) + skip_upto(lines[le as int], bp as int));
        }
        lemma_joined_insert_block(del, at, sel);
    }
}

/// Whole lines between two lines, both included, removed
pub open spec fn lines_without_range(lines: Seq<Seq<char>>, p: (TextPosition, TextPosition)) -> Seq<Seq<char>> {
    let (start, end) = if p.0.line > p.1.line { (p.1.line, p.0.line) } else { (p.0.line, p.1.line) };
    lines.subrange(0, start as int) + lines.subrange(end + 1, lines.len() as int)
}

/// Removing the text of an area and inserting the selected text of that area at its start
/// gives back the original text.
#[verifier::spinoff_prover]
#[verifier::rlimit(40)]
pub proof fn lemma_delete_then_reinsert_restores(lines: Seq<Seq<char>>, p: (TextPosition, TextPosition))
    requires
        area_in_text(lines, p),
    ensures
        ({
            let (ls, le, fp, bp) = area_bounds(p);
            insert_block(lines_without_area(lines, p), TextPosition { line: ls, column: fp }, selected_lines(lines, p))
                == lines
        }),
{
    let (ls, le, fp, bp) = area_bounds(p);
    let del = lines_without_area(lines, p);
    let sel = selected_lines(lines, p);
    let at = TextPosition { line: ls, column: fp };
    if ls == le && fp == bp {
    } else if ls == le {
        let l = lines[ls as int];
        let d = del[ls as int];
        assert(d =~= l.subrange(0, fp as int) + l.subrange(bp as int, l.len() as int));
        assert(d.subrange(0, fp as int) + sel[0] + d.subrange(fp as int, d.len() as int) =~= l);
        assert(insert_block(del, at, sel) =~= lines);
    } else {
        let first = lines[ls as int];
        let last = lines[le as int];
        let joined = take_upto(first, fp as int) + skip_upto(last, bp as int);
        assert(del[ls as int] == joined);
        assert(joined.subrange(0, fp as int) =~= first.subrange(0, fp as int));
        assert(joined.subrange(fp as int, joined.len() as int) =~= last.subrange(bp as int, last.len() as int));
        assert(sel.len() == le - ls + 1);
        assert(sel.subrange(1, sel.len() - 1) =~= lines.subrange(ls + 1, le as int));
        assert(del.subrange(0, ls as int) =~= lines.subrange(0, ls as int));
        assert(del.subrange(ls + 1, del.len() as int) =~= lines.subrange(le + 1, lines.len() as int));
        assert(first.subrange(0, fp as int) + sel[0] =~= first);
        assert(sel[sel.len() - 1] + last.subrange(bp as int, last.len() as int) =~= last);
        assert(insert_block(del, at, sel) =~= lines);
    }
}

/// Area helpers
fn area_bounds_of(pos: (TextPosition, TextPosition)) -> (r: (usize, usize, usize, usize))
    ensures
        r == area_bounds(pos),
{
    let head = pos.0;
    let tail = pos.1;
    if head.line > tail.line {
        (tail.line, head.line, tail.column, head.column)
    } else if tail.line > head.line || tail.column > head.column {
        (head.line, tail.line, head.column, tail.column)
    } else {
        (head.line, tail.line, tail.column, head.column)
    }
}

/// Selection and deletion of areas
impl TextInput {
    /// Get the text in an area as a list of strings, one per line it touches
    pub fn get_selected_area(&self, pos: (TextPosition, TextPosition)) -> (r: Vec<String>)
        requires
            area_is_empty(pos) || area_in_text(self.lines(), pos),
        ensures
            r.deep_view() == selected_lines(self.lines(), pos),
    {
        let (line_start, line_end, front_pos, back_pos) = area_bounds_of(pos);
        let mut result: Vec<String> = Vec::new();
        if line_start == line_end && front_pos == back_pos {
            assert(result.deep_view() =~= selected_lines(self.lines(), pos));
            return result;
        }
        if line_start == line_end {
            let v = chars_of(self.text[line_start].as_str());
            let part = take_chars(&skip_chars(&v, front_pos), back_pos - front_pos);
            assert(part@ =~= v@.subrange(front_pos as int, back_pos as int));
            result.push(string_of(part.as_slice()));
            assert(result.deep_view() =~= selected_lines(self.lines(), pos));
            return result;
        }
        let first = chars_of(self.text[line_start].as_str());
        let first_part = skip_chars(&first, front_pos);
        result.push(string_of(first_part.as_slice()));
        let mut i: usize = line_start + 1;
        while i < line_end
            invariant
                line_start < i <= line_end,
                line_end < self.text@.len(),
                result.deep_view() == seq![self.lines()[line_start as int].subrange(front_pos as int, self.lines()[line_start as int].len() as int)]
                    + self.lines().subrange(line_start + 1, i as int),
            decreases line_end - i,
        {
            let ghost before = result.deep_view();
            result.push(self.text[i].clone());
            assert(result.deep_view() =~= before.push(self.lines()[i as int]));
            assert(self.lines().subrange(line_start + 1, i + 1) =~= self.lines().subrange(line_start + 1, i as int).push(self.lines()[i as int]));
            i = i + 1;
        }
        let last = chars_of(self.text[line_end].as_str());
        let last_part = take_chars(&last, back_pos);
        let ghost before = result.deep_view();
        result.push(string_of(last_part.as_slice()));
        assert(result.deep_view() =~= before.push(last_part@));
        assert(result.deep_view() =~= selected_lines(self.lines(), pos));
        result
    }

    /// Delete all text in an area and put the first caret, without highlight, at its start
    pub fn delete_text_in_area(&mut self, pos: (TextPosition, TextPosition))
        requires
            area_is_empty(pos) || area_in_text(old(self).lines(), pos),
            !area_is_empty(pos) ==> old(self).caret@.len() >= 1,
        ensures
            final(self).same_settings(old(self)),
            final(self).lines() == lines_without_area(old(self).lines(), pos),
            area_is_empty(pos) ==> final(self).caret == old(self).caret,
            !area_is_empty(pos) ==> final(self).caret@ == old(self).caret@.update(
                0,
                Caret {
                    line: area_bounds(pos).0,
                    column: area_bounds(pos).2,
                    highlight_enabled: false,
                    ..old(self).caret@[0]
                },
            ),
    {
        let (line_start, line_end, front_pos, back_pos) = area_bounds_of(pos);
        if line_start == line_end && front_pos == back_pos {
            return;
        }
        if line_start == line_end {
            let v = chars_of(self.text[line_start].as_str());
            let joined = concat_chars(&take_chars(&v, front_pos), &skip_chars(&v, back_pos));
            self.set_line(line_start, string_of(joined.as_slice()));
        } else {
            let first = chars_of(self.text[line_start].as_str());
            let last = chars_of(self.text[line_end].as_str());
            let joined = concat_chars(&take_chars(&first, front_pos), &skip_chars(&last, back_pos));
            let ghost s0 = *self;
            let mut rest = self.text.split_off(line_start + 1);
            let tail = rest.split_off(line_end - line_start);
            self.text.set(line_start, string_of(joined.as_slice()));
            let ghost mid = *self;
            let mut tail_mut = tail;
            self.text.append(&mut tail_mut);
            proof {
                assert(self.lines() =~= lines_without_area(s0.lines(), pos));
            }
        }
        let mut c = self.caret[0];
        c.line = line_start;
        c.column = front_pos;
        c.reset_highlighted();
        self.set_caret(0, c);
    }

    /// Delete whole lines, from the first to the last line of an area; the first caret goes to
    /// the start of the line now at the first deleted index (or of the last line)
    pub fn delete_lines(&mut self, pos: (TextPosition, TextPosition))
        requires
            pos.0.line < old(self).text@.len(),
            pos.1.line < old(self).text@.len(),
            old(self).caret@.len() >= 1,
        ensures
            final(self).same_settings(old(self)),
            final(self).lines() == lines_without_range(old(self).lines(), pos),
            final(self).caret@ == old(self).caret@.update(
                0,
                Caret {
                    line: min_usize(
                        if pos.0.line > pos.1.line { pos.1.line } else { pos.0.line },
                        last_line_idx(lines_without_range(old(self).lines(), pos)),
                    ),
                    column: 0,
                    highlight_enabled: false,
                    ..old(self).caret@[0]
                },
            ),
    {
        let (start_line, end_line) = if pos.0.line > pos.1.line {
            (pos.1.line, pos.0.line)
        } else {
            (pos.0.line, pos.1.line)
        };
        let ghost s0 = *self;
        let n = self.text.len();
        assert(end_line < n);
        let mut rest = self.text.split_off(start_line);
        let mut tail = rest.split_off(end_line - start_line + 1);
        self.text.append(&mut tail);
        proof {
            assert(self.lines() =~= lines_without_range(s0.lines(), pos));
        }
        let l = self.line_count_idx();
        let mut c = self.caret[0];
        c.line = if start_line <= l { start_line } else { l };
        c.column = 0;
        c.reset_highlighted();
        self.set_caret(0, c);
    }
}


/// The lines and carets after the highlight of caret `idx`, if any, has been deleted
pub open spec fn state_after_highlight_delete(lines: Seq<Seq<char>>, carets: Seq<Caret>, idx: int) -> (Seq<Seq<char>>, Seq<Caret>) {
    let c = carets[idx];
    let area = (c.highlight_pos, caret_pos(c));
    if c.highlight_enabled && !area_is_empty(area) {
        let b = area_bounds(area);
        (
            lines_without_area(lines, area),
            carets.update(0, Caret { line: b.0, column: b.2, highlight_enabled: false, ..carets[0] }),
        )
    } else {
        (lines, carets)
    }
}

/// The highlight of caret `idx`, if any, can be deleted without leaving the text
pub open spec fn highlight_deletable(lines: Seq<Seq<char>>, carets: Seq<Caret>, idx: int) -> bool {
    let c = carets[idx];
    let area = (c.highlight_pos, caret_pos(c));
    c.highlight_enabled ==> (area_is_empty(area) || area_in_text(lines, area))
}

/// The lines and carets after splitting the line of caret `idx` at the caret: the rest of the
/// line goes to a new line below, preceded by the indent of the line when it is retained, and
/// the caret goes after that indent
pub open spec fn state_after_split(
    lines: Seq<Seq<char>>,
    carets: Seq<Caret>,
    idx: int,
    retain_indent: bool,
    indent_char: char,
) -> (Seq<Seq<char>>, Seq<Caret>) {
    let c = carets[idx];
    let before = take_upto(lines[c.line as int], c.column as int);
    let after = skip_upto(lines[c.line as int], c.column as int);
    let amount = if retain_indent { leading_count(before, indent_char) } else { 0 };
    let l2 = lines.update(c.line as int, before).insert(c.line + 1, Seq::new(amount, |_i: int| indent_char) + after);
    let c2 = carets.update(idx, Caret { line: (c.line + 1) as usize, column: amount as usize, ..c });
    (l2, c2.update(0, caret_after_insertion(l2, c2[0], (c.line + 1) as usize)))
}

/// The lines and carets after a new empty line (or one holding the retained indent) has been
/// put below the line of caret `idx`, which moves onto it
pub open spec fn state_after_empty_line(
    lines: Seq<Seq<char>>,
    carets: Seq<Caret>,
    idx: int,
    retain_indent: bool,
    indent_char: char,
) -> (Seq<Seq<char>>, Seq<Caret>) {
    let c = carets[idx];
    let amount = if retain_indent { leading_count(lines[c.line as int], indent_char) } else { 0 };
    let l2 = lines.insert(c.line + 1, Seq::new(amount, |_i: int| indent_char));
    let c2 = carets.update(idx, Caret { line: (c.line + 1) as usize, column: amount as usize, highlight_enabled: false, ..c });
    (l2, c2.update(0, caret_after_insertion(l2, c2[0], (c.line + 1) as usize)))
}

/// The number of leading `c` characters is at most the length
pub proof fn lemma_leading_count_bound(l: Seq<char>, c: char)
    ensures
        leading_count(l, c) <= l.len(),
    decreases l.len(),
{
    if l.len() > 0 && l[0] == c {
        lemma_leading_count_bound(l.subrange(1, l.len() as int), c);
    }
}

/// Removing the text of an area never adds lines
pub proof fn lemma_area_delete_len(lines: Seq<Seq<char>>, p: (TextPosition, TextPosition))
    requires
        area_in_text(lines, p),
    ensures
        lines_without_area(lines, p).len() <= lines.len(),
        lines_without_area(lines, p).len() >= 1,
{
}

/// New lines
impl TextInput {
    /// Create a new line with the remainder of this line getting placed on the new one
    /// (deleting the highlighted text first); fails when the maximum line count is reached
    #[verifier::spinoff_prover]
    #[verifier::rlimit(60)]
    pub fn new_line(&mut self, idx: usize) -> (r: bool)
        requires
            idx < old(self).caret@.len(),
            old(self).text@.len() < old(self).max_lines ==> {
                &&& highlight_deletable(old(self).lines(), old(self).caret@, idx as int)
                &&& ({
                    let (l1, c1) = state_after_highlight_delete(old(self).lines(), old(self).caret@, idx as int);
                    &&& c1[idx as int].line < l1.len()
                    &&& (idx != 0 ==> c1[0].line < usize::MAX)
                })
            },
        ensures
            final(self).same_settings(old(self)),
            r == (old(self).text@.len() < old(self).max_lines),
            !r ==> final(self).text == old(self).text && final(self).caret == old(self).caret,
            r ==> ({
                let (l1, c1) = state_after_highlight_delete(old(self).lines(), old(self).caret@, idx as int);
                (final(self).lines(), final(self).caret@) == state_after_split(
                    l1,
                    c1,
                    idx as int,
                    old(self).retain_indent,
                    old(self).indent_char,
                )
            }),
    {
        if self.text.len() >= self.max_lines {
            return false;
        }
        let ghost s0 = *self;
        let c = self.caret[idx];
        if c.is_highlighting() {
            let area = c.get_highlighted_area();
            proof {
                if !area_is_empty(area) {
                    lemma_area_delete_len(self.lines(), area);
                }
            }
            self.delete_text_in_area(area);
        }
        let ghost s1 = *self;
        assert((s1.lines(), s1.caret@) == state_after_highlight_delete(s0.lines(), s0.caret@, idx as int));
        let line = self.caret[idx].line;
        let column = self.caret[idx].column;
        let (before, after) = self.split_line(line, column);
        self.set_line(line, before);
        let amount = if self.retain_indent { self.get_line_indent(line) } else { 0 };
        proof {
            lemma_leading_count_bound(self.lines()[line as int], self.indent_char);
        }
        let indent = repeat_char(self.indent_char, amount);
        let rest = chars_of(after.as_str());
        let content = string_of(concat_chars(&indent, &rest).as_slice());
        let mut c2 = self.caret[idx];
        c2.line = line + 1;
        c2.column = amount;
        self.set_caret(idx, c2);
        let ghost s2 = *self;
        let ok = self.insert_line(line + 1, content);
        proof {
            assert(ok);
            let (l2, cs2) = state_after_split(s1.lines(), s1.caret@, idx as int, s0.retain_indent, s0.indent_char);
            assert(self.lines() =~= l2);
            assert(self.caret@ =~= cs2);
        }
        true
    }

    /// Like `new_line`, but the text right of the caret stays on its line
    pub fn new_line_without_shifting(&mut self, idx: usize) -> (r: bool)
        requires
            idx < old(self).caret@.len(),
            old(self).text@.len() < old(self).max_lines ==> {
                &&& old(self).caret@[idx as int].line < old(self).text@.len()
                &&& (idx != 0 ==> old(self).caret@[0].line < usize::MAX)
            },
        ensures
            final(self).same_settings(old(self)),
            r == (old(self).text@.len() < old(self).max_lines),
            !r ==> final(self).text == old(self).text && final(self).caret == old(self).caret,
            r ==> (final(self).lines(), final(self).caret@) == state_after_empty_line(
                old(self).lines(),
                old(self).caret@,
                idx as int,
                old(self).retain_indent,
                old(self).indent_char,
            ),
    {
        if self.text.len() >= self.max_lines {
            return false;
        }
        let ghost s0 = *self;
        let line = self.caret[idx].line;
        let amount = if self.retain_indent { self.get_line_indent(line) } else { 0 };
        proof {
            lemma_leading_count_bound(self.lines()[line as int], self.indent_char);
        }
        let indent = repeat_char(self.indent_char, amount);
        let content = string_of(indent.as_slice());
        let mut c2 = self.caret[idx];
        c2.reset_highlighted();
        c2.line = line + 1;
        c2.column = amount;
        self.set_caret(idx, c2);
        let ok = self.insert_line(line + 1, content);
        proof {
            assert(ok);
            let (l2, cs2) = state_after_empty_line(s0.lines(), s0.caret@, idx as int, s0.retain_indent, s0.indent_char);
            assert(self.lines() =~= l2);
            assert(self.caret@ =~= cs2);
        }
        true
    }
}


/// The earlier of two positions (the second one when neither is earlier)
pub open spec fn pos_min(a: TextPosition, b: TextPosition) -> TextPosition {
    if pos_lt(a, b) { a } else { b }
}

/// Deleting
impl TextInput {
    /// Delete a single character to the right; at the end of a line the next line is joined to it;
    /// a highlight is deleted as a whole
    pub fn delete_right(&mut self, idx: usize)
        requires
            idx < old(self).caret@.len(),
            old(self).caret@[idx as int].highlight_enabled ==> highlight_deletable(old(self).lines(), old(self).caret@, idx as int),
            !old(self).caret@[idx as int].highlight_enabled ==> old(self).caret@[idx as int].line < old(self).text@.len(),
        ensures
            final(self).same_settings(old(self)),
            ({
                let c = old(self).caret@[idx as int];
                let lines = old(self).lines();
                if c.highlight_enabled {
                    (final(self).lines(), final(self).caret@) == state_after_highlight_delete(lines, old(self).caret@, idx as int)
                } else if c.column == lines[c.line as int].len() {
                    let other = clamp_line(lines, (c.line + 1) as usize);
                    if other == c.line {
                        final(self).lines() == lines && final(self).caret == old(self).caret
                    } else {
                        let merged = lines.update(c.line as int, lines[c.line as int] + lines[other as int]).remove(other as int);
                        &&& final(self).lines() == merged
                        &&& final(self).caret@ == old(self).caret@.update(0, caret_after_removal(merged, old(self).caret@[0], other))
                    }
                } else {
                    &&& final(self).lines() == lines.update(c.line as int, remove_chars_at(lines[c.line as int], c.column as int, 1))
                    &&& final(self).caret == old(self).caret
                }
            }),
    {
        let c = self.caret[idx];
        if c.is_highlighting() {
            let area = c.get_highlighted_area();
            self.delete_text_in_area(area);
        } else if c.column == self.get_line_length(c.line) {
            let n = self.text.len();
            let other = self.clamp_to_line_count(c.line + 1);
            self.merge_lines(c.line, other);
        } else {
            self.remove_chars_from_line(c.line, c.column, 1);
        }
    }

    /// Delete a single character to the left; at the start of a line it is joined to the previous line;
    /// a highlight is deleted as a whole
    pub fn delete_left(&mut self, idx: usize)
        requires
            idx < old(self).caret@.len(),
            old(self).caret@[idx as int].highlight_enabled ==> highlight_deletable(old(self).lines(), old(self).caret@, idx as int),
            !old(self).caret@[idx as int].highlight_enabled ==> old(self).caret@[idx as int].line < old(self).text@.len(),
        ensures
            final(self).same_settings(old(self)),
            ({
                let c = old(self).caret@[idx as int];
                let lines = old(self).lines();
                if c.highlight_enabled {
                    (final(self).lines(), final(self).caret@) == state_after_highlight_delete(lines, old(self).caret@, idx as int)
                } else if c.column == 0 {
                    if c.line == 0 {
                        final(self).lines() == lines && final(self).caret == old(self).caret
                    } else {
                        let prev = (c.line - 1) as usize;
                        let cs = old(self).caret@.update(idx as int, Caret { column: lines[prev as int].len() as usize, ..c });
                        let merged = lines.update(prev as int, lines[prev as int] + lines[c.line as int]).remove(c.line as int);
                        &&& final(self).lines() == merged
                        &&& final(self).caret@ == cs.update(0, caret_after_removal(merged, cs[0], c.line))
                    }
                } else {
                    &&& final(self).lines() == lines.update(c.line as int, remove_chars_at(lines[c.line as int], c.column - 1, 1))
                    &&& final(self).caret@ == old(self).caret@.update(idx as int, Caret { column: (c.column - 1) as usize, ..c })
                }
            }),
    {
        let c = self.caret[idx];
        if c.is_highlighting() {
            let area = c.get_highlighted_area();
            self.delete_text_in_area(area);
        } else if c.column == 0 {
            if c.line != 0 {
                let mut n = c;
                n.column = self.get_line_length(c.line - 1);
                self.set_caret(idx, n);
                self.merge_lines(c.line - 1, c.line);
            }
        } else {
            self.move_left(idx);
            self.remove_chars_from_line(c.line, c.column - 1, 1);
        }
    }

    /// Delete the whole line the caret is on; with a highlight, all lines it touches are deleted
    /// and the caret goes to the earlier end of its (updated) highlight
    pub fn delete_current_line(&mut self, idx: usize)
        requires
            idx < old(self).caret@.len(),
            old(self).caret@[idx as int].highlight_enabled ==> {
                &&& old(self).caret@[idx as int].highlight_pos.line < old(self).text@.len()
                &&& old(self).caret@[idx as int].line < old(self).text@.len()
            },
            !old(self).caret@[idx as int].highlight_enabled ==> {
                &&& old(self).caret@[idx as int].line < old(self).text@.len()
                &&& !(old(self).text@.len() == 1 && old(self).caret@[0].line != 0)
            },
        ensures
            final(self).same_settings(old(self)),
            ({
                let c = old(self).caret@[idx as int];
                let lines = old(self).lines();
                if c.highlight_enabled {
                    let area = (c.highlight_pos, caret_pos(c));
                    let l1 = lines_without_range(lines, area);
                    let start = if area.0.line > area.1.line { area.1.line } else { area.0.line };
                    let cs1 = old(self).caret@.update(
                        0,
                        Caret { line: min_usize(start, last_line_idx(l1)), column: 0, highlight_enabled: false, ..old(self).caret@[0] },
                    );
                    let ci = cs1[idx as int];
                    let target = pos_min(ci.highlight_pos, caret_pos(ci));
                    &&& final(self).lines() == l1
                    &&& final(self).caret@ == cs1.update(idx as int, Caret { line: target.line, column: target.column, ..ci })
                } else {
                    let l1 = lines.remove(c.line as int);
                    let cs1 = old(self).caret@.update(0, caret_after_removal(l1, old(self).caret@[0], c.line));
                    &&& final(self).lines() == l1
                    &&& final(self).caret@ == cs1.update(idx as int, Caret { column: 0, ..cs1[idx as int] })
                }
            }),
    {
        let c = self.caret[idx];
        if c.is_highlighting() {
            let area = c.get_highlighted_area();
            self.delete_lines(area);
            let (pos1, pos2) = self.caret[idx].get_highlighted_area();
            let target = if pos1.is_before(&pos2) { pos1 } else { pos2 };
            let mut n = self.caret[idx];
            n.move_to_pos(target);
            self.set_caret(idx, n);
        } else {
            self.remove_line(c.line);
            self.move_to_start_of_this_line(idx);
        }
    }

    /// Delete the structure to the left of the caret; `cut_point` is where the structure starts
    /// (the column the structure skipping finds going left from the caret)
    pub fn delete_structure_left(&mut self, idx: usize, cut_point: usize)
        requires
            idx < old(self).caret@.len(),
            old(self).caret@[idx as int].line < old(self).text@.len(),
            cut_point <= old(self).caret@[idx as int].column,
        ensures
            final(self).same_settings(old(self)),
            ({
                let c = old(self).caret@[idx as int];
                &&& final(self).lines() == old(self).lines().update(
                    c.line as int,
                    remove_chars_at(old(self).lines()[c.line as int], cut_point as int, c.column - cut_point),
                )
                &&& final(self).caret@ == old(self).caret@.update(idx as int, Caret { column: cut_point, ..c })
            }),
    {
        let c = self.caret[idx];
        self.remove_chars_from_line(c.line, cut_point, c.column - cut_point);
        let mut n = c;
        n.column = cut_point;
        self.set_caret(idx, n);
    }

    /// Delete the structure to the right of the caret; `cut_point` is where the structure ends
    /// (the column the structure skipping finds going right from the caret)
    pub fn delete_structure_right(&mut self, idx: usize, cut_point: usize)
        requires
            idx < old(self).caret@.len(),
            old(self).caret@[idx as int].line < old(self).text@.len(),
            cut_point >= old(self).caret@[idx as int].column,
        ensures
            final(self).same_settings(old(self)),
            final(self).caret == old(self).caret,
            ({
                let c = old(self).caret@[idx as int];
                final(self).lines() == old(self).lines().update(
                    c.line as int,
                    remove_chars_at(old(self).lines()[c.line as int], c.column as int, cut_point - c.column),
                )
            }),
    {
        let c = self.caret[idx];
        self.remove_chars_from_line(c.line, c.column, cut_point - c.column);
    }
}


/// The history of a text input as mathematical values: the lines and carets of each snapshot
pub open spec fn history_of(states: Seq<TextState>) -> Seq<(Seq<Seq<char>>, Seq<Caret>)> {
    states.map_values(|st: TextState| (lines_of(st.0@), st.1@))
}

/// Everything but the text, the carets and the current history index is the same
pub open spec fn same_but_position(a: &TextInput, b: &TextInput) -> bool {
    &&& a.width == b.width
    &&& a.line_height == b.line_height
    &&& a.max_lines == b.max_lines
    &&& a.needs_redraw == b.needs_redraw
    &&& a.selected == b.selected
    &&& a.remove_behind == b.remove_behind
    &&& a.last_states == b.last_states
    &&& a.placeholder_text == b.placeholder_text
    &&& a.read_only == b.read_only
    &&& a.indent_length == b.indent_length
    &&& a.indent_char == b.indent_char
    &&& a.allow_caret_wrap == b.allow_caret_wrap
    &&& a.line_number_offset == b.line_number_offset
    &&& a.overwrite_mode == b.overwrite_mode
    &&& a.retain_indent == b.retain_indent
    &&& a.menu_open == b.menu_open
    &&& a.show_line_numbers == b.show_line_numbers
    &&& a.blacklist == b.blacklist
    &&& a.blacklist_is_whitelist == b.blacklist_is_whitelist
}

/// A copy of a stored state
fn copy_state(st: &TextState) -> (r: TextState)
    ensures
        lines_of(r.0@) == lines_of(st.0@),
        r.1@ == st.1@,
{
    let t = st.0.clone();
    let c = st.1.clone();
    assert(t@ =~= st.0@);
    assert(c@ =~= st.1@);
    (t, c)
}

/// Two texts hold the same lines
pub fn texts_equal(a: &Vec<String>, b: &Vec<String>) -> (r: bool)
    ensures
        r == (lines_of(a@) == lines_of(b@)),
{
    if a.len() != b.len() {
        assert(lines_of(a@).len() != lines_of(b@).len());
        return false;
    }
    let mut i: usize = 0;
    while i < a.len()
        invariant
            a@.len() == b@.len(),
            i <= a@.len(),
            forall|j: int| 0 <= j < i ==> a@[j]@ == b@[j]@,
        decreases a.len() - i,
    {
        if a[i] != b[i] {
            assert(lines_of(a@)[i as int] != lines_of(b@)[i as int]);
            return false;
        }
        i = i + 1;
    }
    assert(lines_of(a@) =~= lines_of(b@));
    true
}

/// Undoing and then redoing, from a state that is the current snapshot of its history,
/// gives back that state: `s1` is `s0` after an undo and `s2` is `s1` after a redo.
pub proof fn lemma_undo_redo_roundtrip(s0: TextInput, s1: TextInput, s2: TextInput)
    requires
        1 <= s0.current_state < s0.last_states@.len(),
        (s0.lines(), s0.caret@) == s0.history()[s0.current_state as int],
        same_but_position(&s1, &s0),
        s1.current_state == s0.current_state - 1,
        (s1.lines(), s1.caret@) == s0.history()[s0.current_state - 1],
        same_but_position(&s2, &s1),
        s1.current_state + 1 < s1.last_states@.len() ==> {
            &&& s2.current_state == s1.current_state + 1
            &&& (s2.lines(), s2.caret@) == s1.history()[s1.current_state + 1]
        },
    ensures
        s2.current_state == s0.current_state,
        s2.lines() == s0.lines(),
        s2.caret@ == s0.caret@,
{
}

/// An undo can step back: the current snapshot is a saved one other than the oldest
pub open spec fn can_undo(current_state: usize, saved: nat) -> bool {
    1 <= current_state <= saved
}

/// An edit saved after some undos is undone back to the snapshot that was current before
/// the edit: saving keeps the history up to the current snapshot and adds the edit after it.
pub proof fn lemma_save_then_undo(s0: TextInput, s1: TextInput, s2: TextInput, edited: (Seq<Seq<char>>, Seq<Caret>))
    requires
        s0.current_state < s0.last_states@.len(),
        s1.history() == s0.history().subrange(0, s0.current_state + 1).push(edited),
        s1.current_state == s1.history().len() - 1,
        s1.last_states@.len() == s1.history().len(),
        can_undo(s1.current_state, s1.last_states@.len()) ==> {
            &&& s2.current_state == s1.current_state - 1
            &&& (s2.lines(), s2.caret@) == s1.history()[s1.current_state - 1]
        },
    ensures
        s2.current_state == s0.current_state,
        (s2.lines(), s2.caret@) == s0.history()[s0.current_state as int],
{
}

/// Undo and redo
impl TextInput {
    /// The history as mathematical values
    pub open spec fn history(&self) -> Seq<(Seq<Seq<char>>, Seq<Caret>)> {
        history_of(self.last_states@)
    }

    /// Return to the previous snapshot of the history (nothing happens when the history is empty)
    pub fn undo(&mut self)
        ensures
            same_but_position(final(self), old(self)),
            !can_undo(old(self).current_state, old(self).last_states@.len()) ==> {
                &&& final(self).text == old(self).text
                &&& final(self).caret == old(self).caret
                &&& final(self).current_state == old(self).current_state
            },
            can_undo(old(self).current_state, old(self).last_states@.len()) ==> {
                &&& final(self).current_state == old(self).current_state - 1
                &&& (final(self).lines(), final(self).caret@) == old(self).history()[old(self).current_state - 1]
            },
    {
        if self.current_state >= 1 && self.current_state <= self.last_states.len() {
            self.current_state = self.current_state - 1;
            let st = copy_state(&self.last_states[self.current_state]);
            self.text = st.0;
            self.caret = st.1;
        }
    }

    /// Go forward to the next snapshot of the history, if there is one
    pub fn redo(&mut self)
        ensures
            same_but_position(final(self), old(self)),
            old(self).current_state + 1 >= old(self).last_states@.len() ==> {
                &&& final(self).text == old(self).text
                &&& final(self).caret == old(self).caret
                &&& final(self).current_state == old(self).current_state
            },
            old(self).current_state + 1 < old(self).last_states@.len() ==> {
                &&& final(self).current_state == old(self).current_state + 1
                &&& (final(self).lines(), final(self).caret@) == old(self).history()[old(self).current_state + 1]
            },
    {
        if self.current_state < self.last_states.len() && self.current_state + 1 < self.last_states.len() {
            self.current_state = self.current_state + 1;
            let st = copy_state(&self.last_states[self.current_state]);
            self.text = st.0;
            self.caret = st.1;
        }
    }

    /// Before an edit: when the history is empty, the given text (the text before the edit)
    /// and the current carets become its first snapshot
    pub fn ensure_history_started(&mut self, previous_state: &Vec<String>)
        ensures
            final(self).text == old(self).text,
            final(self).caret == old(self).caret,
            final(self).current_state == old(self).current_state,
            old(self).last_states@.len() > 0 ==> final(self).last_states == old(self).last_states,
            old(self).last_states@.len() == 0 ==> final(self).history() == seq![(lines_of(previous_state@), old(self).caret@)],
    {
        if self.last_states.len() == 0 {
            let t = previous_state.clone();
            let c = self.caret.clone();
            assert(t@ =~= previous_state@);
            assert(c@ =~= self.caret@);
            self.last_states.push((t, c));
            assert(self.history() =~= seq![(lines_of(previous_state@), old(self).caret@)]);
        }
    }

    /// After an edit: unless saving is suppressed or the text did not change, the states after
    /// the current one are dropped (the current one stays, so an undo returns to it) and the
    /// current text and carets become the newest snapshot, which is then the current one
    pub fn save_state(&mut self, previous_state: &Vec<String>, do_not_save: bool) -> (saved: bool)
        ensures
            final(self).text == old(self).text,
            final(self).caret == old(self).caret,
            saved == (!do_not_save && old(self).lines() != lines_of(previous_state@)),
            !saved ==> final(self).last_states == old(self).last_states && final(self).current_state == old(self).current_state,
            saved ==> {
                let kept = if old(self).last_states@.len() > 0 && old(self).current_state < old(self).last_states@.len() - 1 {
                    old(self).history().subrange(0, old(self).current_state + 1)
                } else {
                    old(self).history()
                };
                &&& final(self).history() == kept.push((old(self).lines(), old(self).caret@))
                &&& final(self).current_state == final(self).history().len() - 1
            },
    {
        if do_not_save || texts_equal(&self.text, previous_state) {
            return false;
        }
        let ghost h0 = self.history();
        let last = if self.last_states.len() == 0 { 0 } else { self.last_states.len() - 1 };
        if self.current_state < last {
            self.last_states.truncate(self.current_state + 1);
            assert(self.history() =~= h0.subrange(0, old(self).current_state + 1));
        }
        let ghost h1 = self.history();
        let t = self.text.clone();
        let c = self.caret.clone();
        assert(t@ =~= self.text@);
        assert(c@ =~= self.caret@);
        self.last_states.push((t, c));
        assert(self.history() =~= h1.push((old(self).lines(), old(self).caret@)));
        self.current_state = self.last_states.len() - 1;
        true
    }
}


/// A pressed key: its code, and the text it types, if any
pub struct KeyInput {
    /// The key code
    pub code: u32,
    /// The text the key types
    pub text: Option<String>,
}

/// A key is filtered out when it is on the blacklist (or, with a whitelist, when it is not on it)
pub open spec fn key_filtered(blacklist: Seq<u32>, whitelist: bool, code: u32) -> bool {
    blacklist.contains(code) != whitelist
}

/// A line and a column after typing the given keys at the column, one after the other: each key
/// that passes the filter and types text inserts it (upper- or lowercased) at the column, and the
/// column advances by one
pub open spec fn typed(
    line: Seq<char>,
    column: int,
    keys: Seq<(u32, Option<Seq<char>>)>,
    uppercase: bool,
    blacklist: Seq<u32>,
    whitelist: bool,
) -> (Seq<char>, int)
    decreases keys.len(),
{
    if keys.len() == 0 {
        (line, column)
    } else {
        let (code, text) = keys[0];
        let rest = keys.subrange(1, keys.len() as int);
        if key_filtered(blacklist, whitelist, code) {
            typed(line, column, rest, uppercase, blacklist, whitelist)
        } else {
            match text {
                Some(t) => {
                    let cased = if uppercase { uppercase_of(t) } else { lowercase_of(t) };
                    typed(insert_in_line(line, column, cased), column + 1, rest, uppercase, blacklist, whitelist)
                },
                None => typed(line, column, rest, uppercase, blacklist, whitelist),
            }
        }
    }
}

/// Typing one key that passes the filter and carries text puts that text (upper- or
/// lowercased) at the column: the characters before the column stay first, the typed ones
/// follow, then the characters that were at and after the column; the column moves one on
pub proof fn lemma_typing_inserts_at_the_column(
    line: Seq<char>,
    column: int,
    code: u32,
    text: Seq<char>,
    uppercase: bool,
    blacklist: Seq<u32>,
    whitelist: bool,
)
    requires
        0 <= column <= line.len(),
        blacklist.contains(code) == whitelist,
    ensures
        ({
            let (l, col) = typed(line, column, seq![(code, Some(text))], uppercase, blacklist, whitelist);
            let t = if uppercase { uppercase_of(text) } else { lowercase_of(text) };
            &&& l == line.subrange(0, column) + t + line.subrange(column, line.len() as int)
            &&& l.subrange(0, column) == line.subrange(0, column)
            &&& col == column + 1
        }),
{
    let keys = seq![(code, Some(text))];
    let t = if uppercase { uppercase_of(text) } else { lowercase_of(text) };
    assert(keys.subrange(1, 1) =~= Seq::<(u32, Option<Seq<char>>)>::empty());
    let l = insert_in_line(line, column, t);
    assert(typed(l, column + 1, keys.subrange(1, 1), uppercase, blacklist, whitelist) == (l, column + 1));
    assert(l =~= line.subrange(0, column) + t + line.subrange(column, line.len() as int));
    assert(l.subrange(0, column) =~= line.subrange(0, column));
}

/// A key that the blacklist holds (or, with a whitelist, that it does not hold), or that
/// carries no text, types nothing and leaves the column where it was
pub proof fn lemma_filtered_or_empty_keys_type_nothing(
    line: Seq<char>,
    column: int,
    code: u32,
    text: Option<Seq<char>>,
    uppercase: bool,
    blacklist: Seq<u32>,
    whitelist: bool,
)
    requires
        blacklist.contains(code) != whitelist || text is None,
    ensures
        typed(line, column, seq![(code, text)], uppercase, blacklist, whitelist) == (line, column),
{
    let keys = seq![(code, text)];
    assert(keys.subrange(1, 1) =~= Seq::<(u32, Option<Seq<char>>)>::empty());
    assert(typed(line, column, keys.subrange(1, 1), uppercase, blacklist, whitelist) == (line, column));
}

/// The keys as mathematical values
pub open spec fn keys_view(keys: Seq<KeyInput>) -> Seq<(u32, Option<Seq<char>>)> {
    keys.map_values(|k: KeyInput| (k.code, match k.text { Some(t) => Some(t@), None => None }))
}

/// Writing
impl TextInput {
    /// Writes out the keys at the caret position
    pub fn write(&mut self, keycodes: &Vec<KeyInput>, uppercase: bool, idx: usize)
        requires
            idx < old(self).caret@.len(),
            old(self).caret@[idx as int].line < old(self).text@.len(),
            old(self).caret@[idx as int].column + keycodes@.len() <= usize::MAX,
        ensures
            final(self).same_settings(old(self)),
            ({
                let c = old(self).caret@[idx as int];
                let (l, col) = typed(
                    old(self).lines()[c.line as int],
                    c.column as int,
                    keys_view(keycodes@),
                    uppercase,
                    old(self).blacklist@,
                    old(self).blacklist_is_whitelist,
                );
                &&& final(self).lines() == old(self).lines().update(c.line as int, l)
                &&& final(self).caret@ == old(self).caret@.update(idx as int, Caret { column: col as usize, ..c })
            }),
    {
        let ghost kv = keys_view(keycodes@);
        let ghost c0 = self.caret@[idx as int];
        let ghost target = typed(
            self.lines()[c0.line as int],
            c0.column as int,
            kv,
            uppercase,
            self.blacklist@,
            self.blacklist_is_whitelist,
        );
        let mut i: usize = 0;
        assert(kv.subrange(0, kv.len() as int) =~= kv);
        assert(self.lines() =~= old(self).lines().update(c0.line as int, self.lines()[c0.line as int]));
        let ghost mut col: usize = c0.column;
        assert(self.caret@ =~= old(self).caret@.update(idx as int, Caret { column: col, ..c0 }));
        while i < keycodes.len()
            invariant
                0 <= i <= keycodes@.len(),
                idx < self.caret@.len(),
                kv == keys_view(keycodes@),
                self.same_settings(old(self)),
                idx < old(self).caret@.len(),
                self.caret@ == old(self).caret@.update(idx as int, Caret { column: col, ..c0 }),
                self.caret@[idx as int].column == col,
                col <= c0.column + i,
                c0.column + keycodes@.len() <= usize::MAX,
                c0 == old(self).caret@[idx as int],
                c0.line < self.text@.len(),
                self.text@.len() == old(self).text@.len(),
                self.lines() == old(self).lines().update(c0.line as int, self.lines()[c0.line as int]),
                typed(
                    self.lines()[c0.line as int],
                    self.caret@[idx as int].column as int,
                    kv.subrange(i as int, kv.len() as int),
                    uppercase,
                    self.blacklist@,
                    self.blacklist_is_whitelist,
                ) == target,
            decreases keycodes.len() - i,
        {
            let ghost cur_line = self.lines()[c0.line as int];
            let ghost cur_col = self.caret@[idx as int].column as int;
            let ghost rest = kv.subrange(i as int, kv.len() as int);
            assert(rest.subrange(1, rest.len() as int) =~= kv.subrange(i + 1, kv.len() as int));
            assert(rest[0] == kv[i as int]);
            let key = &keycodes[i];
            if contains_code(&self.blacklist, key.code) != self.blacklist_is_whitelist {
                i = i + 1;
                continue;
            }
            match &key.text {
                Some(value) => {
                    let line = self.caret[idx].line;
                    let column = self.caret[idx].column;
                    assert(self.caret@[idx as int] == Caret { column: col, ..c0 });
                    assert(line == c0.line);
                    assert(self.lines().len() == self.text@.len());
                    let cased = if uppercase { to_uppercase_string(value.as_str()) } else { to_lowercase_string(value.as_str()) };
                    self.insert_string_into_line(line, column, cased.as_str());
                    let mut n = self.caret[idx];
                    n.column = column + 1;
                    self.set_caret(idx, n);
                    proof {
                        col = n.column;
                        assert(self.lines() =~= old(self).lines().update(c0.line as int, self.lines()[c0.line as int]));
                        assert(self.caret@ =~= old(self).caret@.update(idx as int, Caret { column: col, ..c0 }));
                    }
                },
                None => {},
            }
            i = i + 1;
        }
        proof {
            assert(self.lines() =~= old(self).lines().update(c0.line as int, target.0));
        }
    }
}


/// `c` repeated `n` times
pub open spec fn indent_run(c: char, n: nat) -> Seq<char> {
    Seq::new(n, |_i: int| c)
}

/// `a + 2`, saturating at the largest `usize`
pub open spec fn plus_two_saturating(a: usize) -> usize {
    if a + 2 > usize::MAX { usize::MAX } else { (a + 2) as usize }
}

/// How many indent characters make the text left of the caret reach the next indent stop
pub open spec fn indent_fill(left_len: int, indent_length: usize) -> usize {
    (indent_length - left_len % (indent_length as int)) as usize
}

/// How many characters an outdent removes: the distance to the previous indent stop, a
/// whole indent when already on one; `skip_back` is where the whitespace run left of the caret starts
pub open spec fn outdent_len(column: usize, skip_back: usize, indent_length: usize) -> usize {
    let back = if skip_back >= 1 { skip_back - 1 } else { 0 };
    let val = column - back;
    let rest = val % (indent_length as int);
    if rest == 0 { indent_length } else { rest as usize }
}

/// How many indent characters outdenting the start of a line may remove
pub open spec fn line_start_outdent_len(skip_start: usize, indent_length: usize) -> usize {
    let rest = plus_two_saturating(skip_start) % indent_length;
    if rest == 0 { indent_length } else { rest }
}

/// Every element of `s` is `c`
pub open spec fn all_are(s: Seq<char>, c: char) -> bool {
    forall|i: int| 0 <= i < s.len() ==> s[i] == c
}

/// If every character of `v` is `c`
pub fn all_chars_are(v: &Vec<char>, c: char) -> (r: bool)
    ensures
        r == all_are(v@, c),
{
    let mut i: usize = 0;
    while i < v.len()
        invariant
            i <= v@.len(),
            forall|j: int| 0 <= j < i ==> v@[j] == c,
        decreases v.len() - i,
    {
        if v[i] != c {
            return false;
        }
        i = i + 1;
    }
    true
}

/// In/Out denting
impl TextInput {
    /// Indent at the current caret position: fill up to the next indent stop
    pub fn indent(&mut self, idx: usize)
        requires
            idx < old(self).caret@.len(),
            old(self).caret@[idx as int].line < old(self).text@.len(),
            old(self).indent_length > 0,
            old(self).caret@[idx as int].column + old(self).indent_length <= usize::MAX,
        ensures
            final(self).same_settings(old(self)),
            ({
                let c = old(self).caret@[idx as int];
                let l = old(self).lines()[c.line as int];
                let n = indent_fill(take_upto(l, c.column as int).len() as int, old(self).indent_length);
                &&& final(self).lines() == old(self).lines().update(
                    c.line as int,
                    insert_in_line(l, c.column as int, indent_run(old(self).indent_char, n as nat)),
                )
                &&& final(self).caret@ == old(self).caret@.update(idx as int, Caret { column: (c.column + n) as usize, ..c })
            }),
    {
        let c = self.caret[idx];
        let v = chars_of(self.text[c.line].as_str());
        let left = take_chars(&v, c.column);
        let right = skip_chars(&v, c.column);
        let length = left.len() % self.indent_length;
        let repeats = self.indent_length - length;
        let insertion = repeat_char(self.indent_char, repeats);
        let joined = concat_chars(&concat_chars(&left, &insertion), &right);
        let mut n = c;
        n.column = c.column + repeats;
        self.set_caret(idx, n);
        self.set_line(c.line, string_of(joined.as_slice()));
    }

    /// Indent at the start of the line; `skip_start` is where the first structure of the
    /// line ends (the column the structure skipping finds going right from the line start)
    pub fn indent_at_line_start(&mut self, idx: usize, skip_start: usize)
        requires
            idx < old(self).caret@.len(),
            old(self).caret@[idx as int].line < old(self).text@.len(),
            old(self).indent_length > 0,
            old(self).caret@[idx as int].column + old(self).indent_length <= usize::MAX,
        ensures
            final(self).same_settings(old(self)),
            ({
                let c = old(self).caret@[idx as int];
                let l = old(self).lines()[c.line as int];
                let n = indent_fill(plus_two_saturating(skip_start) as int, old(self).indent_length);
                &&& final(self).lines() == old(self).lines().update(
                    c.line as int,
                    indent_run(old(self).indent_char, n as nat) + l,
                )
                &&& final(self).caret@ == old(self).caret@.update(idx as int, Caret { column: (c.column + n) as usize, ..c })
            }),
    {
        let c = self.caret[idx];
        let offset = skip_start.saturating_add(2);
        let length = offset % self.indent_length;
        let repeats = self.indent_length - length;
        let insertion = repeat_char(self.indent_char, repeats);
        let v = chars_of(self.text[c.line].as_str());
        let joined = concat_chars(&insertion, &v);
        let mut n = c;
        n.column = c.column + repeats;
        self.set_caret(idx, n);
        self.set_line(c.line, string_of(joined.as_slice()));
    }

    /// Outdent at the current caret position when whitespace is left of it;
    /// `skip_back` is where the structure left of the caret starts
    pub fn outdent(&mut self, idx: usize, skip_back: usize)
        requires
            idx < old(self).caret@.len(),
            old(self).caret@[idx as int].line < old(self).text@.len(),
            old(self).indent_length > 0,
            ({
                let c = old(self).caret@[idx as int];
                let left = take_upto(old(self).lines()[c.line as int], c.column as int);
                left.len() > 0 && char_type_spec(left.last()) == CharacterType::Whitespace ==> {
                    &&& (if skip_back >= 1 { skip_back - 1 } else { 0 }) <= c.column
                    &&& outdent_len(c.column, skip_back, old(self).indent_length) <= c.column
                }
            }),
        ensures
            final(self).same_settings(old(self)),
            ({
                let c = old(self).caret@[idx as int];
                let l = old(self).lines()[c.line as int];
                let left = take_upto(l, c.column as int);
                let n = outdent_len(c.column, skip_back, old(self).indent_length);
                if left.len() > 0 && char_type_spec(left.last()) == CharacterType::Whitespace {
                    &&& final(self).lines() == old(self).lines().update(
                        c.line as int,
                        take_upto(left, c.column - n) + skip_upto(l, c.column as int),
                    )
                    &&& final(self).caret@ == old(self).caret@.update(idx as int, Caret { column: (c.column - n) as usize, ..c })
                } else {
                    &&& final(self).text == old(self).text
                    &&& final(self).caret == old(self).caret
                }
            }),
    {
        let c = self.caret[idx];
        let v = chars_of(self.text[c.line].as_str());
        let left = take_chars(&v, c.column);
        let last = if left.len() > 0 { left[left.len() - 1] } else { '\0' };
        if left.len() == 0 || get_char_type(last) != CharacterType::Whitespace {
            proof {
                if left@.len() > 0 {
                    assert(left@.last() == last);
                }
            }
            return;
        }
        assert(left@.last() == last);
        let right = skip_chars(&v, c.column);
        let back = skip_back.saturating_sub(1);
        let val = c.column - back;
        let rest = val % self.indent_length;
        let length = if rest == 0 { self.indent_length } else { rest };
        let before = take_chars(&left, c.column - length);
        let joined = concat_chars(&before, &right);
        let mut n = c;
        n.column = c.column - length;
        self.set_caret(idx, n);
        self.set_line(c.line, string_of(joined.as_slice()));
    }

    /// Outdent the start of the line if it begins with indent characters;
    /// `skip_start` is where the first structure of the text left of the caret ends
    pub fn indent_start_of_line(&mut self, idx: usize, skip_start: usize)
        requires
            idx < old(self).caret@.len(),
            old(self).caret@[idx as int].line < old(self).text@.len(),
            old(self).indent_length > 0,
            ({
                let c = old(self).caret@[idx as int];
                let left = take_upto(old(self).lines()[c.line as int], c.column as int);
                let n = line_start_outdent_len(skip_start, old(self).indent_length);
                all_are(take_upto(left, n as int), old(self).indent_char) ==> n <= c.column
            }),
        ensures
            final(self).same_settings(old(self)),
            ({
                let c = old(self).caret@[idx as int];
                let l = old(self).lines()[c.line as int];
                let left = take_upto(l, c.column as int);
                let n = line_start_outdent_len(skip_start, old(self).indent_length);
                if all_are(take_upto(left, n as int), old(self).indent_char) {
                    &&& final(self).lines() == old(self).lines().update(
                        c.line as int,
                        skip_upto(left, n as int) + skip_upto(l, c.column as int),
                    )
                    &&& final(self).caret@ == old(self).caret@.update(idx as int, Caret { column: (c.column - n) as usize, ..c })
                } else {
                    &&& final(self).text == old(self).text
                    &&& final(self).caret == old(self).caret
                }
            }),
    {
        let c = self.caret[idx];
        let v = chars_of(self.text[c.line].as_str());
        let left = take_chars(&v, c.column);
        let right = skip_chars(&v, c.column);
        let rest = skip_start.saturating_add(2) % self.indent_length;
        let length = if rest == 0 { self.indent_length } else { rest };
        let before = take_chars(&left, length);
        let after = skip_chars(&left, length);
        if all_chars_are(&before, self.indent_char) {
            let joined = concat_chars(&after, &right);
            let mut n = c;
            n.column = c.column - length;
            self.set_caret(idx, n);
            self.set_line(c.line, string_of(joined.as_slice()));
        }
    }
}


/// The column `column` of every line, a space where a line is shorter
pub open spec fn vertical_strip(lines: Seq<Seq<char>>, column: usize) -> Seq<char> {
    Seq::new(lines.len(), |i: int| if column < lines[i].len() { lines[i][column as int] } else { ' ' })
}

/// The characters of a sequence in reverse order
pub open spec fn reversed(s: Seq<char>) -> Seq<char> {
    Seq::new(s.len(), |i: int| s[s.len() - 1 - i])
}

/// The character at `i`, or the NUL character outside the line
pub open spec fn char_or_nul(l: Seq<char>, i: int) -> char {
    if 0 <= i < l.len() { l[i] } else { '\0' }
}

/// Where a structure selection starts, given where the structure left of the caret starts
pub open spec fn structure_left(l: Seq<char>, column: usize, skip_back: usize) -> usize {
    let lt = char_type_spec(char_or_nul(l, if column >= 1 { column - 1 } else { 0 }));
    let rt = char_type_spec(char_or_nul(l, column as int));
    if column == 1 || (column != 0 && lt == char_type_spec(char_or_nul(l, column - 2))) {
        skip_back
    } else if rt == lt {
        if column >= 1 { (column - 1) as usize } else { 0 }
    } else {
        column
    }
}

/// Where a structure selection ends, given where the structure right of the caret ends
pub open spec fn structure_right(l: Seq<char>, column: usize, skip_fwd: usize) -> usize {
    let lt = char_type_spec(char_or_nul(l, if column >= 1 { column - 1 } else { 0 }));
    let rt = char_type_spec(char_or_nul(l, column as int));
    if rt == char_type_spec(char_or_nul(l, column + 1)) {
        skip_fwd
    } else if rt == lt {
        (column + 1) as usize
    } else {
        column
    }
}

/// The character at `i` of a character vector, or the NUL character outside it
fn char_at_or_nul(v: &Vec<char>, i: usize) -> (r: char)
    ensures
        r == char_or_nul(v@, i as int),
{
    if i < v.len() { v[i] } else { '\0' }
}

/// Where a structure move to the left starts: at the start of a line, one step left first
pub open spec fn left_structure_origin(lines: Seq<Seq<char>>, c: Caret, wrap: bool) -> Caret {
    if c.column == 0 { caret_left(lines, c, wrap) } else { c }
}

/// Where a structure move to the right starts: at the end of a line, one step right first
pub open spec fn right_structure_origin(lines: Seq<Seq<char>>, c: Caret, wrap: bool) -> Caret {
    if c.column == lines[c.line as int].len() { caret_right(lines, c, wrap) } else { c }
}

/// The characters of a vector in reverse order
pub fn reverse_chars(v: &Vec<char>) -> (r: Vec<char>)
    ensures
        r@ == reversed(v@),
{
    let mut r: Vec<char> = Vec::new();
    let mut i: usize = v.len();
    while i > 0
        invariant
            i <= v@.len(),
            r@.len() == v@.len() - i,
            forall|j: int| 0 <= j < r@.len() ==> r@[j] == v@[v@.len() - 1 - j],
        decreases i,
    {
        i = i - 1;
        r.push(v[i]);
    }
    assert(r@ =~= reversed(v@));
    r
}

/// Selection and structure movement
impl TextInput {
    /// Select all text available
    pub fn select_all(&mut self, idx: usize)
        requires
            idx < old(self).caret@.len(),
            old(self).text@.len() >= 1,
        ensures
            final(self).only_caret_changed(
                old(self),
                idx as int,
                Caret {
                    line: last_line_idx(old(self).lines()),
                    column: old(self).lines()[last_line_idx(old(self).lines()) as int].len() as usize,
                    highlight_pos: TextPosition { line: 0, column: 0 },
                    highlight_enabled: true,
                    ..old(self).caret@[idx as int]
                },
            ),
    {
        let l = self.line_count_idx();
        let len = self.get_line_length(l);
        let mut c = self.caret[idx];
        c.line = 0;
        c.column = 0;
        c.set_highlight_origin_to_current_pos();
        c.highlight_enabled = true;
        c.line = l;
        c.column = len;
        self.set_caret(idx, c);
    }

    /// Select the structure around the caret; `skip_back` is where the structure left of the
    /// caret starts and `skip_fwd` where the structure right of it ends
    pub fn select_structure(&mut self, idx: usize, skip_back: usize, skip_fwd: usize)
        requires
            idx < old(self).caret@.len(),
            old(self).caret@[idx as int].line < old(self).text@.len(),
            old(self).caret@[idx as int].column < usize::MAX,
        ensures
            ({
                let c = old(self).caret@[idx as int];
                let l = old(self).lines()[c.line as int];
                let left = structure_left(l, c.column, skip_back);
                let right = structure_right(l, c.column, skip_fwd);
                final(self).only_caret_changed(
                    old(self),
                    idx as int,
                    Caret {
                        column: right,
                        highlight_enabled: true,
                        highlight_pos: if c.highlight_enabled {
                            c.highlight_pos
                        } else {
                            TextPosition { line: c.line, column: left }
                        },
                        ..c
                    },
                )
            }),
    {
        let c = self.caret[idx];
        let v = chars_of(self.text[c.line].as_str());
        let col = c.column;
        let lt = get_char_type(char_at_or_nul(&v, col.saturating_sub(1)));
        let rt = get_char_type(char_at_or_nul(&v, col));
        let left = if col == 1 || (col != 0 && lt == get_char_type(char_at_or_nul(&v, col - 2))) {
            skip_back
        } else if rt == lt {
            col.saturating_sub(1)
        } else {
            col
        };
        let right = if rt == get_char_type(char_at_or_nul(&v, col + 1)) {
            skip_fwd
        } else if rt == lt {
            col + 1
        } else {
            col
        };
        let mut n = c;
        n.column = left;
        n.enable_highlight();
        n.column = right;
        self.set_caret(idx, n);
    }

    /// Get a full column: the character at `column` of every line, a space where a line is shorter
    pub fn get_line_vertically(&self, column: usize) -> (r: String)
        ensures
            r@ == vertical_strip(self.lines(), column),
    {
        let mut value: Vec<char> = Vec::new();
        let mut i: usize = 0;
        while i < self.text.len()
            invariant
                i <= self.text@.len(),
                value@.len() == i,
                forall|j: int| 0 <= j < i ==> value@[j] == vertical_strip(self.lines(), column)[j],
            decreases self.text.len() - i,
        {
            let ch = self.get_character(i, column);
            match ch {
                Some(x) => value.push(x),
                None => value.push(' '),
            }
            i = i + 1;
        }
        assert(value@ =~= vertical_strip(self.lines(), column));
        string_of(value.as_slice())
    }

    /// Move a structure up; `skip` is how far the structure skipping goes in the reversed
    /// vertical strip of the caret's column, starting at the line count minus the caret line
    pub fn move_up_by_structure(&mut self, idx: usize, skip: usize)
        requires
            idx < old(self).caret@.len(),
            old(self).caret@[idx as int].line + skip <= usize::MAX,
        ensures
            final(self).only_caret_changed(
                old(self),
                idx as int,
                Caret { line: (old(self).caret@[idx as int].line + skip) as usize, ..old(self).caret@[idx as int] },
            ),
    {
        let mut c = self.caret[idx];
        c.line = c.line + skip;
        self.set_caret(idx, c);
    }

    /// Move a structure down; `skip` is how far the structure skipping goes in the vertical
    /// strip of the caret's column, starting at the caret line (clamped to the last line)
    pub fn move_down_by_structure(&mut self, idx: usize, skip: usize)
        requires
            idx < old(self).caret@.len(),
            old(self).caret@[idx as int].line + skip <= usize::MAX,
        ensures
            final(self).only_caret_changed(
                old(self),
                idx as int,
                Caret {
                    line: clamp_line(old(self).lines(), (old(self).caret@[idx as int].line + skip) as usize),
                    ..old(self).caret@[idx as int]
                },
            ),
    {
        let mut c = self.caret[idx];
        c.line = self.clamp_to_line_count(skip + c.line);
        self.set_caret(idx, c);
    }

    /// Move the caret to the start of the structure left of it (from the end of the previous
    /// line when at the start of a line); `skip_backward` is the structure skipping going left
    pub fn move_left_by_structure<F: Fn(&str, usize) -> usize>(&mut self, idx: usize, skip_backward: &F)
        requires
            idx < old(self).caret@.len(),
            forall|s: &str, i: usize| #[trigger] skip_backward.requires((s, i)),
            old(self).caret@[idx as int].column == 0 ==> {
                !old(self).caret@[idx as int].highlight_enabled ==> {
                    if old(self).caret@[idx as int].line == 0 {
                        old(self).allow_caret_wrap ==> old(self).text@.len() >= 1
                    } else {
                        old(self).caret@[idx as int].line - 1 < old(self).text@.len()
                    }
                }
            },
            ({
                left_structure_origin(old(self).lines(), old(self).caret@[idx as int], old(self).allow_caret_wrap).line
                    < old(self).text@.len()
            }),
        ensures
            final(self).same_settings(old(self)),
            final(self).text == old(self).text,
            ({
                let c1 = left_structure_origin(old(self).lines(), old(self).caret@[idx as int], old(self).allow_caret_wrap);
                exists|s: &str, r: usize|
                    s@ == old(self).lines()[c1.line as int] && #[trigger] skip_backward.ensures((s, c1.column), r)
                    && final(self).caret@ == old(self).caret@.update(idx as int, Caret { column: r, ..c1 })
            }),
    {
        if self.caret[idx].column == 0 {
            self.move_left(idx);
        }
        let mut c = self.caret[idx];
        let line_text = self.text[c.line].as_str();
        let r = skip_backward(line_text, c.column);
        let ghost c1 = c;
        c.column = r;
        self.set_caret(idx, c);
        proof {
            assert(line_text@ == old(self).lines()[c1.line as int]);
            assert(skip_backward.ensures((line_text, c1.column), r));
        }
    }

    /// Move the caret to the end of the structure right of it (from the start of the next
    /// line when at the end of a line); `skip_forward` is the structure skipping going right
    pub fn move_right_by_structure<F: Fn(&str, usize) -> usize>(&mut self, idx: usize, skip_forward: &F)
        requires
            idx < old(self).caret@.len(),
            forall|s: &str, i: usize| #[trigger] skip_forward.requires((s, i)),
            old(self).caret@[idx as int].line < old(self).text@.len(),
            old(self).caret@[idx as int].column < usize::MAX,
            ({
                right_structure_origin(old(self).lines(), old(self).caret@[idx as int], old(self).allow_caret_wrap).line
                    < old(self).text@.len()
            }),
        ensures
            final(self).same_settings(old(self)),
            final(self).text == old(self).text,
            ({
                let c1 = right_structure_origin(old(self).lines(), old(self).caret@[idx as int], old(self).allow_caret_wrap);
                exists|s: &str, r: usize|
                    s@ == old(self).lines()[c1.line as int] && #[trigger] skip_forward.ensures((s, c1.column), r)
                    && final(self).caret@ == old(self).caret@.update(idx as int, Caret { column: r, ..c1 })
            }),
    {
        let len = self.get_line_length(self.caret[idx].line);
        if self.caret[idx].column == len {
            self.move_right(idx);
        }
        let mut c = self.caret[idx];
        let line_text = self.text[c.line].as_str();
        let r = skip_forward(line_text, c.column);
        let ghost c1 = c;
        c.column = r;
        self.set_caret(idx, c);
        proof {
            assert(line_text@ == old(self).lines()[c1.line as int]);
            assert(skip_forward.ensures((line_text, c1.column), r));
        }
    }

    /// Open the given menu, or close it when it is already open
    pub fn toggle_menu(&mut self, menu: TextInputMenu)
        ensures
            *final(self) == (TextInput { menu_open: toggled_menu(old(self).menu_open, menu), ..*old(self) }),
    {
        if self.menu_open == menu {
            self.menu_open = TextInputMenu::Closed;
        } else {
            self.menu_open = menu;
        }
    }
}


/// A text with every tab replaced by `spaces_per_tab` spaces
pub open spec fn expand_tabs(s: Seq<char>, spaces_per_tab: usize) -> Seq<char>
    decreases s.len(),
{
    if s.len() == 0 {
        Seq::empty()
    } else {
        expand_tabs(s.drop_last(), spaces_per_tab) + if s.last() == '\t' {
            indent_run(' ', spaces_per_tab as nat)
        } else {
            seq![s.last()]
        }
    }
}

/// Lines joined into one text, a line break between each two
pub open spec fn join_lines(ls: Seq<Seq<char>>) -> Seq<char>
    decreases ls.len(),
{
    if ls.len() == 0 {
        Seq::empty()
    } else if ls.len() == 1 {
        ls[0]
    } else {
        join_lines(ls.drop_last()) + seq!['\n'] + ls.last()
    }
}

/// Appending to the last line appends to the joined text
proof fn lemma_join_extend_last(out: Seq<Seq<char>>, cur: Seq<char>, more: Seq<char>)
    ensures
        join_lines(out.push(cur + more)) == join_lines(out.push(cur)) + more,
{
    assert(out.push(cur + more).drop_last() =~= out);
    assert(out.push(cur).drop_last() =~= out);
    if out.len() == 0 {
        assert(out.push(cur + more)[0] == cur + more);
    } else {
        assert(join_lines(out) + seq!['\n'] + (cur + more) =~= join_lines(out) + seq!['\n'] + cur + more);
    }
}

/// Convert normal text into text a text input can use: every tab becomes `spaces_per_tab`
/// spaces and the text is split at the line breaks (so there is always at least one line)
pub fn ready_text(text: &str, spaces_per_tab: usize) -> (r: Vec<String>)
    ensures
        r@.len() >= 1,
        join_lines(lines_of(r@)) == expand_tabs(text@, spaces_per_tab),
        forall|i: int| 0 <= i < r@.len() ==> !(#[trigger] r@[i]@).contains('\n'),
{
    let v = chars_of(text);
    let spaces = repeat_char(' ', spaces_per_tab);
    let mut out: Vec<String> = Vec::new();
    let mut cur: Vec<char> = Vec::new();
    let mut i: usize = 0;
    while i < v.len()
        invariant
            i <= v@.len(),
            spaces@ == indent_run(' ', spaces_per_tab as nat),
            join_lines(lines_of(out@).push(cur@)) == expand_tabs(v@.subrange(0, i as int), spaces_per_tab),
            !cur@.contains('\n'),
            forall|k: int| 0 <= k < out@.len() ==> !(#[trigger] out@[k]@).contains('\n'),
        decreases v.len() - i,
    {
        let ch = v[i];
        proof {
            let pre = v@.subrange(0, i + 1);
            assert(pre.drop_last() =~= v@.subrange(0, i as int));
            assert(pre.last() == ch);
        }
        if ch == '\n' {
            let ghost before = lines_of(out@).push(cur@);
            let line = string_of(cur.as_slice());
            out.push(line);
            cur = Vec::new();
            proof {
                let now = lines_of(out@).push(cur@);
                assert(lines_of(out@) =~= before);
                assert(now.drop_last() =~= before);
                assert(now.last() =~= Seq::<char>::empty());
                assert(join_lines(now) =~= join_lines(before) + seq!['\n']);
            }
        } else if ch == '\t' {
            let ghost old_cur = cur@;
            cur = concat_chars(&cur, &spaces);
            proof {
                lemma_join_extend_last(lines_of(out@), old_cur, spaces@);
                assert(!cur@.contains('\n')) by {
                    if cur@.contains('\n') {
                        let k = choose|k: int| 0 <= k < cur@.len() && cur@[k] == '\n';
                        if k < old_cur.len() {
                            assert(old_cur[k] == '\n');
                        } else {
                            assert(spaces@[k - old_cur.len()] == '\n');
                        }
                    }
                }
            }
        } else {
            let ghost old_cur = cur@;
            cur.push(ch);
            proof {
                assert(cur@ =~= old_cur + seq![ch]);
                lemma_join_extend_last(lines_of(out@), old_cur, seq![ch]);
                assert(!cur@.contains('\n')) by {
                    if cur@.contains('\n') {
                        let k = choose|k: int| 0 <= k < cur@.len() && cur@[k] == '\n';
                        if k < old_cur.len() {
                            assert(old_cur[k] == '\n');
                        }
                    }
                }
            }
        }
        i = i + 1;
    }
    let ghost before = lines_of(out@).push(cur@);
    let last = string_of(cur.as_slice());
    out.push(last);
    proof {
        assert(lines_of(out@) =~= before);
        assert(v@.subrange(0, v@.len() as int) =~= v@);
    }
    out
}

/// The caret a new text input starts with: at the end of the last given line
pub open spec fn initial_caret(text: Option<Seq<Seq<char>>>) -> Caret {
    match text {
        Some(t) => if t.len() == 0 {
            fresh_caret(0, 0)
        } else {
            fresh_caret((t.len() - 1) as usize, t.last().len() as usize)
        },
        None => fresh_caret(0, 0),
    }
}

impl TextInput {
    /// A text input with the given line height, width, line limit and starting text
    /// (one empty line when none is given), with the caret at the end of the text
    pub fn new(line_height: usize, width: usize, lines: usize, text: Option<Vec<String>>) -> (r: Self)
        ensures
            r.width == width,
            r.line_height == line_height,
            r.max_lines == lines,
            r.lines() == match text {
                Some(t) => lines_of(t@),
                None => seq![Seq::<char>::empty()],
            },
            r.caret@ == seq![initial_caret(match text {
                Some(t) => Some(lines_of(t@)),
                None => None,
            })],
            r.needs_redraw,
            r.selected == 0,
            !r.remove_behind,
            r.last_states@.len() == 0,
            r.current_state == 0,
            r.placeholder_text@ == Seq::<char>::empty(),
            !r.read_only,
            r.indent_length == 4,
            r.indent_char == ' ',
            !r.allow_caret_wrap,
            r.line_number_offset == width / 10,
            !r.overwrite_mode,
            r.retain_indent,
            r.menu_open == TextInputMenu::Closed,
            r.show_line_numbers,
            r.blacklist@.len() == 0,
            !r.blacklist_is_whitelist,
    {
        let ghost given = text;
        let (t, caret) = match text {
            Some(t) => {
                let c = if t.len() == 0 {
                    Caret::new(0, 0)
                } else {
                    let v = chars_of(t[t.len() - 1].as_str());
                    Caret::new(t.len() - 1, v.len())
                };
                (t, c)
            },
            None => {
                let mut t: Vec<String> = Vec::new();
                t.push(String::new());
                (t, Caret::new(0, 0))
            },
        };
        let ghost tv = t@;
        let mut carets: Vec<Caret> = Vec::new();
        carets.push(caret);
        let r = TextInput {
            width,
            line_height,
            max_lines: lines,
            text: t,
            needs_redraw: true,
            selected: 0,
            caret: carets,
            remove_behind: false,
            last_states: Vec::new(),
            current_state: 0,
            placeholder_text: String::new(),
            read_only: false,
            indent_length: 4,
            indent_char: ' ',
            allow_caret_wrap: false,
            line_number_offset: width / 10,
            overwrite_mode: false,
            retain_indent: true,
            menu_open: TextInputMenu::Closed,
            show_line_numbers: true,
            blacklist: Vec::new(),
            blacklist_is_whitelist: false,
        };
        proof {
            assert(r.caret@ =~= seq![caret]);
            match given {
                Some(tt) => {}
                None => {
                    assert(r.lines() =~= seq![Seq::<char>::empty()]);
                }
            }
        }
        r
    }

    /// Set the placeholder text displayed when nothing is typed
    pub fn with_placeholder_text(self, text: &str) -> (r: Self)
        ensures
            r.placeholder_text@ == text@,
            r.text == self.text,
            r.caret == self.caret,
            r.width == self.width,
            r.max_lines == self.max_lines,
            r.read_only == self.read_only,
    {
        let mut s = self;
        s.placeholder_text = text.to_owned();
        s
    }
}


#[derive(Debug, Clone, Copy, PartialEq, Eq, Structural)]
/// What a key binding of the text input does
pub enum Actions {
    NewLine,
    NewLineWithoutShifting,
    Indent,
    IndentAtLineStart,
    Outdent,
    OutdentAtLineStart,
    DeleteLeft,
    DeleteRight,
    DeleteStructureLeft,
    DeleteStructureRight,
    DeleteCurrentLine,
    Undo,
    Redo,
    Copy,
    Cut,
    RequestPaste,
    MoveUp,
    MoveStructureUp,
    MoveUpAndHighlight,
    MoveStructureUpAndHighlight,
    MoveDown,
    MoveStructureDown,
    MoveDownAndHighlight,
    MoveStructureDownAndHighlight,
    MoveLeft,
    MoveStructureLeft,
    MoveLeftAndHighlight,
    MoveStructureLeftAndHighlight,
    MoveRight,
    MoveStructureRight,
    MoveRightAndHighlight,
    MoveStructureRightAndHighlight,
    SwapWithLineAbove,
    SwapWithLineBelow,
    ToggleSearchWindow,
    ToggleReplaceWindow,
    ToggleOverwrite,
    MoveToLine,
    SelectAll,
    DuplicateLineBelow,
    DuplicateToAbove,
    MoveToEndOfDocument,
    MoveToEndOfLine,
    MoveToStartOfDocument,
    MoveToStartOfLine,
    SelectStructure,
    SelectLine,
}

/// Keeping the undo history unchanged is asked for by an undo or a redo
pub open spec fn asks_no_save(a: Actions) -> bool {
    a == Actions::Undo || a == Actions::Redo
}

/// Clipboard data is produced by a copy or a cut
pub open spec fn gives_clipboard(a: Actions) -> bool {
    a == Actions::Copy || a == Actions::Cut
}

/// The open menu after asking for `menu`: it closes when it was open, else it opens
pub open spec fn toggled_menu(open: TextInputMenu, menu: TextInputMenu) -> TextInputMenu {
    if open == menu { TextInputMenu::Closed } else { menu }
}

/// What a copy with caret `c` gives: the highlighted lines (nothing when the highlight leaves
/// the text), or, without a highlight, the caret's whole line (nothing when the caret is past
/// the last line)
pub open spec fn copied(lines: Seq<Seq<char>>, c: Caret, r: Option<ClipboardData>) -> bool {
    let area = (c.highlight_pos, caret_pos(c));
    if c.highlight_enabled {
        if area_is_empty(area) || area_in_text(lines, area) {
            r is Some && r->0 is ListOfText && r->0->ListOfText_0.deep_view() == selected_lines(lines, area)
        } else {
            r is None
        }
    } else if c.line < lines.len() {
        r is Some && r->0 is Text && r->0->Text_0@ == lines[c.line as int]
    } else {
        r is None
    }
}

/// What one key binding action does to the input (see `apply_action`), with the structure
/// skipping `fwd` / `back`: only a copy or a cut gives clipboard data, the actions that keep
/// the text keep it, and each action does what `navigated`, `edited`, `structure_edited`,
/// `structure_moved` or `structure_moved_vertically` says of it
pub open spec fn action_applied<F: Fn(&str, usize) -> usize, G: Fn(&str, usize) -> usize>(
    o: TextInput,
    f: TextInput,
    action: Actions,
    r: Option<ClipboardData>,
    fwd: F,
    back: G,
) -> bool {
    &&& r is Some ==> gives_clipboard(action)
    &&& keeps_text(action) ==> f.text == o.text
    &&& navigated(o, f, action, r)
    &&& edited(o, f, action, r)
    &&& structure_edited(o, f, action, fwd, back)
    &&& structure_moved(o, f, action, fwd, back)
    &&& structure_moved_vertically(o, f, action, fwd)
}

/// One step of the key binding loop: with a caret the action is applied, without one nothing
/// happens
pub open spec fn action_step<F: Fn(&str, usize) -> usize, G: Fn(&str, usize) -> usize>(
    o: TextInput,
    f: TextInput,
    action: Actions,
    r: Option<ClipboardData>,
    fwd: F,
    back: G,
) -> bool {
    if o.caret@.len() >= 1 {
        action_applied(o, f, action, r, fwd, back)
    } else {
        f == o && r is None
    }
}

/// The actions were applied in turn, going through the inputs `states` (the first is the
/// input before, the last the input after) and giving the clipboard data `outs`
pub open spec fn actions_applied<F: Fn(&str, usize) -> usize, G: Fn(&str, usize) -> usize>(
    actions: Seq<Actions>,
    states: Seq<TextInput>,
    outs: Seq<Option<ClipboardData>>,
    fwd: F,
    back: G,
) -> bool {
    &&& states.len() == actions.len() + 1
    &&& outs.len() == actions.len()
    &&& forall|k: int| 0 <= k < actions.len() ==> #[trigger] action_step(states[k], states[k + 1], actions[k], outs[k], fwd, back)
}

/// The clipboard data the last action that gave any gave
pub open spec fn last_clipboard(outs: Seq<Option<ClipboardData>>) -> Option<ClipboardData>
    decreases outs.len(),
{
    if outs.len() == 0 {
        None
    } else if outs.last() is Some {
        outs.last()
    } else {
        last_clipboard(outs.drop_last())
    }
}

/// The input after the key binding loop: an input left without lines gets one empty line
pub open spec fn with_a_line(s: TextInput, f: TextInput) -> bool {
    if s.text@.len() == 0 {
        &&& f.lines() == seq![Seq::<char>::empty()]
        &&& f.caret == s.caret
        &&& f.same_settings(&s)
    } else {
        f == s
    }
}

/// What a navigation action does: a paste request changes nothing; a copy changes nothing and
/// gives the copied text; the toggles flip the overwrite mode or open/close their menu; an
/// undo/redo steps through the history; the moves put the first caret at the start/end of
/// the document or line, or one step up, down or right without a highlight (each when the
/// caret allows it)
pub open spec fn navigated(o: TextInput, f: TextInput, action: Actions, r: Option<ClipboardData>) -> bool {
    let lines = o.lines();
    let n = o.text@.len();
    let c = o.caret@[0];
    let unhighlighted = |k: Caret| Caret { highlight_enabled: false, ..k };
    &&& action == Actions::RequestPaste ==> r is None && f == o
    &&& action == Actions::Copy ==> f == o && copied(lines, c, r)
    &&& action == Actions::ToggleOverwrite ==> f == (TextInput { overwrite_mode: !o.overwrite_mode, ..o })
    &&& action == Actions::ToggleSearchWindow ==>
        f == (TextInput { menu_open: toggled_menu(o.menu_open, TextInputMenu::Search), ..o })
    &&& action == Actions::ToggleReplaceWindow ==>
        f == (TextInput { menu_open: toggled_menu(o.menu_open, TextInputMenu::Replace), ..o })
    &&& action == Actions::MoveToLine ==>
        f == (TextInput { menu_open: toggled_menu(o.menu_open, TextInputMenu::SkipToLine), ..o })
    &&& action == Actions::Redo ==> {
        &&& same_but_position(&f, &o)
        &&& if o.current_state + 1 < o.last_states@.len() {
            &&& f.current_state == o.current_state + 1
            &&& (f.lines(), f.caret@) == o.history()[o.current_state + 1]
        } else {
            f.text == o.text && f.caret == o.caret
        }
    }
    &&& action == Actions::Undo ==> {
        &&& same_but_position(&f, &o)
        &&& if can_undo(o.current_state, o.last_states@.len()) {
            &&& f.current_state == o.current_state - 1
            &&& (f.lines(), f.caret@) == o.history()[o.current_state - 1]
        } else {
            f.text == o.text && f.caret == o.caret && f.current_state == o.current_state
        }
    }
    &&& action == Actions::SelectAll && n == 0 ==> f == o
    &&& action == Actions::SelectAll && n >= 1 ==> f.only_caret_changed(&o, 0, Caret {
        line: last_line_idx(lines),
        column: lines[last_line_idx(lines) as int].len() as usize,
        highlight_pos: TextPosition { line: 0, column: 0 },
        highlight_enabled: true,
        ..c
    })
    &&& action == Actions::MoveToStartOfDocument ==>
        f.only_caret_changed(&o, 0, Caret { line: 0, column: 0, ..c })
    &&& action == Actions::MoveToEndOfDocument && n == 0 ==> f == o
    &&& action == Actions::MoveToEndOfDocument && n >= 1 ==> f.only_caret_changed(&o, 0, Caret {
        line: last_line_idx(lines),
        column: lines[last_line_idx(lines) as int].len() as usize,
        ..c
    })
    &&& action == Actions::MoveToStartOfLine ==>
        f.only_caret_changed(&o, 0, Caret { column: 0, ..c })
    &&& action == Actions::MoveToEndOfLine && c.line >= n ==> f == o
    &&& action == Actions::MoveToEndOfLine && c.line < n ==>
        f.only_caret_changed(&o, 0, Caret { column: lines[c.line as int].len() as usize, ..c })
    &&& action == Actions::MoveUp && n == 0 ==> f == o
    &&& action == Actions::MoveUp && n >= 1 ==>
        f.only_caret_changed(&o, 0, unhighlighted(caret_up(lines, c)))
    &&& action == Actions::MoveDown && !(n >= 1 && c.line < usize::MAX) ==> f == o
    &&& action == Actions::MoveDown && n >= 1 && c.line < usize::MAX ==>
        f.only_caret_changed(&o, 0, unhighlighted(caret_down(lines, c)))
    &&& action == Actions::MoveRight && !(c.highlight_enabled || (c.line < n && c.column < usize::MAX)) ==> f == o
    &&& action == Actions::MoveRight && (c.highlight_enabled || (c.line < n && c.column < usize::MAX)) ==>
        f.only_caret_changed(&o, 0, unhighlighted(caret_right(lines, c, o.allow_caret_wrap)))

}

/// Caret `c` with a highlight started at its own position when it had none
pub open spec fn highlighted(c: Caret) -> Caret {
    if c.highlight_enabled {
        c
    } else {
        Caret { highlight_enabled: true, highlight_pos: caret_pos(c), ..c }
    }
}

/// A step left of the first caret stays inside the text
pub open spec fn left_step_fits(o: TextInput) -> bool {
    let c = o.caret@[0];
    c.highlight_enabled || c.column != 0 || (if c.line == 0 {
        !o.allow_caret_wrap || o.text@.len() >= 1
    } else {
        c.line - 1 < o.text@.len()
    })
}

/// A deletion at the first caret stays inside the text
pub open spec fn deletion_fits(o: TextInput) -> bool {
    let c = o.caret@[0];
    highlight_deletable(o.lines(), o.caret@, 0) && (c.highlight_enabled || c.line < o.text@.len())
}

/// What a deletion left of the first caret gives (see `delete_left`)
pub open spec fn deleted_left(o: TextInput, f: TextInput) -> bool {
    let c = o.caret@[0];
    let lines = o.lines();
    &&& f.same_settings(&o)
    &&& if c.highlight_enabled {
        (f.lines(), f.caret@) == state_after_highlight_delete(lines, o.caret@, 0)
    } else if c.column == 0 {
        if c.line == 0 {
            f.lines() == lines && f.caret == o.caret
        } else {
            let prev = (c.line - 1) as usize;
            let cs = o.caret@.update(0, Caret { column: lines[prev as int].len() as usize, ..c });
            let merged = lines.update(prev as int, lines[prev as int] + lines[c.line as int]).remove(c.line as int);
            &&& f.lines() == merged
            &&& f.caret@ == cs.update(0, caret_after_removal(merged, cs[0], c.line))
        }
    } else {
        &&& f.lines() == lines.update(c.line as int, remove_chars_at(lines[c.line as int], c.column - 1, 1))
        &&& f.caret@ == o.caret@.update(0, Caret { column: (c.column - 1) as usize, ..c })
    }
}

/// What a deletion right of the first caret gives (see `delete_right`)
pub open spec fn deleted_right(o: TextInput, f: TextInput) -> bool {
    let c = o.caret@[0];
    let lines = o.lines();
    &&& f.same_settings(&o)
    &&& if c.highlight_enabled {
        (f.lines(), f.caret@) == state_after_highlight_delete(lines, o.caret@, 0)
    } else if c.column == lines[c.line as int].len() {
        let other = clamp_line(lines, (c.line + 1) as usize);
        if other == c.line {
            f.lines() == lines && f.caret == o.caret
        } else {
            let merged = lines.update(c.line as int, lines[c.line as int] + lines[other as int]).remove(other as int);
            &&& f.lines() == merged
            &&& f.caret@ == o.caret@.update(0, caret_after_removal(merged, o.caret@[0], other))
        }
    } else {
        &&& f.lines() == lines.update(c.line as int, remove_chars_at(lines[c.line as int], c.column as int, 1))
        &&& f.caret == o.caret
    }
}

/// What a cut that gave data leaves: the highlighted text deleted (the first caret, without a
/// highlight, at its start), or without a highlight the caret's line removed
pub open spec fn cut_out(o: TextInput, f: TextInput) -> bool {
    let c = o.caret@[0];
    let lines = o.lines();
    let area = (c.highlight_pos, caret_pos(c));
    &&& f.same_settings(&o)
    &&& if c.highlight_enabled {
        &&& f.lines() == lines_without_area(lines, area)
        &&& area_is_empty(area) ==> f.caret == o.caret
        &&& !area_is_empty(area) ==> f.caret@ == o.caret@.update(
            0,
            Caret { line: area_bounds(area).0, column: area_bounds(area).2, highlight_enabled: false, ..c },
        )
    } else {
        &&& f.lines() == lines.remove(c.line as int)
        &&& f.caret@ == o.caret@.update(0, caret_after_removal(lines.remove(c.line as int), c, c.line))
    }
}

/// What a new line at the first caret gives (see `new_line` and `new_line_without_shifting`):
/// nothing changes at the maximum line count
pub open spec fn line_added(o: TextInput, f: TextInput, shifting: bool) -> bool {
    &&& f.same_settings(&o)
    &&& if o.text@.len() < o.max_lines {
        if shifting {
            let (l1, c1) = state_after_highlight_delete(o.lines(), o.caret@, 0);
            (f.lines(), f.caret@) == state_after_split(l1, c1, 0, o.retain_indent, o.indent_char)
        } else {
            (f.lines(), f.caret@) == state_after_empty_line(o.lines(), o.caret@, 0, o.retain_indent, o.indent_char)
        }
    } else {
        f.text == o.text && f.caret == o.caret
    }
}

/// What deleting the line(s) of the first caret gives (see `delete_current_line`)
pub open spec fn line_deleted(o: TextInput, f: TextInput) -> bool {
    let c = o.caret@[0];
    let lines = o.lines();
    &&& f.same_settings(&o)
    &&& if c.highlight_enabled {
        let area = (c.highlight_pos, caret_pos(c));
        let l1 = lines_without_range(lines, area);
        let start = if area.0.line > area.1.line { area.1.line } else { area.0.line };
        let c1 = Caret { line: min_usize(start, last_line_idx(l1)), column: 0, highlight_enabled: false, ..c };
        let target = pos_min(c1.highlight_pos, caret_pos(c1));
        &&& f.lines() == l1
        &&& f.caret@ == o.caret@.update(0, Caret { line: target.line, column: target.column, ..c1 })
    } else {
        let l1 = lines.remove(c.line as int);
        &&& f.lines() == l1
        &&& f.caret@ == o.caret@.update(0, Caret { column: 0, ..caret_after_removal(l1, c, c.line) })
    }
}

/// What copying the line of the first caret above it gives (see `insert_line`): nothing
/// changes at the maximum line count
pub open spec fn line_duplicated(o: TextInput, f: TextInput) -> bool {
    let c = o.caret@[0];
    let inserted = o.lines().insert(c.line as int, o.lines()[c.line as int]);
    &&& f.same_settings(&o)
    &&& if o.text@.len() < o.max_lines {
        &&& f.lines() == inserted
        &&& f.caret@ == o.caret@.update(0, caret_after_insertion(inserted, c, c.line))
    } else {
        f.text == o.text && f.caret == o.caret
    }
}

/// What swapping the line of the first caret with line `other` gives (see `swap_lines`): the
/// caret moves with its line
pub open spec fn lines_swapped(o: TextInput, f: TextInput, other: int) -> bool {
    let c = o.caret@[0];
    let lines = o.lines();
    &&& f.same_settings(&o)
    &&& f.lines() == lines.update(c.line as int, lines[other]).update(other, lines[c.line as int])
    &&& f.caret@ == o.caret@.update(0, Caret { line: other as usize, ..c })
}

/// What an indent at the first caret gives (see `indent`)
pub open spec fn indented(o: TextInput, f: TextInput) -> bool {
    let c = o.caret@[0];
    let l = o.lines()[c.line as int];
    let n = indent_fill(take_upto(l, c.column as int).len() as int, o.indent_length);
    &&& f.same_settings(&o)
    &&& f.lines() == o.lines().update(c.line as int, insert_in_line(l, c.column as int, indent_run(o.indent_char, n as nat)))
    &&& f.caret@ == o.caret@.update(0, Caret { column: (c.column + n) as usize, ..c })
}

/// What an editing action does to the first caret's text (each only when the caret allows it,
/// else nothing changes): a step left drops the highlight; the deletions, the cut, the new
/// lines, the line deletion, duplication and swaps and the indent do what their own functions
/// say; the highlighting moves start a highlight and move; selecting a line highlights it
pub open spec fn edited(o: TextInput, f: TextInput, action: Actions, r: Option<ClipboardData>) -> bool {
    let lines = o.lines();
    let n = o.text@.len();
    let c = o.caret@[0];
    let h = highlighted(c);
    &&& action == Actions::MoveLeft ==> if left_step_fits(o) {
        f.only_caret_changed(&o, 0, Caret { highlight_enabled: false, ..caret_left(lines, c, o.allow_caret_wrap) })
    } else {
        f == o
    }
    &&& action == Actions::DeleteLeft ==> if deletion_fits(o) { deleted_left(o, f) } else { f == o }
    &&& action == Actions::DeleteRight ==> if deletion_fits(o) { deleted_right(o, f) } else { f == o }
    &&& action == Actions::Cut ==> {
        &&& copied(lines, c, r)
        &&& if r is Some { cut_out(o, f) } else { f == o }
    }
    &&& action == Actions::NewLine ==> if n >= o.max_lines || (highlight_deletable(lines, o.caret@, 0) && c.line < n) {
        line_added(o, f, true)
    } else {
        f == o
    }
    &&& action == Actions::NewLineWithoutShifting ==> if n >= o.max_lines || c.line < n {
        line_added(o, f, false)
    } else {
        f == o
    }
    &&& action == Actions::DeleteCurrentLine ==> if c.line < n && (!c.highlight_enabled || c.highlight_pos.line < n) {
        line_deleted(o, f)
    } else {
        f == o
    }
    &&& action == Actions::DuplicateToAbove ==> if c.line < n && c.line < usize::MAX {
        line_duplicated(o, f)
    } else {
        f == o
    }
    &&& action == Actions::DuplicateLineBelow ==> if c.line < n && c.line < usize::MAX - 1 {
        line_duplicated_below(o, f)
    } else {
        f == o
    }
    &&& action == Actions::SwapWithLineAbove ==> if 0 < c.line < n {
        lines_swapped(o, f, c.line - 1)
    } else {
        f == o
    }
    &&& action == Actions::SwapWithLineBelow ==> if c.line < last_line_idx(lines) {
        lines_swapped(o, f, c.line + 1)
    } else {
        f == o
    }
    &&& action == Actions::Indent ==> if c.line < n && o.indent_length > 0 && c.column + o.indent_length <= usize::MAX {
        indented(o, f)
    } else {
        f == o
    }
    &&& action == Actions::MoveLeftAndHighlight ==> f.only_caret_changed(&o, 0, caret_left(lines, h, o.allow_caret_wrap))
    &&& action == Actions::MoveRightAndHighlight ==> f.only_caret_changed(&o, 0, caret_right(lines, h, o.allow_caret_wrap))
    &&& action == Actions::MoveUpAndHighlight ==> f.only_caret_changed(&o, 0, if n >= 1 { caret_up(lines, h) } else { h })
    &&& action == Actions::MoveDownAndHighlight ==> f.only_caret_changed(
        &o,
        0,
        if n >= 1 && c.line < usize::MAX { caret_down(lines, h) } else { h },
    )
    &&& action == Actions::SelectLine ==> if c.line < n {
        f.only_caret_changed(&o, 0, Caret {
            column: lines[c.line as int].len() as usize,
            highlight_pos: TextPosition { line: c.line, column: 0 },
            ..c
        })
    } else {
        f == o
    }
}

/// What copying the line of the first caret below it gives: the copy goes in above (not at
/// the maximum line count) and the caret, when not on the first line, moves down one line
pub open spec fn line_duplicated_below(o: TextInput, f: TextInput) -> bool {
    let c = o.caret@[0];
    let l2 = if o.text@.len() < o.max_lines {
        o.lines().insert(c.line as int, o.lines()[c.line as int])
    } else {
        o.lines()
    };
    &&& f.same_settings(&o)
    &&& f.lines() == l2
    &&& f.caret@ == o.caret@.update(0, if c.line != 0 { caret_down(l2, c) } else { c })
}

/// The text between column `from` and column `to` of the first caret's line is removed, and
/// the caret goes to column `from`
pub open spec fn span_removed(o: TextInput, f: TextInput, from: usize, to: usize) -> bool {
    let c = o.caret@[0];
    &&& f.same_settings(&o)
    &&& from <= to
    &&& f.lines() == o.lines().update(c.line as int, remove_chars_at(o.lines()[c.line as int], from as int, to - from))
    &&& f.caret@ == o.caret@.update(0, Caret { column: from, ..c })
}

/// What an indent at the start of the first caret's line gives (see `indent_at_line_start`)
pub open spec fn start_indented(o: TextInput, f: TextInput, skip_start: usize) -> bool {
    let c = o.caret@[0];
    let n = indent_fill(plus_two_saturating(skip_start) as int, o.indent_length);
    &&& f.same_settings(&o)
    &&& f.lines() == o.lines().update(c.line as int, indent_run(o.indent_char, n as nat) + o.lines()[c.line as int])
    &&& f.caret@ == o.caret@.update(0, Caret { column: (c.column + n) as usize, ..c })
}

/// An outdent at the first caret with `skip_back` stays inside the line (see `outdent`)
pub open spec fn outdent_fits(o: TextInput, skip_back: usize) -> bool {
    let c = o.caret@[0];
    let left = take_upto(o.lines()[c.line as int], c.column as int);
    left.len() > 0 && char_type_spec(left.last()) == CharacterType::Whitespace ==> {
        &&& (if skip_back >= 1 { skip_back - 1 } else { 0 }) <= c.column
        &&& outdent_len(c.column, skip_back, o.indent_length) <= c.column
    }
}

/// What an outdent at the first caret gives (see `outdent`): whitespace left of the caret is
/// removed back to the previous indent stop
pub open spec fn outdented(o: TextInput, f: TextInput, skip_back: usize) -> bool {
    let c = o.caret@[0];
    let l = o.lines()[c.line as int];
    let left = take_upto(l, c.column as int);
    let n = outdent_len(c.column, skip_back, o.indent_length);
    &&& f.same_settings(&o)
    &&& if left.len() > 0 && char_type_spec(left.last()) == CharacterType::Whitespace {
        &&& f.lines() == o.lines().update(c.line as int, take_upto(left, c.column - n) + skip_upto(l, c.column as int))
        &&& f.caret@ == o.caret@.update(0, Caret { column: (c.column - n) as usize, ..c })
    } else {
        f.text == o.text && f.caret == o.caret
    }
}

/// An outdent of the start of the first caret's line with `skip_start` stays inside the line
/// (see `indent_start_of_line`)
pub open spec fn start_outdent_fits(o: TextInput, skip_start: usize) -> bool {
    let c = o.caret@[0];
    let left = take_upto(o.lines()[c.line as int], c.column as int);
    let n = line_start_outdent_len(skip_start, o.indent_length);
    all_are(take_upto(left, n as int), o.indent_char) ==> n <= c.column
}

/// What an outdent of the start of the first caret's line gives (see `indent_start_of_line`)
pub open spec fn start_outdented(o: TextInput, f: TextInput, skip_start: usize) -> bool {
    let c = o.caret@[0];
    let l = o.lines()[c.line as int];
    let left = take_upto(l, c.column as int);
    let n = line_start_outdent_len(skip_start, o.indent_length);
    &&& f.same_settings(&o)
    &&& if all_are(take_upto(left, n as int), o.indent_char) {
        &&& f.lines() == o.lines().update(c.line as int, skip_upto(left, n as int) + skip_upto(l, c.column as int))
        &&& f.caret@ == o.caret@.update(0, Caret { column: (c.column - n) as usize, ..c })
    } else {
        f.text == o.text && f.caret == o.caret
    }
}

/// What selecting the structure around the first caret gives (see `select_structure`)
pub open spec fn structure_selected(o: TextInput, f: TextInput, skip_back: usize, skip_fwd: usize) -> bool {
    let c = o.caret@[0];
    let l = o.lines()[c.line as int];
    f.only_caret_changed(&o, 0, Caret {
        column: structure_right(l, c.column, skip_fwd),
        highlight_enabled: true,
        highlight_pos: if c.highlight_enabled {
            c.highlight_pos
        } else {
            TextPosition { line: c.line, column: structure_left(l, c.column, skip_back) }
        },
        ..c
    })
}

/// A structure move left from caret `k` stays inside the text (the step over a line start too)
pub open spec fn left_structure_fits(o: TextInput, k: Caret) -> bool {
    let n = o.text@.len();
    &&& k.column != 0 || k.highlight_enabled || (if k.line == 0 {
        !o.allow_caret_wrap || n >= 1
    } else {
        k.line - 1 < n
    })
    &&& left_structure_origin(o.lines(), k, o.allow_caret_wrap).line < n
}

/// A structure move right from caret `k` stays inside the text (the step over a line end too)
pub open spec fn right_structure_fits(o: TextInput, k: Caret) -> bool {
    &&& k.line < o.text@.len()
    &&& k.column < usize::MAX
    &&& right_structure_origin(o.lines(), k, o.allow_caret_wrap).line < o.text@.len()
}

/// The first caret, as `k`, moved left by a structure (see `move_left_by_structure`), keeping
/// its highlight or dropping it; when the move would leave the text the caret is just `k`
pub open spec fn moved_structure_left<G: Fn(&str, usize) -> usize>(o: TextInput, f: TextInput, k: Caret, back: G, keep: bool) -> bool {
    let c1 = left_structure_origin(o.lines(), k, o.allow_caret_wrap);
    if left_structure_fits(o, k) {
        exists|s: &str, r: usize| s@ == o.lines()[c1.line as int] && #[trigger] back.ensures((s, c1.column), r)
            && f.only_caret_changed(&o, 0, Caret { column: r, highlight_enabled: keep && c1.highlight_enabled, ..c1 })
    } else {
        f.only_caret_changed(&o, 0, k)
    }
}

/// The first caret, as `k`, moved right by a structure (see `move_right_by_structure`),
/// keeping its highlight or dropping it; when the move would leave the text the caret is
/// just `k`
pub open spec fn moved_structure_right<F: Fn(&str, usize) -> usize>(o: TextInput, f: TextInput, k: Caret, fwd: F, keep: bool) -> bool {
    let c1 = right_structure_origin(o.lines(), k, o.allow_caret_wrap);
    if right_structure_fits(o, k) {
        exists|s: &str, r: usize| s@ == o.lines()[c1.line as int] && #[trigger] fwd.ensures((s, c1.column), r)
            && f.only_caret_changed(&o, 0, Caret { column: r, highlight_enabled: keep && c1.highlight_enabled, ..c1 })
    } else {
        f.only_caret_changed(&o, 0, k)
    }
}

/// What the structure moves left and right do to the first caret: it goes where the
/// structure skipping (`fwd` / `back`) answered, dropping its highlight or, for the
/// highlighting moves, starting one
pub open spec fn structure_moved<F: Fn(&str, usize) -> usize, G: Fn(&str, usize) -> usize>(
    o: TextInput,
    f: TextInput,
    action: Actions,
    fwd: F,
    back: G,
) -> bool {
    let c = o.caret@[0];
    &&& action == Actions::MoveStructureLeft ==> moved_structure_left(o, f, c, back, false)
    &&& action == Actions::MoveStructureLeftAndHighlight ==> moved_structure_left(o, f, highlighted(c), back, true)
    &&& action == Actions::MoveStructureRight ==> moved_structure_right(o, f, c, fwd, false)
    &&& action == Actions::MoveStructureRightAndHighlight ==> moved_structure_right(o, f, highlighted(c), fwd, true)
}

/// The actions: the structure moves up and down
pub open spec fn vertical_structure_move(a: Actions) -> bool {
    a == Actions::MoveStructureUp || a == Actions::MoveStructureUpAndHighlight || a == Actions::MoveStructureDown
        || a == Actions::MoveStructureDownAndHighlight
}

/// The caret a structure move up or down starts from: with a highlight started for the
/// highlighting moves
pub open spec fn vertical_move_origin(c: Caret, action: Actions) -> Caret {
    if action == Actions::MoveStructureUpAndHighlight || action == Actions::MoveStructureDownAndHighlight {
        highlighted(c)
    } else {
        c
    }
}

/// What the structure moves up and down do to the first caret (with a highlight started for
/// the highlighting ones): the structure skipping `fwd` runs over the column of characters
/// under the caret (see `get_line_vertically`; reversed for a move up) from the caret's line,
/// and the caret's line grows by what it skipped (clamped to the last line going down); a
/// skip that would overflow moves nothing
pub open spec fn structure_moved_vertically<F: Fn(&str, usize) -> usize>(o: TextInput, f: TextInput, action: Actions, fwd: F) -> bool {
    let k = vertical_move_origin(o.caret@[0], action);
    let strip = vertical_strip(o.lines(), k.column);
    &&& (action == Actions::MoveStructureUp || action == Actions::MoveStructureUpAndHighlight) ==> if k.line <= strip.len() {
        exists|s: &str, skip: usize| s@ == reversed(strip) && #[trigger] fwd.ensures((s, (strip.len() - k.line) as usize), skip)
            && f.only_caret_changed(&o, 0, if skip <= usize::MAX - k.line { Caret { line: (k.line + skip) as usize, ..k } } else { k })
    } else {
        f.only_caret_changed(&o, 0, k)
    }
    &&& (action == Actions::MoveStructureDown || action == Actions::MoveStructureDownAndHighlight) ==> {
        exists|s: &str, skip: usize| s@ == strip && #[trigger] fwd.ensures((s, k.line), skip)
            && f.only_caret_changed(&o, 0, if skip <= usize::MAX - k.line {
                Caret { line: clamp_line(o.lines(), (k.line + skip) as usize), ..k }
            } else {
                k
            })
    }
}

/// What the editing actions that skip structures do at the first caret (each only when the
/// caret allows it, else nothing changes). `fwd` / `back` is the structure skipping (text,
/// column → column); each action uses what it answered on the caret's line (or the text
/// left of the caret): the structure deletions remove the text up to that column, the
/// line start indent and the outdents do what their own functions say, and selecting a
/// structure highlights it
pub open spec fn structure_edited<F: Fn(&str, usize) -> usize, G: Fn(&str, usize) -> usize>(
    o: TextInput,
    f: TextInput,
    action: Actions,
    fwd: F,
    back: G,
) -> bool {
    let lines = o.lines();
    let n = o.text@.len();
    let c = o.caret@[0];
    &&& action == Actions::DeleteStructureLeft ==> if c.line < n {
        exists|s: &str, cut: usize| s@ == lines[c.line as int] && #[trigger] back.ensures((s, c.column), cut)
            && if cut <= c.column { span_removed(o, f, cut, c.column) } else { f == o }
    } else {
        f == o
    }
    &&& action == Actions::DeleteStructureRight ==> if c.line < n {
        exists|s: &str, cut: usize| s@ == lines[c.line as int] && #[trigger] fwd.ensures((s, c.column), cut)
            && if cut >= c.column {
                &&& f.same_settings(&o)
                &&& f.caret == o.caret
                &&& f.lines() == lines.update(c.line as int, remove_chars_at(lines[c.line as int], c.column as int, cut - c.column))
            } else {
                f == o
            }
    } else {
        f == o
    }
    &&& action == Actions::IndentAtLineStart ==> if c.line < n && o.indent_length > 0 && c.column + o.indent_length <= usize::MAX {
        exists|s: &str, skip: usize| s@ == lines[c.line as int] && #[trigger] fwd.ensures((s, 0usize), skip)
            && start_indented(o, f, skip)
    } else {
        f == o
    }
    &&& action == Actions::Outdent ==> if c.line < n && o.indent_length > 0 {
        exists|s: &str, skip: usize| s@ == take_upto(lines[c.line as int], c.column as int)
            && #[trigger] back.ensures((s, c.column), skip)
            && if outdent_fits(o, skip) { outdented(o, f, skip) } else { f == o }
    } else {
        f == o
    }
    &&& action == Actions::OutdentAtLineStart ==> if c.line < n && o.indent_length > 0 {
        exists|s: &str, skip: usize| s@ == take_upto(lines[c.line as int], c.column as int)
            && #[trigger] fwd.ensures((s, 0usize), skip)
            && if start_outdent_fits(o, skip) { start_outdented(o, f, skip) } else { f == o }
    } else {
        f == o
    }
    &&& action == Actions::SelectStructure ==> if c.line < n && c.column < usize::MAX {
        exists|s1: &str, s2: &str, b: usize, e: usize|
            s1@ == lines[c.line as int] && s2@ == lines[c.line as int]
            && #[trigger] back.ensures((s1, c.column), b) && #[trigger] fwd.ensures((s2, c.column), e)
            && structure_selected(o, f, b, e)
    } else {
        f == o
    }
}

/// The actions: the editing actions that skip structures
pub open spec fn structure_editing(a: Actions) -> bool {
    a == Actions::DeleteStructureLeft || a == Actions::DeleteStructureRight || a == Actions::IndentAtLineStart || a == Actions::Outdent || a == Actions::OutdentAtLineStart || a == Actions::SelectStructure
}

/// The actions: the deletions, the cut and the new lines at the first caret
pub open spec fn deleting(a: Actions) -> bool {
    a == Actions::DeleteLeft || a == Actions::DeleteRight || a == Actions::Cut || a == Actions::DeleteCurrentLine || a == Actions::NewLine || a == Actions::NewLineWithoutShifting
}

/// The actions: the line duplications and swaps and the indent at the first caret
pub open spec fn changing_lines(a: Actions) -> bool {
    a == Actions::DuplicateToAbove || a == Actions::DuplicateLineBelow || a == Actions::SwapWithLineAbove || a == Actions::SwapWithLineBelow || a == Actions::Indent
}

/// The actions: the step left, the highlighting moves and the line selection of the first caret
pub open spec fn moving_caret(a: Actions) -> bool {
    a == Actions::MoveLeft || a == Actions::SelectLine || a == Actions::MoveDownAndHighlight || a == Actions::MoveLeftAndHighlight || a == Actions::MoveRightAndHighlight || a == Actions::MoveUpAndHighlight
}


/// An indent fills the text left of the caret up to the next indent stop: between one and a
/// whole indent of indent characters go in at the caret, the caret moves past them onto a
/// multiple of the indent length, and the rest of the text is unchanged
pub proof fn lemma_indent_reaches_the_next_stop(o: TextInput, f: TextInput)
    requires
        indented(o, f),
        o.caret@.len() >= 1,
        o.caret@[0].line < o.text@.len(),
        o.caret@[0].column <= o.lines()[o.caret@[0].line as int].len(),
        o.indent_length > 0,
        o.caret@[0].column + o.indent_length <= usize::MAX,
    ensures
        ({
            let c = o.caret@[0];
            let l = o.lines()[c.line as int];
            let k = o.indent_length as int;
            let col = f.caret@[0].column as int;
            let n = col - c.column;
            &&& 1 <= n <= k
            &&& col % k == 0
            &&& f.caret@[0].line == c.line
            &&& f.lines().len() == o.lines().len()
            &&& forall|i: int| 0 <= i < f.lines().len() && i != c.line ==> #[trigger] f.lines()[i] == o.lines()[i]
            &&& f.lines()[c.line as int] == l.subrange(0, c.column as int) + Seq::new(n as nat, |_i: int| o.indent_char)
                + l.subrange(c.column as int, l.len() as int)
        }),
{
    let c = o.caret@[0];
    let l = o.lines()[c.line as int];
    let k = o.indent_length as int;
    let x = c.column as int;
    assert(take_upto(l, x).len() == x);
    let q = x / k;
    let r = x % k;
    lemma_fundamental_div_mod(x, k);
    lemma_mod_bound(x, k);
    assert(x + (k - r) == (q + 1) * k) by (nonlinear_arith)
        requires x == k * q + r;
    lemma_mod_multiples_basic(q + 1, k);
    assert(take_upto(l, x) =~= l.subrange(0, x));
    assert(skip_upto(l, x) =~= l.subrange(x, l.len() as int));
}

/// A new line at a caret without a highlight (below the line limit) splits its line at the
/// caret: the text before the caret stays on the line, the text after it moves to a new line
/// right below, after the indent characters the caret goes past (none unless the indent is
/// retained); the lines above stay and the lines below move down one
pub proof fn lemma_new_line_splits_at_the_caret(o: TextInput, f: TextInput)
    requires
        line_added(o, f, true),
        o.caret@.len() >= 1,
        !o.caret@[0].highlight_enabled,
        o.caret@[0].line < o.text@.len(),
        o.caret@[0].column <= o.lines()[o.caret@[0].line as int].len(),
        o.text@.len() < o.max_lines,
        o.text@.len() < usize::MAX,
    ensures
        ({
            let c = o.caret@[0];
            let l = o.lines()[c.line as int];
            let n = o.lines().len();
            let k = f.caret@[0];
            let next = f.lines()[c.line + 1];
            &&& f.lines().len() == n + 1
            &&& forall|i: int| 0 <= i < c.line ==> #[trigger] f.lines()[i] == o.lines()[i]
            &&& forall|i: int| c.line + 1 < i <= n ==> #[trigger] f.lines()[i] == o.lines()[i - 1]
            &&& f.lines()[c.line as int] == l.subrange(0, c.column as int)
            &&& k.line == c.line + 1
            &&& k.column <= next.len()
            &&& forall|i: int| 0 <= i < k.column ==> #[trigger] next[i] == o.indent_char
            &&& next.subrange(k.column as int, next.len() as int) == l.subrange(c.column as int, l.len() as int)
            &&& !o.retain_indent ==> k.column == 0
        }),
{
    let c = o.caret@[0];
    let l = o.lines()[c.line as int];
    let before = take_upto(l, c.column as int);
    lemma_leading_count_bound(before, o.indent_char);
    assert(before =~= l.subrange(0, c.column as int));
    let amount = if o.retain_indent { leading_count(before, o.indent_char) } else { 0 };
    let next = Seq::new(amount, |_i: int| o.indent_char) + skip_upto(l, c.column as int);
    assert(next.subrange(amount as int, next.len() as int) =~= l.subrange(c.column as int, l.len() as int));
}

/// Deleting left of a caret without a highlight removes the character before it (the caret
/// moves back onto its place), and at the start of a line joins the line to the end of the
/// line above; deleting right removes the character after the caret and keeps the caret,
/// and at the end of a line (not the last) joins the next line to it
pub proof fn lemma_deletions_remove_one_character(o: TextInput, fl: TextInput, fr: TextInput)
    requires
        deleted_left(o, fl),
        deleted_right(o, fr),
        o.caret@.len() >= 1,
        !o.caret@[0].highlight_enabled,
        o.caret@[0].line < o.text@.len(),
        o.text@.len() <= usize::MAX,
        o.caret@[0].column <= o.lines()[o.caret@[0].line as int].len(),
    ensures
        ({
            let c = o.caret@[0];
            let lines = o.lines();
            let l = lines[c.line as int];
            let x = c.column as int;
            &&& x > 0 ==> fl.lines() == lines.update(c.line as int, l.subrange(0, x - 1) + l.subrange(x, l.len() as int))
                && fl.caret@[0].line == c.line && fl.caret@[0].column == x - 1
            &&& x == 0 && c.line > 0 ==> fl.lines().len() == lines.len() - 1
                && fl.lines()[c.line - 1] == lines[c.line - 1] + l
            &&& x < l.len() ==> fr.lines() == lines.update(c.line as int, l.subrange(0, x) + l.subrange(x + 1, l.len() as int))
                && fr.caret == o.caret
            &&& x == l.len() && c.line + 1 < lines.len() ==> fr.lines().len() == lines.len() - 1
                && fr.lines()[c.line as int] == l + lines[c.line + 1]
        }),
{
    let c = o.caret@[0];
    let lines = o.lines();
    let l = lines[c.line as int];
    let x = c.column as int;
    if x > 0 {
        assert(remove_chars_at(l, x - 1, 1) =~= l.subrange(0, x - 1) + l.subrange(x, l.len() as int));
    }
    if x < l.len() {
        assert(remove_chars_at(l, x, 1) =~= l.subrange(0, x) + l.subrange(x + 1, l.len() as int));
    }
    if x == 0 && c.line > 0 {
        let prev = c.line - 1;
        let merged = lines.update(prev, lines[prev] + l).remove(c.line as int);
        assert(merged[prev] == lines[prev] + l);
    }
    if x == l.len() && c.line + 1 < lines.len() {
        let other = clamp_line(lines, (c.line + 1) as usize);
        assert(other == c.line + 1);
        let merged = lines.update(c.line as int, l + lines[other as int]).remove(other as int);
        assert(merged[c.line as int] == l + lines[c.line + 1]);
    }
}

/// Selecting all (in a text that is not one empty line) highlights the whole text: what the
/// highlight covers is every line, in full
pub proof fn lemma_select_all_covers_the_text(o: TextInput, f: TextInput, r: Option<ClipboardData>)
    requires
        navigated(o, f, Actions::SelectAll, r),
        o.caret@.len() >= 1,
        o.text@.len() >= 1,
        o.text@.len() <= usize::MAX,
        forall|i: int| 0 <= i < o.lines().len() ==> (#[trigger] o.lines()[i]).len() <= usize::MAX,
        !(o.text@.len() == 1 && o.lines()[0].len() == 0),
    ensures
        f.text == o.text,
        f.caret@[0].highlight_enabled,
        selected_lines(o.lines(), (f.caret@[0].highlight_pos, caret_pos(f.caret@[0]))) == o.lines(),
{
    let lines = o.lines();
    let last = lines.len() - 1;
    let sel = selected_lines(lines, (f.caret@[0].highlight_pos, caret_pos(f.caret@[0])));
    if last == 0 {
        assert(lines[0].subrange(0, lines[0].len() as int) =~= lines[0]);
        assert(sel =~= lines);
    } else {
        assert(lines[0].subrange(0, lines[0].len() as int) =~= lines[0]);
        assert(lines[last].subrange(0, lines[last].len() as int) =~= lines[last]);
        assert(sel =~= lines);
    }
}

/// The actions that move the first caret, toggle a setting, copy, undo or redo
pub open spec fn navigation(a: Actions) -> bool {
    a == Actions::RequestPaste || a == Actions::Copy || a == Actions::ToggleOverwrite || a == Actions::ToggleSearchWindow || a == Actions::ToggleReplaceWindow || a == Actions::MoveToLine || a == Actions::Redo || a == Actions::Undo || a == Actions::SelectAll || a == Actions::MoveToStartOfDocument || a == Actions::MoveToEndOfDocument || a == Actions::MoveToStartOfLine || a == Actions::MoveToEndOfLine || a == Actions::MoveUp || a == Actions::MoveDown || a == Actions::MoveRight
}

/// An action that only moves, highlights or toggles, and never changes the text
pub open spec fn keeps_text(a: Actions) -> bool {
    !(a == Actions::NewLine || a == Actions::NewLineWithoutShifting || a == Actions::Indent
        || a == Actions::IndentAtLineStart || a == Actions::Outdent || a == Actions::OutdentAtLineStart
        || a == Actions::DeleteLeft || a == Actions::DeleteRight || a == Actions::DeleteStructureLeft
        || a == Actions::DeleteStructureRight || a == Actions::DeleteCurrentLine || a == Actions::Undo
        || a == Actions::Redo || a == Actions::Cut || a == Actions::SwapWithLineAbove
        || a == Actions::SwapWithLineBelow || a == Actions::DuplicateLineBelow || a == Actions::DuplicateToAbove)
}

impl TextInput {
    /// If an area can be read or deleted: it is empty or lies inside the text
    fn area_fits(&self, pos: (TextPosition, TextPosition)) -> (r: bool)
        ensures
            r == (area_is_empty(pos) || area_in_text(self.lines(), pos)),
    {
        let (ls, le, fp, bp) = area_bounds_of(pos);
        if ls == le && fp == bp {
            return true;
        }
        le < self.text.len() && fp <= self.get_line_length(ls) && bp <= self.get_line_length(le)
    }

    /// Drop the highlight of caret 0
    fn reset_first_highlight(&mut self)
        requires
            old(self).caret@.len() >= 1,
        ensures
            final(self).only_caret_changed(old(self), 0, Caret { highlight_enabled: false, ..old(self).caret@[0] }),
    {
        let mut c = self.caret[0];
        c.reset_highlighted();
        self.set_caret(0, c);
    }

    /// Start a highlight at caret 0 if there is none
    fn enable_first_highlight(&mut self)
        requires
            old(self).caret@.len() >= 1,
        ensures
            final(self).only_caret_changed(old(self), 0, highlighted(old(self).caret@[0])),
    {
        let mut c = self.caret[0];
        c.enable_highlight();
        self.set_caret(0, c);
    }

    /// The data a copy of caret 0 gives: the highlighted text, or the whole line without a
    /// highlight; nothing when the highlight or the line is not inside the text
    fn first_caret_clipboard(&self) -> (r: Option<ClipboardData>)
        requires
            self.caret@.len() >= 1,
        ensures
            copied(self.lines(), self.caret@[0], r),
    {
        let c = self.caret[0];
        if c.is_highlighting() {
            let area = c.get_highlighted_area();
            if self.area_fits(area) {
                Some(ClipboardData::ListOfText(self.get_selected_area(area)))
            } else {
                None
            }
        } else if c.line < self.text.len() {
            Some(ClipboardData::Text(self.text[c.line].as_str().to_owned()))
        } else {
            None
        }
    }
}


/// The key binding dispatch of the text input
impl TextInput {
    /// Where caret `k` goes with one step left
    fn caret_left_of(&self, k: Caret) -> (r: Caret)
        requires
            !k.highlight_enabled && k.column == 0 ==> {
                if k.line == 0 {
                    self.allow_caret_wrap ==> self.text@.len() >= 1
                } else {
                    k.line - 1 < self.text@.len()
                }
            },
        ensures
            r == caret_left(self.lines(), k, self.allow_caret_wrap),
    {
        let mut c = k;
        if c.highlight_enabled {
            let p1 = c.highlight_pos;
            let p2 = c.to_position();
            let p = if p2.is_before(&p1) { p2 } else { p1 };
            c.line = p.line;
            c.column = p.column;
        } else if c.column == 0 {
            if c.line == 0 {
                if self.allow_caret_wrap {
                    c.line = self.line_count_idx();
                    c.column = self.get_line_length(c.line);
                }
            } else {
                c.line = c.line - 1;
                c.column = self.get_line_length(c.line);
            }
        } else {
            c.column = c.column - 1;
        }
        c
    }

    /// Where caret `k` goes with one step right
    fn caret_right_of(&self, k: Caret) -> (r: Caret)
        requires
            !k.highlight_enabled ==> k.line < self.text@.len() && k.column < usize::MAX,
        ensures
            r == caret_right(self.lines(), k, self.allow_caret_wrap),
    {
        let mut c = k;
        if c.highlight_enabled {
            let p1 = c.highlight_pos;
            let p2 = c.to_position();
            let p = if p1.is_before(&p2) { p2 } else { p1 };
            c.line = p.line;
            c.column = p.column;
        } else if c.column == self.get_line_length(c.line) {
            let last = self.line_count_idx();
            let tl = self.text.len();
            assert(self.lines().len() == tl);
            if c.line == last {
                if self.allow_caret_wrap {
                    c.line = 0;
                    c.column = 0;
                }
            } else {
                assert(c.line < last);
                c.line = self.clamp_to_line_count(c.line + 1);
                c.column = 0;
            }
        } else {
            c.column = c.column + 1;
        }
        c
    }

    /// If outdenting caret 0 with `skip_back` stays inside the line
    fn outdent_allowed(&self, skip_back: usize) -> (r: bool)
        requires
            self.caret@.len() >= 1,
            self.caret@[0].line < self.text@.len(),
            self.indent_length > 0,
        ensures
            r == ({
                let c = self.caret@[0];
                let left = take_upto(self.lines()[c.line as int], c.column as int);
                left.len() > 0 && char_type_spec(left.last()) == CharacterType::Whitespace ==> {
                    &&& (if skip_back >= 1 { skip_back - 1 } else { 0 }) <= c.column
                    &&& outdent_len(c.column, skip_back, self.indent_length) <= c.column
                }
            }),
    {
        let c = self.caret[0];
        let v = chars_of(self.text[c.line].as_str());
        let left = take_chars(&v, c.column);
        if left.len() == 0 {
            return true;
        }
        let last = left[left.len() - 1];
        assert(left@.last() == last);
        if get_char_type(last) != CharacterType::Whitespace {
            return true;
        }
        let back = skip_back.saturating_sub(1);
        if back > c.column {
            return false;
        }
        let rest = (c.column - back) % self.indent_length;
        let length = if rest == 0 { self.indent_length } else { rest };
        length <= c.column
    }

    /// If outdenting the start of the line of caret 0 with `skip_start` stays inside the line
    fn line_start_outdent_allowed(&self, skip_start: usize) -> (r: bool)
        requires
            self.caret@.len() >= 1,
            self.caret@[0].line < self.text@.len(),
            self.indent_length > 0,
        ensures
            r == ({
                let c = self.caret@[0];
                let left = take_upto(self.lines()[c.line as int], c.column as int);
                let n = line_start_outdent_len(skip_start, self.indent_length);
                all_are(take_upto(left, n as int), self.indent_char) ==> n <= c.column
            }),
    {
        let c = self.caret[0];
        let v = chars_of(self.text[c.line].as_str());
        let left = take_chars(&v, c.column);
        let rest = skip_start.saturating_add(2) % self.indent_length;
        let length = if rest == 0 { self.indent_length } else { rest };
        let before = take_chars(&left, length);
        !all_chars_are(&before, self.indent_char) || length <= c.column
    }

    /// The text left of caret 0, as a string
    fn text_left_of_first_caret(&self) -> (r: String)
        requires
            self.caret@.len() >= 1,
            self.caret@[0].line < self.text@.len(),
        ensures
            r@ == take_upto(self.lines()[self.caret@[0].line as int], self.caret@[0].column as int),
    {
        let c = self.caret[0];
        let v = chars_of(self.text[c.line].as_str());
        let left = take_chars(&v, c.column);
        string_of(left.as_slice())
    }

    /// The actions that move the first caret, toggle a setting, copy, undo or redo
    #[verifier::rlimit(60)]
    #[verifier::spinoff_prover]
    fn apply_navigation(&mut self, action: Actions) -> (r: Option<ClipboardData>)
        requires
            old(self).caret@.len() >= 1,
            navigation(action),
        ensures
            r is Some ==> gives_clipboard(action),
            keeps_text(action) ==> final(self).text == old(self).text,
            navigated(*old(self), *final(self), action, r),
    {
        let n = self.text.len();
        let c = self.caret[0];
        match action {
            Actions::RequestPaste => None,
            Actions::Copy => self.first_caret_clipboard(),
            Actions::ToggleOverwrite => {
                self.overwrite_mode = !self.overwrite_mode;
                assert(*self == (TextInput { overwrite_mode: !old(self).overwrite_mode, ..*old(self) }));
                None
            },
            Actions::ToggleSearchWindow => {
                self.toggle_menu(TextInputMenu::Search);
                None
            },
            Actions::ToggleReplaceWindow => {
                self.toggle_menu(TextInputMenu::Replace);
                None
            },
            Actions::MoveToLine => {
                self.toggle_menu(TextInputMenu::SkipToLine);
                None
            },
            Actions::Redo => {
                self.redo();
                None
            },
            Actions::Undo => {
                self.undo();
                None
            },
            Actions::SelectAll => {
                if n >= 1 {
                    self.select_all(0);
                }
                None
            },
            Actions::MoveToStartOfDocument => {
                self.move_to_start_of_line(0, 0);
                None
            },
            Actions::MoveToEndOfDocument => {
                if n >= 1 {
                    self.move_to_end_of_document(0);
                }
                None
            },
            Actions::MoveToStartOfLine => {
                self.move_to_start_of_this_line(0);
                None
            },
            Actions::MoveToEndOfLine => {
                if c.line < n {
                    self.move_to_end_of_this_line(0);
                }
                None
            },
            Actions::MoveUp => {
                if n >= 1 {
                    self.move_up(0);
                    self.reset_first_highlight();
                    assert(self.caret@ =~= old(self).caret@.update(0, Caret { highlight_enabled: false, ..caret_up(old(self).lines(), c) }));
                }
                None
            },
            Actions::MoveDown => {
                if n >= 1 && c.line < usize::MAX {
                    self.move_down(0);
                    self.reset_first_highlight();
                    assert(self.caret@ =~= old(self).caret@.update(0, Caret { highlight_enabled: false, ..caret_down(old(self).lines(), c) }));
                }
                None
            },
            Actions::MoveRight => {
                if c.highlight_enabled || (c.line < n && c.column < usize::MAX) {
                    self.move_right(0);
                    self.reset_first_highlight();
                    assert(self.caret@ =~= old(self).caret@.update(0, Caret { highlight_enabled: false, ..caret_right(old(self).lines(), c, old(self).allow_caret_wrap) }));
                }
                None
            },
            _ => None,
        }
    }

    /// The deletions, the cut and the new lines at the first caret
    #[verifier::rlimit(80)]
    #[verifier::spinoff_prover]
    fn apply_deletion(&mut self, action: Actions) -> (r: Option<ClipboardData>)
        requires
            old(self).caret@.len() >= 1,
            deleting(action),
        ensures
            r is Some ==> gives_clipboard(action),
            keeps_text(action) ==> final(self).text == old(self).text,
            edited(*old(self), *final(self), action, r),
    {
        let n = self.text.len();
        let c = self.caret[0];
        let hl_ok = !c.highlight_enabled || self.area_fits(c.get_highlighted_area());
        let ghost o = *self;
        match action {
            Actions::DeleteLeft => {
                if hl_ok && (c.highlight_enabled || c.line < n) {
                    self.delete_left(0);
                }
                None
            },
            Actions::DeleteRight => {
                if hl_ok && (c.highlight_enabled || c.line < n) {
                    self.delete_right(0);
                }
                None
            },
            Actions::Cut => {
                let data = self.first_caret_clipboard();
                if data.is_some() {
                    if c.highlight_enabled {
                        self.delete_text_in_area(c.get_highlighted_area());
                    } else {
                        self.remove_line(c.line);
                    }
                }
                data
            },
            Actions::DeleteCurrentLine => {
                if c.line < n && (!c.highlight_enabled || c.highlight_pos.line < n) {
                    self.delete_current_line(0);
                    assert(self.caret@ =~= o.caret@.update(0, self.caret@[0]));
                }
                None
            },
            Actions::NewLine => {
                if n >= self.max_lines || (hl_ok && c.line < n) {
                    proof {
                        let area = (c.highlight_pos, caret_pos(c));
                        if n < self.max_lines && c.highlight_enabled && !area_is_empty(area) {
                            lemma_area_delete_len(self.lines(), area);
                        }
                    }
                    self.new_line(0);
                }
                None
            },
            Actions::NewLineWithoutShifting => {
                if n >= self.max_lines || c.line < n {
                    self.new_line_without_shifting(0);
                }
                None
            },
            _ => None,
        }
    }

    /// The line duplications and swaps and the indent at the first caret
    #[verifier::rlimit(80)]
    #[verifier::spinoff_prover]
    fn apply_line_change(&mut self, action: Actions) -> (r: Option<ClipboardData>)
        requires
            old(self).caret@.len() >= 1,
            changing_lines(action),
        ensures
            r is Some ==> gives_clipboard(action),
            keeps_text(action) ==> final(self).text == old(self).text,
            edited(*old(self), *final(self), action, r),
    {
        let n = self.text.len();
        let c = self.caret[0];
        let ghost o = *self;
        match action {
            Actions::DuplicateToAbove => {
                if c.line < n && c.line < usize::MAX {
                    let content = self.text[c.line].as_str().to_owned();
                    self.insert_line(c.line, content);
                }
                None
            },
            Actions::DuplicateLineBelow => {
                if c.line < n && c.line < usize::MAX - 1 {
                    let content = self.text[c.line].as_str().to_owned();
                    self.insert_line(c.line, content);
                    if self.caret.len() >= 1 && self.text.len() >= 1 && self.caret[0].line < usize::MAX {
                        let l = self.caret[0].line.saturating_sub(1);
                        self.move_caret_under_line_down(l);
                    }
                    assert(self.caret@ =~= o.caret@.update(0, self.caret@[0]));
                }
                None
            },
            Actions::SwapWithLineAbove => {
                if c.line > 0 && c.line < n {
                    self.swap_lines(c.line, c.line - 1);
                }
                None
            },
            Actions::SwapWithLineBelow => {
                if c.line < self.line_count_idx() {
                    self.swap_lines(c.line, c.line + 1);
                }
                None
            },
            Actions::Indent => {
                if c.line < n && self.indent_length > 0 && c.column <= usize::MAX - self.indent_length {
                    self.indent(0);
                }
                None
            },
            _ => None,
        }
    }

    /// The step left, the highlighting moves and the line selection of the first caret
    #[verifier::rlimit(80)]
    #[verifier::spinoff_prover]
    fn apply_caret_move(&mut self, action: Actions) -> (r: Option<ClipboardData>)
        requires
            old(self).caret@.len() >= 1,
            moving_caret(action),
        ensures
            r is Some ==> gives_clipboard(action),
            keeps_text(action) ==> final(self).text == old(self).text,
            edited(*old(self), *final(self), action, r),
    {
        let n = self.text.len();
        let c = self.caret[0];
        let ghost o = *self;
        match action {
            Actions::MoveLeft => {
                if c.highlight_enabled || c.column != 0 || (if c.line == 0 {
                    !self.allow_caret_wrap || n >= 1
                } else {
                    c.line - 1 < n
                }) {
                    self.move_left(0);
                    self.reset_first_highlight();
                    assert(self.caret@ =~= o.caret@.update(0, Caret { highlight_enabled: false, ..caret_left(o.lines(), c, o.allow_caret_wrap) }));
                }
                None
            },
            Actions::SelectLine => {
                if c.line < n {
                    self.move_to_start_of_this_line(0);
                    let mut k = self.caret[0];
                    k.set_highlight_origin_to_current_pos();
                    self.set_caret(0, k);
                    self.move_to_end_of_this_line(0);
                    assert(self.caret@ =~= o.caret@.update(0, Caret {
                        column: o.lines()[c.line as int].len() as usize,
                        highlight_pos: TextPosition { line: c.line, column: 0 },
                        ..c
                    }));
                }
                None
            },
            Actions::MoveDownAndHighlight => {
                self.enable_first_highlight();
                if n >= 1 && c.line < usize::MAX {
                    self.move_down(0);
                    assert(self.caret@ =~= o.caret@.update(0, caret_down(o.lines(), highlighted(c))));
                }
                None
            },
            Actions::MoveLeftAndHighlight => {
                self.enable_first_highlight();
                self.move_left(0);
                assert(self.caret@ =~= o.caret@.update(0, caret_left(o.lines(), highlighted(c), o.allow_caret_wrap)));
                None
            },
            Actions::MoveRightAndHighlight => {
                self.enable_first_highlight();
                self.move_right(0);
                assert(self.caret@ =~= o.caret@.update(0, caret_right(o.lines(), highlighted(c), o.allow_caret_wrap)));
                None
            },
            Actions::MoveUpAndHighlight => {
                self.enable_first_highlight();
                if n >= 1 {
                    self.move_up(0);
                    assert(self.caret@ =~= o.caret@.update(0, caret_up(o.lines(), highlighted(c))));
                }
                None
            },
            _ => None,
        }
    }

    /// The editing actions at the first caret that skip structures
    #[verifier::rlimit(80)]
    #[verifier::spinoff_prover]
    fn apply_structure_edit<F: Fn(&str, usize) -> usize, G: Fn(&str, usize) -> usize>(
        &mut self,
        action: Actions,
        skip_forward: &F,
        skip_backward: &G,
    ) -> (r: Option<ClipboardData>)
        requires
            old(self).caret@.len() >= 1,
            structure_editing(action),
            forall|s: &str, i: usize| #[trigger] skip_forward.requires((s, i)),
            forall|s: &str, i: usize| #[trigger] skip_backward.requires((s, i)),
        ensures
            r is None,
            keeps_text(action) ==> final(self).text == old(self).text,
            structure_edited(*old(self), *final(self), action, *skip_forward, *skip_backward),
    {
        let n = self.text.len();
        let c = self.caret[0];
        match action {
            Actions::DeleteStructureLeft => {
                if c.line < n {
                    let cut = skip_backward(self.text[c.line].as_str(), c.column);
                    if cut <= c.column {
                        self.delete_structure_left(0, cut);
                    }
                }
                None
            },
            Actions::DeleteStructureRight => {
                if c.line < n {
                    let cut = skip_forward(self.text[c.line].as_str(), c.column);
                    if cut >= c.column {
                        self.delete_structure_right(0, cut);
                    }
                }
                None
            },
            Actions::IndentAtLineStart => {
                if c.line < n && self.indent_length > 0 && c.column <= usize::MAX - self.indent_length {
                    let skip = skip_forward(self.text[c.line].as_str(), 0);
                    self.indent_at_line_start(0, skip);
                }
                None
            },
            Actions::Outdent => {
                if c.line < n && self.indent_length > 0 {
                    let left = self.text_left_of_first_caret();
                    let skip = skip_backward(left.as_str(), c.column);
                    if self.outdent_allowed(skip) {
                        self.outdent(0, skip);
                    }
                }
                None
            },
            Actions::OutdentAtLineStart => {
                if c.line < n && self.indent_length > 0 {
                    let left = self.text_left_of_first_caret();
                    let skip = skip_forward(left.as_str(), 0);
                    if self.line_start_outdent_allowed(skip) {
                        self.indent_start_of_line(0, skip);
                    }
                }
                None
            },
            Actions::SelectStructure => {
                if c.line < n && c.column < usize::MAX {
                    let back = skip_backward(self.text[c.line].as_str(), c.column);
                    let fwd = skip_forward(self.text[c.line].as_str(), c.column);
                    self.select_structure(0, back, fwd);
                }
                None
            },
            _ => None,
        }
    }

    /// The structure move left of the first caret, starting a highlight or dropping it
    #[verifier::rlimit(80)]
    #[verifier::spinoff_prover]
    fn structure_move_left<G: Fn(&str, usize) -> usize>(&mut self, highlight: bool, skip_backward: &G)
        requires
            old(self).caret@.len() >= 1,
            forall|s: &str, i: usize| #[trigger] skip_backward.requires((s, i)),
        ensures
            ({
                let c = old(self).caret@[0];
                moved_structure_left(*old(self), *final(self), if highlight { highlighted(c) } else { c }, *skip_backward, highlight)
            }),
    {
        let ghost o = *self;
        if highlight {
            self.enable_first_highlight();
        }
        let k = self.caret[0];
        let ghost o1 = *self;
        assert(o1.caret@ =~= o.caret@.update(0, k));
        let wrap = self.allow_caret_wrap;
        let ok_move = k.column != 0 || k.highlight_enabled || (if k.line == 0 {
            !self.allow_caret_wrap || self.text.len() >= 1
        } else {
            k.line - 1 < self.text.len()
        });
        if ok_move {
            let k1 = if k.column == 0 { self.caret_left_of(k) } else { k };
            if k1.line < self.text.len() {
                self.move_left_by_structure(0, skip_backward);
                let ghost o2 = *self;
                if !highlight {
                    self.reset_first_highlight();
                }
                proof {
                    let c1 = left_structure_origin(o.lines(), k, wrap);
                    let (s, r) = choose|s: &str, r: usize| s@ == o.lines()[c1.line as int]
                        && #[trigger] skip_backward.ensures((s, c1.column), r)
                        && o2.caret@ == o1.caret@.update(0, Caret { column: r, ..c1 });
                    assert(self.caret@ =~= o.caret@.update(0, Caret { column: r, highlight_enabled: highlight && c1.highlight_enabled, ..c1 }));
                }
            }
        }
    }

    /// The structure move right of the first caret, starting a highlight or dropping it
    #[verifier::rlimit(80)]
    #[verifier::spinoff_prover]
    fn structure_move_right<F: Fn(&str, usize) -> usize>(&mut self, highlight: bool, skip_forward: &F)
        requires
            old(self).caret@.len() >= 1,
            forall|s: &str, i: usize| #[trigger] skip_forward.requires((s, i)),
        ensures
            ({
                let c = old(self).caret@[0];
                moved_structure_right(*old(self), *final(self), if highlight { highlighted(c) } else { c }, *skip_forward, highlight)
            }),
    {
        let ghost o = *self;
        if highlight {
            self.enable_first_highlight();
        }
        let k = self.caret[0];
        let ghost o1 = *self;
        assert(o1.caret@ =~= o.caret@.update(0, k));
        let wrap = self.allow_caret_wrap;
        if k.line < self.text.len() && k.column < usize::MAX {
            let len = self.get_line_length(k.line);
            let k1 = if k.column == len { self.caret_right_of(k) } else { k };
            if k1.line < self.text.len() {
                self.move_right_by_structure(0, skip_forward);
                let ghost o2 = *self;
                if !highlight {
                    self.reset_first_highlight();
                }
                proof {
                    let c1 = right_structure_origin(o.lines(), k, wrap);
                    let (s, r) = choose|s: &str, r: usize| s@ == o.lines()[c1.line as int]
                        && #[trigger] skip_forward.ensures((s, c1.column), r)
                        && o2.caret@ == o1.caret@.update(0, Caret { column: r, ..c1 });
                    assert(self.caret@ =~= o.caret@.update(0, Caret { column: r, highlight_enabled: highlight && c1.highlight_enabled, ..c1 }));
                }
            }
        }
    }

    /// The structure moves up and down of the first caret
    #[verifier::rlimit(80)]
    #[verifier::spinoff_prover]
    fn structure_move_vertically<F: Fn(&str, usize) -> usize>(&mut self, action: Actions, skip_forward: &F)
        requires
            old(self).caret@.len() >= 1,
            vertical_structure_move(action),
            forall|s: &str, i: usize| #[trigger] skip_forward.requires((s, i)),
        ensures
            structure_moved_vertically(*old(self), *final(self), action, *skip_forward),
    {
        let ghost o = *self;
        if action == Actions::MoveStructureUpAndHighlight || action == Actions::MoveStructureDownAndHighlight {
            self.enable_first_highlight();
        }
        let k = self.caret[0];
        let ghost o1 = *self;
        assert(o1.caret@ =~= o.caret@.update(0, k));
        let strip = self.get_line_vertically(k.column);
        if action == Actions::MoveStructureUp || action == Actions::MoveStructureUpAndHighlight {
            let v = chars_of(strip.as_str());
            let rev = string_of(reverse_chars(&v).as_slice());
            if k.line <= v.len() {
                let skip = skip_forward(rev.as_str(), v.len() - k.line);
                if skip <= usize::MAX - k.line {
                    self.move_up_by_structure(0, skip);
                    assert(self.caret@ =~= o.caret@.update(0, Caret { line: (k.line + skip) as usize, ..k }));
                }
            }
        } else {
            let skip = skip_forward(strip.as_str(), k.line);
            if skip <= usize::MAX - k.line {
                self.move_down_by_structure(0, skip);
                assert(self.caret@ =~= o.caret@.update(0, Caret { line: clamp_line(o.lines(), (k.line + skip) as usize), ..k }));
            }
        }
    }

    /// Perform one key binding action on caret 0. The structure skipping is done by
    /// `skip_forward` / `skip_backward` (text, column → column). An action whose step would
    /// leave the text (an index outside it, or an arithmetic overflow) is not performed.
    /// Returns the clipboard data a copy or a cut gives.
    #[verifier::rlimit(60)]
    #[verifier::spinoff_prover]
    pub fn apply_action<F: Fn(&str, usize) -> usize, G: Fn(&str, usize) -> usize>(
        &mut self,
        action: Actions,
        skip_forward: &F,
        skip_backward: &G,
    ) -> (r: Option<ClipboardData>)
        requires
            old(self).caret@.len() >= 1,
            forall|s: &str, i: usize| #[trigger] skip_forward.requires((s, i)),
            forall|s: &str, i: usize| #[trigger] skip_backward.requires((s, i)),
        ensures
            action_applied(*old(self), *final(self), action, r, *skip_forward, *skip_backward),
    {
        match action {
            Actions::MoveRight => self.apply_navigation(action),
            Actions::MoveLeft => self.apply_caret_move(action),
            Actions::MoveUp => self.apply_navigation(action),
            Actions::MoveDown => self.apply_navigation(action),
            Actions::DeleteLeft => self.apply_deletion(action),
            Actions::DeleteRight => self.apply_deletion(action),
            Actions::Copy => self.apply_navigation(action),
            Actions::Cut => self.apply_deletion(action),
            Actions::RequestPaste => self.apply_navigation(action),
            Actions::NewLine => self.apply_deletion(action),
            Actions::NewLineWithoutShifting => self.apply_deletion(action),
            Actions::DeleteCurrentLine => self.apply_deletion(action),
            Actions::DeleteStructureLeft => self.apply_structure_edit(action, skip_forward, skip_backward),
            Actions::DeleteStructureRight => self.apply_structure_edit(action, skip_forward, skip_backward),
            Actions::DuplicateToAbove => self.apply_line_change(action),
            Actions::DuplicateLineBelow => self.apply_line_change(action),
            Actions::SwapWithLineAbove => self.apply_line_change(action),
            Actions::SwapWithLineBelow => self.apply_line_change(action),
            Actions::MoveStructureLeft | Actions::MoveStructureLeftAndHighlight => {
                self.structure_move_left(action == Actions::MoveStructureLeftAndHighlight, skip_backward);
                None
            },
            Actions::MoveStructureRight | Actions::MoveStructureRightAndHighlight => {
                self.structure_move_right(action == Actions::MoveStructureRightAndHighlight, skip_forward);
                None
            },
            Actions::Undo => self.apply_navigation(action),
            Actions::Redo => self.apply_navigation(action),
            Actions::ToggleOverwrite => self.apply_navigation(action),
            Actions::Indent => self.apply_line_change(action),
            Actions::IndentAtLineStart => self.apply_structure_edit(action, skip_forward, skip_backward),
            Actions::Outdent => self.apply_structure_edit(action, skip_forward, skip_backward),
            Actions::OutdentAtLineStart => self.apply_structure_edit(action, skip_forward, skip_backward),
            Actions::SelectAll => self.apply_navigation(action),
            Actions::MoveToEndOfDocument => self.apply_navigation(action),
            Actions::MoveToEndOfLine => self.apply_navigation(action),
            Actions::MoveToStartOfLine => self.apply_navigation(action),
            Actions::MoveToStartOfDocument => self.apply_navigation(action),
            Actions::SelectLine => self.apply_caret_move(action),
            Actions::MoveDownAndHighlight => self.apply_caret_move(action),
            Actions::MoveLeftAndHighlight => self.apply_caret_move(action),
            Actions::MoveRightAndHighlight => self.apply_caret_move(action),
            Actions::MoveUpAndHighlight => self.apply_caret_move(action),
            Actions::SelectStructure => self.apply_structure_edit(action, skip_forward, skip_backward),
            Actions::ToggleSearchWindow => self.apply_navigation(action),
            Actions::ToggleReplaceWindow => self.apply_navigation(action),
            Actions::MoveToLine => self.apply_navigation(action),
            Actions::MoveStructureUp | Actions::MoveStructureUpAndHighlight | Actions::MoveStructureDown
            | Actions::MoveStructureDownAndHighlight => {
                self.structure_move_vertically(action, skip_forward);
                None
            },
        }
    }

    /// Perform the key binding actions in order on caret 0 (see `apply_action`), then make
    /// sure one line is left. Returns if the undo history should not be extended (an undo or
    /// a redo happened), if clipboard data was asked for (a paste), and the clipboard data of
    /// the last copy or cut.
    pub fn handle_keybinds<F: Fn(&str, usize) -> usize, G: Fn(&str, usize) -> usize>(
        &mut self,
        actions: &Vec<Actions>,
        skip_forward: &F,
        skip_backward: &G,
    ) -> (r: (bool, bool, Option<ClipboardData>))
        requires
            old(self).caret@.len() >= 1,
            forall|s: &str, i: usize| #[trigger] skip_forward.requires((s, i)),
            forall|s: &str, i: usize| #[trigger] skip_backward.requires((s, i)),
        ensures
            r.0 == exists|j: int| 0 <= j < actions@.len() && asks_no_save(#[trigger] actions@[j]),
            r.1 == actions@.contains(Actions::RequestPaste),
            r.2 is Some ==> exists|j: int| 0 <= j < actions@.len() && gives_clipboard(#[trigger] actions@[j]),
            final(self).text@.len() >= 1,
            (forall|j: int| 0 <= j < actions@.len() ==> keeps_text(#[trigger] actions@[j])) && old(self).text@.len() >= 1
                ==> final(self).text == old(self).text,
            exists|states: Seq<TextInput>, outs: Seq<Option<ClipboardData>>| #[trigger] actions_applied(actions@, states, outs, *skip_forward, *skip_backward)
                && states[0] == *old(self)
                && with_a_line(states.last(), *final(self))
                && r.2 == last_clipboard(outs),
            actions@.len() == 0 && old(self).text@.len() >= 1 ==> *final(self) == *old(self) && r == (false, false, None::<ClipboardData>),
    {
        let mut do_not_save = false;
        let mut request = false;
        let mut clipboard: Option<ClipboardData> = None;
        let mut i: usize = 0;
        let ghost mut states: Seq<TextInput> = seq![*self];
        let ghost mut outs: Seq<Option<ClipboardData>> = Seq::empty();
        assert(actions_applied(actions@.take(0), states, outs, *skip_forward, *skip_backward));
        while i < actions.len()
            invariant
                i <= actions@.len(),
                actions_applied(actions@.take(i as int), states, outs, *skip_forward, *skip_backward),
                states[0] == *old(self),
                states.last() == *self,
                clipboard == last_clipboard(outs),
                forall|s: &str, k: usize| #[trigger] skip_forward.requires((s, k)),
                forall|s: &str, k: usize| #[trigger] skip_backward.requires((s, k)),
                do_not_save == exists|j: int| 0 <= j < i && asks_no_save(#[trigger] actions@[j]),
                request == exists|j: int| 0 <= j < i && #[trigger] actions@[j] == Actions::RequestPaste,
                clipboard is Some ==> exists|j: int| 0 <= j < i && gives_clipboard(#[trigger] actions@[j]),
                (forall|j: int| 0 <= j < i ==> keeps_text(#[trigger] actions@[j])) ==> self.text == old(self).text,
            decreases actions.len() - i,
        {
            let action = actions[i];
            if action == Actions::Undo || action == Actions::Redo {
                do_not_save = true;
            }
            if action == Actions::RequestPaste {
                request = true;
            }
            let ghost before = *self;
            let mut out: Option<ClipboardData> = None;
            if self.caret.len() >= 1 {
                let data = self.apply_action(action, skip_forward, skip_backward);
                out = data;
                if out.is_some() {
                    clipboard = out;
                }
            }
            proof {
                let next = actions@.take(i + 1);
                let prev_states = states;
                let prev_outs = outs;
                assert(action_step(before, *self, action, out, *skip_forward, *skip_backward));
                states = states.push(*self);
                outs = outs.push(out);
                assert(outs.drop_last() =~= prev_outs);
                assert forall|k: int| 0 <= k < next.len() implies #[trigger] action_step(states[k], states[k + 1], next[k], outs[k], *skip_forward, *skip_backward) by {
                    if k < i {
                        assert(next[k] == actions@.take(i as int)[k]);
                        assert(action_step(prev_states[k], prev_states[k + 1], actions@.take(i as int)[k], prev_outs[k], *skip_forward, *skip_backward));
                    } else {
                        assert(next[k] == actions@[i as int]);
                    }
                }
            }
            i = i + 1;
        }
        assert(actions@.take(actions@.len() as int) =~= actions@);
        let ghost last_state = *self;
        proof {
            if request {
                let j = choose|j: int| 0 <= j < i && #[trigger] actions@[j] == Actions::RequestPaste;
                assert(actions@[j] == Actions::RequestPaste);
            }
            if actions@.contains(Actions::RequestPaste) {
                let j = choose|j: int| 0 <= j < actions@.len() && actions@[j] == Actions::RequestPaste;
                assert(actions@[j] == Actions::RequestPaste);
            }
        }
        if self.text.len() == 0 {
            self.text.push(String::new());
            assert(self.lines() =~= seq![Seq::<char>::empty()]);
        }
        (do_not_save, request, clipboard)
    }
}

} // verus!
