use vstd::prelude::*;
use crate::modules::widget::text_input::{can_undo, last_clipboard, KeyInput, TextPosition, area_bounds, key_filtered, pos_lt};
use crate::modules::widget::text_support::{chars_of, concat_chars, contains_code, skip_chars, skip_upto, string_of, take_chars, take_upto};
use crate::output::ClipboardData;

verus! {

#[derive(Debug, Clone, Copy, PartialEq, Eq, Structural)]
/// What a key binding of the number input does
pub enum Actions {
    DeleteLeft,
    DeleteRight,
    DeleteStructureLeft,
    DeleteStructureRight,
    DeleteCurrentLine,
    Undo,
    Redo,
    Copy,
    Cut,
    RequestPaste,
    MoveUp,
    MoveUpAndHighlight,
    MoveDown,
    MoveDownAndHighlight,
    MoveLeft,
    MoveStructureLeft,
    MoveLeftAndHighlight,
    MoveStructureLeftAndHighlight,
    MoveRight,
    MoveStructureRight,
    MoveRightAndHighlight,
    MoveStructureRightAndHighlight,
    ToggleOverwrite,
    SelectAll,
    MoveToEndOfLine,
    MoveToStartOfLine,
    SelectLine,
}

#[derive(Debug, Clone, Copy, PartialEq, Eq, Structural)]
/// The caret of a number input: its column, and where a highlight started
pub struct Caret {
    /// Horizontal
    pub column: usize,
    /// The origin of the highlight
    pub highlight_pos: TextPosition,
    /// If highlight is active
    pub highlight_enabled: bool,
}

/// The position of a caret (always on line 0)
pub open spec fn number_caret_pos(c: Caret) -> TextPosition {
    TextPosition { line: 0, column: c.column }
}

impl Caret {
    /// A caret at the given column, without highlight
    pub fn new(column: usize) -> (r: Self)
        ensures
            r == (Caret { column, highlight_pos: TextPosition { line: 0, column: 0 }, highlight_enabled: false }),
    {
        Caret { column, highlight_pos: TextPosition { line: 0, column: 0 }, highlight_enabled: false }
    }

    /// Start a highlight here if there is none
    pub fn enable_highlight(&mut self)
        ensures
            *final(self) == if old(self).highlight_enabled {
                *old(self)
            } else {
                Caret { highlight_enabled: true, highlight_pos: number_caret_pos(*old(self)), ..*old(self) }
            },
    {
        if !self.highlight_enabled {
            self.highlight_enabled = true;
            self.highlight_pos = self.to_position();
        }
    }

    /// Set the origin of the highlight to the current position
    pub fn set_highlight_origin_to_current_pos(&mut self)
        ensures
            *final(self) == (Caret { highlight_pos: number_caret_pos(*old(self)), ..*old(self) }),
    {
        self.highlight_pos = self.to_position();
    }

    /// If something is highlighted
    pub fn is_highlighting(&self) -> (r: bool)
        ensures
            r == self.highlight_enabled,
    {
        self.highlight_enabled
    }

    /// Drop the highlight
    pub fn reset_highlighted(&mut self)
        ensures
            *final(self) == (Caret { highlight_enabled: false, ..*old(self) }),
    {
        self.highlight_enabled = false;
    }

    /// The caret as a position
    pub fn to_position(&self) -> (r: TextPosition)
        ensures
            r == number_caret_pos(*self),
    {
        TextPosition { line: 0, column: self.column }
    }

    /// Move to the column of the given position
    pub fn move_to_pos(&mut self, position: TextPosition)
        ensures
            *final(self) == (Caret { column: position.column, ..*old(self) }),
    {
        self.column = position.column;
    }

    /// The highlighted area: from the highlight origin to the caret
    pub fn get_highlighted_area(&self) -> (r: (TextPosition, TextPosition))
        ensures
            r == (self.highlight_pos, number_caret_pos(*self)),
    {
        (self.highlight_pos, self.to_position())
    }

    /// The current column
    pub fn column(&self) -> (r: usize)
        ensures
            r == self.column,
    {
        self.column
    }
}

/// A snapshot of the number (as text) and the caret, for undo/redo
pub type NumberState = (String, Caret);

/// An input for a number, edited as its text. After every change of the text the number
/// is read back from it and shown again (by the `reparse` function the editing calls take).
pub struct NumberInput {
    /// The width of the input
    pub width: usize,
    /// The number, as shown
    pub number: String,
    /// If the module needs to be redrawn
    pub needs_redraw: bool,
    /// The container the input is selected in (0 when not selected)
    pub selected: usize,
    /// The caret
    pub caret: Caret,
    /// When at the front of a string, should pressing backspace allow you to delete what is behind?
    pub remove_behind: bool,
    /// Last states allowing for undo/redo
    pub last_states: Vec<NumberState>,
    /// The index of the current state in `last_states`
    pub current_state: usize,
    /// If you can select the input field
    pub read_only: bool,
    /// Lets the caret wrap around from the start to the end/end to the start
    pub allow_caret_wrap: bool,
    /// When in overwrite mode, characters that already exist will be overwritten
    pub overwrite_mode: bool,
    /// The key codes that are/aren't allowed
    pub blacklist: Vec<u32>,
    /// If the purpose of the blacklist should be inverted
    pub blacklist_is_whitelist: bool,
}

/// The caret after one step right
pub open spec fn number_caret_right(c: Caret, len: nat, wrap: bool) -> Caret {
    if c.highlight_enabled {
        if pos_lt(c.highlight_pos, number_caret_pos(c)) { c } else { Caret { column: c.highlight_pos.column, ..c } }
    } else if c.column == len {
        if wrap { Caret { column: 0, ..c } } else { c }
    } else {
        Caret { column: (c.column + 1) as usize, ..c }
    }
}

/// The caret after one step left
pub open spec fn number_caret_left(c: Caret, len: nat, wrap: bool) -> Caret {
    if c.highlight_enabled {
        if pos_lt(number_caret_pos(c), c.highlight_pos) { c } else { Caret { column: c.highlight_pos.column, ..c } }
    } else if c.column == 0 {
        if wrap { Caret { column: len as usize, ..c } } else { c }
    } else {
        Caret { column: (c.column - 1) as usize, ..c }
    }
}

/// With a highlight (on the number's one line), one step right puts the caret at the later
/// end of the highlight and one step left at the earlier end
pub proof fn lemma_number_highlight_steps_go_to_its_ends(c: Caret, len: nat, wrap: bool)
    requires
        c.highlight_enabled,
        c.highlight_pos.line == 0,
    ensures
        number_caret_right(c, len, wrap).column == if c.column >= c.highlight_pos.column { c.column } else { c.highlight_pos.column },
        number_caret_left(c, len, wrap).column == if c.column <= c.highlight_pos.column { c.column } else { c.highlight_pos.column },
{
}

/// Where the caret goes when the text changed length by `by`
pub open spec fn moved_cursor(column: usize, by: isize, len: nat) -> usize {
    if by == 0 {
        column
    } else if by > 0 {
        if column >= by { (column - by) as usize } else { 0 }
    } else {
        let added = column + (by as usize);
        let s = if added > usize::MAX { usize::MAX } else { added as usize };
        if s <= len { s } else { len as usize }
    }
}

/// The text is plain ASCII (so byte and character positions agree)
pub open spec fn ascii(s: Seq<char>) -> bool {
    forall|i: int| 0 <= i < s.len() ==> (#[trigger] s[i]) < 128
}

impl NumberInput {
    /// The characters of the number
    pub open spec fn digits(&self) -> Seq<char> {
        self.number@
    }

    /// Everything but the number and the caret is the same in both inputs
    pub open spec fn same_settings(&self, other: &NumberInput) -> bool {
        &&& self.width == other.width
        &&& self.needs_redraw == other.needs_redraw
        &&& self.selected == other.selected
        &&& self.remove_behind == other.remove_behind
        &&& self.last_states == other.last_states
        &&& self.current_state == other.current_state
        &&& self.read_only == other.read_only
        &&& self.allow_caret_wrap == other.allow_caret_wrap
        &&& self.overwrite_mode == other.overwrite_mode
        &&& self.blacklist == other.blacklist
        &&& self.blacklist_is_whitelist == other.blacklist_is_whitelist
    }

    /// An input showing the given number text, `width` wide, with the caret at column 100
    pub fn new(number: String, width: usize) -> (r: Self)
        ensures
            r.number == number,
            r.width == width,
            r.caret == (Caret { column: 100, highlight_pos: TextPosition { line: 0, column: 0 }, highlight_enabled: false }),
            r.needs_redraw,
            r.selected == 0,
            !r.remove_behind,
            r.last_states@.len() == 0,
            r.current_state == 0,
            !r.read_only,
            !r.allow_caret_wrap,
            !r.overwrite_mode,
            r.blacklist@.len() == 0,
            !r.blacklist_is_whitelist,
    {
        NumberInput {
            width,
            number,
            needs_redraw: true,
            selected: 0,
            caret: Caret::new(100),
            remove_behind: false,
            last_states: Vec::new(),
            current_state: 0,
            read_only: false,
            allow_caret_wrap: false,
            overwrite_mode: false,
            blacklist: Vec::new(),
            blacklist_is_whitelist: false,
        }
    }

    /// Show another number: the highlight is dropped and the caret kept inside it
    pub fn set_number(&mut self, number: String)
        ensures
            final(self).number == number,
            final(self).needs_redraw,
            !final(self).caret.highlight_enabled,
            final(self).caret.column == if old(self).caret.column <= number@.len() { old(self).caret.column as int } else { number@.len() as int },
            final(self).caret.highlight_pos == old(self).caret.highlight_pos,
    {
        self.needs_redraw = true;
        self.caret.highlight_enabled = false;
        let n = chars_of(number.as_str()).len();
        if n < self.caret.column {
            self.caret.column = n;
        }
        self.number = number;
    }

    /// Set the width
    pub fn with_width(self, width: usize) -> (r: Self)
        ensures
            r.width == width,
            r.number == self.number && r.caret == self.caret,
    {
        let mut s = self;
        s.width = width;
        s
    }

    /// The length of the number in characters
    pub fn get_line_length(&self) -> (r: usize)
        ensures
            r == self.digits().len(),
    {
        chars_of(self.number.as_str()).len()
    }

    /// The index of the last line (the number has one line)
    pub fn line_count_idx(&self) -> (r: usize)
        ensures
            r == 0,
    {
        0
    }

    /// Clamp a line to the line count (always the first line)
    pub fn clamp_to_line_count(&self, other: usize) -> (r: usize)
        ensures
            r == 0,
    {
        0
    }

    /// Clamp a column to the length of the number
    pub fn clamp_to_column(&self, column: usize) -> (r: usize)
        ensures
            r == if column <= self.digits().len() { column as int } else { self.digits().len() as int },
    {
        let n = self.get_line_length();
        if n <= column { n } else { column }
    }

    /// The character at the given column
    pub fn get_character(&self, column: usize) -> (r: Option<char>)
        ensures
            r == if column < self.digits().len() { Some(self.digits()[column as int]) } else { None },
    {
        let v = chars_of(self.number.as_str());
        if column < v.len() { Some(v[column]) } else { None }
    }

    /// Move the caret to the end of the number
    pub fn move_to_end_of_this_line(&mut self)
        ensures
            final(self).caret == (Caret { column: old(self).digits().len() as usize, ..old(self).caret }),
            final(self).number == old(self).number,
            final(self).same_settings(old(self)),
    {
        self.caret.column = self.get_line_length();
    }

    /// Move the caret to the start of the number
    pub fn move_to_start_of_this_line(&mut self)
        ensures
            final(self).caret == (Caret { column: 0, ..old(self).caret }),
            final(self).number == old(self).number,
            final(self).same_settings(old(self)),
    {
        self.caret.column = 0;
    }

    /// Moving up goes to the start
    pub fn move_up(&mut self)
        ensures
            final(self).caret == (Caret { column: 0, ..old(self).caret }),
            final(self).number == old(self).number,
            final(self).same_settings(old(self)),
    {
        self.move_to_start_of_this_line();
    }

    /// Moving down goes to the end
    pub fn move_down(&mut self)
        ensures
            final(self).caret == (Caret { column: old(self).digits().len() as usize, ..old(self).caret }),
            final(self).number == old(self).number,
            final(self).same_settings(old(self)),
    {
        self.move_to_end_of_this_line();
    }

    /// One step right: a highlight collapses to its later end; at the end the caret wraps
    /// to the start if allowed
    pub fn move_right(&mut self)
        requires
            !old(self).caret.highlight_enabled ==> old(self).caret.column < usize::MAX,
        ensures
            final(self).caret == number_caret_right(old(self).caret, old(self).digits().len(), old(self).allow_caret_wrap),
            final(self).number == old(self).number,
            final(self).same_settings(old(self)),
    {
        if self.caret.is_highlighting() {
            let pos1 = self.caret.highlight_pos;
            let pos2 = self.caret.to_position();
            if pos1.is_before(&pos2) {
                self.caret.move_to_pos(pos2);
            } else {
                self.caret.move_to_pos(pos1);
            }
        } else if self.caret.column == self.get_line_length() {
            if self.allow_caret_wrap {
                self.caret.column = 0;
            }
        } else {
            self.caret.column = self.caret.column + 1;
        }
    }

    /// One step left: a highlight collapses to its earlier end; at the start the caret
    /// wraps to the end if allowed
    pub fn move_left(&mut self)
        ensures
            final(self).caret == number_caret_left(old(self).caret, old(self).digits().len(), old(self).allow_caret_wrap),
            final(self).number == old(self).number,
            final(self).same_settings(old(self)),
    {
        if self.caret.is_highlighting() {
            let pos1 = self.caret.highlight_pos;
            let pos2 = self.caret.to_position();
            if pos2.is_before(&pos1) {
                self.caret.move_to_pos(pos2);
            } else {
                self.caret.move_to_pos(pos1);
            }
        } else if self.caret.column == 0 {
            if self.allow_caret_wrap {
                self.caret.column = self.get_line_length();
            }
        } else {
            self.caret.column = self.caret.column - 1;
        }
    }

    /// The number is one structure: go to its start (from the start, one step left first)
    pub fn move_left_by_structure(&mut self)
        ensures
            final(self).caret == (Caret {
                column: 0,
                ..if old(self).caret.column == 0 {
                    number_caret_left(old(self).caret, old(self).digits().len(), old(self).allow_caret_wrap)
                } else {
                    old(self).caret
                }
            }),
            final(self).number == old(self).number,
            final(self).same_settings(old(self)),
    {
        if self.caret.column == 0 {
            self.move_left();
        }
        self.caret.column = 0;
    }

    /// The number is one structure: go to its end (from the end, one step right first)
    pub fn move_right_by_structure(&mut self)
        requires
            !old(self).caret.highlight_enabled ==> old(self).caret.column < usize::MAX,
        ensures
            final(self).caret == (Caret {
                column: old(self).digits().len() as usize,
                ..if old(self).caret.column == old(self).digits().len() {
                    number_caret_right(old(self).caret, old(self).digits().len(), old(self).allow_caret_wrap)
                } else {
                    old(self).caret
                }
            }),
            final(self).number == old(self).number,
            final(self).same_settings(old(self)),
    {
        if self.caret.column == self.get_line_length() {
            self.move_right();
        }
        self.caret.column = self.get_line_length();
    }

    /// Select the whole number
    pub fn select_all(&mut self)
        ensures
            final(self).caret == (Caret {
                column: old(self).digits().len() as usize,
                highlight_pos: TextPosition { line: 0, column: 0 },
                highlight_enabled: true,
            }),
            final(self).number == old(self).number,
            final(self).same_settings(old(self)),
    {
        self.move_to_start_of_this_line();
        self.caret.set_highlight_origin_to_current_pos();
        self.caret.highlight_enabled = true;
        self.move_to_end_of_this_line();
    }

    /// Select the structure around the caret: the whole number
    pub fn select_structure(&mut self)
        ensures
            final(self).caret == (Caret {
                column: old(self).digits().len() as usize,
                highlight_pos: if old(self).caret.highlight_enabled {
                    old(self).caret.highlight_pos
                } else {
                    TextPosition { line: 0, column: 0 }
                },
                highlight_enabled: true,
            }),
            final(self).number == old(self).number,
            final(self).same_settings(old(self)),
    {
        self.caret.column = 0;
        self.caret.enable_highlight();
        self.caret.column = self.get_line_length();
    }
}


/// The text without its characters `from..to`
pub open spec fn without_range(s: Seq<char>, from: int, to: int) -> Seq<char> {
    s.subrange(0, from) + s.subrange(to, s.len() as int)
}

/// The text with `amount` characters removed at `at` (an empty front becomes "0")
pub open spec fn removal_candidate(s: Seq<char>, at: int, amount: int) -> Seq<char> {
    let l = if at == 0 { seq!['0'] } else { s.subrange(0, at) };
    let r = s.subrange(at, s.len() as int);
    if r.len() <= amount { l } else { l + r.subrange(amount, r.len() as int) }
}

/// The columns an area spans on the single line: the smaller one first
pub open spec fn area_columns(pos: (TextPosition, TextPosition)) -> (usize, usize) {
    if pos.1.column > pos.0.column { (pos.0.column, pos.1.column) } else { (pos.1.column, pos.0.column) }
}

/// The text of an area of the number, one string per line it touches
pub open spec fn number_selection(s: Seq<char>, pos: (TextPosition, TextPosition)) -> Seq<Seq<char>> {
    let (ls, le, fp, bp) = area_bounds(pos);
    if ls == le && fp == bp {
        Seq::empty()
    } else if le == ls {
        seq![s.subrange(fp as int, bp as int)]
    } else {
        seq![s.subrange(fp as int, s.len() as int), s.subrange(0, bp as int)]
    }
}

/// The input after a changed text `cand` was read back by `reparse`: when it is no number
/// nothing changes (and `r` is `None`); else the number shows what was read back and the caret
/// column either follows the change of length (`follow`) or is set to `column`
pub open spec fn after_reparse<P: Fn(&str) -> Option<String>>(
    old: NumberInput,
    new: NumberInput,
    cand: Seq<char>,
    reparse: P,
    r: Option<()>,
    follow: bool,
    column: usize,
    clear_highlight: bool,
) -> bool {
    exists|t: &str, o: Option<String>| t@ == cand && #[trigger] reparse.ensures((t,), o) && match o {
        None => r is None && new == old,
        Some(n) => {
            &&& r is Some
            &&& new.number == n
            &&& new.same_settings(&old)
            &&& new.caret == (Caret {
                column: if follow {
                    moved_cursor(old.caret.column, (n@.len() - old.digits().len()) as isize, n@.len())
                } else {
                    column
                },
                highlight_enabled: if clear_highlight { false } else { old.caret.highlight_enabled },
                ..old.caret
            })
        },
    }
}

/// A string as a vector of characters, for the `reparse` call
fn reparse_text<P: Fn(&str) -> Option<String>>(reparse: &P, v: &Vec<char>) -> (r: Option<String>)
    requires
        forall|t: &str| #[trigger] reparse.requires((t,)),
    ensures
        exists|t: &str| t@ == v@ && #[trigger] reparse.ensures((t,), r),
{
    let s = string_of(v.as_slice());
    let t = s.as_str();
    let r = reparse(t);
    assert(reparse.ensures((t,), r));
    r
}

impl NumberInput {
    /// The text of an area, one string per line it touches
    pub fn get_selected_area(&self, pos: (TextPosition, TextPosition)) -> (r: Vec<String>)
        requires
            ({
                let (ls, le, fp, bp) = area_bounds(pos);
                !(ls == le && fp == bp) ==> if le == ls {
                    fp <= bp <= self.digits().len()
                } else {
                    fp <= self.digits().len() && bp <= self.digits().len()
                }
            }),
        ensures
            r.deep_view() == number_selection(self.digits(), pos),
    {
        let head = pos.0;
        let tail = pos.1;
        let (line_start, line_end, front_pos, back_pos) = if head.line > tail.line {
            (tail.line, head.line, tail.column, head.column)
        } else if tail.line > head.line || tail.column > head.column {
            (head.line, tail.line, head.column, tail.column)
        } else {
            (head.line, tail.line, tail.column, head.column)
        };
        let mut result: Vec<String> = Vec::new();
        if line_start == line_end && front_pos == back_pos {
            assert(result.deep_view() =~= number_selection(self.digits(), pos));
            return result;
        }
        let v = chars_of(self.number.as_str());
        if line_end == line_start {
            let part = skip_chars(&take_chars(&v, back_pos), front_pos);
            assert(part@ =~= v@.subrange(front_pos as int, back_pos as int));
            result.push(string_of(part.as_slice()));
        } else {
            let first = skip_chars(&v, front_pos);
            let last = take_chars(&v, back_pos);
            result.push(string_of(first.as_slice()));
            result.push(string_of(last.as_slice()));
        }
        assert(result.deep_view() =~= number_selection(self.digits(), pos));
        result
    }

    /// Move the caret after the text changed length by `by`: a longer text moves it back by
    /// that much, a shorter one to the end
    pub fn move_cursor(&mut self, by: isize)
        ensures
            final(self).caret == (Caret { column: moved_cursor(old(self).caret.column, by, old(self).digits().len()), ..old(self).caret }),
            final(self).number == old(self).number,
            final(self).same_settings(old(self)),
    {
        if by == 0 {
            return;
        }
        if by > 0 {
            self.caret.column = self.caret.column.saturating_sub(by as usize);
        } else {
            #[verifier::truncate]
            let b = by as usize;
            let added = self.caret.column.saturating_add(b);
            let n = self.get_line_length();
            self.caret.column = if added <= n { added } else { n };
        }
    }

    /// Remove `amount` characters at `at` and read the number back (an empty front becomes
    /// "0"); the caret follows the change of length. Nothing changes when the text is no number.
    pub fn remove_chars_from_line<P: Fn(&str) -> Option<String>>(&mut self, at: usize, amount: usize, reparse: &P) -> (r: Option<()>)
        requires
            forall|t: &str| #[trigger] reparse.requires((t,)),
            ascii(old(self).digits()),
            at <= old(self).digits().len(),
            old(self).digits().len() <= isize::MAX,
            forall|t: &str, o: Option<String>| #[trigger] reparse.ensures((t,), o) && o is Some ==> o->0@.len() <= isize::MAX,
        ensures
            after_reparse(*old(self), *final(self), removal_candidate(old(self).digits(), at as int, amount as int), *reparse, r, true, old(self).caret.column, false),
    {
        let v = chars_of(self.number.as_str());
        let before = v.len();
        let mut l = take_chars(&v, at);
        if l.len() == 0 {
            l.push('0');
        }
        let r = skip_chars(&v, at);
        let cand = if r.len() <= amount { l } else { concat_chars(&l, &skip_chars(&r, amount)) };
        proof {
            assert(cand@ =~= removal_candidate(v@, at as int, amount as int));
        }
        let parsed = reparse_text(reparse, &cand);
        match parsed {
            None => None,
            Some(n) => {
                self.number = n;
                let after = self.get_line_length();
                let dif = after as isize - before as isize;
                self.move_cursor(dif);
                Some(())
            },
        }
    }
}


/// The number editing operations
impl NumberInput {
    /// Delete the text of an area (between its two columns) and read the number back; the
    /// caret goes to the start of the area and the highlight ends. Nothing changes for an
    /// empty area or when the text is no number.
    pub fn delete_text_in_area<P: Fn(&str) -> Option<String>>(&mut self, pos: (TextPosition, TextPosition), reparse: &P) -> (r: Option<()>)
        requires
            forall|t: &str| #[trigger] reparse.requires((t,)),
            area_columns(pos).1 <= old(self).digits().len(),
        ensures
            ({
                let (fp, bp) = area_columns(pos);
                if fp == bp {
                    r is Some && *final(self) == *old(self)
                } else {
                    after_reparse(*old(self), *final(self), without_range(old(self).digits(), fp as int, bp as int), *reparse, r, false, fp, true)
                }
            }),
    {
        let head = pos.0;
        let tail = pos.1;
        let (front_pos, back_pos) = if tail.column > head.column { (head.column, tail.column) } else { (tail.column, head.column) };
        if front_pos == back_pos {
            return Some(());
        }
        let v = chars_of(self.number.as_str());
        let cand = concat_chars(&take_chars(&v, front_pos), &skip_chars(&v, back_pos));
        assert(cand@ =~= without_range(v@, front_pos as int, back_pos as int));
        match reparse_text(reparse, &cand) {
            None => None,
            Some(n) => {
                self.number = n;
                self.caret.column = front_pos;
                self.caret.reset_highlighted();
                Some(())
            },
        }
    }

    /// Insert characters at `at` and read the number back; nothing changes when the text
    /// is no number
    pub fn insert_chars_from_line<P: Fn(&str) -> Option<String>>(&mut self, at: usize, chars: &str, reparse: &P) -> (r: Option<()>)
        requires
            forall|t: &str| #[trigger] reparse.requires((t,)),
            ascii(old(self).digits()),
            at <= old(self).digits().len(),
        ensures
            after_reparse(*old(self), *final(self), old(self).digits().subrange(0, at as int) + chars@
                + old(self).digits().subrange(at as int, old(self).digits().len() as int), *reparse, r, false, old(self).caret.column, false),
    {
        let v = chars_of(self.number.as_str());
        let cand = concat_chars(&concat_chars(&take_chars(&v, at), &chars_of(chars)), &skip_chars(&v, at));
        match reparse_text(reparse, &cand) {
            None => None,
            Some(n) => {
                self.number = n;
                Some(())
            },
        }
    }

    /// Replace the number by zero (`zero` is how zero is shown)
    pub fn delete_current_line(&mut self, zero: String)
        ensures
            final(self).number == zero,
            final(self).caret == (Caret { column: 0, ..old(self).caret }),
            final(self).same_settings(old(self)),
    {
        self.number = zero;
        self.caret.column = 0;
    }

    /// Delete everything left of the caret; the caret goes to the start
    pub fn delete_structure_left<P: Fn(&str) -> Option<String>>(&mut self, reparse: &P)
        requires
            forall|t: &str| #[trigger] reparse.requires((t,)),
            ascii(old(self).digits()),
            old(self).digits().len() <= isize::MAX,
            forall|t: &str, o: Option<String>| #[trigger] reparse.ensures((t,), o) && o is Some ==> o->0@.len() <= isize::MAX,
        ensures
            exists|mid: NumberInput, r: Option<()>|
                after_reparse(*old(self), mid, removal_candidate(old(self).digits(), 0, old(self).caret.column as int), *reparse, r, true, old(self).caret.column, false)
                && *final(self) == (NumberInput { caret: Caret { column: 0, ..mid.caret }, ..mid }),
    {
        let col = self.caret.column;
        let ghost s0 = *self;
        let r = self.remove_chars_from_line(0, col, reparse);
        let ghost mid = *self;
        self.caret.column = 0;
        assert(after_reparse(s0, mid, removal_candidate(s0.digits(), 0, col as int), *reparse, r, true, col, false));
    }

    /// Delete everything right of the caret
    pub fn delete_structure_right<P: Fn(&str) -> Option<String>>(&mut self, reparse: &P) -> (r: Option<()>)
        requires
            forall|t: &str| #[trigger] reparse.requires((t,)),
            ascii(old(self).digits()),
            old(self).caret.column <= old(self).digits().len(),
            old(self).digits().len() <= isize::MAX,
            forall|t: &str, o: Option<String>| #[trigger] reparse.ensures((t,), o) && o is Some ==> o->0@.len() <= isize::MAX,
        ensures
            after_reparse(*old(self), *final(self), removal_candidate(old(self).digits(), old(self).caret.column as int,
                old(self).digits().len() - old(self).caret.column), *reparse, r, true, old(self).caret.column, false),
    {
        let col = self.caret.column;
        let n = self.get_line_length();
        self.remove_chars_from_line(col, n - col, reparse)
    }

    /// Delete the character left of the caret (or the highlighted text)
    pub fn delete_left<P: Fn(&str) -> Option<String>>(&mut self, reparse: &P) -> (r: Option<()>)
        requires
            forall|t: &str| #[trigger] reparse.requires((t,)),
            ascii(old(self).digits()),
            old(self).digits().len() <= isize::MAX,
            forall|t: &str, o: Option<String>| #[trigger] reparse.ensures((t,), o) && o is Some ==> o->0@.len() <= isize::MAX,
            old(self).caret.highlight_enabled ==> area_columns(old(self).caret.get_highlighted_area_spec()).1 <= old(self).digits().len(),
            !old(self).caret.highlight_enabled && old(self).caret.column > 0 ==> old(self).caret.column - 1 <= old(self).digits().len(),
        ensures
            old(self).caret.highlight_enabled ==> {
                let (fp, bp) = area_columns(old(self).caret.get_highlighted_area_spec());
                if fp == bp {
                    *final(self) == *old(self)
                } else {
                    after_reparse(*old(self), *final(self), without_range(old(self).digits(), fp as int, bp as int), *reparse, r, false, fp, true)
                }
            },
            !old(self).caret.highlight_enabled && old(self).caret.column == 0 ==> *final(self) == *old(self),
            !old(self).caret.highlight_enabled && old(self).caret.column > 0 ==> after_reparse(*old(self), *final(self),
                removal_candidate(old(self).digits(), old(self).caret.column - 1, 1), *reparse, r, true, old(self).caret.column, false),
    {
        if self.caret.is_highlighting() {
            let area = self.caret.get_highlighted_area();
            self.delete_text_in_area(area, reparse)
        } else if self.caret.column == 0 {
            None
        } else {
            let at = self.caret.column - 1;
            self.remove_chars_from_line(at, 1, reparse)
        }
    }

    /// Delete the character right of the caret (or the highlighted text)
    pub fn delete_right<P: Fn(&str) -> Option<String>>(&mut self, reparse: &P) -> (r: Option<()>)
        requires
            forall|t: &str| #[trigger] reparse.requires((t,)),
            ascii(old(self).digits()),
            old(self).digits().len() <= isize::MAX,
            forall|t: &str, o: Option<String>| #[trigger] reparse.ensures((t,), o) && o is Some ==> o->0@.len() <= isize::MAX,
            old(self).caret.highlight_enabled ==> area_columns(old(self).caret.get_highlighted_area_spec()).1 <= old(self).digits().len(),
            !old(self).caret.highlight_enabled ==> old(self).caret.column <= old(self).digits().len(),
        ensures
            old(self).caret.highlight_enabled ==> {
                let (fp, bp) = area_columns(old(self).caret.get_highlighted_area_spec());
                if fp == bp {
                    *final(self) == *old(self)
                } else {
                    after_reparse(*old(self), *final(self), without_range(old(self).digits(), fp as int, bp as int), *reparse, r, false, fp, true)
                }
            },
            !old(self).caret.highlight_enabled ==> after_reparse(*old(self), *final(self),
                removal_candidate(old(self).digits(), old(self).caret.column as int, 1), *reparse, r, true, old(self).caret.column, false),
    {
        if self.caret.is_highlighting() {
            let area = self.caret.get_highlighted_area();
            self.delete_text_in_area(area, reparse)
        } else {
            let at = self.caret.column;
            self.remove_chars_from_line(at, 1, reparse)
        }
    }

    /// Go back to the previous saved state
    pub fn undo(&mut self)
        ensures
            *final(self) == (NumberInput { number: final(self).number, caret: final(self).caret, current_state: final(self).current_state, ..*old(self) }),
            !can_undo(old(self).current_state, old(self).last_states@.len()) ==> *final(self) == *old(self),
            can_undo(old(self).current_state, old(self).last_states@.len()) ==> {
                &&& final(self).current_state == old(self).current_state - 1
                &&& final(self).number@ == old(self).last_states@[old(self).current_state - 1].0@
                &&& final(self).caret == old(self).last_states@[old(self).current_state - 1].1
                &&& final(self).last_states == old(self).last_states
            },
    {
        if self.current_state >= 1 && self.current_state <= self.last_states.len() {
            self.current_state = self.current_state - 1;
            let st = &self.last_states[self.current_state];
            let n = st.0.as_str().to_owned();
            let c = st.1;
            self.number = n;
            self.caret = c;
        }
    }

    /// Go forward to the next saved state, if there is one
    pub fn redo(&mut self)
        ensures
            *final(self) == (NumberInput { number: final(self).number, caret: final(self).caret, current_state: final(self).current_state, ..*old(self) }),
            !(old(self).current_state + 1 < old(self).last_states@.len()) ==> *final(self) == *old(self),
            old(self).current_state + 1 < old(self).last_states@.len() ==> {
                &&& final(self).current_state == old(self).current_state + 1
                &&& final(self).number@ == old(self).last_states@[old(self).current_state + 1].0@
                &&& final(self).caret == old(self).last_states@[old(self).current_state + 1].1
                &&& final(self).last_states == old(self).last_states
            },
    {
        let len = self.last_states.len();
        if len > 0 && self.current_state < len - 1 {
            self.current_state = self.current_state + 1;
            let st = &self.last_states[self.current_state];
            let n = st.0.as_str().to_owned();
            let c = st.1;
            self.number = n;
            self.caret = c;
        }
    }
}

impl Caret {
    /// The highlighted area, as a mathematical value
    pub open spec fn get_highlighted_area_spec(self) -> (TextPosition, TextPosition) {
        (self.highlight_pos, number_caret_pos(self))
    }
}


/// The text after typing `text` at `column` of the number: the digits before the column, the
/// typed text, then the rest (past the end, the text goes at the end)
pub open spec fn typed_number(digits: Seq<char>, column: usize, text: Seq<char>) -> Seq<char> {
    take_upto(digits, column as int) + text + skip_upto(digits, column as int)
}

/// Typing one key took input `a` to `b` (`ok` tells if it succeeded). A key the filter
/// rejects, or one that types nothing, changes nothing. Otherwise the typed text is read back:
/// when it is a number, the input shows what `reparse` gave and the caret moves past the
/// key (one column, plus how much longer the shown text is than the typed one, wrapping);
/// when it is none, nothing changes and typing stops.
pub open spec fn key_written<P: Fn(&str) -> Option<String>>(reparse: &P, a: NumberInput, key: KeyInput, b: NumberInput, ok: bool) -> bool {
    &&& b.same_settings(&a)
    &&& if key_filtered(a.blacklist@, a.blacklist_is_whitelist, key.code) || key.text is None {
        ok && b == a
    } else {
        let typed = typed_number(a.digits(), a.caret.column, key.text->0@);
        if ok {
            exists|t: &str, n: String| t@ == typed && #[trigger] reparse.ensures((t,), Some(n)) && {
                &&& b.number == n
                &&& b.caret == (Caret {
                    column: a.caret.column.wrapping_add_signed((n@.len() + 1 - typed.len()) as isize),
                    ..a.caret
                })
            }
        } else {
            b == a && exists|t: &str| t@ == typed && #[trigger] reparse.ensures((t,), None::<String>)
        }
    }
}

/// Typing every one of `keys` in turn succeeded, going through the inputs `states` (the
/// first is the input before, the last the input after)
pub open spec fn keys_passed<P: Fn(&str) -> Option<String>>(reparse: &P, keys: Seq<KeyInput>, states: Seq<NumberInput>) -> bool {
    &&& states.len() == keys.len() + 1
    &&& forall|k: int| 0 <= k < keys.len() ==> #[trigger] key_written(reparse, states[k], keys[k], states[k + 1], true)
}

/// Typing every one of `keys` in turn succeeded and took input `a` to `b`
pub open spec fn keys_written<P: Fn(&str) -> Option<String>>(reparse: &P, a: NumberInput, keys: Seq<KeyInput>, b: NumberInput) -> bool {
    exists|states: Seq<NumberInput>| #[trigger] keys_passed(reparse, keys, states) && states[0] == a && states.last() == b
}

/// Typing and key bindings
impl NumberInput {
    /// Type one key at the caret: a key that passes the filter and types text inserts it,
    /// the number is read back, and the caret moves past it (by one more than the read back
    /// text is longer than the typed one)
    fn write_key<P: Fn(&str) -> Option<String>>(&mut self, key: &KeyInput, reparse: &P) -> (r: Option<()>)
        requires
            forall|t: &str| #[trigger] reparse.requires((t,)),
            forall|t: &str, o: Option<String>| #[trigger] reparse.ensures((t,), o) && o is Some ==> o->0@.len() < 0x1000_0000,
            old(self).digits().len() < 0x1000_0000,
            match key.text { Some(v) => v@.len() < 0x1000_0000, None => true },
        ensures
            final(self).digits().len() < 0x1000_0000,
            key_written(reparse, *old(self), *key, *final(self), r is Some),
    {
        if contains_code(&self.blacklist, key.code) != self.blacklist_is_whitelist {
            return Some(());
        }
        match &key.text {
            Some(value) => {
                let v = chars_of(self.number.as_str());
                let col = self.caret.column;
                let text = concat_chars(&concat_chars(&take_chars(&v, col), &chars_of(value.as_str())), &skip_chars(&v, col));
                let typed_len = text.len();
                let ghost typed = typed_number(old(self).digits(), col, value@);
                assert(text@ =~= typed);
                let shown = reparse_text(reparse, &text);
                match shown {
                    None => {
                        proof {
                            let t = choose|t: &str| t@ == text@ && #[trigger] reparse.ensures((t,), shown);
                            assert(reparse.ensures((t,), None::<String>));
                        }
                        None
                    },
                    Some(n) => {
                        let ghost nn = n;
                        proof {
                            let t = choose|t: &str| t@ == text@ && #[trigger] reparse.ensures((t,), shown);
                            assert(reparse.ensures((t,), Some(nn)));
                        }
                        self.number = n;
                        let after = self.get_line_length();
                        let add = after as isize + 1 - typed_len as isize;
                        self.caret.column = self.caret.column.wrapping_add_signed(add);
                        assert(self.number == nn);
                        Some(())
                    },
                }
            },
            None => Some(()),
        }
    }

    /// Type the keys at the caret, one after the other (see `write_key`), stopping at the
    /// first text that is no number; a read only input takes no keys
    pub fn write<P: Fn(&str) -> Option<String>>(&mut self, keycodes: &Vec<KeyInput>, reparse: &P) -> (r: Option<()>)
        requires
            forall|t: &str| #[trigger] reparse.requires((t,)),
            forall|t: &str, o: Option<String>| #[trigger] reparse.ensures((t,), o) && o is Some ==> o->0@.len() < 0x1000_0000,
            forall|i: int| 0 <= i < keycodes@.len() ==> match (#[trigger] keycodes@[i]).text { Some(v) => v@.len() < 0x1000_0000, None => true },
            old(self).digits().len() < 0x1000_0000,
        ensures
            final(self).same_settings(old(self)),
            old(self).read_only ==> r is Some && *final(self) == *old(self),
            (forall|i: int| 0 <= i < keycodes@.len() ==> key_filtered(old(self).blacklist@, old(self).blacklist_is_whitelist, (#[trigger] keycodes@[i]).code)
                || keycodes@[i].text is None) ==> r is Some && *final(self) == *old(self),
            !old(self).read_only && r is Some ==> keys_written(reparse, *old(self), keycodes@, *final(self)),
            !old(self).read_only && r is None ==> exists|i: int, m: NumberInput|
                0 <= i < keycodes@.len() && #[trigger] keys_written(reparse, *old(self), keycodes@.take(i), m)
                && key_written(reparse, m, keycodes@[i], *final(self), false),
    {
        if self.read_only {
            return Some(());
        }
        let mut i: usize = 0;
        let ghost mut states: Seq<NumberInput> = seq![*self];
        assert(keys_passed(reparse, keycodes@.take(0), states));
        while i < keycodes.len()
            invariant
                !old(self).read_only,
                i <= keycodes@.len(),
                self.same_settings(old(self)),
                forall|t: &str| #[trigger] reparse.requires((t,)),
                forall|t: &str, o: Option<String>| #[trigger] reparse.ensures((t,), o) && o is Some ==> o->0@.len() < 0x1000_0000,
                forall|k: int| 0 <= k < keycodes@.len() ==> match (#[trigger] keycodes@[k]).text { Some(v) => v@.len() < 0x1000_0000, None => true },
                self.digits().len() < 0x1000_0000,
                (forall|k: int| 0 <= k < keycodes@.len() ==> key_filtered(old(self).blacklist@, old(self).blacklist_is_whitelist, (#[trigger] keycodes@[k]).code)
                    || keycodes@[k].text is None) ==> *self == *old(self),
                keys_passed(reparse, keycodes@.take(i as int), states),
                states[0] == *old(self),
                states.last() == *self,
            decreases keycodes.len() - i,
        {
            let key = &keycodes[i];
            let ghost before = *self;
            let step = self.write_key(key, reparse);
            if step.is_none() {
                assert(keys_written(reparse, *old(self), keycodes@.take(i as int), before));
                return None;
            }
            proof {
                let next = keycodes@.take(i + 1);
                let prev = states;
                states = states.push(*self);
                assert forall|k: int| 0 <= k < next.len() implies #[trigger] key_written(reparse, states[k], next[k], states[k + 1], true) by {
                    if k < i {
                        assert(next[k] == keycodes@.take(i as int)[k]);
                        assert(key_written(reparse, prev[k], keycodes@.take(i as int)[k], prev[k + 1], true));
                    } else {
                        assert(next[k] == keycodes@[i as int]);
                    }
                }
            }
            i = i + 1;
        }
        assert(keycodes@.take(keycodes@.len() as int) =~= keycodes@);
        assert(keys_passed(reparse, keycodes@, states));
        Some(())
    }

    /// The data a copy gives: the highlighted text, or the whole number
    fn clipboard_of(&self) -> (r: Option<ClipboardData>)
        ensures
            ({
                let area = self.caret.get_highlighted_area_spec();
                let (ls, le, fp, bp) = area_bounds(area);
                let fits = !(ls == le && fp == bp) ==> if le == ls {
                    fp <= bp <= self.digits().len()
                } else {
                    fp <= self.digits().len() && bp <= self.digits().len()
                };
                if self.caret.highlight_enabled {
                    if fits {
                        r is Some && r->0 is ListOfText && r->0->ListOfText_0.deep_view() == number_selection(self.digits(), area)
                    } else {
                        r is None
                    }
                } else {
                    r is Some && r->0 is Text && r->0->Text_0@ == self.digits()
                }
            }),
    {
        if self.caret.is_highlighting() {
            let area = self.caret.get_highlighted_area();
            let head = area.0;
            let tail = area.1;
            let (ls, le, fp, bp) = if head.line > tail.line {
                (tail.line, head.line, tail.column, head.column)
            } else if tail.line > head.line || tail.column > head.column {
                (head.line, tail.line, head.column, tail.column)
            } else {
                (head.line, tail.line, tail.column, head.column)
            };
            let n = self.get_line_length();
            let fits = (ls == le && fp == bp) || (if le == ls { fp <= bp && bp <= n } else { fp <= n && bp <= n });
            if fits {
                Some(ClipboardData::ListOfText(self.get_selected_area(area)))
            } else {
                None
            }
        } else {
            Some(ClipboardData::Text(self.number.as_str().to_owned()))
        }
    }

    /// Perform one key binding action (see `handle_keybinds`); returns the clipboard data a
    /// copy or a cut gives
    #[verifier::rlimit(80)]
    #[verifier::spinoff_prover]
    fn apply_action<P: Fn(&str) -> Option<String>>(&mut self, action: Actions, reparse: &P, zero: &str) -> (r: Option<ClipboardData>)
        requires
            forall|t: &str| #[trigger] reparse.requires((t,)),
            forall|t: &str, o: Option<String>| #[trigger] reparse.ensures((t,), o) && o is Some ==> o->0@.len() <= isize::MAX,
            zero@.len() <= isize::MAX,
            old(self).digits().len() <= isize::MAX,
            forall|k: int| 0 <= k < old(self).last_states@.len() ==> (#[trigger] old(self).last_states@[k]).0@.len() <= isize::MAX,
        ensures
            number_action_applied(*old(self), *final(self), action, r, *reparse, zero@),
            final(self).digits().len() <= isize::MAX,
    {
        let n = self.get_line_length();
        let v = chars_of(self.number.as_str());
        let is_ascii = all_ascii(&v);
        let col = self.caret.column;
        let hl = self.caret.highlight_enabled;
        let area = self.caret.get_highlighted_area();
        let bp = if area.1.column > area.0.column { area.1.column } else { area.0.column };
        match action {
            Actions::MoveRight => {
                if hl || col < usize::MAX {
                    self.move_right();
                    self.caret.reset_highlighted();
                }
                None
            },
            Actions::MoveLeft => {
                self.move_left();
                self.caret.reset_highlighted();
                None
            },
            Actions::MoveUp => {
                self.move_up();
                self.caret.reset_highlighted();
                None
            },
            Actions::MoveDown => {
                self.move_down();
                self.caret.reset_highlighted();
                None
            },
            Actions::DeleteLeft => {
                if is_ascii && (if hl { bp <= n } else { col == 0 || col - 1 <= n }) {
                    self.delete_left(reparse);
                }
                None
            },
            Actions::DeleteRight => {
                if is_ascii && (if hl { bp <= n } else { col <= n }) {
                    self.delete_right(reparse);
                }
                None
            },
            Actions::Copy => self.clipboard_of(),
            Actions::Cut => {
                let data = self.clipboard_of();
                if data.is_some() {
                    if hl {
                        if bp <= n {
                            self.delete_text_in_area(area, reparse);
                        }
                    } else {
                        self.number = zero.to_owned();
                        self.caret.column = 0;
                    }
                }
                data
            },
            Actions::RequestPaste => None,
            Actions::DeleteCurrentLine => {
                self.delete_current_line(zero.to_owned());
                None
            },
            Actions::DeleteStructureLeft => {
                if is_ascii {
                    self.delete_structure_left(reparse);
                }
                None
            },
            Actions::DeleteStructureRight => {
                if is_ascii && col <= n {
                    self.delete_structure_right(reparse);
                }
                None
            },
            Actions::MoveStructureLeft => {
                self.move_left_by_structure();
                self.caret.reset_highlighted();
                None
            },
            Actions::MoveStructureRight => {
                if hl || col < usize::MAX {
                    self.move_right_by_structure();
                    self.caret.reset_highlighted();
                }
                None
            },
            Actions::Undo => {
                self.undo();
                None
            },
            Actions::Redo => {
                self.redo();
                None
            },
            Actions::ToggleOverwrite => {
                self.overwrite_mode = !self.overwrite_mode;
                None
            },
            Actions::SelectAll => {
                self.select_all();
                None
            },
            Actions::MoveToEndOfLine => {
                self.move_to_end_of_this_line();
                None
            },
            Actions::MoveToStartOfLine => {
                self.move_to_start_of_this_line();
                None
            },
            Actions::SelectLine => {
                self.move_to_start_of_this_line();
                self.caret.set_highlight_origin_to_current_pos();
                self.move_to_end_of_this_line();
                None
            },
            Actions::MoveDownAndHighlight => {
                self.caret.enable_highlight();
                self.move_down();
                None
            },
            Actions::MoveLeftAndHighlight => {
                self.caret.enable_highlight();
                self.move_left();
                None
            },
            Actions::MoveRightAndHighlight => {
                self.caret.enable_highlight();
                self.move_right();
                None
            },
            Actions::MoveUpAndHighlight => {
                self.caret.enable_highlight();
                self.move_up();
                None
            },
            Actions::MoveStructureLeftAndHighlight => {
                self.caret.enable_highlight();
                self.move_left_by_structure();
                None
            },
            Actions::MoveStructureRightAndHighlight => {
                self.caret.enable_highlight();
                self.move_right_by_structure();
                None
            },
        }
    }

    /// Perform the key binding actions in order. `reparse` reads a text back as the number
    /// and shows it (`None` when it is no number), `zero` is how zero is shown. An action
    /// whose step would leave the text is not performed. Returns if the undo history should
    /// not be extended (an undo or a redo happened), if clipboard data was asked for, and the
    /// clipboard data of the last copy or cut.
    #[verifier::rlimit(40)]
    pub fn handle_keybinds<P: Fn(&str) -> Option<String>>(&mut self, actions: &Vec<Actions>, reparse: &P, zero: &str) -> (r: (bool, bool, Option<ClipboardData>))
        requires
            forall|t: &str| #[trigger] reparse.requires((t,)),
            forall|t: &str, o: Option<String>| #[trigger] reparse.ensures((t,), o) && o is Some ==> o->0@.len() <= isize::MAX,
            zero@.len() <= isize::MAX,
            old(self).digits().len() <= isize::MAX,
            forall|k: int| 0 <= k < old(self).last_states@.len() ==> (#[trigger] old(self).last_states@[k]).0@.len() <= isize::MAX,
        ensures
            r.0 == exists|j: int| 0 <= j < actions@.len() && (#[trigger] actions@[j] == Actions::Undo || actions@[j] == Actions::Redo),
            r.1 == actions@.contains(Actions::RequestPaste),
            r.2 is Some ==> exists|j: int| 0 <= j < actions@.len() && (#[trigger] actions@[j] == Actions::Copy || actions@[j] == Actions::Cut),
            exists|states: Seq<NumberInput>, outs: Seq<Option<ClipboardData>>|
                #[trigger] number_actions_applied(actions@, states, outs, *reparse, zero@)
                && states[0] == *old(self)
                && states.last() == *final(self)
                && r.2 == last_clipboard(outs),
            actions@.len() == 0 ==> *final(self) == *old(self) && r == (false, false, None::<ClipboardData>),
    {
        let mut do_not_save = false;
        let mut request = false;
        let mut clipboard: Option<ClipboardData> = None;
        let mut i: usize = 0;
        let ghost mut states: Seq<NumberInput> = seq![*self];
        let ghost mut outs: Seq<Option<ClipboardData>> = Seq::empty();
        assert(number_actions_applied(actions@.take(0), states, outs, *reparse, zero@));
        while i < actions.len()
            invariant
                i <= actions@.len(),
                number_actions_applied(actions@.take(i as int), states, outs, *reparse, zero@),
                states[0] == *old(self),
                states.last() == *self,
                clipboard == last_clipboard(outs),
                forall|t: &str| #[trigger] reparse.requires((t,)),
                forall|t: &str, o: Option<String>| #[trigger] reparse.ensures((t,), o) && o is Some ==> o->0@.len() <= isize::MAX,
                zero@.len() <= isize::MAX,
                self.digits().len() <= isize::MAX,
                forall|k: int| 0 <= k < self.last_states@.len() ==> (#[trigger] self.last_states@[k]).0@.len() <= isize::MAX,
                do_not_save == exists|j: int| 0 <= j < i && (#[trigger] actions@[j] == Actions::Undo || actions@[j] == Actions::Redo),
                request == exists|j: int| 0 <= j < i && #[trigger] actions@[j] == Actions::RequestPaste,
                clipboard is Some ==> exists|j: int| 0 <= j < i && (#[trigger] actions@[j] == Actions::Copy || actions@[j] == Actions::Cut),
            decreases actions.len() - i,
        {
            let action = actions[i];
            let out = self.apply_action(action, reparse, zero);
            if action == Actions::Undo || action == Actions::Redo {
                do_not_save = true;
            }
            if action == Actions::RequestPaste {
                request = true;
            }
            if out.is_some() {
                clipboard = out;
            }
            proof {
                if request {
                    if action == Actions::RequestPaste {
                        assert(actions@[i as int] == Actions::RequestPaste);
                    }
                }
                let next = actions@.take(i + 1);
                let prev_states = states;
                let prev_outs = outs;
                states = states.push(*self);
                outs = outs.push(out);
                assert(outs.drop_last() =~= prev_outs);
                assert forall|k: int| 0 <= k < next.len() implies #[trigger] number_action_applied(states[k], states[k + 1], next[k], outs[k], *reparse, zero@) by {
                    if k < i {
                        assert(next[k] == actions@.take(i as int)[k]);
                        assert(number_action_applied(prev_states[k], prev_states[k + 1], actions@.take(i as int)[k], prev_outs[k], *reparse, zero@));
                    } else {
                        assert(next[k] == actions@[i as int]);
                    }
                }
            }
            i = i + 1;
        }
        assert(actions@.take(actions@.len() as int) =~= actions@);
        proof {
            if request {
                let j = choose|j: int| 0 <= j < i && #[trigger] actions@[j] == Actions::RequestPaste;
                assert(actions@.contains(Actions::RequestPaste));
            }
            if actions@.contains(Actions::RequestPaste) {
                let j = choose|j: int| 0 <= j < actions@.len() && actions@[j] == Actions::RequestPaste;
                assert(actions@[j] == Actions::RequestPaste);
            }
        }
        (do_not_save, request, clipboard)
    }
}

/// What a copy of the number input gives: the highlighted text (nothing when the highlight
/// leaves the number), or the whole number without a highlight
pub open spec fn number_copied(o: NumberInput, r: Option<ClipboardData>) -> bool {
    let area = o.caret.get_highlighted_area_spec();
    let (ls, le, fp, bp) = area_bounds(area);
    let fits = !(ls == le && fp == bp) ==> if le == ls {
        fp <= bp <= o.digits().len()
    } else {
        fp <= o.digits().len() && bp <= o.digits().len()
    };
    if o.caret.highlight_enabled {
        if fits {
            r is Some && r->0 is ListOfText && r->0->ListOfText_0.deep_view() == number_selection(o.digits(), area)
        } else {
            r is None
        }
    } else {
        r is Some && r->0 is Text && r->0->Text_0@ == o.digits()
    }
}

/// Caret `c` with a highlight started at its own position when it had none
pub open spec fn number_highlighted(c: Caret) -> Caret {
    if c.highlight_enabled {
        c
    } else {
        Caret { highlight_enabled: true, highlight_pos: number_caret_pos(c), ..c }
    }
}

/// Caret `c` without its highlight
pub open spec fn unhighlighted(c: Caret) -> Caret {
    Caret { highlight_enabled: false, ..c }
}

/// Only the caret changed, to `k`
pub open spec fn number_moved(o: NumberInput, f: NumberInput, k: Caret) -> bool {
    &&& f.caret == k
    &&& f.number == o.number
    &&& f.same_settings(&o)
}

/// What deleting the highlighted text gives (see `delete_text_in_area`)
pub open spec fn number_area_deleted<P: Fn(&str) -> Option<String>>(o: NumberInput, f: NumberInput, reparse: P) -> bool {
    let (fp, bp) = area_columns(o.caret.get_highlighted_area_spec());
    if fp == bp {
        f == o
    } else {
        exists|r: Option<()>| #[trigger] after_reparse(o, f, without_range(o.digits(), fp as int, bp as int), reparse, r, false, fp, true)
    }
}

/// What a deletion left of the caret gives (see `delete_left`)
pub open spec fn number_deleted_left<P: Fn(&str) -> Option<String>>(o: NumberInput, f: NumberInput, reparse: P) -> bool {
    let c = o.caret;
    if c.highlight_enabled {
        number_area_deleted(o, f, reparse)
    } else if c.column == 0 {
        f == o
    } else {
        exists|r: Option<()>| #[trigger] after_reparse(o, f, removal_candidate(o.digits(), c.column - 1, 1), reparse, r, true, c.column, false)
    }
}

/// What a deletion right of the caret gives (see `delete_right`)
pub open spec fn number_deleted_right<P: Fn(&str) -> Option<String>>(o: NumberInput, f: NumberInput, reparse: P) -> bool {
    let c = o.caret;
    if c.highlight_enabled {
        number_area_deleted(o, f, reparse)
    } else {
        exists|r: Option<()>| #[trigger] after_reparse(o, f, removal_candidate(o.digits(), c.column as int, 1), reparse, r, true, c.column, false)
    }
}

/// The number input went to the saved state `k` of its history
pub open spec fn number_restored(o: NumberInput, f: NumberInput, k: int) -> bool {
    &&& f.current_state == k
    &&& f.number@ == o.last_states@[k].0@
    &&& f.caret == o.last_states@[k].1
    &&& f == (NumberInput { number: f.number, caret: f.caret, current_state: f.current_state, ..o })
}

/// What one key binding action does to the number input (each step only when it stays
/// inside the number and the number is ASCII, else nothing changes): the moves put the caret
/// where their functions say, without a highlight or, for the highlighting moves, starting
/// one; the deletions remove text and read the number back with `reparse`; a copy gives the
/// copied text, a cut gives it too and removes it (the whole number becomes `zero`); deleting
/// the line shows `zero`; an undo or redo steps through the history; the other actions toggle
/// the overwrite mode or select. Only a copy or a cut gives clipboard data, and the history is
/// kept.
pub open spec fn number_action_applied<P: Fn(&str) -> Option<String>>(
    o: NumberInput,
    f: NumberInput,
    action: Actions,
    r: Option<ClipboardData>,
    reparse: P,
    zero: Seq<char>,
) -> bool {
    let d = o.digits();
    let n = d.len();
    let c = o.caret;
    let hc = number_highlighted(c);
    let wrap = o.allow_caret_wrap;
    let (fp, bp) = area_columns(c.get_highlighted_area_spec());
    &&& r is Some ==> action == Actions::Copy || action == Actions::Cut
    &&& f.last_states == o.last_states
    &&& action == Actions::MoveRight ==> if c.highlight_enabled || c.column < usize::MAX {
        number_moved(o, f, unhighlighted(number_caret_right(c, n, wrap)))
    } else {
        f == o
    }
    &&& action == Actions::MoveLeft ==> number_moved(o, f, unhighlighted(number_caret_left(c, n, wrap)))
    &&& action == Actions::MoveUp ==> number_moved(o, f, unhighlighted(Caret { column: 0, ..c }))
    &&& action == Actions::MoveDown ==> number_moved(o, f, unhighlighted(Caret { column: n as usize, ..c }))
    &&& action == Actions::DeleteLeft ==> if ascii(d) && (if c.highlight_enabled { bp <= n } else { c.column == 0 || c.column - 1 <= n }) {
        number_deleted_left(o, f, reparse)
    } else {
        f == o
    }
    &&& action == Actions::DeleteRight ==> if ascii(d) && (if c.highlight_enabled { bp <= n } else { c.column <= n }) {
        number_deleted_right(o, f, reparse)
    } else {
        f == o
    }
    &&& action == Actions::Copy ==> f == o && number_copied(o, r)
    &&& action == Actions::Cut ==> {
        &&& number_copied(o, r)
        &&& if r is None {
            f == o
        } else if c.highlight_enabled {
            if bp <= n { number_area_deleted(o, f, reparse) } else { f == o }
        } else {
            &&& f.number@ == zero
            &&& f.caret == (Caret { column: 0, ..c })
            &&& f.same_settings(&o)
        }
    }
    &&& action == Actions::RequestPaste ==> f == o
    &&& action == Actions::DeleteCurrentLine ==> {
        &&& f.number@ == zero
        &&& f.caret == (Caret { column: 0, ..c })
        &&& f.same_settings(&o)
    }
    &&& action == Actions::DeleteStructureLeft ==> if ascii(d) {
        exists|mid: NumberInput, r2: Option<()>|
            #[trigger] after_reparse(o, mid, removal_candidate(d, 0, c.column as int), reparse, r2, true, c.column, false)
            && f == (NumberInput { caret: Caret { column: 0, ..mid.caret }, ..mid })
    } else {
        f == o
    }
    &&& action == Actions::DeleteStructureRight ==> if ascii(d) && c.column <= n {
        exists|r2: Option<()>| #[trigger] after_reparse(o, f, removal_candidate(d, c.column as int, n - c.column), reparse, r2, true, c.column, false)
    } else {
        f == o
    }
    &&& action == Actions::MoveStructureLeft ==> number_moved(o, f, unhighlighted(Caret {
        column: 0,
        ..if c.column == 0 { number_caret_left(c, n, wrap) } else { c }
    }))
    &&& action == Actions::MoveStructureRight ==> if c.highlight_enabled || c.column < usize::MAX {
        number_moved(o, f, unhighlighted(Caret {
            column: n as usize,
            ..if c.column == n { number_caret_right(c, n, wrap) } else { c }
        }))
    } else {
        f == o
    }
    &&& action == Actions::Undo ==> if can_undo(o.current_state, o.last_states@.len()) {
        number_restored(o, f, o.current_state - 1)
    } else {
        f == o
    }
    &&& action == Actions::Redo ==> if o.current_state + 1 < o.last_states@.len() {
        number_restored(o, f, o.current_state + 1)
    } else {
        f == o
    }
    &&& action == Actions::ToggleOverwrite ==> f == (NumberInput { overwrite_mode: !o.overwrite_mode, ..o })
    &&& action == Actions::SelectAll ==> number_moved(o, f, Caret {
        column: n as usize,
        highlight_pos: TextPosition { line: 0, column: 0 },
        highlight_enabled: true,
    })
    &&& action == Actions::MoveToEndOfLine ==> number_moved(o, f, Caret { column: n as usize, ..c })
    &&& action == Actions::MoveToStartOfLine ==> number_moved(o, f, Caret { column: 0, ..c })
    &&& action == Actions::SelectLine ==> number_moved(o, f, Caret {
        column: n as usize,
        highlight_pos: TextPosition { line: 0, column: 0 },
        ..c
    })
    &&& action == Actions::MoveDownAndHighlight ==> number_moved(o, f, Caret { column: n as usize, ..hc })
    &&& action == Actions::MoveUpAndHighlight ==> number_moved(o, f, Caret { column: 0, ..hc })
    &&& action == Actions::MoveLeftAndHighlight ==> number_moved(o, f, number_caret_left(hc, n, wrap))
    &&& action == Actions::MoveRightAndHighlight ==> number_moved(o, f, number_caret_right(hc, n, wrap))
    &&& action == Actions::MoveStructureLeftAndHighlight ==> number_moved(o, f, Caret {
        column: 0,
        ..if hc.column == 0 { number_caret_left(hc, n, wrap) } else { hc }
    })
    &&& action == Actions::MoveStructureRightAndHighlight ==> number_moved(o, f, Caret {
        column: n as usize,
        ..if hc.column == n { number_caret_right(hc, n, wrap) } else { hc }
    })
}

/// The number input went through `states` (the first is the input before, the last the input
/// after), applying the actions in turn and giving the clipboard data `outs`
pub open spec fn number_actions_applied<P: Fn(&str) -> Option<String>>(
    actions: Seq<Actions>,
    states: Seq<NumberInput>,
    outs: Seq<Option<ClipboardData>>,
    reparse: P,
    zero: Seq<char>,
) -> bool {
    &&& states.len() == actions.len() + 1
    &&& outs.len() == actions.len()
    &&& forall|k: int| 0 <= k < actions.len() ==> #[trigger] number_action_applied(states[k], states[k + 1], actions[k], outs[k], reparse, zero)
}

/// If every character is ASCII
fn all_ascii(v: &Vec<char>) -> (r: bool)
    ensures
        r == ascii(v@),
{
    let mut i: usize = 0;
    while i < v.len()
        invariant
            i <= v@.len(),
            forall|j: int| 0 <= j < i ==> v@[j] < 128,
        decreases v.len() - i,
    {
        if v[i] >= 128 as char {
            return false;
        }
        i = i + 1;
    }
    true
}


/// The history of a number input as mathematical values: the number text and caret of each snapshot
pub open spec fn number_history(states: Seq<NumberState>) -> Seq<(Seq<char>, Caret)> {
    states.map_values(|st: NumberState| (st.0@, st.1))
}

/// The undo history
impl NumberInput {
    /// The history as mathematical values
    pub open spec fn history(&self) -> Seq<(Seq<char>, Caret)> {
        number_history(self.last_states@)
    }

    /// Before an edit: when the history is empty, the given number text (the text before the
    /// edit) and the caret become its first snapshot
    pub fn ensure_history_started(&mut self, previous_state: &str)
        ensures
            final(self).number == old(self).number,
            final(self).caret == old(self).caret,
            final(self).current_state == old(self).current_state,
            old(self).last_states@.len() > 0 ==> final(self).last_states == old(self).last_states,
            old(self).last_states@.len() == 0 ==> final(self).history() == seq![(previous_state@, old(self).caret)],
    {
        if self.last_states.len() == 0 {
            self.last_states.push((previous_state.to_owned(), self.caret));
            assert(self.history() =~= seq![(previous_state@, old(self).caret)]);
        }
    }

    /// After an edit: unless saving is suppressed or the number did not change, the states
    /// after the current one are dropped and the current number and caret become the newest
    /// snapshot, which is then the current one
    pub fn save_state(&mut self, previous_state: &str, do_not_save: bool) -> (saved: bool)
        ensures
            final(self).number == old(self).number,
            final(self).caret == old(self).caret,
            saved == (!do_not_save && old(self).digits() != previous_state@),
            !saved ==> final(self).last_states == old(self).last_states && final(self).current_state == old(self).current_state,
            saved ==> {
                let kept = if old(self).last_states@.len() > 0 && old(self).current_state < old(self).last_states@.len() - 1 {
                    old(self).history().subrange(0, old(self).current_state + 1)
                } else {
                    old(self).history()
                };
                &&& final(self).history() == kept.push((old(self).digits(), old(self).caret))
                &&& final(self).current_state == final(self).history().len() - 1
            },
    {
        if do_not_save || crate::modules::widget::text::same_text(self.number.as_str(), previous_state) {
            return false;
        }
        let ghost h0 = self.history();
        let last = if self.last_states.len() == 0 { 0 } else { self.last_states.len() - 1 };
        if self.current_state < last {
            self.last_states.truncate(self.current_state + 1);
            assert(self.history() =~= h0.subrange(0, old(self).current_state + 1));
        }
        let ghost h1 = self.history();
        self.last_states.push((self.number.as_str().to_owned(), self.caret));
        assert(self.history() =~= h1.push((old(self).digits(), old(self).caret)));
        self.current_state = self.last_states.len() - 1;
        true
    }
}

} // verus!
