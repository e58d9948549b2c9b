use vstd::prelude::*;
use crate::focus_taken::{FocusTaken, focus_join};

verus! {

#[derive(Debug, Clone, Copy, PartialEq, Eq, Structural, Hash)]
/// The cursor styles a module or window may request
pub enum CursorStyle {
    /// The platform's default arrow
    Default,
    /// An open hand, something can be grabbed
    HandOpen,
    /// A closed hand, something is being held
    HandClosed,
    /// An alias/shortcut arrow
    Alias,
    /// Scrolling in all directions
    AllScroll,
    /// Arrow pointing to the bottom left
    ArrowBottomLeft,
    /// Arrow pointing to the bottom right
    ArrowBottomRight,
    /// The bottom side
    SideBottom,
    /// A table cell
    Cell,
    /// A pointer centered on its hotspot
    CenteredPointer,
    /// Resizing horizontally
    ResizeHorizontally,
    /// A color picker
    ColorPicker,
    /// A context menu
    ContextMenu,
    /// Copying
    Copy,
    /// A crosshair
    Crosshair,
    /// A held item that cannot be dropped here
    HandClosedNoDrop,
    /// Arrow pointing down
    ArrowDown,
    /// A drafting pen
    Draft,
    /// Moving in all directions
    Fleur,
    /// Help
    Help,
    /// Arrow pointing left
    ArrowLeft,
    /// The left side
    SideLeft,
    /// Dropping is not allowed
    NoDrop,
    /// The action is not allowed
    NotAllowed,
    /// A pencil
    Pencil,
    /// A pirate
    Pirate,
    /// A pointing hand
    Pointer,
    /// Arrow pointing right
    ArrowRight,
    /// A mirrored pointer
    MirroredPointer,
    /// The right side
    SideRight,
    /// Resizing from the north east to the south west
    ResizeNESW,
    /// Resizing from the north west to the south east
    ResizeNWSE,
    /// Horizontal size
    SizeHor,
    /// Resizing vertically
    ResizeVertically,
    /// Text selection
    Text,
    /// Arrow pointing to the top left
    ArrowTopLeft,
    /// Arrow pointing to the top right
    ArrowTopRight,
    /// The top side
    SideTop,
    /// Arrow pointing up
    ArrowUp,
    /// Vertical text selection
    VerticalText,
    /// Zooming in
    ZoomIn,
    /// Zooming out
    ZoomOut,
}

#[derive(Debug, PartialEq, Eq)]
/// Data exchanged with the clipboard
pub enum ClipboardData {
    /// A single text
    Text(String),
    /// A list of lines
    ListOfText(Vec<String>),
}

/// The mathematical value of clipboard data
pub enum ClipboardView {
    /// A single text
    Text(Seq<char>),
    /// A list of lines
    ListOfText(Seq<Seq<char>>),
}

impl View for ClipboardData {
    type V = ClipboardView;

    open spec fn view(&self) -> ClipboardView {
        match self {
            ClipboardData::Text(s) => ClipboardView::Text(s@),
            ClipboardData::ListOfText(v) => ClipboardView::ListOfText(v.deep_view()),
        }
    }
}

impl Clone for ClipboardData {
    fn clone(&self) -> (r: Self)
        ensures
            r@ == self@,
    {
        match self {
            ClipboardData::Text(s) => ClipboardData::Text(s.clone()),
            ClipboardData::ListOfText(v) => {
                let mut out: Vec<String> = Vec::new();
                let mut i: usize = 0;
                while i < v.len()
                    invariant
                        i <= v@.len(),
                        out@.len() == i,
                        forall|j: int| 0 <= j < i ==> #[trigger] out@[j]@ == v@[j]@,
                    decreases v.len() - i,
                {
                    out.push(v[i].clone());
                    i = i + 1;
                }
                assert(out.deep_view() =~= v.deep_view());
                ClipboardData::ListOfText(out)
            },
        }
    }
}

/// The mathematical value of optional clipboard data
pub open spec fn clipboard_opt_view(c: Option<ClipboardData>) -> Option<ClipboardView> {
    match c {
        Some(d) => Some(d@),
        None => None,
    }
}

#[derive(Debug, PartialEq, Eq)]
/// Every bit of information a window or a module returns after an update
pub struct GuiOutput {
    /// Requested cursor style
    pub new_cursor_style: Option<CursorStyle>,
    /// If this window took focus
    pub focus_taken: FocusTaken,
    /// Requested new cursor position
    pub new_cursor_position: Option<(isize, isize)>,
    /// If the cursor should be hidden
    pub hide_cursor: bool,
    /// Requested data to set the clipboard to
    pub new_clipboard_data: Option<ClipboardData>,
    /// If a text input is selected (Some devices may not have a keyboard available at all times)
    pub text_input_selected: bool,
    /// If a module would like to access what is currently stored in the clipboard
    pub request_clipboard_data: bool,
}

/// The mathematical value of a `GuiOutput`
pub struct GuiOutputView {
    /// Requested cursor style
    pub new_cursor_style: Option<CursorStyle>,
    /// Focus level
    pub focus_taken: FocusTaken,
    /// Requested cursor position
    pub new_cursor_position: Option<(isize, isize)>,
    /// Hide the cursor
    pub hide_cursor: bool,
    /// Requested clipboard content
    pub new_clipboard_data: Option<ClipboardView>,
    /// A text input is selected
    pub text_input_selected: bool,
    /// The clipboard content is requested
    pub request_clipboard_data: bool,
}

impl View for GuiOutput {
    type V = GuiOutputView;

    open spec fn view(&self) -> GuiOutputView {
        GuiOutputView {
            new_cursor_style: self.new_cursor_style,
            focus_taken: self.focus_taken,
            new_cursor_position: self.new_cursor_position,
            hide_cursor: self.hide_cursor,
            new_clipboard_data: clipboard_opt_view(self.new_clipboard_data),
            text_input_selected: self.text_input_selected,
            request_clipboard_data: self.request_clipboard_data,
        }
    }
}

/// The first of two optional values that is present
pub open spec fn first_some<A>(a: Option<A>, b: Option<A>) -> Option<A> {
    match a {
        Some(_) => a,
        None => b,
    }
}

/// Two outputs combined: missing values of the left one are supplemented from the right one,
/// focus keeps the stronger level and flags are or-ed
pub open spec fn output_join(a: GuiOutputView, b: GuiOutputView) -> GuiOutputView {
    GuiOutputView {
        new_cursor_style: first_some(a.new_cursor_style, b.new_cursor_style),
        focus_taken: focus_join(a.focus_taken, b.focus_taken),
        new_cursor_position: first_some(a.new_cursor_position, b.new_cursor_position),
        hide_cursor: a.hide_cursor || b.hide_cursor,
        new_clipboard_data: first_some(a.new_clipboard_data, b.new_clipboard_data),
        text_input_selected: a.text_input_selected || b.text_input_selected,
        request_clipboard_data: a.request_clipboard_data || b.request_clipboard_data,
    }
}

/// The output in which nothing is requested, with the given focus level
pub open spec fn output_with_focus(f: FocusTaken) -> GuiOutputView {
    GuiOutputView {
        new_cursor_style: None,
        focus_taken: f,
        new_cursor_position: None,
        hide_cursor: false,
        new_clipboard_data: None,
        text_input_selected: false,
        request_clipboard_data: false,
    }
}

impl GuiOutput {
    /// Compare two outputs and supplement missing values
    pub fn or(&self, rhs: Self) -> (r: Self)
        ensures
            r@ == output_join(self@, rhs@),
    {
        let new_cursor_style = match self.new_cursor_style {
            Some(c) => Some(c),
            None => rhs.new_cursor_style,
        };
        let new_cursor_position = match self.new_cursor_position {
            Some(p) => Some(p),
            None => rhs.new_cursor_position,
        };
        let new_clipboard_data = match &self.new_clipboard_data {
            Some(d) => Some(d.clone()),
            None => rhs.new_clipboard_data,
        };
        GuiOutput {
            new_cursor_style,
            focus_taken: self.focus_taken | rhs.focus_taken,
            new_cursor_position,
            hide_cursor: self.hide_cursor || rhs.hide_cursor,
            new_clipboard_data,
            text_input_selected: self.text_input_selected || rhs.text_input_selected,
            request_clipboard_data: self.request_clipboard_data || rhs.request_clipboard_data,
        }
    }

    /// Create a new output with everything set to None or False
    pub fn default(took_focus: FocusTaken) -> (r: Self)
        ensures
            r@ == output_with_focus(took_focus),
    {
        GuiOutput {
            new_cursor_style: None,
            focus_taken: took_focus,
            new_cursor_position: None,
            hide_cursor: false,
            new_clipboard_data: None,
            text_input_selected: false,
            request_clipboard_data: false,
        }
    }

    /// Everything set to false, focus free
    pub fn empty() -> (r: Self)
        ensures
            r@ == output_with_focus(FocusTaken::FocusFree),
    {
        Self::default(FocusTaken::FocusFree)
    }

    /// Set the cursor style
    pub fn with_optional_cursor(self, cursor_style: Option<CursorStyle>) -> (r: Self)
        ensures
            r@ == (GuiOutputView { new_cursor_style: cursor_style, ..self@ }),
    {
        GuiOutput { new_cursor_style: cursor_style, ..self }
    }

    /// Set the cursor style
    pub fn with_cursor(self, cursor_style: CursorStyle) -> (r: Self)
        ensures
            r@ == (GuiOutputView { new_cursor_style: Some(cursor_style), ..self@ }),
    {
        GuiOutput { new_cursor_style: Some(cursor_style), ..self }
    }

    /// Set whether the cursor is hidden
    pub fn hide_cursor(self, hide: bool) -> (r: Self)
        ensures
            r@ == (GuiOutputView { hide_cursor: hide, ..self@ }),
    {
        GuiOutput { hide_cursor: hide, ..self }
    }

    /// Set which focus state was taken
    pub fn set_focus_to(self, took_focus: FocusTaken) -> (r: Self)
        ensures
            r@ == (GuiOutputView { focus_taken: took_focus, ..self@ }),
    {
        GuiOutput { focus_taken: took_focus, ..self }
    }

    /// Set the new cursor position
    pub fn with_cursor_position(self, pos: Option<(isize, isize)>) -> (r: Self)
        ensures
            r@ == (GuiOutputView { new_cursor_position: pos, ..self@ }),
    {
        GuiOutput { new_cursor_position: pos, ..self }
    }

    /// Set new clipboard data
    pub fn with_clipboard_data(self, data: Option<ClipboardData>) -> (r: Self)
        ensures
            r@ == (GuiOutputView { new_clipboard_data: clipboard_opt_view(data), ..self@ }),
    {
        GuiOutput { new_clipboard_data: data, ..self }
    }

    /// Mark text input as selected or not
    pub fn select_text_input(self, selected: bool) -> (r: Self)
        ensures
            r@ == (GuiOutputView { text_input_selected: selected, ..self@ }),
    {
        GuiOutput { text_input_selected: selected, ..self }
    }

    /// Request clipboard data
    pub fn request_clipboard(self, request: bool) -> (r: Self)
        ensures
            r@ == (GuiOutputView { request_clipboard_data: request, ..self@ }),
    {
        GuiOutput { request_clipboard_data: request, ..self }
    }

    /// Combine this output with another one in place
    pub fn or_assign(&mut self, rhs: Self)
        ensures
            final(self)@ == output_join(old(self)@, rhs@),
    {
        let value = self.or(rhs);
        *self = value;
    }
}

/// Combining outputs is associative and idempotent, and the empty output is
/// its neutral element on both sides.
pub proof fn lemma_output_join_laws(a: GuiOutputView, b: GuiOutputView, c: GuiOutputView)
    ensures
        output_join(output_join(a, b), c) == output_join(a, output_join(b, c)),
        output_join(a, a) == a,
        output_join(a, output_with_focus(FocusTaken::FocusFree)) == a,
        output_join(output_with_focus(FocusTaken::FocusFree), a) == a,
{
    crate::focus_taken::lemma_focus_join_laws(a.focus_taken, b.focus_taken, c.focus_taken);
    crate::focus_taken::lemma_focus_join_laws(FocusTaken::FocusFree, a.focus_taken, c.focus_taken);
}

} // verus!
