use vstd::prelude::*;
use crate::modules::widget::text_input::Actions;

verus! {

// The numbers of the keys the default bindings use, as the platform numbers its key codes
/// The key `A`
pub const KEY_A: u32 = 0;
/// The key `C`
pub const KEY_C: u32 = 2;
/// The key `D`
pub const KEY_D: u32 = 3;
/// The key `F`
pub const KEY_F: u32 = 5;
/// The key `G`
pub const KEY_G: u32 = 6;
/// The key `H`
pub const KEY_H: u32 = 7;
/// The key `L`
pub const KEY_L: u32 = 11;
/// The key `V`
pub const KEY_V: u32 = 21;
/// The key `X`
pub const KEY_X: u32 = 23;
/// The key `Y`
pub const KEY_Y: u32 = 24;
/// The key `Z`
pub const KEY_Z: u32 = 25;
/// The key `Enter`
pub const KEY_ENTER: u32 = 79;
/// The key `Backspace`
pub const KEY_BACKSPACE: u32 = 81;
/// The key `Tab`
pub const KEY_TAB: u32 = 82;
/// The key `UpArrow`
pub const KEY_UP_ARROW: u32 = 96;
/// The key `DownArrow`
pub const KEY_DOWN_ARROW: u32 = 97;
/// The key `LeftArrow`
pub const KEY_LEFT_ARROW: u32 = 98;
/// The key `RightArrow`
pub const KEY_RIGHT_ARROW: u32 = 99;
/// The key `Insert`
pub const KEY_INSERT: u32 = 100;
/// The key `Delete`
pub const KEY_DELETE: u32 = 101;
/// The key `Home`
pub const KEY_HOME: u32 = 102;
/// The key `End`
pub const KEY_END: u32 = 103;
/// The key `KeyPadEnter`
pub const KEY_KEY_PAD_ENTER: u32 = 114;
/// The key `BrowserBack`
pub const KEY_BROWSER_BACK: u32 = 144;
/// The key `BrowserForward`
pub const KEY_BROWSER_FORWARD: u32 = 145;

/// A key binding: the keys that must be newly pressed, whether shift, alt and control must be
/// held, and the action it triggers
#[derive(Debug, Clone, PartialEq, Eq)]
pub struct KeyBinding {
    /// If shift must be held
    pub shift: bool,
    /// If alt must be held
    pub alt: bool,
    /// If control must be held
    pub control: bool,
    /// The keys that must be newly pressed
    pub keys: Vec<u32>,
    /// The action the binding triggers
    pub action: Actions,
}

/// A key binding as a mathematical value: (shift, alt, control, keys, action)
pub type KeyBindingView = (bool, bool, bool, Seq<u32>, Actions);

impl View for KeyBinding {
    type V = KeyBindingView;

    open spec fn view(&self) -> KeyBindingView {
        (self.shift, self.alt, self.control, self.keys@, self.action)
    }
}

/// A binding of one key
fn bind(shift: bool, alt: bool, control: bool, key: u32, action: Actions) -> (r: KeyBinding)
    ensures
        r@ == (shift, alt, control, seq![key], action),
{
    let mut keys: Vec<u32> = Vec::new();
    keys.push(key);
    KeyBinding { shift, alt, control, keys, action }
}

/// The default key bindings of the text input:
/// - Enter -> NewLine
/// - KeyPadEnter -> NewLine
/// - shift + Enter -> NewLineWithoutShifting
/// - shift + KeyPadEnter -> NewLineWithoutShifting
/// - Tab -> Indent
/// - control + Tab -> IndentAtLineStart
/// - shift + Tab -> OutdentAtLineStart
/// - shift + control + Tab -> Outdent
/// - Backspace -> DeleteLeft
/// - Delete -> DeleteRight
/// - control + Backspace -> DeleteStructureLeft
/// - control + Delete -> DeleteStructureRight
/// - shift + Delete -> DeleteCurrentLine
/// - control + Z -> Undo
/// - control + Y -> Redo
/// - control + C -> Copy
/// - control + X -> Cut
/// - control + V -> RequestPaste
/// - UpArrow -> MoveUp
/// - DownArrow -> MoveDown
/// - LeftArrow -> MoveLeft
/// - RightArrow -> MoveRight
/// - shift + RightArrow -> MoveRightAndHighlight
/// - shift + DownArrow -> MoveDownAndHighlight
/// - shift + UpArrow -> MoveUpAndHighlight
/// - shift + LeftArrow -> MoveLeftAndHighlight
/// - shift + control + RightArrow -> MoveStructureRightAndHighlight
/// - shift + control + LeftArrow -> MoveStructureLeftAndHighlight
/// - shift + control + UpArrow -> MoveStructureUpAndHighlight
/// - shift + control + DownArrow -> MoveStructureDownAndHighlight
/// - control + RightArrow -> MoveStructureRight
/// - control + LeftArrow -> MoveStructureLeft
/// - control + UpArrow -> MoveStructureUp
/// - control + DownArrow -> MoveStructureDown
/// - alt + UpArrow -> SwapWithLineAbove
/// - alt + DownArrow -> SwapWithLineBelow
/// - control + F -> ToggleSearchWindow
/// - control + H -> ToggleReplaceWindow
/// - Insert -> ToggleOverwrite
/// - control + G -> MoveToLine
/// - control + A -> SelectAll
/// - shift + alt + DownArrow -> DuplicateLineBelow
/// - shift + alt + UpArrow -> DuplicateToAbove
/// - control + End -> MoveToEndOfDocument
/// - control + Home -> MoveToStartOfDocument
/// - shift + End -> MoveToEndOfLine
/// - shift + Home -> MoveToStartOfLine
/// - control + D -> SelectStructure
/// - control + L -> SelectLine
/// - BrowserBack -> Undo
/// - BrowserForward -> Redo
pub open spec fn default_layout_spec() -> Seq<KeyBindingView> {
    seq![
        (false, false, false, seq![KEY_ENTER], Actions::NewLine),
        (false, false, false, seq![KEY_KEY_PAD_ENTER], Actions::NewLine),
        (true, false, false, seq![KEY_ENTER], Actions::NewLineWithoutShifting),
        (true, false, false, seq![KEY_KEY_PAD_ENTER], Actions::NewLineWithoutShifting),
        (false, false, false, seq![KEY_TAB], Actions::Indent),
        (false, false, true, seq![KEY_TAB], Actions::IndentAtLineStart),
        (true, false, false, seq![KEY_TAB], Actions::OutdentAtLineStart),
        (true, false, true, seq![KEY_TAB], Actions::Outdent),
        (false, false, false, seq![KEY_BACKSPACE], Actions::DeleteLeft),
        (false, false, false, seq![KEY_DELETE], Actions::DeleteRight),
        (false, false, true, seq![KEY_BACKSPACE], Actions::DeleteStructureLeft),
        (false, false, true, seq![KEY_DELETE], Actions::DeleteStructureRight),
        (true, false, false, seq![KEY_DELETE], Actions::DeleteCurrentLine),
        (false, false, true, seq![KEY_Z], Actions::Undo),
        (false, false, true, seq![KEY_Y], Actions::Redo),
        (false, false, true, seq![KEY_C], Actions::Copy),
        (false, false, true, seq![KEY_X], Actions::Cut),
        (false, false, true, seq![KEY_V], Actions::RequestPaste),
        (false, false, false, seq![KEY_UP_ARROW], Actions::MoveUp),
        (false, false, false, seq![KEY_DOWN_ARROW], Actions::MoveDown),
        (false, false, false, seq![KEY_LEFT_ARROW], Actions::MoveLeft),
        (false, false, false, seq![KEY_RIGHT_ARROW], Actions::MoveRight),
        (true, false, false, seq![KEY_RIGHT_ARROW], Actions::MoveRightAndHighlight),
        (true, false, false, seq![KEY_DOWN_ARROW], Actions::MoveDownAndHighlight),
        (true, false, false, seq![KEY_UP_ARROW], Actions::MoveUpAndHighlight),
        (true, false, false, seq![KEY_LEFT_ARROW], Actions::MoveLeftAndHighlight),
        (true, false, true, seq![KEY_RIGHT_ARROW], Actions::MoveStructureRightAndHighlight),
        (true, false, true, seq![KEY_LEFT_ARROW], Actions::MoveStructureLeftAndHighlight),
        (true, false, true, seq![KEY_UP_ARROW], Actions::MoveStructureUpAndHighlight),
        (true, false, true, seq![KEY_DOWN_ARROW], Actions::MoveStructureDownAndHighlight),
        (false, false, true, seq![KEY_RIGHT_ARROW], Actions::MoveStructureRight),
        (false, false, true, seq![KEY_LEFT_ARROW], Actions::MoveStructureLeft),
        (false, false, true, seq![KEY_UP_ARROW], Actions::MoveStructureUp),
        (false, false, true, seq![KEY_DOWN_ARROW], Actions::MoveStructureDown),
        (false, true, false, seq![KEY_UP_ARROW], Actions::SwapWithLineAbove),
        (false, true, false, seq![KEY_DOWN_ARROW], Actions::SwapWithLineBelow),
        (false, false, true, seq![KEY_F], Actions::ToggleSearchWindow),
        (false, false, true, seq![KEY_H], Actions::ToggleReplaceWindow),
        (false, false, false, seq![KEY_INSERT], Actions::ToggleOverwrite),
        (false, false, true, seq![KEY_G], Actions::MoveToLine),
        (false, false, true, seq![KEY_A], Actions::SelectAll),
        (true, true, false, seq![KEY_DOWN_ARROW], Actions::DuplicateLineBelow),
        (true, true, false, seq![KEY_UP_ARROW], Actions::DuplicateToAbove),
        (false, false, true, seq![KEY_END], Actions::MoveToEndOfDocument),
        (false, false, true, seq![KEY_HOME], Actions::MoveToStartOfDocument),
        (true, false, false, seq![KEY_END], Actions::MoveToEndOfLine),
        (true, false, false, seq![KEY_HOME], Actions::MoveToStartOfLine),
        (false, false, true, seq![KEY_D], Actions::SelectStructure),
        (false, false, true, seq![KEY_L], Actions::SelectLine),
        (false, false, false, seq![KEY_BROWSER_BACK], Actions::Undo),
        (false, false, false, seq![KEY_BROWSER_FORWARD], Actions::Redo),
    ]
}

/// The key bindings a text input starts with (see `default_layout_spec`)
#[verifier::rlimit(60)]
pub fn default_keybind_layout() -> (r: Vec<KeyBinding>)
    ensures
        r@.map_values(|b: KeyBinding| b@) == default_layout_spec(),
{
    let mut r: Vec<KeyBinding> = Vec::new();
    r.push(bind(false, false, false, KEY_ENTER, Actions::NewLine));
    r.push(bind(false, false, false, KEY_KEY_PAD_ENTER, Actions::NewLine));
    r.push(bind(true, false, false, KEY_ENTER, Actions::NewLineWithoutShifting));
    r.push(bind(true, false, false, KEY_KEY_PAD_ENTER, Actions::NewLineWithoutShifting));
    r.push(bind(false, false, false, KEY_TAB, Actions::Indent));
    r.push(bind(false, false, true, KEY_TAB, Actions::IndentAtLineStart));
    r.push(bind(true, false, false, KEY_TAB, Actions::OutdentAtLineStart));
    r.push(bind(true, false, true, KEY_TAB, Actions::Outdent));
    r.push(bind(false, false, false, KEY_BACKSPACE, Actions::DeleteLeft));
    r.push(bind(false, false, false, KEY_DELETE, Actions::DeleteRight));
    r.push(bind(false, false, true, KEY_BACKSPACE, Actions::DeleteStructureLeft));
    r.push(bind(false, false, true, KEY_DELETE, Actions::DeleteStructureRight));
    r.push(bind(true, false, false, KEY_DELETE, Actions::DeleteCurrentLine));
    r.push(bind(false, false, true, KEY_Z, Actions::Undo));
    r.push(bind(false, false, true, KEY_Y, Actions::Redo));
    r.push(bind(false, false, true, KEY_C, Actions::Copy));
    r.push(bind(false, false, true, KEY_X, Actions::Cut));
    r.push(bind(false, false, true, KEY_V, Actions::RequestPaste));
    r.push(bind(false, false, false, KEY_UP_ARROW, Actions::MoveUp));
    r.push(bind(false, false, false, KEY_DOWN_ARROW, Actions::MoveDown));
    r.push(bind(false, false, false, KEY_LEFT_ARROW, Actions::MoveLeft));
    r.push(bind(false, false, false, KEY_RIGHT_ARROW, Actions::MoveRight));
    r.push(bind(true, false, false, KEY_RIGHT_ARROW, Actions::MoveRightAndHighlight));
    r.push(bind(true, false, false, KEY_DOWN_ARROW, Actions::MoveDownAndHighlight));
    r.push(bind(true, false, false, KEY_UP_ARROW, Actions::MoveUpAndHighlight));
    r.push(bind(true, false, false, KEY_LEFT_ARROW, Actions::MoveLeftAndHighlight));
    r.push(bind(true, false, true, KEY_RIGHT_ARROW, Actions::MoveStructureRightAndHighlight));
    r.push(bind(true, false, true, KEY_LEFT_ARROW, Actions::MoveStructureLeftAndHighlight));
    r.push(bind(true, false, true, KEY_UP_ARROW, Actions::MoveStructureUpAndHighlight));
    r.push(bind(true, false, true, KEY_DOWN_ARROW, Actions::MoveStructureDownAndHighlight));
    r.push(bind(false, false, true, KEY_RIGHT_ARROW, Actions::MoveStructureRight));
    r.push(bind(false, false, true, KEY_LEFT_ARROW, Actions::MoveStructureLeft));
    r.push(bind(false, false, true, KEY_UP_ARROW, Actions::MoveStructureUp));
    r.push(bind(false, false, true, KEY_DOWN_ARROW, Actions::MoveStructureDown));
    r.push(bind(false, true, false, KEY_UP_ARROW, Actions::SwapWithLineAbove));
    r.push(bind(false, true, false, KEY_DOWN_ARROW, Actions::SwapWithLineBelow));
    r.push(bind(false, false, true, KEY_F, Actions::ToggleSearchWindow));
    r.push(bind(false, false, true, KEY_H, Actions::ToggleReplaceWindow));
    r.push(bind(false, false, false, KEY_INSERT, Actions::ToggleOverwrite));
    r.push(bind(false, false, true, KEY_G, Actions::MoveToLine));
    r.push(bind(false, false, true, KEY_A, Actions::SelectAll));
    r.push(bind(true, true, false, KEY_DOWN_ARROW, Actions::DuplicateLineBelow));
    r.push(bind(true, true, false, KEY_UP_ARROW, Actions::DuplicateToAbove));
    r.push(bind(false, false, true, KEY_END, Actions::MoveToEndOfDocument));
    r.push(bind(false, false, true, KEY_HOME, Actions::MoveToStartOfDocument));
    r.push(bind(true, false, false, KEY_END, Actions::MoveToEndOfLine));
    r.push(bind(true, false, false, KEY_HOME, Actions::MoveToStartOfLine));
    r.push(bind(false, false, true, KEY_D, Actions::SelectStructure));
    r.push(bind(false, false, true, KEY_L, Actions::SelectLine));
    r.push(bind(false, false, false, KEY_BROWSER_BACK, Actions::Undo));
    r.push(bind(false, false, false, KEY_BROWSER_FORWARD, Actions::Redo));
    assert(r@.map_values(|b: KeyBinding| b@) =~= default_layout_spec());
    r
}

} // verus!
