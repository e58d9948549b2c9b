/// Text helpers shared by the text and number inputs
pub mod text_support;
/// A multi line text input
pub mod text_input;
/// A box that cycles through states when clicked
pub mod check_box;
/// A list of selectable options
pub mod selection;
/// A plain text
pub mod text;
/// Helpers shared by the widgets
pub mod misc;
/// A single line input for a number
pub mod number_input;
/// How a text input reacts to the mouse and to the focus of other modules
pub mod text_input_focus;
/// How a number input reacts to the mouse and to the focus of other modules
pub mod number_input_focus;
/// Pasting lists of lines into a text input
pub mod text_input_paste;
/// The default key bindings of the text input
pub mod text_input_keys;
