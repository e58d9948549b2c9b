use dear_mirl_gui::focus_taken::FocusTaken;
use dear_mirl_gui::mouse_data::{ButtonState, MouseState};
use dear_mirl_gui::output::{ClipboardData, CursorStyle, GuiOutput};

#[test]
fn focus_join_keeps_the_stronger_level() {
    assert_eq!(FocusTaken::FocusFree | FocusTaken::VisuallyTaken, FocusTaken::VisuallyTaken);
    assert_eq!(FocusTaken::FunctionallyTaken | FocusTaken::VisuallyTaken, FocusTaken::FunctionallyTaken);
    assert_eq!(FocusTaken::FocusFree | FocusTaken::FocusFree, FocusTaken::FocusFree);
    let a = FocusTaken::VisuallyTaken;
    assert_eq!(a | a, a);
    assert_eq!(
        (FocusTaken::FocusFree | FocusTaken::VisuallyTaken) | FocusTaken::FunctionallyTaken,
        FocusTaken::FocusFree | (FocusTaken::VisuallyTaken | FocusTaken::FunctionallyTaken)
    );
}

#[test]
fn focus_not_and_taken() {
    assert!(!FocusTaken::FocusFree);
    assert!(!(!FocusTaken::VisuallyTaken));
    assert!(FocusTaken::FunctionallyTaken.is_focus_taken());
    assert!(!FocusTaken::FocusFree.is_focus_taken());
}

#[test]
fn focus_ordering() {
    assert!(FocusTaken::FocusFree < FocusTaken::VisuallyTaken);
    assert!(FocusTaken::VisuallyTaken < FocusTaken::FunctionallyTaken);
    assert!(FocusTaken::FunctionallyTaken > FocusTaken::FocusFree);
    assert_eq!(FocusTaken::VisuallyTaken.partial_cmp(&FocusTaken::VisuallyTaken), Some(core::cmp::Ordering::Equal));
}

#[test]
fn button_state_from_frames() {
    let s = ButtonState::new(true, false);
    assert!(s.down && s.clicked && !s.released);
    let s = ButtonState::new(false, true);
    assert!(!s.down && !s.clicked && s.released);
    let s = ButtonState::new(true, true);
    assert!(s.down && !s.clicked && !s.released);
    let m = MouseState { left: s, middle: ButtonState::new(false, false), right: ButtonState::new(false, false) };
    assert!(m.left.down && !m.middle.down);
}

#[test]
fn output_or_fills_missing_values_from_the_right() {
    let a = GuiOutput::empty().with_cursor(CursorStyle::Pointer).set_focus_to(FocusTaken::VisuallyTaken);
    let b = GuiOutput::empty()
        .with_cursor(CursorStyle::Copy)
        .set_focus_to(FocusTaken::FunctionallyTaken)
        .with_cursor_position(Some((3, 4)))
        .hide_cursor(true)
        .with_clipboard_data(Some(ClipboardData::Text("x".to_string())))
        .select_text_input(true)
        .request_clipboard(true);
    let c = a.or(b);
    assert_eq!(c.new_cursor_style, Some(CursorStyle::Pointer));
    assert_eq!(c.focus_taken, FocusTaken::FunctionallyTaken);
    assert_eq!(c.new_cursor_position, Some((3, 4)));
    assert!(c.hide_cursor && c.text_input_selected && c.request_clipboard_data);
    assert_eq!(c.new_clipboard_data, Some(ClipboardData::Text("x".to_string())));
}

#[test]
fn output_empty_is_neutral() {
    let a = GuiOutput::default(FocusTaken::VisuallyTaken).with_optional_cursor(Some(CursorStyle::Text));
    let left = GuiOutput::empty().or(GuiOutput::default(FocusTaken::VisuallyTaken).with_optional_cursor(Some(CursorStyle::Text)));
    let right = GuiOutput::default(FocusTaken::VisuallyTaken).with_optional_cursor(Some(CursorStyle::Text)).or(GuiOutput::empty());
    assert_eq!(left, a);
    assert_eq!(right, GuiOutput::default(FocusTaken::VisuallyTaken).with_optional_cursor(Some(CursorStyle::Text)));
    let mut d = GuiOutput::empty();
    d.or_assign(GuiOutput::default(FocusTaken::FunctionallyTaken));
    assert_eq!(d.focus_taken, FocusTaken::FunctionallyTaken);
    assert_eq!(d.new_cursor_style, None);
}

#[test]
fn clipboard_clone_keeps_the_content() {
    let a = ClipboardData::ListOfText(vec!["a".to_string(), "b".to_string()]);
    assert_eq!(a.clone(), a);
}
