use dear_mirl_gui::modules::widget::number_input::{Actions, Caret, NumberInput};
use dear_mirl_gui::modules::widget::text_input::{KeyInput, TextPosition};
use dear_mirl_gui::output::ClipboardData;

fn reparse(s: &str) -> Option<String> {
    s.parse::<i64>().ok().map(|n| n.to_string())
}

fn input(n: &str) -> NumberInput {
    let mut i = NumberInput::new(n.to_string(), 50);
    i.caret = Caret::new(n.chars().count());
    i
}

fn key(text: &str) -> KeyInput {
    KeyInput { code: 0, text: Some(text.to_string()) }
}

#[test]
fn new_number_input() {
    let i = NumberInput::new("12".to_string(), 30).with_width(40);
    assert_eq!(i.width, 40);
    assert_eq!(i.caret, Caret::new(100));
    assert_eq!(i.get_line_length(), 2);
    assert_eq!(i.clamp_to_column(100), 2);
    assert_eq!(i.get_character(1), Some('2'));
    assert_eq!(i.get_character(2), None);
    assert_eq!((i.line_count_idx(), i.clamp_to_line_count(5)), (0, 0));
}

#[test]
fn moving_the_caret() {
    let mut i = input("123");
    i.move_left();
    assert_eq!(i.caret.column, 2);
    i.move_up();
    assert_eq!(i.caret.column, 0);
    i.move_left();
    assert_eq!(i.caret.column, 0);
    i.allow_caret_wrap = true;
    i.move_left();
    assert_eq!(i.caret.column, 3);
    i.move_right();
    assert_eq!(i.caret.column, 0);
    i.move_down();
    assert_eq!(i.caret.column, 3);
    i.move_left_by_structure();
    assert_eq!(i.caret.column, 0);
    i.move_right_by_structure();
    assert_eq!(i.caret.column, 3);
}

#[test]
fn selecting_the_number() {
    let mut i = input("456");
    i.select_all();
    assert!(i.caret.highlight_enabled);
    assert_eq!(i.caret.highlight_pos, TextPosition::new(0, 0));
    assert_eq!(i.get_selected_area(i.caret.get_highlighted_area()), vec!["456".to_string()]);
    let mut j = input("78");
    j.select_structure();
    assert_eq!(j.caret.column, 2);
    assert!(j.caret.highlight_enabled);
}

#[test]
fn typing_digits_reads_the_number_back() {
    let mut i = input("12");
    assert_eq!(i.write(&vec![key("3")], &reparse), Some(()));
    assert_eq!(i.number, "123");
    assert_eq!(i.caret.column, 3);
    i.caret = Caret::new(0);
    assert_eq!(i.write(&vec![key("0")], &reparse), Some(()));
    assert_eq!(i.number, "123");
    assert_eq!(i.caret.column, 0);
    assert_eq!(i.write(&vec![key("x")], &reparse), None);
    assert_eq!(i.number, "123");
    i.read_only = true;
    assert_eq!(i.write(&vec![key("9")], &reparse), Some(()));
    assert_eq!(i.number, "123");
}

#[test]
fn deleting_digits() {
    let mut i = input("1234");
    assert_eq!(i.delete_left(&reparse), Some(()));
    assert_eq!(i.number, "123");
    i.caret = Caret::new(1);
    i.delete_right(&reparse);
    assert_eq!(i.number, "13");
    i.caret = Caret::new(1);
    i.delete_structure_left(&reparse);
    assert_eq!(i.number, "3");
    assert_eq!(i.caret.column, 0);
    i.delete_current_line("0".to_string());
    assert_eq!(i.number, "0");
    let mut j = input("987");
    j.caret = Caret::new(1);
    j.delete_structure_right(&reparse);
    assert_eq!(j.number, "9");
    let mut k = input("5555");
    assert_eq!(k.delete_text_in_area((TextPosition::new(0, 3), TextPosition::new(0, 1)), &reparse), Some(()));
    assert_eq!(k.number, "55");
    assert_eq!(k.caret.column, 1);
    assert_eq!(k.insert_chars_from_line(1, "12", &reparse), Some(()));
    assert_eq!(k.number, "5125");
}

#[test]
fn moving_the_cursor_after_a_change() {
    let mut i = input("123");
    i.move_cursor(2);
    assert_eq!(i.caret.column, 1);
    i.move_cursor(-1);
    assert_eq!(i.caret.column, 3);
    i.move_cursor(0);
    assert_eq!(i.caret.column, 3);
}

#[test]
fn number_key_bindings() {
    let mut i = input("42");
    let r = i.handle_keybinds(&vec![Actions::Copy, Actions::RequestPaste], &reparse, "0");
    assert_eq!(r, (false, true, Some(ClipboardData::Text("42".to_string()))));
    let r = i.handle_keybinds(&vec![Actions::Cut], &reparse, "0");
    assert_eq!(r.2, Some(ClipboardData::Text("42".to_string())));
    assert_eq!(i.number, "0");
    let r = i.handle_keybinds(&vec![Actions::Undo, Actions::ToggleOverwrite], &reparse, "0");
    assert!(r.0);
    assert!(i.overwrite_mode);
}

#[test]
fn saving_and_undoing() {
    let mut i = input("1");
    i.ensure_history_started("1");
    i.write(&vec![key("2")], &reparse);
    assert!(i.save_state("1", false));
    assert_eq!(i.current_state, 1);
    i.undo();
    assert_eq!(i.number, "1");
    i.redo();
    assert_eq!(i.number, "12");
    i.set_number("7".to_string());
    assert_eq!(i.caret.column, 1);
    assert!(i.needs_redraw);
}

#[test]
fn number_key_bindings_edit_and_move() {
    let mut i = input("123");
    i.handle_keybinds(&vec![Actions::MoveLeft, Actions::DeleteLeft], &reparse, "0");
    assert_eq!(i.number, "13");
    i.handle_keybinds(&vec![Actions::MoveStructureRight], &reparse, "0");
    assert_eq!(i.caret.column, 2);
    i.handle_keybinds(&vec![Actions::SelectAll], &reparse, "0");
    assert!(i.caret.highlight_enabled);
    let r = i.handle_keybinds(&vec![Actions::Copy, Actions::DeleteCurrentLine], &reparse, "0");
    assert_eq!(r.2, Some(ClipboardData::ListOfText(vec!["13".to_string()])));
    assert_eq!(i.number, "0");
    assert_eq!(i.caret.column, 0);
}

#[test]
fn no_number_key_bindings_change_nothing() {
    let mut i = input("42");
    let (number, caret) = (i.number.clone(), i.caret);
    let r = i.handle_keybinds(&vec![], &reparse, "0");
    assert_eq!(r, (false, false, None));
    assert_eq!(i.number, number);
    assert_eq!(i.caret, caret);
}
