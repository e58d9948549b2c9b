use dear_mirl_gui::modules::widget::text_input_keys::{
    default_keybind_layout, KEY_BACKSPACE, KEY_C, KEY_ENTER, KEY_KEY_PAD_ENTER, KEY_Z,
};
use dear_mirl_gui::modules::widget::text_input::{
    Actions, Caret, KeyInput, TextInput, TextInputMenu, TextPosition, ready_text,
};
use dear_mirl_gui::modules::widget::text_support::{CharacterType, get_char_type};
use dear_mirl_gui::output::ClipboardData;

fn input(lines: &[&str]) -> TextInput {
    TextInput::new(20, 400, 100, Some(lines.iter().map(|l| l.to_string()).collect()))
}

fn key(code: u32, text: &str) -> KeyInput {
    KeyInput { code, text: Some(text.to_string()) }
}

fn no_skip(_s: &str, i: usize) -> usize {
    i
}

#[test]
fn new_puts_the_caret_at_the_end() {
    let t = input(&["hello", "world!"]);
    assert_eq!(t.caret.len(), 1);
    assert_eq!(t.caret[0].line, 1);
    assert_eq!(t.caret[0].column, 6);
    assert_eq!(t.line_number_offset, 40);
    assert_eq!(t.indent_length, 4);
    assert_eq!(t.menu_open, TextInputMenu::Closed);
    let empty = TextInput::new(20, 400, 100, None);
    assert_eq!(empty.text, vec![String::new()]);
    assert_eq!(empty.caret[0], Caret::new(0, 0));
}

#[test]
fn placeholder_text() {
    let t = input(&["a"]).with_placeholder_text("Click me");
    assert_eq!(t.placeholder_text, "Click me");
}

#[test]
fn line_queries() {
    let t = input(&["héllo", "", "ab"]);
    assert_eq!(t.get_line_length(0), 5);
    assert_eq!(t.line_count_idx(), 2);
    assert_eq!(t.clamp_to_line_count(7), 2);
    assert_eq!(t.clamp_to_column(0, 9), 5);
    assert_eq!(t.get_character(0, 1), Some('é'));
    assert_eq!(t.get_character(1, 0), None);
    assert_eq!(t.split_line(0, 2), ("hé".to_string(), "llo".to_string()));
    assert_eq!(t.get_line_vertically(1), "é b".to_string());
}

#[test]
fn moving_right_and_left_crosses_lines() {
    let mut t = input(&["ab", "c"]);
    t.move_to_start_of_line(0, 0);
    t.move_right(0);
    t.move_right(0);
    assert_eq!((t.caret[0].line, t.caret[0].column), (0, 2));
    t.move_right(0);
    assert_eq!((t.caret[0].line, t.caret[0].column), (1, 0));
    t.move_left(0);
    assert_eq!((t.caret[0].line, t.caret[0].column), (0, 2));
    t.move_to_start_of_line(0, 0);
    t.move_left(0);
    assert_eq!((t.caret[0].line, t.caret[0].column), (0, 0));
    t.allow_caret_wrap = true;
    t.move_left(0);
    assert_eq!((t.caret[0].line, t.caret[0].column), (1, 1));
}

#[test]
fn moving_up_and_down_remembers_the_column() {
    let mut t = input(&["abcdef", "x", "abcdef"]);
    t.move_to_start_of_line(0, 0);
    t.move_to_end_of_this_line(0);
    t.move_down(0);
    assert_eq!((t.caret[0].line, t.caret[0].column), (1, 1));
    t.move_down(0);
    assert_eq!((t.caret[0].line, t.caret[0].column), (2, 6));
    t.move_down(0);
    assert_eq!((t.caret[0].line, t.caret[0].column), (2, 6));
    t.move_up(0);
    t.move_up(0);
    t.move_up(0);
    assert_eq!((t.caret[0].line, t.caret[0].column), (0, 0));
}

#[test]
fn inserting_and_removing_characters() {
    let mut t = input(&["hello"]);
    t.insert_string_into_line(0, 2, "XY");
    assert_eq!(t.text, vec!["heXYllo".to_string()]);
    t.remove_chars_from_line(0, 1, 3);
    assert_eq!(t.text, vec!["hllo".to_string()]);
    t.remove_chars_from_line(0, 3, 10);
    assert_eq!(t.text, vec!["hll".to_string()]);
}

#[test]
fn deleting_an_area_and_reinserting_its_text_restores_the_lines() {
    let mut t = input(&["hello", "big", "world"]);
    let area = (TextPosition::new(0, 2), TextPosition::new(2, 3));
    let selected = t.get_selected_area(area);
    assert_eq!(selected, vec!["llo".to_string(), "big".to_string(), "wor".to_string()]);
    t.delete_text_in_area(area);
    assert_eq!(t.text, vec!["held".to_string()]);
    assert_eq!((t.caret[0].line, t.caret[0].column), (0, 2));
    assert!(t.new_line(0));
    assert_eq!(t.text, vec!["he".to_string(), "ld".to_string()]);
    t.insert_string_into_line(0, 2, "llo");
    t.insert_string_into_line(1, 0, "wor");
    t.insert_line(1, "big".to_string());
    assert_eq!(t.text, vec!["hello".to_string(), "big".to_string(), "world".to_string()]);
}

#[test]
fn new_line_splits_and_keeps_indent() {
    let mut t = input(&["    abcd"]);
    t.move_to_start_of_line(0, 0);
    t.caret[0].column = 6;
    assert!(t.new_line(0));
    assert_eq!(t.text, vec!["    ab".to_string(), "    cd".to_string()]);
    assert_eq!((t.caret[0].line, t.caret[0].column), (1, 4));
    t.max_lines = 2;
    assert!(!t.new_line(0));
    assert_eq!(t.text.len(), 2);
}

#[test]
fn delete_left_merges_lines_at_the_start() {
    let mut t = input(&["ab", "cd"]);
    t.move_to_start_of_line(0, 1);
    t.delete_left(0);
    assert_eq!(t.text, vec!["abcd".to_string()]);
    assert_eq!((t.caret[0].line, t.caret[0].column), (0, 2));
    t.delete_left(0);
    assert_eq!(t.text, vec!["acd".to_string()]);
    assert_eq!(t.caret[0].column, 1);
    t.delete_right(0);
    assert_eq!(t.text, vec!["ad".to_string()]);
}

#[test]
fn delete_current_line_and_swap() {
    let mut t = input(&["one", "two", "three"]);
    t.swap_lines(0, 2);
    assert_eq!(t.text, vec!["three".to_string(), "two".to_string(), "one".to_string()]);
    t.move_to_start_of_line(0, 1);
    t.delete_current_line(0);
    assert_eq!(t.text, vec!["three".to_string(), "one".to_string()]);
    assert_eq!(t.get_line_indent(0), 0);
}

#[test]
fn indenting_fills_to_the_next_stop() {
    let mut t = input(&["ab"]);
    t.indent(0);
    assert_eq!(t.text, vec!["ab  ".to_string()]);
    assert_eq!(t.caret[0].column, 4);
    t.indent(0);
    assert_eq!(t.text, vec!["ab      ".to_string()]);
    assert_eq!(t.caret[0].column, 8);
    t.outdent(0, 3);
    assert_eq!(t.text, vec!["ab    ".to_string()]);
    assert_eq!(t.caret[0].column, 6);
    let mut u = input(&["x"]);
    u.indent_at_line_start(0, 0);
    assert_eq!(u.text, vec!["  x".to_string()]);
    assert_eq!(u.get_line_indent(0), 2);
}

#[test]
fn outdent_needs_whitespace_left_of_the_caret() {
    let mut t = input(&["abc"]);
    t.outdent(0, 0);
    assert_eq!(t.text, vec!["abc".to_string()]);
    assert_eq!(t.caret[0].column, 3);
}

#[test]
fn writing_keys() {
    let mut t = input(&["ab"]);
    t.write(&vec![key(1, "x"), KeyInput { code: 2, text: None }, key(3, "Y")], false, 0);
    assert_eq!(t.text, vec!["abxy".to_string()]);
    assert_eq!(t.caret[0].column, 4);
    t.write(&vec![key(4, "q")], true, 0);
    assert_eq!(t.text, vec!["abxyQ".to_string()]);
    t.blacklist = vec![5];
    t.write(&vec![key(5, "z"), key(6, "w")], false, 0);
    assert_eq!(t.text, vec!["abxyQw".to_string()]);
}

#[test]
fn undo_then_redo_gives_back_the_text() {
    let mut t = input(&["a"]);
    let before = t.text.clone();
    t.ensure_history_started(&before);
    t.write(&vec![key(1, "b")], false, 0);
    assert!(t.save_state(&before, false));
    assert_eq!(t.current_state, 1);
    t.undo();
    assert_eq!(t.text, vec!["a".to_string()]);
    t.redo();
    assert_eq!(t.text, vec!["ab".to_string()]);
    assert!(!t.save_state(&vec!["ab".to_string()], false));
    assert!(!t.save_state(&before, true));
}

#[test]
fn selecting() {
    let mut t = input(&["ab", "cde"]);
    t.select_all(0);
    assert!(t.caret[0].highlight_enabled);
    assert_eq!(t.caret[0].highlight_pos, TextPosition::new(0, 0));
    assert_eq!((t.caret[0].line, t.caret[0].column), (1, 3));
    let mut u = input(&["foo bar"]);
    u.move_to_start_of_line(0, 0);
    u.caret[0].column = 5;
    u.select_structure(0, 4, 7);
    assert_eq!(u.caret[0].highlight_pos, TextPosition::new(0, 4));
    assert_eq!(u.caret[0].column, 7);
}

#[test]
fn structure_moves_use_the_skipping() {
    let mut t = input(&["foo bar"]);
    t.move_to_start_of_line(0, 0);
    t.caret[0].column = 5;
    t.move_left_by_structure(0, &|_s: &str, _i: usize| 4);
    assert_eq!(t.caret[0].column, 4);
    t.move_right_by_structure(0, &|s: &str, _i: usize| s.chars().count());
    assert_eq!(t.caret[0].column, 7);
    t.delete_structure_left(0, 4);
    assert_eq!(t.text, vec!["foo ".to_string()]);
    assert_eq!(t.caret[0].column, 4);
    t.move_up_by_structure(0, 0);
    t.move_down_by_structure(0, 3);
    assert_eq!(t.caret[0].line, 0);
}

#[test]
fn key_bindings_report_flags_and_clipboard() {
    let mut t = input(&["abc"]);
    let r = t.handle_keybinds(&vec![Actions::Copy, Actions::RequestPaste, Actions::MoveLeft], &no_skip, &no_skip);
    assert!(!r.0);
    assert!(r.1);
    assert_eq!(r.2, Some(ClipboardData::Text("abc".to_string())));
    assert_eq!(t.caret[0].column, 2);
    let r = t.handle_keybinds(&vec![Actions::ToggleOverwrite, Actions::Undo], &no_skip, &no_skip);
    assert!(r.0 && !r.1 && r.2.is_none());
    assert!(t.overwrite_mode);
    let r = t.handle_keybinds(&vec![Actions::SelectAll, Actions::Cut], &no_skip, &no_skip);
    assert_eq!(r.2, Some(ClipboardData::ListOfText(vec!["abc".to_string()])));
    assert_eq!(t.text, vec![String::new()]);
    t.handle_keybinds(&vec![Actions::ToggleSearchWindow], &no_skip, &no_skip);
    assert_eq!(t.menu_open, TextInputMenu::Search);
    t.handle_keybinds(&vec![Actions::ToggleSearchWindow], &no_skip, &no_skip);
    assert_eq!(t.menu_open, TextInputMenu::Closed);
}

#[test]
fn cutting_the_only_line_leaves_one_empty_line() {
    let mut t = input(&["abc"]);
    let r = t.handle_keybinds(&vec![Actions::Cut], &no_skip, &no_skip);
    assert_eq!(r.2, Some(ClipboardData::Text("abc".to_string())));
    assert_eq!(t.text, vec![String::new()]);
}

#[test]
fn ready_text_expands_tabs_and_splits_lines() {
    assert_eq!(ready_text("a\tb\nc", 2), vec!["a  b".to_string(), "c".to_string()]);
    assert_eq!(ready_text("", 4), vec![String::new()]);
    assert_eq!(ready_text("x\n", 4), vec!["x".to_string(), String::new()]);
}

#[test]
fn character_types() {
    assert_eq!(get_char_type('a'), CharacterType::Letter);
    assert_eq!(get_char_type('é'), CharacterType::Letter);
    assert_eq!(get_char_type('7'), CharacterType::Number);
    assert_eq!(get_char_type('_'), CharacterType::Underscore);
    assert_eq!(get_char_type(' '), CharacterType::Whitespace);
    assert_eq!(get_char_type('+'), CharacterType::Special);
}

#[test]
fn caret_helpers() {
    let mut c = Caret::new(2, 3);
    assert!(!c.is_highlighting());
    c.enable_highlight();
    assert!(c.is_highlighting());
    assert_eq!(c.highlight_pos, TextPosition::new(2, 3));
    c.move_to_pos(TextPosition::new(0, 1));
    assert_eq!(c.get_highlighted_area(), (TextPosition::new(2, 3), TextPosition::new(0, 1)));
    assert_eq!((c.line(), c.column()), (0, 1));
    c.reset_highlighted();
    assert!(!c.highlight_enabled);
    assert!(TextPosition::new(0, 5).is_before(&TextPosition::new(1, 0)));
    assert!(!TextPosition::new(1, 0).is_before(&TextPosition::new(1, 0)));
    assert_eq!(Caret::default(), Caret::new(0, 0));
}

#[test]
fn navigation_actions_move_copy_and_toggle() {
    let mut t = input(&["ab", "cde"]);
    assert_eq!(t.apply_action(Actions::RequestPaste, &no_skip, &no_skip), None);
    assert_eq!(t.apply_action(Actions::Copy, &no_skip, &no_skip), Some(ClipboardData::Text("cde".to_string())));
    let before = t.overwrite_mode;
    t.apply_action(Actions::ToggleOverwrite, &no_skip, &no_skip);
    assert_eq!(t.overwrite_mode, !before);
    t.apply_action(Actions::ToggleSearchWindow, &no_skip, &no_skip);
    assert_eq!(t.menu_open, TextInputMenu::Search);
    t.apply_action(Actions::ToggleSearchWindow, &no_skip, &no_skip);
    assert_eq!(t.menu_open, TextInputMenu::Closed);
    t.apply_action(Actions::MoveToStartOfDocument, &no_skip, &no_skip);
    assert_eq!((t.caret[0].line, t.caret[0].column), (0, 0));
    t.apply_action(Actions::MoveToEndOfLine, &no_skip, &no_skip);
    assert_eq!((t.caret[0].line, t.caret[0].column), (0, 2));
    t.apply_action(Actions::MoveDown, &no_skip, &no_skip);
    assert_eq!(t.caret[0].line, 1);
    t.apply_action(Actions::SelectAll, &no_skip, &no_skip);
    assert!(t.caret[0].highlight_enabled);
    assert_eq!((t.caret[0].line, t.caret[0].column), (1, 3));
    assert_eq!(t.text, vec!["ab".to_string(), "cde".to_string()]);
}

#[test]
fn default_key_bindings_cover_the_documented_keys() {
    let layout = default_keybind_layout();
    assert_eq!(layout.len(), 51);
    let find = |shift: bool, control: bool, key: u32| {
        layout.iter().find(|b| b.shift == shift && b.control == control && !b.alt && b.keys == vec![key]).map(|b| b.action)
    };
    assert_eq!(find(false, false, KEY_ENTER), Some(Actions::NewLine));
    assert_eq!(find(true, false, KEY_ENTER), Some(Actions::NewLineWithoutShifting));
    assert_eq!(find(true, false, KEY_KEY_PAD_ENTER), Some(Actions::NewLineWithoutShifting));
    assert_eq!(find(false, true, KEY_ENTER), None);
    assert_eq!(find(false, true, KEY_C), Some(Actions::Copy));
    assert_eq!(find(false, true, KEY_Z), Some(Actions::Undo));
    assert_eq!(find(false, true, KEY_BACKSPACE), Some(Actions::DeleteStructureLeft));
}

#[test]
fn no_key_bindings_change_nothing() {
    let mut t = input(&["ab", "cd"]);
    let (text, caret, state) = (t.text.clone(), t.caret.clone(), t.current_state);
    let r = t.handle_keybinds(&vec![], &no_skip, &no_skip);
    assert_eq!(r, (false, false, None));
    assert_eq!(t.text, text);
    assert_eq!(t.caret, caret);
    assert_eq!(t.current_state, state);
}

#[test]
fn copy_through_the_key_bindings_gives_the_caret_line() {
    let mut t = TextInput::new(20, 200, 10, Some(vec!["ab".to_string()]));
    let r = t.handle_keybinds(&vec![Actions::Copy], &no_skip, &no_skip);
    assert_eq!(r, (false, false, Some(ClipboardData::Text("ab".to_string()))));
    assert_eq!(t.text, vec!["ab".to_string()]);
    assert_eq!((t.caret[0].line, t.caret[0].column), (0, 2));
}

#[test]
fn undo_at_the_oldest_state_changes_nothing() {
    let mut t = input(&["a"]);
    let before = t.text.clone();
    t.ensure_history_started(&before);
    assert_eq!(t.current_state, 0);
    t.undo();
    assert_eq!(t.text, vec!["a".to_string()]);
    assert_eq!(t.current_state, 0);
    t.handle_keybinds(&vec![Actions::Undo], &no_skip, &no_skip);
    assert_eq!(t.text, vec!["a".to_string()]);
}

#[test]
fn an_edit_after_undo_keeps_the_state_before_it() {
    let mut t = input(&["a"]);
    let s0 = t.text.clone();
    t.ensure_history_started(&s0);
    t.write(&vec![key(1, "b")], false, 0);
    assert!(t.save_state(&s0, false));
    let s1 = t.text.clone();
    t.write(&vec![key(1, "c")], false, 0);
    assert!(t.save_state(&s1, false));
    assert_eq!(t.current_state, 2);
    t.undo();
    assert_eq!(t.text, vec!["ab".to_string()]);
    let s2 = t.text.clone();
    t.write(&vec![key(1, "x")], false, 0);
    assert!(t.save_state(&s2, false));
    assert_eq!(t.last_states.len(), 3);
    assert_eq!(t.current_state, 2);
    t.undo();
    assert_eq!(t.text, vec!["ab".to_string()]);
    t.undo();
    assert_eq!(t.text, vec!["a".to_string()]);
}

#[test]
fn editing_key_bindings() {
    let mut t = input(&["ab"]);
    t.handle_keybinds(&vec![Actions::Indent], &no_skip, &no_skip);
    assert_eq!(t.text, vec!["ab  ".to_string()]);
    assert_eq!(t.caret[0].column, 4);
    t.handle_keybinds(&vec![Actions::MoveToStartOfLine, Actions::MoveRight, Actions::NewLine], &no_skip, &no_skip);
    assert_eq!(t.text, vec!["a".to_string(), "b  ".to_string()]);
    assert_eq!((t.caret[0].line, t.caret[0].column), (1, 0));
    t.handle_keybinds(&vec![Actions::DeleteLeft], &no_skip, &no_skip);
    assert_eq!(t.text, vec!["ab  ".to_string()]);
    assert_eq!((t.caret[0].line, t.caret[0].column), (0, 1));
    t.handle_keybinds(&vec![Actions::DeleteRight], &no_skip, &no_skip);
    assert_eq!(t.text, vec!["a  ".to_string()]);
    t.handle_keybinds(&vec![Actions::DuplicateToAbove], &no_skip, &no_skip);
    assert_eq!(t.text, vec!["a  ".to_string(), "a  ".to_string()]);
    t.handle_keybinds(&vec![Actions::DeleteCurrentLine], &no_skip, &no_skip);
    assert_eq!(t.text, vec!["a  ".to_string()]);
    assert_eq!(t.caret[0].column, 0);
}

#[test]
fn swapping_lines_moves_the_caret_with_its_line() {
    let mut t = input(&["one", "two"]);
    t.handle_keybinds(&vec![Actions::SwapWithLineAbove], &no_skip, &no_skip);
    assert_eq!(t.text, vec!["two".to_string(), "one".to_string()]);
    assert_eq!(t.caret[0].line, 0);
    t.handle_keybinds(&vec![Actions::SwapWithLineBelow], &no_skip, &no_skip);
    assert_eq!(t.text, vec!["one".to_string(), "two".to_string()]);
    assert_eq!(t.caret[0].line, 1);
}

#[test]
fn deleted_area_put_back_in_the_joined_text_restores_it() {
    let mut t = input(&["hello", "big", "world"]);
    let area = (TextPosition::new(0, 2), TextPosition::new(2, 3));
    let before = t.text.join("\n");
    let sel = t.get_selected_area(area);
    t.delete_text_in_area(area);
    assert_eq!(t.text, vec!["held".to_string()]);
    assert_eq!((t.caret[0].line, t.caret[0].column, t.caret[0].highlight_enabled), (0, 2, false));
    let after: Vec<char> = t.text.join("\n").chars().collect();
    let rebuilt: String = after[..2].iter().collect::<String>() + &sel.join("\n") + &after[2..].iter().collect::<String>();
    assert_eq!(rebuilt, before);
}
