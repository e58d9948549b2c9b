use dear_mirl_gui::focus_taken::FocusTaken;
use dear_mirl_gui::gui::{DearMirlGui, ResizeDirections, DEFAULT_MENU_HEIGHT};
use dear_mirl_gui::layout::ModuleLayout;
use dear_mirl_gui::modules::struct_editing::{InspectBool, InspectString};
use dear_mirl_gui::modules::widget::number_input::{Caret as NumberCaret, NumberInput};
use dear_mirl_gui::modules::widget::text_input::{Caret, KeyInput, TextInput, TextPosition};
use dear_mirl_gui::output::{ClipboardData, CursorStyle};

fn input(lines: &[&str]) -> TextInput {
    TextInput::new(20, 400, 100, Some(lines.iter().map(|l| l.to_string()).collect()))
}

fn keys(text: &str) -> Vec<KeyInput> {
    text.chars().map(|c| KeyInput { code: c as u32, text: Some(c.to_string()) }).collect()
}

#[test]
fn text_input_height_and_width() {
    let t = TextInput::new(20, 400, 3, None);
    assert_eq!(t.get_height(5), (20 + 5) * 3 + 10);
    assert_eq!(t.get_width(), 400);
}

#[test]
fn foreign_focus_releases_the_text_input() {
    let mut t = input(&["abc", "de"]);
    t.selected = 4;
    t.release_selection(FocusTaken::VisuallyTaken, 4);
    assert_eq!(t.selected, 4);
    assert_eq!(t.caret[0], Caret::new(1, 2));
    t.release_selection(FocusTaken::FunctionallyTaken, 3);
    assert_eq!(t.selected, 4);
    t.release_selection(FocusTaken::FunctionallyTaken, 4);
    assert_eq!(t.selected, 0);
    assert_eq!(t.caret[0], Caret::new(0, 0));
    assert_eq!(t.text, vec!["abc".to_string(), "de".to_string()]);
}

#[test]
fn clicking_selects_and_moves_the_caret() {
    let mut t = input(&["hello world", "x"]);
    let offset = t.line_number_offset as i32;
    // a click right of the line numbers on line 7 (clamped to the last line), column 0
    let r = t.handle_mouse(2, Some((offset + 5, 10)), true, 5, (7, 0), 0, 0);
    assert_eq!(r, (true, true));
    assert_eq!(t.selected, 2);
    assert_eq!(t.caret[0], Caret::new(1, 0));
    // hovering without a click changes nothing
    let r = t.handle_mouse(2, Some((offset + 5, 10)), false, 5, (0, 3), 0, 0);
    assert_eq!(r, (false, true));
    assert_eq!(t.caret[0], Caret::new(1, 0));
    // clicking where the caret already stands selects the structure around it
    let r = t.handle_mouse(2, Some((offset + 5, 10)), true, 5, (0, 2), 0, 11);
    assert_eq!(r, (true, true));
    assert_eq!(t.caret[0], Caret::new(0, 2));
    t.handle_mouse(2, Some((offset + 5, 10)), true, 5, (0, 2), 0, 5);
    assert_eq!(t.caret[0].column, 5);
    assert!(t.caret[0].highlight_enabled);
    assert_eq!(t.caret[0].highlight_pos, TextPosition::new(0, 0));
    // a click on the line numbers selects without moving the caret
    let before = t.caret[0];
    let r = t.handle_mouse(2, Some((0, 10)), true, 5, (1, 0), 0, 0);
    assert_eq!(r, (true, true));
    assert_eq!(t.caret[0], before);
    // a click outside deselects it in this container
    let r = t.handle_mouse(2, Some((5000, 10)), true, 5, (0, 0), 0, 0);
    assert_eq!(r, (false, false));
    assert_eq!(t.selected, 0);
}

#[test]
fn a_read_only_input_is_never_selected() {
    let mut t = input(&["abc"]);
    t.read_only = true;
    let r = t.handle_mouse(1, Some((200, 5)), true, 5, (0, 0), 0, 0);
    assert_eq!(r, (true, true));
    assert_eq!(t.selected, 0);
    let out = t.update_output(true, 1, true, false, None);
    assert_eq!(out.new_cursor_style, None);
}

#[test]
fn text_input_update_output() {
    let mut t = input(&["abc"]);
    t.selected = 3;
    let out = t.update_output(false, 3, true, true, Some(ClipboardData::Text("abc".to_string())));
    assert_eq!(out.focus_taken, FocusTaken::VisuallyTaken);
    assert_eq!(out.new_cursor_style, Some(CursorStyle::Text));
    assert!(out.text_input_selected);
    assert!(out.request_clipboard_data);
    assert_eq!(out.new_clipboard_data, Some(ClipboardData::Text("abc".to_string())));
    let out = t.update_output(true, 1, false, false, None);
    assert_eq!(out.focus_taken, FocusTaken::FunctionallyTaken);
    assert_eq!(out.new_cursor_style, None);
    let out = t.update_output(false, 1, false, false, None);
    assert_eq!(out.focus_taken, FocusTaken::FocusFree);
}

#[test]
fn pasting_lines_types_each_and_breaks_after_it() {
    let mut t = input(&["ab"]);
    t.retain_indent = false;
    t.paste_lines(&vec![keys("xy"), keys("z")], false);
    assert_eq!(t.text, vec!["abxy".to_string(), "z".to_string(), String::new()]);
    assert_eq!(t.caret[0].line, 2);
    assert_eq!(t.caret[0].column, 0);
}

#[test]
fn pasting_stops_breaking_lines_at_the_limit() {
    let mut t = TextInput::new(20, 400, 1, None);
    t.paste_lines(&vec![keys("a"), keys("b")], true);
    assert_eq!(t.text, vec!["AB".to_string()]);
    assert_eq!(t.caret[0], Caret::new(0, 2));
}

#[test]
fn number_input_focus() {
    let mut n = NumberInput::new("123".to_string(), 50);
    n.selected = 2;
    n.release_selection(FocusTaken::FunctionallyTaken, 2);
    assert_eq!(n.selected, 0);
    assert_eq!(n.caret, NumberCaret::new(0));
    assert!(n.handle_mouse(2, Some(true), true, 1));
    assert_eq!(n.selected, 2);
    assert_eq!(n.caret, NumberCaret::new(1));
    assert!(n.handle_mouse(2, Some(true), true, 1));
    assert_eq!(n.caret.column, 3);
    assert!(n.caret.highlight_enabled);
    assert!(!n.handle_mouse(2, Some(false), true, 0));
    assert_eq!(n.selected, 0);
    assert!(!n.handle_mouse(2, None, true, 0));
    let out = n.update_output(false, 2, true, false, None);
    assert_eq!(out.focus_taken, FocusTaken::FocusFree);
    assert_eq!(out.new_cursor_style, Some(CursorStyle::Text));
    assert!(!out.text_input_selected);
    n.read_only = true;
    let out = n.update_output(false, 2, false, false, None);
    assert_eq!(out.new_cursor_style, Some(CursorStyle::NotAllowed));
}

#[test]
fn inspect_editors() {
    let b: InspectBool<u8> = InspectBool::new_from_value(true, 20, 0, 1);
    assert_eq!(b.state.checked, 1);
    assert_eq!(b.get_name(), "bool");
    let mut c: InspectBool<u8> = InspectBool::new_from_value(false, 20, 0, 1);
    assert_eq!(c.state.checked, 0);
    c.state.needs_redraw = false;
    c.sync(&b);
    assert_eq!(c.state.checked, 1);
    assert!(c.state.needs_redraw);
    let s = InspectString::new_from_value("a\tb", 10);
    assert_eq!(s.state.text, vec!["a    b".to_string()]);
    assert_eq!(s.state.width, 30);
    assert_eq!(s.state.max_lines, 1);
    assert_eq!(s.get_name(), "String");
    let mut t = InspectString::new_from_value("x", 10);
    t.sync(s);
    assert_eq!(t.state.text, vec!["a    b".to_string()]);
}

#[test]
fn advanced_window() {
    let g: DearMirlGui<false, false> = DearMirlGui::new_advanced(
        "t", 3, 4, 100, 80, &vec![1, 2], &vec![9], 30, None, None, None, false, true, 5,
    );
    assert_eq!(g.menu_height, DEFAULT_MENU_HEIGHT);
    assert_eq!(g.min_width, 30 + DEFAULT_MENU_HEIGHT);
    assert_eq!(g.modules, vec![1, 2]);
    assert_eq!(g.toolbar_modules, vec![9]);
    assert!(g.collapsed);
    assert!(!g.allow_dragging);
    assert!(g.needs_redraw);
    assert_eq!(g.id, 5);
    let dirs = ResizeDirections::all_false();
    let h: DearMirlGui<false, false> = DearMirlGui::new_advanced(
        "t", 0, 0, 1, 1, &vec![], &vec![], 30, Some(12), Some(7), Some(dirs), true, false, 6,
    );
    assert_eq!(h.menu_height, 12);
    assert_eq!(h.min_width, 7);
    assert_eq!(h.resizing_allowed_in_directions, dirs);
}

#[test]
fn module_layout_measures_the_stack() {
    let mut l = ModuleLayout::new();
    l.place_module(50, 20, 5, 3);
    assert_eq!(l.min_width, 55);
    assert_eq!(l.min_height, 20);
    assert_eq!(l.extra_vertical_offset, 23);
    l.place_module(10, 10, 5, 3);
    assert_eq!(l.min_width, 55);
    assert_eq!(l.min_height, 33);
    assert_eq!(l.extra_vertical_offset, 36);
    assert_eq!(l.size_to_see_all(5, 3), (60, 39));
}
