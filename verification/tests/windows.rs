use dear_mirl_gui::focus_taken::FocusTaken;
use dear_mirl_gui::gui::{
    DearMirlGui, ResizeDirections, absorb_module_output, corner_type_and_delta_to_metric_change,
    corner_type_to_cursor_style,
};
use dear_mirl_gui::mouse_data::{ButtonState, MouseState};
use dear_mirl_gui::output::{CursorStyle, GuiOutput};
use dear_mirl_gui::window_manager::{FocusPass, bring_to_front, get_bounds, get_size_to_see_all_windows};

type Window = DearMirlGui<false, true>;

fn mouse(down: bool, last: bool) -> MouseState {
    MouseState { left: ButtonState::new(down, last), middle: ButtonState::new(false, false), right: ButtonState::new(false, false) }
}

fn window() -> Window {
    let mut w: Window = DearMirlGui::new_simple("Title", (100, 50), &vec![1, 2], 60, 7);
    w.width = 200;
    w.height = 150;
    w
}

#[test]
fn new_window() {
    let w: Window = DearMirlGui::new_simple("T", (3, 4), &vec![5], 10, 2);
    assert_eq!((w.x, w.y), (3, 4));
    assert_eq!(w.modules, vec![5]);
    assert_eq!(w.min_width, 30);
    assert_eq!(w.menu_height, 20);
    assert_eq!(w.at_corner, u8::MAX);
    assert_eq!(w.id, 2);
    assert!(w.resizing_allowed_in_directions.is_direction_allowed_u8(4));
}

#[test]
fn collapsed_window_is_as_high_as_its_menu() {
    let w = window();
    assert_eq!(w.get_height(), 150);
    assert_eq!(w.get_width(), 200);
    let c = window().collapsed();
    assert_eq!(c.get_height(), 20);
}

#[test]
fn adding_and_removing_modules() {
    let mut w = window();
    w.size_to_see_all_modules = Some((1, 1));
    w.add_module(3);
    assert_eq!(w.modules, vec![1, 2, 3]);
    assert_eq!(w.size_to_see_all_modules, None);
    w.add_module(2);
    w.remove_module(2);
    assert_eq!(w.modules, vec![1, 3, 2]);
    w.remove_module(9);
    assert_eq!(w.modules, vec![1, 3, 2]);
    w.add_toolbar_module(4);
    w.remove_toolbar_module(4);
    assert!(w.toolbar_modules.is_empty());
}

#[test]
fn dragging_by_the_menu_bar_moves_the_window() {
    let mut w = window();
    let r = w.handle_dragging(Some((150, 55)), (10, -5), &mouse(true, false), false);
    assert_eq!(r, (Some(CursorStyle::AllScroll), FocusTaken::FunctionallyTaken));
    assert!(w.dragging);
    assert_eq!((w.x, w.y), (110, 45));
    assert_eq!(w.last_mouse_pos, (150, 55));
    let r = w.handle_dragging(Some((500, 500)), (3, 3), &mouse(true, true), false);
    assert_eq!(r.1, FocusTaken::FunctionallyTaken);
    assert_eq!((w.x, w.y), (113, 48));
    let r = w.handle_dragging(Some((500, 500)), (3, 3), &mouse(false, true), false);
    assert_eq!(r, (None, FocusTaken::FocusFree));
    assert!(!w.dragging);
    let r = w.handle_dragging(None, (0, 0), &mouse(false, false), false);
    assert_eq!(r, (None, FocusTaken::FocusFree));
    assert_eq!(w.last_mouse_pos, (i32::MIN, i32::MIN));
}

#[test]
fn hovering_the_menu_bar_takes_visual_focus() {
    let mut w = window();
    let r = w.handle_dragging(Some((150, 55)), (0, 0), &mouse(false, false), false);
    assert_eq!(r, (Some(CursorStyle::Copy), FocusTaken::VisuallyTaken));
    let r = w.handle_dragging(Some((150, 55)), (0, 0), &mouse(false, false), true);
    assert_eq!(r, (None, FocusTaken::VisuallyTaken));
}

#[test]
fn resizing_at_the_bottom_right_corner() {
    let mut w = window();
    let r = w.handle_resizing(Some((300, 200)), (30, 20), &mouse(true, false), false, 4);
    assert_eq!(r, (Some(CursorStyle::ResizeNWSE), FocusTaken::FunctionallyTaken));
    assert!(w.resizing);
    assert_eq!(w.at_corner, 4);
    assert_eq!((w.width, w.height), (230, 170));
    assert_eq!((w.x, w.y), (100, 50));
    let r = w.handle_resizing(Some((0, 0)), (-500, -500), &mouse(true, true), false, u8::MAX);
    assert_eq!(r.1, FocusTaken::FunctionallyTaken);
    assert_eq!((w.width, w.height), (w.min_width, w.menu_height));
    w.handle_resizing(Some((0, 0)), (0, 0), &mouse(false, true), false, u8::MAX);
}

#[test]
fn resizing_at_the_top_left_moves_the_window() {
    let mut w = window();
    w.handle_resizing(Some((100, 50)), (-10, -10), &mouse(true, false), false, 0);
    assert_eq!((w.width, w.height), (210, 160));
    assert_eq!((w.x, w.y), (90, 40));
}

#[test]
fn resizing_is_refused_where_not_allowed() {
    let mut w = window();
    w.resizing_allowed_in_directions = ResizeDirections::new(true, false, true, false);
    let r = w.handle_resizing(Some((300, 200)), (30, 20), &mouse(true, false), false, 4);
    assert_eq!(r, (None, FocusTaken::FocusFree));
    assert_eq!((w.width, w.height), (200, 150));
    assert!(ResizeDirections::new(true, false, true, false).is_direction_allowed_u8(0));
    assert!(!ResizeDirections::all_false().is_direction_allowed_u8(3));
}

#[test]
fn metric_changes_and_cursors() {
    assert_eq!(corner_type_and_delta_to_metric_change(0, (2, 3)), (2, 3, -2, -3));
    assert_eq!(corner_type_and_delta_to_metric_change(5, (2, 3)), (0, 0, 0, 3));
    assert_eq!(corner_type_and_delta_to_metric_change(9, (2, 3)), (0, 0, 0, 0));
    assert_eq!(corner_type_to_cursor_style(1), Some(CursorStyle::ResizeVertically));
    assert_eq!(corner_type_to_cursor_style(7), Some(CursorStyle::ResizeHorizontally));
    assert_eq!(corner_type_to_cursor_style(u8::MAX), None);
}

#[test]
fn collapse_button_toggles_collapsing() {
    let mut w = window();
    assert!(w.collapse_button_hit(Some((105, 55))));
    assert!(!w.collapse_button_hit(Some((150, 55))));
    let r = w.update_frame(FocusTaken::FocusFree, None, Some((105, 55)), (0, 0), &mouse(true, false), u8::MAX);
    assert!(w.collapsed);
    assert_eq!(r, (Some(CursorStyle::ContextMenu), FocusTaken::FunctionallyTaken));
    let r = w.update_frame(FocusTaken::FunctionallyTaken, None, Some((105, 55)), (0, 0), &mouse(true, false), u8::MAX);
    assert_eq!(r, (None, FocusTaken::FunctionallyTaken));
    assert!(w.collapsed);
    w.collapse_button_collision_is_circle = true;
    assert!(w.collapse_button_hit(Some((115, 65))));
    assert!(!w.collapse_button_hit(Some((140, 90))));
}

#[test]
fn finishing_an_update() {
    let mut w = window();
    let (out, scroll) = w.finish_update(GuiOutput::empty(), Some((150, 100)), Some(false), &mouse(false, false));
    assert!(scroll);
    assert_eq!(out.focus_taken, FocusTaken::FunctionallyTaken);
    let (out, scroll) = w.finish_update(GuiOutput::empty(), Some((150, 100)), Some(true), &mouse(true, false));
    assert!(!scroll);
    assert_eq!(out.focus_taken, FocusTaken::FunctionallyTaken);
    assert!(w.last_left_mouse_down);
    let (out, _) = w.finish_update(GuiOutput::empty(), Some((0, 0)), Some(true), &mouse(false, true));
    assert_eq!(out.focus_taken, FocusTaken::FocusFree);
    let mut c = window().collapsed();
    let (out, _) = c.finish_update(GuiOutput::default(FocusTaken::FunctionallyTaken), None, None, &mouse(false, false));
    assert_eq!(out.focus_taken, FocusTaken::FocusFree);
}

#[test]
fn mouse_inputs_of_a_frame() {
    let mut w = window();
    w.last_mouse_pos = (10, 10);
    w.last_left_mouse_down = true;
    let (m, d) = w.mouse_inputs(Some((15, 7)), false, true, false);
    assert_eq!(d, (5, -3));
    assert!(m.left.released && m.middle.clicked);
    let (_, d) = w.mouse_inputs(None, false, false, false);
    assert_eq!(d, (-10, -10));
}

#[test]
fn set_size_keeps_the_minimum() {
    let mut w = window();
    w.set_size_to_see_all_modules((10, 5));
    assert_eq!((w.width, w.height), (80, 40));
    w.set_size_to_see_all_modules((300, 100));
    assert_eq!((w.width, w.height), (300, 120));
}

#[test]
fn module_outputs_are_absorbed() {
    let mut acc = GuiOutput::empty();
    absorb_module_output(&mut acc, GuiOutput::default(FocusTaken::VisuallyTaken).with_cursor(CursorStyle::Pointer));
    assert_eq!(acc.new_cursor_style, Some(CursorStyle::Pointer));
    absorb_module_output(&mut acc, GuiOutput::default(FocusTaken::VisuallyTaken).with_cursor(CursorStyle::Text).with_cursor_position(Some((1, 2))));
    assert_eq!(acc.new_cursor_style, Some(CursorStyle::Pointer));
    assert_eq!(acc.new_cursor_position, Some((1, 2)));
    absorb_module_output(&mut acc, GuiOutput::default(FocusTaken::FunctionallyTaken).with_cursor(CursorStyle::Text).request_clipboard(true));
    assert_eq!(acc.new_cursor_style, Some(CursorStyle::Text));
    assert_eq!(acc.focus_taken, FocusTaken::FunctionallyTaken);
    assert!(acc.request_clipboard_data);
}

#[test]
fn the_window_taking_focus_comes_to_the_front() {
    let mut pass = FocusPass::new(FocusTaken::FocusFree);
    pass.absorb(0, GuiOutput::default(FocusTaken::VisuallyTaken));
    pass.absorb(1, GuiOutput::default(FocusTaken::FunctionallyTaken));
    pass.absorb(2, GuiOutput::default(FocusTaken::FunctionallyTaken));
    assert_eq!(pass.to_switch, Some(1));
    assert_eq!(pass.focus_taken, FocusTaken::FunctionallyTaken);
    assert_eq!(pass.output.focus_taken, FocusTaken::FunctionallyTaken);
    let mut windows = vec!["a", "b", "c"];
    bring_to_front(&mut windows, pass.to_switch);
    assert_eq!(windows, vec!["b", "a", "c"]);
    bring_to_front(&mut windows, None);
    assert_eq!(windows, vec!["b", "a", "c"]);
}

#[test]
fn bounds_of_all_windows() {
    let rects = vec![(10, 20, 100, 50), (-5, 0, 10, 10)];
    assert_eq!(get_bounds(&rects), (0, -5, 110, 70));
    assert_eq!(get_size_to_see_all_windows(&rects), (115, 70));
    assert_eq!(get_bounds(&vec![]), (0, 0, 0, 0));
}
