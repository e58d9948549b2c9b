use dear_mirl_gui::focus_taken::FocusTaken;
use dear_mirl_gui::modules::decoration::{CustomOffset, ResetOffset, SameLine, Separator};
use dear_mirl_gui::modules::widget::check_box::CheckBox;
use dear_mirl_gui::modules::widget::misc::{determine_need_redraw, merge_selections};
use dear_mirl_gui::modules::widget::selection::Selection;
use dear_mirl_gui::modules::widget::text::TextDisplay;
use dear_mirl_gui::output::CursorStyle;

#[test]
fn check_box_states() {
    let b: CheckBox<u8> = CheckBox::new_2_state(20, "text".to_string(), 0, 1);
    assert_eq!(b.margin, 2);
    assert!(!b.is_ticked());
    let b = b.with_state(3);
    assert_eq!(b.checked, 1);
    assert!(b.is_ticked());
    let c: CheckBox<u8> = CheckBox::new(10, "x".to_string(), vec![0, 1, 2], Some(2));
    assert_eq!(c.checked, 2);
    let d: CheckBox<u8> = CheckBox::new_3_state(10, "x".to_string(), 0, 1, 2);
    assert_eq!(d.states, vec![0, 1, 2]);
    assert_eq!(d.get_height(), 10);
}

#[test]
fn clicking_a_check_box_cycles_its_state() {
    let mut b: CheckBox<u8> = CheckBox::new_3_state(20, "x".to_string(), 0, 1, 2);
    b.needs_redraw = false;
    let out = b.update(FocusTaken::FocusFree, Some((5, 5)), true);
    assert_eq!(out.focus_taken, FocusTaken::FunctionallyTaken);
    assert_eq!(out.new_cursor_style, Some(CursorStyle::Pointer));
    assert_eq!(b.checked, 1);
    assert!(b.need_redraw());
    assert!(!b.need_redraw());
    b.update(FocusTaken::FocusFree, Some((5, 5)), true);
    b.update(FocusTaken::FocusFree, Some((5, 5)), true);
    assert_eq!(b.checked, 0);
    let out = b.update(FocusTaken::FocusFree, Some((5, 5)), false);
    assert_eq!(out.focus_taken, FocusTaken::VisuallyTaken);
    let out = b.update(FocusTaken::FocusFree, Some((50, 5)), true);
    assert_eq!(out.focus_taken, FocusTaken::FocusFree);
    let out = b.update(FocusTaken::VisuallyTaken, Some((5, 5)), true);
    assert_eq!(out.focus_taken, FocusTaken::FocusFree);
    assert_eq!(b.checked, 0);
}

#[test]
fn selection_sizes_and_radio_buttons() {
    let texts = vec!["a".to_string(), "b".to_string(), "c".to_string()];
    let mut s = Selection::new(texts, 20, true, 2, 2, &vec![15, 40, 5], None);
    assert_eq!(s.total_height, 66);
    assert_eq!(s.get_total_height(2), 66);
    assert_eq!(s.width, 62);
    assert_eq!(s.get_total_width(2, &vec![15, 40, 5]), 62);
    assert_eq!(s.radio_button_get_idx(), None);
    let out = s.update(FocusTaken::FocusFree, Some((10, 32)), true, 2);
    assert_eq!(out.focus_taken, FocusTaken::FunctionallyTaken);
    assert_eq!(s.currently_selected, vec![false, true, false]);
    assert_eq!(s.radio_button_get_idx(), Some(1));
    s.update(FocusTaken::FocusFree, Some((10, 54)), true, 2);
    assert_eq!(s.currently_selected, vec![false, false, true]);
    let out = s.update(FocusTaken::FocusFree, Some((10, 54)), false, 2);
    assert_eq!(out.new_cursor_style, Some(CursorStyle::Pointer));
    assert_eq!(out.focus_taken, FocusTaken::FocusFree);
}

#[test]
fn check_box_selection_keeps_others() {
    let texts = vec!["a".to_string(), "b".to_string()];
    let mut s = Selection::new(texts, 10, false, 0, 0, &vec![], Some(vec![true, false]));
    s.update(FocusTaken::FocusFree, Some((5, 15)), true, 0);
    assert_eq!(s.currently_selected, vec![true, true]);
    s.update(FocusTaken::FocusFree, Some((5, 5)), true, 0);
    assert_eq!(s.currently_selected, vec![false, true]);
}

#[test]
fn text_display_redraws_only_on_change() {
    let mut t = TextDisplay::new("hi");
    assert!(t.need_redraw());
    t.set_text("hi".to_string());
    assert!(!t.need_redraw());
    t.set_text("ho".to_string());
    assert_eq!(t.text, "ho");
    assert!(t.need_redraw());
}

#[test]
fn merging_selections() {
    assert_eq!(merge_selections(&vec![(5, 3), (0, 2), (1, 2), (8, 1)]), vec![(0, 3), (5, 4)]);
    assert_eq!(merge_selections(&vec![]), vec![]);
    assert_eq!(merge_selections(&vec![(4, 0), (1, 1)]), vec![(1, 1), (4, 0)]);
    assert_eq!(merge_selections(&vec![(0, 10), (2, 3)]), vec![(0, 10)]);
}

#[test]
fn need_redraw_if_any_gui_asks() {
    assert!(determine_need_redraw(vec![(1, false), (2, true)]));
    assert!(!determine_need_redraw(vec![(1, false)]));
    assert!(!determine_need_redraw(vec![]));
}

#[test]
fn decorations_move_the_offset() {
    let same = SameLine::new(10);
    assert_eq!(same.width, 10);
    assert_eq!(same.get_height(), 0);
    let size_of = |_i: usize| (30isize, 20isize);
    assert_eq!(same.modify_offset_cursor(&vec![0, 3], &size_of, 2, (5, 100)), (45, 76));
    assert_eq!(same.modify_offset_cursor(&vec![1], &size_of, 2, (5, 100)), (5, 100));
    // the registry positions do not matter, only that a module was placed before
    assert_eq!(same.modify_offset_cursor(&vec![4, 1], &size_of, 2, (5, 100)), (45, 76));
    let reset = ResetOffset::new();
    assert_eq!((reset.get_width(), reset.get_height()), (0, 0));
    assert_eq!(reset.modify_offset_cursor((40, 7)), (0, 7));
    let custom = CustomOffset::new(|p: (i32, i32)| (p.0 * 2, p.1));
    assert_eq!(custom.modify_offset_cursor((3, 4)), (6, 4));
    assert_eq!((custom.get_width(), custom.get_height()), (0, 0));
    let mut sep = Separator::new(20, 300, false, None);
    assert_eq!(sep.thickness, 5);
    assert!(sep.need_redraw());
    assert!(!sep.need_redraw());
    assert_eq!(Separator::new(1, 2, true, Some(9)).thickness, 9);
}

#[test]
fn merging_overlapping_and_touching_regions_gives_one() {
    assert_eq!(merge_selections(&vec![(5, 2), (0, 10), (10, 3)]), vec![(0, 13)]);
    assert_eq!(merge_selections(&vec![(4, 1), (0, 2)]), vec![(0, 2), (4, 1)]);
}
