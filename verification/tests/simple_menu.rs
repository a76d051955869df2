use overlay_menu::system::button::{Pad, A, DPAD_DOWN, DPAD_UP};
use overlay_menu::utils::menu::{move_cursor, SimpleMenu};

fn three_entries() -> SimpleMenu {
    let mut menu = SimpleMenu::new();
    menu.set_heading("Heading");
    menu.add_entry("one");
    menu.add_entry("two");
    menu.add_entry("three");
    menu
}

#[test]
fn new_menu_is_empty() {
    let menu = SimpleMenu::new();
    assert_eq!(menu.heading(), "");
    assert_eq!(menu.len(), 0);
    assert_eq!(menu.cursor(), 0);
}

#[test]
fn entries_keep_their_order() {
    let menu = three_entries();
    assert_eq!(menu.heading(), "Heading");
    assert_eq!(menu.len(), 3);
    assert_eq!(menu.entry(0), "one");
    assert_eq!(menu.entry(1), "two");
    assert_eq!(menu.entry(2), "three");
}

#[test]
fn set_heading_replaces_the_heading_only() {
    let mut menu = three_entries();
    menu.set_cursor(2);
    menu.set_heading("Other");
    assert_eq!(menu.heading(), "Other");
    assert_eq!(menu.len(), 3);
    assert_eq!(menu.entry(1), "two");
    assert_eq!(menu.cursor(), 2);
}

#[test]
fn set_cursor_replaces_the_cursor_only() {
    let mut menu = three_entries();
    menu.set_cursor(1);
    assert_eq!(menu.cursor(), 1);
    assert_eq!(menu.heading(), "Heading");
    assert_eq!(menu.len(), 3);
}

#[test]
fn move_cursor_goes_down_and_wraps() {
    let mut menu = three_entries();
    let down = Pad::new(0, DPAD_DOWN);
    assert_eq!(menu.move_cursor(&down), 1);
    menu.set_cursor(1);
    assert_eq!(menu.move_cursor(&down), 2);
    menu.set_cursor(2);
    assert_eq!(menu.move_cursor(&down), 0);
}

#[test]
fn move_cursor_goes_up_and_wraps() {
    let mut menu = three_entries();
    let up = Pad::new(0, DPAD_UP);
    assert_eq!(menu.move_cursor(&up), 2);
    menu.set_cursor(2);
    assert_eq!(menu.move_cursor(&up), 1);
    menu.set_cursor(1);
    assert_eq!(menu.move_cursor(&up), 0);
}

#[test]
fn move_cursor_stays_without_a_press() {
    let mut menu = three_entries();
    menu.set_cursor(1);
    assert_eq!(menu.move_cursor(&Pad::new(0, 0)), 1);
    assert_eq!(menu.move_cursor(&Pad::new(0, A)), 1);
}

#[test]
fn move_cursor_looks_at_presses_not_at_held_buttons() {
    let mut menu = three_entries();
    menu.set_cursor(1);
    assert_eq!(menu.move_cursor(&Pad::new(DPAD_DOWN | DPAD_UP, 0)), 1);
}

#[test]
fn move_cursor_does_not_change_the_menu() {
    let menu = three_entries();
    let _ = menu.move_cursor(&Pad::new(0, DPAD_DOWN));
    assert_eq!(menu.cursor(), 0);
}

#[test]
fn down_comes_before_up() {
    let mut menu = three_entries();
    menu.set_cursor(1);
    assert_eq!(menu.move_cursor(&Pad::new(0, DPAD_DOWN | DPAD_UP)), 2);
}

#[test]
fn empty_list_keeps_the_cursor() {
    let mut menu = SimpleMenu::new();
    menu.set_cursor(4);
    assert_eq!(menu.move_cursor(&Pad::new(0, DPAD_DOWN)), 4);
    assert_eq!(menu.move_cursor(&Pad::new(0, DPAD_UP)), 4);
}

#[test]
fn cursor_past_the_end_comes_back_into_the_list() {
    let mut menu = three_entries();
    menu.set_cursor(7);
    assert_eq!(menu.move_cursor(&Pad::new(0, DPAD_DOWN)), 2);
    assert_eq!(menu.move_cursor(&Pad::new(0, DPAD_UP)), 0);
    assert_eq!(menu.move_cursor(&Pad::new(0, 0)), 7);
}

#[test]
fn free_move_cursor_exact_values() {
    let down = Pad::new(0, DPAD_DOWN);
    let up = Pad::new(0, DPAD_UP);
    assert_eq!(move_cursor(0, 6, &down), 1);
    assert_eq!(move_cursor(5, 6, &down), 0);
    assert_eq!(move_cursor(0, 6, &up), 5);
    assert_eq!(move_cursor(3, 6, &up), 2);
    assert_eq!(move_cursor(0, 1, &down), 0);
    assert_eq!(move_cursor(0, 1, &up), 0);
    assert_eq!(move_cursor(9, 0, &down), 9);
}

#[test]
fn free_move_cursor_at_the_limits_of_the_types() {
    let down = Pad::new(0, DPAD_DOWN);
    let up = Pad::new(0, DPAD_UP);
    assert_eq!(move_cursor(u32::MAX, u32::MAX, &down), 1);
    assert_eq!(move_cursor(u32::MAX - 1, u32::MAX, &down), 0);
    assert_eq!(move_cursor(0, u32::MAX, &up), u32::MAX - 1);
    assert_eq!(move_cursor(u32::MAX, u32::MAX, &up), u32::MAX - 1);
}
