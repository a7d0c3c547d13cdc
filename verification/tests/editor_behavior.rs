use hecto::editor::terminal::{Intent, Terminal, TerminalPosition, TerminalSize};
use hecto::editor::view::{build_welcome_line, greeting};
use hecto::editor::{Editor, Event, Key, Location, Modifiers};

fn size(width: usize, height: usize) -> TerminalSize {
    TerminalSize { width, height }
}

fn press(code: Key) -> Event {
    Event::Key {
        code,
        modifiers: Modifiers::none(),
        pressed: true,
    }
}

fn ctrl_only() -> Modifiers {
    Modifiers {
        shift: false,
        control: true,
        alt: false,
        super_key: false,
        hyper: false,
        meta: false,
    }
}

fn quit_combo() -> Event {
    Event::Key {
        code: Key::Char('q'),
        modifiers: ctrl_only(),
        pressed: true,
    }
}

#[test]
fn default_editor_starts_running_at_origin() {
    let ed = Editor::default();
    assert!(!ed.should_quit());
    assert_eq!(ed.location(), Location { x: 0, y: 0 });
    let loc = Location::default();
    assert_eq!((loc.x, loc.y), (0, 0));
    let pos = TerminalPosition::default();
    assert_eq!((pos.col, pos.row), (0, 0));
}

#[test]
fn end_to_end_caret_clamped_at_bottom() {
    // Geometry 10x5, caret starts at (0,0); two rights and five downs land on
    // (2,4): the row is clamped at height-1 despite the fifth down press.
    let geometry = size(10, 5);
    let mut ed = Editor::default();
    let events = vec![
        press(Key::Right),
        press(Key::Right),
        press(Key::Down),
        press(Key::Down),
        press(Key::Down),
        press(Key::Down),
        press(Key::Down),
    ];
    let frames = ed.run(geometry, &events);
    assert_eq!(ed.location(), Location { x: 2, y: 4 });
    assert!(!ed.should_quit());
    // One frame before each event, and one more when the script runs out.
    assert_eq!(frames.len(), 8);
}

#[test]
fn right_at_right_edge_leaves_column_unchanged() {
    let geometry = size(10, 5);
    let mut ed = Editor::default();
    ed.move_caret(Key::End, geometry);
    assert_eq!(ed.location().x, 9);
    ed.move_caret(Key::Right, geometry);
    assert_eq!(ed.location().x, 9);
}

#[test]
fn left_at_zero_leaves_column_unchanged() {
    let geometry = size(10, 5);
    let mut ed = Editor::default();
    ed.move_caret(Key::Left, geometry);
    assert_eq!(ed.location().x, 0);
    ed.move_caret(Key::Up, geometry);
    assert_eq!(ed.location().y, 0);
}

#[test]
fn tab_and_back_tab_jump_four_columns() {
    let geometry = size(10, 5);
    let mut ed = Editor::default();
    ed.move_caret(Key::Tab, geometry);
    assert_eq!(ed.location().x, 4);
    ed.move_caret(Key::Tab, geometry);
    assert_eq!(ed.location().x, 8);
    ed.move_caret(Key::Tab, geometry);
    assert_eq!(ed.location().x, 9); // clamped at width - 1
    ed.move_caret(Key::BackTab, geometry);
    assert_eq!(ed.location().x, 5);
    ed.move_caret(Key::BackTab, geometry);
    assert_eq!(ed.location().x, 1);
    ed.move_caret(Key::BackTab, geometry);
    assert_eq!(ed.location().x, 0); // floored at zero
}

#[test]
fn home_and_end_jump_to_edges() {
    let geometry = size(10, 5);
    let mut ed = Editor::default();
    ed.move_caret(Key::End, geometry);
    assert_eq!(ed.location().x, 9);
    ed.move_caret(Key::Home, geometry);
    assert_eq!(ed.location().x, 0);
}

#[test]
fn page_up_floors_and_page_down_is_unclamped() {
    let geometry = size(10, 5);
    let mut ed = Editor::default();
    ed.move_caret(Key::PageDown, geometry);
    assert_eq!(ed.location().y, 4);
    // Page-down adds height - 1 without clamping to the last row: the caret
    // can leave the visible rows.
    ed.move_caret(Key::PageDown, geometry);
    assert_eq!(ed.location().y, 8);
    ed.move_caret(Key::PageUp, geometry);
    assert_eq!(ed.location().y, 4);
    ed.move_caret(Key::PageUp, geometry);
    assert_eq!(ed.location().y, 0);
}

#[test]
fn movement_on_one_cell_terminal_stays_put() {
    let geometry = size(1, 1);
    let mut ed = Editor::default();
    for key in [
        Key::Up,
        Key::Down,
        Key::Left,
        Key::Right,
        Key::Home,
        Key::End,
        Key::Tab,
        Key::BackTab,
        Key::PageUp,
    ] {
        ed.move_caret(key, geometry);
        assert_eq!(ed.location(), Location { x: 0, y: 0 });
    }
}

#[test]
fn movement_without_page_down_stays_in_bounds() {
    let geometry = size(7, 3);
    let mut ed = Editor::default();
    let keys = [
        Key::Up,
        Key::Left,
        Key::Down,
        Key::Right,
        Key::End,
        Key::Tab,
        Key::Down,
        Key::Down,
        Key::PageUp,
        Key::BackTab,
        Key::Home,
        Key::Tab,
        Key::Tab,
        Key::Tab,
        Key::Down,
    ];
    for key in keys {
        ed.move_caret(key, geometry);
        let loc = ed.location();
        assert!(loc.x < 7, "column out of bounds after {:?}", key);
        assert!(loc.y < 3, "row out of bounds after {:?}", key);
    }
}

#[test]
fn quit_combination_sets_flag_and_keeps_caret() {
    let geometry = size(10, 5);
    let mut ed = Editor::default();
    ed.move_caret(Key::Right, geometry);
    ed.evaluate_event(&quit_combo(), geometry);
    assert!(ed.should_quit());
    assert_eq!(ed.location(), Location { x: 1, y: 0 });
    // The flag is irreversible: further events never clear it.
    ed.evaluate_event(&press(Key::Down), geometry);
    assert!(ed.should_quit());
}

#[test]
fn quit_needs_exactly_the_control_modifier() {
    let geometry = size(10, 5);
    let mut ed = Editor::default();
    // q without any modifier is ignored.
    ed.evaluate_event(&press(Key::Char('q')), geometry);
    assert!(!ed.should_quit());
    // q with control and shift together is ignored.
    let mut shifted = ctrl_only();
    shifted.shift = true;
    ed.evaluate_event(
        &Event::Key { code: Key::Char('q'), modifiers: shifted, pressed: true },
        geometry,
    );
    assert!(!ed.should_quit());
    // control with a letter other than q is ignored.
    ed.evaluate_event(
        &Event::Key { code: Key::Char('x'), modifiers: ctrl_only(), pressed: true },
        geometry,
    );
    assert!(!ed.should_quit());
}

#[test]
fn unrecognized_key_changes_nothing_and_redraw_is_identical() {
    let geometry = size(10, 5);
    let mut ed = Editor::default();
    ed.move_caret(Key::Right, geometry);
    let mut term = Terminal::new();
    let before = ed.refresh_screen(&mut term, geometry);
    ed.evaluate_event(&press(Key::Char('a')), geometry);
    assert!(!ed.should_quit());
    assert_eq!(ed.location(), Location { x: 1, y: 0 });
    let after = ed.refresh_screen(&mut term, geometry);
    assert_eq!(before, after);
}

#[test]
fn key_release_and_repeat_are_ignored() {
    let geometry = size(10, 5);
    let mut ed = Editor::default();
    let release = Event::Key {
        code: Key::Right,
        modifiers: Modifiers::none(),
        pressed: false,
    };
    ed.evaluate_event(&release, geometry);
    assert_eq!(ed.location(), Location { x: 0, y: 0 });
    let quit_release = Event::Key {
        code: Key::Char('q'),
        modifiers: ctrl_only(),
        pressed: false,
    };
    ed.evaluate_event(&quit_release, geometry);
    assert!(!ed.should_quit());
    ed.evaluate_event(&Event::Other, geometry);
    assert!(!ed.should_quit());
    assert_eq!(ed.location(), Location { x: 0, y: 0 });
}

#[test]
fn render_same_state_twice_gives_identical_batches() {
    let geometry = size(17, 6);
    let ed = Editor::default();
    let mut term = Terminal::new();
    let first = ed.refresh_screen(&mut term, geometry);
    let second = ed.refresh_screen(&mut term, geometry);
    assert_eq!(first, second);
    assert!(!first.is_empty());
}

#[test]
fn quit_sequence_draws_farewell_frame_last() {
    let geometry = size(10, 5);
    let mut ed = Editor::default();
    // Events after the quit combination must never be processed or drawn.
    let events = vec![quit_combo(), press(Key::Right), press(Key::Down)];
    let frames = ed.run(geometry, &events);
    assert!(ed.should_quit());
    assert_eq!(ed.location(), Location { x: 0, y: 0 });
    assert_eq!(frames.len(), 2);
    // The final frame shows the farewell content.
    let farewell = &frames[1];
    assert_eq!(
        *farewell,
        vec![
            Intent::Hide,
            Intent::MoveTo(TerminalPosition { col: 0, row: 0 }),
            Intent::ClearScreen,
            Intent::Print(String::from("Goodbye.\r\n")),
            Intent::Show,
        ]
    );
    // The frame before it is an ordinary one, not the farewell.
    assert!(!frames[0].contains(&Intent::ClearScreen));
}

#[test]
fn frame_layout_rows_banner_and_caret() {
    // Width 5, height 3: the banner row is 3 / 3 = 1; the banner is the
    // marker plus the greeting, truncated to 5 cells; no line break after
    // the last row.
    let geometry = size(5, 3);
    let mut ed = Editor::default();
    ed.move_caret(Key::Right, geometry);
    ed.move_caret(Key::Down, geometry);
    let mut term = Terminal::new();
    let batch = ed.refresh_screen(&mut term, geometry);
    assert_eq!(
        batch,
        vec![
            Intent::Hide,
            Intent::MoveTo(TerminalPosition { col: 0, row: 0 }),
            Intent::ClearLine,
            Intent::Print(String::from("~\r\n")),
            Intent::ClearLine,
            Intent::Print(String::from("~hect\r\n")),
            Intent::ClearLine,
            Intent::Print(String::from("~")),
            Intent::MoveTo(TerminalPosition { col: 1, row: 1 }),
            Intent::Show,
        ]
    );
}

#[test]
fn banner_centering_on_eighty_columns() {
    // The greeting is 34 characters; on 80 columns the leading padding is
    // (80 - 34) / 2 = 23 cells: the marker and 22 spaces.
    assert_eq!(greeting().chars().count(), 34);
    let line = build_welcome_line(80);
    let expected = format!("~{}{}", " ".repeat(22), greeting());
    assert_eq!(line, expected);
    assert_eq!(line.chars().count(), 57);
}

#[test]
fn banner_is_truncated_to_the_width() {
    let line = build_welcome_line(10);
    assert_eq!(line.chars().count(), 10);
    assert_eq!(line, "~hecto tex");
    // With barely enough room the padding vanishes but nothing is cut.
    let narrow = build_welcome_line(36);
    assert_eq!(narrow, format!("~{}", greeting()));
    let one = build_welcome_line(1);
    assert_eq!(one, "~");
    let zero = build_welcome_line(0);
    assert_eq!(zero, "");
}

#[test]
fn terminal_queue_keeps_order_and_execute_drains() {
    let mut term = Terminal::new();
    term.hide_cursor();
    term.clear_line();
    term.print("abc");
    term.move_cursor_to(TerminalPosition { col: 3, row: 7 });
    term.move_to_start();
    term.show_cursor();
    let batch = term.execute();
    assert_eq!(
        batch,
        vec![
            Intent::Hide,
            Intent::ClearLine,
            Intent::Print(String::from("abc")),
            Intent::MoveTo(TerminalPosition { col: 3, row: 7 }),
            Intent::MoveTo(TerminalPosition { col: 0, row: 0 }),
            Intent::Show,
        ]
    );
    // The queue is empty afterwards: committing again yields nothing.
    let empty = term.execute();
    assert!(empty.is_empty());
}

#[test]
fn run_with_empty_script_draws_one_frame() {
    let geometry = size(4, 2);
    let mut ed = Editor::default();
    let frames = ed.run(geometry, &Vec::new());
    assert_eq!(frames.len(), 1);
    assert!(!ed.should_quit());
    assert_eq!(ed.location(), Location { x: 0, y: 0 });
}
