use pound::cursor::{CursorController, Direction};
use pound::editor::{Editor, Step};
use pound::input::{action_of, direction_of, InputEvent, KeyAction, KeyCode, KeyEvent, KeyModifiers};

fn at(x: usize, y: usize) -> CursorController {
    let mut c = CursorController::new(80, 24);
    c.cursor_x = x;
    c.cursor_y = y;
    c
}

fn key(ch: char, modifiers: KeyModifiers) -> KeyEvent {
    KeyEvent { code: KeyCode::Char(ch), modifiers }
}

#[test]
fn moves_are_unit_deltas() {
    let mut c = at(5, 5);
    c.move_cursor(Direction::Right);
    assert_eq!((c.cursor_x, c.cursor_y), (6, 5));
    let mut c = at(5, 5);
    c.move_cursor(Direction::Down);
    assert_eq!((c.cursor_x, c.cursor_y), (5, 6));
    let mut c = at(5, 5);
    c.move_cursor(Direction::Up);
    assert_eq!((c.cursor_x, c.cursor_y), (5, 4));
    let mut c = at(5, 5);
    c.move_cursor(Direction::Left);
    assert_eq!((c.cursor_x, c.cursor_y), (4, 5));
}

#[test]
fn left_clamps_at_zero() {
    let mut c = at(1, 5);
    c.move_cursor(Direction::Left);
    c.move_cursor(Direction::Left);
    assert_eq!((c.cursor_x, c.cursor_y), (0, 5));
    let mut c = at(3, 0);
    c.move_cursor(Direction::Up);
    assert_eq!((c.cursor_x, c.cursor_y), (3, 0));
}

#[test]
fn right_and_down_clamp_at_last_cell() {
    let mut c = at(79, 23);
    c.move_cursor(Direction::Right);
    c.move_cursor(Direction::Down);
    assert_eq!((c.cursor_x, c.cursor_y), (79, 23));
    let mut c = CursorController::new(0, 0);
    c.move_cursor(Direction::Right);
    c.move_cursor(Direction::Down);
    assert_eq!((c.cursor_x, c.cursor_y), (0, 0));
}

#[test]
fn movement_characters() {
    assert_eq!(direction_of('w'), Some(Direction::Up));
    assert_eq!(direction_of('a'), Some(Direction::Left));
    assert_eq!(direction_of('s'), Some(Direction::Down));
    assert_eq!(direction_of('d'), Some(Direction::Right));
    assert_eq!(direction_of('q'), None);
    assert_eq!(direction_of('W'), None);
}

#[test]
fn dispatch_rules() {
    assert_eq!(action_of(&key('q', KeyModifiers::control())), KeyAction::Quit);
    assert_eq!(action_of(&key('q', KeyModifiers::none())), KeyAction::Ignore);
    let mut ctrl_shift = KeyModifiers::control();
    ctrl_shift.shift = true;
    assert_eq!(action_of(&key('q', ctrl_shift)), KeyAction::Ignore);
    assert_eq!(action_of(&key('d', KeyModifiers::none())), KeyAction::Move(Direction::Right));
    assert_eq!(action_of(&key('w', KeyModifiers::none())), KeyAction::Move(Direction::Up));
    assert_eq!(action_of(&key('w', KeyModifiers::control())), KeyAction::Ignore);
    let mut alt = KeyModifiers::none();
    alt.alt = true;
    assert_eq!(action_of(&key('a', alt)), KeyAction::Ignore);
    assert_eq!(action_of(&key('x', KeyModifiers::none())), KeyAction::Ignore);
    let other = KeyEvent { code: KeyCode::Other, modifiers: KeyModifiers::control() };
    assert_eq!(action_of(&other), KeyAction::Ignore);
    assert!(KeyModifiers::none().is_none());
    assert!(!KeyModifiers::none().is_control_only());
    assert!(KeyModifiers::control().is_control_only());
    assert!(!KeyModifiers::control().is_none());
}

#[test]
fn quit_key_ends_loop_after_one_render() {
    let mut e = Editor::new(20, 6);
    assert_eq!(e.next_step(), Step::Refresh);
    let frame = e.refresh_screen();
    assert!(frame.starts_with("\x1b[?25l"));
    assert_eq!(e.output.editor_contents.as_str(), "");
    assert_eq!(e.next_step(), Step::Poll);
    e.poll_result(true);
    assert_eq!(e.next_step(), Step::Read);
    e.read_event(InputEvent::Key(key('q', KeyModifiers::control())));
    assert_eq!(e.next_step(), Step::Exit);
}

#[test]
fn loop_waits_moves_and_skips_other_events() {
    let mut e = Editor::new(20, 6);
    let first = e.refresh_screen();
    e.poll_result(false);
    assert_eq!(e.next_step(), Step::Poll);
    e.poll_result(true);
    e.read_event(InputEvent::Other);
    assert_eq!(e.next_step(), Step::Poll);
    e.poll_result(true);
    assert!(e.process_keypress(key('s', KeyModifiers::none())));
    assert_eq!(e.next_step(), Step::Refresh);
    assert_eq!(
        (e.output.cursor_controller.cursor_x, e.output.cursor_controller.cursor_y),
        (0, 1)
    );
    let second = e.refresh_screen();
    assert_eq!(first, second);
    e.poll_result(true);
    assert!(e.process_keypress(key('x', KeyModifiers::none())));
    assert_eq!(e.next_step(), Step::Refresh);
    e.refresh_screen();
    e.poll_result(true);
    assert!(!e.process_keypress(key('q', KeyModifiers::control())));
    assert_eq!(e.next_step(), Step::Exit);
}

#[test]
fn output_moves_cursor() {
    let mut e = Editor::new(3, 2);
    e.output.move_cursor(Direction::Right);
    e.output.move_cursor(Direction::Right);
    e.output.move_cursor(Direction::Right);
    e.output.move_cursor(Direction::Down);
    assert_eq!(
        (e.output.cursor_controller.cursor_x, e.output.cursor_controller.cursor_y),
        (2, 1)
    );
}
