use fir::config::{Action, Color, Config, Grid, KeyBind, KeyMap};
use fir::geometry::{Point, Rect};
use fir::gui::appview::{AppView, BackendRequest, Command};
use fir::gui::background::background_rects;
use fir::gui::event::Event;

fn test_config() -> Config {
    let mut binds = KeyMap::new();
    binds.insert(KeyBind(113), Action::Quit);
    binds.insert(KeyBind(102), Action::ToggleFullscreen);
    binds.insert(KeyBind(1073741906), Action::ShiftUp);
    Config {
        shift_amount: 16,
        grid: Grid::default(),
        binds,
    }
}

#[test]
fn keymap_get_finds_bound_key() {
    let mut binds = KeyMap::new();
    binds.insert(KeyBind(113), Action::Quit);
    assert_eq!(binds.get(&KeyBind(113)), Some(&Action::Quit));
    assert_eq!(binds.get(&KeyBind(114)), None);
}

#[test]
fn keymap_insert_overrides_earlier_binding() {
    let mut binds = KeyMap::new();
    binds.insert(KeyBind(113), Action::Quit);
    binds.insert(KeyBind(113), Action::ZoomIn);
    assert_eq!(binds.get(&KeyBind(113)), Some(&Action::ZoomIn));
}

#[test]
fn bound_key_resolves_to_its_action() {
    let mut binds = KeyMap::new();
    binds.insert(KeyBind(113), Action::Quit);
    let r = Command::try_from_event_using_keymap(
        &Event::KeyDown { keycode: Some(KeyBind(113)) },
        &binds,
    );
    assert!(matches!(r, Some(Command::Wrap(Action::Quit))));
}

#[test]
fn unbound_key_resolves_to_nothing() {
    let mut binds = KeyMap::new();
    binds.insert(KeyBind(113), Action::Quit);
    let r = Command::try_from_event_using_keymap(
        &Event::KeyDown { keycode: Some(KeyBind(114)) },
        &binds,
    );
    assert!(r.is_none());
    let r = Command::try_from_event_using_keymap(&Event::KeyDown { keycode: None }, &binds);
    assert!(r.is_none());
}

#[test]
fn motion_without_button_resolves_to_nothing() {
    let binds = KeyMap::new();
    let r = Command::try_from_event_using_keymap(
        &Event::MouseMotion { left_held: false, xrel: 3, yrel: 4 },
        &binds,
    );
    assert!(r.is_none());
}

#[test]
fn motion_with_button_resolves_to_translate() {
    let binds = KeyMap::new();
    let r = Command::try_from_event_using_keymap(
        &Event::MouseMotion { left_held: true, xrel: 3, yrel: -4 },
        &binds,
    );
    assert!(matches!(r, Some(Command::Translate(3, -4))));
}

#[test]
fn other_events_resolve_to_nothing() {
    let binds = KeyMap::new();
    assert!(Command::try_from_event_using_keymap(&Event::Quit, &binds).is_none());
    assert!(Command::try_from_event_using_keymap(&Event::WindowExposed, &binds).is_none());
    assert!(Command::try_from_event_using_keymap(&Event::Other, &binds).is_none());
}

#[test]
fn new_view_is_running_and_dirty() {
    let mut view = AppView::new(test_config(), 100, 50);
    assert!(view.is_running());
    assert!(view.dirty);
    assert!(view.present(100, 50).is_some());
}

#[test]
fn present_emits_only_once_without_events() {
    let mut view = AppView::new(test_config(), 100, 50);
    assert!(view.present(100, 50).is_some());
    assert!(view.present(100, 50).is_none());
}

#[test]
fn expose_event_marks_dirty_again() {
    let mut view = AppView::new(test_config(), 100, 50);
    assert!(view.present(100, 50).is_some());
    assert_eq!(view.handle_event(&Event::WindowExposed, 100, 50), None);
    assert!(view.present(100, 50).is_some());
    assert!(view.present(100, 50).is_none());
}

#[test]
fn quit_event_stops_the_session() {
    let mut view = AppView::new(test_config(), 100, 50);
    assert_eq!(view.handle_event(&Event::Quit, 100, 50), None);
    assert!(!view.is_running());
}

#[test]
fn bound_quit_key_stops_the_session() {
    let mut view = AppView::new(test_config(), 100, 50);
    assert_eq!(
        view.handle_event(&Event::KeyDown { keycode: Some(KeyBind(113)) }, 100, 50),
        None
    );
    assert!(!view.is_running());
}

#[test]
fn ignored_event_changes_nothing() {
    let mut view = AppView::new(test_config(), 100, 50);
    assert!(view.present(100, 50).is_some());
    assert_eq!(view.handle_event(&Event::Other, 100, 50), None);
    assert!(view.present(100, 50).is_none());
    assert!(view.is_running());
}

#[test]
fn fullscreen_is_delegated_to_backend() {
    let mut view = AppView::new(test_config(), 100, 50);
    assert!(view.present(100, 50).is_some());
    let r = view.handle_event(&Event::KeyDown { keycode: Some(KeyBind(102)) }, 100, 50);
    assert_eq!(r, Some(BackendRequest::ToggleFullscreen));
    // fullscreen does not itself mark the view dirty
    assert!(view.present(100, 50).is_none());
}

#[test]
fn shift_keys_move_by_the_configured_amount() {
    let mut view = AppView::new(test_config(), 100, 50);
    let r = view.handle_event(
        &Event::KeyDown { keycode: Some(KeyBind(1073741906)) },
        400,
        200,
    );
    assert_eq!(r, None);
    // ShiftUp moves the image up by shift_amount within the slack
    assert_eq!(view.viewport.image_position, Point { x: 0, y: -16 });
    assert!(view.present(400, 200).is_some());
}

#[test]
fn do_command_translate_sets_dirty() {
    let mut view = AppView::new(test_config(), 100, 50);
    assert!(view.present(400, 200).is_some());
    assert_eq!(view.do_command(&Command::Translate(5, 6), 400, 200), None);
    assert_eq!(view.viewport.image_position, Point { x: 5, y: 6 });
    assert!(view.present(400, 200).is_some());
}

#[test]
fn do_command_zoom_and_reset() {
    let mut view = AppView::new(test_config(), 100, 50);
    assert_eq!(view.do_command(&Command::Wrap(Action::ZoomIn), 400, 200), None);
    assert_eq!(view.viewport.zoom_level, 1);
    assert_eq!(view.do_command(&Command::Wrap(Action::ZoomOut), 400, 200), None);
    assert_eq!(view.do_command(&Command::Wrap(Action::ZoomOut), 400, 200), None);
    assert_eq!(view.viewport.zoom_level, -1);
    assert_eq!(view.do_command(&Command::Translate(7, 0), 400, 200), None);
    assert_eq!(
        view.do_command(&Command::Wrap(Action::ResetTransform), 400, 200),
        None
    );
    assert_eq!(view.viewport.zoom_level, 0);
    assert_eq!(view.viewport.image_position, Point { x: 0, y: 0 });
}

#[test]
fn end_to_end_image_filling_canvas_cannot_shift() {
    // image 100x50 shown on a 100x50 canvas: no slack on either axis
    let mut view = AppView::new(test_config(), 100, 50);
    let mut binds = KeyMap::new();
    binds.insert(KeyBind(1), Action::ShiftRight);
    binds.insert(KeyBind(2), Action::ShiftDown);
    view.config.binds = binds;
    view.handle_event(&Event::KeyDown { keycode: Some(KeyBind(1)) }, 100, 50);
    view.handle_event(&Event::KeyDown { keycode: Some(KeyBind(1)) }, 100, 50);
    assert_eq!(view.viewport.image_position.x, 0);
    view.handle_event(&Event::KeyDown { keycode: Some(KeyBind(2)) }, 100, 50);
    assert_eq!(view.viewport.image_position.y, 0);
    assert_eq!(view.viewport.image_position, Point { x: 0, y: 0 });
}

#[test]
fn grid_covers_canvas_with_ceiling_counts() {
    // canvas 200x100 with 64-pixel cells: 4 columns, 2 rows, iterated
    // inclusively; the dark cells are those where row + col is odd
    let cells = background_rects(200, 100, 64);
    let expected = [
        (64, 0),
        (192, 0),
        (0, 64),
        (128, 64),
        (256, 64),
        (64, 128),
        (192, 128),
    ];
    assert_eq!(cells.len(), expected.len());
    for (cell, (x, y)) in cells.iter().zip(expected.iter()) {
        assert_eq!(cell, &Rect { x: *x, y: *y, w: 64, h: 64 });
    }
}

#[test]
fn grid_exact_multiple_still_covered() {
    // canvas 32x32 with 16-pixel cells: 2 columns, 2 rows
    let cells = background_rects(32, 32, 16);
    let expected = [(16, 0), (0, 16), (32, 16), (16, 32)];
    assert_eq!(cells.len(), expected.len());
    for (cell, (x, y)) in cells.iter().zip(expected.iter()) {
        assert_eq!(cell, &Rect { x: *x, y: *y, w: 16, h: 16 });
    }
}

#[test]
fn present_frame_holds_grid_and_destination() {
    let mut view = AppView::new(test_config(), 100, 50);
    let frame = view.present(200, 100).expect("first present emits");
    assert_eq!(frame.clear_color, Color::from_rgb(0x80, 0x80, 0x80));
    assert_eq!(frame.cell_color, Color::from_rgb(0x40, 0x40, 0x40));
    assert_eq!(frame.image_dest, Rect { x: 50, y: 25, w: 100, h: 50 });
    // 16-pixel cells on 200x100: 13 columns, 7 rows; the 8 iterated rows
    // hold 7 dark cells each
    assert_eq!(frame.cells.len(), 56);
    assert_eq!(frame.cells[0], Rect { x: 16, y: 0, w: 16, h: 16 });
}
