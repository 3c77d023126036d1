use game_of_life_sim::control::{
    GameOfLifeApp, InputEvent, MouseButton, Stroke, DRAW_RADIUS, FPS_REPORT_FRAMES,
};
use game_of_life_sim::grid::{Texture, UpdateBindings};

type Pos = (i32, i32);

fn press(button: MouseButton, pressed: bool) -> InputEvent<Pos> {
    InputEvent::MouseInput { button, pressed }
}

#[test]
fn new_state_is_idle() {
    let app = GameOfLifeApp::new((0, 0));
    assert_eq!(app.generation(), 0);
    assert_eq!(app.frames_since_report(), 0);
    assert!(!app.is_drawing());
    assert_eq!(app.cursor(), (0, 0));
    assert_eq!(app.previous_cursor(), None);
}

#[test]
fn cursor_moves_set_the_cursor_only() {
    let mut app = GameOfLifeApp::new((0, 0));
    app.handle_input(InputEvent::CursorMoved((12, -3)));
    assert_eq!(app.cursor(), (12, -3));
    assert!(!app.is_drawing());
    assert_eq!(app.previous_cursor(), None);
    assert_eq!(app.generation(), 0);
}

#[test]
fn left_button_starts_and_stops_drawing() {
    let mut app = GameOfLifeApp::new((0, 0));
    app.handle_input(press(MouseButton::Left, true));
    assert!(app.is_drawing());
    app.handle_input(press(MouseButton::Left, false));
    assert!(!app.is_drawing());
}

#[test]
fn other_buttons_and_events_change_nothing() {
    let mut app = GameOfLifeApp::new((5, 5));
    app.handle_input(press(MouseButton::Left, true));
    app.handle_input(press(MouseButton::Right, false));
    app.handle_input(press(MouseButton::Middle, false));
    app.handle_input(press(MouseButton::Other(7), false));
    app.handle_input(InputEvent::Other);
    assert!(app.is_drawing());
    assert_eq!(app.cursor(), (5, 5));
}

#[test]
fn due_frame_runs_one_generation_with_parity_bindings() {
    let mut app = GameOfLifeApp::new((0, 0));
    let a = app.frame(true);
    assert_eq!(
        a.generation,
        Some(UpdateBindings { slot0: Texture::Canvas, slot1: Texture::DataIn })
    );
    assert_eq!(app.generation(), 1);
    let b = app.frame(false);
    assert_eq!(b.generation, None);
    assert_eq!(app.generation(), 1);
    let c = app.frame(true);
    assert_eq!(
        c.generation,
        Some(UpdateBindings { slot0: Texture::DataIn, slot1: Texture::Canvas })
    );
    assert_eq!(app.generation(), 2);
}

#[test]
fn advance_generation_counts_and_returns_bindings() {
    let mut app = GameOfLifeApp::new((0, 0));
    assert_eq!(
        app.advance_generation(),
        UpdateBindings { slot0: Texture::Canvas, slot1: Texture::DataIn }
    );
    assert_eq!(app.generation(), 1);
    assert_eq!(
        app.advance_generation(),
        UpdateBindings { slot0: Texture::DataIn, slot1: Texture::Canvas }
    );
    assert_eq!(app.generation(), 2);
}

#[test]
fn frame_rate_is_reported_every_hundred_frames() {
    let mut app = GameOfLifeApp::new((0, 0));
    let mut reports = Vec::new();
    for i in 1..=250u32 {
        let a = app.frame(false);
        if a.report_fps {
            reports.push(i);
        }
        assert_eq!(app.frames_since_report(), i % FPS_REPORT_FRAMES);
    }
    assert_eq!(reports, vec![100, 200]);
    assert_eq!(FPS_REPORT_FRAMES, 100);
}

#[test]
fn no_stroke_while_not_drawing() {
    let mut app = GameOfLifeApp::new((0, 0));
    app.handle_input(InputEvent::CursorMoved((3, 4)));
    let a = app.frame(false);
    assert!(a.stroke.is_none());
    assert_eq!(app.previous_cursor(), Some((3, 4)));
}

#[test]
fn first_stroke_has_no_previous_position() {
    let mut app = GameOfLifeApp::new((0, 0));
    app.handle_input(press(MouseButton::Left, true));
    app.handle_input(InputEvent::CursorMoved((7, 8)));
    let s = app.frame(false).stroke.unwrap();
    assert_eq!(s.cursor, (7, 8));
    assert_eq!(s.previous, None);
    assert_eq!(s.start_or((-1, -1)), (-1, -1));
}

#[test]
fn strokes_of_consecutive_frames_join() {
    let mut app = GameOfLifeApp::new((0, 0));
    app.handle_input(press(MouseButton::Left, true));
    app.handle_input(InputEvent::CursorMoved((1, 1)));
    let first = app.frame(true).stroke.unwrap();
    app.handle_input(InputEvent::CursorMoved((2, 2)));
    app.handle_input(InputEvent::CursorMoved((3, 5)));
    let second = app.frame(false).stroke.unwrap();
    assert_eq!(second.previous, Some(first.cursor));
    assert_eq!(second.cursor, (3, 5));
    assert_eq!(second.start_or((9, 9)), (1, 1));
}

#[test]
fn start_or_prefers_the_previous_position() {
    let s = Stroke { cursor: (4, 4), previous: Some((2, 3)) };
    assert_eq!(s.start_or((0, 0)), (2, 3));
}

#[test]
fn brush_radius_is_ten_cells() {
    assert_eq!(DRAW_RADIUS, 10);
}
