use drawing_canvas::board::Board;
use drawing_canvas::color::Color;
use drawing_canvas::input::{App, ButtonState, Event, Mode, MouseButton};
use drawing_canvas::pixel::{DrawOp, Pixel, SQUARE_SIZE};

fn black() -> Color {
    Color { r: 0, g: 0, b: 0, a: 255 }
}

fn white() -> Color {
    Color { r: 255, g: 255, b: 255, a: 255 }
}

fn button(button: MouseButton, state: ButtonState) -> Event {
    Event::Button { button, state }
}

fn moved(x: i64, y: i64) -> Event {
    Event::MouseCursor { x, y }
}

fn empty_app() -> App {
    App::new(Board::new(Vec::new()))
}

#[test]
fn press_left_then_right_scenario() {
    let mut app = empty_app();
    app.handle_event(moved(0, 0));
    app.handle_event(button(MouseButton::Left, ButtonState::Press));
    let frame = app.handle_event(Event::Render);
    assert!(frame.is_some());
    assert_eq!(app.board.pixels(), &vec![Pixel::new(black(), 0, 0)]);
    app.handle_event(button(MouseButton::Left, ButtonState::Release));
    app.handle_event(moved(100, 100));
    app.handle_event(button(MouseButton::Right, ButtonState::Press));
    app.handle_event(Event::Render);
    assert_eq!(
        app.board.pixels(),
        &vec![Pixel::new(black(), 0, 0), Pixel::new(white(), 100, 100)]
    );
}

#[test]
fn no_press_keeps_starter_count() {
    let mut app = App::new(Board::with_starter_pixels());
    assert_eq!(app.board.len(), 4);
    for i in 0..20i64 {
        app.handle_event(moved(i * 7, i * 3));
        app.handle_event(Event::Other);
        app.handle_event(button(MouseButton::Other, ButtonState::Press));
        let frame = app.handle_event(Event::Render).unwrap();
        assert_eq!(frame.len(), 5);
    }
    app.handle_event(button(MouseButton::Left, ButtonState::Release));
    app.handle_event(Event::Render);
    assert_eq!(app.board.len(), 4);
    assert!(!app.mouse_down);
}

#[test]
fn starter_pixels_are_the_two_by_two_block() {
    let board = Board::with_starter_pixels();
    assert_eq!(
        board.pixels(),
        &vec![
            Pixel::new(Color::rgb(0, 0, 0), 0, 0),
            Pixel::new(Color::rgb(255, 0, 0), 10, 0),
            Pixel::new(Color::rgb(0, 255, 0), 0, 10),
            Pixel::new(Color::rgb(0, 0, 255), 10, 10),
        ]
    );
}

#[test]
fn left_stroke_adds_one_black_square_per_frame() {
    let mut app = App::new(Board::with_starter_pixels());
    let points = [(5i64, 5i64), (6, 9), (40, -3)];
    app.handle_event(button(MouseButton::Left, ButtonState::Press));
    app.handle_event(Event::Render);
    for (x, y) in points {
        app.handle_event(moved(x, y));
        app.handle_event(Event::Render);
    }
    app.handle_event(button(MouseButton::Left, ButtonState::Release));
    app.handle_event(Event::Render);
    let pixels = app.board.pixels();
    assert_eq!(pixels.len(), 4 + points.len() + 1);
    assert_eq!(pixels[4], Pixel::new(black(), 0, 0));
    for (k, (x, y)) in points.iter().enumerate() {
        assert_eq!(pixels[5 + k], Pixel::new(black(), *x, *y));
    }
}

#[test]
fn moves_without_frames_add_nothing() {
    let mut app = empty_app();
    app.handle_event(button(MouseButton::Left, ButtonState::Press));
    app.handle_event(moved(1, 1));
    app.handle_event(moved(2, 2));
    assert_eq!(app.board.len(), 0);
    app.handle_event(Event::Render);
    assert_eq!(app.board.pixels(), &vec![Pixel::new(black(), 2, 2)]);
}

#[test]
fn mode_switch_keeps_earlier_squares() {
    let mut app = empty_app();
    app.handle_event(button(MouseButton::Left, ButtonState::Press));
    app.handle_event(Event::Render);
    app.handle_event(moved(10, 0));
    app.handle_event(Event::Render);
    app.handle_event(button(MouseButton::Left, ButtonState::Release));
    let before = app.board.pixels().clone();
    app.handle_event(button(MouseButton::Right, ButtonState::Press));
    app.handle_event(Event::Render);
    app.handle_event(moved(20, 0));
    app.handle_event(Event::Render);
    let after = app.board.pixels();
    assert_eq!(&after[..2], &before[..]);
    assert_eq!(after[2], Pixel::new(white(), 10, 0));
    assert_eq!(after[3], Pixel::new(white(), 20, 0));
}

#[test]
fn release_keeps_mode() {
    let mut app = empty_app();
    app.handle_event(button(MouseButton::Right, ButtonState::Press));
    app.handle_event(button(MouseButton::Right, ButtonState::Release));
    assert_eq!(app.mode, Mode::Erase);
    assert!(!app.mouse_down);
    app.handle_event(button(MouseButton::Left, ButtonState::Press));
    app.handle_event(button(MouseButton::Right, ButtonState::Release));
    assert_eq!(app.mode, Mode::Draw);
    assert!(!app.mouse_down);
}

#[test]
fn other_button_is_ignored() {
    let mut app = empty_app();
    app.handle_event(button(MouseButton::Left, ButtonState::Press));
    app.handle_event(button(MouseButton::Other, ButtonState::Release));
    assert!(app.mouse_down);
    app.handle_event(Event::Render);
    assert_eq!(app.board.len(), 1);
}

#[test]
fn only_frames_return_draw_instructions() {
    let mut app = empty_app();
    assert!(app.handle_event(moved(3, 4)).is_none());
    assert!(app.handle_event(Event::Other).is_none());
    assert!(app.handle_event(button(MouseButton::Left, ButtonState::Press)).is_none());
    let frame = app.handle_event(Event::Render).unwrap();
    assert_eq!(
        frame,
        vec![
            DrawOp::Clear(white()),
            DrawOp::Square { color: black(), x: 3, y: 4, size: 10 },
        ]
    );
}

#[test]
fn append_keeps_existing_entries() {
    let mut board = Board::with_starter_pixels();
    let before = board.pixels().clone();
    board.append(Pixel::new(white(), 0, 0));
    assert_eq!(board.len(), 5);
    assert_eq!(&board.pixels()[..4], &before[..]);
    assert_eq!(board.pixels()[4], Pixel::new(white(), 0, 0));
}

#[test]
fn render_clears_then_draws_in_order() {
    let board = Board::new(vec![
        Pixel::new(black(), 1, 2),
        Pixel::new(Color::rgb(9, 8, 7), -5, 600),
    ]);
    assert_eq!(
        board.render(),
        vec![
            DrawOp::Clear(white()),
            DrawOp::Square { color: black(), x: 1, y: 2, size: SQUARE_SIZE },
            DrawOp::Square { color: Color::rgb(9, 8, 7), x: -5, y: 600, size: SQUARE_SIZE },
        ]
    );
    assert_eq!(Board::new(Vec::new()).render(), vec![DrawOp::Clear(white())]);
}

#[test]
fn later_square_at_same_place_shows() {
    let red = Color::rgb(255, 0, 0);
    let mut board = Board::new(Vec::new());
    board.append(Pixel::new(red, 30, 30));
    board.append(Pixel::new(black(), 30, 30));
    assert_eq!(board.color_at(30, 30), black());
    assert_eq!(board.color_at(39, 39), black());
    board.append(Pixel::new(white(), 30, 30));
    assert_eq!(board.color_at(35, 31), white());
}

#[test]
fn color_at_background_and_edges() {
    let red = Color::rgb(255, 0, 0);
    let board = Board::new(vec![Pixel::new(red, 0, 0), Pixel::new(black(), 5, 5)]);
    assert_eq!(board.color_at(0, 0), red);
    assert_eq!(board.color_at(4, 9), red);
    assert_eq!(board.color_at(5, 5), black());
    assert_eq!(board.color_at(14, 14), black());
    assert_eq!(board.color_at(15, 5), white());
    assert_eq!(board.color_at(-1, 0), white());
    assert_eq!(Board::new(Vec::new()).color_at(0, 0), white());
}

#[test]
fn covers_at_extreme_positions() {
    let p = Pixel::new(black(), i64::MAX - 3, i64::MIN);
    assert!(p.covers(i64::MAX, i64::MIN + 9));
    assert!(!p.covers(i64::MAX, i64::MIN + 10));
    assert!(!p.covers(i64::MIN, i64::MIN));
    let q = Pixel::new(black(), i64::MIN, 0);
    assert!(!q.covers(i64::MAX, 0));
    assert!(q.covers(i64::MIN + 9, 9));
}

#[test]
fn pixel_render_is_one_square() {
    let p = Pixel::new(Color::rgb(1, 2, 3), 7, -8);
    assert_eq!(
        p.render(),
        DrawOp::Square { color: Color::rgb(1, 2, 3), x: 7, y: -8, size: 10 }
    );
}

#[test]
fn mode_colors() {
    assert_eq!(Mode::Draw.color(), black());
    assert_eq!(Mode::Erase.color(), white());
    assert_eq!(Color::rgb(1, 2, 3), Color { r: 1, g: 2, b: 3, a: 255 });
}

#[test]
fn new_app_starts_idle_at_origin() {
    let app = empty_app();
    assert_eq!(app.mouse_location.x, 0);
    assert_eq!(app.mouse_location.y, 0);
    assert!(!app.mouse_down);
    assert_eq!(app.mode, Mode::Draw);
}
