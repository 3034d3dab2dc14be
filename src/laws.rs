use vstd::prelude::*;

use crate::board::frame_ops;
use crate::color::{background_color, Color};
use crate::input::{paint_color, mode_color, run, step, AppView, ButtonState, Event, Mode, MouseButton};
use crate::pixel::{shown_color, square_op, Pixel, SQUARE_SIZE};

verus! {

/// Pressing the button.
pub open spec fn press(button: MouseButton) -> Event {
    Event::Button { button, state: ButtonState::Press }
}

/// Releasing the button.
pub open spec fn release(button: MouseButton) -> Event {
    Event::Button { button, state: ButtonState::Release }
}

/// Whether the event presses a button that paints.
pub open spec fn presses_paint_button(e: Event) -> bool {
    e matches Event::Button { button, state: ButtonState::Press } && button != MouseButton::Other
}

/// The mode a press of the button selects.
pub open spec fn button_mode(button: MouseButton) -> Mode {
    if button == MouseButton::Left {
        Mode::Draw
    } else {
        Mode::Erase
    }
}

/// The pointer moves to each point in turn, and a frame follows each move.
pub open spec fn trail(points: Seq<(i64, i64)>) -> Seq<Event>
    decreases points.len(),
{
    if points.len() == 0 {
        seq![]
    } else {
        seq![Event::MouseCursor { x: points[0].0, y: points[0].1 }, Event::Render] + trail(
            points.drop_first(),
        )
    }
}

/// A stroke: the button goes down, a frame follows, the pointer moves along
/// the points with a frame after each move, and the button comes up.
pub open spec fn stroke(button: MouseButton, points: Seq<(i64, i64)>) -> Seq<Event> {
    seq![press(button), Event::Render] + trail(points) + seq![release(button)]
}

/// One square of the color at each of the points, in order.
pub open spec fn squares_at(color: Color, points: Seq<(i64, i64)>) -> Seq<Pixel> {
    points.map_values(|p: (i64, i64)| Pixel { color, x: p.0, y: p.1 })
}

/// Where the pointer ends up after moving along the points from (x, y).
pub open spec fn last_point(x: i64, y: i64, points: Seq<(i64, i64)>) -> (i64, i64) {
    if points.len() == 0 {
        (x, y)
    } else {
        points.last()
    }
}

/// Running two event sequences one after the other is running them joined.
pub proof fn lemma_run_concat(s: AppView, a: Seq<Event>, b: Seq<Event>)
    ensures
        run(s, a + b) == run(run(s, a), b),
    decreases a.len(),
{
    if a.len() == 0 {
        assert(a + b =~= b);
    } else {
        assert((a + b).drop_first() =~= a.drop_first() + b);
        lemma_run_concat(step(s, a[0]), a.drop_first(), b);
    }
}

proof fn lemma_run_two(s: AppView, e1: Event, e2: Event)
    ensures
        run(s, seq![e1, e2]) == step(step(s, e1), e2),
{
    let t = step(s, e1);
    assert(seq![e1, e2].drop_first() =~= seq![e2]);
    assert(seq![e2].drop_first() =~= Seq::<Event>::empty());
    assert(run(step(t, e2), Seq::<Event>::empty()) == step(t, e2));
    assert(run(t, seq![e2]) == run(step(t, e2), seq![e2].drop_first()));
}

proof fn lemma_run_one(s: AppView, e: Event)
    ensures
        run(s, seq![e]) == step(s, e),
{
    assert(seq![e].drop_first() =~= Seq::<Event>::empty());
    assert(run(step(s, e), Seq::<Event>::empty()) == step(s, e));
    assert(run(s, seq![e]) == run(step(s, e), seq![e].drop_first()));
}

/// No event removes or changes a square already on the canvas: the canvas
/// only grows, and what was there stays at the front.
pub proof fn law_canvas_only_grows(s: AppView, events: Seq<Event>)
    ensures
        s.pixels.len() <= run(s, events).pixels.len(),
        run(s, events).pixels.subrange(0, s.pixels.len() as int) == s.pixels,
    decreases events.len(),
{
    let n = s.pixels.len() as int;
    if events.len() == 0 {
        assert(s.pixels.subrange(0, n) =~= s.pixels);
    } else {
        let t = step(s, events[0]);
        law_canvas_only_grows(t, events.drop_first());
        let r = run(t, events.drop_first()).pixels;
        assert(t.pixels.subrange(0, n) =~= s.pixels);
        assert(r.subrange(0, n) =~= r.subrange(0, t.pixels.len() as int).subrange(0, n));
    }
}

/// With a button held, moving along the points with a frame after each move
/// adds one square per frame, at each point in turn, in the mode's color.
pub proof fn lemma_trail(s: AppView, points: Seq<(i64, i64)>)
    requires
        s.down,
    ensures
        run(s, trail(points)) == (AppView {
            pixels: s.pixels + squares_at(mode_color(s.mode), points),
            x: last_point(s.x, s.y, points).0,
            y: last_point(s.x, s.y, points).1,
            ..s
        }),
    decreases points.len(),
{
    let c = mode_color(s.mode);
    if points.len() == 0 {
        assert(s.pixels + squares_at(c, points) =~= s.pixels);
    } else {
        let p = points[0];
        let rest = points.drop_first();
        let first = seq![Event::MouseCursor { x: p.0, y: p.1 }, Event::Render];
        lemma_run_concat(s, first, trail(rest));
        lemma_run_two(s, first[0], first[1]);
        let t = run(s, first);
        assert(t.pixels == s.pixels.push(Pixel { color: c, x: p.0, y: p.1 }));
        lemma_trail(t, rest);
        assert(t.pixels + squares_at(c, rest) =~= s.pixels + squares_at(c, points));
    }
}

/// A stroke with the left or right button leaves one square at the starting
/// pointer position and one at each point moved to, all in the color of the
/// button's mode, after everything that was there; the button ends up released.
pub proof fn law_stroke(s: AppView, button: MouseButton, points: Seq<(i64, i64)>)
    requires
        button != MouseButton::Other,
    ensures
        run(s, stroke(button, points)) == (AppView {
            pixels: s.pixels + seq![
                Pixel { color: mode_color(button_mode(button)), x: s.x, y: s.y },
            ] + squares_at(mode_color(button_mode(button)), points),
            x: last_point(s.x, s.y, points).0,
            y: last_point(s.x, s.y, points).1,
            down: false,
            mode: button_mode(button),
        }),
{
    let c = mode_color(button_mode(button));
    let start = seq![press(button), Event::Render];
    let end = seq![release(button)];
    lemma_run_concat(s, start + trail(points), end);
    lemma_run_concat(s, start, trail(points));
    lemma_run_two(s, start[0], start[1]);
    let t = run(s, start);
    assert(t.pixels == s.pixels.push(Pixel { color: c, x: s.x, y: s.y }));
    assert(t.pixels =~= s.pixels + seq![Pixel { color: c, x: s.x, y: s.y }]);
    lemma_trail(t, points);
    lemma_run_one(run(t, trail(points)), release(button));
}

/// Holding the left button while the pointer moves N times, with a frame
/// after the press and after each move, adds exactly N + 1 squares, all in
/// the paint color, and keeps every square that was there.
pub proof fn law_left_stroke_paints(s: AppView, points: Seq<(i64, i64)>)
    ensures
        run(s, stroke(MouseButton::Left, points)).pixels.len() == s.pixels.len() + points.len()
            + 1,
        run(s, stroke(MouseButton::Left, points)).pixels.subrange(0, s.pixels.len() as int)
            == s.pixels,
        forall|i: int|
            s.pixels.len() <= i < run(s, stroke(MouseButton::Left, points)).pixels.len() ==> #[trigger] run(
                s,
                stroke(MouseButton::Left, points),
            ).pixels[i].color == paint_color(),
{
    law_stroke(s, MouseButton::Left, points);
    law_canvas_only_grows(s, stroke(MouseButton::Left, points));
}

/// Switching from the left button to the right one between two strokes
/// changes the color of the squares added afterwards only: those of the first
/// stroke keep the paint color and their place, those of the second get the
/// background color.
pub proof fn law_mode_switch(
    s: AppView,
    left_points: Seq<(i64, i64)>,
    right_points: Seq<(i64, i64)>,
)
    ensures
        ({
            let mid = run(s, stroke(MouseButton::Left, left_points));
            let end = run(
                s,
                stroke(MouseButton::Left, left_points) + stroke(MouseButton::Right, right_points),
            );
            &&& end.pixels.subrange(0, mid.pixels.len() as int) == mid.pixels
            &&& end.pixels.len() == mid.pixels.len() + right_points.len() + 1
            &&& forall|i: int|
                s.pixels.len() <= i < mid.pixels.len() ==> #[trigger] end.pixels[i].color
                    == paint_color()
            &&& forall|i: int|
                mid.pixels.len() <= i < end.pixels.len() ==> #[trigger] end.pixels[i].color
                    == background_color()
        }),
{
    let first = stroke(MouseButton::Left, left_points);
    let second = stroke(MouseButton::Right, right_points);
    lemma_run_concat(s, first, second);
    law_stroke(s, MouseButton::Left, left_points);
    let mid = run(s, first);
    law_stroke(mid, MouseButton::Right, right_points);
    law_canvas_only_grows(mid, second);
    let end = run(mid, second);
    assert forall|i: int| s.pixels.len() <= i < mid.pixels.len() implies #[trigger] end.pixels[i].color
        == paint_color() by {
        assert(end.pixels.subrange(0, mid.pixels.len() as int)[i] == end.pixels[i]);
    }
}

/// Squares are drawn in the order they were added: of two squares at the same
/// place, the later one's color is what a frame shows on every point they cover.
pub proof fn law_later_square_shows(
    pixels: Seq<Pixel>,
    first: Color,
    second: Color,
    x: i64,
    y: i64,
    px: int,
    py: int,
)
    requires
        x <= px < x + SQUARE_SIZE,
        y <= py < y + SQUARE_SIZE,
    ensures
        shown_color(
            frame_ops(
                pixels.push(Pixel { color: first, x, y }).push(Pixel { color: second, x, y }),
            ),
            px,
            py,
        ) == Some(second),
{
    let all = pixels.push(Pixel { color: first, x, y }).push(Pixel { color: second, x, y });
    assert(frame_ops(all).last() == square_op(all.last()));
}

/// While no button is pressed, no event adds a square, however many frames pass.
pub proof fn law_idle_canvas_unchanged(s: AppView, events: Seq<Event>)
    requires
        !s.down,
        forall|i: int| 0 <= i < events.len() ==> !presses_paint_button(#[trigger] events[i]),
    ensures
        run(s, events).pixels == s.pixels,
        !run(s, events).down,
    decreases events.len(),
{
    if events.len() > 0 {
        assert(!presses_paint_button(events[0]));
        let rest = events.drop_first();
        assert forall|i: int| 0 <= i < rest.len() implies !presses_paint_button(#[trigger] rest[i]) by {
            assert(rest[i] == events[i + 1]);
        }
        law_idle_canvas_unchanged(step(s, events[0]), rest);
    }
}

} // verus!
