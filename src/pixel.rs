use vstd::prelude::*;

use crate::color::Color;

verus! {

/// Side length of every painted square.
pub const SQUARE_SIZE: i64 = 10;

/// A square of fixed size, filled with one color, whose top-left corner is at (x, y).
#[derive(Clone, Copy, Debug, PartialEq, Eq, Structural)]
pub struct Pixel {
    pub color: Color,
    pub x: i64,
    pub y: i64,
}

/// One drawing instruction of a frame, carried out by the graphics backend.
#[derive(Clone, Copy, Debug, PartialEq, Eq, Structural)]
pub enum DrawOp {
    /// Fill the whole surface with the color.
    Clear(Color),
    /// Fill the square of side `size` whose top-left corner is (x, y).
    Square { color: Color, x: i64, y: i64, size: i64 },
}

/// The instruction that draws one pixel square.
pub open spec fn square_op(p: Pixel) -> DrawOp {
    DrawOp::Square { color: p.color, x: p.x, y: p.y, size: SQUARE_SIZE }
}

/// Whether the instruction paints the point (px, py).
pub open spec fn op_covers(op: DrawOp, px: int, py: int) -> bool {
    match op {
        DrawOp::Clear(_) => true,
        DrawOp::Square { x, y, size, .. } => x <= px < x + size && y <= py < y + size,
    }
}

/// The color the instruction paints with.
pub open spec fn op_color(op: DrawOp) -> Color {
    match op {
        DrawOp::Clear(c) => c,
        DrawOp::Square { color, .. } => color,
    }
}

/// The color left at (px, py) once all the instructions have run in order:
/// that of the last one that paints the point, or none if no instruction does.
pub open spec fn shown_color(ops: Seq<DrawOp>, px: int, py: int) -> Option<Color>
    decreases ops.len(),
{
    if ops.len() == 0 {
        None
    } else if op_covers(ops.last(), px, py) {
        Some(op_color(ops.last()))
    } else {
        shown_color(ops.drop_last(), px, py)
    }
}

impl Pixel {
    /// A square of the given color at (x, y); any position is accepted.
    pub fn new(color: Color, x: i64, y: i64) -> (p: Pixel)
        ensures
            p == (Pixel { color, x, y }),
    {
        Pixel { color, x, y }
    }

    /// The instruction that draws this square.
    pub fn render(&self) -> (op: DrawOp)
        ensures
            op == square_op(*self),
    {
        DrawOp::Square { color: self.color, x: self.x, y: self.y, size: SQUARE_SIZE }
    }

    /// Whether this square covers the point (px, py).
    pub fn covers(&self, px: i64, py: i64) -> (r: bool)
        ensures
            r == op_covers(square_op(*self), px as int, py as int),
    {
        let dx: i128 = px as i128 - self.x as i128;
        let dy: i128 = py as i128 - self.y as i128;
        0 <= dx && dx < SQUARE_SIZE as i128 && 0 <= dy && dy < SQUARE_SIZE as i128
    }
}

} // verus!
