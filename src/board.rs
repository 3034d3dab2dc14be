use vstd::prelude::*;

use crate::color::{background_color, Color};
use crate::pixel::{op_covers, shown_color, square_op, DrawOp, Pixel};

verus! {

/// The instructions of one frame: clear to the background, then draw each
/// square in the order it was added.
pub open spec fn frame_ops(pixels: Seq<Pixel>) -> Seq<DrawOp> {
    seq![DrawOp::Clear(background_color())] + pixels.map_values(|p: Pixel| square_op(p))
}

/// The four squares a fresh canvas starts with: black, red, green and blue in
/// a two-by-two block at the top-left corner.
pub open spec fn starter_pixels() -> Seq<Pixel> {
    seq![
        Pixel { color: Color { r: 0, g: 0, b: 0, a: 255 }, x: 0, y: 0 },
        Pixel { color: Color { r: 255, g: 0, b: 0, a: 255 }, x: 10, y: 0 },
        Pixel { color: Color { r: 0, g: 255, b: 0, a: 255 }, x: 0, y: 10 },
        Pixel { color: Color { r: 0, g: 0, b: 255, a: 255 }, x: 10, y: 10 },
    ]
}

/// The canvas: every square painted so far, in the order it was painted.
/// Squares are only ever added, and later ones are drawn over earlier ones.
pub struct Board {
    brush_pixels: Vec<Pixel>,
}

impl View for Board {
    type V = Seq<Pixel>;

    closed spec fn view(&self) -> Seq<Pixel> {
        self.brush_pixels@
    }
}

impl Board {
    /// A canvas holding the given squares, first to last.
    pub fn new(pixels: Vec<Pixel>) -> (b: Board)
        ensures
            b@ == pixels@,
    {
        Board { brush_pixels: pixels }
    }

    /// A canvas holding the four starter squares.
    pub fn with_starter_pixels() -> (b: Board)
        ensures
            b@ == starter_pixels(),
    {
        let pixels = vec![
            Pixel::new(Color::rgb(0, 0, 0), 0, 0),
            Pixel::new(Color::rgb(255, 0, 0), 10, 0),
            Pixel::new(Color::rgb(0, 255, 0), 0, 10),
            Pixel::new(Color::rgb(0, 0, 255), 10, 10),
        ];
        assert(pixels@ =~= starter_pixels());
        Board { brush_pixels: pixels }
    }

    /// The squares, first painted first.
    pub fn pixels(&self) -> (r: &Vec<Pixel>)
        ensures
            r@ == self@,
    {
        &self.brush_pixels
    }

    /// The number of squares.
    pub fn len(&self) -> (n: usize)
        ensures
            n == self@.len(),
    {
        self.brush_pixels.len()
    }

    /// Adds a square after all the others; nothing already there changes.
    pub fn append(&mut self, p: Pixel)
        ensures
            final(self)@ == old(self)@.push(p),
    {
        self.brush_pixels.push(p);
    }

    /// The instructions that draw the whole canvas: one clear to the
    /// background, then one square per pixel in insertion order.
    pub fn render(&self) -> (ops: Vec<DrawOp>)
        ensures
            ops@ == frame_ops(self@),
    {
        let mut ops: Vec<DrawOp> = Vec::new();
        ops.push(DrawOp::Clear(Color::rgb(255, 255, 255)));
        let n = self.brush_pixels.len();
        let mut i: usize = 0;
        while i < n
            invariant
                n == self@.len(),
                i <= n,
                ops@ == frame_ops(self@.take(i as int)),
            decreases n - i,
        {
            ops.push(self.brush_pixels[i].render());
            proof {
                assert(self@.take(i + 1) =~= self@.take(i as int).push(self@[i as int]));
                assert(frame_ops(self@.take(i + 1)) =~= frame_ops(self@.take(i as int)).push(
                    square_op(self@[i as int]),
                ));
            }
            i = i + 1;
        }
        assert(self@.take(n as int) =~= self@);
        ops
    }

    /// The color shown at (px, py) once the canvas has been rendered: that of
    /// the last square covering the point, or the background if none does.
    pub fn color_at(&self, px: i64, py: i64) -> (c: Color)
        ensures
            shown_color(frame_ops(self@), px as int, py as int) == Some(c),
    {
        let mut i: usize = self.brush_pixels.len();
        assert(self@.take(i as int) =~= self@);
        while i > 0
            invariant
                i <= self@.len(),
                shown_color(frame_ops(self@), px as int, py as int) == shown_color(
                    frame_ops(self@.take(i as int)),
                    px as int,
                    py as int,
                ),
            decreases i,
        {
            let p = self.brush_pixels[i - 1];
            let ghost prefix = frame_ops(self@.take(i as int));
            proof {
                assert(self@.take(i as int) =~= self@.take(i - 1).push(p));
                assert(prefix.last() == square_op(p));
                assert(prefix.drop_last() =~= frame_ops(self@.take(i - 1)));
            }
            if p.covers(px, py) {
                return p.color;
            }
            i = i - 1;
        }
        let ghost base = frame_ops(self@.take(0));
        assert(base =~= seq![DrawOp::Clear(background_color())]);
        assert(op_covers(base.last(), px as int, py as int));
        Color::rgb(255, 255, 255)
    }
}

} // verus!
