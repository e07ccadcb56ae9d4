use vstd::prelude::*;

use crate::config::WORLD_LIMIT;

verus! {

/// A point or a displacement, in subpixels.
#[derive(Clone, Copy, Debug, PartialEq, Eq, Structural)]
pub struct Vec2 {
    pub x: i64,
    pub y: i64,
}

/// A value inside the world box.
pub open spec fn in_world(v: int) -> bool {
    -WORLD_LIMIT <= v <= WORLD_LIMIT
}

/// The nearest value inside the world box.
pub open spec fn clamp_world_spec(v: int) -> int {
    if v < -WORLD_LIMIT {
        -WORLD_LIMIT as int
    } else if v > WORLD_LIMIT {
        WORLD_LIMIT as int
    } else {
        v
    }
}

impl Vec2 {
    /// Both coordinates lie in the world box.
    pub open spec fn wf(self) -> bool {
        in_world(self.x as int) && in_world(self.y as int)
    }

    pub fn new(x: i64, y: i64) -> (r: Vec2)
        ensures
            r.x == x,
            r.y == y,
    {
        Vec2 { x, y }
    }

    /// Componentwise sum, clamped to the world box.
    pub fn add(self, o: Vec2) -> (r: Vec2)
        requires
            self.wf(),
            o.wf(),
        ensures
            r.wf(),
            r.x == clamp_world_spec(self.x + o.x),
            r.y == clamp_world_spec(self.y + o.y),
    {
        Vec2 { x: clamp_world(self.x + o.x), y: clamp_world(self.y + o.y) }
    }

    /// Componentwise difference, clamped to the world box.
    pub fn sub(self, o: Vec2) -> (r: Vec2)
        requires
            self.wf(),
            o.wf(),
        ensures
            r.wf(),
            r.x == clamp_world_spec(self.x - o.x),
            r.y == clamp_world_spec(self.y - o.y),
    {
        Vec2 { x: clamp_world(self.x - o.x), y: clamp_world(self.y - o.y) }
    }

    /// Both coordinates multiplied by `num / den`, rounded toward zero.
    pub fn scale(self, num: i64, den: i64) -> (r: Vec2)
        requires
            self.wf(),
            -den <= num <= den,
            0 < den <= 1_000_000,
        ensures
            r.wf(),
            r.x == scale_spec(self.x as int, num as int, den as int),
            r.y == scale_spec(self.y as int, num as int, den as int),
    {
        Vec2 { x: scale_coord(self.x, num, den), y: scale_coord(self.y, num, den) }
    }
}

/// `a / d` rounded toward zero.
pub open spec fn trunc_div(a: int, d: int) -> int {
    if a >= 0 {
        a / d
    } else {
        -((-a) / d)
    }
}

/// `v * num / den`, rounded toward zero.
pub open spec fn scale_spec(v: int, num: int, den: int) -> int {
    trunc_div(v * num, den)
}

/// `v * num / den`, rounded toward zero, for `|num| <= den`.
pub fn scale_coord(v: i64, num: i64, den: i64) -> (r: i64)
    requires
        in_world(v as int),
        -den <= num <= den,
        0 < den <= 1_000_000,
    ensures
        r == scale_spec(v as int, num as int, den as int),
        -v <= r <= v || v <= r <= -v,
        in_world(r as int),
{
    proof {
        let a = v as int * num as int;
        assert(-(WORLD_LIMIT * 1_000_000) <= a <= WORLD_LIMIT * 1_000_000) by (nonlinear_arith)
            requires a == v as int * num as int, -WORLD_LIMIT <= v <= WORLD_LIMIT,
                -den <= num <= den, den <= 1_000_000;
        if a >= 0 {
            assert(a <= (if v >= 0 { v as int } else { -v as int }) * den) by (nonlinear_arith)
                requires a == v as int * num as int, -den <= num <= den, a >= 0;
            assert(a / (den as int) <= (if v >= 0 { v as int } else { -v as int })) by (nonlinear_arith)
                requires a <= (if v >= 0 { v as int } else { -v as int }) * den, den > 0, a >= 0;
        } else {
            assert(-a <= (if v >= 0 { v as int } else { -v as int }) * den) by (nonlinear_arith)
                requires a == v as int * num as int, -den <= num <= den, a < 0;
            assert((-a) / (den as int) <= (if v >= 0 { v as int } else { -v as int })) by (nonlinear_arith)
                requires -a <= (if v >= 0 { v as int } else { -v as int }) * den, den > 0, a < 0;
        }
    }
    let p: i64 = v * num;
    if p >= 0 {
        p / den
    } else {
        -((-p) / den)
    }
}

/// The nearest value inside the world box, for any sum of two world values.
pub fn clamp_world(v: i64) -> (r: i64)
    ensures
        r == clamp_world_spec(v as int),
        in_world(r as int),
{
    if v < -WORLD_LIMIT {
        -WORLD_LIMIT
    } else if v > WORLD_LIMIT {
        WORLD_LIMIT
    } else {
        v
    }
}

/// An axis-aligned rectangle. Its corners, in the order a renderer emits
/// them, are (min x, min y), (max x, min y), (min x, max y), (max x, max y).
#[derive(Clone, Copy, Debug, PartialEq, Eq, Structural)]
pub struct Rect {
    pub min_x: i64,
    pub min_y: i64,
    pub max_x: i64,
    pub max_y: i64,
}

/// Lengths admitted as rectangle sizes.
pub open spec fn valid_size(w: int) -> bool {
    0 <= w <= WORLD_LIMIT
}

/// The rectangle of the given size centred on `(x, y)`; odd sizes lose
/// their last subpixel on the far side.
pub open spec fn rect_spec(x: int, y: int, width: int, height: int) -> Rect {
    Rect {
        min_x: (x - width / 2) as i64,
        min_y: (y - height / 2) as i64,
        max_x: (x + width / 2) as i64,
        max_y: (y + height / 2) as i64,
    }
}

/// Strict overlap of two rectangles: touching edges do not count.
pub open spec fn overlap(a: Rect, b: Rect) -> bool {
    a.min_x < b.max_x && b.min_x < a.max_x && a.min_y < b.max_y && b.min_y < a.max_y
}

/// The rectangle of size `width` by `height` centred on `(x, y)`.
pub fn build_rect(x: i64, y: i64, width: i64, height: i64) -> (r: Rect)
    requires
        in_world(x as int),
        in_world(y as int),
        valid_size(width as int),
        valid_size(height as int),
    ensures
        r == rect_spec(x as int, y as int, width as int, height as int),
        r.min_x <= r.max_x,
        r.min_y <= r.max_y,
{
    Rect {
        min_x: x - width / 2,
        min_y: y - height / 2,
        max_x: x + width / 2,
        max_y: y + height / 2,
    }
}

impl Rect {
    /// Corners in emission order.
    pub fn corners(&self) -> (r: Vec<Vec2>)
        ensures
            r@ == seq![
                Vec2 { x: self.min_x, y: self.min_y },
                Vec2 { x: self.max_x, y: self.min_y },
                Vec2 { x: self.min_x, y: self.max_y },
                Vec2 { x: self.max_x, y: self.max_y },
            ],
    {
        let mut r = Vec::new();
        r.push(Vec2 { x: self.min_x, y: self.min_y });
        r.push(Vec2 { x: self.max_x, y: self.min_y });
        r.push(Vec2 { x: self.min_x, y: self.max_y });
        r.push(Vec2 { x: self.max_x, y: self.max_y });
        r
    }
}

/// Whether two rectangles overlap, touching edges excluded.
pub fn rect_intersect(rect1: &Rect, rect2: &Rect) -> (r: bool)
    ensures
        r == overlap(*rect1, *rect2),
{
    rect1.min_x < rect2.max_x && rect2.min_x < rect1.max_x && rect1.min_y < rect2.max_y
        && rect2.min_y < rect1.max_y
}

/// Overlap is symmetric: `a` meets `b` exactly when `b` meets `a`, for any
/// two rectangles built by `build_rect`.
pub proof fn lemma_overlap_symmetric(
    ax: int,
    ay: int,
    aw: int,
    ah: int,
    bx: int,
    by: int,
    bw: int,
    bh: int,
)
    requires
        in_world(ax),
        in_world(ay),
        in_world(bx),
        in_world(by),
        valid_size(aw),
        valid_size(ah),
        valid_size(bw),
        valid_size(bh),
    ensures
        overlap(rect_spec(ax, ay, aw, ah), rect_spec(bx, by, bw, bh)) == overlap(
            rect_spec(bx, by, bw, bh),
            rect_spec(ax, ay, aw, ah),
        ),
{
}

} // verus!
