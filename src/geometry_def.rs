use vstd::prelude::*;

pub mod coord;

use crate::geometry_def::coord::Coord;

verus! {

/// A point on the page.
#[derive(Debug, Clone, Copy, PartialEq, Eq, Structural)]
pub struct PointDef {
    pub x: Coord,
    pub y: Coord,
}

/// Size of the paper in micrometres.
#[derive(Debug, Clone, Copy, PartialEq, Eq, Structural)]
pub struct PaperSize {
    pub width: i32,
    pub height: i32,
}

/// A dash pattern in points; without a gap the gap equals the dash.
#[derive(Debug, Clone, Copy, PartialEq, Eq, Structural)]
pub struct DashPatternDef {
    pub dash: i64,
    pub gap: Option<i64>,
}

/// A colour as cyan, magenta, yellow and black channels in ten-thousandths.
#[derive(Debug, Clone, Copy, PartialEq, Eq, Structural)]
pub struct CmykDef(pub i32, pub i32, pub i32, pub i32);

/// One straight line segment to be drawn.
#[derive(Debug, Clone, Copy, PartialEq, Eq, Structural)]
pub struct LineDef {
    pub start: PointDef,
    pub end: PointDef,
    /// Thickness in thousandths of a point.
    pub thickness: i32,
    pub color: CmykDef,
    pub dash_pattern: Option<DashPatternDef>,
}

/// The tangent of a slant angle as the ratio `rise / run`.
///
/// Trigonometry is done in floating point by the caller; a vertical slant
/// has a `run` of zero. Slant lines need `rise >= run`, and `rise > 0`.
#[derive(Debug, Clone, Copy, PartialEq, Eq, Structural)]
pub struct Slope {
    pub rise: u32,
    pub run: u32,
}

/// Parallel lines slanted at `slant_angle` (hundredths of a degree), whose
/// crossings with the top edge are `x_spacing` apart.
#[derive(Debug, Clone, Copy, PartialEq, Eq, Structural)]
pub struct SlantLineSet {
    pub x_spacing: i32,
    pub slant_angle: i32,
    /// The tangent of `slant_angle`.
    pub slope: Slope,
    pub thickness: i32,
    pub color: CmykDef,
}

/// French-ruled lines: a base line after every three auxiliary lines.
#[derive(Debug, Clone, Copy, PartialEq, Eq, Structural)]
pub struct SeyesLineSet {
    pub y_spacing: i32,
    pub top_margin: i32,
    pub bottom_margin: i32,
    pub base_thickness: i32,
    pub base_color: CmykDef,
    pub aux_thickness: i32,
    pub aux_color: CmykDef,
}

/// Full-width horizontal lines walking down from the top margin.
#[derive(Debug, Clone, Copy, PartialEq, Eq, Structural)]
pub struct HorizontalLineSet {
    pub y_spacing: i32,
    pub top_margin: i32,
    pub bottom_margin: i32,
    pub thickness: i32,
    pub color: CmykDef,
    pub dash_pattern: Option<DashPatternDef>,
}

/// Full-height vertical lines walking right from the left margin.
#[derive(Debug, Clone, Copy, PartialEq, Eq, Structural)]
pub struct VerticalLineSet {
    pub x_spacing: i32,
    pub left_margin: i32,
    pub right_margin: i32,
    pub thickness: i32,
    pub color: CmykDef,
    pub dash_pattern: Option<DashPatternDef>,
}

/// One declared family of lines.
#[derive(Debug, Clone, Copy, PartialEq, Eq, Structural)]
pub enum LineSet {
    Slant(SlantLineSet),
    Seyes(SeyesLineSet),
    HorizontalLines(HorizontalLineSet),
    VerticalLines(VerticalLineSet),
    SingleLine(LineDef),
}

/// A whole page description: the paper and its line sets, in order.
#[derive(Debug, Clone)]
pub struct GeometryDef {
    pub paper_size: PaperSize,
    pub line_sets: Vec<LineSet>,
}

/// How many of the offsets `0, step, 2 * step, ...` do not exceed `d`.
pub open spec fn steps_within(d: int, step: int) -> nat {
    if d >= 0 {
        (d / step + 1) as nat
    } else {
        0
    }
}

/// The `k`-th offset is counted by `steps_within` exactly when it does not exceed `d`.
pub proof fn lemma_steps_within(d: int, step: int, k: int)
    requires
        step > 0,
        k >= 0,
    ensures
        (k < steps_within(d, step)) == (k * step <= d),
{
    if d >= 0 {
        let q = d / step;
        let r = d % step;
        assert(d == q * step + r && 0 <= r < step) by {
            vstd::arithmetic::div_mod::lemma_fundamental_div_mod(d, step);
        }
        if k <= q {
            assert(k * step <= d) by (nonlinear_arith)
                requires
                    k <= q,
                    step > 0,
                    d == q * step + r,
                    r >= 0,
            ;
        } else {
            assert(k * step > d) by (nonlinear_arith)
                requires
                    k >= q + 1,
                    step > 0,
                    d == q * step + r,
                    r < step,
            ;
        }
    } else {
        assert(k * step >= 0) by (nonlinear_arith)
            requires
                k >= 0,
                step > 0,
        ;
    }
}

/// Both ends of the segment lie on the paper, edges included.
pub open spec fn within_page(line: LineDef, paper_size: PaperSize) -> bool {
    let w = paper_size.width as int;
    let h = paper_size.height as int;
    &&& 0 <= line.start.x.at(w) <= w
    &&& 0 <= line.start.y.at(h) <= h
    &&& 0 <= line.end.x.at(w) <= w
    &&& 0 <= line.end.y.at(h) <= h
}

/// Floor division keeps an upper bound: `a <= b * c` gives `a / c <= b`.
pub proof fn lemma_div_at_most(a: int, b: int, c: int)
    requires
        0 <= a <= b * c,
        c > 0,
    ensures
        a / c <= b,
{
    let q = a / c;
    let r = a % c;
    assert(a == q * c + r && 0 <= r < c) by {
        vstd::arithmetic::div_mod::lemma_fundamental_div_mod(a, c);
    }
    if q > b {
        assert(q * c >= (b + 1) * c) by (nonlinear_arith)
            requires
                q >= b + 1,
                c > 0,
        ;
        assert((b + 1) * c == b * c + c) by (nonlinear_arith);
    }
}

/// Floor division keeps a lower bound: `a * c <= b` gives `a <= b / c`.
pub proof fn lemma_div_at_least(a: int, b: int, c: int)
    requires
        a * c <= b,
        0 <= b,
        c > 0,
    ensures
        a <= b / c,
{
    let q = b / c;
    let r = b % c;
    assert(b == q * c + r && 0 <= r < c) by {
        vstd::arithmetic::div_mod::lemma_fundamental_div_mod(b, c);
    }
    if a > q {
        assert(a * c >= (q + 1) * c) by (nonlinear_arith)
            requires
                a >= q + 1,
                c > 0,
        ;
        assert((q + 1) * c == q * c + c) by (nonlinear_arith);
    }
}

impl PointDef {
    /// The absolute x position of the point on the given paper.
    pub fn x_coord(&self, paper_size: &PaperSize) -> (r: i128)
        ensures
            r == self.x.at(paper_size.width as int),
    {
        self.x.resolve(paper_size.width)
    }

    /// The absolute y position of the point on the given paper.
    pub fn y_coord(&self, paper_size: &PaperSize) -> (r: i128)
        ensures
            r == self.y.at(paper_size.height as int),
    {
        self.y.resolve(paper_size.height)
    }
}

} // verus!
