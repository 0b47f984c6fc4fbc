use vstd::prelude::*;

use crate::geometry_def::coord::Coord;
use crate::geometry_def::{
    lemma_div_at_least, lemma_div_at_most, lemma_steps_within, steps_within, within_page,
    LineDef, PaperSize, PointDef, SlantLineSet,
};

verus! {

/// Smallest accepted slant angle, in hundredths of a degree.
pub const MIN_SLANT_ANGLE: i32 = 4500;

/// Largest accepted slant angle, in hundredths of a degree.
pub const MAX_SLANT_ANGLE: i32 = 9000;

/// Why a slant line set cannot be expanded.
#[derive(Debug, Clone, Copy, PartialEq, Eq, Structural)]
pub enum Error {
    /// The angle lies outside `[min, max]`, or its slope is flatter than
    /// 45 degrees.
    SlantAngleIsOutOfRange { actual: i32, min: i32, max: i32 },
    LineSpacingIsNotPositive(i32),
    PaperWidthIsNotPositive(i32),
    PaperHeightIsNotPositive(i32),
}

/// The first rule that the line set and paper break, in the order checked.
pub open spec fn slant_error(line_set: SlantLineSet, paper_size: PaperSize) -> Option<Error> {
    if line_set.slant_angle < MIN_SLANT_ANGLE || line_set.slant_angle > MAX_SLANT_ANGLE
        || line_set.slope.rise == 0 || line_set.slope.rise < line_set.slope.run {
        Some(
            Error::SlantAngleIsOutOfRange {
                actual: line_set.slant_angle,
                min: MIN_SLANT_ANGLE,
                max: MAX_SLANT_ANGLE,
            },
        )
    } else if line_set.x_spacing <= 0 {
        Some(Error::LineSpacingIsNotPositive(line_set.x_spacing))
    } else if paper_size.width <= 0 {
        Some(Error::PaperWidthIsNotPositive(paper_size.width))
    } else if paper_size.height <= 0 {
        Some(Error::PaperHeightIsNotPositive(paper_size.height))
    } else {
        None
    }
}

/// Whether the line that crosses the top edge's line at `u` still enters the page.
pub open spec fn slant_enters_page(line_set: SlantLineSet, paper_size: PaperSize, u: int) -> bool {
    (u - paper_size.width) * line_set.slope.rise <= paper_size.height * line_set.slope.run
}

/// Where the line through `(u, height)` enters the page: the top edge, or the right edge.
pub open spec fn slant_start(line_set: SlantLineSet, paper_size: PaperSize, u: int) -> (int, int) {
    let w = paper_size.width as int;
    let h = paper_size.height as int;
    if u <= w {
        (u, h)
    } else {
        (w, h - (u - w) * line_set.slope.rise / (line_set.slope.run as int))
    }
}

/// Where the line through `(u, height)` leaves the page: the bottom edge, or the left edge.
pub open spec fn slant_end(line_set: SlantLineSet, paper_size: PaperSize, u: int) -> (int, int) {
    let h = paper_size.height as int;
    let reach = h * line_set.slope.run / (line_set.slope.rise as int);
    if u >= reach {
        (u - reach, 0)
    } else {
        (0, h - u * line_set.slope.rise / (line_set.slope.run as int))
    }
}

/// The clipped segment of the slant line through `(u, height)`.
pub open spec fn slant_line(line_set: SlantLineSet, paper_size: PaperSize, u: int) -> LineDef {
    let s = slant_start(line_set, paper_size, u);
    let e = slant_end(line_set, paper_size, u);
    LineDef {
        start: PointDef { x: Coord::OffZero(s.0 as i64), y: Coord::OffZero(s.1 as i64) },
        end: PointDef { x: Coord::OffZero(e.0 as i64), y: Coord::OffZero(e.1 as i64) },
        thickness: line_set.thickness,
        color: line_set.color,
        dash_pattern: None,
    }
}

/// How many lines of the family enter the page.
pub open spec fn slant_count(line_set: SlantLineSet, paper_size: PaperSize) -> nat {
    let rise = line_set.slope.rise as int;
    let reach = paper_size.height * line_set.slope.run + paper_size.width * rise;
    (reach / (line_set.x_spacing * rise)) as nat
}

/// The family: line `i` crosses the top edge's line at `(i + 1) * x_spacing`.
pub open spec fn slant_lines(line_set: SlantLineSet, paper_size: PaperSize) -> Seq<LineDef> {
    Seq::new(
        slant_count(line_set, paper_size),
        |i: int| slant_line(line_set, paper_size, (i + 1) * line_set.x_spacing),
    )
}

/// Line `k` of the family is generated exactly when it enters the page.
pub proof fn lemma_slant_count(line_set: SlantLineSet, paper_size: PaperSize, k: int)
    requires
        slant_error(line_set, paper_size) is None,
        k >= 0,
    ensures
        (k < slant_count(line_set, paper_size)) == slant_enters_page(
            line_set,
            paper_size,
            (k + 1) * line_set.x_spacing,
        ),
{
    let xs = line_set.x_spacing as int;
    let rise = line_set.slope.rise as int;
    let run = line_set.slope.run as int;
    let w = paper_size.width as int;
    let h = paper_size.height as int;
    let d = h * run + w * rise;
    let step = xs * rise;
    assert(step > 0 && d >= 0) by (nonlinear_arith)
        requires
            xs > 0,
            rise > 0,
            run >= 0,
            w > 0,
            h > 0,
            d == h * run + w * rise,
            step == xs * rise,
    ;
    lemma_steps_within(d, step, k + 1);
    assert(((k + 1) * step <= d) == (((k + 1) * xs - w) * rise <= h * run)) by (nonlinear_arith)
        requires
            d == h * run + w * rise,
            step == xs * rise,
    ;
}

/// Each generated slant segment has both ends on the paper.
pub proof fn lemma_slant_line_within_page(line_set: SlantLineSet, paper_size: PaperSize, u: int)
    requires
        slant_error(line_set, paper_size) is None,
        u >= 0,
        slant_enters_page(line_set, paper_size, u),
    ensures
        0 <= slant_start(line_set, paper_size, u).0 <= paper_size.width,
        0 <= slant_start(line_set, paper_size, u).1 <= paper_size.height,
        0 <= slant_end(line_set, paper_size, u).0 <= paper_size.width,
        0 <= slant_end(line_set, paper_size, u).1 <= paper_size.height,
        within_page(slant_line(line_set, paper_size, u), paper_size),
{
    let rise = line_set.slope.rise as int;
    let run = line_set.slope.run as int;
    let w = paper_size.width as int;
    let h = paper_size.height as int;
    if u > w {
        assert(run > 0 && (u - w) * rise >= 0) by (nonlinear_arith)
            requires
                u > w,
                rise > 0,
                run >= 0,
                (u - w) * rise <= h * run,
        ;
        lemma_div_at_most((u - w) * rise, h, run);
        assert((u - w) * rise / run >= 0) by (nonlinear_arith)
            requires
                (u - w) * rise >= 0,
                run > 0,
        ;
    }
    let reach = h * run / rise;
    assert(h * run >= 0) by (nonlinear_arith)
        requires
            h > 0,
            run >= 0,
    ;
    assert(reach >= 0) by (nonlinear_arith)
        requires
            h * run >= 0,
            rise > 0,
            reach == h * run / rise,
    ;
    if u >= reach {
        if u > w {
            lemma_div_at_least(u - w, h * run, rise);
        }
    } else {
        assert(h * run == reach * rise + (h * run) % rise && (h * run) % rise >= 0) by {
            vstd::arithmetic::div_mod::lemma_fundamental_div_mod(h * run, rise);
        }
        assert(u * rise < h * run && run > 0 && u * rise >= 0) by (nonlinear_arith)
            requires
                u < reach,
                u >= 0,
                reach * rise <= h * run,
                rise > 0,
                h > 0,
                run >= 0,
        ;
        lemma_div_at_most(u * rise, h, run);
        assert(u * rise / run >= 0) by (nonlinear_arith)
            requires
                u * rise >= 0,
                run > 0,
        ;
    }
}

/// The clipped segment of the slant line through `(u, height)`.
fn slant_segment(line_set: &SlantLineSet, paper_size: &PaperSize, u: u128) -> (r: LineDef)
    requires
        slant_error(*line_set, *paper_size) is None,
        slant_enters_page(*line_set, *paper_size, u as int),
    ensures
        r == slant_line(*line_set, *paper_size, u as int),
{
    proof {
        lemma_slant_line_within_page(*line_set, *paper_size, u as int);
    }
    let w = paper_size.width as u128;
    let h = paper_size.height as u128;
    let rise = line_set.slope.rise as u128;
    let run = line_set.slope.run as u128;
    assert(h * run < 0x1_0000_0000_0000_0000) by (nonlinear_arith)
        requires
            h < 0x8000_0000,
            run < 0x1_0000_0000,
    ;
    assert(u <= w + h * run) by (nonlinear_arith)
        requires
            (u - w) * rise <= h * run,
            rise >= 1,
    ;
    let (x0, y0) = if u <= w {
        (u, h)
    } else {
        assert((u - w) * rise <= h * run);
        assert((u - w) * rise < 0x1_0000_0000_0000_0000_0000_0000) by (nonlinear_arith)
            requires
                u - w < 0x1_0000_0000_0000_0000,
                rise < 0x1_0000_0000,
        ;
        (w, h - (u - w) * rise / run)
    };
    let reach = h * run / rise;
    let (x1, y1) = if u >= reach {
        (u - reach, 0)
    } else {
        assert(u < 0x2_0000_0000_0000_0000);
        assert(u * rise < 0x1_0000_0000_0000_0000_0000_0000_0000) by (nonlinear_arith)
            requires
                u < 0x2_0000_0000_0000_0000,
                rise < 0x1_0000_0000,
        ;
        (0, h - u * rise / run)
    };
    LineDef {
        start: PointDef { x: Coord::OffZero(x0 as i64), y: Coord::OffZero(y0 as i64) },
        end: PointDef { x: Coord::OffZero(x1 as i64), y: Coord::OffZero(y1 as i64) },
        thickness: line_set.thickness,
        color: line_set.color,
        dash_pattern: None,
    }
}

/// Appends the slant lines of `line_set` to `result`, or reports the first
/// broken rule and leaves `result` as it was.
///
/// Lines start on the top edge at every `x_spacing`; once past the right
/// edge they start on the right edge instead, until they would start below
/// the bottom edge. Each ends where it leaves through the bottom or the left
/// edge.
pub fn create_slant_lines(
    line_set: &SlantLineSet,
    paper_size: &PaperSize,
    result: &mut Vec<LineDef>,
) -> (r: Result<(), Error>)
    ensures
        match slant_error(*line_set, *paper_size) {
            Some(e) => r == Err::<(), Error>(e) && final(result)@ == old(result)@,
            None => r is Ok && final(result)@ == old(result)@ + slant_lines(
                *line_set,
                *paper_size,
            ),
        },
{
    if line_set.slant_angle < MIN_SLANT_ANGLE || line_set.slant_angle > MAX_SLANT_ANGLE
        || line_set.slope.rise == 0 || line_set.slope.rise < line_set.slope.run {
        return Err(
            Error::SlantAngleIsOutOfRange {
                actual: line_set.slant_angle,
                min: MIN_SLANT_ANGLE,
                max: MAX_SLANT_ANGLE,
            },
        );
    }
    if line_set.x_spacing <= 0 {
        return Err(Error::LineSpacingIsNotPositive(line_set.x_spacing));
    }
    if paper_size.width <= 0 {
        return Err(Error::PaperWidthIsNotPositive(paper_size.width));
    }
    if paper_size.height <= 0 {
        return Err(Error::PaperHeightIsNotPositive(paper_size.height));
    }
    let ghost lines = slant_lines(*line_set, *paper_size);
    let ghost n = slant_count(*line_set, *paper_size);
    let ghost initial = result@;
    let xs = line_set.x_spacing as u128;
    let w = paper_size.width as u128;
    let h = paper_size.height as u128;
    let rise = line_set.slope.rise as u128;
    let run = line_set.slope.run as u128;
    assert(h * run < 0x1_0000_0000_0000_0000) by (nonlinear_arith)
        requires
            h < 0x8000_0000,
            run < 0x1_0000_0000,
    ;
    let mut u: u128 = xs;
    let ghost mut k: int = 0;
    // Starting points along the top edge.
    while u <= w
        invariant
            slant_error(*line_set, *paper_size) is None,
            lines == slant_lines(*line_set, *paper_size),
            n == lines.len(),
            0 <= k <= n,
            u == (k + 1) * xs,
            xs > 0,
            u <= w + xs,
            xs == line_set.x_spacing,
            w == paper_size.width,
            h == paper_size.height,
            rise == line_set.slope.rise,
            run == line_set.slope.run,
            result@ == initial + lines.take(k),
        decreases n - k,
    {
        proof {
            lemma_slant_count(*line_set, *paper_size, k);
            assert((u - w) * rise <= 0) by (nonlinear_arith)
                requires
                    u <= w,
                    rise >= 0,
            ;
        }
        let line = slant_segment(line_set, paper_size, u);
        result.push(line);
        proof {
            assert(result@ =~= initial + lines.take(k + 1));
            k = k + 1;
            assert(u + xs == (k + 1) * xs) by (nonlinear_arith)
                requires
                    u == k * xs,
            ;
        }
        u = u + xs;
    }
    assert((u - w) * rise < 0x1_0000_0000_0000_0000_0000_0000) by (nonlinear_arith)
        requires
            u - w <= xs,
            xs < 0x8000_0000,
            rise < 0x1_0000_0000,
    ;
    // Starting points down the right edge.
    while (u - w) * rise <= h * run
        invariant
            slant_error(*line_set, *paper_size) is None,
            lines == slant_lines(*line_set, *paper_size),
            n == lines.len(),
            0 <= k <= n,
            u == (k + 1) * xs,
            u > w,
            xs == line_set.x_spacing,
            w == paper_size.width,
            h == paper_size.height,
            rise == line_set.slope.rise,
            run == line_set.slope.run,
            h * run < 0x1_0000_0000_0000_0000,
            u <= w + h * run + xs,
            (u - w) * rise < 0x1_0000_0000_0000_0000_0000_0000,
            result@ == initial + lines.take(k),
        decreases n - k,
    {
        proof {
            lemma_slant_count(*line_set, *paper_size, k);
            assert(u <= w + h * run) by (nonlinear_arith)
                requires
                    (u - w) * rise <= h * run,
                    rise >= 1,
            ;
        }
        let line = slant_segment(line_set, paper_size, u);
        result.push(line);
        proof {
            assert(result@ =~= initial + lines.take(k + 1));
            k = k + 1;
            assert(u + xs == (k + 1) * xs) by (nonlinear_arith)
                requires
                    u == k * xs,
            ;
        }
        u = u + xs;
        assert((u - w) * rise < 0x1_0000_0000_0000_0000_0000_0000) by (nonlinear_arith)
            requires
                u - w <= h * run + xs,
                h * run < 0x1_0000_0000_0000_0000,
                xs < 0x8000_0000,
                rise < 0x1_0000_0000,
        ;
    }
    proof {
        lemma_slant_count(*line_set, *paper_size, k);
        assert(result@ =~= initial + lines);
    }
    Ok(())
}

/// Every slant segment has both ends on the paper. The lines cover the page
/// without gaps: line `i` crosses the top edge's line at
/// `(i + 1) * x_spacing`, so consecutive lines are `x_spacing` apart along
/// it, every such line up to the last enters the page, and the next one
/// would not.
pub proof fn lemma_slant_lines_cover_page(line_set: SlantLineSet, paper_size: PaperSize)
    requires
        slant_error(line_set, paper_size) is None,
    ensures
        forall|i: int|
            0 <= i < slant_lines(line_set, paper_size).len() ==> within_page(
                #[trigger] slant_lines(line_set, paper_size)[i],
                paper_size,
            ),
        forall|i: int|
            0 <= i < slant_lines(line_set, paper_size).len() ==> #[trigger] slant_lines(
                line_set,
                paper_size,
            )[i] == slant_line(line_set, paper_size, (i + 1) * line_set.x_spacing)
                && slant_enters_page(line_set, paper_size, (i + 1) * line_set.x_spacing),
        !slant_enters_page(
            line_set,
            paper_size,
            (slant_lines(line_set, paper_size).len() + 1) * line_set.x_spacing,
        ),
{
    let lines = slant_lines(line_set, paper_size);
    assert forall|i: int| 0 <= i < lines.len() implies within_page(lines[i], paper_size)
        && slant_enters_page(line_set, paper_size, (i + 1) * line_set.x_spacing) by {
        lemma_slant_count(line_set, paper_size, i);
        assert((i + 1) * line_set.x_spacing >= 0) by (nonlinear_arith)
            requires
                i >= 0,
                line_set.x_spacing > 0,
        ;
        lemma_slant_line_within_page(line_set, paper_size, (i + 1) * line_set.x_spacing);
    }
    lemma_slant_count(line_set, paper_size, lines.len() as int);
}

} // verus!
