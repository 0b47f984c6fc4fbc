use vstd::prelude::*;

use crate::geometry_def::coord::Coord;
use crate::geometry_def::{lemma_steps_within, steps_within, VerticalLineSet, LineDef, PaperSize, PointDef};

verus! {

/// Why a vertical line set cannot be expanded.
#[derive(Debug, Clone, Copy, PartialEq, Eq, Structural)]
pub enum Error {
    PaperWidthIsNotPositive(i32),
    PaperHeightIsNotPositive(i32),
    XSpacingIsNotPositive(i32),
    LeftMarginIsNotPositive(i32),
    RightMarginIsNotPositive(i32),
}

/// The first rule that the line set and paper break, in the order checked.
pub open spec fn vertical_error(line_set: VerticalLineSet, paper_size: PaperSize) -> Option<Error> {
    if paper_size.width <= 0 {
        Some(Error::PaperWidthIsNotPositive(paper_size.width))
    } else if paper_size.height <= 0 {
        Some(Error::PaperHeightIsNotPositive(paper_size.height))
    } else if line_set.x_spacing <= 0 {
        Some(Error::XSpacingIsNotPositive(line_set.x_spacing))
    } else if line_set.left_margin <= 0 {
        Some(Error::LeftMarginIsNotPositive(line_set.left_margin))
    } else if line_set.right_margin <= 0 {
        Some(Error::RightMarginIsNotPositive(line_set.right_margin))
    } else {
        None
    }
}

/// A full-height line at `x`.
pub open spec fn vertical_line(line_set: VerticalLineSet, paper_size: PaperSize, x: int) -> LineDef {
    LineDef {
        start: PointDef { x: Coord::OffZero(x as i64), y: Coord::OffZero(0) },
        end: PointDef { x: Coord::OffZero(x as i64), y: Coord::OffZero(paper_size.height as i64) },
        thickness: line_set.thickness,
        color: line_set.color,
        dash_pattern: line_set.dash_pattern,
    }
}

/// Position of line `k`, counted from the left margin right.
pub open spec fn vertical_x(line_set: VerticalLineSet, k: int) -> int {
    line_set.left_margin + k * line_set.x_spacing
}

/// Number of lines that stay at or left of the right margin.
pub open spec fn vertical_count(line_set: VerticalLineSet, paper_size: PaperSize) -> nat {
    steps_within(
        paper_size.width - line_set.right_margin - line_set.left_margin,
        line_set.x_spacing as int,
    )
}

/// All lines of a vertical set, left to right.
pub open spec fn vertical_lines(line_set: VerticalLineSet, paper_size: PaperSize) -> Seq<LineDef> {
    Seq::new(
        vertical_count(line_set, paper_size),
        |k: int| vertical_line(line_set, paper_size, vertical_x(line_set, k)),
    )
}

/// Appends the vertical lines of `line_set` to `result`, or reports the
/// first broken rule and leaves `result` as it was.
pub fn create_vertical_lines(
    line_set: &VerticalLineSet,
    paper_size: &PaperSize,
    result: &mut Vec<LineDef>,
) -> (r: Result<(), Error>)
    ensures
        match vertical_error(*line_set, *paper_size) {
            Some(e) => r == Err::<(), Error>(e) && final(result)@ == old(result)@,
            None => r is Ok && final(result)@ == old(result)@ + vertical_lines(
                *line_set,
                *paper_size,
            ),
        },
{
    if paper_size.width <= 0 {
        return Err(Error::PaperWidthIsNotPositive(paper_size.width));
    }
    if paper_size.height <= 0 {
        return Err(Error::PaperHeightIsNotPositive(paper_size.height));
    }
    if line_set.x_spacing <= 0 {
        return Err(Error::XSpacingIsNotPositive(line_set.x_spacing));
    }
    if line_set.left_margin <= 0 {
        return Err(Error::LeftMarginIsNotPositive(line_set.left_margin));
    }
    if line_set.right_margin <= 0 {
        return Err(Error::RightMarginIsNotPositive(line_set.right_margin));
    }
    let ghost initial = result@;
    let ghost lines = vertical_lines(*line_set, *paper_size);
    let sp = line_set.x_spacing as i64;
    let last = paper_size.width as i64 - line_set.right_margin as i64;
    let mut x: i64 = line_set.left_margin as i64;
    let ghost mut k: int = 0;
    assert(k * sp == 0) by (nonlinear_arith)
        requires
            k == 0,
    ;
    while x <= last
        invariant
            vertical_error(*line_set, *paper_size) is None,
            lines == vertical_lines(*line_set, *paper_size),
            sp == line_set.x_spacing,
            last == paper_size.width - line_set.right_margin,
            0 <= k <= lines.len(),
            x == vertical_x(*line_set, k),
            0 <= x <= 0x1_0000_0000,
            result@ == initial + lines.take(k),
        decreases lines.len() - k,
    {
        proof {
            lemma_steps_within(last - line_set.left_margin, sp as int, k);
        }
        result.push(
            LineDef {
                start: PointDef { x: Coord::OffZero(x), y: Coord::OffZero(0) },
                end: PointDef { x: Coord::OffZero(x), y: Coord::OffZero(paper_size.height as i64) },
                thickness: line_set.thickness,
                color: line_set.color,
                dash_pattern: line_set.dash_pattern,
            },
        );
        proof {
            assert(result@ =~= initial + lines.take(k + 1));
            k = k + 1;
            assert(x + sp == vertical_x(*line_set, k)) by (nonlinear_arith)
                requires
                    x == vertical_x(*line_set, k - 1),
                    sp == line_set.x_spacing,
            ;
        }
        x = x + sp;
    }
    proof {
        lemma_steps_within(last - line_set.left_margin, sp as int, k);
        assert(result@ =~= initial + lines);
    }
    Ok(())
}

/// Every vertical line lies between the left margin and the width less the
/// right margin, both included, spans the whole height, and lies exactly
/// `x_spacing` right of the line before it.
pub proof fn lemma_vertical_lines_spaced(line_set: VerticalLineSet, paper_size: PaperSize)
    requires
        vertical_error(line_set, paper_size) is None,
    ensures
        forall|k: int|
            0 <= k < vertical_lines(line_set, paper_size).len() ==> {
                let line = #[trigger] vertical_lines(line_set, paper_size)[k];
                let x = line.start.x.at(paper_size.width as int);
                &&& line_set.left_margin <= x <= paper_size.width - line_set.right_margin
                &&& line.end.x.at(paper_size.width as int) == x
                &&& line.start.y.at(paper_size.height as int) == 0
                &&& line.end.y.at(paper_size.height as int) == paper_size.height
            },
        forall|k: int|
            0 <= k && k + 1 < vertical_lines(line_set, paper_size).len() ==> vertical_lines(
                line_set,
                paper_size,
            )[k + 1].start.x.at(paper_size.width as int) - #[trigger] vertical_lines(line_set, paper_size)[k].start.x.at(
                paper_size.width as int,
            ) == line_set.x_spacing,
{
    let lines = vertical_lines(line_set, paper_size);
    let sp = line_set.x_spacing as int;
    let d = paper_size.width - line_set.right_margin - line_set.left_margin;
    assert forall|k: int| 0 <= k < lines.len() implies line_set.left_margin <= #[trigger] vertical_x(
        line_set,
        k,
    ) <= paper_size.width - line_set.right_margin by {
        lemma_steps_within(d, sp, k);
        assert(0 <= k * sp) by (nonlinear_arith)
            requires
                k >= 0,
                sp > 0,
        ;
    }
    assert forall|k: int| 0 <= k && k + 1 < lines.len() implies vertical_x(line_set, k + 1)
        - #[trigger] vertical_x(line_set, k) == sp by {
        assert((k + 1) * sp == k * sp + sp) by (nonlinear_arith);
    }
}

} // verus!
