use vstd::prelude::*;

use crate::geometry_def::coord::Coord;
use crate::geometry_def::{lemma_steps_within, steps_within, HorizontalLineSet, LineDef, PaperSize, PointDef};

verus! {

/// Why a horizontal line set cannot be expanded.
#[derive(Debug, Clone, Copy, PartialEq, Eq, Structural)]
pub enum Error {
    PaperWidthIsNotPositive(i32),
    PaperHeightIsNotPositive(i32),
    YSpacingIsNotPositive(i32),
    TopMarginIsNotPositive(i32),
    BottomMarginIsNotPositive(i32),
}

/// The first rule that the line set and paper break, in the order checked.
pub open spec fn horizontal_error(line_set: HorizontalLineSet, paper_size: PaperSize) -> Option<Error> {
    if paper_size.width <= 0 {
        Some(Error::PaperWidthIsNotPositive(paper_size.width))
    } else if paper_size.height <= 0 {
        Some(Error::PaperHeightIsNotPositive(paper_size.height))
    } else if line_set.y_spacing <= 0 {
        Some(Error::YSpacingIsNotPositive(line_set.y_spacing))
    } else if line_set.top_margin <= 0 {
        Some(Error::TopMarginIsNotPositive(line_set.top_margin))
    } else if line_set.bottom_margin <= 0 {
        Some(Error::BottomMarginIsNotPositive(line_set.bottom_margin))
    } else {
        None
    }
}

/// A full-width line at height `y`.
pub open spec fn horizontal_line(line_set: HorizontalLineSet, y: int) -> LineDef {
    LineDef {
        start: PointDef { x: Coord::OffZero(0), y: Coord::OffZero(y as i64) },
        end: PointDef { x: Coord::OffFarEdge(0), y: Coord::OffZero(y as i64) },
        thickness: line_set.thickness,
        color: line_set.color,
        dash_pattern: line_set.dash_pattern,
    }
}

/// Height of line `k`, counted from the top margin down.
pub open spec fn horizontal_y(line_set: HorizontalLineSet, paper_size: PaperSize, k: int) -> int {
    paper_size.height - line_set.top_margin - k * line_set.y_spacing
}

/// Number of lines that stay at or above the bottom margin.
pub open spec fn horizontal_count(line_set: HorizontalLineSet, paper_size: PaperSize) -> nat {
    steps_within(
        paper_size.height - line_set.top_margin - line_set.bottom_margin,
        line_set.y_spacing as int,
    )
}

/// All lines of a horizontal set, top to bottom.
pub open spec fn horizontal_lines(line_set: HorizontalLineSet, paper_size: PaperSize) -> Seq<LineDef> {
    Seq::new(
        horizontal_count(line_set, paper_size),
        |k: int| horizontal_line(line_set, horizontal_y(line_set, paper_size, k)),
    )
}

/// Appends the horizontal lines of `line_set` to `result`, or reports the
/// first broken rule and leaves `result` as it was.
pub fn create_horizontal_lines(
    line_set: &HorizontalLineSet,
    paper_size: &PaperSize,
    result: &mut Vec<LineDef>,
) -> (r: Result<(), Error>)
    ensures
        match horizontal_error(*line_set, *paper_size) {
            Some(e) => r == Err::<(), Error>(e) && final(result)@ == old(result)@,
            None => r is Ok && final(result)@ == old(result)@ + horizontal_lines(
                *line_set,
                *paper_size,
            ),
        },
{
    if paper_size.width <= 0 {
        return Err(Error::PaperWidthIsNotPositive(paper_size.width));
    }
    if paper_size.height <= 0 {
        return Err(Error::PaperHeightIsNotPositive(paper_size.height));
    }
    if line_set.y_spacing <= 0 {
        return Err(Error::YSpacingIsNotPositive(line_set.y_spacing));
    }
    if line_set.top_margin <= 0 {
        return Err(Error::TopMarginIsNotPositive(line_set.top_margin));
    }
    if line_set.bottom_margin <= 0 {
        return Err(Error::BottomMarginIsNotPositive(line_set.bottom_margin));
    }
    let ghost initial = result@;
    let ghost lines = horizontal_lines(*line_set, *paper_size);
    let sp = line_set.y_spacing as i64;
    let bottom = line_set.bottom_margin as i64;
    let mut y: i64 = paper_size.height as i64 - line_set.top_margin as i64;
    let ghost mut k: int = 0;
    assert(k * sp == 0) by (nonlinear_arith)
        requires
            k == 0,
    ;
    while y >= bottom
        invariant
            horizontal_error(*line_set, *paper_size) is None,
            lines == horizontal_lines(*line_set, *paper_size),
            sp == line_set.y_spacing,
            bottom == line_set.bottom_margin,
            0 <= k <= lines.len(),
            y == horizontal_y(*line_set, *paper_size, k),
            -0x8000_0000 <= y <= 0x8000_0000,
            result@ == initial + lines.take(k),
        decreases lines.len() - k,
    {
        proof {
            lemma_steps_within(paper_size.height - line_set.top_margin - bottom, sp as int, k);
        }
        result.push(
            LineDef {
                start: PointDef { x: Coord::OffZero(0), y: Coord::OffZero(y) },
                end: PointDef { x: Coord::OffFarEdge(0), y: Coord::OffZero(y) },
                thickness: line_set.thickness,
                color: line_set.color,
                dash_pattern: line_set.dash_pattern,
            },
        );
        proof {
            assert(result@ =~= initial + lines.take(k + 1));
            k = k + 1;
            assert(y - sp == horizontal_y(*line_set, *paper_size, k)) by (nonlinear_arith)
                requires
                    y == horizontal_y(*line_set, *paper_size, k - 1),
                    sp == line_set.y_spacing,
            ;
        }
        y = y - sp;
    }
    proof {
        lemma_steps_within(paper_size.height - line_set.top_margin - bottom, sp as int, k);
        assert(result@ =~= initial + lines);
    }
    Ok(())
}

/// Every horizontal line lies between the bottom margin and the height less
/// the top margin, both included, spans the whole width, and lies exactly
/// `y_spacing` below the line before it.
pub proof fn lemma_horizontal_lines_spaced(line_set: HorizontalLineSet, paper_size: PaperSize)
    requires
        horizontal_error(line_set, paper_size) is None,
    ensures
        forall|k: int|
            0 <= k < horizontal_lines(line_set, paper_size).len() ==> {
                let line = #[trigger] horizontal_lines(line_set, paper_size)[k];
                let y = line.start.y.at(paper_size.height as int);
                &&& line_set.bottom_margin <= y <= paper_size.height - line_set.top_margin
                &&& line.end.y.at(paper_size.height as int) == y
                &&& line.start.x.at(paper_size.width as int) == 0
                &&& line.end.x.at(paper_size.width as int) == paper_size.width
            },
        forall|k: int|
            0 <= k && k + 1 < horizontal_lines(line_set, paper_size).len() ==> #[trigger] horizontal_lines(
                line_set,
                paper_size,
            )[k].start.y.at(paper_size.height as int) - horizontal_lines(line_set, paper_size)[k
                + 1].start.y.at(paper_size.height as int) == line_set.y_spacing,
{
    let lines = horizontal_lines(line_set, paper_size);
    let sp = line_set.y_spacing as int;
    let d = paper_size.height - line_set.top_margin - line_set.bottom_margin;
    assert forall|k: int| 0 <= k < lines.len() implies line_set.bottom_margin <= #[trigger] horizontal_y(
        line_set,
        paper_size,
        k,
    ) <= paper_size.height - line_set.top_margin by {
        lemma_steps_within(d, sp, k);
        assert(0 <= k * sp) by (nonlinear_arith)
            requires
                k >= 0,
                sp > 0,
        ;
    }
    assert forall|k: int| 0 <= k && k + 1 < lines.len() implies #[trigger] horizontal_y(line_set, paper_size, k)
        - horizontal_y(line_set, paper_size, k + 1) == sp by {
        assert((k + 1) * sp == k * sp + sp) by (nonlinear_arith);
    }
}

} // verus!
