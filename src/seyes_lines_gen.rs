use vstd::prelude::*;

use crate::geometry_def::coord::Coord;
use crate::geometry_def::{lemma_steps_within, steps_within, LineDef, PaperSize, PointDef, SeyesLineSet};

verus! {

/// Why a seyes line set cannot be expanded.
#[derive(Debug, Clone, Copy, PartialEq, Eq, Structural)]
pub enum Error {
    PaperWidthIsNotPositive(i32),
    PaperHeightIsNotPositive(i32),
    YSpacingIsNotPositive(i32),
    TopMarginIsNotPositive(i32),
    BottomMarginIsNotPositive(i32),
}

/// The first rule that the line set and paper break, in the order checked.
pub open spec fn seyes_error(line_set: SeyesLineSet, paper_size: PaperSize) -> Option<Error> {
    if paper_size.width <= 0 {
        Some(Error::PaperWidthIsNotPositive(paper_size.width))
    } else if paper_size.height <= 0 {
        Some(Error::PaperHeightIsNotPositive(paper_size.height))
    } else if line_set.y_spacing <= 0 {
        Some(Error::YSpacingIsNotPositive(line_set.y_spacing))
    } else if line_set.top_margin <= 0 {
        Some(Error::TopMarginIsNotPositive(line_set.top_margin))
    } else if line_set.bottom_margin <= 0 {
        Some(Error::BottomMarginIsNotPositive(line_set.bottom_margin))
    } else {
        None
    }
}

/// A full-width line at height `y`, base-styled or auxiliary.
pub open spec fn seyes_line(line_set: SeyesLineSet, paper_size: PaperSize, y: int, base: bool) -> LineDef {
    LineDef {
        start: PointDef { x: Coord::OffZero(0), y: Coord::OffZero(y as i64) },
        end: PointDef { x: Coord::OffZero(paper_size.width as i64), y: Coord::OffZero(y as i64) },
        thickness: if base {
            line_set.base_thickness
        } else {
            line_set.aux_thickness
        },
        color: if base {
            line_set.base_color
        } else {
            line_set.aux_color
        },
        dash_pattern: None,
    }
}

/// Height of the first line, below the top margin.
pub open spec fn seyes_top(line_set: SeyesLineSet, paper_size: PaperSize) -> int {
    paper_size.height - line_set.top_margin
}

/// The two leading auxiliary lines, each kept only above the bottom margin.
pub open spec fn seyes_head(line_set: SeyesLineSet, paper_size: PaperSize) -> Seq<LineDef> {
    let y0 = seyes_top(line_set, paper_size);
    let sp = line_set.y_spacing as int;
    let b = line_set.bottom_margin as int;
    (if y0 >= b {
        seq![seyes_line(line_set, paper_size, y0, false)]
    } else {
        Seq::empty()
    }) + (if y0 - sp >= b {
        seq![seyes_line(line_set, paper_size, y0 - sp, false)]
    } else {
        Seq::empty()
    })
}

/// Number of four-line blocks: one more while `y + 4 * y_spacing` reaches the
/// bottom margin, `y` being the height of the line above the block.
pub open spec fn seyes_block_count(line_set: SeyesLineSet, paper_size: PaperSize) -> nat {
    let sp = line_set.y_spacing as int;
    steps_within(seyes_top(line_set, paper_size) + 3 * sp - line_set.bottom_margin, 4 * sp)
}

/// Line `t` of the blocks, `y_spacing` apart below the leading lines; the
/// second of every four is a base line.
pub open spec fn seyes_block_line(line_set: SeyesLineSet, paper_size: PaperSize, t: int) -> LineDef {
    seyes_line(
        line_set,
        paper_size,
        seyes_top(line_set, paper_size) - (t + 2) * line_set.y_spacing,
        t % 4 == 1,
    )
}

/// All lines of a seyes set, top to bottom.
pub open spec fn seyes_lines(line_set: SeyesLineSet, paper_size: PaperSize) -> Seq<LineDef> {
    seyes_head(line_set, paper_size) + Seq::new(
        4 * seyes_block_count(line_set, paper_size),
        |t: int| seyes_block_line(line_set, paper_size, t),
    )
}

fn seyes_segment(line_set: &SeyesLineSet, paper_size: &PaperSize, y: i64, base: bool) -> (r: LineDef)
    ensures
        r == seyes_line(*line_set, *paper_size, y as int, base),
{
    LineDef {
        start: PointDef { x: Coord::OffZero(0), y: Coord::OffZero(y) },
        end: PointDef { x: Coord::OffZero(paper_size.width as i64), y: Coord::OffZero(y) },
        thickness: if base {
            line_set.base_thickness
        } else {
            line_set.aux_thickness
        },
        color: if base {
            line_set.base_color
        } else {
            line_set.aux_color
        },
        dash_pattern: None,
    }
}

/// Appends the French-ruled lines of `line_set` to `result`, or reports the
/// first broken rule and leaves `result` as it was.
pub fn create_seyes_lines(
    line_set: &SeyesLineSet,
    paper_size: &PaperSize,
    result: &mut Vec<LineDef>,
) -> (r: Result<(), Error>)
    ensures
        match seyes_error(*line_set, *paper_size) {
            Some(e) => r == Err::<(), Error>(e) && final(result)@ == old(result)@,
            None => r is Ok && final(result)@ == old(result)@ + seyes_lines(
                *line_set,
                *paper_size,
            ),
        },
{
    if paper_size.width <= 0 {
        return Err(Error::PaperWidthIsNotPositive(paper_size.width));
    }
    if paper_size.height <= 0 {
        return Err(Error::PaperHeightIsNotPositive(paper_size.height));
    }
    if line_set.y_spacing <= 0 {
        return Err(Error::YSpacingIsNotPositive(line_set.y_spacing));
    }
    if line_set.top_margin <= 0 {
        return Err(Error::TopMarginIsNotPositive(line_set.top_margin));
    }
    if line_set.bottom_margin <= 0 {
        return Err(Error::BottomMarginIsNotPositive(line_set.bottom_margin));
    }
    let ghost initial = result@;
    let ghost y0 = seyes_top(*line_set, *paper_size);
    let ghost m = seyes_block_count(*line_set, *paper_size);
    let ghost blocks = Seq::new(
        4 * m,
        |t: int| seyes_block_line(*line_set, *paper_size, t),
    );
    let sp = line_set.y_spacing as i64;
    let bottom = line_set.bottom_margin as i64;
    let mut y: i64 = paper_size.height as i64 - line_set.top_margin as i64;
    if y >= bottom {
        result.push(seyes_segment(line_set, paper_size, y, false));
    }
    y = y - sp;
    if y >= bottom {
        result.push(seyes_segment(line_set, paper_size, y, false));
    }
    assert(result@ =~= initial + seyes_head(*line_set, *paper_size));
    let ghost head = result@;
    let ghost mut j: int = 0;
    assert(y == y0 - sp);
    assert(4 * j * sp == 0) by (nonlinear_arith)
        requires
            j == 0,
    ;
    while y + 4 * sp >= bottom
        invariant
            seyes_error(*line_set, *paper_size) is None,
            sp == line_set.y_spacing,
            bottom == line_set.bottom_margin,
            y0 == seyes_top(*line_set, *paper_size),
            m == seyes_block_count(*line_set, *paper_size),
            blocks == Seq::new(4 * m, |t: int| seyes_block_line(*line_set, *paper_size, t)),
            0 <= j <= m,
            y == y0 - sp - 4 * j * sp,
            -0x10_0000_0000 <= y <= 0x8000_0000,
            result@ == head + blocks.take(4 * j),
        decreases m - j,
    {
        proof {
            lemma_steps_within(y0 + 3 * sp - bottom, 4 * sp, j);
            assert(j * (4 * sp) == 4 * j * sp) by (nonlinear_arith);
        }
        let ghost before = result@;
        result.push(seyes_segment(line_set, paper_size, y - sp, false));
        result.push(seyes_segment(line_set, paper_size, y - 2 * sp, true));
        result.push(seyes_segment(line_set, paper_size, y - 3 * sp, false));
        result.push(seyes_segment(line_set, paper_size, y - 4 * sp, false));
        proof {
            let t = 4 * j;
            assert(y - sp == y0 - (t + 2) * sp && y - 2 * sp == y0 - (t + 3) * sp && y - 3 * sp
                == y0 - (t + 4) * sp && y - 4 * sp == y0 - (t + 5) * sp) by (nonlinear_arith)
                requires
                    y == y0 - sp - 4 * j * sp,
                    t == 4 * j,
            ;
            assert(t % 4 == 0 && (t + 1) % 4 == 1 && (t + 2) % 4 == 2 && (t + 3) % 4 == 3);
            assert(result@ =~= head + blocks.take(4 * (j + 1)));
            j = j + 1;
            assert(y - 4 * sp == y0 - sp - 4 * j * sp) by (nonlinear_arith)
                requires
                    y == y0 - sp - 4 * (j - 1) * sp,
            ;
        }
        y = y - 4 * sp;
    }
    proof {
        lemma_steps_within(y0 + 3 * sp - bottom, 4 * sp, j);
        assert(j * (4 * sp) == 4 * j * sp) by (nonlinear_arith);
        assert(result@ =~= initial + seyes_lines(*line_set, *paper_size));
    }
    Ok(())
}

} // verus!
