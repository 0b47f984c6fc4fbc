use vstd::prelude::*;

use crate::geometry_def::{GeometryDef, LineDef, LineSet, PaperSize};
use crate::horizontal_lines_gen::{self, create_horizontal_lines, horizontal_error, horizontal_lines};
use crate::seyes_lines_gen::{self, create_seyes_lines, seyes_error, seyes_lines};
use crate::slant_lines_gen::{self, create_slant_lines, slant_error, slant_lines};
use crate::vertical_lines_gen::{self, create_vertical_lines, vertical_error, vertical_lines};

verus! {

/// Why a page description cannot be expanded: the error of the first line
/// set that fails.
#[derive(Debug, Clone, Copy, PartialEq, Eq, Structural)]
pub enum Error {
    SlantLinesGenError(slant_lines_gen::Error),
    SeyesLinesGenError(seyes_lines_gen::Error),
    HorizontalLinesGenError(horizontal_lines_gen::Error),
    VerticalLinesGenError(vertical_lines_gen::Error),
}

/// The segments of one line set; a single line is taken as it is.
pub open spec fn expand(line_set: LineSet, paper_size: PaperSize) -> Result<Seq<LineDef>, Error> {
    match line_set {
        LineSet::SingleLine(line) => Ok(seq![line]),
        LineSet::Slant(s) => match slant_error(s, paper_size) {
            Some(e) => Err(Error::SlantLinesGenError(e)),
            None => Ok(slant_lines(s, paper_size)),
        },
        LineSet::Seyes(s) => match seyes_error(s, paper_size) {
            Some(e) => Err(Error::SeyesLinesGenError(e)),
            None => Ok(seyes_lines(s, paper_size)),
        },
        LineSet::HorizontalLines(s) => match horizontal_error(s, paper_size) {
            Some(e) => Err(Error::HorizontalLinesGenError(e)),
            None => Ok(horizontal_lines(s, paper_size)),
        },
        LineSet::VerticalLines(s) => match vertical_error(s, paper_size) {
            Some(e) => Err(Error::VerticalLinesGenError(e)),
            None => Ok(vertical_lines(s, paper_size)),
        },
    }
}

/// The segments of all line sets, concatenated in order, or the first error.
pub open spec fn expand_all(line_sets: Seq<LineSet>, paper_size: PaperSize) -> Result<Seq<LineDef>, Error>
    decreases line_sets.len(),
{
    if line_sets.len() == 0 {
        Ok(Seq::empty())
    } else {
        match expand_all(line_sets.drop_last(), paper_size) {
            Err(e) => Err(e),
            Ok(front) => match expand(line_sets.last(), paper_size) {
                Err(e) => Err(e),
                Ok(back) => Ok(front + back),
            },
        }
    }
}

/// Expands every line set of `gdef`, in declaration order, into one list of
/// segments; fails with the first line set's error.
pub fn create_lines(gdef: &GeometryDef) -> (r: Result<Vec<LineDef>, Error>)
    ensures
        match expand_all(gdef.line_sets@, gdef.paper_size) {
            Ok(lines) => r is Ok && r->Ok_0@ == lines,
            Err(e) => r == Err::<Vec<LineDef>, Error>(e),
        },
{
    let mut lines: Vec<LineDef> = Vec::new();
    let n = gdef.line_sets.len();
    let mut i: usize = 0;
    assert(gdef.line_sets@.take(0) =~= Seq::<LineSet>::empty());
    while i < n
        invariant
            n == gdef.line_sets@.len(),
            0 <= i <= n,
            expand_all(gdef.line_sets@.take(i as int), gdef.paper_size) == Ok::<Seq<LineDef>, Error>(
                lines@,
            ),
        decreases n - i,
    {
        let ghost done = gdef.line_sets@.take(i as int);
        let ghost before = lines@;
        assert(gdef.line_sets@.take(i + 1).drop_last() =~= done);
        assert(gdef.line_sets@.take(i + 1).last() == gdef.line_sets@[i as int]);
        let paper_size = &gdef.paper_size;
        match &gdef.line_sets[i] {
            LineSet::SingleLine(line) => {
                lines.push(*line);
                assert(lines@ =~= before + seq![*line]);
            },
            LineSet::Slant(s) => {
                if let Err(e) = create_slant_lines(s, paper_size, &mut lines) {
                    proof {
                        lemma_expand_all_error_sticks(gdef.line_sets@, gdef.paper_size, i + 1);
                    }
                    return Err(Error::SlantLinesGenError(e));
                }
            },
            LineSet::Seyes(s) => {
                if let Err(e) = create_seyes_lines(s, paper_size, &mut lines) {
                    proof {
                        lemma_expand_all_error_sticks(gdef.line_sets@, gdef.paper_size, i + 1);
                    }
                    return Err(Error::SeyesLinesGenError(e));
                }
            },
            LineSet::HorizontalLines(s) => {
                if let Err(e) = create_horizontal_lines(s, paper_size, &mut lines) {
                    proof {
                        lemma_expand_all_error_sticks(gdef.line_sets@, gdef.paper_size, i + 1);
                    }
                    return Err(Error::HorizontalLinesGenError(e));
                }
            },
            LineSet::VerticalLines(s) => {
                if let Err(e) = create_vertical_lines(s, paper_size, &mut lines) {
                    proof {
                        lemma_expand_all_error_sticks(gdef.line_sets@, gdef.paper_size, i + 1);
                    }
                    return Err(Error::VerticalLinesGenError(e));
                }
            },
        }
        i = i + 1;
    }
    assert(gdef.line_sets@.take(n as int) =~= gdef.line_sets@);
    Ok(lines)
}

/// Expanding the same page description twice gives the same segments, or
/// the same error.
pub proof fn lemma_create_lines_repeatable(first: GeometryDef, second: GeometryDef)
    requires
        first.paper_size == second.paper_size,
        first.line_sets@ == second.line_sets@,
    ensures
        expand_all(first.line_sets@, first.paper_size) == expand_all(
            second.line_sets@,
            second.paper_size,
        ),
{
}

/// Once a prefix of the line sets fails, the whole list fails with the same error.
proof fn lemma_expand_all_error_sticks(line_sets: Seq<LineSet>, paper_size: PaperSize, j: int)
    requires
        0 <= j <= line_sets.len(),
    ensures
        expand_all(line_sets.take(j), paper_size) is Err ==> expand_all(line_sets, paper_size)
            == expand_all(line_sets.take(j), paper_size),
    decreases line_sets.len(),
{
    if j == line_sets.len() {
        assert(line_sets.take(j) =~= line_sets);
    } else {
        assert(line_sets.drop_last().take(j) =~= line_sets.take(j));
        lemma_expand_all_error_sticks(line_sets.drop_last(), paper_size, j);
    }
}

} // verus!
