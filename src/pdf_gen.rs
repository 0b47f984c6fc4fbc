use vstd::prelude::*;

use crate::geometry_def::{CmykDef, DashPatternDef, LineDef, PaperSize};

verus! {

/// Fewest pages a document may have.
pub const MIN_NUM_PAGES: u32 = 1;

/// Most pages a document may have.
pub const MAX_NUM_PAGES: u32 = 10000;

/// Why a document cannot be laid out.
#[derive(Debug, Clone, Copy, PartialEq, Eq, Structural)]
pub enum Error {
    InvalidNumberOfPages { num_pages: u32, min: u32, max: u32 },
}

/// Accepts a page count within `[MIN_NUM_PAGES, MAX_NUM_PAGES]`.
pub fn check_num_pages(num_pages: u32) -> (r: Result<(), Error>)
    ensures
        (MIN_NUM_PAGES <= num_pages <= MAX_NUM_PAGES) ==> r is Ok,
        !(MIN_NUM_PAGES <= num_pages <= MAX_NUM_PAGES) ==> r == Err::<(), Error>(
            Error::InvalidNumberOfPages { num_pages, min: MIN_NUM_PAGES, max: MAX_NUM_PAGES },
        ),
{
    if num_pages < MIN_NUM_PAGES || num_pages > MAX_NUM_PAGES {
        return Err(
            Error::InvalidNumberOfPages { num_pages, min: MIN_NUM_PAGES, max: MAX_NUM_PAGES },
        );
    }
    Ok(())
}

/// A segment resolved to absolute page positions (micrometres from the
/// bottom-left corner), with the stroke state to set before drawing it.
#[derive(Debug, Clone, Copy, PartialEq, Eq, Structural)]
pub struct Stroke {
    pub x0: i128,
    pub y0: i128,
    pub x1: i128,
    pub y1: i128,
    pub thickness: i32,
    pub color: CmykDef,
    pub dash_pattern: Option<DashPatternDef>,
}

/// The dash pattern actually stroked: one with a negative dash or gap is
/// drawn solid.
pub open spec fn stroke_dash(dash_pattern: Option<DashPatternDef>) -> Option<DashPatternDef> {
    match dash_pattern {
        Some(d) => if d.dash < 0 || (d.gap is Some && d.gap->0 < 0) {
            None
        } else {
            Some(d)
        },
        None => None,
    }
}

/// How `line` is stroked on paper of the given size.
pub open spec fn stroke_of(line: LineDef, paper_size: PaperSize) -> Stroke {
    Stroke {
        x0: line.start.x.at(paper_size.width as int) as i128,
        y0: line.start.y.at(paper_size.height as int) as i128,
        x1: line.end.x.at(paper_size.width as int) as i128,
        y1: line.end.y.at(paper_size.height as int) as i128,
        thickness: line.thickness,
        color: line.color,
        dash_pattern: stroke_dash(line.dash_pattern),
    }
}

fn effective_dash(dash_pattern: Option<DashPatternDef>) -> (r: Option<DashPatternDef>)
    ensures
        r == stroke_dash(dash_pattern),
{
    match dash_pattern {
        Some(d) => {
            let negative_gap = match d.gap {
                Some(g) => g < 0,
                None => false,
            };
            if d.dash < 0 || negative_gap {
                None
            } else {
                Some(d)
            }
        },
        None => None,
    }
}

/// Resolves one segment against the paper.
pub fn stroke(line: &LineDef, paper_size: &PaperSize) -> (r: Stroke)
    ensures
        r == stroke_of(*line, *paper_size),
{
    Stroke {
        x0: line.start.x_coord(paper_size),
        y0: line.start.y_coord(paper_size),
        x1: line.end.x_coord(paper_size),
        y1: line.end.y_coord(paper_size),
        thickness: line.thickness,
        color: line.color,
        dash_pattern: effective_dash(line.dash_pattern),
    }
}

/// The strokes of one page: every segment, in order, after checking the
/// page count. Every page of the document carries these same strokes.
pub fn page_strokes(paper_size: &PaperSize, lines: &Vec<LineDef>, num_pages: u32) -> (r: Result<
    Vec<Stroke>,
    Error,
>)
    ensures
        (MIN_NUM_PAGES <= num_pages <= MAX_NUM_PAGES) ==> r is Ok && r->Ok_0@ == lines@.map_values(
            |l: LineDef| stroke_of(l, *paper_size),
        ),
        !(MIN_NUM_PAGES <= num_pages <= MAX_NUM_PAGES) ==> r == Err::<Vec<Stroke>, Error>(
            Error::InvalidNumberOfPages { num_pages, min: MIN_NUM_PAGES, max: MAX_NUM_PAGES },
        ),
{
    check_num_pages(num_pages)?;
    let mut strokes: Vec<Stroke> = Vec::new();
    let mut i: usize = 0;
    while i < lines.len()
        invariant
            0 <= i <= lines@.len(),
            strokes@ == lines@.take(i as int).map_values(|l: LineDef| stroke_of(l, *paper_size)),
        decreases lines@.len() - i,
    {
        strokes.push(stroke(&lines[i], paper_size));
        assert(lines@.take(i + 1).drop_last() =~= lines@.take(i as int));
        assert(strokes@ =~= lines@.take(i + 1).map_values(|l: LineDef| stroke_of(l, *paper_size)));
        i = i + 1;
    }
    assert(lines@.take(lines@.len() as int) =~= lines@);
    Ok(strokes)
}

} // verus!
