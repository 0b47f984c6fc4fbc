use lined_paper_pdf::geometry_def::{CmykDef, LineDef, PaperSize, SeyesLineSet};
use lined_paper_pdf::seyes_lines_gen::{create_seyes_lines, Error};

const LETTER_PORTRAIT: PaperSize = PaperSize { width: 215900, height: 279400 };
const BASE: CmykDef = CmykDef(200, 3400, 0, 1200);
const AUX: CmykDef = CmykDef(0, 3600, 2600, 400);

fn seyes_set() -> SeyesLineSet {
    SeyesLineSet {
        y_spacing: 2000,
        top_margin: 30000,
        bottom_margin: 20000,
        base_thickness: 400,
        base_color: BASE,
        aux_thickness: 100,
        aux_color: AUX,
    }
}

fn y_of(line: &LineDef) -> i128 {
    line.start.y_coord(&LETTER_PORTRAIT)
}

#[test]
fn seyes_letter_first_lines() {
    let mut result: Vec<LineDef> = Vec::new();
    create_seyes_lines(&seyes_set(), &LETTER_PORTRAIT, &mut result).unwrap();
    let expected = [
        (249400, false),
        (247400, false),
        (245400, false),
        (243400, true),
        (241400, false),
        (239400, false),
    ];
    for (line, (y, base)) in result.iter().zip(expected.iter()) {
        assert_eq!(y_of(line), *y);
        assert_eq!(line.end.y_coord(&LETTER_PORTRAIT), *y);
        assert_eq!(line.start.x_coord(&LETTER_PORTRAIT), 0);
        assert_eq!(line.end.x_coord(&LETTER_PORTRAIT), 215900);
        if *base {
            assert_eq!((line.thickness, line.color), (400, BASE));
        } else {
            assert_eq!((line.thickness, line.color), (100, AUX));
        }
    }
}

#[test]
fn seyes_letter_motif_repeats_to_lookahead_bound() {
    let mut result: Vec<LineDef> = Vec::new();
    create_seyes_lines(&seyes_set(), &LETTER_PORTRAIT, &mut result).unwrap();
    // Blocks continue while y + 4 * 2000 >= 20000, from y = 247400 down by 8000.
    assert_eq!(result.len(), 2 + 4 * 30);
    for (i, line) in result.iter().enumerate() {
        assert_eq!(y_of(line), 249400 - 2000 * i as i128);
        let base = i >= 2 && (i - 2) % 4 == 1;
        assert_eq!(line.thickness, if base { 400 } else { 100 });
    }
    assert_eq!(y_of(result.last().unwrap()), 7400);
}

#[test]
fn seyes_leading_lines_below_bottom_margin_are_skipped() {
    let paper = PaperSize { width: 10000, height: 10000 };
    let set = SeyesLineSet { y_spacing: 1000, top_margin: 5000, bottom_margin: 5500, ..seyes_set() };
    let mut result: Vec<LineDef> = Vec::new();
    create_seyes_lines(&set, &paper, &mut result).unwrap();
    // Both leading lines fall below the margin; one block still follows.
    let ys: Vec<i128> = result.iter().map(|l| l.start.y_coord(&paper)).collect();
    assert_eq!(ys, vec![3000, 2000, 1000, 0]);
    assert_eq!(result[1].thickness, 400);
}

#[test]
fn seyes_errors_in_order() {
    let mut result: Vec<LineDef> = Vec::new();
    let bad_paper = PaperSize { width: 0, height: 0 };
    assert_eq!(create_seyes_lines(&seyes_set(), &bad_paper, &mut result), Err(Error::PaperWidthIsNotPositive(0)));
    let short = PaperSize { width: 1, height: -3 };
    assert_eq!(create_seyes_lines(&seyes_set(), &short, &mut result), Err(Error::PaperHeightIsNotPositive(-3)));
    let set = SeyesLineSet { y_spacing: -2, ..seyes_set() };
    assert_eq!(create_seyes_lines(&set, &LETTER_PORTRAIT, &mut result), Err(Error::YSpacingIsNotPositive(-2)));
    let set = SeyesLineSet { top_margin: 0, ..seyes_set() };
    assert_eq!(create_seyes_lines(&set, &LETTER_PORTRAIT, &mut result), Err(Error::TopMarginIsNotPositive(0)));
    let set = SeyesLineSet { bottom_margin: 0, ..seyes_set() };
    assert_eq!(create_seyes_lines(&set, &LETTER_PORTRAIT, &mut result), Err(Error::BottomMarginIsNotPositive(0)));
    assert!(result.is_empty());
}
