use lined_paper_pdf::geometry_def::{CmykDef, DashPatternDef, HorizontalLineSet, LineDef, PaperSize};
use lined_paper_pdf::horizontal_lines_gen::{create_horizontal_lines, Error};

const LETTER_PORTRAIT: PaperSize = PaperSize { width: 215900, height: 279400 };
const COLOR: CmykDef = CmykDef(200, 3400, 0, 1200);

fn set(y_spacing: i32, top_margin: i32, bottom_margin: i32) -> HorizontalLineSet {
    HorizontalLineSet {
        y_spacing,
        top_margin,
        bottom_margin,
        thickness: 800,
        color: COLOR,
        dash_pattern: Some(DashPatternDef { dash: 0, gap: Some(4) }),
    }
}

#[test]
fn horizontal_lines_letter_five_mm() {
    let mut result: Vec<LineDef> = Vec::new();
    create_horizontal_lines(&set(5000, 30000, 20000), &LETTER_PORTRAIT, &mut result).unwrap();
    assert_eq!(result.len(), 46);
    for (k, line) in result.iter().enumerate() {
        let y = 249400 - 5000 * k as i128;
        assert_eq!(line.start.y_coord(&LETTER_PORTRAIT), y);
        assert_eq!(line.end.y_coord(&LETTER_PORTRAIT), y);
        assert_eq!(line.start.x_coord(&LETTER_PORTRAIT), 0);
        assert_eq!(line.end.x_coord(&LETTER_PORTRAIT), 215900);
        assert_eq!(line.thickness, 800);
        assert_eq!(line.color, COLOR);
        assert_eq!(line.dash_pattern, Some(DashPatternDef { dash: 0, gap: Some(4) }));
    }
    assert_eq!(result.last().unwrap().start.y_coord(&LETTER_PORTRAIT), 24400);
}

#[test]
fn horizontal_lines_include_bottom_margin() {
    let paper = PaperSize { width: 50, height: 100 };
    let mut result: Vec<LineDef> = Vec::new();
    create_horizontal_lines(&set(10, 10, 10), &paper, &mut result).unwrap();
    let ys: Vec<i128> = result.iter().map(|l| l.start.y_coord(&paper)).collect();
    assert_eq!(ys, vec![90, 80, 70, 60, 50, 40, 30, 20, 10]);
}

#[test]
fn horizontal_lines_empty_when_margins_overlap() {
    let paper = PaperSize { width: 50, height: 100 };
    let mut result: Vec<LineDef> = Vec::new();
    create_horizontal_lines(&set(10, 95, 10), &paper, &mut result).unwrap();
    assert!(result.is_empty());
}

#[test]
fn horizontal_errors_in_order() {
    let mut result: Vec<LineDef> = Vec::new();
    let p = PaperSize { width: 0, height: 1 };
    assert_eq!(create_horizontal_lines(&set(1, 1, 1), &p, &mut result), Err(Error::PaperWidthIsNotPositive(0)));
    let p = PaperSize { width: 1, height: -1 };
    assert_eq!(create_horizontal_lines(&set(1, 1, 1), &p, &mut result), Err(Error::PaperHeightIsNotPositive(-1)));
    let p = LETTER_PORTRAIT;
    assert_eq!(create_horizontal_lines(&set(0, 1, 1), &p, &mut result), Err(Error::YSpacingIsNotPositive(0)));
    assert_eq!(create_horizontal_lines(&set(1, -5, 1), &p, &mut result), Err(Error::TopMarginIsNotPositive(-5)));
    assert_eq!(create_horizontal_lines(&set(1, 1, 0), &p, &mut result), Err(Error::BottomMarginIsNotPositive(0)));
    assert!(result.is_empty());
}
