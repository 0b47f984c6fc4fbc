use lined_paper_pdf::geometry_def::coord::Coord;
use lined_paper_pdf::geometry_def::{
    CmykDef, GeometryDef, HorizontalLineSet, LineDef, LineSet, PaperSize, PointDef, SeyesLineSet, SlantLineSet,
    Slope, VerticalLineSet,
};
use lined_paper_pdf::pipeline::{create_lines, Error};
use lined_paper_pdf::{horizontal_lines_gen, seyes_lines_gen, slant_lines_gen, vertical_lines_gen};

const LETTER_PORTRAIT: PaperSize = PaperSize { width: 215900, height: 279400 };
const PINK: CmykDef = CmykDef(200, 3400, 0, 1200);

fn single_line() -> LineDef {
    LineDef {
        start: PointDef { x: Coord::OffZero(30000), y: Coord::OffFarEdge(0) },
        end: PointDef { x: Coord::OffZero(30000), y: Coord::OffZero(0) },
        thickness: 400,
        color: CmykDef(0, 3600, 2600, 400),
        dash_pattern: None,
    }
}

fn slant() -> SlantLineSet {
    let a = 52f64.to_radians();
    SlantLineSet {
        x_spacing: 10000,
        slant_angle: 5200,
        slope: Slope { rise: (a.sin() * 1e9).round() as u32, run: (a.cos() * 1e9).round() as u32 },
        thickness: 100,
        color: PINK,
    }
}

fn seyes() -> SeyesLineSet {
    SeyesLineSet {
        y_spacing: 2000,
        top_margin: 30000,
        bottom_margin: 20000,
        base_thickness: 400,
        base_color: PINK,
        aux_thickness: 100,
        aux_color: PINK,
    }
}

fn seyes_slant_letter() -> GeometryDef {
    GeometryDef {
        paper_size: LETTER_PORTRAIT,
        line_sets: vec![LineSet::Slant(slant()), LineSet::Seyes(seyes()), LineSet::SingleLine(single_line())],
    }
}

#[test]
fn single_line_passes_through_unchanged() {
    let gdef = GeometryDef { paper_size: LETTER_PORTRAIT, line_sets: vec![LineSet::SingleLine(single_line())] };
    let lines = create_lines(&gdef).unwrap();
    assert_eq!(lines, vec![single_line()]);
    assert_eq!(lines[0].start.x_coord(&gdef.paper_size), 30000);
    assert_eq!(lines[0].start.y_coord(&gdef.paper_size), 279400);
    assert_eq!(lines[0].end.y_coord(&gdef.paper_size), 0);
}

#[test]
fn line_sets_concatenate_in_declaration_order() {
    let gdef = seyes_slant_letter();
    let lines = create_lines(&gdef).unwrap();
    let mut expected: Vec<LineDef> = Vec::new();
    slant_lines_gen::create_slant_lines(&slant(), &LETTER_PORTRAIT, &mut expected).unwrap();
    seyes_lines_gen::create_seyes_lines(&seyes(), &LETTER_PORTRAIT, &mut expected).unwrap();
    expected.push(single_line());
    assert_eq!(lines, expected);
}

#[test]
fn expansion_is_repeatable() {
    let first = create_lines(&seyes_slant_letter()).unwrap();
    let second = create_lines(&seyes_slant_letter()).unwrap();
    assert!(!first.is_empty());
    assert_eq!(first, second);
}

#[test]
fn empty_description_gives_no_lines() {
    let gdef = GeometryDef { paper_size: LETTER_PORTRAIT, line_sets: Vec::new() };
    assert_eq!(create_lines(&gdef), Ok(Vec::new()));
}

#[test]
fn first_failing_line_set_decides_the_error() {
    let bad_h = HorizontalLineSet {
        y_spacing: 0,
        top_margin: 1,
        bottom_margin: 1,
        thickness: 1,
        color: PINK,
        dash_pattern: None,
    };
    let bad_v = VerticalLineSet { x_spacing: 1, left_margin: 0, right_margin: 1, thickness: 1, color: PINK, dash_pattern: None };
    let gdef = GeometryDef {
        paper_size: LETTER_PORTRAIT,
        line_sets: vec![LineSet::SingleLine(single_line()), LineSet::HorizontalLines(bad_h), LineSet::VerticalLines(bad_v)],
    };
    assert_eq!(
        create_lines(&gdef),
        Err(Error::HorizontalLinesGenError(horizontal_lines_gen::Error::YSpacingIsNotPositive(0)))
    );
    let gdef = GeometryDef { paper_size: LETTER_PORTRAIT, line_sets: vec![LineSet::VerticalLines(bad_v)] };
    assert_eq!(
        create_lines(&gdef),
        Err(Error::VerticalLinesGenError(vertical_lines_gen::Error::LeftMarginIsNotPositive(0)))
    );
    let mut bad_slant = slant();
    bad_slant.slant_angle = 3000;
    let gdef = GeometryDef { paper_size: LETTER_PORTRAIT, line_sets: vec![LineSet::Slant(bad_slant)] };
    assert_eq!(
        create_lines(&gdef),
        Err(Error::SlantLinesGenError(slant_lines_gen::Error::SlantAngleIsOutOfRange {
            actual: 3000,
            min: 4500,
            max: 9000
        }))
    );
    let gdef = GeometryDef {
        paper_size: LETTER_PORTRAIT,
        line_sets: vec![LineSet::Seyes(SeyesLineSet { top_margin: 0, ..seyes() })],
    };
    assert_eq!(
        create_lines(&gdef),
        Err(Error::SeyesLinesGenError(seyes_lines_gen::Error::TopMarginIsNotPositive(0)))
    );
}
