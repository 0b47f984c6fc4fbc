//! Expansion of declarative ruled-paper descriptions into line segments.
//!
//! Lengths are integers in micrometres, line thickness in thousandths of a
//! point, colour channels in ten-thousandths (10000 is full ink) and angles in
//! hundredths of a degree.
pub mod geometry_def;
pub mod slant_lines_gen;
pub mod seyes_lines_gen;
pub mod horizontal_lines_gen;
pub mod vertical_lines_gen;
pub mod pipeline;
pub mod pdf_gen;
pub mod cmd_line;
