use vstd::prelude::*;


verus! {

/// Options of a slant line set given on the command line; none exist yet.
#[derive(Debug, Clone, Copy, PartialEq, Eq, Structural)]
pub struct SlantLineOpt {}

/// What the program was asked to do.
#[derive(Debug, Clone)]
pub struct CmdLineOpts {
    /// Path of the paper and line set definition file.
    pub input_yaml: String,
    /// Path of the document to write.
    pub output_pdf: String,
    /// Number of pages to generate.
    pub num_pages: u32,
}

/// The outcome of reading the command line: options to run with, or a help
/// text to print.
#[derive(Debug, Clone)]
pub enum CmdLine {
    Opts(CmdLineOpts),
    Help(String),
}

} // verus!
