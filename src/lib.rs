//! Turns ABI definition files written as JSON into TypeScript modules that
//! export the same data as one named constant.
//!
//! `naming` derives the constant's identifier and the module's file name from
//! the input file's stem, `convert` renders a module from a file's text, and
//! `batch` decides, pattern by pattern and file by file, what the driver of a
//! batch does next.
pub mod naming;
pub mod convert;
pub mod batch;
