//! The core of a command line front end for a lighting bridge: the reading of
//! typed values from the text of arguments, and the gathering of the changes
//! that the arguments ask for into sparse records, which are submitted only
//! where they change anything.
//!
//! - [`arg::value`] reads single values: percentages and 16-bit numbers with
//!   an optional sign, hexadecimal colours, pairs of coordinates, and words
//!   of closed vocabularies.
//! - [`model`] holds the records of changes, with a field for each thing that
//!   can be changed and nothing set at first.
//! - [`arg`] turns the arguments of a run into the operation to ask of the
//!   bridge, and the arguments of a change into the submissions to make.
//! - [`submission`] follows the course of the submissions of one run.
//! - [`numeral`], [`decimal`] and [`text`] hold the notations that the values
//!   are written in.

pub mod arg;
pub mod decimal;
pub mod model;
pub mod numeral;
pub mod submission;
pub mod text;
