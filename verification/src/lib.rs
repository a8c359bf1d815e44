//! Checks whether URLs are reachable: a single URL, or every URL found in
//! designated columns of a tabular dataset, each row augmented with one
//! reachability verdict per URL column.

pub mod augment;
pub mod batch;
pub mod columns;
pub mod outcome;
pub mod probe;
