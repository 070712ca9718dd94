//! Measurement engine of a fork microbenchmark: the test matrix, the
//! statistics shared with worker processes, the decisions of the top-level
//! driver and of each worker, and the affinity helpers they rely on.

pub mod affinity;
pub mod driver;
pub mod matrix;
pub mod stats;
pub mod worker;
