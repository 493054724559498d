//! A GPU compute-kernel benchmarking harness: typed vectors moved to and from
//! an accelerator, parameterized compute dispatches over them, and a
//! host-computed correctness oracle that gates timing runs under a wall-clock
//! budget.

pub mod arguments;
pub mod benchmark;
pub mod dispatch;
pub mod error;
pub mod gpu;
pub mod histogram;
pub mod kernel;
pub mod machinery;
pub mod oracle;
pub mod params;
pub mod timing;
pub mod vector;
