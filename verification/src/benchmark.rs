//! The benchmark driver: runs one kernel variant's dispatch-plus-validate
//! cycle repeatedly inside a wall-clock budget and reports how many
//! iterations fit. A validation failure halts the run -- timing from a
//! wrong-answer kernel is never reported.

use vstd::prelude::*;
use crate::error::HarnessError;
use crate::gpu::ComputeContext;
use crate::histogram::{dispatch_admissible, histogram};
use crate::kernel::KernelVariant;
use crate::oracle::{check_validation, Sample};

verus! {

#[verifier::external_type_specification]
#[verifier::external_body]
pub struct ExInstant(std::time::Instant);

/// Relies on `std::time::Instant::now`: reads the monotonic clock. Nothing
/// can be promised about the value read.
#[verifier::external_body]
fn now_instant() -> std::time::Instant {
    std::time::Instant::now()
}

/// Relies on `std::time::Instant::elapsed`: the wall-clock time since
/// `start`, on which nothing can be promised.
#[verifier::external_body]
fn elapsed_since(start: &std::time::Instant) -> std::time::Duration {
    start.elapsed()
}

/// Relies on `std::time::Duration::as_millis`: the duration in whole
/// milliseconds, on which nothing is promised beyond its type.
#[verifier::external_body]
fn duration_millis(d: &std::time::Duration) -> u128 {
    d.as_millis()
}

/// What one benchmarked variant reports: its name, how many full
/// dispatch-plus-validate iterations ran, and the wall-clock time they took.
/// No derived statistics: throughput is the report consumer's business.
pub struct BenchmarkReport {
    pub variant_name: String,
    pub iteration_count: usize,
    pub elapsed_ms: u128,
}

/// Benchmarks one kernel variant: loops dispatch, validate, count until the
/// elapsed wall-clock time reaches `time_budget_ms`. The budget is checked
/// only after a finished iteration, never before the first and never
/// mid-dispatch, so even a zero budget performs one full iteration. Each
/// iteration draws its input from `datasets` in rotation, and a report is
/// returned only once the measured elapsed time has reached the budget (or,
/// in principle, the iteration counter is exhausted). The first validation
/// failure aborts the run with `ValidationFailure` instead of a report, as
/// does a kernel that fails to compile or bind.
pub fn benchmark(
    ctx: &ComputeContext,
    name: &str,
    variant: &KernelVariant,
    time_budget_ms: u64,
    datasets: &Vec<Vec<Sample>>,
    bin_count: usize,
) -> (r: Result<BenchmarkReport, HarnessError>)
    requires
        datasets@.len() >= 1,
        forall|d: int|
            0 <= d < datasets@.len() ==> dispatch_admissible(
                (#[trigger] datasets@[d])@,
                *variant,
                bin_count as int,
            ),
    ensures
        r matches Ok(report) ==> report.iteration_count >= 1 && report.variant_name@ == name@,
        r matches Ok(report) ==> report.elapsed_ms >= time_budget_ms as u128
            || report.iteration_count == usize::MAX,
        r matches Err(e) ==> (e is KernelCompilationError || e is BindingLayoutError
            || e is ValidationFailure),
{
    let start = now_instant();
    let mut iterations: usize = 0;
    loop
        invariant
            datasets@.len() >= 1,
            forall|d: int|
                0 <= d < datasets@.len() ==> dispatch_admissible(
                    (#[trigger] datasets@[d])@,
                    *variant,
                    bin_count as int,
                ),
        decreases usize::MAX - iterations,
    {
        let input = &datasets[iterations % datasets.len()];
        let outcome = match histogram(ctx, input, variant, bin_count) {
            Ok(v) => v,
            Err(e) => {
                return Err(e);
            },
        };
        match check_validation(&outcome) {
            Ok(()) => {},
            Err(e) => {
                return Err(e);
            },
        }
        if iterations < usize::MAX {
            iterations += 1;
        }
        let elapsed = duration_millis(&elapsed_since(&start));
        if elapsed >= time_budget_ms as u128 || iterations == usize::MAX {
            return Ok(
                BenchmarkReport {
                    variant_name: name.to_owned(),
                    iteration_count: iterations,
                    elapsed_ms: elapsed,
                },
            );
        }
    }
}

} // verus!
