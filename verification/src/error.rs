//! The harness's error taxonomy. Every failure is fatal for the run it occurs
//! in: none of these conditions is transient, so nothing is retried.

use vstd::prelude::*;

verus! {

/// What can go wrong between building a kernel variant and reporting a
/// benchmark result.
#[derive(Debug)]
pub enum HarnessError {
    /// A vector was read back without readback enabled: a caller bug.
    ConfigurationError,
    /// The specialized kernel source failed to compile; the message names the
    /// offending construct.
    KernelCompilationError { message: String },
    /// The kernel's declared bindings do not match the parameter-block /
    /// inputs / outputs order and arity the orchestrator binds.
    BindingLayoutError { message: String },
    /// The device result diverged from the host-computed reference; timing
    /// collected from a wrong-answer kernel is never reported.
    ValidationFailure { mismatch_count: usize },
}

impl HarnessError {
    /// A short stable tag for each failure kind, for diagnostics.
    pub fn describe(&self) -> (r: &'static str)
        ensures
            (self is ConfigurationError) ==> r@ == "configuration error"@,
            (self is KernelCompilationError) ==> r@ == "kernel compilation error"@,
            (self is BindingLayoutError) ==> r@ == "binding layout error"@,
            (self is ValidationFailure) ==> r@ == "validation failure"@,
    {
        match self {
            HarnessError::ConfigurationError => "configuration error",
            HarnessError::KernelCompilationError { .. } => "kernel compilation error",
            HarnessError::BindingLayoutError { .. } => "binding layout error",
            HarnessError::ValidationFailure { .. } => "validation failure",
        }
    }
}

} // verus!
