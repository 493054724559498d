//! One correctness-gated histogram dispatch: upload the samples, run the
//! kernel variant over them, read the device's bucket counts back, and hold
//! them against the host-computed reference.

use vstd::prelude::*;
use crate::dispatch::{compute_launch_blocks, run_compute_shader};
use crate::error::HarnessError;
use crate::gpu::{ComputeContext, MAX_BINDING_WORDS};
use crate::kernel::KernelVariant;
use crate::oracle::{bins_of, compute_reference, count_eq, validate, words_of, Sample, ValidationResult};
use crate::params::ParameterBlock;
use crate::vector::DeviceVector;

verus! {

/// Whether one histogram dispatch of `variant` over `input` is within the
/// harness's stated limits: every sample falls below the bucket bound, the
/// sizes fit the device's counters and its storage-binding limit, and the
/// launch grid the variant implies fits in one dispatch.
pub open spec fn dispatch_admissible(
    input: Seq<Sample>,
    variant: KernelVariant,
    bin_count: int,
) -> bool {
    &&& 0 <= bin_count <= MAX_BINDING_WORDS as int
    &&& input.len() <= MAX_BINDING_WORDS as nat
    &&& (forall|i: int| 0 <= i < input.len() ==> (#[trigger] input[i].bin) < bin_count)
    &&& variant.elements_per_thread >= 1
    &&& variant.workgroup_size_x >= 1
    &&& input.len() as int / variant.elements_per_thread as int + variant.workgroup_size_x - 1
        <= usize::MAX
    &&& (input.len() as int / variant.elements_per_thread as int + variant.workgroup_size_x - 1)
        / variant.workgroup_size_x as int <= 65535
}

/// Runs `variant` once over `input` with `bin_count` buckets: computes the
/// reference counts on the host, uploads the sample words and a zeroed output
/// vector, dispatches, reads the device counts back and packages the
/// comparison. A kernel that fails to compile or bind surfaces as the
/// corresponding error; an answer that merely disagrees with the reference is
/// a *successful* dispatch whose `ValidationResult` reports the divergence.
/// An empty input needs no device work at all -- its launch grid is zero
/// workgroups, a no-op, so the zeroed output is validated against the
/// (all-zero) reference directly and the call always succeeds.
pub fn histogram(
    ctx: &ComputeContext,
    input: &Vec<Sample>,
    variant: &KernelVariant,
    bin_count: usize,
) -> (r: Result<ValidationResult, HarnessError>)
    requires
        dispatch_admissible(input@, *variant, bin_count as int),
    ensures
        r matches Ok(v) ==> {
            &&& v.expected@.len() == bin_count
            &&& (forall|b: int|
                0 <= b < bin_count ==> v.expected@[b] == count_eq(bins_of(input@), b as u32))
            &&& v.observed@.len() == bin_count
            &&& v.success == crate::oracle::spec_equivalent(v.expected@, v.observed@)
            &&& v.mismatch_count == crate::oracle::spec_mismatch_count(v.expected@, v.observed@)
        },
        input@.len() == 0 ==> (r matches Ok(v) && v.success),
        r matches Err(e) ==> (e is KernelCompilationError || e is BindingLayoutError),
{
    let element_count = input.len();
    let ground_truth = compute_reference(input, bin_count);
    let mut words: Vec<u32> = Vec::new();
    let mut i: usize = 0;
    while i < input.len()
        invariant
            i <= input@.len(),
            words@.len() == i,
            forall|j: int| 0 <= j < i ==> words@[j] == (#[trigger] input@[j]).word,
        decreases input@.len() - i,
    {
        words.push(input[i].word);
        i += 1;
    }
    proof {
        assert(words@ =~= words_of(input@));
    }
    let mut zeros: Vec<u32> = Vec::new();
    while zeros.len() < bin_count
        invariant
            zeros@.len() <= bin_count,
            forall|b: int| 0 <= b < zeros@.len() ==> zeros@[b] == 0,
        decreases bin_count - zeros.len(),
    {
        zeros.push(0);
    }
    if element_count == 0 {
        proof {
            assert(forall|b: int|
                0 <= b < bin_count ==> #[trigger] count_eq(bins_of(input@), b as u32) == 0);
            assert(crate::oracle::spec_equivalent(ground_truth@, zeros@));
        }
        return Ok(validate(ground_truth, zeros));
    }
    let parameter_block = ParameterBlock::new(element_count as u32, 0, 0, 0);
    let mut inputs: Vec<DeviceVector> = Vec::new();
    inputs.push(DeviceVector::create(ctx, &words, false));
    let mut outputs: Vec<DeviceVector> = Vec::new();
    outputs.push(DeviceVector::create(ctx, &zeros, true));
    let launch_blocks_x = compute_launch_blocks(
        element_count,
        variant.elements_per_thread as usize,
        variant.workgroup_size_x as usize,
    );
    let run = run_compute_shader(
        ctx,
        variant.workgroup_size_x,
        launch_blocks_x,
        variant.workgroup_size_y,
        1,
        variant.specialized_source.as_str(),
        variant.entry_point_name.as_str(),
        &parameter_block,
        &mut inputs,
        &mut outputs,
    );
    match run {
        Err(e) => {
            return Err(e);
        },
        Ok(()) => {},
    }
    let observed_vector = match outputs.pop() {
        Some(v) => v,
        None => {
            proof {
                assert(false);
            }
            vstd::pervasive::unreached()
        },
    };
    Ok(validate(ground_truth, observed_vector.cpu_mirror))
}

} // verus!
