//! The compute dispatch orchestrator: compiles a specialized kernel, binds
//! the parameter block and the vectors to sequential slots in a fixed
//! declared order, submits a single dispatch, and reads back every output
//! vector that was created with readback enabled.

use vstd::prelude::*;
use crate::error::HarnessError;
use crate::gpu::{
    bind_group_buffers,
    buffer_words,
    compile_kernel,
    make_bind_group,
    make_buffer,
    make_pipeline,
    storage_layout_entry,
    uniform_layout_entry,
    BufferKind,
    ComputeContext,
};
use crate::params::ParameterBlock;
use crate::vector::{buffers_of, dispatch_preserves_vector, submit_dispatch, DeviceVector};

verus! {

/// What a successful dispatch guarantees for each input vector: the kernel
/// may have rewritten the device buffer's contents but nothing else -- the
/// CPU mirror, the readback setup and all lengths are untouched.
pub open spec fn input_settled(pre: DeviceVector, post: DeviceVector) -> bool {
    post.wf() && dispatch_preserves_vector(pre, post)
}

/// What a successful dispatch guarantees for each output vector: lengths and
/// readback setup are untouched, and a readback-enabled vector's CPU mirror
/// now holds exactly the device buffer's post-kernel contents, while any
/// other output keeps its mirror unchanged.
pub open spec fn output_settled(pre: DeviceVector, post: DeviceVector) -> bool {
    &&& post.wf()
    &&& post.supports_readback == pre.supports_readback
    &&& post.cpu_mirror@.len() == pre.cpu_mirror@.len()
    &&& (pre.supports_readback ==> post.cpu_mirror@ == buffer_words(post.buffer))
    &&& (!pre.supports_readback ==> post.cpu_mirror == pre.cpu_mirror)
}

/// Holds for each post-dispatch element and its state after the readback
/// sweep.
spec fn readback_settles(mid: DeviceVector, post: DeviceVector) -> bool {
    &&& post.wf()
    &&& post.supports_readback == mid.supports_readback
    &&& post.cpu_mirror@.len() == mid.cpu_mirror@.len()
    &&& (mid.supports_readback ==> post.buffer == mid.buffer && post.cpu_mirror@ == buffer_words(
        mid.buffer,
    ))
    &&& (!mid.supports_readback ==> post == mid)
}

/// The number of workgroups to launch along one dimension so that
/// `launch_blocks * workgroup_size * elements_per_thread` reaches the element
/// count: the rounded-up quotient of the per-thread work items by the
/// workgroup size.
pub fn compute_launch_blocks(
    element_count: usize,
    elements_per_thread: usize,
    workgroup_size: usize,
) -> (r: u32)
    requires
        elements_per_thread >= 1,
        workgroup_size >= 1,
        element_count as int / elements_per_thread as int + workgroup_size - 1 <= usize::MAX,
        (element_count as int / elements_per_thread as int + workgroup_size - 1)
            / workgroup_size as int <= u32::MAX,
    ensures
        r == (element_count as int / elements_per_thread as int + workgroup_size - 1)
            / workgroup_size as int,
{
    ((element_count / elements_per_thread + (workgroup_size - 1)) / workgroup_size) as u32
}

/// Compiles `specialized_kernel_source`, maps the parameter block followed by
/// each input vector followed by each output vector to sequential binding
/// slots in that fixed order, uploads the parameter block, submits one
/// dispatch of `(launch_blocks_x, launch_blocks_y, 1)` workgroups, and reads
/// back every readback-enabled output before returning.
///
/// The caller chooses the launch grid; whether it covers the problem size is
/// deliberately not checked here -- out-of-range indexing inside the kernel
/// is the caller's responsibility. The workgroup shape is carried alongside
/// the grid for the caller's geometry arithmetic; the kernel source itself
/// fixes the shape each workgroup actually executes with. A source that
/// fails to compile is reported
/// as `KernelCompilationError`; a binding order, arity or entry-point
/// mismatch as `BindingLayoutError`. Neither is retried, and on either error
/// every vector is returned untouched.
pub fn run_compute_shader(
    ctx: &ComputeContext,
    workgroup_size_x: u32,
    launch_blocks_x: u32,
    workgroup_size_y: u32,
    launch_blocks_y: u32,
    specialized_kernel_source: &str,
    entry_point: &str,
    parameter_block: &ParameterBlock,
    inputs: &mut Vec<DeviceVector>,
    outputs: &mut Vec<DeviceVector>,
) -> (r: Result<(), HarnessError>)
    requires
        launch_blocks_x <= 65535,
        launch_blocks_y <= 65535,
        old(inputs)@.len() + old(outputs)@.len() + 1 <= u32::MAX,
        forall|i: int| 0 <= i < old(inputs)@.len() ==> (#[trigger] old(inputs)@[i]).wf(),
        forall|i: int| 0 <= i < old(outputs)@.len() ==> (#[trigger] old(outputs)@[i]).wf(),
    ensures
        r is Ok ==> final(inputs)@.len() == old(inputs)@.len() && (forall|i: int|
            0 <= i < old(inputs)@.len() ==> input_settled(old(inputs)@[i], final(inputs)@[i])),
        r is Ok ==> final(outputs)@.len() == old(outputs)@.len() && (forall|i: int|
            0 <= i < old(outputs)@.len() ==> output_settled(old(outputs)@[i], final(outputs)@[i])),
        r matches Err(e) ==> (e is KernelCompilationError || e is BindingLayoutError)
            && final(inputs)@ == old(inputs)@ && final(outputs)@ == old(outputs)@,
{
    let module = match compile_kernel(ctx, specialized_kernel_source) {
        Ok(m) => m,
        Err(message) => {
            return Err(HarnessError::KernelCompilationError { message });
        },
    };
    let mut layout_entries: Vec<wgpu::BindGroupLayoutEntry> = Vec::new();
    layout_entries.push(uniform_layout_entry(0));
    let mut i: usize = 0;
    while i < inputs.len()
        invariant
            i <= inputs@.len(),
            inputs@.len() + outputs@.len() + 1 <= u32::MAX,
        decreases inputs@.len() - i,
    {
        layout_entries.push(storage_layout_entry((i as u32) + 1, true));
        i += 1;
    }
    let mut j: usize = 0;
    while j < outputs.len()
        invariant
            j <= outputs@.len(),
            inputs@.len() + outputs@.len() + 1 <= u32::MAX,
        decreases outputs@.len() - j,
    {
        layout_entries.push(storage_layout_entry((inputs.len() as u32) + 1 + (j as u32), false));
        j += 1;
    }
    let pipeline = match make_pipeline(ctx, &module, entry_point, &layout_entries) {
        Ok(p) => p,
        Err(message) => {
            return Err(HarnessError::BindingLayoutError { message });
        },
    };
    let parameter_words = parameter_block.to_words();
    let mut params_buffer = make_buffer(ctx, &parameter_words, BufferKind::Uniform);
    let mut bound: Vec<&wgpu::Buffer> = Vec::new();
    bound.push(&params_buffer);
    let mut i2: usize = 0;
    while i2 < inputs.len()
        invariant
            i2 <= inputs@.len(),
            bound@.len() == 1 + i2,
            *bound@[0] == params_buffer,
            forall|k: int| 1 <= k < bound@.len() ==> *(#[trigger] bound@[k]) == inputs@[k
                - 1].buffer,
        decreases inputs@.len() - i2,
    {
        bound.push(&inputs[i2].buffer);
        i2 += 1;
    }
    let mut j2: usize = 0;
    while j2 < outputs.len()
        invariant
            j2 <= outputs@.len(),
            bound@.len() == 1 + inputs@.len() + j2,
            *bound@[0] == params_buffer,
            forall|k: int|
                1 <= k < 1 + inputs@.len() ==> *(#[trigger] bound@[k]) == inputs@[k - 1].buffer,
            forall|k: int|
                1 + inputs@.len() <= k < bound@.len() ==> *(#[trigger] bound@[k]) == outputs@[k - 1
                    - inputs@.len()].buffer,
        decreases outputs@.len() - j2,
    {
        bound.push(&outputs[j2].buffer);
        j2 += 1;
    }
    let ghost bound_view = bound@;
    let bind_group = match make_bind_group(ctx, &pipeline, bound) {
        Ok(b) => b,
        Err(message) => {
            return Err(HarnessError::BindingLayoutError { message });
        },
    };
    proof {
        assert(bind_group_buffers(bind_group) =~= seq![params_buffer] + buffers_of(inputs@)
            + buffers_of(outputs@));
    }
    submit_dispatch(
        ctx,
        &pipeline,
        &bind_group,
        &mut params_buffer,
        launch_blocks_x,
        launch_blocks_y,
        inputs,
        outputs,
    );
    let ghost mid_out = outputs@;
    proof {
        assert(forall|i: int| 0 <= i < mid_out.len() ==> (#[trigger] mid_out[i]).wf());
    }
    let mut k: usize = 0;
    while k < outputs.len()
        invariant
            k <= mid_out.len(),
            outputs@.len() == mid_out.len(),
            forall|i: int| 0 <= i < mid_out.len() ==> (#[trigger] mid_out[i]).wf(),
            forall|i: int| 0 <= i < k ==> readback_settles(mid_out[i], #[trigger] outputs@[i]),
            forall|i: int| k <= i < mid_out.len() ==> #[trigger] outputs@[i] == mid_out[i],
        decreases mid_out.len() - k,
    {
        let ghost before = outputs@;
        let mut item = outputs.remove(k);
        if item.supports_readback {
            let _readback_result = item.read_back(ctx);
        }
        outputs.insert(k, item);
        proof {
            assert(outputs@ =~= before.update(k as int, item));
        }
        k += 1;
    }
    Ok(())
}

} // verus!
