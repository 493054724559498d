//! The typed device vector: a CPU-resident mirror paired with a
//! device-resident buffer of the same length, uploaded on construction and
//! optionally read back after a dispatch.

use vstd::prelude::*;
use crate::error::HarnessError;
use crate::gpu::{
    bind_group_buffers,
    bind_group_made_for,
    buffer_copy_source,
    buffer_mappable,
    buffer_words,
    make_buffer,
    BufferKind,
    ComputeContext,
    MAX_BUFFER_WORDS,
};

verus! {

/// A vector of 32-bit words mirrored between host and device. The device
/// buffer always holds exactly as many words as the CPU mirror; the mirror is
/// the authoritative expected size even while device contents diverge
/// mid-flight. Only a vector created with readback enabled carries a
/// host-visible staging region.
pub struct DeviceVector {
    pub cpu_mirror: Vec<u32>,
    pub buffer: wgpu::Buffer,
    pub staging: Option<wgpu::Buffer>,
    pub supports_readback: bool,
}

impl DeviceVector {
    /// Well-formedness: device buffer and CPU mirror agree in length, the
    /// device buffer was created as kernel-visible storage (so it can serve
    /// as the source of a readback copy), and a readback-enabled vector
    /// carries a host-visible staging region of the same length.
    pub open spec fn wf(self) -> bool {
        &&& buffer_words(self.buffer).len() == self.cpu_mirror@.len()
        &&& buffer_copy_source(self.buffer)
        &&& (self.supports_readback <==> self.staging is Some)
        &&& (self.staging matches Some(st) ==> buffer_mappable(st) && buffer_words(st).len()
            == self.cpu_mirror@.len())
    }

    /// Allocates a device buffer holding exactly `initial_values`, uploads the
    /// values before returning, and, when `enable_readback` is set, allocates
    /// a host-visible staging region of identical size. The length bound is
    /// the device's buffer-size limit.
    pub fn create(ctx: &ComputeContext, initial_values: &Vec<u32>, enable_readback: bool) -> (r:
        DeviceVector)
        requires
            initial_values@.len() <= MAX_BUFFER_WORDS,
        ensures
            r.wf(),
            r.cpu_mirror@ == initial_values@,
            buffer_words(r.buffer) == initial_values@,
            r.supports_readback == enable_readback,
    {
        let buffer = make_buffer(ctx, initial_values, BufferKind::Storage);
        let staging: Option<wgpu::Buffer> = if enable_readback {
            let mut zeros: Vec<u32> = Vec::new();
            while zeros.len() < initial_values.len()
                invariant
                    zeros@.len() <= initial_values@.len(),
                decreases initial_values@.len() - zeros@.len(),
            {
                zeros.push(0);
            }
            Some(make_buffer(ctx, &zeros, BufferKind::Staging))
        } else {
            None
        };
        DeviceVector {
            cpu_mirror: initial_values.clone(),
            buffer,
            staging,
            supports_readback: enable_readback,
        }
    }

    /// Copies the device buffer into the staging region, blocks until the
    /// device signals the mapping is ready, and overwrites the CPU mirror
    /// with the staged bytes. Valid only when readback was enabled at
    /// creation; otherwise the vector is left untouched and a
    /// `ConfigurationError` is returned.
    pub fn read_back(&mut self, ctx: &ComputeContext) -> (r: Result<(), HarnessError>)
        requires
            old(self).wf(),
        ensures
            final(self).wf(),
            final(self).supports_readback == old(self).supports_readback,
            final(self).buffer == old(self).buffer,
            !old(self).supports_readback ==> (r matches Err(e) && e is ConfigurationError
                && final(self).cpu_mirror@ == old(self).cpu_mirror@ && final(self).staging == old(
                self,
            ).staging),
            old(self).supports_readback ==> (r is Ok && final(self).cpu_mirror@ == buffer_words(
                old(self).buffer,
            )),
    {
        if !self.supports_readback {
            return Err(HarnessError::ConfigurationError);
        }
        if self.cpu_mirror.len() == 0 {
            proof {
                assert(self.cpu_mirror@ =~= buffer_words(self.buffer));
            }
            return Ok(());
        }
        readback_into(ctx, self);
        Ok(())
    }
}

/// Holds across a dispatch for each bound vector: the CPU mirror, the
/// readback setup, and the staging region are untouched, and the device
/// buffer keeps its length and its creation capabilities while the kernel
/// may rewrite its contents.
pub open spec fn dispatch_preserves_vector(a: DeviceVector, b: DeviceVector) -> bool {
    &&& b.cpu_mirror == a.cpu_mirror
    &&& b.supports_readback == a.supports_readback
    &&& b.staging == a.staging
    &&& buffer_words(b.buffer).len() == buffer_words(a.buffer).len()
    &&& buffer_copy_source(b.buffer) == buffer_copy_source(a.buffer)
}

/// `dispatch_preserves_vector`, lifted to a whole binding list.
pub open spec fn dispatch_preserves(a: Seq<DeviceVector>, b: Seq<DeviceVector>) -> bool {
    b.len() == a.len() && (forall|i: int|
        0 <= i < a.len() ==> dispatch_preserves_vector(a[i], b[i]))
}

/// The device buffers of a list of vectors, in order.
pub open spec fn buffers_of(s: Seq<DeviceVector>) -> Seq<wgpu::Buffer> {
    Seq::new(s.len(), |i: int| s[i].buffer)
}

/// Relies on `wgpu::CommandEncoder::copy_buffer_to_buffer`,
/// `wgpu::Buffer::map_async`, `wgpu::Device::poll` with a blocking wait, and
/// `wgpu::BufferSlice::get_mapped_range`: copies the device buffer into the
/// staging region, waits once for the device's completion signal, and reads
/// the staged copy back into the CPU mirror.
#[verifier::external_body]
pub(crate) fn readback_into(ctx: &ComputeContext, v: &mut DeviceVector)
    requires
        old(v).wf(),
        old(v).supports_readback,
        old(v).cpu_mirror@.len() > 0,
    ensures
        final(v).wf(),
        final(v).supports_readback == old(v).supports_readback,
        final(v).buffer == old(v).buffer,
        final(v).cpu_mirror@ == buffer_words(old(v).buffer),
{
    let staging = v.staging.as_ref().unwrap();
    let desc = wgpu::CommandEncoderDescriptor { label: None };
    let mut encoder = ctx.device.create_command_encoder(&desc);
    encoder.copy_buffer_to_buffer(&v.buffer, 0, staging, 0, None);
    ctx.queue.submit([encoder.finish()]);
    staging.map_async(wgpu::MapMode::Read, .., |_| {});
    ctx.device.poll(wgpu::PollType::wait_indefinitely()).expect("device wait failed");
    let mapped = staging.get_mapped_range(..).expect("mapping failed during readback");
    v.cpu_mirror = bytemuck::cast_slice(&mapped).to_vec();
    drop(mapped);
    staging.unmap();
}

/// Relies on `wgpu::ComputePass::dispatch_workgroups` and
/// `wgpu::Queue::submit`: records one compute pass over the bind group and
/// submits it. Submission orders the dispatch after every prior upload and
/// before every later readback. A kernel reaches device memory only through
/// the bind group, so the preconditions demand that the bind group was
/// created for this very pipeline (anything else is a dispatch validation
/// error outside any error scope) and that it carry exactly the parameter
/// buffer followed by the passed vectors' buffers: everything the kernel may
/// rewrite is then handed in mutably, while sizes, CPU mirrors and staging
/// regions survive untouched.
#[verifier::external_body]
pub(crate) fn submit_dispatch(
    ctx: &ComputeContext,
    pipeline: &wgpu::ComputePipeline,
    bind_group: &wgpu::BindGroup,
    params: &mut wgpu::Buffer,
    launch_blocks_x: u32,
    launch_blocks_y: u32,
    inputs: &mut Vec<DeviceVector>,
    outputs: &mut Vec<DeviceVector>,
)
    requires
        launch_blocks_x <= 65535,
        launch_blocks_y <= 65535,
        bind_group_made_for(*bind_group, *pipeline),
        bind_group_buffers(*bind_group) == seq![*old(params)] + buffers_of(old(inputs)@)
            + buffers_of(old(outputs)@),
    ensures
        buffer_words(*final(params)).len() == buffer_words(*old(params)).len(),
        dispatch_preserves(old(inputs)@, final(inputs)@),
        dispatch_preserves(old(outputs)@, final(outputs)@),
{
    let desc = wgpu::CommandEncoderDescriptor { label: None };
    let mut encoder = ctx.device.create_command_encoder(&desc);
    {
        let pass_desc = wgpu::ComputePassDescriptor { label: None, timestamp_writes: None };
        let mut pass = encoder.begin_compute_pass(&pass_desc);
        pass.set_pipeline(pipeline);
        pass.set_bind_group(0, bind_group, &[]);
        pass.dispatch_workgroups(launch_blocks_x, launch_blocks_y, 1);
    }
    ctx.queue.submit([encoder.finish()]);
}

/// Law: an upload followed immediately by a readback -- no kernel dispatched
/// in between -- hands back exactly the uploaded words, bit for bit. The
/// length bound is the device's buffer-size limit, a machine limit on every
/// upload.
pub fn upload_readback_round_trip(ctx: &ComputeContext, values: &Vec<u32>) -> (r: Vec<u32>)
    requires
        values@.len() <= MAX_BUFFER_WORDS,
    ensures
        r@ == values@,
{
    let mut v = DeviceVector::create(ctx, values, true);
    let outcome = v.read_back(ctx);
    proof {
        assert(outcome is Ok);
    }
    v.cpu_mirror
}

} // verus!
