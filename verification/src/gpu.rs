//! The trust boundary to the accelerator. Everything the library believes
//! about the device lives here and in the vector module: declarations of the
//! device types, uninterpreted names for what a device buffer holds and how
//! it was created, and small trusted wrappers around the device calls. All
//! logic above them is verified against these contracts.

use vstd::prelude::*;
use wgpu::util::DeviceExt;
use wgpu::BufferUsages;

verus! {

#[verifier::external_type_specification]
#[verifier::external_body]
pub struct ExDevice(wgpu::Device);

#[verifier::external_type_specification]
#[verifier::external_body]
pub struct ExQueue(wgpu::Queue);

#[verifier::external_type_specification]
#[verifier::external_body]
pub struct ExBuffer(wgpu::Buffer);

#[verifier::external_type_specification]
#[verifier::external_body]
pub struct ExShaderModule(wgpu::ShaderModule);

#[verifier::external_type_specification]
#[verifier::external_body]
pub struct ExComputePipeline(wgpu::ComputePipeline);

#[verifier::external_type_specification]
#[verifier::external_body]
pub struct ExBindGroup(wgpu::BindGroup);

#[verifier::external_type_specification]
#[verifier::external_body]
pub struct ExBindGroupLayoutEntry(wgpu::BindGroupLayoutEntry);

/// The contents of a device buffer, as the 32-bit words it was filled with.
/// Every buffer this harness creates holds whole 32-bit words.
pub uninterp spec fn buffer_words(b: wgpu::Buffer) -> Seq<u32>;

/// Whether a buffer was created as a host-visible staging region: mappable
/// for reading and usable as a copy destination.
pub uninterp spec fn buffer_mappable(b: wgpu::Buffer) -> bool;

/// Whether a buffer was created usable as a copy source, as every
/// kernel-visible storage buffer here is. Copying out of a buffer created
/// without this capability is a validation error outside any error scope and
/// would halt, so the readback path demands it.
pub uninterp spec fn buffer_copy_source(b: wgpu::Buffer) -> bool;

/// The kernel source text a shader module was compiled from.
pub uninterp spec fn module_source(m: wgpu::ShaderModule) -> Seq<char>;

/// The binding slot a layout entry declares.
pub uninterp spec fn entry_binding(e: wgpu::BindGroupLayoutEntry) -> u32;

/// Whether a layout entry declares a uniform-buffer slot (as opposed to a
/// storage-buffer slot).
pub uninterp spec fn entry_is_uniform(e: wgpu::BindGroupLayoutEntry) -> bool;

/// Whether a storage-buffer layout entry is declared read-only.
pub uninterp spec fn entry_read_only(e: wgpu::BindGroupLayoutEntry) -> bool;

/// The source text of the module a pipeline was built from.
pub uninterp spec fn pipeline_source(p: wgpu::ComputePipeline) -> Seq<char>;

/// The entry point a pipeline was built to invoke.
pub uninterp spec fn pipeline_entry_point(p: wgpu::ComputePipeline) -> Seq<char>;

/// The bind group layout entries a pipeline's first slot was built with.
pub uninterp spec fn pipeline_layout_entries(p: wgpu::ComputePipeline) -> Seq<
    wgpu::BindGroupLayoutEntry,
>;

/// Whether a bind group was created against the pipeline's first bind group
/// layout. Submitting a bind group with a pipeline it was not made for is a
/// dispatch validation error outside any error scope and would halt, so the
/// dispatch wrapper demands the match.
pub uninterp spec fn bind_group_made_for(g: wgpu::BindGroup, p: wgpu::ComputePipeline) -> bool;

/// Whether a pipeline carries a bind group layout in its first slot, as every
/// pipeline built by this harness does.
pub uninterp spec fn has_primary_bind_layout(p: wgpu::ComputePipeline) -> bool;

/// The buffers a bind group carries, in binding-slot order. A dispatch can
/// touch device memory only through these; the name ties each bind group to
/// the buffers that must therefore be handed to the dispatch call.
pub uninterp spec fn bind_group_buffers(g: wgpu::BindGroup) -> Seq<wgpu::Buffer>;

/// The buffers behind a list of buffer references, in order.
pub open spec fn deref_buffers(s: Seq<&wgpu::Buffer>) -> Seq<wgpu::Buffer> {
    Seq::new(s.len(), |i: int| *s[i])
}

/// The largest buffer this harness creates, in 32-bit words: 256 MiB, the
/// device's default buffer-size limit; a larger request is a validation
/// error outside any error scope and would halt.
pub const MAX_BUFFER_WORDS: usize = 67108864;

/// The largest buffer a dispatch can bind as a single storage binding, in
/// 32-bit words: 128 MiB, the device's default storage-binding limit. A
/// vector beyond it can be created and read back but never bound, so
/// dispatch admissibility stops here.
pub const MAX_BINDING_WORDS: usize = 33554432;

/// The opaque compute context: the logical device and its command-submission
/// queue, shared read-only by every component for the whole run. How it is
/// acquired is the surrounding program's business.
pub struct ComputeContext {
    pub device: wgpu::Device,
    pub queue: wgpu::Queue,
}

impl ComputeContext {
    /// Bundles an already-acquired device and queue.
    pub fn new(device: wgpu::Device, queue: wgpu::Queue) -> (r: ComputeContext)
        ensures
            r.device == device,
            r.queue == queue,
    {
        ComputeContext { device, queue }
    }
}

/// What a device buffer is allocated for: kernel-visible storage, the one-shot
/// parameter block, or a host-visible staging region for readback.
#[derive(Clone, Copy)]
pub enum BufferKind {
    Storage,
    Uniform,
    Staging,
}

/// Relies on `wgpu::util::DeviceExt::create_buffer_init`: the new buffer is
/// filled with exactly the bytes passed in, here the given words; only a
/// staging buffer is host-visible, and only a storage buffer is a copy
/// source. The size bound keeps the request within the device's default
/// buffer-size limit, past which creation is a validation error outside any
/// error scope and halts.
#[verifier::external_body]
pub(crate) fn make_buffer(ctx: &ComputeContext, words: &Vec<u32>, kind: BufferKind) -> (r:
    wgpu::Buffer)
    requires
        words@.len() <= MAX_BUFFER_WORDS,
    ensures
        buffer_words(r) == words@,
        buffer_mappable(r) == (kind is Staging),
        buffer_copy_source(r) == (kind is Storage),
{
    let usage = match kind {
        BufferKind::Storage => BufferUsages::STORAGE | BufferUsages::COPY_DST | BufferUsages::COPY_SRC,
        BufferKind::Uniform => BufferUsages::UNIFORM | BufferUsages::COPY_DST,
        BufferKind::Staging => BufferUsages::MAP_READ | BufferUsages::COPY_DST,
    };
    let contents = bytemuck::cast_slice(words);
    ctx.device.create_buffer_init(&wgpu::util::BufferInitDescriptor { label: None, contents, usage })
}

/// Relies on `wgpu::BindGroupLayoutEntry`: describes a uniform-buffer binding
/// slot visible to compute kernels.
#[verifier::external_body]
pub(crate) fn uniform_layout_entry(binding: u32) -> (r: wgpu::BindGroupLayoutEntry)
    ensures
        entry_binding(r) == binding,
        entry_is_uniform(r),
{
    let ty = wgpu::BindingType::Buffer {
        ty: wgpu::BufferBindingType::Uniform,
        has_dynamic_offset: false,
        min_binding_size: None,
    };
    wgpu::BindGroupLayoutEntry { binding, visibility: wgpu::ShaderStages::COMPUTE, ty, count: None }
}

/// Relies on `wgpu::BindGroupLayoutEntry`: describes a storage-buffer binding
/// slot visible to compute kernels, read-only for inputs.
#[verifier::external_body]
pub(crate) fn storage_layout_entry(binding: u32, read_only: bool) -> (r:
    wgpu::BindGroupLayoutEntry)
    ensures
        entry_binding(r) == binding,
        !entry_is_uniform(r),
        entry_read_only(r) == read_only,
{
    let ty = wgpu::BindingType::Buffer {
        ty: wgpu::BufferBindingType::Storage { read_only },
        has_dynamic_offset: false,
        min_binding_size: None,
    };
    wgpu::BindGroupLayoutEntry { binding, visibility: wgpu::ShaderStages::COMPUTE, ty, count: None }
}

/// Relies on `wgpu::Device::create_shader_module` under a validation error
/// scope: a source that fails to compile surfaces as an error message rather
/// than a fault; whether compilation succeeds is the device's decision. The
/// scope filters validation errors only; an internal device failure bypasses
/// it and halts, the harness's policy for device-level conditions.
#[verifier::external_body]
pub(crate) fn compile_kernel(ctx: &ComputeContext, source: &str) -> (r: Result<
    wgpu::ShaderModule,
    String,
>)
    ensures
        r matches Ok(m) ==> module_source(m) == source@,
{
    let scope = ctx.device.push_error_scope(wgpu::ErrorFilter::Validation);
    let module = ctx.device.create_shader_module(
        wgpu::ShaderModuleDescriptor { label: None, source: wgpu::ShaderSource::Wgsl(source.into()) },
    );
    match pollster::block_on(scope.pop()) {
        None => Ok(module),
        Some(e) => Err(e.to_string()),
    }
}

/// Relies on `wgpu::Device::create_compute_pipeline` (with an explicit bind
/// group layout built from the given entries) under a validation error scope:
/// a kernel whose declared bindings or entry point do not match surfaces as an
/// error message; a pipeline that is returned carries the layout in slot 0
/// and records what it was built from -- the module's source, the entry
/// point, and the layout entries. The scope filters validation errors only;
/// an internal device failure bypasses it and halts, the harness's policy
/// for device-level conditions.
#[verifier::external_body]
pub(crate) fn make_pipeline(
    ctx: &ComputeContext,
    module: &wgpu::ShaderModule,
    entry_point: &str,
    layout_entries: &Vec<wgpu::BindGroupLayoutEntry>,
) -> (r: Result<wgpu::ComputePipeline, String>)
    ensures
        r matches Ok(p) ==> {
            &&& has_primary_bind_layout(p)
            &&& pipeline_source(p) == module_source(*module)
            &&& pipeline_entry_point(p) == entry_point@
            &&& pipeline_layout_entries(p) == layout_entries@
        },
{
    let scope = ctx.device.push_error_scope(wgpu::ErrorFilter::Validation);
    let bgl_desc = wgpu::BindGroupLayoutDescriptor { label: None, entries: layout_entries };
    let layout = ctx.device.create_bind_group_layout(&bgl_desc);
    let pl_desc = wgpu::PipelineLayoutDescriptor {
        label: None, bind_group_layouts: &[Some(&layout)], immediate_size: 0,
    };
    let pipeline_layout = ctx.device.create_pipeline_layout(&pl_desc);
    let desc = wgpu::ComputePipelineDescriptor {
        label: None, layout: Some(&pipeline_layout), module, entry_point: Some(entry_point),
        compilation_options: Default::default(), cache: None,
    };
    let pipeline = ctx.device.create_compute_pipeline(&desc);
    match pollster::block_on(scope.pop()) { None => Ok(pipeline), Some(e) => Err(e.to_string()) }
}

/// Relies on `wgpu::Device::create_bind_group` under a validation error scope:
/// binds the given buffers to sequential slots of the pipeline's first bind
/// group layout, so a returned bind group carries exactly those buffers in
/// that order; a mismatch surfaces as an error message. Like the other
/// scopes here, the filter catches validation errors; an internal device
/// failure bypasses it and halts, the harness's policy for device-level
/// conditions.
#[verifier::external_body]
pub(crate) fn make_bind_group(
    ctx: &ComputeContext,
    pipeline: &wgpu::ComputePipeline,
    buffers: Vec<&wgpu::Buffer>,
) -> (r: Result<wgpu::BindGroup, String>)
    requires
        has_primary_bind_layout(*pipeline),
    ensures
        r matches Ok(g) ==> bind_group_buffers(g) == deref_buffers(buffers@)
            && bind_group_made_for(g, *pipeline),
{
    let scope = ctx.device.push_error_scope(wgpu::ErrorFilter::Validation);
    let entries: Vec<wgpu::BindGroupEntry> = buffers.iter().enumerate().map(
        |(i, b)| wgpu::BindGroupEntry { binding: i as u32, resource: b.as_entire_binding() },
    ).collect();
    let layout = pipeline.get_bind_group_layout(0);
    let desc = wgpu::BindGroupDescriptor { label: None, layout: &layout, entries: &entries };
    let bind = ctx.device.create_bind_group(&desc);
    match pollster::block_on(scope.pop()) { None => Ok(bind), Some(e) => Err(e.to_string()) }
}

} // verus!
