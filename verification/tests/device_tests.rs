//! Tests that need a real accelerator. On a machine without any compute
//! adapter they report that and pass vacuously; with one, they exercise the
//! upload/readback path and a full correctness-gated dispatch.

use gpu_histogram::gpu::ComputeContext;
use gpu_histogram::histogram::histogram;
use gpu_histogram::kernel::KernelVariant;
use gpu_histogram::oracle::Sample;
use gpu_histogram::vector::upload_readback_round_trip;

fn try_context() -> Option<ComputeContext> {
    let instance = wgpu::Instance::default();
    let adapter =
        pollster::block_on(instance.request_adapter(&wgpu::RequestAdapterOptions::default()))
            .ok()?;
    let (device, queue) =
        pollster::block_on(adapter.request_device(&wgpu::DeviceDescriptor::default())).ok()?;
    Some(ComputeContext::new(device, queue))
}

const COUNTING_KERNEL: &str = "
struct Parameters {
    element_count: u32,
    aux_a: u32,
    aux_b: u32,
    aux_c: u32,
};

@group(0) @binding(0) var<uniform> parameters: Parameters;
@group(0) @binding(1) var<storage, read> input: array<f32>;
@group(0) @binding(2) var<storage, read_write> output: array<atomic<u32>>;

@compute @workgroup_size(32, 1, 1)
fn histogram(@builtin(global_invocation_id) global_id: vec3<u32>) {
    for (var element: u32 = 0u; element < ELEMENTS_PER_THREAD; element = element + 1u) {
        let index: u32 = global_id.x * ELEMENTS_PER_THREAD + element;
        if (index < parameters.element_count) {
            let bin: u32 = u32(floor(input[index]));
            if (bin < BIN_COUNT) {
                atomicAdd(&output[bin], 1u);
            }
        }
    }
}
";

#[test]
fn round_trip_hands_back_uploaded_words() {
    let context = match try_context() {
        Some(context) => context,
        None => {
            println!("no compute adapter available; nothing to exercise");
            return;
        }
    };
    let words: Vec<u32> = vec![0, 1, u32::MAX, 0xDEAD_BEEF, 42, 7];
    let returned = upload_readback_round_trip(&context, &words);
    assert_eq!(returned, words);
}

#[test]
fn empty_input_dispatch_succeeds() {
    let context = match try_context() {
        Some(context) => context,
        None => {
            println!("no compute adapter available; nothing to exercise");
            return;
        }
    };
    let input: Vec<Sample> = Vec::new();
    let variant = KernelVariant::assemble(COUNTING_KERNEL, "histogram", 32, 1, 4, 1);
    let outcome = gpu_histogram::histogram::histogram(&context, &input, &variant, 4)
        .expect("empty dispatch must not fault");
    assert!(outcome.success);
    assert_eq!(outcome.expected, vec![0, 0, 0, 0]);
    assert_eq!(outcome.observed, vec![0, 0, 0, 0]);
}

#[test]
fn device_histogram_matches_reference() {
    let context = match try_context() {
        Some(context) => context,
        None => {
            println!("no compute adapter available; nothing to exercise");
            return;
        }
    };
    let values: Vec<f32> = vec![0.0, 0.999, 1.0, 1.999, 3.5, 2.25, 3.0, 1.5];
    let input: Vec<Sample> = values
        .iter()
        .map(|v| Sample { word: v.to_bits(), bin: v.floor() as u32 })
        .collect();
    let variant = KernelVariant::assemble(COUNTING_KERNEL, "histogram", 32, 1, 4, 1);
    let outcome = histogram(&context, &input, &variant, 4).expect("dispatch failed");
    assert_eq!(outcome.expected, vec![2, 3, 1, 2]);
    assert!(outcome.success, "device diverged from reference: {:?}", outcome.observed);
}
