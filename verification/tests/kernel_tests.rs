use gpu_histogram::kernel::{specialize_source, KernelVariant};

#[test]
fn specialization_prepends_both_constants() {
    let base = "fn main() {}";
    let specialized = specialize_source(base, 2, 8);
    assert_eq!(
        specialized,
        "const BIN_COUNT: u32 = 2u;\nconst ELEMENTS_PER_THREAD: u32 = 8u;\nfn main() {}"
    );
}

#[test]
fn specialization_renders_multi_digit_constants() {
    let specialized = specialize_source("", 1024, 16);
    assert_eq!(
        specialized,
        "const BIN_COUNT: u32 = 1024u;\nconst ELEMENTS_PER_THREAD: u32 = 16u;\n"
    );
}

#[test]
fn specialization_renders_zero_and_max() {
    let specialized = specialize_source("x", 0, u32::MAX);
    assert_eq!(
        specialized,
        "const BIN_COUNT: u32 = 0u;\nconst ELEMENTS_PER_THREAD: u32 = 4294967295u;\nx"
    );
}

#[test]
fn specialization_is_idempotent() {
    let base = "@compute fn histogram() {}";
    let first = specialize_source(base, 7, 3);
    let second = specialize_source(base, 7, 3);
    assert_eq!(first, second);
}

#[test]
fn assembled_variant_carries_launch_shape() {
    let variant = KernelVariant::assemble("body", "histogram", 32, 1, 4, 2);
    assert_eq!(variant.entry_point_name, "histogram");
    assert_eq!(variant.workgroup_size_x, 32);
    assert_eq!(variant.workgroup_size_y, 1);
    assert_eq!(variant.elements_per_thread, 2);
    assert_eq!(
        variant.specialized_source,
        "const BIN_COUNT: u32 = 4u;\nconst ELEMENTS_PER_THREAD: u32 = 2u;\nbody"
    );
}

#[test]
fn assembling_twice_gives_identical_variants() {
    let a = KernelVariant::assemble("base", "histogram", 32, 1, 1024, 8);
    let b = KernelVariant::assemble("base", "histogram", 32, 1, 1024, 8);
    assert_eq!(a.specialized_source, b.specialized_source);
    assert_eq!(a.entry_point_name, b.entry_point_name);
}
