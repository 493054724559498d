use gpu_histogram::arguments::ApplicationArguments;
use gpu_histogram::dispatch::compute_launch_blocks;
use gpu_histogram::machinery::GeometryMachinery;
use gpu_histogram::params::ParameterBlock;
use gpu_histogram::timing::Timings;

#[test]
fn launch_blocks_round_up() {
    // 2000000 elements, 8 per thread, workgroups of 32: 250000 threads need
    // ceil(250031 / 32) after the rounding bias, which is 7813 workgroups.
    assert_eq!(compute_launch_blocks(2_000_000, 8, 32), 7813);
    assert_eq!(compute_launch_blocks(0, 1, 32), 0);
    assert_eq!(compute_launch_blocks(1, 1, 32), 1);
    assert_eq!(compute_launch_blocks(32, 1, 32), 1);
    assert_eq!(compute_launch_blocks(33, 1, 32), 2);
    assert_eq!(compute_launch_blocks(64, 2, 32), 1);
}

#[test]
fn parameter_block_words_are_fixed_layout() {
    let block = ParameterBlock::new(2_000_000, 0, 0, 0);
    assert_eq!(block.to_words(), vec![2_000_000, 0, 0, 0]);
    let other = ParameterBlock::new(7, 1, 2, 3);
    assert_eq!(other.to_words(), vec![7, 1, 2, 3]);
}

#[test]
fn timings_create_then_accumulate() {
    let mut timings = Timings::new();
    timings.create_or_add_to_entry("load", 100);
    timings.create_or_add_to_entry("sample", 40);
    timings.create_or_add_to_entry("load", 50);
    assert_eq!(timings.times.len(), 2);
    assert_eq!(timings.times[0].name, "load");
    assert_eq!(timings.times[0].total, 150);
    assert_eq!(timings.times[0].count, 2);
    assert_eq!(timings.times[1].name, "sample");
    assert_eq!(timings.times[1].total, 40);
    assert_eq!(timings.times[1].count, 1);
}

#[test]
fn timings_accumulation_saturates() {
    let mut timings = Timings::new();
    timings.create_or_add_to_entry("busy", u128::MAX - 1);
    timings.create_or_add_to_entry("busy", 5);
    assert_eq!(timings.times.len(), 1);
    assert_eq!(timings.times[0].total, u128::MAX);
    assert_eq!(timings.times[0].count, 2);
}

#[test]
fn machinery_latches_on_reaching_target() {
    let mut machine = GeometryMachinery::new(10);
    assert!(!machine.is_complete());
    machine.add_work(4);
    assert!(!machine.is_complete());
    machine.add_work(6);
    assert!(machine.is_complete());
    assert_eq!(machine.gizmo_progress, 10);
}

#[test]
fn machinery_discards_work_past_target() {
    let mut machine = GeometryMachinery::new(3);
    machine.add_work(5);
    assert!(machine.is_complete());
    machine.add_work(7);
    assert_eq!(machine.gizmo_progress, 5);
}

#[test]
fn machinery_with_zero_target_never_latches() {
    let mut machine = GeometryMachinery::new(0);
    machine.add_work(100);
    assert!(!machine.is_complete());
    assert_eq!(machine.gizmo_progress, 0);
}

#[test]
fn arguments_record_the_probe_result() {
    let with_config = ApplicationArguments::new(false, String::from("settings.toml"), true);
    assert!(with_config.has_valid_config_path());
    assert!(!with_config.no_gui);
    let without_config = ApplicationArguments::new(true, String::new(), false);
    assert!(!without_config.has_valid_config_path());
    assert!(without_config.no_gui);
}
