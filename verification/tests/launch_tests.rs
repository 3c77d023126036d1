use game_of_life_sim::grid::{SIM_SIZE, WORK_GROUP_SIZE};
use game_of_life_sim::launch::{config, failure_prefix, RunFailure};

#[test]
fn config_asks_for_the_work_group_and_one_grid_sized_window() {
    let c = config();
    assert!(c.device.high_performance);
    assert!(c.device.push_constants);
    assert!(c.device.adapter_specific_format_features);
    assert!(c.device.all_backends);
    assert_eq!(c.device.max_compute_invocations_per_workgroup, 1024);
    assert_eq!(
        c.device.max_compute_invocations_per_workgroup,
        WORK_GROUP_SIZE * WORK_GROUP_SIZE
    );
    assert_eq!(c.windows.len(), 1);
    assert_eq!(c.windows[0].width, SIM_SIZE);
    assert_eq!(c.windows[0].height, 1024);
    assert!(c.windows[0].exit_on_esc);
    assert!(!c.windows[0].vsync);
}

#[test]
fn adapter_failure_has_no_detail() {
    assert_eq!(failure_prefix(RunFailure::Adapter), ("Adapter Error", false));
}

#[test]
fn other_failures_are_followed_by_their_detail() {
    assert_eq!(failure_prefix(RunFailure::Window), ("Window Error: ", true));
    assert_eq!(failure_prefix(RunFailure::Surface), ("Surface Error: ", true));
    assert_eq!(failure_prefix(RunFailure::Image), ("Image Error: ", true));
    assert_eq!(failure_prefix(RunFailure::Device), ("Device error: ", true));
}
