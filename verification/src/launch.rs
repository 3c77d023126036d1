//! What the simulation asks of the GPU device and the window when it starts,
//! and how it reports a failure to start or run.
use vstd::prelude::*;

use crate::grid::{SIM_SIZE, WORK_GROUP_SIZE};

verus! {

/// What the simulation asks of the GPU device.
pub struct DeviceSettings {
    /// Prefer the high-performance adapter.
    pub high_performance: bool,
    /// Push constants are needed by the drawing pass.
    pub push_constants: bool,
    /// Adapter-specific texture format features are needed by the storage
    /// textures.
    pub adapter_specific_format_features: bool,
    /// Invocations a single compute work group may hold.
    pub max_compute_invocations_per_workgroup: u32,
    /// Any graphics backend may be used.
    pub all_backends: bool,
}

/// The window that the simulation opens.
pub struct WindowSettings {
    pub width: u32,
    pub height: u32,
    /// Escape closes the window.
    pub exit_on_esc: bool,
    /// Presentation waits for vertical sync.
    pub vsync: bool,
}

/// The start-up configuration: the device and the windows.
pub struct SimConfig {
    pub device: DeviceSettings,
    pub windows: Vec<WindowSettings>,
}

/// The start-up configuration: a high-performance device with push
/// constants and adapter-specific format features, whose work groups may
/// hold a whole square work group of the grid dispatch, on any backend; and
/// one window as large as the grid, closed by Escape, presenting without
/// vertical sync.
pub fn config() -> (c: SimConfig)
    ensures
        c.device.high_performance,
        c.device.push_constants,
        c.device.adapter_specific_format_features,
        c.device.max_compute_invocations_per_workgroup == WORK_GROUP_SIZE * WORK_GROUP_SIZE,
        c.device.all_backends,
        c.windows@.len() == 1,
        c.windows@[0].width == SIM_SIZE,
        c.windows@[0].height == SIM_SIZE,
        c.windows@[0].exit_on_esc,
        !c.windows@[0].vsync,
{
    SimConfig {
        device: DeviceSettings {
            high_performance: true,
            push_constants: true,
            adapter_specific_format_features: true,
            max_compute_invocations_per_workgroup: WORK_GROUP_SIZE * WORK_GROUP_SIZE,
            all_backends: true,
        },
        windows: vec![
            WindowSettings { width: SIM_SIZE, height: SIM_SIZE, exit_on_esc: true, vsync: false },
        ],
    }
}

/// Why the simulation could not start or stopped.
#[derive(Clone, Copy, Debug, PartialEq, Eq)]
pub enum RunFailure {
    /// No suitable GPU adapter.
    Adapter,
    /// The window could not be created.
    Window,
    /// The window surface failed.
    Surface,
    /// An image could not be loaded.
    Image,
    /// The GPU device could not be obtained.
    Device,
}

/// The text that the failure's log line starts with; every failure but the
/// adapter one is followed by its detail.
pub open spec fn spec_failure_prefix(failure: RunFailure) -> Seq<char> {
    match failure {
        RunFailure::Adapter => "Adapter Error"@,
        RunFailure::Window => "Window Error: "@,
        RunFailure::Surface => "Surface Error: "@,
        RunFailure::Image => "Image Error: "@,
        RunFailure::Device => "Device error: "@,
    }
}

/// Whether the failure's log line goes on with the failure's detail.
pub open spec fn spec_failure_has_detail(failure: RunFailure) -> bool {
    failure != RunFailure::Adapter
}

/// The start of the log line for a failure, and whether the failure's detail
/// follows it.
pub fn failure_prefix(failure: RunFailure) -> (r: (&'static str, bool))
    ensures
        r.0@ == spec_failure_prefix(failure),
        r.1 == spec_failure_has_detail(failure),
{
    match failure {
        RunFailure::Adapter => ("Adapter Error", false),
        RunFailure::Window => ("Window Error: ", true),
        RunFailure::Surface => ("Surface Error: ", true),
        RunFailure::Image => ("Image Error: ", true),
        RunFailure::Device => ("Device error: ", true),
    }
}

} // verus!
