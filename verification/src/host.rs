//! A snapshot of what the core reads of the host.

use vstd::prelude::*;

verus! {

/// Everything the lifecycle core consumes from the host, collected once by
/// the driver and passed in explicitly, so that argument assembly is a pure
/// function of it: the display-related environment variables, the hostname
/// file's contents, and whether a GPU render-node device path exists.
pub struct HostEnv {
    /// The `TERM` environment variable, when set.
    pub term: Option<String>,
    /// The `DISPLAY` environment variable, when set.
    pub display: Option<String>,
    /// The `WAYLAND_DISPLAY` environment variable, when set.
    pub wayland_display: Option<String>,
    /// The `XDG_RUNTIME_DIR` environment variable, when set.
    pub xdg_runtime_dir: Option<String>,
    /// The `XAUTHORITY` environment variable, when set.
    pub xauthority: Option<String>,
    /// The `HOME` environment variable, when set.
    pub home: Option<String>,
    /// The host's hostname file contents, trimmed; `None` when unreadable.
    pub hostname: Option<String>,
    /// Whether the GPU render-node device directory exists on the host.
    pub has_gpu_device: bool,
}

impl HostEnv {
    /// An environment with nothing set, as a starting point for drivers and
    /// tests.
    pub fn empty() -> (r: HostEnv)
        ensures
            r.term is None,
            r.display is None,
            r.wayland_display is None,
            r.xdg_runtime_dir is None,
            r.xauthority is None,
            r.home is None,
            r.hostname is None,
            !r.has_gpu_device,
    {
        HostEnv {
            term: None,
            display: None,
            wayland_display: None,
            xdg_runtime_dir: None,
            xauthority: None,
            home: None,
            hostname: None,
            has_gpu_device: false,
        }
    }
}

} // verus!
