//! Platform passthrough: the extra runtime arguments that forward the host's
//! graphical display into the container.

use vstd::prelude::*;
use vstd::string::StringExecFns;
use crate::container::append_strings;
use crate::container::push_str;
use crate::container::push_string;
use crate::host::HostEnv;

verus! {

/// The Wayland display name to forward when `WAYLAND_DISPLAY` is unset.
pub open spec fn spec_wayland_display(env: &HostEnv) -> Seq<char> {
    match env.wayland_display {
        Some(d) => d@,
        None => "wayland-0"@,
    }
}

/// The host runtime directory to bind-mount when `XDG_RUNTIME_DIR` is unset.
pub open spec fn spec_xdg_runtime_dir(env: &HostEnv) -> Seq<char> {
    match env.xdg_runtime_dir {
        Some(d) => d@,
        None => "/run/user/1000"@,
    }
}

/// The X11 display to forward when `DISPLAY` is unset.
pub open spec fn spec_display(env: &HostEnv) -> Seq<char> {
    match env.display {
        Some(d) => d@,
        None => ":0"@,
    }
}

/// The X authority file: `XAUTHORITY`, or `.Xauthority` under the home
/// directory (`/root` when `HOME` is unset).
pub open spec fn spec_xauthority(env: &HostEnv) -> Seq<char> {
    match env.xauthority {
        Some(x) => x@,
        None => (match env.home {
            Some(h) => h@,
            None => "/root"@,
        }) + "/.Xauthority"@,
    }
}

/// The hostname to forward: the hostname file's contents, or a fixed default
/// when it could not be read.
pub open spec fn spec_hostname(env: &HostEnv) -> Seq<char> {
    match env.hostname {
        Some(h) => h@,
        None => "localhost"@,
    }
}

/// The Wayland branch: host IPC sharing, the forwarded display name, a fixed
/// in-container runtime directory, and the bind mount of the host's runtime
/// directory onto it.
pub open spec fn spec_wayland_args(env: &HostEnv) -> Seq<Seq<char>> {
    seq![
        "--ipc=host"@,
        "-e"@,
        "WAYLAND_DISPLAY="@ + spec_wayland_display(env),
        "-e"@,
        "XDG_RUNTIME_DIR=/tmp"@,
        "-v"@,
        spec_xdg_runtime_dir(env) + ":/tmp"@,
    ]
}

/// The X11 branch: the forwarded hostname, host IPC sharing, the display and
/// a fixed in-container X authority variable, and read-only bind mounts of
/// the X11 socket directory and the host's X authority file.
pub open spec fn spec_x11_args(env: &HostEnv) -> Seq<Seq<char>> {
    seq![
        "--hostname"@,
        spec_hostname(env),
        "--ipc=host"@,
        "-e"@,
        "DISPLAY="@ + spec_display(env),
        "-e"@,
        "XAUTHORITY=/root/.Xauthority"@,
        "-v"@,
        "/tmp/.X11-unix:/tmp/.X11-unix:ro"@,
        "-v"@,
        spec_xauthority(env) + ":/root/.Xauthority:ro"@,
    ]
}

/// The GPU passthrough arguments for the render-node device directory.
pub open spec fn spec_gpu_args() -> Seq<Seq<char>> {
    seq!["--device"@, "/dev/dri"@]
}

/// The full passthrough argument list: the Wayland branch when a Wayland
/// display is present, then the X11 branch when an X11 display is present,
/// then GPU passthrough when the device directory exists. When both display
/// protocols are present both branches appear, and the shared `--ipc=host`
/// flag is intentionally repeated, once per branch.
pub open spec fn spec_gui_args(env: &HostEnv) -> Seq<Seq<char>> {
    (if env.wayland_display is Some {
        spec_wayland_args(env)
    } else {
        Seq::empty()
    }) + (if env.display is Some {
        spec_x11_args(env)
    } else {
        Seq::empty()
    }) + (if env.has_gpu_device {
        spec_gpu_args()
    } else {
        Seq::empty()
    })
}

/// The forwarded hostname as a value.
pub fn hostname(env: &HostEnv) -> (r: String)
    ensures
        r@ == spec_hostname(env),
{
    match &env.hostname {
        Some(h) => h.clone(),
        None => "localhost".to_owned(),
    }
}

/// The X11 branch of the passthrough arguments.
pub fn x11_args(env: &HostEnv) -> (r: Vec<String>)
    ensures
        r.deep_view() == spec_x11_args(env),
{
    let display = match &env.display {
        Some(d) => d.clone(),
        None => ":0".to_owned(),
    };
    let home = match &env.home {
        Some(h) => h.clone(),
        None => "/root".to_owned(),
    };
    let xauthority = match &env.xauthority {
        Some(x) => x.clone(),
        None => home.concat("/.Xauthority"),
    };
    let mut r: Vec<String> = Vec::new();
    push_str(&mut r, "--hostname");
    push_string(&mut r, hostname(env));
    push_str(&mut r, "--ipc=host");
    push_str(&mut r, "-e");
    push_string(&mut r, "DISPLAY=".to_owned().concat(display.as_str()));
    push_str(&mut r, "-e");
    push_str(&mut r, "XAUTHORITY=/root/.Xauthority");
    push_str(&mut r, "-v");
    push_str(&mut r, "/tmp/.X11-unix:/tmp/.X11-unix:ro");
    push_str(&mut r, "-v");
    push_string(&mut r, xauthority.concat(":/root/.Xauthority:ro"));
    proof {
        assert(r.deep_view() =~= spec_x11_args(env));
    }
    r
}

/// The Wayland branch of the passthrough arguments.
pub fn wayland_args(env: &HostEnv) -> (r: Vec<String>)
    ensures
        r.deep_view() == spec_wayland_args(env),
{
    let wayland_display = match &env.wayland_display {
        Some(d) => d.clone(),
        None => "wayland-0".to_owned(),
    };
    let xdg_runtime_dir = match &env.xdg_runtime_dir {
        Some(d) => d.clone(),
        None => "/run/user/1000".to_owned(),
    };
    let mut r: Vec<String> = Vec::new();
    push_str(&mut r, "--ipc=host");
    push_str(&mut r, "-e");
    push_string(&mut r, "WAYLAND_DISPLAY=".to_owned().concat(wayland_display.as_str()));
    push_str(&mut r, "-e");
    push_str(&mut r, "XDG_RUNTIME_DIR=/tmp");
    push_str(&mut r, "-v");
    push_string(&mut r, xdg_runtime_dir.concat(":/tmp"));
    proof {
        assert(r.deep_view() =~= spec_wayland_args(env));
    }
    r
}

/// Assembles the passthrough argument list for the given host environment.
pub fn get_container_args(env: &HostEnv) -> (r: Vec<String>)
    ensures
        r.deep_view() == spec_gui_args(env),
{
    let mut r: Vec<String> = Vec::new();
    if env.wayland_display.is_some() {
        append_strings(&mut r, wayland_args(env));
    }
    if env.display.is_some() {
        append_strings(&mut r, x11_args(env));
    }
    if env.has_gpu_device {
        push_str(&mut r, "--device");
        push_str(&mut r, "/dev/dri");
    }
    proof {
        assert(r.deep_view() =~= spec_gui_args(env));
    }
    r
}

/// The host-side command that relaxes local X access control, run best-effort
/// once before container creation when GUI passthrough is requested: present
/// exactly when an X11 display is, and then naming the access-control helper
/// with its local-permit argument.
pub fn allow_local_connections(env: &HostEnv) -> (r: Option<Vec<String>>)
    ensures
        env.display is Some <==> r is Some,
        r matches Some(c) ==> c.deep_view() == seq!["xhost"@, "+local:"@],
{
    if env.display.is_some() {
        let mut c: Vec<String> = Vec::new();
        push_str(&mut c, "xhost");
        push_str(&mut c, "+local:");
        proof {
            assert(c.deep_view() =~= seq!["xhost"@, "+local:"@]);
        }
        Some(c)
    } else {
        None
    }
}

/// Law (passthrough branches): with an X11 display and no Wayland display the
/// produced arguments are exactly the X11 branch followed by the GPU
/// passthrough when present — no Wayland-branch argument is produced; with
/// both displays present, both branches appear, the Wayland one first.
pub proof fn lemma_gui_branches(env: &HostEnv)
    ensures
        env.display is Some && env.wayland_display is None ==> spec_gui_args(env)
            == spec_x11_args(env) + (if env.has_gpu_device {
            spec_gpu_args()
        } else {
            Seq::empty()
        }),
        env.display is Some && env.wayland_display is Some ==> spec_gui_args(env)
            == spec_wayland_args(env) + spec_x11_args(env) + (if env.has_gpu_device {
            spec_gpu_args()
        } else {
            Seq::empty()
        }),
        env.display is None && env.wayland_display is None && !env.has_gpu_device
            ==> spec_gui_args(env) == Seq::<Seq<char>>::empty(),
{
    if env.display is Some && env.wayland_display is None {
        assert(spec_gui_args(env) =~= spec_x11_args(env) + (if env.has_gpu_device {
            spec_gpu_args()
        } else {
            Seq::empty()
        }));
    }
    if env.display is None && env.wayland_display is None && !env.has_gpu_device {
        assert(spec_gui_args(env) =~= Seq::<Seq<char>>::empty());
    }
}

} // verus!
