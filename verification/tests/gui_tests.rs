use devspace::gui::allow_local_connections;
use devspace::gui::get_container_args;
use devspace::host::HostEnv;

fn env() -> HostEnv {
    HostEnv {
        term: None,
        display: None,
        wayland_display: None,
        xdg_runtime_dir: None,
        xauthority: None,
        home: None,
        hostname: None,
        has_gpu_device: false,
    }
}

fn x11_expected(display: &str, hostname: &str, xauthority: &str) -> Vec<String> {
    vec![
        "--hostname".to_string(),
        hostname.to_string(),
        "--ipc=host".to_string(),
        "-e".to_string(),
        format!("DISPLAY={}", display),
        "-e".to_string(),
        "XAUTHORITY=/root/.Xauthority".to_string(),
        "-v".to_string(),
        "/tmp/.X11-unix:/tmp/.X11-unix:ro".to_string(),
        "-v".to_string(),
        format!("{}:/root/.Xauthority:ro", xauthority),
    ]
}

#[test]
fn x11_only_produces_exactly_the_x11_branch() {
    let mut e = env();
    e.display = Some(":1".to_string());
    let args = get_container_args(&e);
    assert_eq!(args, x11_expected(":1", "localhost", "/root/.Xauthority"));
    assert!(!args.iter().any(|a| a.starts_with("WAYLAND_DISPLAY=")));
    assert!(!args.iter().any(|a| a.starts_with("XDG_RUNTIME_DIR=")));
    assert_eq!(args.iter().filter(|a| *a == "--ipc=host").count(), 1);
}

#[test]
fn both_displays_produce_both_branches_wayland_first() {
    let mut e = env();
    e.display = Some(":1".to_string());
    e.wayland_display = Some("wl-1".to_string());
    e.xdg_runtime_dir = Some("/run/user/42".to_string());
    e.hostname = Some("box".to_string());
    let args = get_container_args(&e);
    let mut expected = vec![
        "--ipc=host".to_string(),
        "-e".to_string(),
        "WAYLAND_DISPLAY=wl-1".to_string(),
        "-e".to_string(),
        "XDG_RUNTIME_DIR=/tmp".to_string(),
        "-v".to_string(),
        "/run/user/42:/tmp".to_string(),
    ];
    expected.extend(x11_expected(":1", "box", "/root/.Xauthority"));
    assert_eq!(args, expected);
    // The shared flag is intentionally repeated, once per branch.
    assert_eq!(args.iter().filter(|a| *a == "--ipc=host").count(), 2);
}

#[test]
fn wayland_defaults_fill_in_when_variables_are_absent() {
    let mut e = env();
    e.wayland_display = Some("wayland-1".to_string());
    let args = get_container_args(&e);
    assert_eq!(
        args,
        vec![
            "--ipc=host".to_string(),
            "-e".to_string(),
            "WAYLAND_DISPLAY=wayland-1".to_string(),
            "-e".to_string(),
            "XDG_RUNTIME_DIR=/tmp".to_string(),
            "-v".to_string(),
            "/run/user/1000:/tmp".to_string(),
        ]
    );
}

#[test]
fn xauthority_comes_from_the_variable_or_the_home_directory() {
    let mut e = env();
    e.display = Some(":0".to_string());
    e.home = Some("/home/dev".to_string());
    let args = get_container_args(&e);
    assert_eq!(args, x11_expected(":0", "localhost", "/home/dev/.Xauthority"));

    e.xauthority = Some("/somewhere/.Xauthority".to_string());
    let args = get_container_args(&e);
    assert_eq!(args, x11_expected(":0", "localhost", "/somewhere/.Xauthority"));
}

#[test]
fn gpu_device_is_passed_through_when_present() {
    let mut e = env();
    e.has_gpu_device = true;
    assert_eq!(
        get_container_args(&e),
        vec!["--device".to_string(), "/dev/dri".to_string()]
    );
}

#[test]
fn no_display_and_no_gpu_produce_no_arguments() {
    assert!(get_container_args(&env()).is_empty());
}

#[test]
fn local_connections_are_relaxed_only_with_an_x11_display() {
    assert_eq!(allow_local_connections(&env()), None);
    let mut e = env();
    e.display = Some(":0".to_string());
    assert_eq!(
        allow_local_connections(&e),
        Some(vec!["xhost".to_string(), "+local:".to_string()])
    );
}
