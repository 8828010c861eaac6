use devspace::config::Config;
use devspace::container::Container;
use devspace::host::HostEnv;
use devspace::runtime::Runtime;

fn host() -> HostEnv {
    HostEnv {
        term: None,
        display: None,
        wayland_display: None,
        xdg_runtime_dir: None,
        xauthority: None,
        home: None,
        hostname: None,
        has_gpu_device: false,
    }
}

fn cfg() -> Config {
    Config {
        shell: None,
        init: None,
        image: "docker.io/library/alpine:latest".to_string(),
        name: "proj".to_string(),
        privileged: false,
        gui: false,
    }
}

fn container(config: Config, runtime: Runtime, env: HostEnv) -> Container {
    Container::new(config, "/wd".to_string(), runtime, env, "/tmp", "99")
}

#[test]
fn container_name_carries_the_fixed_prefix() {
    let c = container(cfg(), Runtime::Podman, host());
    assert_eq!(c.container_name(), "devspace-proj");
}

#[test]
fn exists_query_inspects_by_name() {
    let c = container(cfg(), Runtime::Docker, host());
    assert_eq!(c.exists_query(), vec!["container", "inspect", "devspace-proj"]);
}

#[test]
fn running_query_filters_the_process_list_by_name() {
    let c = container(cfg(), Runtime::Podman, host());
    assert_eq!(c.is_running(), vec!["ps", "-q", "-f", "name=devspace-proj"]);
}

#[test]
fn podman_creation_relabels_the_workspace_mount() {
    let mut config = cfg();
    config.privileged = true;
    let mut env = host();
    env.term = Some("xterm-256color".to_string());
    let c = container(config, Runtime::Podman, env);
    assert_eq!(
        c.create_container_base(),
        vec![
            "create",
            "-it",
            "--name",
            "devspace-proj",
            "-v",
            "/wd:/workspace:Z",
            "-w",
            "/workspace",
            "-e",
            "TERM=xterm-256color",
            "--privileged",
            "docker.io/library/alpine:latest",
            "sleep",
            "infinity",
        ]
    );
}

#[test]
fn docker_creation_mounts_the_workspace_plainly() {
    let c = container(cfg(), Runtime::Docker, host());
    assert_eq!(
        c.create_container_base(),
        vec![
            "create",
            "-it",
            "--name",
            "devspace-proj",
            "-v",
            "/wd:/workspace",
            "-w",
            "/workspace",
            "docker.io/library/alpine:latest",
            "sleep",
            "infinity",
        ]
    );
}

#[test]
fn gui_creation_includes_the_passthrough_block() {
    let mut config = cfg();
    config.gui = true;
    let mut env = host();
    env.display = Some(":1".to_string());
    let c = container(config, Runtime::Docker, env);
    let args = c.create_container_base();
    assert!(args.contains(&"--ipc=host".to_string()));
    assert!(args.contains(&"DISPLAY=:1".to_string()));
    let image_at = args.iter().position(|a| a == "docker.io/library/alpine:latest").unwrap();
    assert_eq!(args[image_at + 1], "sleep");
    assert_eq!(args[image_at + 2], "infinity");
}

#[test]
fn a_configured_init_script_becomes_a_temp_script_value() {
    let mut config = cfg();
    config.init = Some(" apk add git \n".to_string());
    let c = container(config, Runtime::Podman, host());
    let t = c.init_script.as_ref().unwrap();
    assert_eq!(t.path(), "/tmp/devspace-init-99.sh");
    assert_eq!(t.content(), "#!/bin/sh\napk add git\n");
}
