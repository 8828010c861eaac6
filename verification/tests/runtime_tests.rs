use devspace::errors::Error;
use devspace::runtime::Probe;
use devspace::runtime::Runtime;
use devspace::runtime::candidates;
use devspace::runtime::detect_runtime;
use devspace::runtime::locate_step;

#[test]
fn candidates_probe_podman_then_docker() {
    assert_eq!(candidates(), vec!["podman", "docker"]);
}

#[test]
fn locator_selects_the_first_spawnable_candidate() {
    assert_eq!(locate_step(0, true), Probe::Found(Runtime::Podman));
    assert_eq!(detect_runtime(true, true), Ok(Runtime::Podman));
}

#[test]
fn locator_falls_back_to_the_second_candidate() {
    assert_eq!(locate_step(0, false), Probe::TryNext(1));
    assert_eq!(locate_step(1, true), Probe::Found(Runtime::Docker));
    assert_eq!(detect_runtime(false, true), Ok(Runtime::Docker));
}

#[test]
fn locator_reports_no_runtime_when_nothing_spawns() {
    assert_eq!(locate_step(0, false), Probe::TryNext(1));
    assert_eq!(locate_step(1, false), Probe::NotFound);
    assert_eq!(detect_runtime(false, false), Err(Error::RuntimeNotFound));
    assert_eq!(
        Error::RuntimeNotFound.message(),
        "Neither podman nor docker found in PATH"
    );
}

#[test]
fn runtime_commands_name_their_executables() {
    assert_eq!(Runtime::Podman.command(), "podman");
    assert_eq!(Runtime::Docker.command(), "docker");
}
