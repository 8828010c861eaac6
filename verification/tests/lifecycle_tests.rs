use devspace::config::Config;
use devspace::container::Container;
use devspace::errors::Error;
use devspace::errors::Operation;
use devspace::host::HostEnv;
use devspace::lifecycle::Action;
use devspace::lifecycle::ContainerStatus;
use devspace::lifecycle::Event;
use devspace::lifecycle::Outcome;
use devspace::lifecycle::St;
use devspace::lifecycle::Step;
use devspace::runtime::Runtime;

fn host() -> HostEnv {
    HostEnv {
        term: None,
        display: None,
        wayland_display: None,
        xdg_runtime_dir: None,
        xauthority: None,
        home: None,
        hostname: None,
        has_gpu_device: false,
    }
}

fn cfg() -> Config {
    Config {
        shell: None,
        init: None,
        image: "alpine".to_string(),
        name: "proj".to_string(),
        privileged: false,
        gui: false,
    }
}

fn container(config: Config, env: HostEnv) -> Container {
    Container::new(config, "/wd".to_string(), Runtime::Podman, env, "/tmp", "7")
}

fn ev(ok: bool) -> Event {
    Event { ok, code: None }
}

fn render(a: &Action) -> String {
    match a {
        Action::Invoke(v) => format!("invoke {}", v.join(" ")),
        Action::QueryRunning(v) => format!("query {}", v.join(" ")),
        Action::Interactive(v) => format!("session {}", v.join(" ")),
        Action::WriteScript(t) => format!("write {}", t.path()),
        Action::RemoveScript => "remove-script".to_string(),
        Action::AllowLocalDisplay => "allow-local-display".to_string(),
    }
}

/// Drives the machine with scripted events; returns the performed actions
/// (rendered) and the outcome.
fn run(c: &Container, start: (Action, St), events: &[Event]) -> (Vec<String>, Outcome) {
    let mut log = Vec::new();
    let (mut action, mut st) = start;
    for e in events {
        log.push(render(&action));
        match c.step(st, *e) {
            Step::Do(a, s) => {
                action = a;
                st = s;
            }
            Step::Finished(o) => return (log, o),
        }
    }
    panic!("the machine did not finish within the scripted events");
}

fn creates_in(log: &[String]) -> usize {
    log.iter().filter(|l| l.starts_with("invoke create")).count()
}

#[test]
fn create_runs_the_creation_call_at_most_once() {
    let c = container(cfg(), host());
    // First flow: the container is absent, so creation is invoked once.
    let (log, out) = run(&c, c.create(), &[ev(false), ev(true)]);
    assert_eq!(out, Outcome::Success);
    assert_eq!(creates_in(&log), 1);
    // Second flow: the probe sees the container, and nothing more happens.
    let (log, out) = run(&c, c.create(), &[ev(true)]);
    assert_eq!(out, Outcome::Success);
    assert_eq!(creates_in(&log), 0);
    assert_eq!(log, vec!["invoke container inspect devspace-proj"]);
}

#[test]
fn create_failure_is_reported() {
    let c = container(cfg(), host());
    let (_, out) = run(&c, c.create(), &[ev(false), ev(false)]);
    assert_eq!(
        out,
        Outcome::Failure(Error::OperationFailed(Operation::CreateContainer))
    );
    assert_eq!(
        Error::OperationFailed(Operation::CreateContainer).message(),
        "Failed to create container"
    );
}

#[test]
fn remove_of_an_absent_container_is_a_successful_noop() {
    let c = container(cfg(), host());
    let (log, out) = run(&c, c.remove(), &[ev(false)]);
    assert_eq!(out, Outcome::Success);
    assert_eq!(log, vec!["invoke container inspect devspace-proj"]);
    assert!(!log.iter().any(|l| l.starts_with("invoke stop")));
    assert!(!log.iter().any(|l| l.starts_with("invoke rm")));
}

#[test]
fn remove_stops_and_removes_a_running_container() {
    let c = container(cfg(), host());
    let (log, out) = run(
        &c,
        c.remove(),
        &[ev(true), ev(true), ev(true), ev(true), ev(true)],
    );
    assert_eq!(out, Outcome::Success);
    assert_eq!(log.last().unwrap(), "invoke rm devspace-proj");
    assert!(log.contains(&"invoke stop -t 0 devspace-proj".to_string()));
}

#[test]
fn remove_failure_is_reported() {
    let c = container(cfg(), host());
    let (_, out) = run(
        &c,
        c.remove(),
        &[ev(true), ev(true), ev(false), ev(false)],
    );
    assert_eq!(
        out,
        Outcome::Failure(Error::OperationFailed(Operation::RemoveContainer))
    );
}

#[test]
fn stop_of_an_absent_container_is_a_successful_noop() {
    let c = container(cfg(), host());
    let (log, out) = run(&c, c.stop(), &[ev(false)]);
    assert_eq!(out, Outcome::Success);
    assert!(!log.iter().any(|l| l.starts_with("invoke stop")));
}

#[test]
fn stop_of_a_stopped_container_is_a_successful_noop() {
    let c = container(cfg(), host());
    let (log, out) = run(&c, c.stop(), &[ev(true), ev(false)]);
    assert_eq!(out, Outcome::Success);
    assert!(!log.iter().any(|l| l.starts_with("invoke stop")));
}

#[test]
fn stop_of_a_running_container_stops_it_immediately() {
    let c = container(cfg(), host());
    let (log, out) = run(&c, c.stop(), &[ev(true), ev(true), ev(true)]);
    assert_eq!(out, Outcome::Success);
    assert_eq!(log.last().unwrap(), "invoke stop -t 0 devspace-proj");
}

#[test]
fn stop_failure_is_reported() {
    let c = container(cfg(), host());
    let (_, out) = run(&c, c.stop(), &[ev(true), ev(true), ev(false)]);
    assert_eq!(
        out,
        Outcome::Failure(Error::OperationFailed(Operation::StopContainer))
    );
    assert_eq!(
        Error::OperationFailed(Operation::StopContainer).message(),
        "Failed to stop container"
    );
}

fn init_cfg() -> Config {
    let mut config = cfg();
    config.init = Some("apk add git\n".to_string());
    config
}

fn assert_script_removed(log: &[String]) {
    let wrote = log.iter().position(|l| l.starts_with("write "));
    let removed = log.iter().position(|l| l == "remove-script");
    assert!(wrote.is_some());
    assert!(removed.is_some());
    assert!(wrote.unwrap() < removed.unwrap());
}

#[test]
fn successful_initialization_removes_the_script_and_stops_the_container() {
    let c = container(init_cfg(), host());
    // absent, create ok, write ok, copy ok, start ok, init ok, stop ok,
    // delete (ignored).
    let events = [ev(false), ev(true), ev(true), ev(true), ev(true), ev(true), ev(true), ev(true)];
    let (log, out) = run(&c, c.create(), &events);
    assert_eq!(out, Outcome::Success);
    assert_script_removed(&log);
    assert!(log.contains(&"invoke cp /tmp/devspace-init-7.sh devspace-proj:/tmp/devspace-init.sh".to_string()));
    assert!(log.contains(&"invoke exec devspace-proj /tmp/devspace-init.sh".to_string()));
    assert_eq!(log.last().unwrap(), "remove-script");
}

#[test]
fn a_failed_copy_fails_creation_and_still_removes_the_script() {
    let c = container(init_cfg(), host());
    // absent, create ok, write ok, copy fails, delete (ignored).
    let events = [ev(false), ev(true), ev(true), ev(false), ev(true)];
    let (log, out) = run(&c, c.create(), &events);
    assert_eq!(
        out,
        Outcome::Failure(Error::OperationFailed(Operation::CopyInitScript))
    );
    assert_script_removed(&log);
    // The container was never started, so nothing stops it.
    assert!(!log.iter().any(|l| l.starts_with("invoke stop")));
}

#[test]
fn a_failed_init_execution_stops_the_container_and_removes_the_script() {
    let c = container(init_cfg(), host());
    // absent, create ok, write ok, copy ok, start ok, init fails,
    // best-effort stop (result ignored), delete (ignored).
    let events = [ev(false), ev(true), ev(true), ev(true), ev(true), ev(false), ev(false), ev(true)];
    let (log, out) = run(&c, c.create(), &events);
    assert_eq!(out, Outcome::Failure(Error::InitScriptFailed));
    assert_script_removed(&log);
    assert!(log.contains(&"invoke stop -t 0 devspace-proj".to_string()));
    assert_eq!(Error::InitScriptFailed.message(), "Failed to run init script");
}

#[test]
fn a_failed_script_write_fails_creation() {
    let c = container(init_cfg(), host());
    // absent, create ok, write fails, delete (ignored).
    let events = [ev(false), ev(true), ev(false), ev(true)];
    let (log, out) = run(&c, c.create(), &events);
    assert_eq!(out, Outcome::Failure(Error::ResourceIO));
    assert_script_removed(&log);
}

#[test]
fn exec_propagates_the_remote_exit_code() {
    let c = container(cfg(), host());
    let command = vec!["echo".to_string(), "hi".to_string()];
    // exists, running, then the remote command exits with code 3.
    let events = [ev(true), ev(true), Event { ok: false, code: Some(3) }];
    let (log, out) = run(&c, c.exec(command), &events);
    assert_eq!(out, Outcome::Exit(3));
    assert_eq!(log.last().unwrap(), "session exec -it devspace-proj echo hi");
}

#[test]
fn exec_success_is_a_plain_success() {
    let c = container(cfg(), host());
    let command = vec!["true".to_string()];
    let events = [ev(true), ev(true), Event { ok: true, code: Some(0) }];
    let (_, out) = run(&c, c.exec(command), &events);
    assert_eq!(out, Outcome::Success);
}

#[test]
fn exec_spawn_failure_is_an_error() {
    let c = container(cfg(), host());
    let command = vec!["true".to_string()];
    let events = [ev(true), ev(true), Event { ok: false, code: None }];
    let (_, out) = run(&c, c.exec(command), &events);
    assert_eq!(
        out,
        Outcome::Failure(Error::OperationFailed(Operation::ExecCommand))
    );
}

#[test]
fn enter_starts_a_stopped_container_and_uses_the_configured_shell() {
    let mut config = cfg();
    config.shell = Some("zsh".to_string());
    let c = container(config, host());
    // exists, not running, start ok, shell session ends fine.
    let events = [ev(true), ev(false), ev(true), Event { ok: true, code: Some(0) }];
    let (log, out) = run(&c, c.enter(), &events);
    assert_eq!(out, Outcome::Success);
    assert!(log.contains(&"invoke start devspace-proj".to_string()));
    assert_eq!(log.last().unwrap(), "session exec -it devspace-proj zsh");
}

#[test]
fn enter_defaults_to_a_plain_shell() {
    let c = container(cfg(), host());
    let events = [ev(true), ev(true), Event { ok: true, code: Some(0) }];
    let (log, out) = run(&c, c.enter(), &events);
    assert_eq!(out, Outcome::Success);
    assert_eq!(log.last().unwrap(), "session exec -it devspace-proj sh");
}

#[test]
fn the_shells_own_exit_code_is_not_interpreted() {
    let c = container(cfg(), host());
    let events = [ev(true), ev(true), Event { ok: false, code: Some(5) }];
    let (_, out) = run(&c, c.enter(), &events);
    assert_eq!(out, Outcome::Success);
}

#[test]
fn enter_spawn_failure_is_an_error() {
    let c = container(cfg(), host());
    let events = [ev(true), ev(true), Event { ok: false, code: None }];
    let (_, out) = run(&c, c.enter(), &events);
    assert_eq!(
        out,
        Outcome::Failure(Error::OperationFailed(Operation::EnterContainer))
    );
}

#[test]
fn ensure_running_leaves_a_running_container_alone() {
    let c = container(cfg(), host());
    let (log, out) = run(&c, c.ensure_running(), &[ev(true), ev(true)]);
    assert_eq!(out, Outcome::Success);
    assert!(!log.iter().any(|l| l.starts_with("invoke start")));
}

#[test]
fn ensure_running_starts_a_stopped_container() {
    let c = container(cfg(), host());
    let (log, out) = run(&c, c.ensure_running(), &[ev(true), ev(false), ev(true)]);
    assert_eq!(out, Outcome::Success);
    assert_eq!(log.last().unwrap(), "invoke start devspace-proj");
}

#[test]
fn status_reports_absent_running_and_stopped() {
    let c = container(cfg(), host());
    let (_, out) = run(&c, c.status(), &[ev(false)]);
    assert_eq!(out, Outcome::Report(ContainerStatus::Absent));
    let (_, out) = run(&c, c.status(), &[ev(true), ev(true)]);
    assert_eq!(out, Outcome::Report(ContainerStatus::Running));
    let (_, out) = run(&c, c.status(), &[ev(true), ev(false)]);
    assert_eq!(out, Outcome::Report(ContainerStatus::Stopped));
}

#[test]
fn gui_creation_relaxes_access_control_before_creating() {
    let mut config = cfg();
    config.gui = true;
    let mut env = host();
    env.display = Some(":1".to_string());
    let c = container(config, env);
    let events = [ev(false), ev(true), ev(true)];
    let (log, out) = run(&c, c.create(), &events);
    assert_eq!(out, Outcome::Success);
    let xhost_at = log.iter().position(|l| l == "allow-local-display").unwrap();
    let create_at = log.iter().position(|l| l.starts_with("invoke create")).unwrap();
    assert!(xhost_at < create_at);
}

#[test]
fn run_init_script_alone_follows_the_protocol() {
    let c = container(init_cfg(), host());
    // write ok, copy ok, start ok, init ok, stop ok, delete (ignored).
    let events = [ev(true), ev(true), ev(true), ev(true), ev(true), ev(true)];
    let (log, out) = run(&c, c.run_init_script(), &events);
    assert_eq!(out, Outcome::Success);
    assert_eq!(log[0], "write /tmp/devspace-init-7.sh");
    assert_eq!(log.last().unwrap(), "remove-script");
}
