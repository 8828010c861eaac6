//! The container and the exact runtime invocations used against it.
//!
//! Everything here is pure argument assembly: each builder states the full
//! invocation it produces. Sequencing the invocations is the lifecycle
//! machine's job (see [`crate::lifecycle`]); spawning them is the driver's.

use vstd::prelude::*;
use vstd::string::StringExecFns;
use crate::config::Config;
use crate::gui;
use crate::host::HostEnv;
use crate::runtime::Runtime;
use crate::temp_script::TempScript;

verus! {

/// The fixed in-container path the init script is copied to.
pub open spec fn spec_init_script_path() -> Seq<char> {
    "/tmp/devspace-init.sh"@
}

/// The fixed in-container mount point for the host's working directory.
pub open spec fn spec_workspace() -> Seq<char> {
    "/workspace"@
}

/// One named container: the descriptor it was asked for, the directory to
/// mount as its workspace, the runtime that owns it, the host snapshot the
/// creation arguments are assembled from, and — when an init script is
/// configured — the temporary file that will carry it.
pub struct Container {
    pub config: Config,
    pub workdir: String,
    pub runtime: Runtime,
    pub env: HostEnv,
    pub init_script: Option<TempScript>,
}

impl Container {
    /// Binds a descriptor to a located runtime and a host snapshot. `workdir`
    /// is the directory to mount as the workspace; `temp_dir` and `tag` say
    /// where the init script file, if any, will live (see
    /// [`TempScript::new`]).
    pub fn new(config: Config, workdir: String, runtime: Runtime, env: HostEnv, temp_dir: &str, tag: &str) -> (c:
        Container)
        ensures
            c.config == config,
            c.workdir == workdir,
            c.runtime == runtime,
            c.env == env,
            match config.init {
                Some(body) => c.init_script matches Some(t) && t.path@ == temp_dir@
                    + "/devspace-init-"@ + tag@ + ".sh"@ && t.content@ == "#!/bin/sh\n"@
                    + crate::temp_script::spec_trimmed(body@) + "\n"@,
                None => c.init_script is None,
            },
    {
        let init_script = match &config.init {
            Some(body) => Some(TempScript::new(temp_dir, tag, body.as_str())),
            None => None,
        };
        Container { config, workdir, runtime, env, init_script }
    }

    /// The container's identity: a fixed prefix in front of the descriptor's
    /// name.
    pub open spec fn spec_container_name(&self) -> Seq<char> {
        "devspace-"@ + self.config.name@
    }

    /// Derives the container's name from the descriptor.
    pub fn container_name(&self) -> (r: String)
        ensures
            r@ == self.spec_container_name(),
    {
        "devspace-".to_owned().concat(self.config.name.as_str())
    }

    /// The invocation that answers whether the container exists: exit success
    /// means it does, and any failure — a non-zero exit or a probe that could
    /// not be spawned — is read as "does not exist".
    pub open spec fn spec_exists_query(&self) -> Seq<Seq<char>> {
        seq!["container"@, "inspect"@, self.spec_container_name()]
    }

    /// Builds the existence probe (see [`Self::spec_exists_query`]).
    pub fn exists_query(&self) -> (q: Vec<String>)
        ensures
            q.deep_view() == self.spec_exists_query(),
    {
        let mut q: Vec<String> = Vec::new();
        push_str(&mut q, "container");
        push_str(&mut q, "inspect");
        push_string(&mut q, self.container_name());
        proof {
            assert(q.deep_view() =~= self.spec_exists_query());
        }
        q
    }

    /// The invocation that answers whether the container is running: it lists
    /// running containers filtered by this container's name, and a non-empty
    /// output means running. A query that could not be spawned is read as
    /// "not running".
    pub open spec fn spec_running_query(&self) -> Seq<Seq<char>> {
        seq!["ps"@, "-q"@, "-f"@, "name="@ + self.spec_container_name()]
    }

    /// Builds the running probe (see [`Self::spec_running_query`]).
    pub fn is_running(&self) -> (q: Vec<String>)
        ensures
            q.deep_view() == self.spec_running_query(),
    {
        let mut q: Vec<String> = Vec::new();
        push_str(&mut q, "ps");
        push_str(&mut q, "-q");
        push_str(&mut q, "-f");
        let name = self.container_name();
        push_string(&mut q, "name=".to_owned().concat(name.as_str()));
        proof {
            assert(q.deep_view() =~= self.spec_running_query());
        }
        q
    }

    /// The workspace bind mount: the working directory onto the fixed
    /// in-container path, with the relabel suffix podman requires.
    pub open spec fn spec_volume_arg(&self) -> Seq<char> {
        self.workdir@ + (match self.runtime {
            Runtime::Podman => ":/workspace:Z"@,
            Runtime::Docker => ":/workspace"@,
        })
    }

    fn volume_arg(&self) -> (r: String)
        ensures
            r@ == self.spec_volume_arg(),
    {
        match self.runtime {
            Runtime::Podman => self.workdir.clone().concat(":/workspace:Z"),
            Runtime::Docker => self.workdir.clone().concat(":/workspace"),
        }
    }

    /// The creation options: interactive + tty under the container's name,
    /// the workspace mount and working directory, terminal forwarding when
    /// `TERM` is set, the GUI passthrough block when the descriptor asks for
    /// it, and the privileged flag when requested.
    pub open spec fn spec_base_args(&self) -> Seq<Seq<char>> {
        seq![
            "create"@,
            "-it"@,
            "--name"@,
            self.spec_container_name(),
            "-v"@,
            self.spec_volume_arg(),
            "-w"@,
            spec_workspace(),
        ] + (match self.env.term {
            Some(t) => seq!["-e"@, "TERM="@ + t@],
            None => Seq::empty(),
        }) + (if self.config.gui {
            gui::spec_gui_args(&self.env)
        } else {
            Seq::empty()
        }) + (if self.config.privileged {
            seq!["--privileged"@]
        } else {
            Seq::empty()
        })
    }

    /// Assembles the creation options (see [`Self::spec_base_args`]).
    pub fn build_container_args(&self) -> (r: Vec<String>)
        ensures
            r.deep_view() == self.spec_base_args(),
    {
        let mut r: Vec<String> = Vec::new();
        push_str(&mut r, "create");
        push_str(&mut r, "-it");
        push_str(&mut r, "--name");
        push_string(&mut r, self.container_name());
        push_str(&mut r, "-v");
        push_string(&mut r, self.volume_arg());
        push_str(&mut r, "-w");
        push_str(&mut r, "/workspace");
        match &self.env.term {
            Some(t) => {
                push_str(&mut r, "-e");
                push_string(&mut r, "TERM=".to_owned().concat(t.as_str()));
            },
            None => {},
        }
        if self.config.gui {
            let g = gui::get_container_args(&self.env);
            append_strings(&mut r, g);
        }
        if self.config.privileged {
            push_str(&mut r, "--privileged");
        }
        proof {
            assert(r.deep_view() =~= self.spec_base_args());
        }
        r
    }

    /// The full creation invocation: the options, the image, and a command
    /// that sleeps forever so the container stays alive until stopped.
    pub open spec fn spec_create_args(&self) -> Seq<Seq<char>> {
        self.spec_base_args() + seq![self.config.image@, "sleep"@, "infinity"@]
    }

    /// Assembles the full creation invocation (see [`Self::spec_create_args`]).
    pub fn create_container_base(&self) -> (r: Vec<String>)
        ensures
            r.deep_view() == self.spec_create_args(),
    {
        let mut r = self.build_container_args();
        push_string(&mut r, self.config.image.clone());
        push_str(&mut r, "sleep");
        push_str(&mut r, "infinity");
        proof {
            assert(r.deep_view() =~= self.spec_create_args());
        }
        r
    }

    /// The invocation that copies the temporary script at `script_path` into
    /// the container at the fixed init script path.
    pub open spec fn spec_cp_args(&self, script_path: Seq<char>) -> Seq<Seq<char>> {
        seq![
            "cp"@,
            script_path,
            self.spec_container_name() + ":"@ + spec_init_script_path(),
        ]
    }

    pub(crate) fn cp_args(&self, script_path: &String) -> (r: Vec<String>)
        ensures
            r.deep_view() == self.spec_cp_args(script_path@),
    {
        let mut r: Vec<String> = Vec::new();
        push_str(&mut r, "cp");
        push_string(&mut r, script_path.clone());
        push_string(&mut r, self.container_name().concat(":").concat("/tmp/devspace-init.sh"));
        proof {
            assert(r.deep_view() =~= self.spec_cp_args(script_path@));
        }
        r
    }

    /// The invocation that starts the created container.
    pub open spec fn spec_start_args(&self) -> Seq<Seq<char>> {
        seq!["start"@, self.spec_container_name()]
    }

    pub(crate) fn start_args(&self) -> (r: Vec<String>)
        ensures
            r.deep_view() == self.spec_start_args(),
    {
        let mut r: Vec<String> = Vec::new();
        push_str(&mut r, "start");
        push_string(&mut r, self.container_name());
        proof {
            assert(r.deep_view() =~= self.spec_start_args());
        }
        r
    }

    /// The invocation that runs the copied init script inside the container.
    pub open spec fn spec_init_exec_args(&self) -> Seq<Seq<char>> {
        seq!["exec"@, self.spec_container_name(), spec_init_script_path()]
    }

    pub(crate) fn init_exec_args(&self) -> (r: Vec<String>)
        ensures
            r.deep_view() == self.spec_init_exec_args(),
    {
        let mut r: Vec<String> = Vec::new();
        push_str(&mut r, "exec");
        push_string(&mut r, self.container_name());
        push_str(&mut r, "/tmp/devspace-init.sh");
        proof {
            assert(r.deep_view() =~= self.spec_init_exec_args());
        }
        r
    }

    /// The invocation that stops the container with a zero-second grace
    /// timeout: immediate kill semantics, no graceful shutdown window.
    pub open spec fn spec_stop_args(&self) -> Seq<Seq<char>> {
        seq!["stop"@, "-t"@, "0"@, self.spec_container_name()]
    }

    pub(crate) fn stop_args(&self) -> (r: Vec<String>)
        ensures
            r.deep_view() == self.spec_stop_args(),
    {
        let mut r: Vec<String> = Vec::new();
        push_str(&mut r, "stop");
        push_str(&mut r, "-t");
        push_str(&mut r, "0");
        push_string(&mut r, self.container_name());
        proof {
            assert(r.deep_view() =~= self.spec_stop_args());
        }
        r
    }

    /// The invocation that removes the stopped container.
    pub open spec fn spec_rm_args(&self) -> Seq<Seq<char>> {
        seq!["rm"@, self.spec_container_name()]
    }

    pub(crate) fn rm_args(&self) -> (r: Vec<String>)
        ensures
            r.deep_view() == self.spec_rm_args(),
    {
        let mut r: Vec<String> = Vec::new();
        push_str(&mut r, "rm");
        push_string(&mut r, self.container_name());
        proof {
            assert(r.deep_view() =~= self.spec_rm_args());
        }
        r
    }

    /// The shell an interactive session runs: the configured one, or a plain
    /// POSIX shell.
    pub open spec fn spec_shell(&self) -> Seq<char> {
        match self.config.shell {
            Some(s) => s@,
            None => "sh"@,
        }
    }

    /// The interactive, tty-allocated invocation that enters the container
    /// with the configured shell.
    pub open spec fn spec_enter_args(&self) -> Seq<Seq<char>> {
        seq!["exec"@, "-it"@, self.spec_container_name(), self.spec_shell()]
    }

    pub(crate) fn enter_args(&self) -> (r: Vec<String>)
        ensures
            r.deep_view() == self.spec_enter_args(),
    {
        let mut r: Vec<String> = Vec::new();
        push_str(&mut r, "exec");
        push_str(&mut r, "-it");
        push_string(&mut r, self.container_name());
        match &self.config.shell {
            Some(s) => push_string(&mut r, s.clone()),
            None => push_str(&mut r, "sh"),
        }
        proof {
            assert(r.deep_view() =~= self.spec_enter_args());
        }
        r
    }

    /// The interactive, tty-allocated invocation that runs a caller-supplied
    /// command vector inside the container.
    pub open spec fn spec_exec_args(&self, command: Seq<Seq<char>>) -> Seq<Seq<char>> {
        seq!["exec"@, "-it"@, self.spec_container_name()] + command
    }

    pub(crate) fn exec_args(&self, command: Vec<String>) -> (r: Vec<String>)
        ensures
            r.deep_view() == self.spec_exec_args(command.deep_view()),
    {
        let ghost command_view = command.deep_view();

        let mut r: Vec<String> = Vec::new();
        push_str(&mut r, "exec");
        push_str(&mut r, "-it");
        push_string(&mut r, self.container_name());
        append_strings(&mut r, command);
        proof {
            assert(r.deep_view() =~= self.spec_exec_args(command_view));
        }
        r
    }
}

pub(crate) fn append_strings(v: &mut Vec<String>, w: Vec<String>)
    ensures
        final(v).deep_view() == old(v).deep_view() + w.deep_view(),
{
    let ghost w_deep = w.deep_view();
    let ghost w_view = w@;
    let mut w = w;
    v.append(&mut w);
    proof {
        assert forall|i: int| 0 <= i < v.deep_view().len() implies v.deep_view()[i] == (old(
            v,
        ).deep_view() + w_deep)[i] by {
            if i < old(v)@.len() {
                assert(v@[i] == old(v)@[i]);
            } else {
                assert(v@[i] == w_view[i - old(v)@.len()]);
            }
        }
        assert(v.deep_view() =~= old(v).deep_view() + w_deep);
    }
}

pub(crate) fn push_str(v: &mut Vec<String>, s: &str)
    ensures
        final(v).deep_view() == old(v).deep_view().push(s@),
{
    v.push(s.to_owned());
    proof {
        assert(v.deep_view() =~= old(v).deep_view().push(s@));
    }
}

pub(crate) fn push_string(v: &mut Vec<String>, s: String)
    ensures
        final(v).deep_view() == old(v).deep_view().push(s@),
{
    let ghost view = s@;
    v.push(s);
    proof {
        assert(v.deep_view() =~= old(v).deep_view().push(view));
    }
}

} // verus!
