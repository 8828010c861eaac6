//! The container lifecycle state machine.
//!
//! Every lifecycle operation is a protocol: the machine hands the driver one
//! [`Action`] at a time, the driver performs it against the host and feeds
//! the observed [`Event`] back into [`Container::step`], until the machine
//! answers with an [`Outcome`]. The machine owns every decision — what to
//! invoke, in what order, and how a result is read — while the driver owns
//! nothing but the spawning.

use vstd::prelude::*;
use crate::container::Container;
use crate::errors::Error;
use crate::errors::Operation;
use crate::temp_script::TempScript;

verus! {

/// One thing the driver is asked to do before the next step.
#[derive(Debug)]
pub enum Action {
    /// Run the runtime executable with these arguments, stdout and stderr
    /// inherited or suppressed per the driver's verbosity. The event's `ok`
    /// is true when the process spawned and exited successfully.
    Invoke(Vec<String>),
    /// Run the runtime executable with these arguments and capture stdout.
    /// The event's `ok` is true when the process spawned and printed
    /// something: a failed or silent query reads as "not running".
    QueryRunning(Vec<String>),
    /// Run the runtime executable with these arguments, terminal-attached.
    /// The event's `ok` is true on a successful exit; `code` carries the exit
    /// code (1 when the process ended without one) and is `None` exactly when
    /// the process could not be spawned.
    Interactive(Vec<String>),
    /// Write the script's content to its path with executable permission.
    /// The event's `ok` is true when both the write and the permission change
    /// succeeded.
    WriteScript(TempScript),
    /// Best-effort delete of the script file written earlier; the event is
    /// ignored.
    RemoveScript,
    /// Best-effort host-side relaxation of local X access control (see
    /// [`crate::gui::allow_local_connections`]); the event is ignored.
    AllowLocalDisplay,
}

/// What the driver observed while performing the last [`Action`].
#[derive(Clone, Copy, PartialEq, Eq, Debug)]
pub struct Event {
    pub ok: bool,
    pub code: Option<i32>,
}

/// How a finished operation ended.
#[derive(Clone, Copy, PartialEq, Eq, Structural, Debug)]
pub enum Outcome {
    /// The operation did what was asked.
    Success,
    /// The operation failed; the error says where.
    Failure(Error),
    /// A caller-supplied command finished with this non-zero exit code; the
    /// tool terminates with the same code rather than reporting an error.
    Exit(i32),
    /// The answer of a status query.
    Report(ContainerStatus),
}

/// The observable state of the container, as a status query reports it.
#[derive(Clone, Copy, PartialEq, Eq, Structural, Debug)]
pub enum ContainerStatus {
    Absent,
    Running,
    Stopped,
}

/// The interactive session an operation ends in.
#[derive(Debug)]
pub enum Session {
    /// None: the operation only makes sure the container runs.
    Stay,
    /// Enter the configured shell.
    Enter,
    /// Run this caller-supplied command vector.
    Exec(Vec<String>),
}

/// What the creation flow continues with once the container exists.
#[derive(Debug)]
pub enum Follow {
    /// Nothing: creation was the whole operation.
    CreateOnly,
    /// Make sure the container runs, then open the session.
    Run(Session),
}

/// Which kind of interactive session is in flight.
#[derive(Clone, Copy, PartialEq, Eq, Structural, Debug)]
pub enum SessionKind {
    EnterSession,
    ExecSession,
}

/// Where the machine stands: what the last action was for, and hence how its
/// event is to be read.
#[derive(Debug)]
pub enum St {
    /// The existence probe of a creation flow is out.
    ExistsCheck(Follow),
    /// The host-side X access relaxation is out; its result is ignored.
    PreCreate(Follow),
    /// The creation invocation is out.
    CreateWait(Follow),
    /// The temporary script write is out.
    ScriptWait(Follow),
    /// The copy of the script into the container is out.
    CopyWait(Follow),
    /// The start before running the init script is out.
    InitStartWait(Follow),
    /// The in-container init script execution is out.
    InitExecWait(Follow),
    /// The best-effort stop after a failed init execution is out; its result
    /// is ignored.
    InitStopFailWait(Follow),
    /// The checked stop after a successful init execution is out.
    InitStopOkWait(Follow),
    /// The script file delete is out; afterwards the held result is acted on.
    Cleanup(Result<(), Error>, Follow),
    /// The running probe of an ensure-running flow is out.
    RunningCheck(Session),
    /// The start of an ensure-running flow is out.
    StartWait(Session),
    /// The interactive session is out.
    SessionWait(SessionKind),
    /// The existence probe of a stop flow is out; when the flag is set, the
    /// container is removed after the stop flow succeeds.
    StopExists(bool),
    /// The running probe of a stop flow is out.
    StopRunning(bool),
    /// The stop invocation is out.
    StopWait(bool),
    /// The existence probe of a remove flow is out.
    RemoveExists,
    /// The remove invocation is out.
    RemoveRmWait,
    /// The existence probe of a status query is out.
    StatusExists,
    /// The running probe of a status query is out.
    StatusRunning,
}

/// What the machine answers: the next action and state, or the outcome.
#[derive(Debug)]
pub enum Step {
    Do(Action, St),
    Finished(Outcome),
}

/// An [`Action`] as the contracts see it: argument lists as sequences, the
/// script as its path and content.
pub enum SpecAction {
    Invoke(Seq<Seq<char>>),
    QueryRunning(Seq<Seq<char>>),
    Interactive(Seq<Seq<char>>),
    WriteScript(Seq<char>, Seq<char>),
    RemoveScript,
    AllowLocalDisplay,
}

/// A [`Step`] as the contracts see it.
pub enum SpecStep {
    Do(SpecAction, St),
    Finished(Outcome),
}

impl View for Action {
    type V = SpecAction;

    open spec fn view(&self) -> SpecAction {
        match self {
            Action::Invoke(args) => SpecAction::Invoke(args.deep_view()),
            Action::QueryRunning(args) => SpecAction::QueryRunning(args.deep_view()),
            Action::Interactive(args) => SpecAction::Interactive(args.deep_view()),
            Action::WriteScript(t) => SpecAction::WriteScript(t.path@, t.content@),
            Action::RemoveScript => SpecAction::RemoveScript,
            Action::AllowLocalDisplay => SpecAction::AllowLocalDisplay,
        }
    }
}

impl View for Step {
    type V = SpecStep;

    open spec fn view(&self) -> SpecStep {
        match self {
            Step::Do(a, st) => SpecStep::Do(a@, *st),
            Step::Finished(o) => SpecStep::Finished(*o),
        }
    }
}

/// What the creation flow does once the container is known to exist: done,
/// or — when a session is wanted — ask whether it is already running.
pub open spec fn spec_after_created(c: &Container, f: Follow) -> SpecStep {
    match f {
        Follow::CreateOnly => SpecStep::Finished(Outcome::Success),
        Follow::Run(s) => SpecStep::Do(
            SpecAction::QueryRunning(c.spec_running_query()),
            St::RunningCheck(s),
        ),
    }
}

/// What a flow does once the container is known to run: done, or open the
/// wanted interactive session.
pub open spec fn spec_session(c: &Container, s: Session) -> SpecStep {
    match s {
        Session::Stay => SpecStep::Finished(Outcome::Success),
        Session::Enter => SpecStep::Do(
            SpecAction::Interactive(c.spec_enter_args()),
            St::SessionWait(SessionKind::EnterSession),
        ),
        Session::Exec(command) => SpecStep::Do(
            SpecAction::Interactive(c.spec_exec_args(command.deep_view())),
            St::SessionWait(SessionKind::ExecSession),
        ),
    }
}

/// What the stop flow does once it succeeded as a no-op or after a stop: done,
/// or — inside a remove flow — issue the remove invocation.
pub open spec fn spec_after_stop(c: &Container, then_remove: bool) -> SpecStep {
    if then_remove {
        SpecStep::Do(SpecAction::Invoke(c.spec_rm_args()), St::RemoveRmWait)
    } else {
        SpecStep::Finished(Outcome::Success)
    }
}

/// The transition relation of the lifecycle machine: given where the machine
/// stands and what the driver observed, what it does next.
pub open spec fn spec_step(c: &Container, st: St, ev: Event) -> SpecStep {
    match st {
        St::ExistsCheck(f) => if ev.ok {
            spec_after_created(c, f)
        } else if c.config.gui && c.env.display is Some {
            SpecStep::Do(SpecAction::AllowLocalDisplay, St::PreCreate(f))
        } else {
            SpecStep::Do(SpecAction::Invoke(c.spec_create_args()), St::CreateWait(f))
        },
        St::PreCreate(f) => SpecStep::Do(
            SpecAction::Invoke(c.spec_create_args()),
            St::CreateWait(f),
        ),
        St::CreateWait(f) => if !ev.ok {
            SpecStep::Finished(Outcome::Failure(Error::OperationFailed(Operation::CreateContainer)))
        } else {
            match c.init_script {
                Some(t) => SpecStep::Do(
                    SpecAction::WriteScript(t.path@, t.content@),
                    St::ScriptWait(f),
                ),
                None => spec_after_created(c, f),
            }
        },
        St::ScriptWait(f) => if !ev.ok {
            SpecStep::Do(SpecAction::RemoveScript, St::Cleanup(Err(Error::ResourceIO), f))
        } else {
            match c.init_script {
                Some(t) => SpecStep::Do(
                    SpecAction::Invoke(c.spec_cp_args(t.path@)),
                    St::CopyWait(f),
                ),
                None => SpecStep::Do(
                    SpecAction::RemoveScript,
                    St::Cleanup(Err(Error::ResourceIO), f),
                ),
            }
        },
        St::CopyWait(f) => if !ev.ok {
            SpecStep::Do(
                SpecAction::RemoveScript,
                St::Cleanup(Err(Error::OperationFailed(Operation::CopyInitScript)), f),
            )
        } else {
            SpecStep::Do(SpecAction::Invoke(c.spec_start_args()), St::InitStartWait(f))
        },
        St::InitStartWait(f) => if !ev.ok {
            SpecStep::Do(
                SpecAction::RemoveScript,
                St::Cleanup(Err(Error::OperationFailed(Operation::StartContainer)), f),
            )
        } else {
            SpecStep::Do(SpecAction::Invoke(c.spec_init_exec_args()), St::InitExecWait(f))
        },
        St::InitExecWait(f) => if !ev.ok {
            SpecStep::Do(SpecAction::Invoke(c.spec_stop_args()), St::InitStopFailWait(f))
        } else {
            SpecStep::Do(SpecAction::Invoke(c.spec_stop_args()), St::InitStopOkWait(f))
        },
        St::InitStopFailWait(f) => SpecStep::Do(
            SpecAction::RemoveScript,
            St::Cleanup(Err(Error::InitScriptFailed), f),
        ),
        St::InitStopOkWait(f) => if ev.ok {
            SpecStep::Do(SpecAction::RemoveScript, St::Cleanup(Ok(()), f))
        } else {
            SpecStep::Do(
                SpecAction::RemoveScript,
                St::Cleanup(Err(Error::OperationFailed(Operation::StopContainer)), f),
            )
        },
        St::Cleanup(res, f) => match res {
            Ok(()) => spec_after_created(c, f),
            Err(e) => SpecStep::Finished(Outcome::Failure(e)),
        },
        St::RunningCheck(s) => if ev.ok {
            spec_session(c, s)
        } else {
            SpecStep::Do(SpecAction::Invoke(c.spec_start_args()), St::StartWait(s))
        },
        St::StartWait(s) => if !ev.ok {
            SpecStep::Finished(Outcome::Failure(Error::OperationFailed(Operation::StartContainer)))
        } else {
            spec_session(c, s)
        },
        St::SessionWait(k) => match k {
            SessionKind::EnterSession => if ev.ok {
                SpecStep::Finished(Outcome::Success)
            } else {
                match ev.code {
                    None => SpecStep::Finished(
                        Outcome::Failure(Error::OperationFailed(Operation::EnterContainer)),
                    ),
                    Some(_) => SpecStep::Finished(Outcome::Success),
                }
            },
            SessionKind::ExecSession => if ev.ok {
                SpecStep::Finished(Outcome::Success)
            } else {
                match ev.code {
                    None => SpecStep::Finished(
                        Outcome::Failure(Error::OperationFailed(Operation::ExecCommand)),
                    ),
                    Some(code) => SpecStep::Finished(Outcome::Exit(code)),
                }
            },
        },
        St::StopExists(then_remove) => if ev.ok {
            SpecStep::Do(SpecAction::QueryRunning(c.spec_running_query()), St::StopRunning(then_remove))
        } else {
            spec_after_stop(c, then_remove)
        },
        St::StopRunning(then_remove) => if ev.ok {
            SpecStep::Do(SpecAction::Invoke(c.spec_stop_args()), St::StopWait(then_remove))
        } else {
            spec_after_stop(c, then_remove)
        },
        St::StopWait(then_remove) => if ev.ok {
            spec_after_stop(c, then_remove)
        } else {
            SpecStep::Finished(Outcome::Failure(Error::OperationFailed(Operation::StopContainer)))
        },
        St::RemoveExists => if ev.ok {
            SpecStep::Do(SpecAction::Invoke(c.spec_exists_query()), St::StopExists(true))
        } else {
            SpecStep::Finished(Outcome::Success)
        },
        St::RemoveRmWait => if ev.ok {
            SpecStep::Finished(Outcome::Success)
        } else {
            SpecStep::Finished(Outcome::Failure(Error::OperationFailed(Operation::RemoveContainer)))
        },
        St::StatusExists => if ev.ok {
            SpecStep::Do(SpecAction::QueryRunning(c.spec_running_query()), St::StatusRunning)
        } else {
            SpecStep::Finished(Outcome::Report(ContainerStatus::Absent))
        },
        St::StatusRunning => if ev.ok {
            SpecStep::Finished(Outcome::Report(ContainerStatus::Running))
        } else {
            SpecStep::Finished(Outcome::Report(ContainerStatus::Stopped))
        },
    }
}

impl Container {
    fn after_created_step(&self, f: Follow) -> (r: Step)
        ensures
            r@ == spec_after_created(self, f),
    {
        match f {
            Follow::CreateOnly => Step::Finished(Outcome::Success),
            Follow::Run(s) => Step::Do(
                Action::QueryRunning(self.is_running()),
                St::RunningCheck(s),
            ),
        }
    }

    fn session_entry_step(&self, s: Session) -> (r: Step)
        ensures
            r@ == spec_session(self, s),
    {
        match s {
            Session::Stay => Step::Finished(Outcome::Success),
            Session::Enter => Step::Do(
                Action::Interactive(self.enter_args()),
                St::SessionWait(SessionKind::EnterSession),
            ),
            Session::Exec(command) => Step::Do(
                Action::Interactive(self.exec_args(command)),
                St::SessionWait(SessionKind::ExecSession),
            ),
        }
    }

    fn after_stop_step(&self, then_remove: bool) -> (r: Step)
        ensures
            r@ == spec_after_stop(self, then_remove),
    {
        if then_remove {
            Step::Do(Action::Invoke(self.rm_args()), St::RemoveRmWait)
        } else {
            Step::Finished(Outcome::Success)
        }
    }

    /// One transition of the lifecycle machine: reads the event of the action
    /// the given state was waiting on, and answers with the next action or
    /// the outcome, exactly as [`spec_step`] says.
    pub fn step(&self, st: St, ev: Event) -> (r: Step)
        ensures
            r@ == spec_step(self, st, ev),
    {
        match st {
            St::ExistsCheck(f) => if ev.ok {
                self.after_created_step(f)
            } else if self.config.gui && self.env.display.is_some() {
                Step::Do(Action::AllowLocalDisplay, St::PreCreate(f))
            } else {
                Step::Do(Action::Invoke(self.create_container_base()), St::CreateWait(f))
            },
            St::PreCreate(f) => Step::Do(
                Action::Invoke(self.create_container_base()),
                St::CreateWait(f),
            ),
            St::CreateWait(f) => if !ev.ok {
                Step::Finished(
                    Outcome::Failure(Error::OperationFailed(Operation::CreateContainer)),
                )
            } else {
                match &self.init_script {
                    Some(t) => Step::Do(Action::WriteScript(t.clone()), St::ScriptWait(f)),
                    None => self.after_created_step(f),
                }
            },
            St::ScriptWait(f) => if !ev.ok {
                Step::Do(Action::RemoveScript, St::Cleanup(Err(Error::ResourceIO), f))
            } else {
                match &self.init_script {
                    Some(t) => Step::Do(Action::Invoke(self.cp_args(t.path())), St::CopyWait(f)),
                    None => Step::Do(Action::RemoveScript, St::Cleanup(Err(Error::ResourceIO), f)),
                }
            },
            St::CopyWait(f) => if !ev.ok {
                Step::Do(
                    Action::RemoveScript,
                    St::Cleanup(Err(Error::OperationFailed(Operation::CopyInitScript)), f),
                )
            } else {
                Step::Do(Action::Invoke(self.start_args()), St::InitStartWait(f))
            },
            St::InitStartWait(f) => if !ev.ok {
                Step::Do(
                    Action::RemoveScript,
                    St::Cleanup(Err(Error::OperationFailed(Operation::StartContainer)), f),
                )
            } else {
                Step::Do(Action::Invoke(self.init_exec_args()), St::InitExecWait(f))
            },
            St::InitExecWait(f) => if !ev.ok {
                Step::Do(Action::Invoke(self.stop_args()), St::InitStopFailWait(f))
            } else {
                Step::Do(Action::Invoke(self.stop_args()), St::InitStopOkWait(f))
            },
            St::InitStopFailWait(f) => Step::Do(
                Action::RemoveScript,
                St::Cleanup(Err(Error::InitScriptFailed), f),
            ),
            St::InitStopOkWait(f) => if ev.ok {
                Step::Do(Action::RemoveScript, St::Cleanup(Ok(()), f))
            } else {
                Step::Do(
                    Action::RemoveScript,
                    St::Cleanup(Err(Error::OperationFailed(Operation::StopContainer)), f),
                )
            },
            St::Cleanup(res, f) => match res {
                Ok(()) => self.after_created_step(f),
                Err(e) => Step::Finished(Outcome::Failure(e)),
            },
            St::RunningCheck(s) => if ev.ok {
                self.session_entry_step(s)
            } else {
                Step::Do(Action::Invoke(self.start_args()), St::StartWait(s))
            },
            St::StartWait(s) => if !ev.ok {
                Step::Finished(
                    Outcome::Failure(Error::OperationFailed(Operation::StartContainer)),
                )
            } else {
                self.session_entry_step(s)
            },
            St::SessionWait(k) => match k {
                SessionKind::EnterSession => if ev.ok {
                    Step::Finished(Outcome::Success)
                } else {
                    match ev.code {
                        None => Step::Finished(
                            Outcome::Failure(Error::OperationFailed(Operation::EnterContainer)),
                        ),
                        Some(_) => Step::Finished(Outcome::Success),
                    }
                },
                SessionKind::ExecSession => if ev.ok {
                    Step::Finished(Outcome::Success)
                } else {
                    match ev.code {
                        None => Step::Finished(
                            Outcome::Failure(Error::OperationFailed(Operation::ExecCommand)),
                        ),
                        Some(code) => Step::Finished(Outcome::Exit(code)),
                    }
                },
            },
            St::StopExists(then_remove) => if ev.ok {
                Step::Do(Action::QueryRunning(self.is_running()), St::StopRunning(then_remove))
            } else {
                self.after_stop_step(then_remove)
            },
            St::StopRunning(then_remove) => if ev.ok {
                Step::Do(Action::Invoke(self.stop_args()), St::StopWait(then_remove))
            } else {
                self.after_stop_step(then_remove)
            },
            St::StopWait(then_remove) => if ev.ok {
                self.after_stop_step(then_remove)
            } else {
                Step::Finished(Outcome::Failure(Error::OperationFailed(Operation::StopContainer)))
            },
            St::RemoveExists => if ev.ok {
                Step::Do(Action::Invoke(self.exists_query()), St::StopExists(true))
            } else {
                Step::Finished(Outcome::Success)
            },
            St::RemoveRmWait => if ev.ok {
                Step::Finished(Outcome::Success)
            } else {
                Step::Finished(
                    Outcome::Failure(Error::OperationFailed(Operation::RemoveContainer)),
                )
            },
            St::StatusExists => if ev.ok {
                Step::Do(Action::QueryRunning(self.is_running()), St::StatusRunning)
            } else {
                Step::Finished(Outcome::Report(ContainerStatus::Absent))
            },
            St::StatusRunning => if ev.ok {
                Step::Finished(Outcome::Report(ContainerStatus::Running))
            } else {
                Step::Finished(Outcome::Report(ContainerStatus::Stopped))
            },
        }
    }

    /// Begins the creation flow: probe for existence; create — and, when an
    /// init script is configured, run the initialization protocol — only when
    /// the probe answers that the container is absent.
    pub fn create(&self) -> (r: (Action, St))
        ensures
            r.0@ == SpecAction::Invoke(self.spec_exists_query()),
            r.1 == St::ExistsCheck(Follow::CreateOnly),
    {
        (Action::Invoke(self.exists_query()), St::ExistsCheck(Follow::CreateOnly))
    }

    /// Begins the ensure-running flow: the creation flow, then a start when
    /// the container is not already running.
    pub fn ensure_running(&self) -> (r: (Action, St))
        ensures
            r.0@ == SpecAction::Invoke(self.spec_exists_query()),
            r.1 == St::ExistsCheck(Follow::Run(Session::Stay)),
    {
        (Action::Invoke(self.exists_query()), St::ExistsCheck(Follow::Run(Session::Stay)))
    }

    /// Begins the enter flow: the ensure-running flow, then an interactive
    /// session in the configured shell.
    pub fn enter(&self) -> (r: (Action, St))
        ensures
            r.0@ == SpecAction::Invoke(self.spec_exists_query()),
            r.1 == St::ExistsCheck(Follow::Run(Session::Enter)),
    {
        (Action::Invoke(self.exists_query()), St::ExistsCheck(Follow::Run(Session::Enter)))
    }

    /// Begins the exec flow: the ensure-running flow, then the given command,
    /// interactive and tty-allocated, whose exit code becomes the outcome.
    pub fn exec(&self, command: Vec<String>) -> (r: (Action, St))
        ensures
            r.0@ == SpecAction::Invoke(self.spec_exists_query()),
            r.1 == St::ExistsCheck(Follow::Run(Session::Exec(command))),
    {
        (Action::Invoke(self.exists_query()), St::ExistsCheck(Follow::Run(Session::Exec(command))))
    }

    /// Begins the initialization protocol on its own: write the script, copy
    /// it in, start, execute it, and always stop and clean up afterwards.
    pub fn run_init_script(&self) -> (r: (Action, St))
        requires
            self.init_script is Some,
        ensures
            self.init_script matches Some(t) && r.0@ == SpecAction::WriteScript(
                t.path@,
                t.content@,
            ),
            r.1 == St::ScriptWait(Follow::CreateOnly),
    {
        match &self.init_script {
            Some(t) => (Action::WriteScript(t.clone()), St::ScriptWait(Follow::CreateOnly)),
            None => (Action::RemoveScript, St::ScriptWait(Follow::CreateOnly)),
        }
    }

    /// Begins the stop flow: a no-op success when the container does not
    /// exist or is not running, an immediate stop otherwise.
    pub fn stop(&self) -> (r: (Action, St))
        ensures
            r.0@ == SpecAction::Invoke(self.spec_exists_query()),
            r.1 == St::StopExists(false),
    {
        (Action::Invoke(self.exists_query()), St::StopExists(false))
    }

    /// Begins the remove flow: a no-op success when the container does not
    /// exist; otherwise the stop flow, then the remove invocation.
    pub fn remove(&self) -> (r: (Action, St))
        ensures
            r.0@ == SpecAction::Invoke(self.spec_exists_query()),
            r.1 == St::RemoveExists,
    {
        (Action::Invoke(self.exists_query()), St::RemoveExists)
    }

    /// Begins the status query: a pure read reporting absent, running or
    /// stopped.
    pub fn status(&self) -> (r: (Action, St))
        ensures
            r.0@ == SpecAction::Invoke(self.spec_exists_query()),
            r.1 == St::StatusExists,
    {
        (Action::Invoke(self.exists_query()), St::StatusExists)
    }
}

/// Whether, in this state, the temporary script file may still be on disk:
/// the machine is inside the initialization protocol, after asking for the
/// write and before asking for the delete.
pub open spec fn script_pending(st: St) -> bool {
    match st {
        St::ScriptWait(_) => true,
        St::CopyWait(_) => true,
        St::InitStartWait(_) => true,
        St::InitExecWait(_) => true,
        St::InitStopFailWait(_) => true,
        St::InitStopOkWait(_) => true,
        _ => false,
    }
}

/// How performing an action changes whether the script file may be on disk:
/// a write puts it there (even a failed one may leave it behind, so the
/// machine treats it as present), the delete takes it away, and nothing else
/// touches it.
pub open spec fn spec_file_after(on_disk: bool, a: SpecAction) -> bool {
    match a {
        SpecAction::WriteScript(_, _) => true,
        SpecAction::RemoveScript => false,
        _ => on_disk,
    }
}

/// Law (script cleanup, one step): the machine never finishes while the
/// script file may be on disk, and along every transition the states track
/// the file exactly as the emitted actions move it.
pub proof fn lemma_script_cleanup_step(c: &Container, st: St, ev: Event)
    ensures
        spec_step(c, st, ev) matches SpecStep::Finished(_) ==> !script_pending(st),
        spec_step(c, st, ev) matches SpecStep::Do(a, st2) ==> script_pending(st2)
            == spec_file_after(script_pending(st), a),
{
}

/// A whole run of the machine over a sequence of observed events, tracking
/// whether the script file may be on disk: the final file state, and the
/// outcome when the machine finished within the given events.
pub open spec fn spec_run(c: &Container, st: St, on_disk: bool, evs: Seq<Event>) -> (
    bool,
    Option<Outcome>,
)
    decreases evs.len(),
{
    if evs.len() == 0 {
        (on_disk, None)
    } else {
        match spec_step(c, st, evs[0]) {
            SpecStep::Finished(o) => (on_disk, Some(o)),
            SpecStep::Do(a, st2) => spec_run(
                c,
                st2,
                spec_file_after(on_disk, a),
                evs.drop_first(),
            ),
        }
    }
}

/// Law (ephemeral script cleanup): in any run of the machine — whatever the
/// events, so whether initialization succeeded, failed at the copy step, or
/// failed at the execute step — once the machine finishes, the temporary
/// script file is off the disk.
pub proof fn lemma_script_removed_on_finish(c: &Container, st: St, on_disk: bool, evs: Seq<Event>)
    requires
        on_disk ==> script_pending(st),
    ensures
        spec_run(c, st, on_disk, evs).1 is Some ==> !spec_run(c, st, on_disk, evs).0,
    decreases evs.len(),
{
    if evs.len() > 0 {
        lemma_script_cleanup_step(c, st, evs[0]);
        match spec_step(c, st, evs[0]) {
            SpecStep::Finished(_) => {},
            SpecStep::Do(a, st2) => {
                lemma_script_removed_on_finish(
                    c,
                    st2,
                    spec_file_after(on_disk, a),
                    evs.drop_first(),
                );
            },
        }
    }
}

/// Law (a creation flow cleans up after itself): a creation flow starts with
/// no script file on disk, so however it ends, the file is absent once it
/// finishes.
pub proof fn lemma_create_flow_cleans_up(c: &Container, f: Follow, evs: Seq<Event>)
    ensures
        spec_run(c, St::ExistsCheck(f), false, evs).1 is Some ==> !spec_run(
            c,
            St::ExistsCheck(f),
            false,
            evs,
        ).0,
{
    lemma_script_removed_on_finish(c, St::ExistsCheck(f), false, evs);
}

/// Law (the init protocol never leaves the container running): once the
/// in-container init execution has been attempted, the machine's next action
/// is the stop invocation — on the success path checked, on the failure path
/// best-effort — so a failed init does not leak a running container.
pub proof fn lemma_init_always_stops(c: &Container, f: Follow, ev: Event)
    ensures
        spec_step(c, St::InitExecWait(f), ev) matches SpecStep::Do(a, _) ==> a
            == SpecAction::Invoke(c.spec_stop_args()),
        !(spec_step(c, St::InitExecWait(f), ev) matches SpecStep::Finished(_)),
{
}

/// Law (idempotent creation, one step): when the existence probe answers that
/// the container is already there, a creation flow finishes successfully at
/// once, and an ensure-running flow goes straight to its running probe
/// without creating anything.
pub proof fn lemma_create_idempotent(c: &Container, f: Follow, ev: Event)
    requires
        ev.ok,
    ensures
        f is CreateOnly ==> spec_step(c, St::ExistsCheck(f), ev) == SpecStep::Finished(
            Outcome::Success,
        ),
        spec_step(c, St::ExistsCheck(f), ev) matches SpecStep::Do(a, _) ==> a matches
            SpecAction::QueryRunning(_),
{
}

/// Whether this action is the creation invocation.
pub open spec fn is_creation(c: &Container, a: SpecAction) -> bool {
    a matches SpecAction::Invoke(args) && args == c.spec_create_args()
}

/// States from which the machine can no longer emit the creation invocation:
/// everything past the existence probe of a creation flow.
pub open spec fn creation_settled(st: St) -> bool {
    match st {
        St::ExistsCheck(_) => false,
        St::PreCreate(_) => false,
        _ => true,
    }
}

/// How many creation invocations a run emits.
pub open spec fn creation_count(c: &Container, st: St, evs: Seq<Event>) -> nat
    decreases evs.len(),
{
    if evs.len() == 0 {
        0
    } else {
        match spec_step(c, st, evs[0]) {
            SpecStep::Finished(_) => 0,
            SpecStep::Do(a, st2) => (if is_creation(c, a) {
                1nat
            } else {
                0nat
            }) + creation_count(c, st2, evs.drop_first()),
        }
    }
}

/// Every invocation the machine emits from a settled state is one of the
/// short fixed commands, never the creation invocation, and the machine stays
/// settled.
pub proof fn lemma_settled_step(c: &Container, st: St, ev: Event)
    requires
        creation_settled(st),
    ensures
        spec_step(c, st, ev) matches SpecStep::Do(a, st2) ==> creation_settled(st2)
            && !is_creation(c, a),
{
    assert(c.spec_create_args().len() >= 11);
}

/// A run from a settled state emits no creation invocation.
pub proof fn lemma_settled_no_creation(c: &Container, st: St, evs: Seq<Event>)
    requires
        creation_settled(st),
    ensures
        creation_count(c, st, evs) == 0,
    decreases evs.len(),
{
    if evs.len() > 0 {
        lemma_settled_step(c, st, evs[0]);
        match spec_step(c, st, evs[0]) {
            SpecStep::Finished(_) => {},
            SpecStep::Do(a, st2) => {
                lemma_settled_no_creation(c, st2, evs.drop_first());
            },
        }
    }
}

/// Law (idempotent creation, whole runs): any run of a creation flow — also
/// as the front of an ensure-running, enter or exec flow — performs the
/// creation invocation at most once; and when the first probe finds the
/// container already there, it performs it not at all, so a second creation
/// flow right after a successful first one creates nothing.
pub proof fn lemma_creation_at_most_once(c: &Container, f: Follow, evs: Seq<Event>)
    ensures
        creation_count(c, St::ExistsCheck(f), evs) <= 1,
        evs.len() > 0 && evs[0].ok ==> creation_count(c, St::ExistsCheck(f), evs) == 0,
{
    if evs.len() > 0 {
        match spec_step(c, St::ExistsCheck(f), evs[0]) {
            SpecStep::Finished(_) => {},
            SpecStep::Do(a, st2) => {
                if evs[0].ok {
                    lemma_settled_no_creation(c, st2, evs.drop_first());
                    assert(!is_creation(c, a));
                } else if c.config.gui && c.env.display is Some {
                    lemma_precreate_at_most_once(c, st2, evs.drop_first());
                    assert(!is_creation(c, a));
                } else {
                    lemma_settled_no_creation(c, st2, evs.drop_first());
                }
            },
        }
    }
}

/// From the access-relaxation state, a run still performs the creation
/// invocation at most once.
proof fn lemma_precreate_at_most_once(c: &Container, st: St, evs: Seq<Event>)
    requires
        st matches St::PreCreate(_),
    ensures
        creation_count(c, st, evs) <= 1,
{
    if evs.len() > 0 {
        match spec_step(c, st, evs[0]) {
            SpecStep::Finished(_) => {},
            SpecStep::Do(a, st2) => {
                lemma_settled_no_creation(c, st2, evs.drop_first());
            },
        }
    }
}

/// Law (remove is a no-op on an absent container): when the existence probe
/// fails, the remove flow finishes successfully without issuing a stop or a
/// remove invocation.
pub proof fn lemma_remove_absent_noop(c: &Container, ev: Event)
    requires
        !ev.ok,
    ensures
        spec_step(c, St::RemoveExists, ev) == SpecStep::Finished(Outcome::Success),
{
}

/// Law (stop is a no-op when there is nothing to stop): when the container
/// does not exist, or exists but is not running, the stop flow finishes
/// successfully without issuing a stop invocation.
pub proof fn lemma_stop_noop(c: &Container, ev: Event)
    requires
        !ev.ok,
    ensures
        spec_step(c, St::StopExists(false), ev) == SpecStep::Finished(Outcome::Success),
        spec_step(c, St::StopRunning(false), ev) == SpecStep::Finished(Outcome::Success),
{
}

/// Law (exec propagates the remote exit code): when a caller-supplied command
/// ends with a non-zero exit code, the machine finishes with that same code
/// as the tool's own exit status, not with an error.
pub proof fn lemma_exec_exit_code(c: &Container, ev: Event, code: i32)
    requires
        !ev.ok,
        ev.code == Some(code),
    ensures
        spec_step(c, St::SessionWait(SessionKind::ExecSession), ev) == SpecStep::Finished(
            Outcome::Exit(code),
        ),
{
}

} // verus!
