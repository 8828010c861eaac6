//! Runtime discovery: which container engine executable to drive.

use vstd::prelude::*;
use crate::errors::Error;

verus! {

/// The container engines this tool can drive, in discovery priority order.
#[derive(Clone, Copy, PartialEq, Eq, Structural, Debug)]
pub enum Runtime {
    Podman,
    Docker,
}

impl Runtime {
    pub open spec fn spec_command(&self) -> Seq<char> {
        match self {
            Runtime::Podman => "podman"@,
            Runtime::Docker => "docker"@,
        }
    }

    /// The executable name this runtime is invoked under.
    pub fn command(&self) -> (r: &'static str)
        ensures
            r@ == self.spec_command(),
    {
        match self {
            Runtime::Podman => "podman",
            Runtime::Docker => "docker",
        }
    }
}

/// How many candidate runtimes the locator probes.
pub open spec fn candidate_count() -> int {
    2
}

/// The runtime a candidate index stands for: podman first, docker second.
pub open spec fn spec_candidate(i: int) -> Runtime {
    if i == 0 {
        Runtime::Podman
    } else {
        Runtime::Docker
    }
}

/// The ordered list of candidate executable names to probe with a version
/// query.
pub fn candidates() -> (r: Vec<&'static str>)
    ensures
        r.deep_view() == seq!["podman"@, "docker"@],
        r@.len() == candidate_count(),
        forall|i: int| 0 <= i < r@.len() ==> r@[i]@ == spec_candidate(i).spec_command(),
{
    let r = vec!["podman", "docker"];
    proof {
        assert(r.deep_view() =~= seq!["podman"@, "docker"@]);
        assert(r@[0]@ == spec_candidate(0).spec_command());
        assert(r@[1]@ == spec_candidate(1).spec_command());
    }
    r
}

/// What the locator decides after one probe.
#[derive(Clone, Copy, PartialEq, Eq, Structural, Debug)]
pub enum Probe {
    /// The probed candidate could be spawned: select it.
    Found(Runtime),
    /// The probe failed; try the candidate with this index next.
    TryNext(usize),
    /// The probe failed and no candidate is left.
    NotFound,
}

pub open spec fn spec_locate_step(i: int, spawnable: bool) -> Probe {
    if spawnable {
        Probe::Found(spec_candidate(i))
    } else if i + 1 < candidate_count() {
        Probe::TryNext((i + 1) as usize)
    } else {
        Probe::NotFound
    }
}

/// One step of runtime discovery. Candidate `i` was probed by spawning it
/// with a version query and discarding the output; `spawnable` says whether
/// the probe process could be started at all (its exit code does not matter).
/// The first spawnable candidate is selected; when a probe fails, the next
/// candidate is tried, until none is left.
pub fn locate_step(i: usize, spawnable: bool) -> (r: Probe)
    requires
        i < candidate_count(),
    ensures
        r == spec_locate_step(i as int, spawnable),
{
    if spawnable {
        if i == 0 {
            Probe::Found(Runtime::Podman)
        } else {
            Probe::Found(Runtime::Docker)
        }
    } else if i + 1 < 2 {
        Probe::TryNext(i + 1)
    } else {
        Probe::NotFound
    }
}

/// What discovery amounts to over the two probe outcomes.
pub open spec fn spec_detect(podman_ok: bool, docker_ok: bool) -> Result<Runtime, Error> {
    if podman_ok {
        Ok(Runtime::Podman)
    } else if docker_ok {
        Ok(Runtime::Docker)
    } else {
        Err(Error::RuntimeNotFound)
    }
}

/// Discovery over probe outcomes for both candidates at once: the first
/// spawnable candidate in priority order wins, and only when neither can be
/// spawned is the runtime reported missing.
pub fn detect_runtime(podman_ok: bool, docker_ok: bool) -> (r: Result<Runtime, Error>)
    ensures
        r == spec_detect(podman_ok, docker_ok),
{
    if podman_ok {
        Ok(Runtime::Podman)
    } else if docker_ok {
        Ok(Runtime::Docker)
    } else {
        Err(Error::RuntimeNotFound)
    }
}

/// Law (locator priority): driving the probe protocol from the first
/// candidate agrees with [`spec_detect`] — the first spawnable candidate in
/// priority order is selected, and the locator reports no runtime exactly
/// when no candidate is spawnable.
pub proof fn lemma_locator_priority(podman_ok: bool, docker_ok: bool)
    ensures
        podman_ok ==> spec_locate_step(0, podman_ok) == Probe::Found(Runtime::Podman)
            && spec_detect(podman_ok, docker_ok) == Result::<Runtime, Error>::Ok(Runtime::Podman),
        !podman_ok ==> spec_locate_step(0, podman_ok) == Probe::TryNext(1usize),
        !podman_ok && docker_ok ==> spec_locate_step(1, docker_ok) == Probe::Found(Runtime::Docker)
            && spec_detect(podman_ok, docker_ok) == Result::<Runtime, Error>::Ok(Runtime::Docker),
        !podman_ok && !docker_ok ==> spec_locate_step(1, docker_ok) == Probe::NotFound
            && spec_detect(podman_ok, docker_ok) == Result::<Runtime, Error>::Err(
            Error::RuntimeNotFound,
        ),
{
}

} // verus!
