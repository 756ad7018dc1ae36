//! Readiness probing as a state machine: the caller performs each action
//! (a pointer-location query, a sleep) and reports back what happened.
use vstd::prelude::*;

verus! {

/// Number of probes made before giving up.
pub const MAX_PROBES: u32 = 60;

/// Seconds to wait after a failed probe.
pub const PROBE_INTERVAL_SECS: u64 = 1;

/// What the caller observed since the last action.
#[derive(Clone, Copy, Debug, PartialEq, Eq, Structural)]
pub enum ProbeEvent {
    /// Probing begins.
    Start,
    /// A probe was made; `true` when the windowing subsystem answered.
    Probed(bool),
    /// The requested wait is over.
    Slept,
}

/// What the caller is to do next.
#[derive(Clone, Copy, Debug, PartialEq, Eq, Structural)]
pub enum ProbeAction {
    /// Query the windowing subsystem once and report `Probed`.
    Probe,
    /// Wait this many seconds and report `Slept`.
    Sleep(u64),
    /// A probe succeeded: the window system is reachable.
    Ready,
    /// Every probe of the budget failed.
    TimedOut,
}

/// The prober's state: how many probes have failed so far.
#[derive(Clone, Copy, Debug, PartialEq, Eq, Structural)]
pub struct Prober {
    pub failed: u32,
}

/// The transition: from the count of failed probes and an event, the new
/// count and the next action.
pub open spec fn transition(failed: nat, e: ProbeEvent) -> (nat, ProbeAction) {
    match e {
        ProbeEvent::Start => (0, ProbeAction::Probe),
        ProbeEvent::Probed(true) => (failed, ProbeAction::Ready),
        ProbeEvent::Probed(false) => if failed < MAX_PROBES {
            (failed + 1, ProbeAction::Sleep(PROBE_INTERVAL_SECS))
        } else {
            (failed, ProbeAction::TimedOut)
        },
        ProbeEvent::Slept => if failed < MAX_PROBES {
            (failed, ProbeAction::Probe)
        } else {
            (failed, ProbeAction::TimedOut)
        },
    }
}

impl Prober {
    pub open spec fn wf(&self) -> bool {
        self.failed <= MAX_PROBES
    }

    pub fn new() -> (r: Prober)
        ensures
            r.wf(),
            r.failed == 0,
    {
        Prober { failed: 0 }
    }

    /// Takes in an event and returns the next action.
    pub fn step(&mut self, e: ProbeEvent) -> (a: ProbeAction)
        requires
            old(self).wf(),
        ensures
            final(self).wf(),
            (final(self).failed as nat, a) == transition(old(self).failed as nat, e),
    {
        match e {
            ProbeEvent::Start => {
                self.failed = 0;
                ProbeAction::Probe
            },
            ProbeEvent::Probed(true) => ProbeAction::Ready,
            ProbeEvent::Probed(false) => {
                if self.failed < MAX_PROBES {
                    self.failed = self.failed + 1;
                    ProbeAction::Sleep(PROBE_INTERVAL_SECS)
                } else {
                    ProbeAction::TimedOut
                }
            },
            ProbeEvent::Slept => {
                if self.failed < MAX_PROBES {
                    ProbeAction::Probe
                } else {
                    ProbeAction::TimedOut
                }
            },
        }
    }
}

/// Ranks actions for the termination of `drive`.
pub open spec fn action_rank(a: ProbeAction) -> nat {
    match a {
        ProbeAction::Sleep(_) => 2,
        ProbeAction::Probe => 1,
        _ => 0,
    }
}

/// The caller's loop, run to its end: starting from `failed` failed probes,
/// `action` to perform, `probes` probes and `sleeps` sleeps made, where probe
/// number `i` (from zero) answers `answers(i)`. Gives the final action and the
/// numbers of probes and sleeps made.
pub open spec fn drive(
    failed: nat,
    action: ProbeAction,
    answers: spec_fn(nat) -> bool,
    probes: nat,
    sleeps: nat,
) -> (ProbeAction, nat, nat)
    decreases 3 * (MAX_PROBES - failed) + action_rank(action),
    when failed <= MAX_PROBES
{
    match action {
        ProbeAction::Probe => {
            let t = transition(failed, ProbeEvent::Probed(answers(probes)));
            drive(t.0, t.1, answers, probes + 1, sleeps)
        },
        ProbeAction::Sleep(_) => {
            let t = transition(failed, ProbeEvent::Slept);
            drive(t.0, t.1, answers, probes, sleeps + 1)
        },
        _ => (action, probes, sleeps),
    }
}

/// The run that starts with `Start`.
pub open spec fn probe_run(answers: spec_fn(nat) -> bool) -> (ProbeAction, nat, nat) {
    let t = transition(0, ProbeEvent::Start);
    drive(t.0, t.1, answers, 0, 0)
}

proof fn lemma_drive_ready(answers: spec_fn(nat) -> bool, a: nat, k: nat)
    requires
        a <= k < MAX_PROBES,
        answers(k),
        forall|j: nat| a <= j < k ==> !#[trigger] answers(j),
    ensures
        drive(a, ProbeAction::Probe, answers, a, a) == (ProbeAction::Ready, k + 1, k),
    decreases k - a,
{
    if a < k {
        assert(!answers(a));
        assert(drive(a + 1, ProbeAction::Sleep(PROBE_INTERVAL_SECS), answers, a + 1, a) == drive(
            a + 1,
            ProbeAction::Probe,
            answers,
            a + 1,
            a + 1,
        ));
        lemma_drive_ready(answers, a + 1, k);
    } else {
        assert(drive(a, ProbeAction::Ready, answers, a + 1, a) == (ProbeAction::Ready, a + 1, a));
    }
}

proof fn lemma_drive_timeout(answers: spec_fn(nat) -> bool, a: nat)
    requires
        a < MAX_PROBES,
        forall|j: nat| a <= j < MAX_PROBES ==> !#[trigger] answers(j),
    ensures
        drive(a, ProbeAction::Probe, answers, a, a) == (
            ProbeAction::TimedOut,
            MAX_PROBES as nat,
            MAX_PROBES as nat,
        ),
    decreases MAX_PROBES - a,
{
    assert(!answers(a));
    if a + 1 < MAX_PROBES {
        assert(drive(a + 1, ProbeAction::Sleep(PROBE_INTERVAL_SECS), answers, a + 1, a) == drive(
            a + 1,
            ProbeAction::Probe,
            answers,
            a + 1,
            a + 1,
        ));
        lemma_drive_timeout(answers, a + 1);
    } else {
        assert(drive(a + 1, ProbeAction::Sleep(PROBE_INTERVAL_SECS), answers, a + 1, a) == drive(
            a + 1,
            ProbeAction::TimedOut,
            answers,
            a + 1,
            a + 1,
        ));
    }
}

/// Readiness is reported at the first probe that succeeds, after one wait per
/// earlier failure; when all `MAX_PROBES` probes fail, the run times out after
/// exactly that many probes, each followed by a wait of `PROBE_INTERVAL_SECS`.
pub proof fn lemma_probe_budget(answers: spec_fn(nat) -> bool)
    ensures
        forall|k: nat|
            #![trigger answers(k)]
            k < MAX_PROBES && answers(k) && (forall|j: nat| j < k ==> !#[trigger] answers(j)) ==> probe_run(
                answers,
            ) == (ProbeAction::Ready, k + 1, k),
        (forall|j: nat| j < MAX_PROBES ==> !#[trigger] answers(j)) ==> probe_run(answers) == (
            ProbeAction::TimedOut,
            MAX_PROBES as nat,
            MAX_PROBES as nat,
        ),
{
    assert forall|k: nat|
        #![trigger answers(k)]
        k < MAX_PROBES && answers(k) && (forall|j: nat| j < k ==> !#[trigger] answers(j)) implies probe_run(
            answers,
        ) == (ProbeAction::Ready, k + 1, k) by {
        lemma_drive_ready(answers, 0, k);
    }
    if forall|j: nat| j < MAX_PROBES ==> !#[trigger] answers(j) {
        lemma_drive_timeout(answers, 0);
    }
}

} // verus!
