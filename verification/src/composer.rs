//! The composer: the controller of playbooks, and how it is brought up.
//!
//! Bringing up the composer means asking the cluster whether the kinds of resources
//! that it controls are installed, and then watching both of them. The asking and the
//! watching are the caller's; what to do next is decided by [`run`].
use vstd::prelude::*;

pub mod controller;
pub mod lifecycle;

verus! {

/// How many resources a probe asks for at most.
pub const PROBE_LIMIT: u32 = 1;

/// The exit status of a composer that gives up.
pub const EXIT_FAILURE: i32 = 1;

/// The kinds of resources that the composer controls.
#[derive(Clone, Copy, Debug, PartialEq, Eq, Structural)]
pub enum Kind {
    Playbook,
    Actor,
}

/// Where the composer stands.
#[derive(Clone, Copy, Debug, PartialEq, Eq, Structural)]
pub enum Stage {
    /// Nothing was done yet.
    Launching,
    /// The cluster was asked for resources of this kind.
    Probing(Kind),
    /// Both control loops are running.
    Watching,
    /// The composer has given up.
    Stopped,
}

/// What has happened.
#[derive(Clone, Copy, Debug, PartialEq, Eq, Structural)]
pub enum Signal {
    /// The composer was started.
    Started,
    /// The cluster has answered the probe: the kind is installed, or it is not.
    Probed { installed: bool },
    /// The control loop of this kind has ended.
    Exited(Kind),
}

/// What the caller does next.
#[derive(Clone, Copy, Debug, PartialEq, Eq, Structural)]
pub enum Step {
    /// List at most `limit` resources of this kind.
    Probe { kind: Kind, limit: u32 },
    /// Start the control loops of both kinds, side by side.
    Watch,
    /// End the process with this status.
    Exit { code: i32 },
    /// Nothing: the signal has no meaning at this stage.
    Wait,
}

/// The next stage and the next step. The playbooks are probed first and the actors
/// second; a kind that is not installed ends the composer, and so does a control
/// loop that ends. A signal that does not belong to the stage changes nothing.
pub open spec fn next(stage: Stage, signal: Signal) -> (Stage, Step) {
    match (stage, signal) {
        (Stage::Launching, Signal::Started) => (
            Stage::Probing(Kind::Playbook),
            Step::Probe { kind: Kind::Playbook, limit: PROBE_LIMIT },
        ),
        (Stage::Probing(Kind::Playbook), Signal::Probed { installed: true }) => (
            Stage::Probing(Kind::Actor),
            Step::Probe { kind: Kind::Actor, limit: PROBE_LIMIT },
        ),
        (Stage::Probing(Kind::Actor), Signal::Probed { installed: true }) => (
            Stage::Watching,
            Step::Watch,
        ),
        (Stage::Probing(_), Signal::Probed { installed: false }) => (
            Stage::Stopped,
            Step::Exit { code: EXIT_FAILURE },
        ),
        (Stage::Watching, Signal::Exited(_)) => (Stage::Stopped, Step::Exit { code: EXIT_FAILURE }),
        _ => (stage, Step::Wait),
    }
}

/// Decides what the composer does after `signal` at `stage`.
pub fn run(stage: Stage, signal: Signal) -> (result: (Stage, Step))
    ensures
        result == next(stage, signal),
{
    match stage {
        Stage::Launching => match signal {
            Signal::Started => (
                Stage::Probing(Kind::Playbook),
                Step::Probe { kind: Kind::Playbook, limit: PROBE_LIMIT },
            ),
            _ => (stage, Step::Wait),
        },
        Stage::Probing(kind) => match signal {
            Signal::Probed { installed } => {
                if !installed {
                    (Stage::Stopped, Step::Exit { code: EXIT_FAILURE })
                } else {
                    match kind {
                        Kind::Playbook => (
                            Stage::Probing(Kind::Actor),
                            Step::Probe { kind: Kind::Actor, limit: PROBE_LIMIT },
                        ),
                        Kind::Actor => (Stage::Watching, Step::Watch),
                    }
                }
            },
            _ => (stage, Step::Wait),
        },
        Stage::Watching => match signal {
            Signal::Exited(_) => (Stage::Stopped, Step::Exit { code: EXIT_FAILURE }),
            _ => (stage, Step::Wait),
        },
        Stage::Stopped => (stage, Step::Wait),
    }
}

/// The stage after a run of signals, from `stage` on.
pub open spec fn stage_after(stage: Stage, signals: Seq<Signal>) -> Stage
    decreases signals.len(),
{
    if signals.len() == 0 {
        stage
    } else {
        next(stage_after(stage, signals.drop_last(), ), signals.last()).0
    }
}

/// The control loops are started only by the answer that the actors are installed,
/// and the actors are probed only after the playbooks were found installed: no
/// loop runs over a kind that is missing.
pub proof fn theorem_watch_follows_both_probes(stage: Stage, signal: Signal)
    ensures
        next(stage, signal).1 == Step::Watch ==> stage == Stage::Probing(Kind::Actor) && signal == (
        Signal::Probed { installed: true }),
        next(stage, signal).1 == (Step::Probe { kind: Kind::Actor, limit: PROBE_LIMIT }) ==> stage
            == Stage::Probing(Kind::Playbook) && signal == (Signal::Probed { installed: true }),
        next(stage, signal).1 is Probe ==> next(stage, signal).1->limit == PROBE_LIMIT,
{
}

/// A composer that has stopped stays stopped, whatever happens.
pub proof fn theorem_stopped_is_final(signals: Seq<Signal>)
    ensures
        stage_after(Stage::Stopped, signals) == Stage::Stopped,
    decreases signals.len(),
{
    if signals.len() > 0 {
        theorem_stopped_is_final(signals.drop_last());
    }
}

/// A composer that watches has seen both kinds installed: from the launch, the
/// signals that lead to watching begin with the start and the two good answers.
pub proof fn theorem_watching_was_probed(signals: Seq<Signal>)
    requires
        stage_after(Stage::Launching, signals) == Stage::Watching,
    ensures
        exists|i: int, j: int, k: int|
            0 <= i < j < k < signals.len() && #[trigger] signals[i] == Signal::Started
                && #[trigger] signals[j] == (Signal::Probed { installed: true })
                && #[trigger] signals[k] == (Signal::Probed { installed: true }),
{
    lemma_history(signals);
}

/// What the stage after a run of signals from the launch says of the run.
spec fn history(stage: Stage, signals: Seq<Signal>) -> bool {
    match stage {
        Stage::Launching => true,
        Stage::Probing(Kind::Playbook) => exists|i: int|
            0 <= i < signals.len() && #[trigger] signals[i] == Signal::Started,
        Stage::Probing(Kind::Actor) => exists|i: int, j: int|
            0 <= i < j < signals.len() && #[trigger] signals[i] == Signal::Started
                && #[trigger] signals[j] == (Signal::Probed { installed: true }),
        Stage::Watching => exists|i: int, j: int, k: int|
            0 <= i < j < k < signals.len() && #[trigger] signals[i] == Signal::Started
                && #[trigger] signals[j] == (Signal::Probed { installed: true })
                && #[trigger] signals[k] == (Signal::Probed { installed: true }),
        Stage::Stopped => true,
    }
}

proof fn lemma_history(signals: Seq<Signal>)
    ensures
        history(stage_after(Stage::Launching, signals), signals),
    decreases signals.len(),
{
    if signals.len() > 0 {
        let front = signals.drop_last();
        let last = signals.len() - 1;
        lemma_history(front);
        let before = stage_after(Stage::Launching, front);
        let after = stage_after(Stage::Launching, signals);
        assert(after == next(before, signals.last()).0);
        match before {
            Stage::Launching => {
                if after == Stage::Probing(Kind::Playbook) {
                    assert(signals[last] == Signal::Started);
                }
            },
            Stage::Probing(Kind::Playbook) => {
                let i = choose|i: int| 0 <= i < front.len() && #[trigger] front[i] == Signal::Started;
                assert(signals[i] == Signal::Started);
                if after == Stage::Probing(Kind::Actor) {
                    assert(signals[last] == (Signal::Probed { installed: true }));
                }
            },
            Stage::Probing(Kind::Actor) => {
                let (i, j) = choose|i: int, j: int|
                    0 <= i < j < front.len() && #[trigger] front[i] == Signal::Started
                        && #[trigger] front[j] == (Signal::Probed { installed: true });
                assert(signals[i] == Signal::Started);
                assert(signals[j] == (Signal::Probed { installed: true }));
                if after == Stage::Watching {
                    assert(signals[last] == (Signal::Probed { installed: true }));
                }
            },
            Stage::Watching => {
                let (i, j, k) = choose|i: int, j: int, k: int|
                    0 <= i < j < k < front.len() && #[trigger] front[i] == Signal::Started
                        && #[trigger] front[j] == (Signal::Probed { installed: true })
                        && #[trigger] front[k] == (Signal::Probed { installed: true });
                assert(signals[i] == Signal::Started);
                assert(signals[j] == (Signal::Probed { installed: true }));
                assert(signals[k] == (Signal::Probed { installed: true }));
            },
            Stage::Stopped => {},
        }
    }
}

} // verus!
