use amp_composer::composer::{run, Kind, Signal, Stage, Step, EXIT_FAILURE, PROBE_LIMIT};

#[test]
fn both_kinds_are_probed_before_the_loops_start() {
    let (stage, step) = run(Stage::Launching, Signal::Started);
    assert_eq!(stage, Stage::Probing(Kind::Playbook));
    assert_eq!(step, Step::Probe { kind: Kind::Playbook, limit: 1 });
    let (stage, step) = run(stage, Signal::Probed { installed: true });
    assert_eq!(stage, Stage::Probing(Kind::Actor));
    assert_eq!(step, Step::Probe { kind: Kind::Actor, limit: 1 });
    let (stage, step) = run(stage, Signal::Probed { installed: true });
    assert_eq!(stage, Stage::Watching);
    assert_eq!(step, Step::Watch);
    assert_eq!(PROBE_LIMIT, 1);
}

#[test]
fn a_missing_kind_ends_the_composer() {
    for kind in [Kind::Playbook, Kind::Actor] {
        assert_eq!(
            run(Stage::Probing(kind), Signal::Probed { installed: false }),
            (Stage::Stopped, Step::Exit { code: 1 })
        );
    }
    assert_eq!(EXIT_FAILURE, 1);
}

#[test]
fn a_loop_that_ends_ends_the_composer() {
    for kind in [Kind::Playbook, Kind::Actor] {
        assert_eq!(
            run(Stage::Watching, Signal::Exited(kind)),
            (Stage::Stopped, Step::Exit { code: 1 })
        );
    }
}

#[test]
fn signals_out_of_place_change_nothing() {
    let stages = [
        Stage::Launching,
        Stage::Probing(Kind::Playbook),
        Stage::Probing(Kind::Actor),
        Stage::Watching,
        Stage::Stopped,
    ];
    let signals = [
        Signal::Started,
        Signal::Probed { installed: true },
        Signal::Probed { installed: false },
        Signal::Exited(Kind::Playbook),
        Signal::Exited(Kind::Actor),
    ];
    let mut moves = 0;
    for stage in stages {
        for signal in signals {
            let (next, step) = run(stage, signal);
            if step == Step::Wait {
                assert_eq!(next, stage);
            } else {
                moves += 1;
            }
        }
    }
    assert_eq!(moves, 7);
    for signal in signals {
        assert_eq!(run(Stage::Stopped, signal), (Stage::Stopped, Step::Wait));
    }
}
