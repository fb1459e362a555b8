use std::collections::HashMap;

use amp_composer::composer::controller::{
    conclude, dispatch, error_policy, fetched, read_partner, reconcile, Action, Command, Event,
    EventType, Finalizer, FinalizerEvent, FinalizerFailure, Plan, REPORTER, REQUEUE_SECONDS,
};
use amp_composer::resources::error::{Error, ProtocolError, ResolveError};
use amp_composer::resources::types::{
    Actor, Playbook, PlaybookSpec, PlaybookState, PlaybookStatus, PLAYBOOK_RESOURCE_NAME,
};

fn actor(name: &str, repo: &str, partners: &[&str]) -> Actor {
    Actor {
        name: name.to_string(),
        description: String::new(),
        image: name.to_string(),
        repo: repo.to_string(),
        path: ".".to_string(),
        reference: "main".to_string(),
        commit: String::new(),
        environment: HashMap::new(),
        partners: partners.iter().map(|p| p.to_string()).collect(),
    }
}

fn playbook(actors: Vec<Actor>, state: Option<PlaybookState>) -> Playbook {
    Playbook {
        namespace: "default".to_string(),
        name: "demo".to_string(),
        spec: PlaybookSpec { title: "Demo".to_string(), description: None, actors },
        status: state.map(PlaybookStatus::new),
    }
}

/// Carries out a plan on the playbook in memory, as the store would, with
/// `resolver` in the place of the resolver. Returns what was built and deployed.
fn carry_out(
    playbook: &mut Playbook,
    plan: &Plan,
    resolver: &dyn Fn(&String) -> Result<Actor, ResolveError>,
) -> Result<Vec<String>, Error> {
    let mut log = Vec::new();
    for command in &plan.commands {
        match command {
            Command::PatchStatus(state) => playbook.patch_status(*state),
            Command::Fetch { repo } => {
                let actor = fetched(repo, resolver(repo))?;
                playbook.add(actor);
            }
            Command::Build { actor } => {
                log.push(format!("build {}", playbook.spec.actors[*actor].name))
            }
            Command::Deploy { actor } => {
                log.push(format!("deploy {}", playbook.spec.actors[*actor].name))
            }
            Command::Publish(event) => log.push(format!("publish {}", event.reason)),
        }
    }
    Ok(log)
}

fn placeholder(url: &String) -> Result<Actor, ResolveError> {
    Ok(read_partner(url))
}

fn repos(playbook: &Playbook) -> Vec<String> {
    playbook.spec.actors.iter().map(|a| a.repo.clone()).collect()
}

#[test]
fn empty_actors_are_refused() {
    for state in [
        None,
        Some(PlaybookState::Pending),
        Some(PlaybookState::Solving),
        Some(PlaybookState::Ready),
        Some(PlaybookState::Running),
    ] {
        let p = playbook(vec![], state);
        assert_eq!(reconcile(&p), Err(Error::EmptyActorsError));
    }
}

#[test]
fn a_playbook_with_actors_goes_to_the_finalizer() {
    let p = playbook(vec![actor("web", "R1", &[])], Some(PlaybookState::Pending));
    assert_eq!(
        reconcile(&p),
        Ok(Finalizer {
            namespace: "default".to_string(),
            name: "playbooks.amphitheatre.app".to_string(),
        })
    );
    assert_eq!(PLAYBOOK_RESOURCE_NAME, "playbooks.amphitheatre.app");
}

#[test]
fn pending_becomes_solving_in_one_pass() {
    let mut p = playbook(vec![actor("web", "R1", &["R2"])], Some(PlaybookState::Pending));
    let before = p.spec.actors.clone();
    let plan = p.reconcile();
    assert_eq!(plan.commands, vec![Command::PatchStatus(PlaybookState::Solving)]);
    assert_eq!(plan.action, Action::AwaitChange);
    carry_out(&mut p, &plan, &placeholder).unwrap();
    assert_eq!(p.state(), Some(PlaybookState::Solving));
    assert_eq!(p.spec.actors, before);
}

#[test]
fn no_status_means_no_work() {
    let p = playbook(vec![actor("web", "R1", &["R2"])], None);
    let plan = p.reconcile();
    assert!(plan.commands.is_empty());
    assert_eq!(plan.action, Action::AwaitChange);
}

#[test]
fn solve_appends_the_missing_partner() {
    let mut p = playbook(vec![actor("web", "R1", &["R2"])], Some(PlaybookState::Solving));
    let plan = p.reconcile();
    assert_eq!(plan.commands, vec![Command::Fetch { repo: "R2".to_string() }]);
    carry_out(&mut p, &plan, &placeholder).unwrap();
    assert_eq!(repos(&p), vec!["R1".to_string(), "R2".to_string()]);
    assert_eq!(p.spec.actors[0], actor("web", "R1", &["R2"]));
    assert_eq!(p.state(), Some(PlaybookState::Solving));
}

#[test]
fn solve_of_a_converged_playbook_makes_it_ready() {
    let mut p = playbook(vec![actor("web", "R1", &["R2"])], Some(PlaybookState::Solving));
    let plan = p.reconcile();
    carry_out(&mut p, &plan, &placeholder).unwrap();
    let before = p.spec.actors.clone();
    let plan = p.reconcile();
    assert_eq!(plan.commands, vec![Command::PatchStatus(PlaybookState::Ready)]);
    carry_out(&mut p, &plan, &placeholder).unwrap();
    assert_eq!(p.state(), Some(PlaybookState::Ready));
    assert_eq!(p.spec.actors, before);
}

#[test]
fn solve_is_idempotent_once_converged() {
    let mut p = playbook(
        vec![actor("web", "R1", &["R2"]), actor("lib", "R2", &[])],
        Some(PlaybookState::Solving),
    );
    let before = p.spec.actors.clone();
    let plan = p.reconcile();
    carry_out(&mut p, &plan, &placeholder).unwrap();
    assert_eq!(p.state(), Some(PlaybookState::Ready));
    for _ in 0..3 {
        let plan = p.reconcile();
        assert!(plan.commands.is_empty());
        carry_out(&mut p, &plan, &placeholder).unwrap();
        assert_eq!(p.state(), Some(PlaybookState::Ready));
        assert_eq!(p.spec.actors, before);
    }
    for _ in 0..3 {
        let commands = p.solve();
        assert_eq!(commands, vec![Command::PatchStatus(PlaybookState::Ready)]);
        let plan = Plan { commands, action: Action::AwaitChange };
        carry_out(&mut p, &plan, &placeholder).unwrap();
        assert_eq!(p.state(), Some(PlaybookState::Ready));
        assert_eq!(p.spec.actors, before);
    }
}

#[test]
fn missing_names_each_repo_once_in_order() {
    let p = playbook(
        vec![
            actor("a", "A", &["B", "C", "B", "A"]),
            actor("d", "D", &["C", "E", "D"]),
            actor("f", "F", &[]),
        ],
        Some(PlaybookState::Solving),
    );
    assert_eq!(p.missing(), vec!["B".to_string(), "C".to_string(), "E".to_string()]);
    assert!(p.has_repo(&"A".to_string()));
    assert!(!p.has_repo(&"B".to_string()));
    assert_eq!(
        p.solve(),
        vec![
            Command::Fetch { repo: "B".to_string() },
            Command::Fetch { repo: "C".to_string() },
            Command::Fetch { repo: "E".to_string() },
        ]
    );
}

#[test]
fn a_cycle_among_actors_is_harmless() {
    let p = playbook(
        vec![actor("a", "A", &["B"]), actor("b", "B", &["A"])],
        Some(PlaybookState::Solving),
    );
    assert!(p.missing().is_empty());
    assert_eq!(p.solve(), vec![Command::PatchStatus(PlaybookState::Ready)]);
}

#[test]
fn repositories_are_compared_as_written() {
    let p = playbook(
        vec![actor("a", "github.com/x/a", &["github.com/x/a/", "GitHub.com/x/a"])],
        Some(PlaybookState::Solving),
    );
    assert_eq!(
        p.missing(),
        vec!["github.com/x/a/".to_string(), "GitHub.com/x/a".to_string()]
    );
}

#[test]
fn the_expansion_goes_one_level_at_a_time() {
    let resolver = |url: &String| -> Result<Actor, ResolveError> {
        match url.as_str() {
            "B" => Ok(actor("b", "B", &["C", "A"])),
            "C" => Ok(actor("c", "C", &["D"])),
            "D" => Ok(actor("d", "D", &["A"])),
            other => Err(ResolveError::FetchingError(other.to_string())),
        }
    };
    let mut p = playbook(vec![actor("a", "A", &["B"])], Some(PlaybookState::Solving));
    let mut passes = 0;
    while p.state() == Some(PlaybookState::Solving) {
        let plan = p.reconcile();
        carry_out(&mut p, &plan, &resolver).unwrap();
        passes += 1;
        assert!(passes <= 4);
    }
    assert_eq!(passes, 4);
    assert_eq!(p.state(), Some(PlaybookState::Ready));
    assert_eq!(
        repos(&p),
        vec!["A".to_string(), "B".to_string(), "C".to_string(), "D".to_string()]
    );
}

#[test]
fn a_failed_resolve_fails_the_pass() {
    let resolver = |url: &String| -> Result<Actor, ResolveError> {
        Err(ResolveError::UnknownCharacterRegistry(url.clone()))
    };
    let mut p = playbook(vec![actor("a", "A", &["B"])], Some(PlaybookState::Solving));
    let plan = p.reconcile();
    assert_eq!(
        carry_out(&mut p, &plan, &resolver),
        Err(Error::ResolveError(ResolveError::UnknownCharacterRegistry("B".to_string())))
    );
    assert_eq!(repos(&p), vec!["A".to_string()]);
    assert_eq!(p.state(), Some(PlaybookState::Solving));
}

#[test]
fn an_interrupted_pass_is_taken_up_by_the_next() {
    let mut p = playbook(
        vec![actor("a", "A", &["B", "C"]), actor("d", "D", &["E"])],
        Some(PlaybookState::Solving),
    );
    let plan = p.reconcile();
    assert_eq!(plan.commands.len(), 3);
    let first = Plan { commands: plan.commands[..1].to_vec(), action: plan.action };
    carry_out(&mut p, &first, &placeholder).unwrap();
    assert_eq!(repos(&p), vec!["A".to_string(), "D".to_string(), "B".to_string()]);
    assert_eq!(p.state(), Some(PlaybookState::Solving));

    let plan = p.reconcile();
    assert_eq!(
        plan.commands,
        vec![Command::Fetch { repo: "C".to_string() }, Command::Fetch { repo: "E".to_string() }]
    );
    carry_out(&mut p, &plan, &placeholder).unwrap();
    let mut all = repos(&p);
    all.sort();
    assert_eq!(all, vec!["A", "B", "C", "D", "E"]);
    assert_eq!(p.reconcile().commands, vec![Command::PatchStatus(PlaybookState::Ready)]);
}

#[test]
fn a_fetched_actor_enters_under_the_requested_repo() {
    let url = "github.com/x/lib".to_string();
    let got = fetched(&url, Ok(actor("lib", "https://github.com/x/lib.git", &["Z"]))).unwrap();
    assert_eq!(got, actor("lib", "github.com/x/lib", &["Z"]));
    assert_eq!(
        fetched(&url, Err(ResolveError::UnsupportedPartner)),
        Err(Error::ResolveError(ResolveError::UnsupportedPartner))
    );
    assert_eq!(
        fetched(&url, Err(ResolveError::FetchingError("timeout".to_string()))),
        Err(Error::ResolveError(ResolveError::FetchingError("timeout".to_string())))
    );
}

#[test]
fn the_placeholder_actor() {
    let got = read_partner(&"github.com/x/lib".to_string());
    assert_eq!(
        got,
        Actor {
            name: "amp-example-nodejs".to_string(),
            description: "A simple NodeJs example app".to_string(),
            image: "amp-example-nodejs".to_string(),
            repo: "github.com/x/lib".to_string(),
            path: ".".to_string(),
            reference: "master".to_string(),
            commit: "285ef2bc98fb6b3db46a96b6a750fad2d0c566b5".to_string(),
            environment: HashMap::new(),
            partners: vec![],
        }
    );
}

#[test]
fn a_ready_playbook_is_left_alone() {
    let mut p = playbook(vec![actor("web", "R1", &["R2"])], Some(PlaybookState::Ready));
    let before = p.clone();
    let plan = p.reconcile();
    assert!(plan.commands.is_empty());
    carry_out(&mut p, &plan, &placeholder).unwrap();
    assert_eq!(p, before);
}

#[test]
fn running_builds_then_deploys_every_actor() {
    let mut p = playbook(
        vec![actor("a", "A", &[]), actor("b", "B", &[]), actor("c", "C", &[])],
        Some(PlaybookState::Running),
    );
    let before = p.clone();
    for _ in 0..2 {
        let plan = p.reconcile();
        assert_eq!(
            plan.commands,
            vec![
                Command::Build { actor: 0 },
                Command::Deploy { actor: 0 },
                Command::Build { actor: 1 },
                Command::Deploy { actor: 1 },
                Command::Build { actor: 2 },
                Command::Deploy { actor: 2 },
            ]
        );
        assert_eq!(plan.action, Action::AwaitChange);
        let log = carry_out(&mut p, &plan, &placeholder).unwrap();
        assert_eq!(
            log,
            vec!["build a", "deploy a", "build b", "deploy b", "build c", "deploy c"]
        );
        assert_eq!(p, before);
    }
}

#[test]
fn cleanup_publishes_one_event() {
    let p = playbook(vec![actor("web", "R1", &[])], Some(PlaybookState::Running));
    let plan = p.cleanup();
    assert_eq!(
        plan.commands,
        vec![Command::Publish(Event {
            type_: EventType::Normal,
            reason: "DeletePlaybook".to_string(),
            note: Some("Delete playbook `demo`".to_string()),
            action: "Reconciling".to_string(),
        })]
    );
    assert_eq!(plan.action, Action::AwaitChange);
    assert_eq!(REPORTER, "amphitheatre-composer");
}

#[test]
fn the_guard_decides_between_apply_and_cleanup() {
    let p = playbook(vec![actor("web", "R1", &["R2"])], Some(PlaybookState::Pending));
    assert_eq!(dispatch(&FinalizerEvent::Apply(p.clone())), p.reconcile());
    assert_eq!(dispatch(&FinalizerEvent::Cleanup(p.clone())), p.cleanup());
    assert_ne!(p.reconcile(), p.cleanup());
}

#[test]
fn every_error_is_retried_after_a_minute() {
    let p = playbook(vec![actor("web", "R1", &[])], Some(PlaybookState::Solving));
    let errors = vec![
        Error::EmptyActorsError,
        Error::KubeError("conflict".to_string()),
        Error::FinalizerError(ProtocolError::InvalidFinalizer),
        Error::ResolveError(ResolveError::UnsupportedPartner),
    ];
    for error in &errors {
        assert_eq!(error_policy(&p, error), Action::Requeue { seconds: 60 });
    }
    assert_eq!(REQUEUE_SECONDS, 60);
    assert_eq!(Action::requeue(60), Action::Requeue { seconds: 60 });
    assert_eq!(Action::await_change(), Action::AwaitChange);
}

#[test]
fn the_outcome_of_the_guard() {
    assert_eq!(conclude(Ok(Action::AwaitChange)), Ok(Action::AwaitChange));
    assert_eq!(
        conclude(Ok(Action::Requeue { seconds: 5 })),
        Ok(Action::Requeue { seconds: 5 })
    );
    assert_eq!(conclude(Ok("kept")), Ok("kept"));
    assert_eq!(
        conclude::<Action>(Err(FinalizerFailure::UnnamedObject)),
        Err(Error::FinalizerError(ProtocolError::UnnamedObject))
    );
    assert_eq!(
        conclude::<Action>(Err(FinalizerFailure::ApplyFailed(Error::KubeError("gone".to_string())))),
        Err(Error::KubeError("gone".to_string()))
    );
    assert_eq!(
        conclude::<Action>(Err(FinalizerFailure::CleanupFailed(Error::KubeError("gone".to_string())))),
        Err(Error::KubeError("gone".to_string()))
    );
    assert_eq!(
        conclude::<Action>(Err(FinalizerFailure::AddFinalizer("denied".to_string()))),
        Err(Error::FinalizerError(ProtocolError::AddFinalizer("denied".to_string())))
    );
    assert_eq!(
        conclude::<Action>(Err(FinalizerFailure::RemoveFinalizer("denied".to_string()))),
        Err(Error::FinalizerError(ProtocolError::RemoveFinalizer("denied".to_string())))
    );
    assert_eq!(
        conclude::<Action>(Err(FinalizerFailure::UnnamedObject)),
        Err(Error::FinalizerError(ProtocolError::UnnamedObject))
    );
    assert_eq!(
        conclude::<Action>(Err(FinalizerFailure::InvalidFinalizer)),
        Err(Error::FinalizerError(ProtocolError::InvalidFinalizer))
    );
}

#[test]
fn from_pending_to_ready() {
    let lib = "github.com/x/lib".to_string();
    let resolver = |url: &String| -> Result<Actor, ResolveError> {
        assert_eq!(url, "github.com/x/lib");
        Ok(actor("lib", "github.com/x/lib", &[]))
    };
    let web = actor("web", "github.com/x/web", &["github.com/x/lib"]);
    let mut p = playbook(vec![web.clone()], Some(PlaybookState::Pending));

    assert!(reconcile(&p).is_ok());
    let plan = p.reconcile();
    carry_out(&mut p, &plan, &resolver).unwrap();
    assert_eq!(p.state(), Some(PlaybookState::Solving));
    assert_eq!(p.spec.actors, vec![web.clone()]);

    assert!(reconcile(&p).is_ok());
    assert_eq!(p.missing(), vec![lib.clone()]);
    let plan = p.reconcile();
    carry_out(&mut p, &plan, &resolver).unwrap();
    assert_eq!(p.spec.actors, vec![web.clone(), actor("lib", "github.com/x/lib", &[])]);
    assert_eq!(p.state(), Some(PlaybookState::Solving));

    assert!(reconcile(&p).is_ok());
    assert!(p.missing().is_empty());
    let plan = p.reconcile();
    carry_out(&mut p, &plan, &resolver).unwrap();
    assert_eq!(p.state(), Some(PlaybookState::Ready));
    assert_eq!(p.spec.actors, vec![web, actor("lib", "github.com/x/lib", &[])]);
}

#[test]
fn the_states_and_their_tests() {
    assert_eq!(PlaybookState::pending(), PlaybookState::Pending);
    assert_eq!(PlaybookState::solving(), PlaybookState::Solving);
    assert_eq!(PlaybookState::ready(), PlaybookState::Ready);
    assert_eq!(PlaybookState::running(), PlaybookState::Running);
    let status = PlaybookStatus::new(PlaybookState::Solving);
    assert!(status.solving());
    assert!(!status.pending());
    assert!(!status.ready());
    assert!(!status.running());
    assert!(PlaybookStatus::new(PlaybookState::Pending).pending());
    assert!(PlaybookStatus::new(PlaybookState::Ready).ready());
    assert!(PlaybookStatus::new(PlaybookState::Running).running());
}

#[test]
fn the_store_in_memory() {
    let mut p = playbook(vec![actor("a", "A", &[])], None);
    assert_eq!(p.state(), None);
    p.patch_status(PlaybookState::Running);
    assert_eq!(p.state(), Some(PlaybookState::Running));
    assert_eq!(repos(&p), vec!["A".to_string()]);
    p.add(actor("b", "B", &["A"]));
    assert_eq!(p.spec.actors, vec![actor("a", "A", &[]), actor("b", "B", &["A"])]);
    assert_eq!(p.state(), Some(PlaybookState::Running));
    assert_eq!(p.name, "demo");
    assert_eq!(p.namespace, "default");
}
