//! The life of a playbook under the reconciler: what carrying out the commands of a
//! pass makes of a playbook, and what holds of it pass after pass.
//!
//! The store and the resolver are not part of this crate. Here the store does what a
//! command says, and the resolver is any function from a repository to an actor.
use crate::composer::controller::{
    cleanup_commands, reconciles, run_commands, solves, start_commands, targets, CommandView,
};
use crate::resources::types::{ActorView, PlaybookState, PlaybookView};
use vstd::prelude::*;

verus! {

/// What carrying out one command makes of the playbook. A status patch sets the
/// state; a fetch appends the actor that the resolver gives for the repository,
/// under that repository; nothing else touches the playbook.
pub open spec fn effect(
    playbook: PlaybookView,
    command: CommandView,
    resolver: spec_fn(Seq<char>) -> ActorView,
) -> PlaybookView {
    match command {
        CommandView::PatchStatus(state) => playbook.with_state(state),
        CommandView::Fetch { repo } => playbook.with_actor(resolver(repo).with_repo(repo)),
        _ => playbook,
    }
}

/// What carrying out commands one after the other makes of the playbook.
pub open spec fn carried_out(
    playbook: PlaybookView,
    commands: Seq<CommandView>,
    resolver: spec_fn(Seq<char>) -> ActorView,
) -> PlaybookView
    decreases commands.len(),
{
    if commands.len() == 0 {
        playbook
    } else {
        effect(carried_out(playbook, commands.drop_last(), resolver), commands.last(), resolver)
    }
}

/// The actors that the resolver gives for `repos`, each under its repository.
pub open spec fn resolved(
    repos: Seq<Seq<char>>,
    resolver: spec_fn(Seq<char>) -> ActorView,
) -> Seq<ActorView> {
    Seq::new(repos.len(), |i: int| resolver(repos[i]).with_repo(repos[i]))
}

/// Whether `first` is the beginning of `second`.
pub open spec fn begins(first: Seq<ActorView>, second: Seq<ActorView>) -> bool {
    first.len() <= second.len() && second.subrange(0, first.len() as int) == first
}

proof fn lemma_carried_out_one(
    playbook: PlaybookView,
    command: CommandView,
    resolver: spec_fn(Seq<char>) -> ActorView,
)
    ensures
        carried_out(playbook, seq![command], resolver) == effect(playbook, command, resolver),
{
    reveal_with_fuel(carried_out, 2);
    assert(seq![command].drop_last() =~= Seq::<CommandView>::empty());
}

/// Commands that only fetch append the resolved actors and change nothing else.
pub proof fn lemma_fetches_append(
    playbook: PlaybookView,
    commands: Seq<CommandView>,
    resolver: spec_fn(Seq<char>) -> ActorView,
)
    requires
        forall|i: int| 0 <= i < commands.len() ==> (#[trigger] commands[i]) is Fetch,
    ensures
        carried_out(playbook, commands, resolver) == (PlaybookView {
            actors: playbook.actors + resolved(targets(commands), resolver),
            ..playbook
        }),
    decreases commands.len(),
{
    if commands.len() == 0 {
        assert(playbook.actors + resolved(targets(commands), resolver) =~= playbook.actors);
    } else {
        let front = commands.drop_last();
        lemma_fetches_append(playbook, front, resolver);
        assert(commands.last() is Fetch);
        assert(targets(front) =~= targets(commands).drop_last());
        assert(playbook.actors + resolved(targets(commands), resolver) =~= (playbook.actors
            + resolved(targets(front), resolver)).push(
            resolver(targets(commands).last()).with_repo(targets(commands).last()),
        ));
    }
}

/// A pending playbook is solving after one pass, and its actors are the same.
pub proof fn theorem_pending_becomes_solving(
    playbook: PlaybookView,
    commands: Seq<CommandView>,
    resolver: spec_fn(Seq<char>) -> ActorView,
)
    requires
        playbook.state == Some(PlaybookState::Pending),
        reconciles(playbook, commands),
    ensures
        commands == start_commands(),
        carried_out(playbook, commands, resolver) == playbook.with_state(PlaybookState::Solving),
        carried_out(playbook, commands, resolver).actors == playbook.actors,
{
    lemma_carried_out_one(playbook, CommandView::PatchStatus(PlaybookState::Solving), resolver);
}

/// One solve pass over a playbook that has not converged appends one actor for each
/// missing repository, under that repository, behind the actors that were there;
/// the state stays solving, and every repository that was missing is present.
pub proof fn theorem_solve_appends_missing(
    playbook: PlaybookView,
    commands: Seq<CommandView>,
    resolver: spec_fn(Seq<char>) -> ActorView,
)
    requires
        playbook.state == Some(PlaybookState::Solving),
        !playbook.converged(),
        reconciles(playbook, commands),
    ensures
        ({
            let after = carried_out(playbook, commands, resolver);
            &&& after == (PlaybookView {
                actors: playbook.actors + resolved(targets(commands), resolver),
                ..playbook
            })
            &&& after.state == Some(PlaybookState::Solving)
            &&& commands.len() > 0
            &&& after.actors.len() == playbook.actors.len() + commands.len()
            &&& begins(playbook.actors, after.actors)
            &&& forall|k: int|
                playbook.actors.len() <= k < after.actors.len() ==> playbook.missing().contains(
                    (#[trigger] after.actors[k]).repo,
                )
            &&& forall|repo: Seq<char>| #[trigger]
                playbook.missing().contains(repo) ==> exists|k: int|
                    playbook.actors.len() <= k < after.actors.len() && (#[trigger] after.actors[k])
                        == resolver(repo).with_repo(repo)
            &&& forall|repo: Seq<char>| #[trigger]
                playbook.missing().contains(repo) ==> after.has_repo(repo)
        }),
{
    lemma_fetches_append(playbook, commands, resolver);
    let after = carried_out(playbook, commands, resolver);
    let repos = targets(commands);
    let n = playbook.actors.len() as int;
    assert(after.actors.subrange(0, n) =~= playbook.actors);
    let gap = choose|repo: Seq<char>| playbook.references(repo) && !playbook.has_repo(repo);
    assert(playbook.missing().contains(gap));
    assert(repos.contains(gap));
    assert forall|k: int| n <= k < after.actors.len() implies playbook.missing().contains(
        (#[trigger] after.actors[k]).repo,
    ) by {
        assert(after.actors[k].repo == repos[k - n]);
        assert(repos.contains(repos[k - n]));
    }
    assert forall|repo: Seq<char>| #[trigger] playbook.missing().contains(repo) implies exists|
        k: int,
    |
        playbook.actors.len() <= k < after.actors.len() && (#[trigger] after.actors[k])
            == resolver(repo).with_repo(repo) by {
        assert(repos.contains(repo));
        let i = choose|i: int| 0 <= i < repos.len() && repos[i] == repo;
        assert(after.actors[n + i] == resolver(repo).with_repo(repo));
    }
    assert forall|repo: Seq<char>| #[trigger] playbook.missing().contains(repo) implies after.has_repo(
        repo,
    ) by {
        assert(repos.contains(repo));
        let i = choose|i: int| 0 <= i < repos.len() && repos[i] == repo;
        assert(after.actors[n + i].repo == repo);
    }
}

/// The solve pass over a converged playbook makes it ready and leaves its actors.
pub proof fn theorem_converged_becomes_ready(
    playbook: PlaybookView,
    commands: Seq<CommandView>,
    resolver: spec_fn(Seq<char>) -> ActorView,
)
    requires
        playbook.state == Some(PlaybookState::Solving),
        playbook.converged(),
        reconciles(playbook, commands),
    ensures
        carried_out(playbook, commands, resolver) == playbook.with_state(PlaybookState::Ready),
        carried_out(playbook, commands, resolver).actors == playbook.actors,
{
    lemma_carried_out_one(playbook, CommandView::PatchStatus(PlaybookState::Ready), resolver);
}

/// Once a playbook has converged, solving it again changes nothing: the first pass
/// makes it ready, a reconcile of the ready playbook has no commands, and a solve
/// pass over the ready playbook leaves its actors and keeps it ready.
pub proof fn theorem_solve_is_idempotent(
    playbook: PlaybookView,
    first: Seq<CommandView>,
    next: Seq<CommandView>,
    again: Seq<CommandView>,
    resolver: spec_fn(Seq<char>) -> ActorView,
)
    requires
        playbook.state == Some(PlaybookState::Solving),
        playbook.converged(),
        solves(playbook, first),
        reconciles(carried_out(playbook, first, resolver), next),
        solves(carried_out(playbook, first, resolver), again),
    ensures
        ({
            let ready = carried_out(playbook, first, resolver);
            &&& ready == playbook.with_state(PlaybookState::Ready)
            &&& next.len() == 0
            &&& carried_out(ready, next, resolver) == ready
            &&& carried_out(ready, again, resolver) == ready
        }),
{
    let ready = carried_out(playbook, first, resolver);
    theorem_converged_becomes_ready(playbook, first, resolver);
    assert(ready.converged()) by {
        assert forall|repo: Seq<char>| ready.references(repo) implies ready.has_repo(repo) by {
            assert(playbook.references(repo));
            assert(playbook.has_repo(repo));
        }
    }
    lemma_carried_out_one(ready, CommandView::PatchStatus(PlaybookState::Ready), resolver);
    assert(ready.with_state(PlaybookState::Ready) == ready);
}

/// A solve pass keeps the repositories of a playbook distinct.
pub proof fn theorem_solve_keeps_repos_distinct(
    playbook: PlaybookView,
    commands: Seq<CommandView>,
    resolver: spec_fn(Seq<char>) -> ActorView,
)
    requires
        playbook.distinct_repos(),
        solves(playbook, commands),
    ensures
        carried_out(playbook, commands, resolver).distinct_repos(),
{
    let after = carried_out(playbook, commands, resolver);
    if playbook.converged() {
        lemma_carried_out_one(playbook, CommandView::PatchStatus(PlaybookState::Ready), resolver);
    } else {
        lemma_fetches_append(playbook, commands, resolver);
        let repos = targets(commands);
        let n = playbook.actors.len() as int;
        assert forall|i: int, j: int| 0 <= i < j < after.actors.len() implies (
        #[trigger] after.actors[i]).repo != (#[trigger] after.actors[j]).repo by {
            if j < n {
                assert(after.actors[i] == playbook.actors[i]);
                assert(after.actors[j] == playbook.actors[j]);
            } else if i < n {
                assert(after.actors[i] == playbook.actors[i]);
                assert(after.actors[j].repo == repos[j - n]);
                assert(repos.contains(repos[j - n]));
                assert(playbook.missing().contains(repos[j - n]));
                assert(!playbook.has_repo(repos[j - n]));
            } else {
                assert(after.actors[i].repo == repos[i - n]);
                assert(after.actors[j].repo == repos[j - n]);
            }
        }
    }
}

/// A solve pass that is cut short does no harm: whatever number of its fetches was
/// carried out, the actors that were there are still the beginning of the list,
/// the state is as it was, distinct repositories are still distinct, and what is
/// still missing of the old gaps is what was not fetched yet.
pub proof fn theorem_interrupted_solve_is_safe(
    playbook: PlaybookView,
    commands: Seq<CommandView>,
    done: int,
    resolver: spec_fn(Seq<char>) -> ActorView,
)
    requires
        !playbook.converged(),
        solves(playbook, commands),
        0 <= done <= commands.len(),
    ensures
        ({
            let after = carried_out(playbook, commands.take(done), resolver);
            &&& after.state == playbook.state
            &&& after.actors.len() == playbook.actors.len() + done
            &&& begins(playbook.actors, after.actors)
            &&& playbook.distinct_repos() ==> after.distinct_repos()
            &&& forall|i: int|
                0 <= i < commands.len() ==> (after.has_repo(#[trigger] targets(commands)[i]) <==> i
                    < done)
        }),
{
    let part = commands.take(done);
    let after = carried_out(playbook, part, resolver);
    let repos = targets(commands);
    let n = playbook.actors.len() as int;
    assert forall|i: int| 0 <= i < part.len() implies (#[trigger] part[i]) is Fetch by {
        assert(part[i] == commands[i]);
    }
    lemma_fetches_append(playbook, part, resolver);
    assert(targets(part) =~= repos.take(done));
    assert(after.actors.subrange(0, n) =~= playbook.actors);
    assert forall|k: int| n <= k < after.actors.len() implies (#[trigger] after.actors[k]).repo
        == repos[k - n] by {}
    if playbook.distinct_repos() {
        assert forall|i: int, j: int| 0 <= i < j < after.actors.len() implies (
        #[trigger] after.actors[i]).repo != (#[trigger] after.actors[j]).repo by {
            if j < n {
                assert(after.actors[i] == playbook.actors[i]);
                assert(after.actors[j] == playbook.actors[j]);
            } else if i < n {
                assert(after.actors[i] == playbook.actors[i]);
                assert(repos.contains(repos[j - n]));
                assert(playbook.missing().contains(repos[j - n]));
            }
        }
    }
    assert forall|i: int| 0 <= i < commands.len() implies (after.has_repo(
        #[trigger] targets(commands)[i],
    ) <==> i < done) by {
        assert(repos.contains(repos[i]));
        assert(playbook.missing().contains(repos[i]));
        if i < done {
            assert(after.actors[n + i].repo == repos[i]);
        }
        if after.has_repo(repos[i]) {
            let k = choose|k: int| 0 <= k < after.actors.len() && (#[trigger] after.actors[k]).repo == repos[i];
            if k < n {
                assert(after.actors[k] == playbook.actors[k]);
                assert(playbook.has_repo(repos[i]));
            } else {
                assert(repos[k - n] == repos[i]);
            }
        }
    }
}

/// What is missing after a solve pass is a partner of an actor that the pass added:
/// the pass closes every gap that it found, so the expansion goes on one level at
/// a time and ends when the resolved actors bring no partners from outside.
pub proof fn theorem_solve_closes_its_gaps(
    playbook: PlaybookView,
    commands: Seq<CommandView>,
    resolver: spec_fn(Seq<char>) -> ActorView,
    repo: Seq<char>,
)
    requires
        solves(playbook, commands),
        carried_out(playbook, commands, resolver).missing().contains(repo),
    ensures
        exists|k: int|
            playbook.actors.len() <= k < carried_out(playbook, commands, resolver).actors.len() && (
            #[trigger] carried_out(playbook, commands, resolver).actors[k]).depends_on(repo),
{
    let after = carried_out(playbook, commands, resolver);
    let n = playbook.actors.len() as int;
    if playbook.converged() {
        lemma_carried_out_one(playbook, CommandView::PatchStatus(PlaybookState::Ready), resolver);
        let a = choose|a: int| 0 <= a < after.actors.len() && (#[trigger] after.actors[a]).depends_on(repo);
        assert(playbook.actors[a].depends_on(repo));
        assert(playbook.references(repo));
        let b = choose|b: int| 0 <= b < playbook.actors.len() && (#[trigger] playbook.actors[b]).repo == repo;
        assert(after.actors[b].repo == repo);
        assert(false);
    } else {
        lemma_fetches_append(playbook, commands, resolver);
        let repos = targets(commands);
        let a = choose|a: int| 0 <= a < after.actors.len() && (#[trigger] after.actors[a]).depends_on(repo);
        if a < n {
            assert(after.actors[a] == playbook.actors[a]);
            assert(playbook.actors[a].depends_on(repo));
            assert(playbook.references(repo));
            if playbook.has_repo(repo) {
                let b = choose|b: int| 0 <= b < playbook.actors.len() && (#[trigger] playbook.actors[b]).repo == repo;
                assert(after.actors[b] == playbook.actors[b]);
                assert(after.actors[b].repo == repo);
                assert(false);
            } else {
                assert(playbook.missing().contains(repo));
                assert(repos.contains(repo));
                let i = choose|i: int| 0 <= i < repos.len() && repos[i] == repo;
                assert(after.actors[n + i].repo == repo);
                assert(false);
            }
        }
    }
}

/// Where the resolver gives actors without partners, one solve pass is enough: after
/// it nothing is missing, so the pass after it makes the playbook ready.
pub proof fn theorem_partners_without_partners_converge(
    playbook: PlaybookView,
    commands: Seq<CommandView>,
    resolver: spec_fn(Seq<char>) -> ActorView,
)
    requires
        solves(playbook, commands),
        forall|repo: Seq<char>| (#[trigger] resolver(repo)).partners.len() == 0,
    ensures
        carried_out(playbook, commands, resolver).converged(),
{
    let after = carried_out(playbook, commands, resolver);
    assert forall|repo: Seq<char>| after.references(repo) implies after.has_repo(repo) by {
        if !after.has_repo(repo) {
            assert(after.missing().contains(repo));
            theorem_solve_closes_its_gaps(playbook, commands, resolver, repo);
            let k = choose|k: int|
                playbook.actors.len() <= k < after.actors.len() && (#[trigger] after.actors[k]).depends_on(
                    repo,
                );
            lemma_fetches_or_patch(playbook, commands, resolver);
            let target = targets(commands)[k - playbook.actors.len()];
            assert(after.actors[k] == resolver(target).with_repo(target));
            assert(resolver(target).partners.len() == 0);
        }
    }
}

/// After a solve pass the actors are the old ones and, behind them, the resolved
/// ones: none where the playbook had converged.
proof fn lemma_fetches_or_patch(
    playbook: PlaybookView,
    commands: Seq<CommandView>,
    resolver: spec_fn(Seq<char>) -> ActorView,
)
    requires
        solves(playbook, commands),
    ensures
        playbook.converged() ==> carried_out(playbook, commands, resolver).actors
            == playbook.actors,
        !playbook.converged() ==> carried_out(playbook, commands, resolver).actors
            == playbook.actors + resolved(targets(commands), resolver),
{
    if playbook.converged() {
        lemma_carried_out_one(playbook, CommandView::PatchStatus(PlaybookState::Ready), resolver);
    } else {
        lemma_fetches_append(playbook, commands, resolver);
    }
}

/// No pass takes an actor away or changes one: the actors before a pass are the
/// beginning of the actors after it.
pub proof fn theorem_actors_only_grow(
    playbook: PlaybookView,
    commands: Seq<CommandView>,
    resolver: spec_fn(Seq<char>) -> ActorView,
)
    requires
        reconciles(playbook, commands),
    ensures
        begins(playbook.actors, carried_out(playbook, commands, resolver).actors),
{
    let after = carried_out(playbook, commands, resolver);
    match playbook.state {
        Some(PlaybookState::Pending) => {
            theorem_pending_becomes_solving(playbook, commands, resolver);
        },
        Some(PlaybookState::Solving) => {
            if playbook.converged() {
                theorem_converged_becomes_ready(playbook, commands, resolver);
            } else {
                theorem_solve_appends_missing(playbook, commands, resolver);
            }
        },
        Some(PlaybookState::Running) => {
            theorem_running_builds_and_deploys_all(playbook, commands, resolver);
        },
        _ => {},
    }
    assert(after.actors.subrange(0, playbook.actors.len() as int) =~= playbook.actors);
}

/// The reconciler never makes a playbook run: no pass patches the status to
/// running. Only a request from outside does.
pub proof fn theorem_reconciler_never_promotes(playbook: PlaybookView, commands: Seq<CommandView>)
    requires
        reconciles(playbook, commands),
    ensures
        forall|i: int|
            0 <= i < commands.len() ==> (#[trigger] commands[i]) != CommandView::PatchStatus(
                PlaybookState::Running,
            ),
{
}

proof fn lemma_builds_and_deploys_change_nothing(
    playbook: PlaybookView,
    commands: Seq<CommandView>,
    resolver: spec_fn(Seq<char>) -> ActorView,
)
    requires
        forall|i: int|
            0 <= i < commands.len() ==> (#[trigger] commands[i]) is Build || commands[i] is Deploy
                || commands[i] is Publish,
    ensures
        carried_out(playbook, commands, resolver) == playbook,
    decreases commands.len(),
{
    if commands.len() > 0 {
        lemma_builds_and_deploys_change_nothing(playbook, commands.drop_last(), resolver);
        assert(commands.last() == commands[commands.len() - 1]);
    }
}

/// The pass over a running playbook with `n` actors has `2 n` commands: for each
/// actor, in the order of the list, its build and directly after it its deploy. The
/// pass leaves the playbook as it is, so the next pass does the same again.
pub proof fn theorem_running_builds_and_deploys_all(
    playbook: PlaybookView,
    commands: Seq<CommandView>,
    resolver: spec_fn(Seq<char>) -> ActorView,
)
    requires
        playbook.state == Some(PlaybookState::Running),
        reconciles(playbook, commands),
    ensures
        commands.len() == 2 * playbook.actors.len(),
        forall|i: int|
            0 <= i < playbook.actors.len() ==> #[trigger] commands[2 * i] == (CommandView::Build {
                actor: i,
            }),
        forall|i: int|
            0 <= i < playbook.actors.len() ==> #[trigger] commands[2 * i + 1] == (
            CommandView::Deploy { actor: i }),
        carried_out(playbook, commands, resolver) == playbook,
        reconciles(carried_out(playbook, commands, resolver), commands),
{
    assert forall|i: int| 0 <= i < playbook.actors.len() implies #[trigger] commands[2 * i] == (
    CommandView::Build { actor: i }) && #[trigger] commands[2 * i + 1] == (CommandView::Deploy {
        actor: i,
    }) by {
        assert((2 * i) % 2 == 0 && (2 * i) / 2 == i);
        assert((2 * i + 1) % 2 == 1 && (2 * i + 1) / 2 == i);
    }
    assert forall|k: int| 0 <= k < commands.len() implies (#[trigger] commands[k]) is Build
        || commands[k] is Deploy || commands[k] is Publish by {
        assert(commands[k] == run_commands(playbook)[k]);
    }
    lemma_builds_and_deploys_change_nothing(playbook, commands, resolver);
}

/// The cleanup before a deletion publishes exactly one audit event, does nothing
/// else, and leaves the playbook as it is.
pub proof fn theorem_cleanup_publishes_once(
    playbook: PlaybookView,
    resolver: spec_fn(Seq<char>) -> ActorView,
)
    ensures
        cleanup_commands(playbook).len() == 1,
        cleanup_commands(playbook)[0] is Publish,
        carried_out(playbook, cleanup_commands(playbook), resolver) == playbook,
{
    lemma_builds_and_deploys_change_nothing(playbook, cleanup_commands(playbook), resolver);
}

} // verus!
