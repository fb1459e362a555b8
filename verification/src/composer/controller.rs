//! The reconciler of playbooks.
//!
//! A reconcile pass is decided here and carried out by the caller. The decision is a
//! [`Plan`]: the commands to perform against the cluster, in order, and the action to
//! hand back to the control loop once all of them succeeded. The caller stops at the
//! first command that fails and reports the failure, for which [`error_policy`] names
//! the action.
use crate::resources::error::{
    Error, ErrorView, ProtocolError, ProtocolErrorView, ResolveError,
};
use crate::resources::types::{
    Actor, ActorView, Playbook, PlaybookState, PlaybookView, PLAYBOOK_RESOURCE_NAME,
};
use std::collections::HashMap;
use vstd::prelude::*;
use vstd::string::StringExecFns;

verus! {

/// The seconds after which a failed reconcile pass is tried again.
pub const REQUEUE_SECONDS: u64 = 60;

/// The name under which the composer reports its audit events.
pub const REPORTER: &'static str = "amphitheatre-composer";

/// What the control loop does with a playbook after a reconcile pass.
#[derive(Clone, Copy, Debug, PartialEq, Eq, Structural)]
pub enum Action {
    /// Reconcile again when the playbook changes.
    AwaitChange,
    /// Reconcile again after this many seconds, or earlier if the playbook changes.
    Requeue { seconds: u64 },
}

impl Action {
    pub fn await_change() -> (action: Action)
        ensures
            action == Action::AwaitChange,
    {
        Action::AwaitChange
    }

    pub fn requeue(seconds: u64) -> (action: Action)
        ensures
            action == (Action::Requeue { seconds }),
    {
        Action::Requeue { seconds }
    }
}

/// The kind of an audit event.
#[derive(Clone, Copy, Debug, PartialEq, Eq, Structural)]
pub enum EventType {
    Normal,
    Warning,
}

/// An audit event about a playbook, for the recorder of the cluster.
#[derive(Clone, Debug, PartialEq, Eq)]
pub struct Event {
    pub type_: EventType,
    pub reason: String,
    pub note: Option<String>,
    pub action: String,
}

/// The view of an [`Event`].
pub struct EventView {
    pub type_: EventType,
    pub reason: Seq<char>,
    pub note: Option<Seq<char>>,
    pub action: Seq<char>,
}

impl View for Event {
    type V = EventView;

    open spec fn view(&self) -> EventView {
        EventView {
            type_: self.type_,
            reason: self.reason@,
            note: self.note.deep_view(),
            action: self.action@,
        }
    }
}

/// One piece of work against the cluster.
#[derive(Clone, Debug, PartialEq, Eq)]
pub enum Command {
    /// Patch the status of the playbook to this state.
    PatchStatus(PlaybookState),
    /// Resolve the partner at `repo` to an actor and append it to the playbook.
    Fetch { repo: String },
    /// Build the actor at this position of the playbook's actors.
    Build { actor: usize },
    /// Deploy the actor at this position of the playbook's actors.
    Deploy { actor: usize },
    /// Publish this audit event.
    Publish(Event),
}

/// The view of a [`Command`].
pub enum CommandView {
    PatchStatus(PlaybookState),
    Fetch { repo: Seq<char> },
    Build { actor: int },
    Deploy { actor: int },
    Publish(EventView),
}

impl View for Command {
    type V = CommandView;

    open spec fn view(&self) -> CommandView {
        match self {
            Command::PatchStatus(state) => CommandView::PatchStatus(*state),
            Command::Fetch { repo } => CommandView::Fetch { repo: repo@ },
            Command::Build { actor } => CommandView::Build { actor: *actor as int },
            Command::Deploy { actor } => CommandView::Deploy { actor: *actor as int },
            Command::Publish(event) => CommandView::Publish(event@),
        }
    }
}

/// The views of a list of commands, in order.
pub open spec fn command_views(commands: Seq<Command>) -> Seq<CommandView> {
    Seq::new(commands.len(), |i: int| commands[i]@)
}

/// What one reconcile pass does: the commands, in order, and the action that the
/// control loop gets once all of them succeeded.
#[derive(Clone, Debug, PartialEq, Eq)]
pub struct Plan {
    pub commands: Vec<Command>,
    pub action: Action,
}

/// The view of a [`Plan`].
pub struct PlanView {
    pub commands: Seq<CommandView>,
    pub action: Action,
}

impl View for Plan {
    type V = PlanView;

    open spec fn view(&self) -> PlanView {
        PlanView { commands: command_views(self.commands@), action: self.action }
    }
}

/// The repositories that a list of commands fetches, in order. Meant for lists that
/// hold fetches only.
pub open spec fn targets(commands: Seq<CommandView>) -> Seq<Seq<char>> {
    Seq::new(
        commands.len(),
        |i: int|
            match commands[i] {
                CommandView::Fetch { repo } => repo,
                _ => Seq::empty(),
            },
    )
}

/// The commands of a pass over a pending playbook: the status becomes solving.
pub open spec fn start_commands() -> Seq<CommandView> {
    seq![CommandView::PatchStatus(PlaybookState::Solving)]
}

/// Whether `commands` are those of a solve pass over `playbook`. For a converged
/// playbook they patch the status to ready. Else they fetch each missing
/// repository once, in some order, and leave the status as it is.
pub open spec fn solves(playbook: PlaybookView, commands: Seq<CommandView>) -> bool {
    if playbook.converged() {
        commands == seq![CommandView::PatchStatus(PlaybookState::Ready)]
    } else {
        &&& forall|i: int| 0 <= i < commands.len() ==> (#[trigger] commands[i]) is Fetch
        &&& targets(commands).no_duplicates()
        &&& forall|repo: Seq<char>|
            targets(commands).contains(repo) <==> playbook.missing().contains(repo)
    }
}

/// The commands of a pass over a running playbook: each actor is built and then
/// deployed, in the order of the actor list.
pub open spec fn run_commands(playbook: PlaybookView) -> Seq<CommandView> {
    Seq::new(
        2 * playbook.actors.len(),
        |k: int|
            if k % 2 == 0 {
                CommandView::Build { actor: k / 2 }
            } else {
                CommandView::Deploy { actor: k / 2 }
            },
    )
}

/// The audit event that announces the deletion of the playbook called `name`.
pub open spec fn deletion_event(name: Seq<char>) -> EventView {
    EventView {
        type_: EventType::Normal,
        reason: "DeletePlaybook"@,
        note: Some("Delete playbook `"@ + name + "`"@),
        action: "Reconciling"@,
    }
}

/// The commands of the cleanup before a deletion: the deletion is announced, once.
pub open spec fn cleanup_commands(playbook: PlaybookView) -> Seq<CommandView> {
    seq![CommandView::Publish(deletion_event(playbook.name))]
}

/// Whether `commands` are those of a reconcile pass over `playbook`, by its state.
/// Nothing happens while no status is reported, and nothing happens to a ready
/// playbook: only a request from outside makes it run.
pub open spec fn reconciles(playbook: PlaybookView, commands: Seq<CommandView>) -> bool {
    match playbook.state {
        None => commands == Seq::<CommandView>::empty(),
        Some(PlaybookState::Pending) => commands == start_commands(),
        Some(PlaybookState::Solving) => solves(playbook, commands),
        Some(PlaybookState::Ready) => commands == Seq::<CommandView>::empty(),
        Some(PlaybookState::Running) => commands == run_commands(playbook),
    }
}

/// The views of a list of strings, in order.
pub open spec fn string_views(strings: Seq<String>) -> Seq<Seq<char>> {
    Seq::new(strings.len(), |i: int| strings[i]@)
}

/// Whether `repo` is the partner at a position before `(actor, partner)`, counted
/// actor by actor and, within an actor, partner by partner.
spec fn seen(playbook: PlaybookView, actor: int, partner: int, repo: Seq<char>) -> bool {
    exists|a: int, b: int|
        0 <= a < playbook.actors.len() && 0 <= b < playbook.actors[a].partners.len() && (a < actor
            || (a == actor && b < partner)) && #[trigger] playbook.actors[a].partners[b] == repo
}

/// Whether `repos` holds, each once, the repositories that are named before
/// `(actor, partner)` and that no actor of the playbook has.
spec fn collected(
    repos: Seq<Seq<char>>,
    playbook: PlaybookView,
    actor: int,
    partner: int,
) -> bool {
    &&& repos.no_duplicates()
    &&& forall|repo: Seq<char>| #[trigger]
        repos.contains(repo) <==> (seen(playbook, actor, partner, repo) && !playbook.has_repo(repo))
}

proof fn lemma_seen_step(playbook: PlaybookView, actor: int, partner: int, repo: Seq<char>)
    requires
        0 <= actor < playbook.actors.len(),
        0 <= partner < playbook.actors[actor].partners.len(),
    ensures
        seen(playbook, actor, partner + 1, repo) <==> (seen(playbook, actor, partner, repo)
            || playbook.actors[actor].partners[partner] == repo),
{
    if seen(playbook, actor, partner + 1, repo) {
        let (a, b) = choose|a: int, b: int|
            0 <= a < playbook.actors.len() && 0 <= b < playbook.actors[a].partners.len() && (a
                < actor || (a == actor && b < partner + 1))
                && #[trigger] playbook.actors[a].partners[b] == repo;
        if !(a == actor && b == partner) {
            assert(playbook.actors[a].partners[b] == repo);
            assert(seen(playbook, actor, partner, repo));
        }
    }
    if seen(playbook, actor, partner, repo) {
        let (a, b) = choose|a: int, b: int|
            0 <= a < playbook.actors.len() && 0 <= b < playbook.actors[a].partners.len() && (a
                < actor || (a == actor && b < partner))
                && #[trigger] playbook.actors[a].partners[b] == repo;
        assert(playbook.actors[a].partners[b] == repo);
        assert(seen(playbook, actor, partner + 1, repo));
    }
    if playbook.actors[actor].partners[partner] == repo {
        assert(seen(playbook, actor, partner + 1, repo));
    }
}

proof fn lemma_seen_next(playbook: PlaybookView, actor: int, repo: Seq<char>)
    requires
        0 <= actor < playbook.actors.len(),
    ensures
        seen(playbook, actor, playbook.actors[actor].partners.len() as int, repo) <==> seen(
            playbook,
            actor + 1,
            0,
            repo,
        ),
{
    let end = playbook.actors[actor].partners.len() as int;
    if seen(playbook, actor, end, repo) {
        let (a, b) = choose|a: int, b: int|
            0 <= a < playbook.actors.len() && 0 <= b < playbook.actors[a].partners.len() && (a
                < actor || (a == actor && b < end))
                && #[trigger] playbook.actors[a].partners[b] == repo;
        assert(playbook.actors[a].partners[b] == repo);
        assert(seen(playbook, actor + 1, 0, repo));
    }
    if seen(playbook, actor + 1, 0, repo) {
        let (a, b) = choose|a: int, b: int|
            0 <= a < playbook.actors.len() && 0 <= b < playbook.actors[a].partners.len() && (a
                < actor + 1 || (a == actor + 1 && b < 0))
                && #[trigger] playbook.actors[a].partners[b] == repo;
        assert(playbook.actors[a].partners[b] == repo);
        assert(seen(playbook, actor, end, repo));
    }
}

proof fn lemma_seen_all(playbook: PlaybookView, repo: Seq<char>)
    ensures
        seen(playbook, playbook.actors.len() as int, 0, repo) <==> playbook.references(repo),
{
    let end = playbook.actors.len() as int;
    if seen(playbook, end, 0, repo) {
        let (a, b) = choose|a: int, b: int|
            0 <= a < playbook.actors.len() && 0 <= b < playbook.actors[a].partners.len() && (a
                < end || (a == end && b < 0)) && #[trigger] playbook.actors[a].partners[b] == repo;
        assert(playbook.actors[a].partners.contains(repo));
        assert(playbook.actors[a].depends_on(repo));
    }
    if playbook.references(repo) {
        let a = choose|a: int|
            0 <= a < playbook.actors.len() && (#[trigger] playbook.actors[a]).depends_on(repo);
        let b = choose|b: int|
            0 <= b < playbook.actors[a].partners.len() && playbook.actors[a].partners[b] == repo;
        assert(playbook.actors[a].partners[b] == repo);
        assert(seen(playbook, end, 0, repo));
    }
}

proof fn lemma_collected_start(playbook: PlaybookView)
    ensures
        collected(Seq::empty(), playbook, 0, 0),
{
    assert forall|repo: Seq<char>| !seen(playbook, 0, 0, repo) by {
        if seen(playbook, 0, 0, repo) {
            let (a, b) = choose|a: int, b: int|
                0 <= a < playbook.actors.len() && 0 <= b < playbook.actors[a].partners.len() && (a
                    < 0 || (a == 0 && b < 0)) && #[trigger] playbook.actors[a].partners[b] == repo;
        }
    }
}

proof fn lemma_collected_step(
    before: Seq<Seq<char>>,
    after: Seq<Seq<char>>,
    playbook: PlaybookView,
    actor: int,
    partner: int,
)
    requires
        0 <= actor < playbook.actors.len(),
        0 <= partner < playbook.actors[actor].partners.len(),
        collected(before, playbook, actor, partner),
        after == if playbook.has_repo(playbook.actors[actor].partners[partner])
            || before.contains(playbook.actors[actor].partners[partner]) {
            before
        } else {
            before.push(playbook.actors[actor].partners[partner])
        },
    ensures
        collected(after, playbook, actor, partner + 1),
{
    let new = playbook.actors[actor].partners[partner];
    assert forall|repo: Seq<char>| #[trigger]
        after.contains(repo) <==> (seen(playbook, actor, partner + 1, repo) && !playbook.has_repo(
            repo,
        )) by {
        lemma_seen_step(playbook, actor, partner, repo);
        assert(before.contains(repo) <==> (seen(playbook, actor, partner, repo)
            && !playbook.has_repo(repo)));
        if after != before {
            assert(after.contains(repo) <==> (before.contains(repo) || repo == new)) by {
                if before.contains(repo) {
                    let k = choose|k: int| 0 <= k < before.len() && before[k] == repo;
                    assert(after[k] == repo);
                }
                if repo == new {
                    assert(after[before.len() as int] == repo);
                }
            }
        }
    }
}

proof fn lemma_collected_next(repos: Seq<Seq<char>>, playbook: PlaybookView, actor: int)
    requires
        0 <= actor < playbook.actors.len(),
        collected(repos, playbook, actor, playbook.actors[actor].partners.len() as int),
    ensures
        collected(repos, playbook, actor + 1, 0),
{
    assert forall|repo: Seq<char>| #[trigger]
        repos.contains(repo) <==> (seen(playbook, actor + 1, 0, repo) && !playbook.has_repo(
            repo,
        )) by {
        lemma_seen_next(playbook, actor, repo);
        assert(repos.contains(repo) <==> (seen(
            playbook,
            actor,
            playbook.actors[actor].partners.len() as int,
            repo,
        ) && !playbook.has_repo(repo)));
    }
}

proof fn lemma_collected_all(repos: Seq<Seq<char>>, playbook: PlaybookView)
    requires
        collected(repos, playbook, playbook.actors.len() as int, 0),
    ensures
        forall|repo: Seq<char>| #[trigger] repos.contains(repo) <==> playbook.missing().contains(repo),
{
    assert forall|repo: Seq<char>| #[trigger]
        repos.contains(repo) <==> playbook.missing().contains(repo) by {
        lemma_seen_all(playbook, repo);
        assert(repos.contains(repo) <==> (seen(playbook, playbook.actors.len() as int, 0, repo)
            && !playbook.has_repo(repo)));
    }
}

/// Whether `needle` is among `strings`.
fn contains(strings: &Vec<String>, needle: &String) -> (found: bool)
    ensures
        found == string_views(strings@).contains(needle@),
{
    let mut i: usize = 0;
    while i < strings.len()
        invariant
            i <= strings.len(),
            forall|k: int| 0 <= k < i ==> string_views(strings@)[k] != needle@,
        decreases strings.len() - i,
    {
        if strings[i] == *needle {
            assert(string_views(strings@)[i as int] == needle@);
            return true;
        }
        i += 1;
    }
    false
}

impl Playbook {
    /// Whether an actor of the playbook has this repository.
    pub fn has_repo(&self, repo: &String) -> (found: bool)
        ensures
            found == self@.has_repo(repo@),
    {
        let mut i: usize = 0;
        while i < self.spec.actors.len()
            invariant
                i <= self.spec.actors.len(),
                forall|k: int| 0 <= k < i ==> (#[trigger] self@.actors[k]).repo != repo@,
            decreases self.spec.actors.len() - i,
        {
            if self.spec.actors[i].repo == *repo {
                assert(self@.actors[i as int].repo == repo@);
                return true;
            }
            i += 1;
        }
        false
    }

    /// The repositories that actors of the playbook depend on and that no actor of
    /// it has, each once.
    pub fn missing(&self) -> (repos: Vec<String>)
        ensures
            string_views(repos@).no_duplicates(),
            forall|repo: Seq<char>| #[trigger]
                string_views(repos@).contains(repo) <==> self@.missing().contains(repo),
    {
        let mut repos: Vec<String> = Vec::new();
        let mut i: usize = 0;
        proof {
            lemma_collected_start(self@);
            assert(string_views(repos@) =~= Seq::empty());
        }
        while i < self.spec.actors.len()
            invariant
                i <= self.spec.actors.len(),
                collected(string_views(repos@), self@, i as int, 0),
            decreases self.spec.actors.len() - i,
        {
            let actor = &self.spec.actors[i];
            assert(actor@ == self@.actors[i as int]);
            let mut j: usize = 0;
            while j < actor.partners.len()
                invariant
                    i < self.spec.actors.len(),
                    actor@ == self@.actors[i as int],
                    j <= actor.partners.len(),
                    collected(string_views(repos@), self@, i as int, j as int),
                decreases actor.partners.len() - j,
            {
                let repo = &actor.partners[j];
                assert(repo@ == self@.actors[i as int].partners[j as int]);
                let ghost before = string_views(repos@);
                if !self.has_repo(repo) && !contains(&repos, repo) {
                    repos.push(repo.clone());
                    assert(string_views(repos@) =~= before.push(repo@));
                }
                proof {
                    lemma_collected_step(before, string_views(repos@), self@, i as int, j as int);
                }
                j += 1;
            }
            proof {
                lemma_collected_next(string_views(repos@), self@, i as int);
            }
            i += 1;
        }
        proof {
            lemma_collected_all(string_views(repos@), self@);
        }
        repos
    }
}

/// The actor that stands in for the partner at `url` where no resolver is at hand.
pub open spec fn placeholder(url: Seq<char>) -> ActorView {
    ActorView {
        name: "amp-example-nodejs"@,
        description: "A simple NodeJs example app"@,
        image: "amp-example-nodejs"@,
        repo: url,
        path: "."@,
        reference: "master"@,
        commit: "285ef2bc98fb6b3db46a96b6a750fad2d0c566b5"@,
        environment: Map::empty(),
        partners: Seq::empty(),
    }
}

/// An actor for the partner at `url` that is the same for every partner but for its
/// repository: it has no partners of its own and an empty environment.
pub fn read_partner(url: &String) -> (actor: Actor)
    ensures
        actor@ == placeholder(url@),
{
    let environment: HashMap<String, String> = HashMap::new();
    let partners: Vec<String> = Vec::new();
    proof {
        broadcast use vstd::std_specs::hash::lemma_hashmap_deepview_dom;

        assert(environment.deep_view() =~= Map::<Seq<char>, Seq<char>>::empty());
        assert(partners.deep_view() =~= Seq::<Seq<char>>::empty());
    }
    Actor {
        name: "amp-example-nodejs".to_owned(),
        description: "A simple NodeJs example app".to_owned(),
        image: "amp-example-nodejs".to_owned(),
        repo: url.clone(),
        path: ".".to_owned(),
        reference: "master".to_owned(),
        commit: "285ef2bc98fb6b3db46a96b6a750fad2d0c566b5".to_owned(),
        environment,
        partners,
    }
}

/// What becomes of the resolver's answer for the partner at `url`. An actor enters
/// the playbook under `url`, whatever repository the resolver gave it, so that the
/// partner is no longer missing once the actor is added. A failure of the resolver
/// fails the pass.
pub fn fetched(url: &String, resolved: Result<Actor, ResolveError>) -> (result: Result<
    Actor,
    Error,
>)
    ensures
        match resolved {
            Ok(actor) => result is Ok && result->Ok_0@ == actor@.with_repo(url@),
            Err(error) => result is Err && result->Err_0@ == ErrorView::ResolveError(error@),
        },
{
    match resolved {
        Ok(actor) => {
            let mut actor = actor;
            actor.repo = url.clone();
            Ok(actor)
        },
        Err(error) => Err(Error::ResolveError(error)),
    }
}

impl Playbook {
    /// The pass over a pending playbook: the status becomes solving, and the actors
    /// stay as they are.
    pub fn start(&self) -> (commands: Vec<Command>)
        ensures
            command_views(commands@) == start_commands(),
    {
        let mut commands: Vec<Command> = Vec::new();
        commands.push(Command::PatchStatus(PlaybookState::solving()));
        assert(command_views(commands@) =~= start_commands());
        commands
    }

    /// The pass over a solving playbook: each missing repository is fetched once;
    /// when none is missing, the status becomes ready.
    pub fn solve(&self) -> (commands: Vec<Command>)
        ensures
            solves(self@, command_views(commands@)),
    {
        let repos = self.missing();
        let mut commands: Vec<Command> = Vec::new();
        let mut i: usize = 0;
        while i < repos.len()
            invariant
                i <= repos.len(),
                commands.len() == i,
                forall|k: int|
                    0 <= k < i ==> (#[trigger] commands[k])@ == (CommandView::Fetch {
                        repo: repos[k]@,
                    }),
            decreases repos.len() - i,
        {
            commands.push(Command::Fetch { repo: repos[i].clone() });
            i += 1;
        }
        if repos.len() == 0 {
            commands.push(Command::PatchStatus(PlaybookState::ready()));
        }
        proof {
            let views = command_views(commands@);
            let names = string_views(repos@);
            if repos.len() == 0 {
                assert forall|repo: Seq<char>| self@.references(repo) implies self@.has_repo(
                    repo,
                ) by {
                    assert(!names.contains(repo));
                    assert(!self@.missing().contains(repo));
                }
                assert(views =~= seq![CommandView::PatchStatus(PlaybookState::Ready)]);
            } else {
                assert(names.contains(names[0]));
                assert(self@.missing().contains(names[0]));
                assert(!self@.converged());
                assert(targets(views) =~= names);
            }
        }
        commands
    }

    /// The pass over a running playbook: each actor is built and then deployed, in
    /// the order of the actor list, whether or not it was built before.
    pub fn run(&self) -> (commands: Vec<Command>)
        ensures
            command_views(commands@) == run_commands(self@),
    {
        let mut commands: Vec<Command> = Vec::new();
        let mut i: usize = 0;
        while i < self.spec.actors.len()
            invariant
                i <= self.spec.actors.len(),
                commands.len() == 2 * i,
                forall|k: int|
                    0 <= k < i ==> (#[trigger] commands[2 * k])@ == (CommandView::Build {
                        actor: k,
                    }),
                forall|k: int|
                    0 <= k < i ==> (#[trigger] commands[2 * k + 1])@ == (CommandView::Deploy {
                        actor: k,
                    }),
            decreases self.spec.actors.len() - i,
        {
            commands.push(Command::Build { actor: i });
            commands.push(Command::Deploy { actor: i });
            i += 1;
        }
        proof {
            let views = command_views(commands@);
            let wanted = run_commands(self@);
            assert(views.len() == wanted.len());
            assert forall|k: int| 0 <= k < views.len() implies views[k] == wanted[k] by {
                let half = k / 2;
                if k % 2 == 0 {
                    assert(k == 2 * half);
                    assert(commands[2 * half]@ == (CommandView::Build { actor: half }));
                } else {
                    assert(k == 2 * half + 1);
                    assert(commands[2 * half + 1]@ == (CommandView::Deploy { actor: half }));
                }
            }
            assert(views =~= wanted);
        }
        commands
    }

    /// One reconcile pass over the playbook, by the state that its status reports.
    pub fn reconcile(&self) -> (plan: Plan)
        ensures
            reconciles(self@, plan@.commands),
            plan@.action == Action::AwaitChange,
    {
        let commands = match self.state() {
            Some(PlaybookState::Pending) => self.start(),
            Some(PlaybookState::Solving) => self.solve(),
            Some(PlaybookState::Running) => self.run(),
            _ => {
                let commands: Vec<Command> = Vec::new();
                assert(command_views(commands@) =~= Seq::<CommandView>::empty());
                commands
            },
        };
        Plan { commands, action: Action::await_change() }
    }

    /// The pass over a playbook that is about to be deleted: its deletion is
    /// announced by one audit event, and nothing else is done.
    pub fn cleanup(&self) -> (plan: Plan)
        ensures
            plan@.commands == cleanup_commands(self@),
            plan@.action == Action::AwaitChange,
    {
        let mut note = "Delete playbook `".to_owned();
        note.append(self.name.as_str());
        note.append("`");
        let event = Event {
            type_: EventType::Normal,
            reason: "DeletePlaybook".to_owned(),
            note: Some(note),
            action: "Reconciling".to_owned(),
        };
        let mut commands: Vec<Command> = Vec::new();
        commands.push(Command::Publish(event));
        assert(command_views(commands@) =~= cleanup_commands(self@));
        Plan { commands, action: Action::await_change() }
    }
}

/// Under which guard a playbook is reconciled: the namespace in which the store is
/// addressed, and the finalizer marker that holds back the deletion.
#[derive(Clone, Debug, PartialEq, Eq)]
pub struct Finalizer {
    pub namespace: String,
    pub name: String,
}

/// The view of a [`Finalizer`].
pub struct FinalizerView {
    pub namespace: Seq<char>,
    pub name: Seq<char>,
}

impl View for Finalizer {
    type V = FinalizerView;

    open spec fn view(&self) -> FinalizerView {
        FinalizerView { namespace: self.namespace@, name: self.name@ }
    }
}

/// What the deletion guard asks of the reconciler.
#[derive(Clone, Debug, PartialEq, Eq)]
pub enum FinalizerEvent {
    /// The playbook is there to stay: reconcile it.
    Apply(Playbook),
    /// The playbook is marked for deletion: clean up before the marker is released.
    Cleanup(Playbook),
}

/// The failures of the deletion guard, its own and those of the pass that it ran.
#[derive(Clone, Debug, PartialEq, Eq)]
pub enum FinalizerFailure {
    /// The pass over a playbook that stays has failed.
    ApplyFailed(Error),
    /// The cleanup has failed; the marker is kept.
    CleanupFailed(Error),
    /// The marker could not be added.
    AddFinalizer(String),
    /// The marker could not be released.
    RemoveFinalizer(String),
    /// The playbook has no name.
    UnnamedObject,
    /// The marker could not be addressed.
    InvalidFinalizer,
}

/// The entry of a reconcile: a playbook without actors is refused before anything is
/// changed, any other is handed to the deletion guard under its finalizer.
///
/// The refusal is retried like every failure, and fails again until somebody gives
/// the playbook an actor: a playbook that is left without actors is reconciled in
/// vain for as long as it exists.
pub fn reconcile(playbook: &Playbook) -> (result: Result<Finalizer, Error>)
    ensures
        playbook@.actors.len() == 0 <==> result is Err,
        result is Err ==> result->Err_0@ == ErrorView::EmptyActorsError,
        result is Ok ==> result->Ok_0@ == (FinalizerView {
            namespace: playbook@.namespace,
            name: PLAYBOOK_RESOURCE_NAME@,
        }),
{
    if playbook.spec.actors.len() == 0 {
        return Err(Error::EmptyActorsError);
    }
    Ok(Finalizer { namespace: playbook.namespace.clone(), name: PLAYBOOK_RESOURCE_NAME.to_owned() })
}

/// What the reconciler does at the request of the deletion guard.
pub fn dispatch(event: &FinalizerEvent) -> (plan: Plan)
    ensures
        match event {
            FinalizerEvent::Apply(playbook) => reconciles(playbook@, plan@.commands),
            FinalizerEvent::Cleanup(playbook) => plan@.commands == cleanup_commands(playbook@),
        },
        plan@.action == Action::AwaitChange,
{
    match event {
        FinalizerEvent::Apply(playbook) => playbook.reconcile(),
        FinalizerEvent::Cleanup(playbook) => playbook.cleanup(),
    }
}

/// The error of a reconcile that the deletion guard has failed. A failed pass fails
/// with its own error; what the guard could not do itself is a finalizer error.
pub open spec fn failure_error(failure: FinalizerFailure) -> ErrorView {
    match failure {
        FinalizerFailure::ApplyFailed(error) => error@,
        FinalizerFailure::CleanupFailed(error) => error@,
        FinalizerFailure::AddFinalizer(message) => ErrorView::FinalizerError(
            ProtocolErrorView::AddFinalizer(message@),
        ),
        FinalizerFailure::RemoveFinalizer(message) => ErrorView::FinalizerError(
            ProtocolErrorView::RemoveFinalizer(message@),
        ),
        FinalizerFailure::UnnamedObject => ErrorView::FinalizerError(
            ProtocolErrorView::UnnamedObject,
        ),
        FinalizerFailure::InvalidFinalizer => ErrorView::FinalizerError(
            ProtocolErrorView::InvalidFinalizer,
        ),
    }
}

/// How a reconcile ends once the deletion guard is through: with what the pass
/// gave, or with the error that [`failure_error`] gives.
pub fn conclude<T>(outcome: Result<T, FinalizerFailure>) -> (result: Result<T, Error>)
    ensures
        match outcome {
            Ok(value) => result == Ok::<T, Error>(value),
            Err(failure) => result is Err && result->Err_0@ == failure_error(failure),
        },
{
    match outcome {
        Ok(value) => Ok(value),
        Err(FinalizerFailure::ApplyFailed(error)) => Err(error),
        Err(FinalizerFailure::CleanupFailed(error)) => Err(error),
        Err(FinalizerFailure::AddFinalizer(message)) => Err(
            Error::FinalizerError(ProtocolError::AddFinalizer(message)),
        ),
        Err(FinalizerFailure::RemoveFinalizer(message)) => Err(
            Error::FinalizerError(ProtocolError::RemoveFinalizer(message)),
        ),
        Err(FinalizerFailure::UnnamedObject) => Err(
            Error::FinalizerError(ProtocolError::UnnamedObject),
        ),
        Err(FinalizerFailure::InvalidFinalizer) => Err(
            Error::FinalizerError(ProtocolError::InvalidFinalizer),
        ),
    }
}

/// What the control loop does after a failed reconcile: whatever the playbook and
/// whatever the error, the reconcile is tried again after [`REQUEUE_SECONDS`].
pub fn error_policy(playbook: &Playbook, error: &Error) -> (action: Action)
    ensures
        action == (Action::Requeue { seconds: REQUEUE_SECONDS }),
{
    Action::requeue(REQUEUE_SECONDS)
}

} // verus!
