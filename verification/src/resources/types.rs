//! Playbooks and actors, with their mathematical views.
use std::collections::HashMap;
use vstd::prelude::*;

verus! {

/// The finalizer marker under which the composer guards the deletion of a playbook.
pub const PLAYBOOK_RESOURCE_NAME: &'static str = "playbooks.amphitheatre.app";

/// One buildable and deployable component of a playbook.
#[derive(Clone, Debug, PartialEq, Eq)]
pub struct Actor {
    pub name: String,
    pub description: String,
    pub image: String,
    /// Source URL; the key by which an actor is found among the actors of a playbook.
    pub repo: String,
    pub path: String,
    pub reference: String,
    pub commit: String,
    pub environment: HashMap<String, String>,
    /// The repositories of the actors that this actor depends on.
    pub partners: Vec<String>,
}

/// What an [`Actor`] is to the contracts of this crate.
pub struct ActorView {
    pub name: Seq<char>,
    pub description: Seq<char>,
    pub image: Seq<char>,
    pub repo: Seq<char>,
    pub path: Seq<char>,
    pub reference: Seq<char>,
    pub commit: Seq<char>,
    pub environment: Map<Seq<char>, Seq<char>>,
    pub partners: Seq<Seq<char>>,
}

impl View for Actor {
    type V = ActorView;

    open spec fn view(&self) -> ActorView {
        ActorView {
            name: self.name@,
            description: self.description@,
            image: self.image@,
            repo: self.repo@,
            path: self.path@,
            reference: self.reference@,
            commit: self.commit@,
            environment: self.environment.deep_view(),
            partners: self.partners.deep_view(),
        }
    }
}

impl ActorView {
    /// The same actor under another repository.
    pub open spec fn with_repo(self, repo: Seq<char>) -> ActorView {
        ActorView { repo, ..self }
    }

    /// Whether `repo` is among the partners of this actor.
    pub open spec fn depends_on(self, repo: Seq<char>) -> bool {
        self.partners.contains(repo)
    }
}

/// Where a playbook stands in its life.
#[derive(Clone, Copy, Debug, PartialEq, Eq, Structural)]
pub enum PlaybookState {
    Pending,
    Solving,
    Ready,
    Running,
}

impl PlaybookState {
    pub fn pending() -> (state: PlaybookState)
        ensures
            state == PlaybookState::Pending,
    {
        PlaybookState::Pending
    }

    pub fn solving() -> (state: PlaybookState)
        ensures
            state == PlaybookState::Solving,
    {
        PlaybookState::Solving
    }

    pub fn ready() -> (state: PlaybookState)
        ensures
            state == PlaybookState::Ready,
    {
        PlaybookState::Ready
    }

    pub fn running() -> (state: PlaybookState)
        ensures
            state == PlaybookState::Running,
    {
        PlaybookState::Running
    }
}

/// The reported status of a playbook.
#[derive(Clone, Copy, Debug, PartialEq, Eq, Structural)]
pub struct PlaybookStatus {
    pub state: PlaybookState,
}

impl PlaybookStatus {
    pub fn new(state: PlaybookState) -> (status: PlaybookStatus)
        ensures
            status.state == state,
    {
        PlaybookStatus { state }
    }

    pub fn pending(&self) -> (yes: bool)
        ensures
            yes == (self.state == PlaybookState::Pending),
    {
        self.state == PlaybookState::Pending
    }

    pub fn solving(&self) -> (yes: bool)
        ensures
            yes == (self.state == PlaybookState::Solving),
    {
        self.state == PlaybookState::Solving
    }

    pub fn ready(&self) -> (yes: bool)
        ensures
            yes == (self.state == PlaybookState::Ready),
    {
        self.state == PlaybookState::Ready
    }

    pub fn running(&self) -> (yes: bool)
        ensures
            yes == (self.state == PlaybookState::Running),
    {
        self.state == PlaybookState::Running
    }
}

/// The declared content of a playbook.
#[derive(Clone, Debug, PartialEq, Eq)]
pub struct PlaybookSpec {
    pub title: String,
    pub description: Option<String>,
    pub actors: Vec<Actor>,
}

/// An application composed of actors.
#[derive(Clone, Debug, PartialEq, Eq)]
pub struct Playbook {
    pub namespace: String,
    pub name: String,
    pub spec: PlaybookSpec,
    pub status: Option<PlaybookStatus>,
}

/// What a [`Playbook`] is to the contracts of this crate.
pub struct PlaybookView {
    pub namespace: Seq<char>,
    pub name: Seq<char>,
    pub title: Seq<char>,
    pub description: Option<Seq<char>>,
    pub actors: Seq<ActorView>,
    pub state: Option<PlaybookState>,
}

/// The views of a list of actors, in order.
pub open spec fn actor_views(actors: Seq<Actor>) -> Seq<ActorView> {
    Seq::new(actors.len(), |i: int| actors[i]@)
}

impl View for Playbook {
    type V = PlaybookView;

    open spec fn view(&self) -> PlaybookView {
        PlaybookView {
            namespace: self.namespace@,
            name: self.name@,
            title: self.spec.title@,
            description: self.spec.description.deep_view(),
            actors: actor_views(self.spec.actors@),
            state: match self.status {
                Some(status) => Some(status.state),
                None => None,
            },
        }
    }
}

impl PlaybookView {
    /// Whether an actor with this repository is in the playbook.
    pub open spec fn has_repo(self, repo: Seq<char>) -> bool {
        exists|i: int| 0 <= i < self.actors.len() && (#[trigger] self.actors[i]).repo == repo
    }

    /// Whether some actor of the playbook names this repository as a partner.
    pub open spec fn references(self, repo: Seq<char>) -> bool {
        exists|i: int|
            0 <= i < self.actors.len() && (#[trigger] self.actors[i]).depends_on(repo)
    }

    /// The repositories that actors depend on and that no actor of the playbook has.
    pub open spec fn missing(self) -> Set<Seq<char>> {
        Set::new(|repo: Seq<char>| self.references(repo) && !self.has_repo(repo))
    }

    /// Every partner of every actor is an actor of the playbook.
    pub open spec fn converged(self) -> bool {
        forall|repo: Seq<char>| self.references(repo) ==> self.has_repo(repo)
    }

    /// No two actors share a repository.
    pub open spec fn distinct_repos(self) -> bool {
        forall|i: int, j: int|
            0 <= i < j < self.actors.len() ==> (#[trigger] self.actors[i]).repo != (
            #[trigger] self.actors[j]).repo
    }

    /// The playbook after its status was patched to `state`.
    pub open spec fn with_state(self, state: PlaybookState) -> PlaybookView {
        PlaybookView { state: Some(state), ..self }
    }

    /// The playbook after `actor` was appended to its actors.
    pub open spec fn with_actor(self, actor: ActorView) -> PlaybookView {
        PlaybookView { actors: self.actors.push(actor), ..self }
    }
}

impl Playbook {
    /// The state that the status reports, if a status was reported yet.
    pub fn state(&self) -> (state: Option<PlaybookState>)
        ensures
            state == self@.state,
    {
        match self.status {
            Some(status) => Some(status.state),
            None => None,
        }
    }

    /// What a status patch does to the playbook: the status reports `state`, and
    /// nothing else changes.
    pub fn patch_status(&mut self, state: PlaybookState)
        ensures
            final(self)@ == old(self)@.with_state(state),
    {
        self.status = Some(PlaybookStatus { state });
    }

    /// What the persisted growth of the actor list does to the playbook: `actor` is
    /// its last actor, and the actors before it are the ones it had.
    pub fn add(&mut self, actor: Actor)
        ensures
            final(self)@ == old(self)@.with_actor(actor@),
    {
        self.spec.actors.push(actor);
        assert(actor_views(self.spec.actors@) =~= actor_views(old(self).spec.actors@).push(actor@));
    }
}

} // verus!
