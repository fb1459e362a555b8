//! Playbooks as the administrative surface sees them: a playbook is created under a
//! fresh identifier, and it is started and stopped by request.
use crate::composer::controller::{Command, CommandView};
use crate::resources::types::{Playbook, PlaybookSpec, PlaybookState, PlaybookView};
use vstd::prelude::*;
use vstd::string::StringExecFns;

verus! {

/// What comes before the identifier in the namespace of a playbook.
pub const NAMESPACE_PREFIX: &'static str = "amp-";

/// The request to create a playbook.
#[derive(Clone, Debug, PartialEq, Eq)]
pub struct CreatePlaybookRequest {
    pub title: String,
    pub description: Option<String>,
}

/// What a client is told about a playbook.
#[derive(Clone, Debug, PartialEq, Eq)]
pub struct PlaybookResponse {
    pub id: String,
    pub title: String,
    pub description: String,
    /// Milliseconds since the Unix epoch.
    pub created_at: i64,
    /// Milliseconds since the Unix epoch.
    pub updated_at: i64,
}

/// The view of a [`PlaybookResponse`].
pub struct PlaybookResponseView {
    pub id: Seq<char>,
    pub title: Seq<char>,
    pub description: Seq<char>,
    pub created_at: int,
    pub updated_at: int,
}

impl View for PlaybookResponse {
    type V = PlaybookResponseView;

    open spec fn view(&self) -> PlaybookResponseView {
        PlaybookResponseView {
            id: self.id@,
            title: self.title@,
            description: self.description@,
            created_at: self.created_at as int,
            updated_at: self.updated_at as int,
        }
    }
}

/// Whether `id` has the shape of a hyphenated identifier: 36 characters in groups
/// of 8, 4, 4, 4 and 12, with a hyphen between two groups.
pub open spec fn hyphenated(id: Seq<char>) -> bool {
    &&& id.len() == 36
    &&& id[8] == '-'
    &&& id[13] == '-'
    &&& id[18] == '-'
    &&& id[23] == '-'
}

/// A fresh random identifier in its hyphenated form.
///
/// Calls `uuid::Uuid::new_v4` and renders the identifier with its `Display`, which
/// writes the lower-case hyphenated form. The contract claims the shape of that
/// form and nothing about the digits, which are random. The call fails where the
/// system has no source of randomness.
#[verifier::external_body]
fn new_id() -> (id: String)
    ensures
        hyphenated(id@),
{
    uuid::Uuid::new_v4().to_string()
}

/// The time of the system clock, in milliseconds since the Unix epoch.
///
/// Calls `chrono::Utc::now` and `DateTime::timestamp_millis`. Nothing is claimed of
/// the result: it is whatever the clock says.
#[verifier::external_body]
fn now() -> (millis: i64) {
    chrono::Utc::now().timestamp_millis()
}

/// The playbook that is made for `request` under the identifier `id`: the
/// identifier is its name, its namespace is the identifier behind
/// [`NAMESPACE_PREFIX`], it has the title and the description of the request, no
/// actors, and no status.
pub open spec fn resource_of(id: Seq<char>, title: Seq<char>, description: Option<Seq<char>>) -> PlaybookView {
    PlaybookView {
        namespace: NAMESPACE_PREFIX@ + id,
        name: id,
        title,
        description,
        actors: Seq::empty(),
        state: None,
    }
}

/// What a client is told about `playbook`: its name as the identifier, its title,
/// its description or the empty text where it has none, and the two times.
pub open spec fn response_of(playbook: PlaybookView, created_at: int, updated_at: int) -> PlaybookResponseView {
    PlaybookResponseView {
        id: playbook.name,
        title: playbook.title,
        description: match playbook.description {
            Some(description) => description,
            None => Seq::empty(),
        },
        created_at,
        updated_at,
    }
}

/// The operations on playbooks that the administrative surface offers.
pub struct PlaybookService;

impl PlaybookService {
    /// The request to start a playbook. Only a ready playbook starts: the answer is
    /// the patch that makes it run. A playbook in another state, or without a
    /// status, is left as it is.
    pub fn start(playbook: &Playbook) -> (command: Option<Command>)
        ensures
            playbook@.state == Some(PlaybookState::Ready) <==> command is Some,
            command is Some ==> command->0@ == CommandView::PatchStatus(PlaybookState::Running),
    {
        match playbook.state() {
            Some(PlaybookState::Ready) => Some(Command::PatchStatus(PlaybookState::running())),
            _ => None,
        }
    }

    /// The request to stop a playbook. Only a running playbook stops: the answer is
    /// the patch that makes it ready again. A playbook in another state, or without
    /// a status, is left as it is.
    pub fn stop(playbook: &Playbook) -> (command: Option<Command>)
        ensures
            playbook@.state == Some(PlaybookState::Running) <==> command is Some,
            command is Some ==> command->0@ == CommandView::PatchStatus(PlaybookState::Ready),
    {
        match playbook.state() {
            Some(PlaybookState::Running) => Some(Command::PatchStatus(PlaybookState::ready())),
            _ => None,
        }
    }

    /// The namespace of the playbook with the identifier `id`.
    pub fn namespace(id: &String) -> (namespace: String)
        ensures
            namespace@ == NAMESPACE_PREFIX@ + id@,
    {
        let mut namespace = NAMESPACE_PREFIX.to_owned();
        namespace.append(id.as_str());
        namespace
    }

    /// The playbook for `request` under the identifier `id`.
    pub fn resource(id: String, request: &CreatePlaybookRequest) -> (playbook: Playbook)
        ensures
            playbook@ == resource_of(id@, request.title@, request.description.deep_view()),
    {
        let namespace = PlaybookService::namespace(&id);
        let description = match &request.description {
            Some(description) => Some(description.clone()),
            None => None,
        };
        let actors = Vec::new();
        let playbook = Playbook {
            namespace,
            name: id,
            spec: PlaybookSpec { title: request.title.clone(), description, actors },
            status: None,
        };
        assert(playbook@.actors =~= Seq::empty());
        playbook
    }

    /// The playbook for `request` under a fresh identifier, for the store to keep.
    /// Which identifier it gets is open; all else is as [`resource_of`] says.
    pub fn create(request: &CreatePlaybookRequest) -> (playbook: Playbook)
        ensures
            hyphenated(playbook@.name),
            playbook@ == resource_of(
                playbook@.name,
                request.title@,
                request.description.deep_view(),
            ),
    {
        PlaybookService::resource(new_id(), request)
    }

    /// What a client is told about `playbook` with the given times.
    pub fn response(playbook: &Playbook, created_at: i64, updated_at: i64) -> (response:
        PlaybookResponse)
        ensures
            response@ == response_of(playbook@, created_at as int, updated_at as int),
    {
        let description = match &playbook.spec.description {
            Some(description) => description.clone(),
            None => String::new(),
        };
        PlaybookResponse {
            id: playbook.name.clone(),
            title: playbook.spec.title.clone(),
            description,
            created_at,
            updated_at,
        }
    }

    /// What a client is told about a playbook that the store has just created:
    /// both of its times are read from the clock.
    pub fn created(playbook: &Playbook) -> (response: PlaybookResponse)
        ensures
            response@ == response_of(
                playbook@,
                response@.created_at,
                response@.updated_at,
            ),
    {
        let created_at = now();
        let updated_at = now();
        PlaybookService::response(playbook, created_at, updated_at)
    }
}

} // verus!
