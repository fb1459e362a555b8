//! Partners and the sources of their manifests.
use crate::resources::error::{ResolveError, ResolveErrorView};
use vstd::prelude::*;

verus! {

/// The registry in which a partner is looked up that names none.
pub const DEFAULT_REGISTRY: &'static str = "catalog";

/// The registry that the cluster itself hosts.
pub const CLUSTER_REGISTRY: &'static str = "hub";

/// A partner that is published in a registry.
#[derive(Clone, Debug, PartialEq, Eq)]
pub struct RegisteredPartner {
    pub registry: Option<String>,
    pub version: String,
}

/// Where in a source repository a partner lives.
#[derive(Clone, Debug, PartialEq, Eq)]
pub struct GitReference {
    pub repo: String,
    pub branch: Option<String>,
    pub tag: Option<String>,
    pub rev: Option<String>,
    pub path: Option<String>,
}

/// A partner on the local disk.
#[derive(Clone, Debug, PartialEq, Eq)]
pub struct LocalPartner {
    pub path: String,
}

/// What an actor says about one of its partners.
#[derive(Clone, Debug, PartialEq, Eq)]
pub enum Partner {
    Registry(RegisteredPartner),
    Repository(GitReference),
    Local(LocalPartner),
}

/// The view of a [`GitReference`].
pub struct GitReferenceView {
    pub repo: Seq<char>,
    pub branch: Option<Seq<char>>,
    pub tag: Option<Seq<char>>,
    pub rev: Option<Seq<char>>,
    pub path: Option<Seq<char>>,
}

impl View for GitReference {
    type V = GitReferenceView;

    open spec fn view(&self) -> GitReferenceView {
        GitReferenceView {
            repo: self.repo@,
            branch: self.branch.deep_view(),
            tag: self.tag.deep_view(),
            rev: self.rev.deep_view(),
            path: self.path.deep_view(),
        }
    }
}

/// The view of a [`Partner`].
pub enum PartnerView {
    Registry { registry: Option<Seq<char>>, version: Seq<char> },
    Repository(GitReferenceView),
    Local { path: Seq<char> },
}

impl View for Partner {
    type V = PartnerView;

    open spec fn view(&self) -> PartnerView {
        match self {
            Partner::Registry(partner) => PartnerView::Registry {
                registry: partner.registry.deep_view(),
                version: partner.version@,
            },
            Partner::Repository(reference) => PartnerView::Repository(reference@),
            Partner::Local(partner) => PartnerView::Local { path: partner.path@ },
        }
    }
}

/// The place from which the manifest of a partner is loaded.
#[derive(Clone, Debug, PartialEq, Eq)]
pub enum Source {
    /// The built-in catalog, by the actor's name and the partner's version.
    Catalog { name: String, version: String },
    /// The registry of the cluster, by the actor's name.
    Cluster { name: String },
    /// A source repository.
    Repository { reference: GitReference },
}

/// The view of a [`Source`].
pub enum SourceView {
    Catalog { name: Seq<char>, version: Seq<char> },
    Cluster { name: Seq<char> },
    Repository { reference: GitReferenceView },
}

impl View for Source {
    type V = SourceView;

    open spec fn view(&self) -> SourceView {
        match self {
            Source::Catalog { name, version } => SourceView::Catalog {
                name: name@,
                version: version@,
            },
            Source::Cluster { name } => SourceView::Cluster { name: name@ },
            Source::Repository { reference } => SourceView::Repository { reference: reference@ },
        }
    }
}

/// The registry of a registered partner: the one it names, else the default.
pub open spec fn registry_of(registry: Option<Seq<char>>) -> Seq<char> {
    match registry {
        Some(name) => name,
        None => DEFAULT_REGISTRY@,
    }
}

/// Where the manifest of `partner` is loaded for the actor called `name`. A
/// registered partner is looked up in the catalog or in the cluster, by the name of
/// its registry, and no other registry is known. A repository is read where it
/// points. No other kind of partner can be loaded.
pub open spec fn source_of(name: Seq<char>, partner: PartnerView) -> Result<
    SourceView,
    ResolveErrorView,
> {
    match partner {
        PartnerView::Registry { registry, version } => {
            if registry_of(registry) == DEFAULT_REGISTRY@ {
                Ok(SourceView::Catalog { name, version })
            } else if registry_of(registry) == CLUSTER_REGISTRY@ {
                Ok(SourceView::Cluster { name })
            } else {
                Err(ResolveErrorView::UnknownCharacterRegistry(registry_of(registry)))
            }
        },
        PartnerView::Repository(reference) => Ok(SourceView::Repository { reference }),
        PartnerView::Local { path } => Err(ResolveErrorView::UnsupportedPartner),
    }
}

/// The view of what [`load`] returns.
pub open spec fn loaded(result: Result<Source, ResolveError>) -> Result<
    SourceView,
    ResolveErrorView,
> {
    match result {
        Ok(source) => Ok(source@),
        Err(error) => Err(error@),
    }
}

fn copy(text: &Option<String>) -> (result: Option<String>)
    ensures
        result.deep_view() == text.deep_view(),
{
    match text {
        Some(text) => Some(text.clone()),
        None => None,
    }
}

impl GitReference {
    /// The reference to the head of the repository at `repo`.
    pub fn new(repo: &String) -> (reference: GitReference)
        ensures
            reference@ == (GitReferenceView {
                repo: repo@,
                branch: None,
                tag: None,
                rev: None,
                path: None,
            }),
    {
        GitReference { repo: repo.clone(), branch: None, tag: None, rev: None, path: None }
    }

    /// A copy of the reference.
    pub fn duplicate(&self) -> (reference: GitReference)
        ensures
            reference@ == self@,
    {
        GitReference {
            repo: self.repo.clone(),
            branch: copy(&self.branch),
            tag: copy(&self.tag),
            rev: copy(&self.rev),
            path: copy(&self.path),
        }
    }
}

/// The partner that a repository URL among the partners of an actor stands for: the
/// head of that repository.
pub fn partner_of(repo: &String) -> (partner: Partner)
    ensures
        partner@ == PartnerView::Repository(
            GitReferenceView { repo: repo@, branch: None, tag: None, rev: None, path: None },
        ),
{
    Partner::Repository(GitReference::new(repo))
}

/// Decides from where the manifest of `partner` is loaded for the actor called
/// `name`, or why it cannot be loaded. The load itself is the caller's, and so is
/// trying again: nothing is retried here.
pub fn load(name: &str, partner: &Partner) -> (result: Result<Source, ResolveError>)
    ensures
        loaded(result) == source_of(name@, partner@),
{
    match partner {
        Partner::Registry(registered) => {
            let registry = match &registered.registry {
                Some(registry) => registry.clone(),
                None => DEFAULT_REGISTRY.to_owned(),
            };
            if registry == DEFAULT_REGISTRY.to_owned() {
                Ok(Source::Catalog { name: name.to_owned(), version: registered.version.clone() })
            } else if registry == CLUSTER_REGISTRY.to_owned() {
                Ok(Source::Cluster { name: name.to_owned() })
            } else {
                Err(ResolveError::UnknownCharacterRegistry(registry))
            }
        },
        Partner::Repository(reference) => Ok(Source::Repository { reference: reference.duplicate() }),
        Partner::Local(_) => Err(ResolveError::UnsupportedPartner),
    }
}

} // verus!
