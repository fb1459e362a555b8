//! The ways in which a reconcile pass fails.
use vstd::prelude::*;

verus! {

/// Why a partner could not be resolved.
#[derive(Clone, Debug, PartialEq, Eq)]
pub enum ResolveError {
    /// The partner names a registry that the resolver does not know.
    UnknownCharacterRegistry(String),
    /// The partner is of a kind that the resolver cannot load.
    UnsupportedPartner,
    /// The source of the manifest could not be read.
    FetchingError(String),
}

/// The view of a [`ResolveError`].
pub enum ResolveErrorView {
    UnknownCharacterRegistry(Seq<char>),
    UnsupportedPartner,
    FetchingError(Seq<char>),
}

impl View for ResolveError {
    type V = ResolveErrorView;

    open spec fn view(&self) -> ResolveErrorView {
        match self {
            ResolveError::UnknownCharacterRegistry(name) => ResolveErrorView::UnknownCharacterRegistry(name@),
            ResolveError::UnsupportedPartner => ResolveErrorView::UnsupportedPartner,
            ResolveError::FetchingError(message) => ResolveErrorView::FetchingError(message@),
        }
    }
}

/// What the protocol that guards deletions could not do itself.
#[derive(Clone, Debug, PartialEq, Eq)]
pub enum ProtocolError {
    /// The marker could not be added; the store said why.
    AddFinalizer(String),
    /// The marker could not be released; the store said why.
    RemoveFinalizer(String),
    /// The playbook has no name.
    UnnamedObject,
    /// The marker could not be addressed.
    InvalidFinalizer,
}

/// The view of a [`ProtocolError`].
pub enum ProtocolErrorView {
    AddFinalizer(Seq<char>),
    RemoveFinalizer(Seq<char>),
    UnnamedObject,
    InvalidFinalizer,
}

impl View for ProtocolError {
    type V = ProtocolErrorView;

    open spec fn view(&self) -> ProtocolErrorView {
        match self {
            ProtocolError::AddFinalizer(message) => ProtocolErrorView::AddFinalizer(message@),
            ProtocolError::RemoveFinalizer(message) => ProtocolErrorView::RemoveFinalizer(message@),
            ProtocolError::UnnamedObject => ProtocolErrorView::UnnamedObject,
            ProtocolError::InvalidFinalizer => ProtocolErrorView::InvalidFinalizer,
        }
    }
}

/// Why a reconcile pass failed.
#[derive(Clone, Debug, PartialEq, Eq)]
pub enum Error {
    /// The playbook has no actors, so there is nothing to reconcile.
    EmptyActorsError,
    /// The store refused an operation or could not be reached.
    KubeError(String),
    /// The protocol that guards deletions failed in its own machinery. A pass that
    /// fails under the guard fails with its own error, not with this one.
    FinalizerError(ProtocolError),
    /// A partner could not be resolved.
    ResolveError(ResolveError),
}

/// The view of an [`Error`].
pub enum ErrorView {
    EmptyActorsError,
    KubeError(Seq<char>),
    FinalizerError(ProtocolErrorView),
    ResolveError(ResolveErrorView),
}

impl View for Error {
    type V = ErrorView;

    open spec fn view(&self) -> ErrorView {
        match self {
            Error::EmptyActorsError => ErrorView::EmptyActorsError,
            Error::KubeError(message) => ErrorView::KubeError(message@),
            Error::FinalizerError(error) => ErrorView::FinalizerError(error@),
            Error::ResolveError(error) => ErrorView::ResolveError(error@),
        }
    }
}

} // verus!
