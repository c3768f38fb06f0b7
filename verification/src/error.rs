//! Why an entry could not be turned into a package.

use vstd::prelude::*;

verus! {

/// The ways in which decoding one lockfile entry fails. Each ends the work
/// on that entry; none is retried here.
#[derive(Debug, Clone, PartialEq, Eq)]
pub enum Error {
    /// The entry's list of values has a length that no kind of package has.
    UnexpectedPackageEntryLength(usize),
    /// An identifier holds no `@` where its version or location must begin.
    NoAtInPackageIdentifier,
    /// A git location holds no `#` in front of its revision.
    MissingGitRef,
    /// A GitHub location holds no `/` between owner and repository.
    ImproperGithubUrl,
    /// A local package's location holds no `file:`.
    MissingFileSpecifier,
    /// A workspace package's location holds no `workspace:`.
    MissingWorkspaceSpecifier,
    /// The hash of a package could not be obtained; the text is the
    /// prefetcher's own account of it.
    Prefetch(String),
}

/// An [`Error`] with its text as a sequence of characters.
pub ghost enum ErrorView {
    UnexpectedPackageEntryLength(usize),
    NoAtInPackageIdentifier,
    MissingGitRef,
    ImproperGithubUrl,
    MissingFileSpecifier,
    MissingWorkspaceSpecifier,
    Prefetch(Seq<char>),
}

impl View for Error {
    type V = ErrorView;

    open spec fn view(&self) -> ErrorView {
        match self {
            Error::UnexpectedPackageEntryLength(n) => ErrorView::UnexpectedPackageEntryLength(*n),
            Error::NoAtInPackageIdentifier => ErrorView::NoAtInPackageIdentifier,
            Error::MissingGitRef => ErrorView::MissingGitRef,
            Error::ImproperGithubUrl => ErrorView::ImproperGithubUrl,
            Error::MissingFileSpecifier => ErrorView::MissingFileSpecifier,
            Error::MissingWorkspaceSpecifier => ErrorView::MissingWorkspaceSpecifier,
            Error::Prefetch(message) => ErrorView::Prefetch(message@),
        }
    }
}

} // verus!
