//! The errors a hook reports: an enumerated kind, a description for people,
//! and the cause reported by the collaborator that failed, where there is one.

use vstd::prelude::*;

verus! {

/// Which repository operation failed.
#[derive(Clone, Copy, Debug, PartialEq, Eq, Structural)]
pub enum RepositoryErrorKind {
    /// The branch that is checked out could not be told.
    BranchNameFetch,
    /// Another branch than the configured one is checked out, and checking
    /// out is not allowed.
    WrongBranch,
    /// Checking out the configured branch failed.
    BranchCheckout,
    IndexFetch,
    StatusFetch,
    PathStaging,
    IndexWriting,
    SignatureFetch,
    HeadFetch,
    ParentCommitFetch,
    TreeFetch,
    CommitCreation,
}

/// The classes of failure of a hook.
#[derive(Clone, Copy, Debug, PartialEq, Eq, Structural)]
pub enum HookErrorKind {
    /// A configuration value is present but of the wrong type, at a place
    /// that has no fallback.
    ConfigTypeError,
    /// A repository is required, none is there, and the policy says abort.
    RepositoryInitError,
    /// An operation on the repository failed.
    RepositoryError(RepositoryErrorKind),
}

/// A classified failure, with the collaborator's own words if it gave any.
#[derive(Debug, PartialEq, Eq)]
pub struct HookError {
    pub kind: HookErrorKind,
    pub cause: Option<String>,
}

/// The mathematical value of a [`HookError`].
pub struct HookErrorView {
    pub kind: HookErrorKind,
    pub cause: Option<Seq<char>>,
}

impl View for HookError {
    type V = HookErrorView;

    open spec fn view(&self) -> HookErrorView {
        HookErrorView {
            kind: self.kind,
            cause: match self.cause {
                Some(c) => Some(c@),
                None => None,
            },
        }
    }
}

/// What a hook hands back to the pipeline.
pub type HookResult = Result<(), HookError>;

/// The description of each repository failure.
pub open spec fn repository_description(kind: RepositoryErrorKind) -> Seq<char> {
    match kind {
        RepositoryErrorKind::BranchNameFetch => "Error while fetching branch name"@,
        RepositoryErrorKind::WrongBranch => "Error because repository is on wrong branch"@,
        RepositoryErrorKind::BranchCheckout => "Error while interacting with git branch(es)"@,
        RepositoryErrorKind::IndexFetch => "Error while fetching Repository Index"@,
        RepositoryErrorKind::StatusFetch => "Error while getting file status"@,
        RepositoryErrorKind::PathStaging => "Error while adding Path to Index"@,
        RepositoryErrorKind::IndexWriting => "Error while writing Repository Index"@,
        RepositoryErrorKind::SignatureFetch => "Error while building Signature object"@,
        RepositoryErrorKind::HeadFetch => "Error while getting HEAD"@,
        RepositoryErrorKind::ParentCommitFetch => "Error while fetching parent of commit"@,
        RepositoryErrorKind::TreeFetch => "Error while fetching tree of index"@,
        RepositoryErrorKind::CommitCreation => "Error while committing"@,
    }
}

/// The description of each class of failure.
pub open spec fn description_of(kind: HookErrorKind) -> Seq<char> {
    match kind {
        HookErrorKind::ConfigTypeError => "Configuration value type wrong"@,
        HookErrorKind::RepositoryInitError => "Error while loading the git repository"@,
        HookErrorKind::RepositoryError(inner) => repository_description(inner),
    }
}

impl RepositoryErrorKind {
    /// A sentence for people.
    pub fn description(&self) -> (text: &'static str)
        ensures
            text@ == repository_description(*self),
    {
        match self {
            RepositoryErrorKind::BranchNameFetch => "Error while fetching branch name",
            RepositoryErrorKind::WrongBranch => "Error because repository is on wrong branch",
            RepositoryErrorKind::BranchCheckout => "Error while interacting with git branch(es)",
            RepositoryErrorKind::IndexFetch => "Error while fetching Repository Index",
            RepositoryErrorKind::StatusFetch => "Error while getting file status",
            RepositoryErrorKind::PathStaging => "Error while adding Path to Index",
            RepositoryErrorKind::IndexWriting => "Error while writing Repository Index",
            RepositoryErrorKind::SignatureFetch => "Error while building Signature object",
            RepositoryErrorKind::HeadFetch => "Error while getting HEAD",
            RepositoryErrorKind::ParentCommitFetch => "Error while fetching parent of commit",
            RepositoryErrorKind::TreeFetch => "Error while fetching tree of index",
            RepositoryErrorKind::CommitCreation => "Error while committing",
        }
    }
}

impl HookErrorKind {
    /// A sentence for people.
    pub fn description(&self) -> (text: &'static str)
        ensures
            text@ == description_of(*self),
    {
        match self {
            HookErrorKind::ConfigTypeError => "Configuration value type wrong",
            HookErrorKind::RepositoryInitError => "Error while loading the git repository",
            HookErrorKind::RepositoryError(inner) => inner.description(),
        }
    }

    /// Whether the failure came from the repository: every kind but a
    /// configuration error.
    pub fn is_repository_failure(&self) -> (b: bool)
        ensures
            b == !(*self is ConfigTypeError),
    {
        match self {
            HookErrorKind::ConfigTypeError => false,
            _ => true,
        }
    }
}

impl HookError {
    /// A failure of the given kind with nothing known of its cause.
    pub fn new(kind: HookErrorKind) -> (e: HookError)
        ensures
            e@ == (HookErrorView { kind, cause: None }),
    {
        HookError { kind, cause: None }
    }

    /// A failure of the given kind, caused by what `cause` describes.
    pub fn with_cause(kind: HookErrorKind, cause: Option<String>) -> (e: HookError)
        ensures
            e.kind == kind,
            e.cause == cause,
    {
        HookError { kind, cause }
    }

    /// The description of the kind, followed by the cause where one is known.
    pub fn to_text(&self) -> (text: String)
        ensures
            text@ == match self@.cause {
                Some(c) => description_of(self@.kind) + ": "@ + c,
                None => description_of(self@.kind),
            },
    {
        let head = String::from_str(self.kind.description());
        match &self.cause {
            Some(c) => head.concat(": ").concat(c.as_str()),
            None => head,
        }
    }
}

} // verus!
