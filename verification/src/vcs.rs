//! The plain values that pass between a hook and the repository session
//! that works for it: what to do next, and what came of it.

use vstd::prelude::*;
use crate::error::{HookError, HookErrorView};

verus! {

/// What a status query compares against.
#[derive(Clone, Copy, Debug, PartialEq, Eq, Structural)]
pub enum Scope {
    /// The files on disk, against the index. Untracked files count.
    WorkingTree,
    /// The index, against the current commit.
    Index,
}

/// The changes that one path carries, in the index and in the working tree.
#[derive(Clone, Copy, Debug, PartialEq, Eq, Structural)]
pub struct PathStatus {
    pub index_new: bool,
    pub index_modified: bool,
    pub index_deleted: bool,
    pub index_renamed: bool,
    pub wt_new: bool,
    pub wt_modified: bool,
    pub wt_deleted: bool,
    pub wt_renamed: bool,
}

impl PathStatus {
    /// Whether the path is new, modified, deleted or renamed in `scope`.
    pub open spec fn changed_in(self, scope: Scope) -> bool {
        match scope {
            Scope::WorkingTree => self.wt_new || self.wt_modified || self.wt_deleted
                || self.wt_renamed,
            Scope::Index => self.index_new || self.index_modified || self.index_deleted
                || self.index_renamed,
        }
    }

    /// A path without changes.
    pub fn unchanged() -> (status: PathStatus)
        ensures
            !status.changed_in(Scope::WorkingTree),
            !status.changed_in(Scope::Index),
    {
        PathStatus {
            index_new: false,
            index_modified: false,
            index_deleted: false,
            index_renamed: false,
            wt_new: false,
            wt_modified: false,
            wt_deleted: false,
            wt_renamed: false,
        }
    }

    /// Whether the path is new, modified, deleted or renamed in `scope`.
    pub fn carries_change(&self, scope: Scope) -> (changed: bool)
        ensures
            changed == self.changed_in(scope),
    {
        match scope {
            Scope::WorkingTree => self.wt_new || self.wt_modified || self.wt_deleted
                || self.wt_renamed,
            Scope::Index => self.index_new || self.index_modified || self.index_deleted
                || self.index_renamed,
        }
    }
}

/// A scope is dirty when at least one path carries a change in it.
pub open spec fn dirty(statuses: Seq<PathStatus>, scope: Scope) -> bool {
    exists|i: int| 0 <= i < statuses.len() && (#[trigger] statuses[i]).changed_in(scope)
}

/// Whether any of the paths carries a change in `scope`.
pub fn check_dirty(statuses: &Vec<PathStatus>, scope: Scope) -> (is_dirty: bool)
    ensures
        is_dirty == dirty(statuses@, scope),
{
    let mut i: usize = 0;
    while i < statuses.len()
        invariant
            i <= statuses.len(),
            forall|j: int| 0 <= j < i ==> !(#[trigger] statuses@[j]).changed_in(scope),
        decreases statuses.len() - i,
    {
        if statuses[i].carries_change(scope) {
            return true;
        }
        i += 1;
    }
    false
}

/// Which of the two scopes are dirty.
#[derive(Clone, Copy, Debug, PartialEq, Eq, Structural)]
pub struct DirtyReport {
    pub working_tree: bool,
    pub index: bool,
}

impl DirtyReport {
    /// The report on a list of paths.
    pub fn of(statuses: &Vec<PathStatus>) -> (report: DirtyReport)
        ensures
            report.working_tree == dirty(statuses@, Scope::WorkingTree),
            report.index == dirty(statuses@, Scope::Index),
    {
        DirtyReport {
            working_tree: check_dirty(statuses, Scope::WorkingTree),
            index: check_dirty(statuses, Scope::Index),
        }
    }

    /// Whether `scope` is dirty.
    pub fn is_dirty(&self, scope: Scope) -> (d: bool)
        ensures
            d == match scope {
                Scope::WorkingTree => self.working_tree,
                Scope::Index => self.index,
            },
    {
        match scope {
            Scope::WorkingTree => self.working_tree,
            Scope::Index => self.index,
        }
    }
}

/// The identifier of an object of the repository: the bytes of its hash.
#[derive(Debug, PartialEq, Eq)]
pub struct ObjectId {
    pub bytes: Vec<u8>,
}

impl View for ObjectId {
    type V = Seq<u8>;

    open spec fn view(&self) -> Seq<u8> {
        self.bytes@
    }
}

impl Clone for ObjectId {
    fn clone(&self) -> (copy: ObjectId)
        ensures
            copy@ == self@,
    {
        let copy = ObjectId { bytes: self.bytes.clone() };
        assert(copy@ =~= self@);
        copy
    }
}

/// Who makes a commit, and when.
#[derive(Debug, PartialEq, Eq)]
pub struct Signature {
    pub name: String,
    pub email: String,
    /// Seconds since the epoch.
    pub seconds: i64,
    /// Offset of the time zone, in minutes.
    pub offset_minutes: i32,
}

/// The mathematical value of a [`Signature`].
pub struct SignatureView {
    pub name: Seq<char>,
    pub email: Seq<char>,
    pub seconds: i64,
    pub offset_minutes: i32,
}

impl View for Signature {
    type V = SignatureView;

    open spec fn view(&self) -> SignatureView {
        SignatureView {
            name: self.name@,
            email: self.email@,
            seconds: self.seconds,
            offset_minutes: self.offset_minutes,
        }
    }
}

impl Clone for Signature {
    fn clone(&self) -> (copy: Signature)
        ensures
            copy@ == self@,
    {
        Signature {
            name: self.name.clone(),
            email: self.email.clone(),
            seconds: self.seconds,
            offset_minutes: self.offset_minutes,
        }
    }
}

/// All that a commit is made of. Written once, never changed.
#[derive(Debug, PartialEq, Eq)]
pub struct CommitRecord {
    pub author: Signature,
    pub committer: Signature,
    pub message: String,
    pub tree: ObjectId,
    pub parents: Vec<ObjectId>,
}

/// The mathematical value of a [`CommitRecord`].
pub struct CommitRecordView {
    pub author: SignatureView,
    pub committer: SignatureView,
    pub message: Seq<char>,
    pub tree: Seq<u8>,
    pub parents: Seq<Seq<u8>>,
}

impl View for CommitRecord {
    type V = CommitRecordView;

    open spec fn view(&self) -> CommitRecordView {
        CommitRecordView {
            author: self.author@,
            committer: self.committer@,
            message: self.message@,
            tree: self.tree@,
            parents: self.parents@.map_values(|p: ObjectId| p@),
        }
    }
}

/// The record of the commit that a hook makes: one parent, the current
/// commit; the tree written from the index; one signature for author and
/// committer.
pub open spec fn hook_commit(
    signature: SignatureView,
    head: Seq<u8>,
    tree: Seq<u8>,
    message: Seq<char>,
) -> CommitRecordView {
    CommitRecordView {
        author: signature,
        committer: signature,
        message,
        tree,
        parents: seq![head],
    }
}

impl CommitRecord {
    /// The record of the commit that a hook makes.
    pub fn of_hook(signature: Signature, head: ObjectId, tree: ObjectId, message: String) -> (record:
        CommitRecord)
        ensures
            record@ == hook_commit(signature@, head@, tree@, message@),
    {
        let committer = signature.clone();
        let mut parents: Vec<ObjectId> = Vec::new();
        parents.push(head);
        let record = CommitRecord { author: signature, committer, message, tree, parents };
        assert(record@.parents =~= seq![head@]);
        record
    }
}

/// How a run of a hook ended well.
#[derive(Debug, PartialEq, Eq)]
pub enum Completion {
    /// Nothing was committed.
    NoOp,
    /// One commit was made; this is its identifier.
    Committed(ObjectId),
}

/// The mathematical value of a [`Completion`].
pub enum CompletionView {
    NoOp,
    Committed(Seq<u8>),
}

impl View for Completion {
    type V = CompletionView;

    open spec fn view(&self) -> CompletionView {
        match self {
            Completion::NoOp => CompletionView::NoOp,
            Completion::Committed(id) => CompletionView::Committed(id@),
        }
    }
}

/// How a run of a hook ended.
#[derive(Debug, PartialEq, Eq)]
pub enum Outcome {
    Success(Completion),
    Failure(HookError),
}

/// The mathematical value of an [`Outcome`].
pub enum OutcomeView {
    Success(CompletionView),
    Failure(HookErrorView),
}

impl View for Outcome {
    type V = OutcomeView;

    open spec fn view(&self) -> OutcomeView {
        match self {
            Outcome::Success(c) => OutcomeView::Success(c@),
            Outcome::Failure(e) => OutcomeView::Failure(e@),
        }
    }
}

impl Clone for Outcome {
    fn clone(&self) -> (copy: Outcome)
        ensures
            copy@ == self@,
    {
        match self {
            Outcome::Success(Completion::NoOp) => Outcome::Success(Completion::NoOp),
            Outcome::Success(Completion::Committed(id)) => Outcome::Success(
                Completion::Committed(id.clone()),
            ),
            Outcome::Failure(e) => Outcome::Failure(
                HookError {
                    kind: e.kind,
                    cause: match &e.cause {
                        Some(c) => Some(c.clone()),
                        None => None,
                    },
                },
            ),
        }
    }
}

impl Outcome {
    /// What the pipeline sees: success, or the classified failure.
    pub fn into_result(self) -> (result: Result<(), HookError>)
        ensures
            match self {
                Outcome::Success(_) => result is Ok,
                Outcome::Failure(e) => result == Err::<(), HookError>(e),
            },
    {
        match self {
            Outcome::Success(_) => Ok(()),
            Outcome::Failure(e) => Err(e),
        }
    }
}

/// What the session reports back after an [`Action`].
#[derive(Debug, PartialEq, Eq)]
pub enum Event {
    /// Whether a repository is there.
    Repository { present: bool },
    /// The branch that is checked out; none while HEAD is detached.
    Branch { name: Option<String> },
    /// The operation succeeded and has nothing to hand back.
    Done,
    /// The paths of a status query.
    Statuses(Vec<PathStatus>),
    /// The signature that the repository is configured with.
    SignatureFetched(Signature),
    /// Where HEAD points; nowhere while the history is empty.
    HeadResolved { target: Option<ObjectId> },
    /// The tree that the index was written to.
    TreeWritten(ObjectId),
    /// The commit that was made.
    Committed(ObjectId),
    /// The operation failed.
    Failed { cause: Option<String> },
}

/// The mathematical value of an [`Event`].
pub enum EventView {
    Repository { present: bool },
    Branch { name: Option<Seq<char>> },
    Done,
    Statuses(Seq<PathStatus>),
    SignatureFetched(SignatureView),
    HeadResolved { target: Option<Seq<u8>> },
    TreeWritten(Seq<u8>),
    Committed(Seq<u8>),
    Failed { cause: Option<Seq<char>> },
}

impl View for Event {
    type V = EventView;

    open spec fn view(&self) -> EventView {
        match self {
            Event::Repository { present } => EventView::Repository { present: *present },
            Event::Branch { name } => EventView::Branch {
                name: match name {
                    Some(n) => Some(n@),
                    None => None,
                },
            },
            Event::Done => EventView::Done,
            Event::Statuses(s) => EventView::Statuses(s@),
            Event::SignatureFetched(s) => EventView::SignatureFetched(s@),
            Event::HeadResolved { target } => EventView::HeadResolved {
                target: match target {
                    Some(id) => Some(id@),
                    None => None,
                },
            },
            Event::TreeWritten(id) => EventView::TreeWritten(id@),
            Event::Committed(id) => EventView::Committed(id@),
            Event::Failed { cause } => EventView::Failed {
                cause: match cause {
                    Some(c) => Some(c@),
                    None => None,
                },
            },
        }
    }
}

impl Clone for Event {
    fn clone(&self) -> (copy: Event)
        ensures
            copy@ == self@,
    {
        match self {
            Event::Repository { present } => Event::Repository { present: *present },
            Event::Branch { name } => Event::Branch {
                name: match name {
                    Some(n) => Some(n.clone()),
                    None => None,
                },
            },
            Event::Done => Event::Done,
            Event::Statuses(statuses) => {
                let copy = statuses.clone();
                assert(copy@ =~= statuses@);
                Event::Statuses(copy)
            },
            Event::SignatureFetched(signature) => Event::SignatureFetched(signature.clone()),
            Event::HeadResolved { target } => Event::HeadResolved {
                target: match target {
                    Some(id) => Some(id.clone()),
                    None => None,
                },
            },
            Event::TreeWritten(id) => Event::TreeWritten(id.clone()),
            Event::Committed(id) => Event::Committed(id.clone()),
            Event::Failed { cause } => Event::Failed {
                cause: match cause {
                    Some(c) => Some(c.clone()),
                    None => None,
                },
            },
        }
    }
}

/// What the hook asks the session to do next.
#[derive(Debug, PartialEq, Eq)]
pub enum Action {
    /// Say whether a repository is there.
    ProbeRepository,
    /// Say which branch is checked out.
    ResolveBranch,
    /// Check out this branch, which is there already.
    Checkout { branch: String },
    /// Load the index.
    FetchIndex,
    /// List the paths that carry changes in the scope.
    QueryStatus(Scope),
    /// Stage every changed path.
    StageAll,
    /// Fetch the signature that the repository is configured with.
    FetchSignature,
    /// Resolve HEAD.
    ResolveHead,
    /// Write the index to a tree.
    WriteTree,
    /// Look up the commit with this identifier.
    FindCommit(ObjectId),
    /// Look up the tree with this identifier.
    FindTree(ObjectId),
    /// Make this commit and move HEAD to it.
    Commit(CommitRecord),
    /// Write the index to disk.
    WriteIndex,
    /// Nothing more: the run has ended.
    Finish(Outcome),
}

/// The mathematical value of an [`Action`].
pub enum ActionView {
    ProbeRepository,
    ResolveBranch,
    Checkout { branch: Seq<char> },
    FetchIndex,
    QueryStatus(Scope),
    StageAll,
    FetchSignature,
    ResolveHead,
    WriteTree,
    FindCommit(Seq<u8>),
    FindTree(Seq<u8>),
    Commit(CommitRecordView),
    WriteIndex,
    Finish(OutcomeView),
}

impl View for Action {
    type V = ActionView;

    open spec fn view(&self) -> ActionView {
        match self {
            Action::ProbeRepository => ActionView::ProbeRepository,
            Action::ResolveBranch => ActionView::ResolveBranch,
            Action::Checkout { branch } => ActionView::Checkout { branch: branch@ },
            Action::FetchIndex => ActionView::FetchIndex,
            Action::QueryStatus(scope) => ActionView::QueryStatus(*scope),
            Action::StageAll => ActionView::StageAll,
            Action::FetchSignature => ActionView::FetchSignature,
            Action::ResolveHead => ActionView::ResolveHead,
            Action::WriteTree => ActionView::WriteTree,
            Action::FindCommit(id) => ActionView::FindCommit(id@),
            Action::FindTree(id) => ActionView::FindTree(id@),
            Action::Commit(record) => ActionView::Commit(record@),
            Action::WriteIndex => ActionView::WriteIndex,
            Action::Finish(outcome) => ActionView::Finish(outcome@),
        }
    }
}

} // verus!
