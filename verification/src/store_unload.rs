//! The hook that runs when a store session is released. It looks at the
//! working tree and at the index of the repository behind the store, decides
//! whether a commit is due, and leads the session through it step by step.
//!
//! The hook itself touches nothing. [`StoreUnloadHook::access`] opens a
//! [`Transaction`] and names the first [`Action`]; the session performs it
//! and hands the [`Event`] to [`Transaction::step`], which names the next,
//! until the action is `Finish`. What the steps are is defined once, by
//! [`begin`] and [`transition`], over mathematical values.

use vstd::prelude::*;
use crate::config::{
    abort_on_repo_init_err, abort_on_repo_init_failure_in, add_wt_changes_before_committing,
    add_wt_changes_in, bool_warnings, commit_message, committing_enabled_in,
    committing_is_enabled, config_entries, do_checkout_ensure_branch, enabled_in, ensure_branch,
    ensure_branch_in, is_enabled, text_warnings, try_checkout_in, EntryView,
};
use crate::diagnostics::{Diagnostic, DiagnosticView, Diagnostics};
use crate::error::{HookError, HookErrorKind, HookErrorView, RepositoryErrorKind};
use crate::hook::{Capability, Hook, StoreAction, StoreId};
use crate::vcs::{
    check_dirty, dirty, hook_commit, Action, ActionView, CommitRecord, Completion,
    CompletionView, Event, EventView, ObjectId, Outcome, OutcomeView, PathStatus, Scope,
    Signature, SignatureView,
};

verus! {

/// Where a run stands: the operation whose result it waits for, with what
/// was gathered so far.
pub enum Phase {
    AwaitRepository,
    AwaitBranchName { wanted: String },
    AwaitCheckout,
    AwaitIndex,
    AwaitWorkingTreeStatus,
    AwaitStaging,
    AwaitIndexStatus,
    AwaitSignature,
    AwaitHead { signature: Signature },
    AwaitTreeWrite { signature: Signature, head: ObjectId },
    AwaitParent { signature: Signature, head: ObjectId, tree: ObjectId },
    AwaitTree { signature: Signature, head: ObjectId, tree: ObjectId },
    AwaitCommit,
    AwaitIndexWrite { commit: ObjectId },
    Done(Outcome),
}

/// The mathematical value of a [`Phase`].
pub enum PhaseView {
    AwaitRepository,
    AwaitBranchName { wanted: Seq<char> },
    AwaitCheckout,
    AwaitIndex,
    AwaitWorkingTreeStatus,
    AwaitStaging,
    AwaitIndexStatus,
    AwaitSignature,
    AwaitHead { signature: SignatureView },
    AwaitTreeWrite { signature: SignatureView, head: Seq<u8> },
    AwaitParent { signature: SignatureView, head: Seq<u8>, tree: Seq<u8> },
    AwaitTree { signature: SignatureView, head: Seq<u8>, tree: Seq<u8> },
    AwaitCommit,
    AwaitIndexWrite { commit: Seq<u8> },
    Done(OutcomeView),
}

impl View for Phase {
    type V = PhaseView;

    open spec fn view(&self) -> PhaseView {
        match self {
            Phase::AwaitRepository => PhaseView::AwaitRepository,
            Phase::AwaitBranchName { wanted } => PhaseView::AwaitBranchName { wanted: wanted@ },
            Phase::AwaitCheckout => PhaseView::AwaitCheckout,
            Phase::AwaitIndex => PhaseView::AwaitIndex,
            Phase::AwaitWorkingTreeStatus => PhaseView::AwaitWorkingTreeStatus,
            Phase::AwaitStaging => PhaseView::AwaitStaging,
            Phase::AwaitIndexStatus => PhaseView::AwaitIndexStatus,
            Phase::AwaitSignature => PhaseView::AwaitSignature,
            Phase::AwaitHead { signature } => PhaseView::AwaitHead { signature: signature@ },
            Phase::AwaitTreeWrite { signature, head } => PhaseView::AwaitTreeWrite {
                signature: signature@,
                head: head@,
            },
            Phase::AwaitParent { signature, head, tree } => PhaseView::AwaitParent {
                signature: signature@,
                head: head@,
                tree: tree@,
            },
            Phase::AwaitTree { signature, head, tree } => PhaseView::AwaitTree {
                signature: signature@,
                head: head@,
                tree: tree@,
            },
            Phase::AwaitCommit => PhaseView::AwaitCommit,
            Phase::AwaitIndexWrite { commit } => PhaseView::AwaitIndexWrite { commit: commit@ },
            Phase::Done(outcome) => PhaseView::Done(outcome@),
        }
    }
}

/// One step of a run: where it stands afterwards, what is asked of the
/// session, and the warnings raised on the way.
pub struct StepView {
    pub phase: PhaseView,
    pub action: ActionView,
    pub warnings: Seq<DiagnosticView>,
}

/// The entries of a configuration tree, keyed by dotted path.
pub type Entries = Map<Seq<char>, EntryView>;

/// The step that ends a run.
pub open spec fn finish(outcome: OutcomeView, warnings: Seq<DiagnosticView>) -> StepView {
    StepView { phase: PhaseView::Done(outcome), action: ActionView::Finish(outcome), warnings }
}

/// The step that goes on without a warning.
pub open spec fn proceed(phase: PhaseView, action: ActionView) -> StepView {
    StepView { phase, action, warnings: Seq::empty() }
}

/// What the session said of a failure, if it reported one.
pub open spec fn cause_of(event: EventView) -> Option<Seq<char>> {
    match event {
        EventView::Failed { cause } => cause,
        _ => None,
    }
}

/// The step that ends a run because a repository operation did not give
/// what was asked of it.
pub open spec fn fail(kind: RepositoryErrorKind, event: EventView) -> StepView {
    finish(
        OutcomeView::Failure(
            HookErrorView { kind: HookErrorKind::RepositoryError(kind), cause: cause_of(event) },
        ),
        Seq::empty(),
    )
}

/// The run that does nothing and succeeds.
pub open spec fn no_op() -> OutcomeView {
    OutcomeView::Success(CompletionView::NoOp)
}

/// The first step. A hook that is not enabled ends at once and asks nothing
/// of the session.
pub open spec fn begin(entries: Entries) -> StepView {
    let warnings = bool_warnings(entries, "enabled"@);
    if enabled_in(entries) {
        StepView { phase: PhaseView::AwaitRepository, action: ActionView::ProbeRepository, warnings }
    } else {
        finish(no_op(), warnings)
    }
}

/// No repository: a failure or nothing at all, as the policy says.
pub open spec fn on_repository_absent(entries: Entries, event: EventView) -> StepView {
    let warnings = bool_warnings(entries, "abort_on_repo_init_failure"@);
    if abort_on_repo_init_failure_in(entries) {
        finish(
            OutcomeView::Failure(
                HookErrorView { kind: HookErrorKind::RepositoryInitError, cause: cause_of(event) },
            ),
            warnings,
        )
    } else {
        finish(no_op(), warnings)
    }
}

/// A repository is there: if a branch is configured, ask which one is
/// checked out; if none is, go on to the index.
pub open spec fn on_repository_present(entries: Entries) -> StepView {
    let warnings = text_warnings(entries, "ensure_branch"@);
    match ensure_branch_in(entries) {
        Err(e) => finish(OutcomeView::Failure(e), warnings),
        Ok(None) => StepView {
            phase: PhaseView::AwaitIndex,
            action: ActionView::FetchIndex,
            warnings,
        },
        Ok(Some(wanted)) => StepView {
            phase: PhaseView::AwaitBranchName { wanted },
            action: ActionView::ResolveBranch,
            warnings,
        },
    }
}

/// The branch that is checked out is known. If it is the configured one, go
/// on to the index. If not, check the configured one out where the policy
/// allows, and fail with `WrongBranch` where it does not.
pub open spec fn on_branch_name(entries: Entries, wanted: Seq<char>, current: Option<Seq<char>>) -> StepView {
    if current == Some(wanted) {
        proceed(PhaseView::AwaitIndex, ActionView::FetchIndex)
    } else {
        let warnings = bool_warnings(entries, "try_checkout_ensure_branch"@);
        if try_checkout_in(entries) {
            StepView {
                phase: PhaseView::AwaitCheckout,
                action: ActionView::Checkout { branch: wanted },
                warnings,
            }
        } else {
            finish(
                OutcomeView::Failure(
                    HookErrorView {
                        kind: HookErrorKind::RepositoryError(RepositoryErrorKind::WrongBranch),
                        cause: None,
                    },
                ),
                warnings,
            )
        }
    }
}

/// The working tree was looked at: stage its changes if there are any and
/// the policy allows, and go on to the index either way.
pub open spec fn on_working_tree_status(entries: Entries, statuses: Seq<PathStatus>) -> StepView {
    if dirty(statuses, Scope::WorkingTree) {
        let warnings = bool_warnings(entries, "add_wt_changes_before_committing"@);
        if add_wt_changes_in(entries) {
            StepView { phase: PhaseView::AwaitStaging, action: ActionView::StageAll, warnings }
        } else {
            StepView {
                phase: PhaseView::AwaitIndexStatus,
                action: ActionView::QueryStatus(Scope::Index),
                warnings: warnings.push(DiagnosticView::WorkingTreeDirtyNotStaged),
            }
        }
    } else {
        proceed(PhaseView::AwaitIndexStatus, ActionView::QueryStatus(Scope::Index))
    }
}

/// The index was looked at: with nothing staged the run ends here.
pub open spec fn on_index_status(statuses: Seq<PathStatus>) -> StepView {
    if dirty(statuses, Scope::Index) {
        proceed(PhaseView::AwaitSignature, ActionView::FetchSignature)
    } else {
        finish(no_op(), Seq::empty())
    }
}

/// The tree was written: the run ends here unless committing is enabled.
pub open spec fn on_tree_written(
    entries: Entries,
    signature: SignatureView,
    head: Seq<u8>,
    tree: Seq<u8>,
) -> StepView {
    let warnings = bool_warnings(entries, "committing_is_enabled"@);
    if committing_enabled_in(entries) {
        StepView {
            phase: PhaseView::AwaitParent { signature, head, tree },
            action: ActionView::FindCommit(head),
            warnings,
        }
    } else {
        finish(no_op(), warnings)
    }
}

/// Parent and tree are there: make the commit.
pub open spec fn on_tree_found(signature: SignatureView, head: Seq<u8>, tree: Seq<u8>) -> StepView {
    StepView {
        phase: PhaseView::AwaitCommit,
        action: ActionView::Commit(hook_commit(signature, head, tree, "Dummy commit"@)),
        warnings: seq![DiagnosticView::InteractiveCommitUnsupported],
    }
}

/// The step that follows `event` in `phase`. Each phase waits for one kind
/// of event; any other ends the run with the failure of the operation that
/// was asked for. A run that has ended stays ended.
pub open spec fn transition(entries: Entries, phase: PhaseView, event: EventView) -> StepView {
    match phase {
        PhaseView::AwaitRepository => match event {
            EventView::Repository { present: true } => on_repository_present(entries),
            _ => on_repository_absent(entries, event),
        },
        PhaseView::AwaitBranchName { wanted } => match event {
            EventView::Branch { name } => on_branch_name(entries, wanted, name),
            _ => fail(RepositoryErrorKind::BranchNameFetch, event),
        },
        PhaseView::AwaitCheckout => match event {
            EventView::Done => proceed(PhaseView::AwaitIndex, ActionView::FetchIndex),
            _ => fail(RepositoryErrorKind::BranchCheckout, event),
        },
        PhaseView::AwaitIndex => match event {
            EventView::Done => proceed(
                PhaseView::AwaitWorkingTreeStatus,
                ActionView::QueryStatus(Scope::WorkingTree),
            ),
            _ => fail(RepositoryErrorKind::IndexFetch, event),
        },
        PhaseView::AwaitWorkingTreeStatus => match event {
            EventView::Statuses(statuses) => on_working_tree_status(entries, statuses),
            _ => fail(RepositoryErrorKind::StatusFetch, event),
        },
        PhaseView::AwaitStaging => match event {
            EventView::Done => proceed(
                PhaseView::AwaitIndexStatus,
                ActionView::QueryStatus(Scope::Index),
            ),
            _ => fail(RepositoryErrorKind::PathStaging, event),
        },
        PhaseView::AwaitIndexStatus => match event {
            EventView::Statuses(statuses) => on_index_status(statuses),
            _ => fail(RepositoryErrorKind::StatusFetch, event),
        },
        PhaseView::AwaitSignature => match event {
            EventView::SignatureFetched(signature) => proceed(
                PhaseView::AwaitHead { signature },
                ActionView::ResolveHead,
            ),
            _ => fail(RepositoryErrorKind::SignatureFetch, event),
        },
        PhaseView::AwaitHead { signature } => match event {
            EventView::HeadResolved { target: Some(head) } => proceed(
                PhaseView::AwaitTreeWrite { signature, head },
                ActionView::WriteTree,
            ),
            _ => fail(RepositoryErrorKind::HeadFetch, event),
        },
        PhaseView::AwaitTreeWrite { signature, head } => match event {
            EventView::TreeWritten(tree) => on_tree_written(entries, signature, head, tree),
            _ => fail(RepositoryErrorKind::IndexWriting, event),
        },
        PhaseView::AwaitParent { signature, head, tree } => match event {
            EventView::Done => proceed(
                PhaseView::AwaitTree { signature, head, tree },
                ActionView::FindTree(tree),
            ),
            _ => fail(RepositoryErrorKind::ParentCommitFetch, event),
        },
        PhaseView::AwaitTree { signature, head, tree } => match event {
            EventView::Done => on_tree_found(signature, head, tree),
            _ => fail(RepositoryErrorKind::TreeFetch, event),
        },
        PhaseView::AwaitCommit => match event {
            EventView::Committed(commit) => proceed(
                PhaseView::AwaitIndexWrite { commit },
                ActionView::WriteIndex,
            ),
            _ => fail(RepositoryErrorKind::CommitCreation, event),
        },
        PhaseView::AwaitIndexWrite { commit } => match event {
            EventView::Done => finish(
                OutcomeView::Success(CompletionView::Committed(commit)),
                Seq::empty(),
            ),
            _ => fail(RepositoryErrorKind::IndexWriting, event),
        },
        PhaseView::Done(outcome) => finish(outcome, Seq::empty()),
    }
}

/// The entries of the configuration that a hook or a run holds.
pub open spec fn entries_held(config: Option<toml::Value>) -> Entries {
    match config {
        Some(tree) => config_entries(tree),
        None => Map::empty(),
    }
}

/// One run of the unload hook.
pub struct Transaction {
    config: Option<toml::Value>,
    phase: Phase,
}

/// The mathematical value of a [`Transaction`].
pub struct TransactionView {
    pub entries: Entries,
    pub phase: PhaseView,
}

impl View for Transaction {
    type V = TransactionView;

    closed spec fn view(&self) -> TransactionView {
        TransactionView { entries: entries_held(self.config), phase: self.phase@ }
    }
}

impl Transaction {
    /// A run that has not ended was opened by an enabled hook, and such a
    /// hook has a configuration.
    #[verifier::type_invariant]
    spec fn has_configuration(self) -> bool {
        !(self.phase is Done) ==> self.config is Some
    }

    fn end(config: Option<toml::Value>, outcome: Outcome) -> (next: (Transaction, Action))
        ensures
            next.0@.entries == entries_held(config),
            next.0@.phase == PhaseView::Done(outcome@),
            next.1@ == ActionView::Finish(outcome@),
    {
        let copy = outcome.clone();
        (Transaction { config, phase: Phase::Done(outcome) }, Action::Finish(copy))
    }

    fn end_failed(config: Option<toml::Value>, kind: RepositoryErrorKind, event: Event) -> (next: (
        Transaction,
        Action,
    ))
        ensures
            next.0@.entries == entries_held(config),
            next.0@.phase == fail(kind, event@).phase,
            next.1@ == fail(kind, event@).action,
    {
        let cause = match event {
            Event::Failed { cause } => cause,
            _ => None,
        };
        let error = HookError { kind: HookErrorKind::RepositoryError(kind), cause };
        Transaction::end(config, Outcome::Failure(error))
    }

    fn go_on(config: toml::Value, phase: Phase, action: Action) -> (next: (Transaction, Action))
        requires
            !(phase is Done),
        ensures
            next.0@.entries == config_entries(config),
            next.0@.phase == phase@,
            next.1@ == action@,
    {
        (Transaction { config: Some(config), phase }, action)
    }

    /// Whether the run has ended.
    pub fn is_done(&self) -> (done: bool)
        ensures
            done == (self@.phase is Done),
    {
        match &self.phase {
            Phase::Done(_) => true,
            _ => false,
        }
    }

    /// Takes the result of the action that was asked for last, and names the
    /// next one.
    pub fn step(self, event: Event, log: &mut Diagnostics) -> (next: (Transaction, Action))
        ensures
            next.0@.entries == self@.entries,
            next.0@.phase == transition(self@.entries, self@.phase, event@).phase,
            next.1@ == transition(self@.entries, self@.phase, event@).action,
            final(log)@ == old(log)@ + transition(self@.entries, self@.phase, event@).warnings,
    {
        proof {
            use_type_invariant(&self);
        }
        let ghost entries = self@.entries;
        let Transaction { config, phase } = self;
        let tree = match config {
            Some(tree) => tree,
            None => {
                match phase {
                    Phase::Done(outcome) => {
                        assert(log@ =~= old(log)@ + Seq::<DiagnosticView>::empty());
                        return Transaction::end(None, outcome);
                    },
                    _ => {
                        assert(false);
                        return Transaction::end(None, Outcome::Success(Completion::NoOp));
                    },
                }
            },
        };
        assert(entries == config_entries(tree));
        match phase {
            Phase::AwaitRepository => match event {
                Event::Repository { present: true } => {
                    let branch = ensure_branch(Some(&tree), log);
                    match branch {
                        Err(e) => Transaction::end(Some(tree), Outcome::Failure(e)),
                        Ok(None) => Transaction::go_on(tree, Phase::AwaitIndex, Action::FetchIndex),
                        Ok(Some(wanted)) => Transaction::go_on(
                            tree,
                            Phase::AwaitBranchName { wanted },
                            Action::ResolveBranch,
                        ),
                    }
                },
                _ => {
                    let abort = abort_on_repo_init_err(Some(&tree), log);
                    if abort {
                        let cause = match event {
                            Event::Failed { cause } => cause,
                            _ => None,
                        };
                        let error = HookError { kind: HookErrorKind::RepositoryInitError, cause };
                        Transaction::end(Some(tree), Outcome::Failure(error))
                    } else {
                        Transaction::end(Some(tree), Outcome::Success(Completion::NoOp))
                    }
                },
            },
            Phase::AwaitBranchName { wanted } => match event {
                Event::Branch { name } => {
                    let there = match &name {
                        Some(current) => *current == wanted,
                        None => false,
                    };
                    if there {
                        assert(log@ =~= old(log)@ + Seq::<DiagnosticView>::empty());
                        Transaction::go_on(tree, Phase::AwaitIndex, Action::FetchIndex)
                    } else if do_checkout_ensure_branch(Some(&tree), log) {
                        Transaction::go_on(
                            tree,
                            Phase::AwaitCheckout,
                            Action::Checkout { branch: wanted },
                        )
                    } else {
                        let error = HookError::new(
                            HookErrorKind::RepositoryError(RepositoryErrorKind::WrongBranch),
                        );
                        Transaction::end(Some(tree), Outcome::Failure(error))
                    }
                },
                _ => {
                    assert(log@ =~= old(log)@ + Seq::<DiagnosticView>::empty());
                    Transaction::end_failed(Some(tree), RepositoryErrorKind::BranchNameFetch, event)
                },
            },
            Phase::AwaitCheckout => {
                assert(log@ =~= old(log)@ + Seq::<DiagnosticView>::empty());
                match event {
                    Event::Done => Transaction::go_on(tree, Phase::AwaitIndex, Action::FetchIndex),
                    _ => Transaction::end_failed(
                        Some(tree),
                        RepositoryErrorKind::BranchCheckout,
                        event,
                    ),
                }
            },
            Phase::AwaitIndex => {
                assert(log@ =~= old(log)@ + Seq::<DiagnosticView>::empty());
                match event {
                    Event::Done => Transaction::go_on(
                        tree,
                        Phase::AwaitWorkingTreeStatus,
                        Action::QueryStatus(Scope::WorkingTree),
                    ),
                    _ => Transaction::end_failed(Some(tree), RepositoryErrorKind::IndexFetch, event),
                }
            },
            Phase::AwaitWorkingTreeStatus => match event {
                Event::Statuses(statuses) => {
                    if check_dirty(&statuses, Scope::WorkingTree) {
                        if add_wt_changes_before_committing(Some(&tree), log) {
                            Transaction::go_on(tree, Phase::AwaitStaging, Action::StageAll)
                        } else {
                            log.warn(Diagnostic::WorkingTreeDirtyNotStaged);
                            assert(log@ =~= old(log)@ + bool_warnings(
                                entries,
                                "add_wt_changes_before_committing"@,
                            ).push(DiagnosticView::WorkingTreeDirtyNotStaged));
                            Transaction::go_on(
                                tree,
                                Phase::AwaitIndexStatus,
                                Action::QueryStatus(Scope::Index),
                            )
                        }
                    } else {
                        assert(log@ =~= old(log)@ + Seq::<DiagnosticView>::empty());
                        Transaction::go_on(
                            tree,
                            Phase::AwaitIndexStatus,
                            Action::QueryStatus(Scope::Index),
                        )
                    }
                },
                _ => {
                    assert(log@ =~= old(log)@ + Seq::<DiagnosticView>::empty());
                    Transaction::end_failed(Some(tree), RepositoryErrorKind::StatusFetch, event)
                },
            },
            Phase::AwaitStaging => {
                assert(log@ =~= old(log)@ + Seq::<DiagnosticView>::empty());
                match event {
                    Event::Done => Transaction::go_on(
                        tree,
                        Phase::AwaitIndexStatus,
                        Action::QueryStatus(Scope::Index),
                    ),
                    _ => Transaction::end_failed(Some(tree), RepositoryErrorKind::PathStaging, event),
                }
            },
            Phase::AwaitIndexStatus => {
                assert(log@ =~= old(log)@ + Seq::<DiagnosticView>::empty());
                match event {
                    Event::Statuses(statuses) => {
                        if check_dirty(&statuses, Scope::Index) {
                            Transaction::go_on(tree, Phase::AwaitSignature, Action::FetchSignature)
                        } else {
                            Transaction::end(Some(tree), Outcome::Success(Completion::NoOp))
                        }
                    },
                    _ => Transaction::end_failed(Some(tree), RepositoryErrorKind::StatusFetch, event),
                }
            },
            Phase::AwaitSignature => {
                assert(log@ =~= old(log)@ + Seq::<DiagnosticView>::empty());
                match event {
                    Event::SignatureFetched(signature) => Transaction::go_on(
                        tree,
                        Phase::AwaitHead { signature },
                        Action::ResolveHead,
                    ),
                    _ => Transaction::end_failed(
                        Some(tree),
                        RepositoryErrorKind::SignatureFetch,
                        event,
                    ),
                }
            },
            Phase::AwaitHead { signature } => {
                assert(log@ =~= old(log)@ + Seq::<DiagnosticView>::empty());
                match event {
                    Event::HeadResolved { target: Some(head) } => Transaction::go_on(
                        tree,
                        Phase::AwaitTreeWrite { signature, head },
                        Action::WriteTree,
                    ),
                    _ => Transaction::end_failed(Some(tree), RepositoryErrorKind::HeadFetch, event),
                }
            },
            Phase::AwaitTreeWrite { signature, head } => match event {
                Event::TreeWritten(written) => {
                    if committing_is_enabled(Some(&tree), log) {
                        let parent = head.clone();
                        Transaction::go_on(
                            tree,
                            Phase::AwaitParent { signature, head, tree: written },
                            Action::FindCommit(parent),
                        )
                    } else {
                        Transaction::end(Some(tree), Outcome::Success(Completion::NoOp))
                    }
                },
                _ => {
                    assert(log@ =~= old(log)@ + Seq::<DiagnosticView>::empty());
                    Transaction::end_failed(Some(tree), RepositoryErrorKind::IndexWriting, event)
                },
            },
            Phase::AwaitParent { signature, head, tree: written } => {
                assert(log@ =~= old(log)@ + Seq::<DiagnosticView>::empty());
                match event {
                    Event::Done => {
                        let wanted = written.clone();
                        Transaction::go_on(
                            tree,
                            Phase::AwaitTree { signature, head, tree: written },
                            Action::FindTree(wanted),
                        )
                    },
                    _ => Transaction::end_failed(
                        Some(tree),
                        RepositoryErrorKind::ParentCommitFetch,
                        event,
                    ),
                }
            },
            Phase::AwaitTree { signature, head, tree: written } => match event {
                Event::Done => {
                    let message = commit_message(&tree, StoreAction::StoreUnload, log);
                    assert(log@ =~= old(log)@ + seq![DiagnosticView::InteractiveCommitUnsupported]);
                    let record = CommitRecord::of_hook(signature, head, written, message);
                    Transaction::go_on(tree, Phase::AwaitCommit, Action::Commit(record))
                },
                _ => {
                    assert(log@ =~= old(log)@ + Seq::<DiagnosticView>::empty());
                    Transaction::end_failed(Some(tree), RepositoryErrorKind::TreeFetch, event)
                },
            },
            Phase::AwaitCommit => {
                assert(log@ =~= old(log)@ + Seq::<DiagnosticView>::empty());
                match event {
                    Event::Committed(commit) => Transaction::go_on(
                        tree,
                        Phase::AwaitIndexWrite { commit },
                        Action::WriteIndex,
                    ),
                    _ => Transaction::end_failed(
                        Some(tree),
                        RepositoryErrorKind::CommitCreation,
                        event,
                    ),
                }
            },
            Phase::AwaitIndexWrite { commit } => {
                assert(log@ =~= old(log)@ + Seq::<DiagnosticView>::empty());
                match event {
                    Event::Done => Transaction::end(
                        Some(tree),
                        Outcome::Success(Completion::Committed(commit)),
                    ),
                    _ => Transaction::end_failed(Some(tree), RepositoryErrorKind::IndexWriting, event),
                }
            },
            Phase::Done(outcome) => {
                assert(log@ =~= old(log)@ + Seq::<DiagnosticView>::empty());
                Transaction::end(Some(tree), outcome)
            },
        }
    }
}

/// The hook for the release of a store session.
pub struct StoreUnloadHook {
    storepath: String,
    config: Option<toml::Value>,
}

/// The mathematical value of a [`StoreUnloadHook`].
pub struct StoreUnloadHookView {
    pub storepath: Seq<char>,
    /// Whether a configuration was given.
    pub configured: bool,
    /// The entries of the configuration given last; none before the first.
    pub entries: Entries,
}

impl View for StoreUnloadHook {
    type V = StoreUnloadHookView;

    closed spec fn view(&self) -> StoreUnloadHookView {
        StoreUnloadHookView {
            storepath: self.storepath@,
            configured: self.config is Some,
            entries: entries_held(self.config),
        }
    }
}

/// A string written out by the `Debug` of `str`: in double quotes, with the
/// characters escaped that need it.
pub uninterp spec fn debug_text(s: Seq<char>) -> Seq<char>;

/// Formats a string with `{:?}`, that is through `<str as Debug>::fmt`.
/// Trusted: the result is [`debug_text`] of the string.
#[verifier::external_body]
fn quoted(s: &str) -> (text: String)
    ensures
        text@ == debug_text(s@),
{
    format!("{:?}", s)
}

/// The line that [`StoreUnloadHook::describe`] writes.
pub open spec fn description_of_hook(hook: StoreUnloadHookView, has_repository: bool) -> Seq<char> {
    "StoreUnloadHook(storepath="@ + debug_text(hook.storepath) + ", repository="@ + (
    if has_repository {
        "Some(_)"@
    } else {
        "None"@
    }) + ", cfg="@ + (if hook.configured {
        "true"@
    } else {
        "false"@
    }) + ")"@
}

impl StoreUnloadHook {
    /// A hook for the store at `storepath`, without a configuration yet.
    pub fn new(storepath: String) -> (hook: StoreUnloadHook)
        ensures
            hook@ == (StoreUnloadHookView {
                storepath: storepath@,
                configured: false,
                entries: Map::empty(),
            }),
    {
        StoreUnloadHook { storepath, config: None }
    }

    /// The directory of the store, where the repository is looked for.
    pub fn storepath(&self) -> (path: &str)
        ensures
            path@ == self@.storepath,
    {
        self.storepath.as_str()
    }

    /// Whether a configuration was given.
    pub fn has_config(&self) -> (configured: bool)
        ensures
            configured == self@.configured,
    {
        self.config.is_some()
    }

    /// The hook in one line, for logs: the path of the store as a
    /// quoted string, whether a repository is open, and whether a
    /// configuration was given.
    pub fn describe(&self, has_repository: bool) -> (text: String)
        ensures
            text@ == description_of_hook(self@, has_repository),
    {
        let text = String::from_str("StoreUnloadHook(storepath=");
        let text = text.concat(quoted(self.storepath.as_str()).as_str());
        let text = text.concat(", repository=");
        let text = text.concat(
            if has_repository {
                "Some(_)"
            } else {
                "None"
            },
        );
        let text = text.concat(", cfg=");
        let text = text.concat(
            if self.config.is_some() {
                "true"
            } else {
                "false"
            },
        );
        text.concat(")")
    }

    /// Opens a run for the entry `id` and names its first action: `Finish`
    /// at once where the hook is not enabled, `ProbeRepository` otherwise.
    pub fn access(&self, id: &StoreId, log: &mut Diagnostics) -> (first: (Transaction, Action))
        ensures
            first.0@.entries == self@.entries,
            first.0@.phase == begin(self@.entries).phase,
            first.1@ == begin(self@.entries).action,
            final(log)@ == old(log)@ + begin(self@.entries).warnings,
    {
        match &self.config {
            Some(tree) => {
                if is_enabled(Some(tree), log) {
                    Transaction::go_on(tree.clone(), Phase::AwaitRepository, Action::ProbeRepository)
                } else {
                    Transaction::end(Some(tree.clone()), Outcome::Success(Completion::NoOp))
                }
            },
            None => {
                is_enabled(None, log);
                Transaction::end(None, Outcome::Success(Completion::NoOp))
            },
        }
    }
}

impl Hook for StoreUnloadHook {
    /// The name under which the hook is registered and configured.
    fn name(&self) -> (name: &'static str)
        ensures
            name@ == "stdhook_git_storeunload"@,
    {
        "stdhook_git_storeunload"
    }

    /// Replaces the configuration. Nothing is read from it before the hook
    /// runs, so this cannot fail.
    fn set_config(&mut self, config: &toml::Value)
        ensures
            final(self)@ == (StoreUnloadHookView {
                storepath: old(self)@.storepath,
                configured: true,
                entries: config_entries(*config),
            }),
    {
        self.config = Some(config.clone());
    }

    /// The hook needs the identifier of the entry and nothing else.
    fn accessor(&self) -> (capability: Capability)
        ensures
            capability == Capability::IdentifierOnly,
    {
        Capability::IdentifierOnly
    }
}

} // verus!
