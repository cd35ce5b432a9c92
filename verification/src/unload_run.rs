//! Whole runs of the unload hook. A run is the first step followed by one
//! step for each event that the session reports. Here is what a run is,
//! a way to replay one from recorded events, and what holds of every run,
//! whatever the session reports.

use vstd::prelude::*;
use crate::config::{
    abort_on_repo_init_failure_in, add_wt_changes_in, committing_enabled_in, enabled_in,
};
use crate::diagnostics::{DiagnosticView, Diagnostics};
use crate::error::{HookErrorKind, HookErrorView};
use crate::hook::StoreId;
use crate::store_unload::{begin, no_op, transition, Entries, PhaseView, StoreUnloadHook};
use crate::vcs::{
    dirty, Action, ActionView, CompletionView, Event, EventView, OutcomeView, PathStatus, Scope,
};

verus! {

/// A run so far: where it stands, every action it asked for, and every
/// warning it raised, oldest first.
pub struct RunView {
    pub phase: PhaseView,
    pub actions: Seq<ActionView>,
    pub warnings: Seq<DiagnosticView>,
}

/// The run of a hook with the given configuration to which the session has
/// reported `events`, in this order.
pub open spec fn run(entries: Entries, events: Seq<EventView>) -> RunView
    decreases events.len(),
{
    if events.len() == 0 {
        let first = begin(entries);
        RunView { phase: first.phase, actions: seq![first.action], warnings: first.warnings }
    } else {
        let before = run(entries, events.drop_last());
        let step = transition(entries, before.phase, events.last());
        RunView {
            phase: step.phase,
            actions: before.actions.push(step.action),
            warnings: before.warnings + step.warnings,
        }
    }
}

/// The mathematical values of a list of events.
pub open spec fn event_views(events: Seq<Event>) -> Seq<EventView> {
    events.map_values(|e: Event| e@)
}

/// The mathematical values of a list of actions.
pub open spec fn action_views(actions: Seq<Action>) -> Seq<ActionView> {
    actions.map_values(|a: Action| a@)
}

/// Runs the hook for the entry `id` against a recorded session: one that
/// answers with `events`, in this order. Returns every action that the hook
/// asked for, the first one included.
pub fn replay(hook: &StoreUnloadHook, id: &StoreId, events: &Vec<Event>, log: &mut Diagnostics) -> (actions:
    Vec<Action>)
    ensures
        action_views(actions@) == run(hook@.entries, event_views(events@)).actions,
        final(log)@ == old(log)@ + run(hook@.entries, event_views(events@)).warnings,
{
    let ghost entries = hook@.entries;
    let ghost reported = event_views(events@);
    let (first_state, first) = hook.access(id, log);
    let mut state = first_state;
    let mut actions: Vec<Action> = Vec::new();
    actions.push(first);
    let mut i: usize = 0;
    proof {
        assert(reported.take(0) =~= Seq::<EventView>::empty());
        assert(action_views(actions@) =~= run(entries, reported.take(0)).actions);
    }
    while i < events.len()
        invariant
            i <= events.len(),
            reported == event_views(events@),
            state@.entries == entries,
            state@.phase == run(entries, reported.take(i as int)).phase,
            action_views(actions@) == run(entries, reported.take(i as int)).actions,
            log@ == old(log)@ + run(entries, reported.take(i as int)).warnings,
        decreases events.len() - i,
    {
        let event = events[i].clone();
        let ghost before = actions@;
        let ghost logged = log@;
        proof {
            assert(reported.take(i + 1).drop_last() =~= reported.take(i as int));
            assert(reported.take(i + 1).last() == event@);
        }
        let (next, action) = state.step(event, log);
        state = next;
        actions.push(action);
        proof {
            let earlier = run(entries, reported.take(i as int));
            let step = transition(entries, earlier.phase, event@);
            assert(action_views(actions@) =~= action_views(before).push(action@));
            assert(log@ =~= old(log)@ + (earlier.warnings + step.warnings));
        }
        i += 1;
    }
    proof {
        assert(reported.take(events.len() as int) =~= reported);
    }
    actions
}

/// How many of the actions ask for a commit.
pub open spec fn commit_count(actions: Seq<ActionView>) -> nat
    decreases actions.len(),
{
    if actions.len() == 0 {
        0
    } else {
        commit_count(actions.drop_last()) + if actions.last() is Commit {
            1nat
        } else {
            0nat
        }
    }
}

/// Whether the session reported a repository, in answer to the probe.
pub open spec fn repository_present(events: Seq<EventView>) -> bool {
    events.len() > 0 && events[0] == (EventView::Repository { present: true })
}

/// What the check of the index found, once the session has answered it:
/// whether the index was dirty.
pub open spec fn index_check(entries: Entries, events: Seq<EventView>) -> Option<bool>
    decreases events.len(),
{
    if events.len() == 0 {
        None
    } else {
        let before = run(entries, events.drop_last());
        match (before.phase, events.last()) {
            (PhaseView::AwaitIndexStatus, EventView::Statuses(statuses)) => Some(
                dirty(statuses, Scope::Index),
            ),
            _ => index_check(entries, events.drop_last()),
        }
    }
}

/// Everything that a commit needs: the hook is enabled, a repository is
/// there, the index was found dirty, and committing is enabled.
pub open spec fn commit_is_due(entries: Entries, events: Seq<EventView>) -> bool {
    &&& enabled_in(entries)
    &&& repository_present(events)
    &&& index_check(entries, events) == Some(true)
    &&& committing_enabled_in(entries)
}

spec fn run_invariant(entries: Entries, events: Seq<EventView>) -> bool {
    let r = run(entries, events);
    let checked = index_check(entries, events);
    let commits = commit_count(r.actions);
    let present = repository_present(events);
    &&& r.actions.len() == events.len() + 1
    &&& match r.phase {
        PhaseView::AwaitRepository => enabled_in(entries) && events.len() == 0 && commits == 0
            && checked is None,
        PhaseView::AwaitBranchName { .. }
        | PhaseView::AwaitCheckout
        | PhaseView::AwaitIndex
        | PhaseView::AwaitWorkingTreeStatus
        | PhaseView::AwaitStaging
        | PhaseView::AwaitIndexStatus => enabled_in(entries) && present && commits == 0
            && checked is None,
        PhaseView::AwaitSignature
        | PhaseView::AwaitHead { .. }
        | PhaseView::AwaitTreeWrite { .. } => enabled_in(entries) && present && commits == 0
            && checked == Some(true),
        PhaseView::AwaitParent { .. } | PhaseView::AwaitTree { .. } => commit_is_due(
            entries,
            events,
        ) && commits == 0,
        PhaseView::AwaitCommit | PhaseView::AwaitIndexWrite { .. } => commit_is_due(
            entries,
            events,
        ) && commits == 1,
        PhaseView::Done(outcome) => {
            &&& r.actions.last() == ActionView::Finish(outcome)
            &&& commits <= 1
            &&& commits == 1 ==> commit_is_due(entries, events)
            &&& checked == Some(false) ==> outcome == no_op()
            &&& match outcome {
                OutcomeView::Success(CompletionView::Committed(_)) => commits == 1,
                OutcomeView::Success(CompletionView::NoOp) => commits == 0 && !commit_is_due(
                    entries,
                    events,
                ),
                OutcomeView::Failure(_) => true,
            }
        },
    }
}

proof fn lemma_commit_count_push(actions: Seq<ActionView>, action: ActionView)
    ensures
        commit_count(actions.push(action)) == commit_count(actions) + if action is Commit {
            1nat
        } else {
            0nat
        },
{
    assert(actions.push(action).drop_last() =~= actions);
}

proof fn lemma_run_invariant(entries: Entries, events: Seq<EventView>)
    ensures
        run_invariant(entries, events),
    decreases events.len(),
{
    if events.len() == 0 {
        let first = begin(entries);
        lemma_commit_count_push(Seq::empty(), first.action);
        assert(seq![first.action] =~= Seq::<ActionView>::empty().push(first.action));
    } else {
        let earlier = events.drop_last();
        lemma_run_invariant(entries, earlier);
        let before = run(entries, earlier);
        let step = transition(entries, before.phase, events.last());
        lemma_commit_count_push(before.actions, step.action);
        if earlier.len() > 0 {
            assert(earlier[0] == events[0]);
        }
    }
}

/// A hook that is not enabled asks nothing of the session: every action of
/// its run is `Finish` with a success that did nothing.
pub proof fn law_disabled_hook_asks_nothing(entries: Entries, events: Seq<EventView>)
    requires
        !enabled_in(entries),
    ensures
        run(entries, events).phase == PhaseView::Done(no_op()),
        forall|i: int|
            0 <= i < run(entries, events).actions.len() ==> #[trigger] run(
                entries,
                events,
            ).actions[i] == ActionView::Finish(no_op()),
    decreases events.len(),
{
    if events.len() > 0 {
        law_disabled_hook_asks_nothing(entries, events.drop_last());
    }
}

/// Where the session reports that no repository is there, an enabled hook
/// ends at once: with a `RepositoryInitError` if the policy says abort, with
/// a success that did nothing if not. Nothing more is asked of the session.
pub proof fn law_absent_repository(entries: Entries, events: Seq<EventView>)
    requires
        enabled_in(entries),
        events.len() > 0,
        events[0] == (EventView::Repository { present: false }),
    ensures
        abort_on_repo_init_failure_in(entries) ==> run(entries, events).phase == PhaseView::Done(
            OutcomeView::Failure(
                HookErrorView { kind: HookErrorKind::RepositoryInitError, cause: None },
            ),
        ),
        !abort_on_repo_init_failure_in(entries) ==> run(entries, events).phase == PhaseView::Done(
            no_op(),
        ),
        run(entries, events).actions[0] == ActionView::ProbeRepository,
        forall|i: int|
            1 <= i < run(entries, events).actions.len() ==> #[trigger] run(
                entries,
                events,
            ).actions[i] is Finish,
    decreases events.len(),
{
    let earlier = events.drop_last();
    if earlier.len() > 0 {
        assert(earlier[0] == events[0]);
        law_absent_repository(entries, earlier);
    } else {
        assert(run(entries, earlier).phase == PhaseView::AwaitRepository);
    }
}

/// Where the index is found clean, the run ends with a success that did
/// nothing, and no commit was asked for.
pub proof fn law_clean_index_makes_no_commit(entries: Entries, events: Seq<EventView>)
    requires
        index_check(entries, events) == Some(false),
    ensures
        run(entries, events).phase == PhaseView::Done(no_op()),
        commit_count(run(entries, events).actions) == 0,
{
    lemma_run_invariant(entries, events);
}

/// A commit is asked for at most once, and only where one is due: the hook
/// is enabled, a repository is there, the index was found dirty, and
/// committing is enabled.
pub proof fn law_commit_only_where_due(entries: Entries, events: Seq<EventView>)
    ensures
        commit_count(run(entries, events).actions) <= 1,
        commit_count(run(entries, events).actions) == 1 ==> commit_is_due(entries, events),
{
    lemma_run_invariant(entries, events);
}

/// Of a run that has ended well: it made a commit exactly if one was due.
pub proof fn law_commit_exactly_where_due(
    entries: Entries,
    events: Seq<EventView>,
    completion: CompletionView,
)
    requires
        run(entries, events).phase == PhaseView::Done(OutcomeView::Success(completion)),
    ensures
        completion is Committed <==> commit_is_due(entries, events),
        completion is Committed <==> commit_count(run(entries, events).actions) == 1,
{
    lemma_run_invariant(entries, events);
}

/// A run that has ended stays ended: whatever is reported to it, the answer
/// is the same `Finish`.
pub proof fn law_ended_run_stays_ended(
    entries: Entries,
    events: Seq<EventView>,
    outcome: OutcomeView,
    event: EventView,
)
    requires
        run(entries, events).phase == PhaseView::Done(outcome),
    ensures
        run(entries, events.push(event)).phase == PhaseView::Done(outcome),
        run(entries, events.push(event)).actions.last() == ActionView::Finish(outcome),
{
    assert(events.push(event).drop_last() =~= events);
}

/// How many more events a run can take before it has ended, at most.
pub open spec fn steps_left(phase: PhaseView) -> nat {
    match phase {
        PhaseView::AwaitRepository => 14,
        PhaseView::AwaitBranchName { .. } => 13,
        PhaseView::AwaitCheckout => 12,
        PhaseView::AwaitIndex => 11,
        PhaseView::AwaitWorkingTreeStatus => 10,
        PhaseView::AwaitStaging => 9,
        PhaseView::AwaitIndexStatus => 8,
        PhaseView::AwaitSignature => 7,
        PhaseView::AwaitHead { .. } => 6,
        PhaseView::AwaitTreeWrite { .. } => 5,
        PhaseView::AwaitParent { .. } => 4,
        PhaseView::AwaitTree { .. } => 3,
        PhaseView::AwaitCommit => 2,
        PhaseView::AwaitIndexWrite { .. } => 1,
        PhaseView::Done(_) => 0,
    }
}

/// Every step brings a run closer to its end, so a run has ended once the
/// session has reported fourteen events, and no run asks for more than
/// fourteen operations.
pub proof fn law_run_ends(entries: Entries, events: Seq<EventView>)
    ensures
        steps_left(run(entries, events).phase) + events.len() <= 14 || run(
            entries,
            events,
        ).phase is Done,
        events.len() >= 14 ==> run(entries, events).phase is Done,
    decreases events.len(),
{
    if events.len() > 0 {
        law_run_ends(entries, events.drop_last());
    }
}

/// Every run asks one action for the first step and one for each event, and
/// where it has ended, the last action is the `Finish` with its outcome.
pub proof fn law_one_action_per_event(entries: Entries, events: Seq<EventView>)
    ensures
        run(entries, events).actions.len() == events.len() + 1,
        run(entries, events).phase matches PhaseView::Done(outcome) ==> run(
            entries,
            events,
        ).actions.last() == ActionView::Finish(outcome),
{
    lemma_run_invariant(entries, events);
}

/// Where the working tree is dirty: with staging enabled, the next action
/// stages every change, and the index is looked at once that has succeeded;
/// with staging disabled, the index is looked at as it is, and a warning
/// says so.
pub proof fn law_dirty_tree_is_staged_first(entries: Entries, statuses: Seq<PathStatus>)
    requires
        dirty(statuses, Scope::WorkingTree),
    ensures
        add_wt_changes_in(entries) ==> {
            let staging = transition(
                entries,
                PhaseView::AwaitWorkingTreeStatus,
                EventView::Statuses(statuses),
            );
            &&& staging.action == ActionView::StageAll
            &&& transition(entries, staging.phase, EventView::Done).action
                == ActionView::QueryStatus(Scope::Index)
        },
        !add_wt_changes_in(entries) ==> {
            let skipped = transition(
                entries,
                PhaseView::AwaitWorkingTreeStatus,
                EventView::Statuses(statuses),
            );
            &&& skipped.action == ActionView::QueryStatus(Scope::Index)
            &&& skipped.warnings.len() > 0
            &&& skipped.warnings.last() == DiagnosticView::WorkingTreeDirtyNotStaged
        },
{
}

/// The commit that a run asks for has exactly one parent, one signature for
/// author and committer, and the placeholder message.
pub proof fn law_commit_record_shape(entries: Entries, phase: PhaseView, event: EventView)
    ensures
        transition(entries, phase, event).action matches ActionView::Commit(record) ==> {
            &&& phase matches PhaseView::AwaitTree { signature, head, tree }
            &&& record.parents == seq![head]
            &&& record.tree == tree
            &&& record.author == signature
            &&& record.committer == signature
            &&& record.message == "Dummy commit"@
        },
{
}

} // verus!
