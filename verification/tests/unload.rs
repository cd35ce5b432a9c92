use imag_hooks::diagnostics::{Diagnostic, Diagnostics, ValueKind};
use imag_hooks::error::{HookError, HookErrorKind, RepositoryErrorKind};
use imag_hooks::hook::{Capability, Hook, StoreId};
use imag_hooks::store_unload::StoreUnloadHook;
use imag_hooks::unload_run::replay;
use imag_hooks::vcs::{
    check_dirty, Action, CommitRecord, Completion, DirtyReport, Event, ObjectId, Outcome,
    PathStatus, Scope, Signature,
};

fn hook_with(text: &str) -> StoreUnloadHook {
    let mut hook = StoreUnloadHook::new("/home/user/store".to_string());
    let tree = toml::Value::Table(toml::Parser::new(text).parse().unwrap());
    hook.set_config(&tree);
    hook
}

/// Runs the hook against a session that answers with `events`, one after
/// the other, and returns every action that the hook asked for.
fn drive(hook: &StoreUnloadHook, events: Vec<Event>, log: &mut Diagnostics) -> Vec<Action> {
    let id = StoreId::new("notes/a".to_string());
    replay(hook, &id, &events, log)
}

fn oid(byte: u8) -> ObjectId {
    ObjectId { bytes: vec![byte; 20] }
}

fn signature() -> Signature {
    Signature {
        name: "A. Writer".to_string(),
        email: "writer@example.org".to_string(),
        seconds: 1_480_000_000,
        offset_minutes: 60,
    }
}

fn modified_in_wt() -> PathStatus {
    PathStatus { wt_modified: true, ..PathStatus::unchanged() }
}

fn modified_in_index() -> PathStatus {
    PathStatus { index_modified: true, ..PathStatus::unchanged() }
}

fn failure(kind: RepositoryErrorKind, cause: Option<&str>) -> Action {
    Action::Finish(Outcome::Failure(HookError {
        kind: HookErrorKind::RepositoryError(kind),
        cause: cause.map(|c| c.to_string()),
    }))
}

fn no_op() -> Action {
    Action::Finish(Outcome::Success(Completion::NoOp))
}

const ALL_ON: &str =
    "enabled = true\nadd_wt_changes_before_committing = true\ncommitting_is_enabled = true";

#[test]
fn hook_declares_itself() {
    let hook = StoreUnloadHook::new("/home/user/store".to_string());
    assert_eq!(hook.name(), "stdhook_git_storeunload");
    assert_eq!(hook.accessor(), Capability::IdentifierOnly);
    assert_eq!(hook.storepath(), "/home/user/store");
    assert!(!hook.has_config());
    assert!(hook_with("enabled = true").has_config());
}

#[test]
fn hook_without_configuration_does_nothing() {
    let hook = StoreUnloadHook::new("/home/user/store".to_string());
    let mut log = Diagnostics::new();
    let actions = drive(&hook, vec![], &mut log);
    assert_eq!(actions, vec![no_op()]);
    assert_eq!(log.len(), 0);
}

#[test]
fn disabled_hook_asks_nothing_of_the_session() {
    let hook = hook_with("enabled = false\ncommitting_is_enabled = true");
    let mut log = Diagnostics::new();
    let actions = drive(&hook, vec![Event::Repository { present: true }, Event::Done], &mut log);
    assert_eq!(actions, vec![no_op(), no_op(), no_op()]);
    assert_eq!(log.len(), 0);
}

#[test]
fn mistyped_enabled_counts_as_disabled_and_warns() {
    let hook = hook_with("enabled = \"yes\"");
    let mut log = Diagnostics::new();
    let actions = drive(&hook, vec![], &mut log);
    assert_eq!(actions, vec![no_op()]);
    assert_eq!(log.len(), 1);
    assert_eq!(
        log.get(0),
        Some(&Diagnostic::WrongType { key: "enabled".to_string(), expected: ValueKind::Boolean })
    );
}

#[test]
fn set_config_replaces_the_configuration() {
    let mut hook = hook_with("enabled = true");
    let mut log = Diagnostics::new();
    assert_eq!(drive(&hook, vec![], &mut log), vec![Action::ProbeRepository]);
    let tree = toml::Value::Table(toml::Parser::new("enabled = false").parse().unwrap());
    hook.set_config(&tree);
    assert_eq!(drive(&hook, vec![], &mut log), vec![no_op()]);
}

#[test]
fn absent_repository_fails_when_policy_says_abort() {
    let hook = hook_with("enabled = true\nabort_on_repo_init_failure = true");
    let mut log = Diagnostics::new();
    let actions = drive(&hook, vec![Event::Repository { present: false }], &mut log);
    let expected = Action::Finish(Outcome::Failure(HookError {
        kind: HookErrorKind::RepositoryInitError,
        cause: None,
    }));
    assert_eq!(actions, vec![Action::ProbeRepository, expected]);
}

#[test]
fn absent_repository_fails_by_default() {
    let hook = hook_with("enabled = true");
    let mut log = Diagnostics::new();
    let event = Event::Failed { cause: Some("could not find repository".to_string()) };
    let actions = drive(&hook, vec![event], &mut log);
    let expected = Action::Finish(Outcome::Failure(HookError {
        kind: HookErrorKind::RepositoryInitError,
        cause: Some("could not find repository".to_string()),
    }));
    assert_eq!(actions[1], expected);
}

#[test]
fn absent_repository_is_fine_when_policy_says_so() {
    let hook = hook_with("enabled = true\nabort_on_repo_init_failure = false");
    let mut log = Diagnostics::new();
    let actions = drive(&hook, vec![Event::Repository { present: false }], &mut log);
    assert_eq!(actions, vec![Action::ProbeRepository, no_op()]);
}

#[test]
fn modified_file_is_staged_and_committed() {
    let hook = hook_with(ALL_ON);
    let mut log = Diagnostics::new();
    let head = oid(1);
    let tree = oid(2);
    let commit = oid(3);
    let events = vec![
        Event::Repository { present: true },
        Event::Done,
        Event::Statuses(vec![modified_in_wt()]),
        Event::Done,
        Event::Statuses(vec![modified_in_index()]),
        Event::SignatureFetched(signature()),
        Event::HeadResolved { target: Some(head.clone()) },
        Event::TreeWritten(tree.clone()),
        Event::Done,
        Event::Done,
        Event::Committed(commit.clone()),
        Event::Done,
    ];
    let actions = drive(&hook, events, &mut log);
    let record = CommitRecord {
        author: signature(),
        committer: signature(),
        message: "Dummy commit".to_string(),
        tree: tree.clone(),
        parents: vec![head.clone()],
    };
    let expected = vec![
        Action::ProbeRepository,
        Action::FetchIndex,
        Action::QueryStatus(Scope::WorkingTree),
        Action::StageAll,
        Action::QueryStatus(Scope::Index),
        Action::FetchSignature,
        Action::ResolveHead,
        Action::WriteTree,
        Action::FindCommit(head),
        Action::FindTree(tree),
        Action::Commit(record),
        Action::WriteIndex,
        Action::Finish(Outcome::Success(Completion::Committed(commit))),
    ];
    assert_eq!(actions, expected);
    let commits = actions.iter().filter(|a| matches!(a, Action::Commit(_))).count();
    assert_eq!(commits, 1);
    assert_eq!(log.len(), 1);
    assert_eq!(log.get(0), Some(&Diagnostic::InteractiveCommitUnsupported));
}

#[test]
fn committing_disabled_stages_but_leaves_head() {
    let hook = hook_with(
        "enabled = true\nadd_wt_changes_before_committing = true\ncommitting_is_enabled = false",
    );
    let mut log = Diagnostics::new();
    let events = vec![
        Event::Repository { present: true },
        Event::Done,
        Event::Statuses(vec![modified_in_wt()]),
        Event::Done,
        Event::Statuses(vec![modified_in_index()]),
        Event::SignatureFetched(signature()),
        Event::HeadResolved { target: Some(oid(1)) },
        Event::TreeWritten(oid(2)),
    ];
    let actions = drive(&hook, events, &mut log);
    assert_eq!(actions[3], Action::StageAll);
    assert_eq!(actions[4], Action::QueryStatus(Scope::Index));
    assert_eq!(actions[8], no_op());
    assert_eq!(actions.len(), 9);
    assert!(actions.iter().all(|a| !matches!(a, Action::Commit(_))));
}

#[test]
fn no_modifications_is_a_no_op_whatever_the_flags() {
    for text in [
        ALL_ON,
        "enabled = true",
        "enabled = true\ncommitting_is_enabled = true",
        "enabled = true\nadd_wt_changes_before_committing = true",
    ] {
        let hook = hook_with(text);
        let mut log = Diagnostics::new();
        let events = vec![
            Event::Repository { present: true },
            Event::Done,
            Event::Statuses(vec![PathStatus::unchanged()]),
            Event::Statuses(vec![]),
        ];
        let actions = drive(&hook, events, &mut log);
        let expected = vec![
            Action::ProbeRepository,
            Action::FetchIndex,
            Action::QueryStatus(Scope::WorkingTree),
            Action::QueryStatus(Scope::Index),
            no_op(),
        ];
        assert_eq!(actions, expected);
        assert_eq!(log.len(), 0);
    }
}

#[test]
fn dirty_tree_without_staging_warns_and_checks_the_index() {
    let hook = hook_with("enabled = true\ncommitting_is_enabled = true");
    let mut log = Diagnostics::new();
    let events = vec![
        Event::Repository { present: true },
        Event::Done,
        Event::Statuses(vec![modified_in_wt()]),
        Event::Statuses(vec![]),
    ];
    let actions = drive(&hook, events, &mut log);
    assert_eq!(actions[3], Action::QueryStatus(Scope::Index));
    assert_eq!(actions[4], no_op());
    assert_eq!(log.len(), 1);
    assert_eq!(log.get(0), Some(&Diagnostic::WorkingTreeDirtyNotStaged));
}

#[test]
fn configured_branch_that_is_checked_out_is_left_alone() {
    let hook = hook_with("enabled = true\nensure_branch = \"store\"\ntry_checkout_ensure_branch = 1");
    let mut log = Diagnostics::new();
    let events = vec![
        Event::Repository { present: true },
        Event::Branch { name: Some("store".to_string()) },
    ];
    let actions = drive(&hook, events, &mut log);
    assert_eq!(actions[1], Action::ResolveBranch);
    assert_eq!(actions[2], Action::FetchIndex);
    assert_eq!(log.len(), 0);
}

#[test]
fn configured_branch_is_checked_out_by_default() {
    let hook = hook_with("enabled = true\nensure_branch = \"store\"");
    let mut log = Diagnostics::new();
    let events = vec![
        Event::Repository { present: true },
        Event::Branch { name: Some("master".to_string()) },
        Event::Done,
    ];
    let actions = drive(&hook, events, &mut log);
    assert_eq!(actions[2], Action::Checkout { branch: "store".to_string() });
    assert_eq!(actions[3], Action::FetchIndex);
}

#[test]
fn detached_head_counts_as_another_branch() {
    let hook = hook_with("enabled = true\nensure_branch = \"store\"");
    let mut log = Diagnostics::new();
    let cause = Some("conflict".to_string());
    let events = vec![
        Event::Repository { present: true },
        Event::Branch { name: None },
        Event::Failed { cause },
    ];
    let actions = drive(&hook, events, &mut log);
    assert_eq!(actions[2], Action::Checkout { branch: "store".to_string() });
    assert_eq!(actions[3], failure(RepositoryErrorKind::BranchCheckout, Some("conflict")));
}

#[test]
fn wrong_branch_fails_where_checkout_is_not_allowed() {
    let hook = hook_with("enabled = true\nensure_branch = \"store\"\ntry_checkout_ensure_branch = false");
    let mut log = Diagnostics::new();
    let events = vec![
        Event::Repository { present: true },
        Event::Branch { name: Some("master".to_string()) },
    ];
    let actions = drive(&hook, events, &mut log);
    assert_eq!(actions[2], failure(RepositoryErrorKind::WrongBranch, None));
}

#[test]
fn unknown_branch_is_a_branch_name_error() {
    let hook = hook_with("enabled = true\nensure_branch = \"store\"");
    let mut log = Diagnostics::new();
    let events = vec![Event::Repository { present: true }, Event::Failed { cause: None }];
    let actions = drive(&hook, events, &mut log);
    assert_eq!(actions[2], failure(RepositoryErrorKind::BranchNameFetch, None));
}

#[test]
fn mistyped_branch_is_a_config_type_error() {
    let hook = hook_with("enabled = true\nensure_branch = true");
    let mut log = Diagnostics::new();
    let actions = drive(&hook, vec![Event::Repository { present: true }], &mut log);
    let expected = Action::Finish(Outcome::Failure(HookError {
        kind: HookErrorKind::ConfigTypeError,
        cause: None,
    }));
    assert_eq!(actions[1], expected);
    assert_eq!(log.len(), 1);
}

#[test]
fn each_failing_step_has_its_error() {
    let good = || {
        vec![
            Event::Repository { present: true },
            Event::Done,
            Event::Statuses(vec![modified_in_wt()]),
            Event::Done,
            Event::Statuses(vec![modified_in_index()]),
            Event::SignatureFetched(signature()),
            Event::HeadResolved { target: Some(oid(1)) },
            Event::TreeWritten(oid(2)),
            Event::Done,
            Event::Done,
            Event::Committed(oid(3)),
            Event::Done,
        ]
    };
    let kinds = [
        (1, RepositoryErrorKind::IndexFetch),
        (2, RepositoryErrorKind::StatusFetch),
        (3, RepositoryErrorKind::PathStaging),
        (4, RepositoryErrorKind::StatusFetch),
        (5, RepositoryErrorKind::SignatureFetch),
        (6, RepositoryErrorKind::HeadFetch),
        (7, RepositoryErrorKind::IndexWriting),
        (8, RepositoryErrorKind::ParentCommitFetch),
        (9, RepositoryErrorKind::TreeFetch),
        (10, RepositoryErrorKind::CommitCreation),
        (11, RepositoryErrorKind::IndexWriting),
    ];
    for (at, kind) in kinds {
        let hook = hook_with(ALL_ON);
        let mut log = Diagnostics::new();
        let mut events = good();
        events.truncate(at);
        events.push(Event::Failed { cause: Some("broken".to_string()) });
        let actions = drive(&hook, events, &mut log);
        assert_eq!(actions[at + 1], failure(kind, Some("broken")));
    }
}

#[test]
fn empty_history_is_a_head_fetch_error() {
    let hook = hook_with(ALL_ON);
    let mut log = Diagnostics::new();
    let events = vec![
        Event::Repository { present: true },
        Event::Done,
        Event::Statuses(vec![]),
        Event::Statuses(vec![PathStatus { index_new: true, ..PathStatus::unchanged() }]),
        Event::SignatureFetched(signature()),
        Event::HeadResolved { target: None },
    ];
    let actions = drive(&hook, events, &mut log);
    assert_eq!(actions[6], failure(RepositoryErrorKind::HeadFetch, None));
}

#[test]
fn ended_run_stays_ended() {
    let hook = hook_with("enabled = true\nabort_on_repo_init_failure = false");
    let mut log = Diagnostics::new();
    let events = vec![
        Event::Repository { present: false },
        Event::Committed(oid(9)),
        Event::Statuses(vec![modified_in_index()]),
    ];
    let actions = drive(&hook, events, &mut log);
    assert_eq!(actions, vec![Action::ProbeRepository, no_op(), no_op(), no_op()]);
}

#[test]
fn run_knows_when_it_is_done() {
    let hook = hook_with("enabled = true");
    let mut log = Diagnostics::new();
    let id = StoreId::new("notes/a".to_string());
    let (run, _) = hook.access(&id, &mut log);
    assert!(!run.is_done());
    let (run, _) = run.step(Event::Repository { present: false }, &mut log);
    assert!(run.is_done());
}

#[test]
fn outcome_becomes_a_hook_result() {
    assert_eq!(Outcome::Success(Completion::NoOp).into_result(), Ok(()));
    assert_eq!(Outcome::Success(Completion::Committed(oid(1))).into_result(), Ok(()));
    let error = HookError { kind: HookErrorKind::RepositoryInitError, cause: None };
    let same = HookError { kind: HookErrorKind::RepositoryInitError, cause: None };
    assert_eq!(Outcome::Failure(error).into_result(), Err(same));
}

#[test]
fn dirty_means_some_path_carries_a_change() {
    let clean = PathStatus::unchanged();
    assert!(!check_dirty(&vec![], Scope::WorkingTree));
    assert!(!check_dirty(&vec![clean, clean], Scope::WorkingTree));
    assert!(check_dirty(&vec![clean, modified_in_wt()], Scope::WorkingTree));
    assert!(!check_dirty(&vec![clean, modified_in_wt()], Scope::Index));
    assert!(check_dirty(&vec![modified_in_index()], Scope::Index));
    for status in [
        PathStatus { wt_new: true, ..clean },
        PathStatus { wt_deleted: true, ..clean },
        PathStatus { wt_renamed: true, ..clean },
    ] {
        assert!(status.carries_change(Scope::WorkingTree));
        assert!(!status.carries_change(Scope::Index));
    }
    for status in [
        PathStatus { index_new: true, ..clean },
        PathStatus { index_deleted: true, ..clean },
        PathStatus { index_renamed: true, ..clean },
    ] {
        assert!(status.carries_change(Scope::Index));
        assert!(!status.carries_change(Scope::WorkingTree));
    }
    let report = DirtyReport::of(&vec![clean, modified_in_index()]);
    assert_eq!(report, DirtyReport { working_tree: false, index: true });
    assert!(report.is_dirty(Scope::Index));
    assert!(!report.is_dirty(Scope::WorkingTree));
}

#[test]
fn commit_record_has_one_parent_and_one_signature() {
    let record = CommitRecord::of_hook(signature(), oid(1), oid(2), "Dummy commit".to_string());
    assert_eq!(record.parents, vec![oid(1)]);
    assert_eq!(record.tree, oid(2));
    assert_eq!(record.author, signature());
    assert_eq!(record.committer, signature());
    assert_eq!(record.message, "Dummy commit");
    assert_eq!(signature().clone(), signature());
    assert_eq!(oid(4).clone(), oid(4));
}

#[test]
fn hook_describes_itself_in_one_line() {
    let hook = StoreUnloadHook::new("/home/user/my \"store\"".to_string());
    assert_eq!(
        hook.describe(false),
        "StoreUnloadHook(storepath=\"/home/user/my \\\"store\\\"\", repository=None, cfg=false)"
    );
    let hook = hook_with("enabled = true");
    assert_eq!(
        hook.describe(true),
        "StoreUnloadHook(storepath=\"/home/user/store\", repository=Some(_), cfg=true)"
    );
}

#[test]
fn stepping_by_hand_asks_what_a_replay_asks() {
    let hook = hook_with(ALL_ON);
    let events = vec![
        Event::Repository { present: true },
        Event::Done,
        Event::Statuses(vec![modified_in_wt()]),
        Event::Failed { cause: None },
    ];
    let id = StoreId::new("notes/a".to_string());
    let mut log = Diagnostics::new();
    let (mut run, first) = hook.access(&id, &mut log);
    let mut by_hand = vec![first];
    for event in &events {
        let (next, action) = run.step(event.clone(), &mut log);
        run = next;
        by_hand.push(action);
    }
    let mut replayed_log = Diagnostics::new();
    assert_eq!(by_hand, replay(&hook, &id, &events, &mut replayed_log));
    assert_eq!(by_hand[4], failure(RepositoryErrorKind::PathStaging, None));
    assert_eq!(log.len(), replayed_log.len());
}
